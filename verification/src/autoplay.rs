//! Autoplay: every enrolled user has a shuffled playlist, and the next song is
//! taken from the user who has accumulated the least play time so far.

use vstd::prelude::*;
use std::collections::HashMap;
use crate::model::{MinstrelUserId, Requester, Song, SongRequest};
use crate::usertime::{UserTimeQueue, enrolled_times, is_least_entry, queue_new, queue_clone, queue_push, queue_pop, queue_peek, queue_get, queue_remove, queue_change_time, queue_clear, queue_entries, queue_debug_text};
use crate::random::shuffle_in_place;
use crate::keys::keys_of;

verus! {

broadcast use vstd::std_specs::hash::group_hash_axioms;

/// Successful outcomes of autoplay commands.
#[derive(Debug)]
pub enum AutoplayOk {
    Status(bool),
    RegisteredUser,
    UpdatedPlaylist,
    EnrolledUser,
    RemovedUser,
    Done,
}

/// The message shown for an autoplay outcome.
pub open spec fn autoplay_ok_text(o: AutoplayOk) -> Seq<char> {
    match o {
        AutoplayOk::RegisteredUser => "Registered user and playlist for autoplay"@,
        AutoplayOk::UpdatedPlaylist => "Refreshed playlist, upcoming songs have been shuffled"@,
        AutoplayOk::EnrolledUser => "Enrolled user for current autoplay"@,
        AutoplayOk::RemovedUser => "Removed user from current autoplay"@,
        _ => "Unknown response, fill me in!"@,
    }
}

impl AutoplayOk {
    /// The message shown for this outcome.
    pub fn message(&self) -> (s: String)
        ensures
            s@ == autoplay_ok_text(*self),
    {
        let t = match self {
            AutoplayOk::RegisteredUser => "Registered user and playlist for autoplay",
            AutoplayOk::UpdatedPlaylist => "Refreshed playlist, upcoming songs have been shuffled",
            AutoplayOk::EnrolledUser => "Enrolled user for current autoplay",
            AutoplayOk::RemovedUser => "Removed user from current autoplay",
            _ => "Unknown response, fill me in!",
        };
        t.to_owned()
    }
}

/// Failures of autoplay commands.
#[derive(Clone, Copy, Debug, PartialEq, Eq, Structural)]
pub enum AutoplayError {
    AlreadyEnrolled,
    UserNotEnrolled,
    UrlNotPlaylist,
    UserNotRegistered,
    ExcessiveSize,
    UnknownError,
}

/// Commands understood by the autoplay state.
#[derive(Debug)]
pub enum AutoplayControlCmd {
    Enable,
    Disable,
    Status,
    EnableUser(MinstrelUserId),
    DisableUser(MinstrelUserId),
    DisableAllUsers,
    ShuffleUser(MinstrelUserId),
    Rebalance,
    UpdatePlaylist(Requester),
    AdvancePlaylist((MinstrelUserId, u64)),
    BumpPlaylist((MinstrelUserId, usize)),
}

impl Clone for AutoplayControlCmd {
    fn clone(&self) -> (r: Self)
        ensures
            r == *self,
    {
        match self {
            AutoplayControlCmd::Enable => AutoplayControlCmd::Enable,
            AutoplayControlCmd::Disable => AutoplayControlCmd::Disable,
            AutoplayControlCmd::Status => AutoplayControlCmd::Status,
            AutoplayControlCmd::EnableUser(u) => AutoplayControlCmd::EnableUser(*u),
            AutoplayControlCmd::DisableUser(u) => AutoplayControlCmd::DisableUser(*u),
            AutoplayControlCmd::DisableAllUsers => AutoplayControlCmd::DisableAllUsers,
            AutoplayControlCmd::ShuffleUser(u) => AutoplayControlCmd::ShuffleUser(*u),
            AutoplayControlCmd::Rebalance => AutoplayControlCmd::Rebalance,
            AutoplayControlCmd::UpdatePlaylist(r) => AutoplayControlCmd::UpdatePlaylist(r.clone()),
            AutoplayControlCmd::AdvancePlaylist((u, n)) => AutoplayControlCmd::AdvancePlaylist((*u, *n)),
            AutoplayControlCmd::BumpPlaylist((u, i)) => AutoplayControlCmd::BumpPlaylist((*u, *i)),
        }
    }
}

/// One user's playlist, read from `index` on; the songs before `index` have
/// been played since the last shuffle.
pub struct UserPlaylist {
    index: usize,
    list: Vec<SongRequest>,
}

impl Clone for UserPlaylist {
    fn clone(&self) -> (r: Self)
        ensures
            r.position() == self.position(),
            r.songs() == self.songs(),
    {
        let list = self.list.clone();
        proof {
            assert(list@ =~= self.list@);
        }
        UserPlaylist { index: self.index, list }
    }
}

/// `new` is a playlist that `old` becomes after one song is taken: the next
/// position, or, once the end is reached, position zero of a reshuffle.
pub open spec fn advanced(old: UserPlaylist, new: UserPlaylist) -> bool {
    if old.position() + 1 < old.songs().len() {
        new.songs() == old.songs() && new.position() == old.position() + 1
    } else {
        new.position() == 0 && new.songs().to_multiset() == old.songs().to_multiset()
    }
}

impl UserPlaylist {
    /// Position of the next song.
    pub closed spec fn position(&self) -> nat {
        self.index as nat
    }

    /// The songs, in playing order.
    pub closed spec fn songs(&self) -> Seq<SongRequest> {
        self.list@
    }

    /// There is a next song to play.
    pub open spec fn wf(&self) -> bool {
        self.position() < self.songs().len()
    }

    /// The song that `next` gives.
    pub open spec fn upcoming(&self) -> SongRequest {
        self.songs()[self.position() as int]
    }

    pub fn new(list: Vec<SongRequest>) -> (r: UserPlaylist)
        ensures
            r.position() == 0,
            r.songs() == list@,
    {
        UserPlaylist { index: 0, list }
    }

    /// Number of songs.
    pub fn len(&self) -> (n: usize)
        ensures
            n == self.songs().len(),
    {
        self.list.len()
    }

    /// Takes the next song; at the end of the list the playlist is reshuffled
    /// and starts over.
    pub fn next(&mut self) -> (r: SongRequest)
        requires
            old(self).wf(),
        ensures
            r == old(self).upcoming(),
            advanced(*old(self), *final(self)),
            final(self).wf(),
    {
        let n = self.list.len();
        let r = self.list[self.index].clone();
        self.index = self.index + 1;
        if self.index >= self.list.len() {
            self.shuffle();
        }
        r
    }

    /// Reshuffles the playlist and starts it over.
    pub fn shuffle(&mut self)
        ensures
            final(self).position() == 0,
            final(self).songs().to_multiset() == old(self).songs().to_multiset(),
            final(self).songs().len() == old(self).songs().len(),
    {
        self.index = 0;
        shuffle_in_place(&mut self.list);
        proof {
            broadcast use vstd::seq_lib::group_to_multiset_ensures;
            assert(self.list@.len() == self.list@.to_multiset().len());
            assert(old(self).list@.len() == old(self).list@.to_multiset().len());
        }
    }

    /// Moves the song `index` places ahead of the next one to the end of the list.
    pub fn push_to_end(&mut self, index: usize) -> (r: Result<(), AutoplayError>)
        requires
            old(self).position() + index <= usize::MAX,
        ensures
            old(self).position() + index >= old(self).songs().len() ==> {
                &&& r matches Err(AutoplayError::ExcessiveSize)
                &&& *final(self) == *old(self)
            },
            old(self).position() + index < old(self).songs().len() ==> {
                let k = old(self).position() + index;
                &&& r is Ok
                &&& final(self).position() == old(self).position()
                &&& final(self).songs() == old(self).songs().remove(k as int).push(old(self).songs()[k as int])
            },
    {
        let index = self.index + index;
        if index >= self.list.len() {
            Err(AutoplayError::ExcessiveSize)
        } else {
            let elem = self.list.remove(index);
            self.list.push(elem);
            Ok(())
        }
    }
}

} // verus!

verus! {

/// Every song of the playlist was asked for by user `u`.
pub open spec fn owned_by(p: UserPlaylist, u: MinstrelUserId) -> bool {
    forall|i: int| 0 <= i < p.songs().len() ==> (#[trigger] p.songs()[i]).requested_by.id == u
}

/// Every playlist has a next song and holds only its owner's requests.
pub open spec fn playlists_ok(p: Map<MinstrelUserId, UserPlaylist>) -> bool {
    forall|u: MinstrelUserId| #[trigger] p.contains_key(u) ==> p[u].wf() && owned_by(p[u], u)
}

/// The last known time of an enrolled user is their current time.
pub open spec fn times_cached(times: Map<MinstrelUserId, i64>, cached: Map<MinstrelUserId, i64>) -> bool {
    forall|u: MinstrelUserId| #[trigger] times.contains_key(u)
        ==> cached.contains_key(u) && cached[u] == times[u]
}

/// The value fits in an `i64`.
pub open spec fn fits_i64(x: int) -> bool {
    i64::MIN <= x <= i64::MAX
}

/// The least time held in `m`, when `m` is not empty.
pub open spec fn least_time(m: Map<i64, i64>) -> i64 {
    choose|t: i64| is_least_time(m, t)
}

/// Some entry of `m` holds the least time `t`.
pub open spec fn is_least_time(m: Map<i64, i64>, t: i64) -> bool {
    exists|v: i64| #[trigger] is_least_entry(m, v, t)
}

/// `s2` holds the same elements as `s1`, so every element of `s2` was
/// asked for by `u` when every element of `s1` was.
pub proof fn lemma_same_multiset_owned(s1: Seq<SongRequest>, s2: Seq<SongRequest>, u: MinstrelUserId)
    requires
        s1.to_multiset() == s2.to_multiset(),
        forall|i: int| 0 <= i < s1.len() ==> (#[trigger] s1[i]).requested_by.id == u,
    ensures
        forall|i: int| 0 <= i < s2.len() ==> (#[trigger] s2[i]).requested_by.id == u,
{
    broadcast use vstd::seq_lib::group_to_multiset_ensures;
    assert forall|i: int| 0 <= i < s2.len() implies (#[trigger] s2[i]).requested_by.id == u by {
        assert(s2.contains(s2[i]));
        assert(s2.to_multiset().count(s2[i]) > 0);
        assert(s1.contains(s2[i]));
    }
}

/// The least time of a map is the one held by any least entry.
pub proof fn lemma_least_time(m: Map<i64, i64>, u: i64, t: i64)
    requires
        is_least_entry(m, u, t),
    ensures
        least_time(m) == t,
{
    assert(is_least_time(m, t));
    let lt = least_time(m);
    let w = choose|v: i64| is_least_entry(m, v, lt);
    assert(is_least_entry(m, w, lt));
    assert(lt <= m[u]);
    assert(t <= m[w]);
}

/// What one call of `step` can come to.
pub enum AutoplayStep {
    /// Nobody is enrolled.
    Empty,
    /// The next song.
    Song(SongRequest),
    /// The user picked has no playlist, or their new time leaves the `i64`
    /// range: the point at which autoplay cannot go on.
    Fault,
}

/// The autoplay state: registered playlists, the enrolled users' times, and
/// the last known time of every user who has been enrolled.
pub struct AutoplayState {
    userlists: HashMap<MinstrelUserId, UserPlaylist>,
    usertime: UserTimeQueue,
    usertimecache: HashMap<MinstrelUserId, i64>,
    enabled: bool,
}

/// `new` differs from `old` only in what `next` changes: user `u`'s time, the
/// last known time of `u`, and `u`'s playlist, advanced by one song `s`.
pub open spec fn next_taken(old: AutoplayState, new: AutoplayState, s: SongRequest) -> bool {
    let u = s.requested_by.id;
    let t = old.times()[u];
    &&& is_least_entry(old.times(), u, t)
    &&& old.playlists().contains_key(u)
    &&& s == old.playlists()[u].upcoming()
    &&& new.times() == old.times().insert(u, (t + s.song.duration) as i64)
    &&& new.cached_times() == old.cached_times().insert(u, (t + s.song.duration) as i64)
    &&& new.playlists().dom() == old.playlists().dom()
    &&& new.playlists() == old.playlists().insert(u, new.playlists()[u])
    &&& advanced(old.playlists()[u], new.playlists()[u])
    &&& new.is_on() == old.is_on()
}

/// Two states agree on everything a caller can observe.
pub open spec fn same_state(a: AutoplayState, b: AutoplayState) -> bool {
    &&& a.playlists() == b.playlists()
    &&& a.times() == b.times()
    &&& a.cached_times() == b.cached_times()
    &&& a.is_on() == b.is_on()
}

/// The time a user gets when enrolled: the current minimum, the least
/// enrolled time; zero when nobody else is enrolled.
pub open spec fn enroll_time(s: AutoplayState, u: MinstrelUserId) -> i64 {
    if s.times().dom().is_empty() {
        0
    } else {
        least_time(s.times())
    }
}

/// Every key of `m` maps to zero, and `m` has the keys of `dom_of`.
pub open spec fn zeroed(m: Map<i64, i64>, dom_of: Set<i64>) -> bool {
    &&& m.dom() == dom_of
    &&& forall|k: i64| #[trigger] m.contains_key(k) ==> m[k] == 0
}

impl AutoplayState {
    /// Registered playlists by user.
    pub closed spec fn playlists(&self) -> Map<MinstrelUserId, UserPlaylist> {
        self.userlists@
    }

    /// Accumulated play time of every enrolled user.
    pub closed spec fn times(&self) -> Map<MinstrelUserId, i64> {
        enrolled_times(self.usertime)
    }

    /// Last known time of every user who has been enrolled.
    pub closed spec fn cached_times(&self) -> Map<MinstrelUserId, i64> {
        self.usertimecache@
    }

    /// Autoplay is switched on.
    pub closed spec fn is_on(&self) -> bool {
        self.enabled
    }

    /// Every playlist has a next song and holds only its owner's requests, and
    /// the last known time of an enrolled user is their current time.
    pub open spec fn wf(&self) -> bool {
        &&& playlists_ok(self.playlists())
        &&& times_cached(self.times(), self.cached_times())
    }

    /// Every enrolled user has a playlist, and charging them for their next
    /// song keeps their time in the `i64` range.
    pub open spec fn advance_fits(&self) -> bool {
        forall|u: MinstrelUserId| #[trigger] self.times().contains_key(u)
            ==> self.playlists().contains_key(u)
                && fits_i64(self.times()[u] + self.playlists()[u].upcoming().song.duration)
    }

    /// An empty, disabled autoplay state.
    pub fn new() -> (r: AutoplayState)
        ensures
            r.wf(),
            r.playlists().dom().is_empty(),
            r.times().dom().is_empty(),
            r.cached_times().dom().is_empty(),
            !r.is_on(),
    {
        AutoplayState {
            userlists: HashMap::new(),
            usertime: queue_new(),
            usertimecache: HashMap::new(),
            enabled: false,
        }
    }

    /// A copy with the same playlists, times and switch.
    pub fn snapshot(&self) -> (r: AutoplayState)
        ensures
            same_state(r, *self),
    {
        AutoplayState {
            userlists: self.userlists.clone(),
            usertime: queue_clone(&self.usertime),
            usertimecache: self.usertimecache.clone(),
            enabled: self.enabled,
        }
    }

    pub fn enable(&mut self)
        ensures
            final(self).is_on(),
            final(self).playlists() == old(self).playlists(),
            final(self).times() == old(self).times(),
            final(self).cached_times() == old(self).cached_times(),
    {
        self.enabled = true;
    }

    pub fn disable(&mut self)
        ensures
            !final(self).is_on(),
            final(self).playlists() == old(self).playlists(),
            final(self).times() == old(self).times(),
            final(self).cached_times() == old(self).cached_times(),
    {
        self.enabled = false;
    }

    pub fn is_enabled(&self) -> (b: bool)
        ensures
            b == self.is_on(),
    {
        self.enabled
    }

    /// Takes one song from the enrolled user with the least time and charges
    /// them its duration, or reports why that cannot be done; on `Empty` and
    /// `Fault` the state is left as it was.
    pub fn step(&mut self) -> (r: AutoplayStep)
        requires
            old(self).wf(),
        ensures
            final(self).wf(),
            r is Empty <==> old(self).times().dom().is_empty(),
            r is Empty ==> same_state(*final(self), *old(self)),
            r is Fault ==> same_state(*final(self), *old(self)) && !old(self).advance_fits(),
            r matches AutoplayStep::Song(s) ==> next_taken(*old(self), *final(self), s),
    {
        let ghost old_self = *self;
        match queue_pop(&mut self.usertime) {
            None => {
                proof {
                    assert(self.times() =~= old_self.times());
                    assert(self.playlists() == old_self.playlists());
                    assert(self.cached_times() == old_self.cached_times());
                    assert(old_self.wf());
                }
                assert(self.wf());
                AutoplayStep::Empty
            },
            Some((user, time)) => {
                proof {
                    assert(old_self.times().contains_key(user));
                    assert(!old_self.times().dom().is_empty());
                }
                match self.userlists.remove(&user) {
                    None => {
                        queue_push(&mut self.usertime, user, time);
                        proof {
                            assert(self.times() =~= old_self.times());
                            assert(self.playlists() =~= old_self.playlists());
                            assert(!old_self.playlists().contains_key(user));
                            assert(!old_self.advance_fits()) by {
                                assert(old_self.times().contains_key(user));
                            }
                        }
                        assert(self.wf());
                        AutoplayStep::Fault
                    },
                    Some(mut up) => {
                        proof {
                            assert(old_self.playlists().contains_key(user));
                            assert(old_self.playlists()[user] == up);
                        }
                        let d = up.upcoming_duration();
                        match time.checked_add(d) {
                            None => {
                                self.userlists.insert(user, up);
                                queue_push(&mut self.usertime, user, time);
                                proof {
                                    assert(self.times() =~= old_self.times());
                                    assert(self.playlists() =~= old_self.playlists());
                                    assert(!fits_i64(time + d));
                                    assert(!old_self.advance_fits()) by {
                                        assert(old_self.times().contains_key(user));
                                    }
                                }
                                assert(self.wf());
                                AutoplayStep::Fault
                            },
                            Some(t2) => {
                                let song = up.next();
                                proof {
                                    lemma_same_multiset_owned_after_advance(old_self.playlists()[user], up, user);
                                }
                                self.userlists.insert(user, up);
                                queue_push(&mut self.usertime, user, t2);
                                self.usertimecache.insert(user, t2);
                                proof {
                                    assert(self.times() =~= old_self.times().insert(user, t2));
                                    assert(self.playlists() =~= old_self.playlists().insert(user, up));
                                    assert(song.requested_by.id == user);
                                    assert forall|v: MinstrelUserId| #[trigger] self.playlists().contains_key(v)
                                        implies self.playlists()[v].wf() && owned_by(self.playlists()[v], v) by {
                                        if v != user {
                                            assert(old_self.playlists().contains_key(v));
                                        }
                                    }
                                    assert forall|v: MinstrelUserId| #[trigger] self.times().contains_key(v)
                                        implies self.cached_times().contains_key(v)
                                            && self.cached_times()[v] == self.times()[v] by {
                                        if v != user {
                                            assert(old_self.times().contains_key(v));
                                        }
                                    }
                                }
                                assert(self.wf());
                                AutoplayStep::Song(song)
                            },
                        }
                    },
                }
            },
        }
    }

    /// Gets the next song to play and charges its duration to the user it
    /// comes from: the enrolled user with the least time. `None` when nobody
    /// is enrolled.
    pub fn next(&mut self) -> (r: Option<SongRequest>)
        requires
            old(self).wf(),
            old(self).advance_fits(),
        ensures
            final(self).wf(),
            r is None <==> old(self).times().dom().is_empty(),
            r is None ==> same_state(*final(self), *old(self)),
            r matches Some(s) ==> next_taken(*old(self), *final(self), s),
    {
        match self.step() {
            AutoplayStep::Song(s) => Some(s),
            _ => None,
        }
    }
}

impl UserPlaylist {
    /// Duration of the next song.
    pub fn upcoming_duration(&self) -> (d: i64)
        requires
            self.wf(),
        ensures
            d == self.upcoming().song.duration,
    {
        self.list[self.index].song.duration
    }
}

/// Advancing a playlist keeps it holding only its owner's requests.
pub proof fn lemma_same_multiset_owned_after_advance(old: UserPlaylist, new: UserPlaylist, u: MinstrelUserId)
    requires
        advanced(old, new),
        owned_by(old, u),
    ensures
        owned_by(new, u),
{
    if old.position() + 1 >= old.songs().len() {
        lemma_same_multiset_owned(old.songs(), new.songs(), u);
    }
}

} // verus!

verus! {

/// The requests that loading `songs` for `requester` builds, in order.
pub open spec fn requests_for(songs: Seq<Song>, requester: Requester) -> Seq<SongRequest> {
    Seq::new(songs.len(), |i: int| SongRequest { song: songs[i], requested_by: requester })
}

/// Autoplay, starting from `a`, plays the songs `v` in order, passing
/// through `states`: each song is the next one taken from the state before it.
pub open spec fn plays(a: AutoplayState, v: Seq<SongRequest>, states: Seq<AutoplayState>) -> bool {
    &&& states.len() == v.len() + 1
    &&& same_state(states[0], a)
    &&& forall|i: int| #![trigger v[i]] 0 <= i < v.len() ==> next_taken(states[i], states[i + 1], v[i])
}

/// Autoplay, run from `s`, gets stuck before giving `n` songs: a state it
/// reaches after fewer songs cannot take the next one, because a time would
/// leave the `i64` range.
pub open spec fn prefetch_blocked(s: AutoplayState, n: nat) -> bool {
    exists|v: Seq<SongRequest>, states: Seq<AutoplayState>|
        #[trigger] plays(s, v, states) && v.len() < n && !states.last().advance_fits()
}

/// What a look-ahead of `n` songs from `s` gives, as a sequence: the songs
/// autoplay would play next, or nothing when `n` is positive and nobody is
/// enrolled or the run gets stuck.
pub open spec fn lookahead(s: AutoplayState, n: nat, up: Seq<SongRequest>) -> bool {
    ||| prefetched(s, n, up)
    ||| (up.len() == 0 && n > 0 && (s.times().dom().is_empty() || prefetch_blocked(s, n)))
}

/// `v` is what autoplay would give as its next `n` songs from `s`.
pub open spec fn prefetched(s: AutoplayState, n: nat, v: Seq<SongRequest>) -> bool {
    &&& v.len() == n
    &&& exists|states: Seq<AutoplayState>| #[trigger] plays(s, v, states)
}

/// What replacing the playlist of `requester` with `songs` does.
pub open spec fn load_outcome(old: AutoplayState, new: AutoplayState, requester: Requester, songs: Seq<Song>, r: Result<AutoplayOk, AutoplayError>) -> bool {
    &&& new.times() == old.times()
    &&& new.cached_times() == old.cached_times()
    &&& new.is_on() == old.is_on()
    &&& songs.len() == 0 ==> {
        &&& r matches Ok(AutoplayOk::RemovedUser)
        &&& new.playlists() == old.playlists().remove(requester.id)
    }
    &&& songs.len() > 0 ==> {
        let p = new.playlists()[requester.id];
        &&& r matches Ok(AutoplayOk::UpdatedPlaylist)
        &&& new.playlists() == old.playlists().insert(requester.id, p)
        &&& p.position() == 0
        &&& p.songs().to_multiset() == requests_for(songs, requester).to_multiset()
    }
}

/// What enrolling `userid` does.
pub open spec fn enable_user_outcome(old: AutoplayState, new: AutoplayState, userid: MinstrelUserId, r: Result<AutoplayOk, AutoplayError>) -> bool {
    &&& new.playlists() == old.playlists()
    &&& new.is_on() == old.is_on()
    &&& !old.playlists().contains_key(userid) ==> {
        &&& r matches Err(AutoplayError::UserNotRegistered)
        &&& same_state(new, old)
    }
    &&& old.playlists().contains_key(userid) && old.times().contains_key(userid) ==> {
        &&& r matches Err(AutoplayError::AlreadyEnrolled)
        &&& same_state(new, old)
    }
    &&& old.playlists().contains_key(userid) && !old.times().contains_key(userid) ==> {
        let t = enroll_time(old, userid);
        &&& r matches Ok(AutoplayOk::EnrolledUser)
        &&& new.times() == old.times().insert(userid, t)
        &&& new.cached_times() == old.cached_times().insert(userid, t)
    }
}

/// What taking `userid` out of autoplay does.
pub open spec fn disable_user_outcome(old: AutoplayState, new: AutoplayState, userid: MinstrelUserId, r: Result<AutoplayOk, AutoplayError>) -> bool {
    &&& new.playlists() == old.playlists()
    &&& new.is_on() == old.is_on()
    &&& !old.times().contains_key(userid) ==> {
        &&& r matches Err(AutoplayError::UserNotEnrolled)
        &&& same_state(new, old)
    }
    &&& old.times().contains_key(userid) ==> {
        &&& r matches Ok(AutoplayOk::RemovedUser)
        &&& new.times() == old.times().remove(userid)
        &&& new.cached_times()
            == old.cached_times().insert(userid, old.times()[userid])
    }
}

/// What taking everyone out of autoplay does.
pub open spec fn disable_all_outcome(old: AutoplayState, new: AutoplayState) -> bool {
    &&& new.times().dom().is_empty()
    &&& zeroed(new.cached_times(), old.cached_times().dom())
    &&& new.playlists() == old.playlists()
    &&& new.is_on() == old.is_on()
}

/// What resetting every time to zero does.
pub open spec fn reset_outcome(old: AutoplayState, new: AutoplayState) -> bool {
    &&& zeroed(new.times(), old.times().dom())
    &&& zeroed(new.cached_times(), old.cached_times().dom())
    &&& new.playlists() == old.playlists()
    &&& new.is_on() == old.is_on()
}

/// What reshuffling the playlist of `userid` does.
pub open spec fn shuffle_user_outcome(old: AutoplayState, new: AutoplayState, userid: MinstrelUserId, r: Result<AutoplayOk, AutoplayError>) -> bool {
    &&& new.times() == old.times()
    &&& new.cached_times() == old.cached_times()
    &&& new.is_on() == old.is_on()
    &&& !old.playlists().contains_key(userid) ==> {
        &&& r matches Err(AutoplayError::UnknownError)
        &&& new.playlists() == old.playlists()
    }
    &&& old.playlists().contains_key(userid) ==> {
        let p = new.playlists()[userid];
        &&& r matches Ok(AutoplayOk::EnrolledUser)
        &&& new.playlists() == old.playlists().insert(userid, p)
        &&& p.position() == 0
        &&& p.songs().to_multiset() == old.playlists()[userid].songs().to_multiset()
    }
}

/// What skipping `num` songs of the playlist of `userid` does.
pub open spec fn advance_outcome(old: AutoplayState, new: AutoplayState, userid: MinstrelUserId, num: u64, r: Result<AutoplayOk, AutoplayError>) -> bool {
    &&& new.times() == old.times()
    &&& new.cached_times() == old.cached_times()
    &&& new.is_on() == old.is_on()
    &&& !old.playlists().contains_key(userid) ==> {
        &&& r matches Err(AutoplayError::UserNotRegistered)
        &&& new.playlists() == old.playlists()
    }
    &&& old.playlists().contains_key(userid) ==> {
        let p0 = old.playlists()[userid];
        let p = new.playlists()[userid];
        &&& r matches Ok(AutoplayOk::Done)
        &&& new.playlists() == old.playlists().insert(userid, p)
        &&& p.songs().to_multiset() == p0.songs().to_multiset()
        &&& p.position() == (p0.position() + num) % (p0.songs().len() as int)
        &&& p0.position() + num < p0.songs().len() ==> {
            &&& p.songs() == p0.songs()
            &&& p.position() == p0.position() + num
        }
    }
}

/// What moving the song `index` places ahead to the end of the playlist of `userid` does.
pub open spec fn bump_outcome(old: AutoplayState, new: AutoplayState, userid: MinstrelUserId, index: usize, prefetch_max: u64, r: Result<AutoplayOk, AutoplayError>) -> bool {
    &&& new.times() == old.times()
    &&& new.cached_times() == old.cached_times()
    &&& new.is_on() == old.is_on()
    &&& index > prefetch_max as usize ==> {
        &&& r matches Err(AutoplayError::ExcessiveSize)
        &&& new.playlists() == old.playlists()
    }
    &&& index <= prefetch_max as usize && !old.playlists().contains_key(userid) ==> {
        &&& r matches Ok(AutoplayOk::Done)
        &&& new.playlists() == old.playlists()
    }
    &&& index <= prefetch_max as usize && old.playlists().contains_key(userid) ==> {
        let p0 = old.playlists()[userid];
        let k = p0.position() + index;
        let p = new.playlists()[userid];
        &&& k >= p0.songs().len() ==> {
            &&& r matches Err(AutoplayError::ExcessiveSize)
            &&& new.playlists() == old.playlists()
        }
        &&& k < p0.songs().len() ==> {
            &&& r matches Ok(AutoplayOk::Done)
            &&& new.playlists() == old.playlists().insert(userid, p)
            &&& p.position() == p0.position()
            &&& p.songs() == p0.songs().remove(k as int).push(p0.songs()[k as int])
        }
    }
}

/// The last known time of `u`, zero when unknown.
pub open spec fn cached_or_zero(s: AutoplayState, u: MinstrelUserId) -> i64 {
    if s.cached_times().contains_key(u) { s.cached_times()[u] } else { 0 }
}

/// Counting one further in a cycle of length `l`.
proof fn lemma_mod_step(x: int, l: int)
    requires
        l > 0,
        x >= 0,
    ensures
        x % l + 1 < l ==> (x + 1) % l == x % l + 1,
        x % l + 1 == l ==> (x + 1) % l == 0,
{
    vstd::arithmetic::div_mod::lemma_fundamental_div_mod(x, l);
    vstd::arithmetic::div_mod::lemma_fundamental_div_mod(x + 1, l);
    let q = x / l;
    let r = x % l;
    if r + 1 < l {
        vstd::arithmetic::div_mod::lemma_mod_add_multiples_vanish(r + 1, l);
        assert((x + 1) % l == (r + 1) % l) by {
            vstd::arithmetic::div_mod::lemma_mod_multiples_vanish(q, r + 1, l);
        }
        vstd::arithmetic::div_mod::lemma_small_mod((r + 1) as nat, l as nat);
    } else if r + 1 == l {
        assert(x + 1 == (q + 1) * l) by (nonlinear_arith)
            requires x == l * q + r, r + 1 == l;
        vstd::arithmetic::div_mod::lemma_mod_multiples_basic(q + 1, l);
    }
}

/// No user after place `i` of `users`, before place `end`, has the same id.
pub open spec fn last_before(users: Seq<(Requester, Vec<Song>)>, i: int, end: int) -> bool {
    forall|j: int| i < j < end ==> #[trigger] users[j].0.id != users[i].0.id
}

/// `s` holds the playlist built for `req` from `songs`: their requests in
/// some order at position zero, or no playlist when there are no songs.
pub open spec fn playlist_from(s: AutoplayState, req: Requester, songs: Seq<Song>) -> bool {
    if songs.len() == 0 {
        !s.playlists().contains_key(req.id)
    } else {
        &&& s.playlists().contains_key(req.id)
        &&& s.playlists()[req.id].position() == 0
        &&& s.playlists()[req.id].songs().to_multiset() == requests_for(songs, req).to_multiset()
    }
}

impl AutoplayState {
    /// Replaces the playlist of `requester` with the given songs, shuffled; a
    /// user with no songs left loses their playlist.
    pub fn load_sources_for_requester(&mut self, requester: &Requester, songs: &Vec<Song>) -> (r: Result<AutoplayOk, AutoplayError>)
        requires
            old(self).wf(),
        ensures
            final(self).wf(),
            load_outcome(*old(self), *final(self), *requester, songs@, r),
    {
        let ghost old_self = *self;
        proof {
            assert(old_self.wf());
        }
        let mut tmp: Vec<SongRequest> = Vec::new();
        let n = songs.len();
        let mut i: usize = 0;
        while i < n
            invariant
                n == songs@.len(),
                i <= n,
                tmp@ == requests_for(songs@, *requester).take(i as int),
            decreases n - i,
        {
            tmp.push(SongRequest::new(songs[i].clone(), requester.clone()));
            proof {
                assert(tmp@ =~= requests_for(songs@, *requester).take(i + 1));
            }
            i = i + 1;
        }
        proof {
            assert(tmp@ =~= requests_for(songs@, *requester));
        }
        if tmp.len() == 0 {
            self.userlists.remove(&requester.id);
            proof {
                assert(self.playlists() =~= old_self.playlists().remove(requester.id));
                assert forall|v: MinstrelUserId| #[trigger] self.playlists().contains_key(v)
                    implies self.playlists()[v].wf() && owned_by(self.playlists()[v], v) by {
                    assert(old_self.playlists().contains_key(v));
                }
                assert forall|v: MinstrelUserId| #[trigger] self.times().contains_key(v)
                    implies self.cached_times().contains_key(v)
                        && self.cached_times()[v] == self.times()[v] by {
                    assert(old_self.times().contains_key(v));
                }
            }
            return Ok(AutoplayOk::RemovedUser);
        }
        let mut pl = UserPlaylist::new(tmp);
        pl.shuffle();
        proof {
            lemma_same_multiset_owned(requests_for(songs@, *requester), pl.songs(), requester.id);
        }
        self.userlists.insert(requester.id, pl);
        proof {
            assert(pl.wf());
            assert forall|v: MinstrelUserId| #[trigger] self.times().contains_key(v)
                implies self.cached_times().contains_key(v)
                    && self.cached_times()[v] == self.times()[v] by {
                assert(old_self.times().contains_key(v));
            }
            assert(self.playlists() =~= old_self.playlists().insert(requester.id, pl));
            assert forall|v: MinstrelUserId| #[trigger] self.playlists().contains_key(v)
                implies self.playlists()[v].wf() && owned_by(self.playlists()[v], v) by {
                if v != requester.id {
                    assert(old_self.playlists().contains_key(v));
                }
            }
        }
        Ok(AutoplayOk::UpdatedPlaylist)
    }

    /// Builds the state from the stored sources of every user: each user's
    /// fetched songs become their playlist and their last known time is zero.
    pub fn from_sources(users: Vec<(Requester, Vec<Song>)>) -> (r: AutoplayState)
        ensures
            r.wf(),
            r.times().dom().is_empty(),
            !r.is_on(),
            forall|i: int| 0 <= i < users@.len() ==>
                r.cached_times().contains_key(#[trigger] users@[i].0.id)
                && r.cached_times()[users@[i].0.id] == 0,
            forall|u: MinstrelUserId| #[trigger] r.cached_times().contains_key(u) ==>
                exists|i: int| 0 <= i < users@.len() && #[trigger] users@[i].0.id == u,
            forall|i: int| 0 <= i < users@.len() && last_before(users@, i, users@.len() as int) ==>
                playlist_from(r, #[trigger] users@[i].0, users@[i].1@),
            forall|u: MinstrelUserId| #[trigger] r.playlists().contains_key(u) ==>
                exists|i: int| 0 <= i < users@.len() && #[trigger] users@[i].0.id == u,
    {
        let mut ret = AutoplayState::new();
        let n = users.len();
        let mut i: usize = 0;
        while i < n
            invariant
                n == users@.len(),
                i <= n,
                ret.wf(),
                ret.times().dom().is_empty(),
                !ret.is_on(),
                forall|j: int| 0 <= j < i ==>
                    ret.cached_times().contains_key(#[trigger] users@[j].0.id)
                    && ret.cached_times()[users@[j].0.id] == 0,
                forall|u: MinstrelUserId| #[trigger] ret.cached_times().contains_key(u) ==>
                    exists|j: int| 0 <= j < i && #[trigger] users@[j].0.id == u,
                forall|k: int| 0 <= k < i && last_before(users@, k, i as int) ==>
                    playlist_from(ret, #[trigger] users@[k].0, users@[k].1@),
                forall|u: MinstrelUserId| #[trigger] ret.playlists().contains_key(u) ==>
                    exists|j: int| 0 <= j < i && #[trigger] users@[j].0.id == u,
            decreases n - i,
        {
            let (req, songs) = &users[i];
            let ghost before = ret;
            let _ = ret.load_sources_for_requester(req, songs);
            ret.usertimecache.insert(req.id, 0);
            proof {
                assert(users@[i as int].0.id == req.id);
                assert(users@[i as int].0 == *req);
                assert(users@[i as int].1@ == songs@);
                assert(playlist_from(ret, users@[i as int].0, users@[i as int].1@));
                assert forall|k: int| 0 <= k < i + 1 && last_before(users@, k, i + 1) implies
                    playlist_from(ret, #[trigger] users@[k].0, users@[k].1@) by {
                    if k < i {
                        assert(users@[i as int].0.id != users@[k].0.id);
                        assert(last_before(users@, k, i as int));
                        assert(playlist_from(before, users@[k].0, users@[k].1@));
                    }
                }
                assert forall|u: MinstrelUserId| #[trigger] ret.playlists().contains_key(u) implies
                    exists|j: int| 0 <= j < i + 1 && #[trigger] users@[j].0.id == u by {
                    if u == req.id {
                        assert(users@[i as int].0.id == u);
                    } else {
                        assert(before.playlists().contains_key(u));
                    }
                }
                assert forall|u: MinstrelUserId| #[trigger] ret.cached_times().contains_key(u) implies
                    exists|j: int| 0 <= j < i + 1 && #[trigger] users@[j].0.id == u by {
                    if u == req.id {
                        assert(users@[i as int].0.id == u);
                    }
                }
            }
            i = i + 1;
        }
        ret
    }

    /// The next `num` songs autoplay would give, worked out on a copy, with
    /// `num` capped at `prefetch_max`; `None` when nobody is enrolled. A copy
    /// that reaches a user without a playlist or a time out of the `i64`
    /// range also gives `None`.
    pub fn prefetch(&self, num: u64, prefetch_max: u64) -> (r: Option<Vec<SongRequest>>)
        requires
            self.wf(),
        ensures
            ({
                let n = if num > prefetch_max { prefetch_max } else { num };
                &&& n == 0 ==> (r matches Some(v) && v@.len() == 0)
                &&& n > 0 && self.times().dom().is_empty() ==> r is None
                &&& r matches Some(v) ==> prefetched(*self, n as nat, v@)
                &&& r is None ==> n > 0 && (self.times().dom().is_empty() || prefetch_blocked(*self, n as nat))
            }),
    {
        let count = if num > prefetch_max { prefetch_max } else { num };
        let mut ap = self.snapshot();
        let mut ret: Vec<SongRequest> = Vec::new();
        let ghost mut states: Seq<AutoplayState> = seq![ap];
        let mut i: u64 = 0;
        while i < count
            invariant
                i <= count,
                count == (if num > prefetch_max { prefetch_max } else { num }),
                ap.wf(),
                self.wf(),
                ret@.len() == i,
                plays(*self, ret@, states),
                states.last() == ap,
                i > 0 ==> !self.times().dom().is_empty(),
                i > 0 ==> !ap.times().dom().is_empty(),
            decreases count - i,
        {
            let ghost before = ap;
            match ap.step() {
                AutoplayStep::Song(s) => {
                    let ghost ret_before = ret@;
                    ret.push(s);
                    proof {
                        if i == 0 {
                            assert(states[0] == before);
                            assert(self.times().contains_key(s.requested_by.id));
                        }
                        assert(ap.times().contains_key(s.requested_by.id));
                        let old_states = states;
                        states = states.push(ap);
                        assert forall|k: int| #![trigger ret@[k]] 0 <= k < ret@.len()
                            implies next_taken(states[k], states[k + 1], ret@[k]) by {
                            if k < ret_before.len() {
                                assert(ret@[k] == ret_before[k]);
                                assert(states[k] == old_states[k]);
                                assert(states[k + 1] == old_states[k + 1]);
                            } else {
                                assert(states[k] == before);
                            }
                        }
                    }
                },
                AutoplayStep::Empty => {
                    proof {
                        assert(i == 0);
                        assert(states[0] == before);
                    }
                    return None;
                },
                AutoplayStep::Fault => {
                    proof {
                        assert(!before.advance_fits());
                        assert(plays(*self, ret@, states) && ret@.len() < count && !states.last().advance_fits());
                    }
                    return None;
                },
            }
            i = i + 1;
        }
        proof {
            assert(plays(*self, ret@, states));
        }
        Some(ret)
    }
}

} // verus!

verus! {

impl AutoplayState {
    /// Enrolls a user who has a registered playlist. Their time is set to the
    /// current minimum, the least enrolled time; zero when nobody else is
    /// enrolled.
    pub fn enable_user(&mut self, userid: &MinstrelUserId) -> (r: Result<AutoplayOk, AutoplayError>)
        requires
            old(self).wf(),
        ensures
            final(self).wf(),
            enable_user_outcome(*old(self), *final(self), *userid, r),
    {
        let ghost old_self = *self;
        proof {
            assert(old_self.wf());
        }
        if !self.userlists.contains_key(userid) {
            return Err(AutoplayError::UserNotRegistered);
        }
        if queue_get(&self.usertime, *userid).is_some() {
            return Err(AutoplayError::AlreadyEnrolled);
        }
        let time: i64 = match queue_peek(&self.usertime) {
            Some((_u, lowest)) => {
                proof {
                    lemma_least_time(old_self.times(), _u, lowest);
                }
                lowest
            },
            None => 0,
        };
        queue_push(&mut self.usertime, *userid, time);
        self.usertimecache.insert(*userid, time);
        proof {
            assert(time == enroll_time(old_self, *userid));
            assert(self.times() =~= old_self.times().insert(*userid, time));
            assert forall|v: MinstrelUserId| #[trigger] self.times().contains_key(v)
                implies self.cached_times().contains_key(v)
                    && self.cached_times()[v] == self.times()[v] by {
                if v != *userid {
                    assert(old_self.times().contains_key(v));
                }
            }
        }
        Ok(AutoplayOk::EnrolledUser)
    }

    /// Takes a user out of autoplay, keeping their time as their last known time.
    pub fn disable_user(&mut self, userid: &MinstrelUserId) -> (r: Result<AutoplayOk, AutoplayError>)
        requires
            old(self).wf(),
        ensures
            final(self).wf(),
            disable_user_outcome(*old(self), *final(self), *userid, r),
    {
        let ghost old_self = *self;
        proof {
            assert(old_self.wf());
        }
        match queue_remove(&mut self.usertime, *userid) {
            Some(time) => {
                self.usertimecache.insert(*userid, time);
                proof {
                    assert forall|v: MinstrelUserId| #[trigger] self.times().contains_key(v)
                        implies self.cached_times().contains_key(v)
                            && self.cached_times()[v] == self.times()[v] by {
                        assert(old_self.times().contains_key(v));
                    }
                }
                Ok(AutoplayOk::RemovedUser)
            },
            None => {
                proof {
                    assert(self.times() =~= old_self.times());
                }
                Err(AutoplayError::UserNotEnrolled)
            },
        }
    }

    /// Sets the last known time of every user to zero.
    fn zero_cached_times(&mut self)
        ensures
            zeroed(final(self).cached_times(), old(self).cached_times().dom()),
            final(self).playlists() == old(self).playlists(),
            final(self).times() == old(self).times(),
            final(self).is_on() == old(self).is_on(),
    {
        let keys = keys_of(&self.usertimecache);
        let ghost old_cache = self.usertimecache@;
        let n = keys.len();
        let mut i: usize = 0;
        while i < n
            invariant
                n == keys@.len(),
                i <= n,
                keys@.to_set() == old_cache.dom(),
                self.usertimecache@.dom() == old_cache.dom(),
                self.playlists() == old(self).playlists(),
                self.times() == old(self).times(),
                self.is_on() == old(self).is_on(),
                forall|j: int| 0 <= j < i ==> self.usertimecache@[#[trigger] keys@[j]] == 0,
            decreases n - i,
        {
            let ghost before = self.usertimecache@;
            proof {
                assert(keys@.to_set().contains(keys@[i as int]));
            }
            self.usertimecache.insert(keys[i], 0);
            proof {
                assert(self.usertimecache@.dom() =~= old_cache.dom());
                assert forall|j: int| 0 <= j < i + 1 implies self.usertimecache@[#[trigger] keys@[j]] == 0 by {
                    if j < i {
                        assert(before[keys@[j]] == 0);
                    }
                }
            }
            i = i + 1;
        }
        proof {
            assert forall|k: i64| #[trigger] self.usertimecache@.contains_key(k) implies self.usertimecache@[k] == 0 by {
                assert(keys@.to_set().contains(k));
                let j = choose|j: int| 0 <= j < keys@.len() && keys@[j] == k;
                assert(self.usertimecache@[keys@[j]] == 0);
            }
        }
    }

    /// Takes every user out of autoplay and sets every last known time to zero.
    pub fn disable_all_users(&mut self)
        requires
            old(self).wf(),
        ensures
            final(self).wf(),
            disable_all_outcome(*old(self), *final(self)),
    {
        let ghost old_self = *self;
        proof {
            assert(old_self.wf());
        }
        self.zero_cached_times();
        queue_clear(&mut self.usertime);
        proof {
            assert forall|v: MinstrelUserId| #[trigger] self.playlists().contains_key(v)
                implies self.playlists()[v].wf() && owned_by(self.playlists()[v], v) by {
                assert(old_self.playlists().contains_key(v));
            }
        }
    }

    /// Sets the time of every enrolled user, and every last known time, to zero.
    pub fn reset_usertime(&mut self)
        requires
            old(self).wf(),
        ensures
            final(self).wf(),
            reset_outcome(*old(self), *final(self)),
    {
        let ghost old_self = *self;
        proof {
            assert(old_self.wf());
        }
        let entries = queue_entries(&self.usertime);
        let n = entries.len();
        let mut i: usize = 0;
        while i < n
            invariant
                n == entries@.len(),
                i <= n,
                forall|a: int, b: int| 0 <= a < b < entries@.len() ==> entries@[a].0 != entries@[b].0,
                forall|a: int| 0 <= a < entries@.len() ==> old_self.times().contains_key(#[trigger] entries@[a].0),
                forall|u: i64| old_self.times().contains_key(u) ==>
                    exists|a: int| 0 <= a < entries@.len() && #[trigger] entries@[a].0 == u,
                self.times().dom() == old_self.times().dom(),
                forall|a: int| 0 <= a < i ==> self.times()[#[trigger] entries@[a].0] == 0,
                self.playlists() == old_self.playlists(),
                self.cached_times() == old_self.cached_times(),
                self.is_on() == old_self.is_on(),
            decreases n - i,
        {
            let ghost before = self.times();
            let (u, _t) = entries[i];
            queue_push(&mut self.usertime, u, 0);
            proof {
                assert(self.times().dom() =~= old_self.times().dom());
                assert forall|a: int| 0 <= a < i + 1 implies self.times()[#[trigger] entries@[a].0] == 0 by {
                    if a < i {
                        assert(before[entries@[a].0] == 0);
                    }
                }
            }
            i = i + 1;
        }
        proof {
            assert forall|k: i64| #[trigger] self.times().contains_key(k) implies self.times()[k] == 0 by {
                assert(old_self.times().contains_key(k));
                let a = choose|a: int| 0 <= a < entries@.len() && #[trigger] entries@[a].0 == k;
                assert(self.times()[entries@[a].0] == 0);
            }
        }
        self.zero_cached_times();
        proof {
            assert forall|v: MinstrelUserId| #[trigger] self.playlists().contains_key(v)
                implies self.playlists()[v].wf() && owned_by(self.playlists()[v], v) by {
                assert(old_self.playlists().contains_key(v));
            }
            assert forall|v: MinstrelUserId| #[trigger] self.times().contains_key(v)
                implies self.cached_times().contains_key(v)
                    && self.cached_times()[v] == self.times()[v] by {
                assert(old_self.times().contains_key(v));
                assert(old_self.cached_times().contains_key(v));
            }
        }
    }

    /// The `Debug` text of the queue of enrolled users.
    pub fn debug_get_usertime(&self) -> String {
        queue_debug_text(&self.usertime)
    }

    /// Takes everyone out of autoplay, then enrolls every user who has a
    /// registered playlist; everyone starts at time zero.
    pub fn debug_enable_all_users(&mut self)
        requires
            old(self).wf(),
        ensures
            final(self).wf(),
            zeroed(final(self).times(), old(self).playlists().dom()),
            final(self).playlists() == old(self).playlists(),
            final(self).is_on() == old(self).is_on(),
    {
        self.disable_all_users();
        let users = keys_of(&self.userlists);
        let ghost pls = self.playlists();
        let n = users.len();
        let mut i: usize = 0;
        while i < n
            invariant
                n == users@.len(),
                i <= n,
                self.wf(),
                users@.no_duplicates(),
                users@.to_set() == pls.dom(),
                self.playlists() == pls,
                self.times().dom() == users@.take(i as int).to_set(),
                self.is_on() == old(self).is_on(),
                forall|k: i64| #[trigger] self.times().contains_key(k) ==> self.times()[k] == 0,
                forall|k: i64| #[trigger] self.cached_times().contains_key(k) ==> self.cached_times()[k] == 0,
            decreases n - i,
        {
            let u = users[i];
            proof {
                assert(users@.to_set().contains(u));
                assert(!users@.take(i as int).contains(u)) by {
                    if users@.take(i as int).contains(u) {
                        let j = choose|j: int| 0 <= j < i && users@.take(i as int)[j] == u;
                        assert(users@[j] == users@[i as int]);
                    }
                }
                assert(!self.times().contains_key(u));
                assert(self.times().dom().is_empty() ==> enroll_time(*self, u) == 0);
                if !self.times().dom().is_empty() {
                    let w = self.times().dom().choose();
                    assert(self.times().contains_key(w));
                    let lt = least_time(self.times());
                    assert(is_least_time(self.times(), lt)) by {
                        assert(self.times()[w] == 0);
                        assert(is_least_entry(self.times(), w, 0i64));
                        assert(is_least_time(self.times(), 0i64));
                    }
                    let v = choose|v: i64| is_least_entry(self.times(), v, lt);
                    assert(lt == 0);
                }
                assert(enroll_time(*self, u) == 0);
            }
            match self.enable_user(&u) {
                Ok(_) => {},
                Err(_) => {
                    proof {
                        assert(false);
                    }
                },
            }
            proof {
                assert(self.times().dom() =~= users@.take(i + 1).to_set()) by {
                    assert(users@.take(i + 1) =~= users@.take(i as int).push(u));
                    users@.take(i as int).lemma_push_to_set_commute(u);
                }
            }
            i = i + 1;
        }
        proof {
            assert(users@.take(n as int) =~= users@);
        }
    }

    /// Reshuffles a user's playlist and starts it over.
    pub fn shuffle_user(&mut self, userid: &MinstrelUserId) -> (r: Result<AutoplayOk, AutoplayError>)
        requires
            old(self).wf(),
        ensures
            final(self).wf(),
            shuffle_user_outcome(*old(self), *final(self), *userid, r),
    {
        let ghost old_self = *self;
        proof {
            assert(old_self.wf());
        }
        match self.userlists.remove(userid) {
            Some(mut list) => {
                proof {
                    assert(old_self.playlists().contains_key(*userid));
                    assert(list == old_self.playlists()[*userid]);
                }
                list.shuffle();
                proof {
                    lemma_same_multiset_owned(old_self.playlists()[*userid].songs(), list.songs(), *userid);
                }
                self.userlists.insert(*userid, list);
                proof {
                    assert(self.playlists() =~= old_self.playlists().insert(*userid, list));
                    assert forall|v: MinstrelUserId| #[trigger] self.playlists().contains_key(v)
                        implies self.playlists()[v].wf() && owned_by(self.playlists()[v], v) by {
                        if v != *userid {
                            assert(old_self.playlists().contains_key(v));
                        }
                    }
                }
                Ok(AutoplayOk::EnrolledUser)
            },
            None => {
                proof {
                    assert(self.playlists() =~= old_self.playlists());
                }
                Err(AutoplayError::UnknownError)
            },
        }
    }

    /// Adds `delta` to a user's time, when enrolled, and to their last known
    /// time, which starts from zero when unknown.
    pub fn add_time_to_user(&mut self, userid: &MinstrelUserId, delta: i64)
        requires
            old(self).wf(),
            fits_i64(cached_or_zero(*old(self), *userid) + delta),
        ensures
            final(self).wf(),
            final(self).playlists() == old(self).playlists(),
            final(self).is_on() == old(self).is_on(),
            old(self).times().contains_key(*userid) ==>
                final(self).times() == old(self).times().insert(*userid, (old(self).times()[*userid] + delta) as i64),
            !old(self).times().contains_key(*userid) ==> final(self).times() == old(self).times(),
            final(self).cached_times()
                == old(self).cached_times().insert(*userid, (cached_or_zero(*old(self), *userid) + delta) as i64),
    {
        let ghost old_self = *self;
        proof {
            assert(old_self.wf());
        }
        let current: i64 = match self.usertimecache.get(userid) {
            Some(c) => *c,
            None => 0,
        };
        let updated = current + delta;
        match queue_get(&self.usertime, *userid) {
            Some(t) => {
                proof {
                    assert(old_self.times().contains_key(*userid));
                    assert(t == current);
                }
                queue_change_time(&mut self.usertime, *userid, updated);
            },
            None => {},
        }
        self.usertimecache.insert(*userid, updated);
        proof {
            assert forall|v: MinstrelUserId| #[trigger] self.times().contains_key(v)
                implies self.cached_times().contains_key(v)
                    && self.cached_times()[v] == self.times()[v] by {
                assert(old_self.times().contains_key(v));
            }
        }
    }

    /// Skips `num` songs of a user's playlist.
    pub fn advance_userplaylist(&mut self, userid: &MinstrelUserId, num: u64) -> (r: Result<AutoplayOk, AutoplayError>)
        requires
            old(self).wf(),
        ensures
            final(self).wf(),
            advance_outcome(*old(self), *final(self), *userid, num, r),
    {
        let ghost old_self = *self;
        proof {
            assert(old_self.wf());
        }
        match self.userlists.remove(userid) {
            Some(mut ul) => {
                let ghost p0 = ul;
                proof {
                    assert(old_self.playlists().contains_key(*userid));
                    assert(ul == old_self.playlists()[*userid]);
                    vstd::arithmetic::div_mod::lemma_small_mod(p0.position(), p0.songs().len());
                }
                let mut i: u64 = 0;
                while i < num
                    invariant
                        i <= num,
                        ul.wf(),
                        owned_by(ul, *userid),
                        ul.songs().to_multiset() == p0.songs().to_multiset(),
                        ul.songs().len() == p0.songs().len(),
                        p0.wf(),
                        ul.position() == (p0.position() + i) % (p0.songs().len() as int),
                        p0.position() + i < p0.songs().len() ==> {
                            &&& ul.songs() == p0.songs()
                            &&& ul.position() == p0.position() + i
                        },
                    decreases num - i,
                {
                    let ghost before = ul;
                    let _ = ul.next();
                    proof {
                        lemma_same_multiset_owned_after_advance(before, ul, *userid);
                        if before.position() + 1 < before.songs().len() {
                            assert(ul.songs() == before.songs());
                        }
                        lemma_mod_step(p0.position() + i, p0.songs().len() as int);
                        vstd::seq_lib::to_multiset_len(before.songs());
                        vstd::seq_lib::to_multiset_len(ul.songs());
                    }
                    i = i + 1;
                }
                self.userlists.insert(*userid, ul);
                proof {
                    assert(self.playlists() =~= old_self.playlists().insert(*userid, ul));
                    assert forall|v: MinstrelUserId| #[trigger] self.playlists().contains_key(v)
                        implies self.playlists()[v].wf() && owned_by(self.playlists()[v], v) by {
                        if v != *userid {
                            assert(old_self.playlists().contains_key(v));
                        }
                    }
                }
                Ok(AutoplayOk::Done)
            },
            None => {
                proof {
                    assert(self.playlists() =~= old_self.playlists());
                }
                Err(AutoplayError::UserNotRegistered)
            },
        }
    }

    /// Moves the song `index` places ahead in a user's playlist to its end.
    /// An index above `prefetch_max` is refused; so is one past the end of the
    /// playlist. A user without a playlist is left alone.
    pub fn bump_userplaylist(&mut self, userid: &MinstrelUserId, index: usize, prefetch_max: u64) -> (r: Result<AutoplayOk, AutoplayError>)
        requires
            old(self).wf(),
            old(self).playlists().contains_key(*userid) ==>
                old(self).playlists()[*userid].position() + index <= usize::MAX,
        ensures
            final(self).wf(),
            bump_outcome(*old(self), *final(self), *userid, index, prefetch_max, r),
    {
        let ghost old_self = *self;
        proof {
            assert(old_self.wf());
        }
        if index > prefetch_max as usize {
            return Err(AutoplayError::ExcessiveSize);
        }
        match self.userlists.remove(userid) {
            Some(mut ul) => {
                proof {
                    assert(old_self.playlists().contains_key(*userid));
                    assert(ul == old_self.playlists()[*userid]);
                }
                let moved = ul.push_to_end(index);
                proof {
                    broadcast use vstd::seq_lib::group_to_multiset_ensures;
                    let s0 = old_self.playlists()[*userid].songs();
                    let k = old_self.playlists()[*userid].position() + index;
                    if k < s0.len() {
                        assert(ul.songs().to_multiset() =~= s0.to_multiset()) by {
                            assert(s0.remove(k as int).push(s0[k as int]).to_multiset()
                                =~= s0.remove(k as int).to_multiset().insert(s0[k as int]));
                            assert(s0.remove(k as int).to_multiset() =~= s0.to_multiset().remove(s0[k as int]));
                        }
                        lemma_same_multiset_owned(s0, ul.songs(), *userid);
                    }
                }
                self.userlists.insert(*userid, ul);
                proof {
                    assert forall|v: MinstrelUserId| #[trigger] self.playlists().contains_key(v)
                        implies self.playlists()[v].wf() && owned_by(self.playlists()[v], v) by {
                        if v != *userid {
                            assert(old_self.playlists().contains_key(v));
                        }
                    }
                }
                match moved {
                    Ok(()) => {
                        proof {
                            assert(self.playlists() =~= old_self.playlists().insert(*userid, ul));
                        }
                        Ok(AutoplayOk::Done)
                    },
                    Err(_) => {
                        proof {
                            assert(self.playlists() =~= old_self.playlists());
                        }
                        Err(AutoplayError::ExcessiveSize)
                    },
                }
            },
            None => {
                proof {
                    assert(self.playlists() =~= old_self.playlists());
                }
                Ok(AutoplayOk::Done)
            },
        }
    }
}

} // verus!

verus! {

impl AutoplayState {
    /// The last known time of a user, zero when unknown.
    pub fn cached_time(&self, userid: MinstrelUserId) -> (t: i64)
        ensures
            t == cached_or_zero(*self, userid),
    {
        match self.usertimecache.get(&userid) {
            Some(t) => *t,
            None => 0,
        }
    }
}

} // verus!

verus! {

impl AutoplayState {
    /// Position of the next song in a user's playlist, if the user has one.
    pub fn playlist_position(&self, userid: MinstrelUserId) -> (r: Option<usize>)
        ensures
            self.playlists().contains_key(userid) ==>
                (r matches Some(p) && p == self.playlists()[userid].position()),
            !self.playlists().contains_key(userid) ==> r is None,
    {
        match self.userlists.get(&userid) {
            Some(p) => Some(p.index),
            None => None,
        }
    }
}

} // verus!

verus! {

/// The users among `members` that have a playlist in `s`.
pub open spec fn listeners_with_playlists(s: AutoplayState, members: Seq<MinstrelUserId>) -> Set<MinstrelUserId> {
    Set::new(|u: MinstrelUserId| members.contains(u) && s.playlists().contains_key(u))
}

impl AutoplayState {
    /// Enrolls exactly those of `members` that have a playlist, in a random
    /// order and all at time zero; everyone else is taken out. This is what
    /// happens when the bot joins a voice channel.
    pub fn enroll_only(&mut self, members: Vec<MinstrelUserId>)
        requires
            old(self).wf(),
        ensures
            final(self).wf(),
            final(self).times().dom() == listeners_with_playlists(*old(self), members@),
            forall|u: MinstrelUserId| #[trigger] final(self).times().contains_key(u)
                ==> final(self).times()[u] == 0,
            forall|u: MinstrelUserId| #[trigger] final(self).cached_times().contains_key(u)
                ==> final(self).cached_times()[u] == 0,
            final(self).playlists() == old(self).playlists(),
            final(self).is_on() == old(self).is_on(),
    {
        let ghost start = *self;
        self.disable_all_users();
        let mut order = members;
        shuffle_in_place(&mut order);
        let ghost ps = self.playlists();
        let ghost on = self.is_on();
        let n = order.len();
        let mut i: usize = 0;
        proof {
            assert(self.times().dom() =~= Set::new(
                |u: MinstrelUserId| order@.take(0).contains(u) && ps.contains_key(u)));
        }
        while i < n
            invariant
                n == order@.len(),
                i <= n,
                self.wf(),
                self.playlists() == ps,
                self.is_on() == on,
                self.times().dom() == Set::new(
                    |u: MinstrelUserId| order@.take(i as int).contains(u) && ps.contains_key(u)),
                forall|u: MinstrelUserId| #[trigger] self.times().contains_key(u) ==> self.times()[u] == 0,
                forall|u: MinstrelUserId| #[trigger] self.cached_times().contains_key(u)
                    ==> self.cached_times()[u] == 0,
            decreases n - i,
        {
            let u = order[i];
            let ghost before = *self;
            let _ = self.enable_user(&u);
            proof {
                if before.playlists().contains_key(u) && !before.times().contains_key(u)
                    && !before.times().dom().is_empty() {
                    let v = before.times().dom().choose();
                    assert(before.times().contains_key(v));
                    assert(is_least_entry(before.times(), v, 0));
                    lemma_least_time(before.times(), v, 0);
                }
                let t0 = order@.take(i as int);
                let t1 = order@.take(i + 1);
                assert(t1 =~= t0.push(u));
                assert forall|w: MinstrelUserId| t1.contains(w) == (t0.contains(w) || w == u) by {
                    if t1.contains(w) && w != u {
                        let k = choose|k: int| 0 <= k < t1.len() && t1[k] == w;
                        assert(t0[k] == w);
                    }
                    if w == u {
                        assert(t1[i as int] == u);
                    }
                    if t0.contains(w) {
                        let k = choose|k: int| 0 <= k < t0.len() && t0[k] == w;
                        assert(t1[k] == w);
                    }
                }
                assert(self.times().dom() =~= Set::new(
                    |w: MinstrelUserId| order@.take(i + 1).contains(w) && ps.contains_key(w)));
            }
            i = i + 1;
        }
        proof {
            broadcast use vstd::seq_lib::group_to_multiset_ensures;
            assert(order@.take(n as int) =~= order@);
            assert forall|u: MinstrelUserId| order@.contains(u) == members@.contains(u) by {
                if order@.contains(u) {
                    assert(order@.to_multiset().count(u) > 0);
                }
                if members@.contains(u) {
                    assert(members@.to_multiset().count(u) > 0);
                }
            }
            assert(self.times().dom() =~= listeners_with_playlists(start, members@));
        }
    }
}

} // verus!

verus! {

/// A user joining autoplay while others are enrolled gets the current
/// minimum: no less and no more than the least enrolled time, whatever time
/// they had before.
pub proof fn law_enroll_at_minimum(s: AutoplayState, u: MinstrelUserId, v: MinstrelUserId)
    requires
        is_least_entry(s.times(), v, s.times()[v]),
    ensures
        enroll_time(s, u) == s.times()[v],
        forall|w: MinstrelUserId| #[trigger] s.times().contains_key(w) ==> enroll_time(s, u) <= s.times()[w],
{
    lemma_least_time(s.times(), v, s.times()[v]);
}

/// Leaving autoplay and coming back while someone else stays enrolled puts
/// the returning user at the least time among the others.
pub proof fn law_rejoin_at_minimum(old: AutoplayState, mid: AutoplayState, new: AutoplayState,
    u: MinstrelUserId, v: MinstrelUserId)
    requires
        old.wf(),
        old.times().contains_key(u),
        disable_user_outcome(old, mid, u, Ok(AutoplayOk::RemovedUser)),
        enable_user_outcome(mid, new, u, Ok(AutoplayOk::EnrolledUser)),
        mid.times().contains_key(v),
        is_least_entry(mid.times(), v, mid.times()[v]),
    ensures
        new.times()[u] == mid.times()[v],
        forall|w: MinstrelUserId| #[trigger] mid.times().contains_key(w) ==> new.times()[u] <= new.times()[w],
{
    lemma_least_time(mid.times(), v, mid.times()[v]);
    assert forall|w: MinstrelUserId| #[trigger] mid.times().contains_key(w) implies new.times()[u] <= new.times()[w] by {
        assert(w != u);
    }
}

/// The upcoming list starts with the next song of an enrolled user with the
/// least time.
pub proof fn law_upcoming_starts_with_least_time(s: AutoplayState, n: nat, v: Seq<SongRequest>)
    requires
        prefetched(s, n, v),
        n > 0,
    ensures
        is_least_entry(s.times(), v[0].requested_by.id, s.times()[v[0].requested_by.id]),
        s.playlists().contains_key(v[0].requested_by.id),
        v[0] == s.playlists()[v[0].requested_by.id].upcoming(),
{
    let states = choose|states: Seq<AutoplayState>| #[trigger] plays(s, v, states);
    assert(next_taken(states[0], states[1], v[0]));
}

/// The song autoplay plays comes from an enrolled user with the least time,
/// and that user is charged its duration.
pub proof fn law_least_time_plays_next(old: AutoplayState, new: AutoplayState, s: SongRequest,
    w: MinstrelUserId)
    requires
        next_taken(old, new, s),
        old.times().contains_key(w),
        fits_i64(old.times()[s.requested_by.id] + s.song.duration),
    ensures
        old.times()[s.requested_by.id] <= old.times()[w],
        new.times()[s.requested_by.id] == old.times()[s.requested_by.id] + s.song.duration,
        w != s.requested_by.id ==> new.times()[w] == old.times()[w],
{
}

} // verus!

verus! {

/// Within one round, the states of a playlist taken song by song from
/// position zero keep their order and move one place each time.
proof fn lemma_round_states(ps: Seq<UserPlaylist>, taken: Seq<SongRequest>, k: int)
    requires
        ps.len() == taken.len() + 1,
        ps[0].position() == 0,
        taken.len() <= ps[0].songs().len(),
        forall|i: int| 0 <= i < taken.len() ==> advanced(#[trigger] ps[i], ps[i + 1]),
        0 <= k < taken.len(),
    ensures
        ps[k].songs() == ps[0].songs(),
        ps[k].position() == k,
    decreases k,
{
    if k > 0 {
        lemma_round_states(ps, taken, k - 1);
        assert(advanced(ps[k - 1], ps[k]));
    }
}

/// A playlist started from its first song gives its songs in order, each
/// once, until the round ends.
pub proof fn law_playlist_round(ps: Seq<UserPlaylist>, taken: Seq<SongRequest>)
    requires
        ps.len() == taken.len() + 1,
        ps[0].position() == 0,
        taken.len() <= ps[0].songs().len(),
        forall|i: int| 0 <= i < taken.len() ==> advanced(#[trigger] ps[i], ps[i + 1]),
        forall|i: int| 0 <= i < taken.len() ==> #[trigger] taken[i] == ps[i].upcoming(),
    ensures
        taken == ps[0].songs().take(taken.len() as int),
{
    assert forall|i: int| 0 <= i < taken.len() implies #[trigger] taken[i] == ps[0].songs()[i] by {
        lemma_round_states(ps, taken, i);
    }
    assert(taken =~= ps[0].songs().take(taken.len() as int));
}

} // verus!
