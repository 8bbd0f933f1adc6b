//! The music state: what is playing, the play queue and the history. Commands
//! are decided here; whatever needs the player, the clock, a file or the
//! network is handed back to the caller as a step to carry out.

use vstd::prelude::*;
use std::collections::VecDeque;
use crate::model::{MinstrelWebData, MusicStateStatus, Song, SongRequest};
use crate::autoplay::{AutoplayControlCmd, AutoplayError, AutoplayOk, AutoplayState, AutoplayStep,
    cached_or_zero, fits_i64, next_taken, lookahead, same_state};
use crate::config::MusicConfig;
use crate::text::{nat_text, push_u64, push_char};
use vstd::string::StringExecFns;
use crate::player::MusicPlayerCommand;
use crate::adapters::{autoplay_cmd_fits, autoplay_cmd_outcome, cmd_fits, handle_cmd};

verus! {

/// Successful outcomes of music commands.
#[non_exhaustive]
#[derive(Debug)]
pub enum MusicOk {
    StartedPlaying,
    StoppedPlaying,
    NotPlaying,
    EnqueuedSong,
    EmptyQueue,
    NothingToPlay,
    SkippingSong,
    Data(Box<MinstrelWebData>),
    AutoplayOk(AutoplayOk),
    Unimplemented,
}

/// The message shown for a music outcome.
pub open spec fn music_ok_text(o: MusicOk) -> Seq<char> {
    match o {
        MusicOk::StartedPlaying => "Started playing."@,
        MusicOk::StoppedPlaying => "Stopped playing."@,
        MusicOk::NotPlaying => "Not currently playing."@,
        MusicOk::EnqueuedSong => "Enqueued song."@,
        MusicOk::EmptyQueue => "Queue is empty."@,
        MusicOk::NothingToPlay => "Nothing to play."@,
        MusicOk::SkippingSong => "Skipping song."@,
        MusicOk::Unimplemented => "Unimplemented Ok message"@,
        _ => "Unknown response, fill me in!"@,
    }
}

impl MusicOk {
    /// The message shown for this outcome.
    pub fn message(&self) -> (s: String)
        ensures
            s@ == music_ok_text(*self),
    {
        let t = match self {
            MusicOk::StartedPlaying => "Started playing.",
            MusicOk::StoppedPlaying => "Stopped playing.",
            MusicOk::NotPlaying => "Not currently playing.",
            MusicOk::EnqueuedSong => "Enqueued song.",
            MusicOk::EmptyQueue => "Queue is empty.",
            MusicOk::NothingToPlay => "Nothing to play.",
            MusicOk::SkippingSong => "Skipping song.",
            MusicOk::Unimplemented => "Unimplemented Ok message",
            _ => "Unknown response, fill me in!",
        };
        t.to_owned()
    }
}

/// Failures of music commands.
#[non_exhaustive]
#[derive(Clone, Copy, Debug, PartialEq, Eq, Structural)]
pub enum MusicError {
    UnknownError,
    AlreadyPlaying,
    QueueFull,
    InvalidUrl,
    FailedToRetrieve,
    EmptyHistory,
    PlaybackFailed,
    AutoplayError(AutoplayError),
}

/// Commands sent to the music state.
#[derive(Debug)]
pub enum MusicControlCmd {
    Play(SongRequest),
    Skip,
    Stop,
    Start,
    Enqueue(SongRequest),
    EnqueueAndPlay(SongRequest),
    ClearQueue,
    ClearHistory,
    Previous,
    SongEnded,
    GetData,
    AutoplayCmd(AutoplayControlCmd),
}

/// Which command started a song, which decides what is answered once the
/// player has tried to play it.
#[derive(Debug, Clone, Copy, PartialEq, Eq, Structural)]
pub enum PlayOrigin {
    /// `play`, `start` or `next`: the player's answer is the answer.
    Direct,
    /// `enqueue_and_play` or `previous`: `AlreadyPlaying` counts as enqueued.
    EnqueueAndPlay,
    /// The end of the previous song: the answer is not meaningful.
    SongEnded,
}

/// Where a command goes on once the player has answered.
#[derive(Debug)]
pub enum Resume {
    Play(SongRequest, PlayOrigin),
    Skip,
    Stop,
}

/// What the caller has to do besides answering.
#[derive(Debug)]
pub struct Effects {
    /// Send the state to every front end.
    pub broadcast: bool,
    /// Tell every front end that playing failed with this error.
    pub play_error: Option<MusicError>,
    /// Write this song to the song log.
    pub log_song: Option<SongRequest>,
    /// A song has just started: remember the time.
    pub started_song: bool,
    /// Send `SongEnded` to the music state later, so that the next song is tried.
    pub schedule_song_ended: bool,
}

/// Nothing to do.
pub open spec fn no_effects(e: Effects) -> bool {
    &&& !e.broadcast
    &&& e.play_error is None
    &&& e.log_song is None
    &&& !e.started_song
    &&& !e.schedule_song_ended
}

/// Only a broadcast, or nothing when `b` is false.
pub open spec fn broadcast_only(e: Effects, b: bool) -> bool {
    &&& e.broadcast == b
    &&& e.play_error is None
    &&& e.log_song is None
    &&& !e.started_song
    &&& !e.schedule_song_ended
}

impl Effects {
    pub fn none() -> (e: Effects)
        ensures
            no_effects(e),
    {
        Effects { broadcast: false, play_error: None, log_song: None, started_song: false, schedule_song_ended: false }
    }

    pub fn broadcast() -> (e: Effects)
        ensures
            broadcast_only(e, true),
    {
        Effects { broadcast: true, play_error: None, log_song: None, started_song: false, schedule_song_ended: false }
    }
}

/// One step of a command.
#[derive(Debug)]
pub enum Step {
    /// The command is done: answer with the result, after the effects.
    Reply(Result<MusicOk, MusicError>, Effects),
    /// Carry out the effects, send the command to the player, then call
    /// `resume` with the continuation and the player's answer.
    Invoke(MusicPlayerCommand, Resume, Effects),
    /// The command cannot go on: a user without a playlist was picked by
    /// autoplay, or a play time would leave the `i64` range.
    Abort,
}

/// The outcome of taking the next song.
#[derive(Debug)]
pub enum NextSong {
    Song(SongRequest),
    Nothing,
    Fault,
}

/// The music state.
pub struct MusicState {
    current_track: Option<SongRequest>,
    status: MusicStateStatus,
    queue: VecDeque<SongRequest>,
    history: VecDeque<SongRequest>,
    pub autoplay: AutoplayState,
    config: MusicConfig,
    songlog_enabled: bool,
}

/// `new` is `old` with only the queue changed to `q`.
pub open spec fn only_queue(old: MusicState, new: MusicState, q: Seq<SongRequest>) -> bool {
    &&& new.queue() == q
    &&& new.current() == old.current()
    &&& new.status() == old.status()
    &&& new.history() == old.history()
    &&& same_state(new.ap(), old.ap())
    &&& new.settings() == old.settings()
    &&& new.logs_songs() == old.logs_songs()
}

/// Nothing observable changed.
pub open spec fn unchanged(old: MusicState, new: MusicState) -> bool {
    only_queue(old, new, old.queue())
}

/// The charge of the front request of `q0` fits in an `i64` when it is made,
/// and so does autoplay's next charge when `q0` is empty.
pub open spec fn fits_for(old: MusicState, q0: Seq<SongRequest>) -> bool {
    if q0.len() > 0 {
        old.ap().is_on() && old.settings().queue_adds_usertime ==>
            fits_i64(cached_or_zero(old.ap(), q0[0].requested_by.id) + q0[0].song.duration)
    } else {
        old.ap().is_on() ==> old.ap().advance_fits()
    }
}

/// Taking the next song from the current queue cannot fail.
pub open spec fn next_song_fits(s: MusicState) -> bool {
    fits_for(s, s.queue())
}

/// `new` is the state in which the queue was `q0`, the history `hist` and the
/// current track `cur`, after the request `s` at the front of `q0` was taken:
/// it leaves the queue and, when autoplay is on and queued songs count toward
/// autoplay time, its duration is charged to its requester.
pub open spec fn took_front(old: MusicState, new: MusicState, q0: Seq<SongRequest>,
    hist: Seq<SongRequest>, cur: Option<SongRequest>, s: SongRequest) -> bool {
    let u = s.requested_by.id;
    let charged = (cached_or_zero(old.ap(), u) + s.song.duration) as i64;
    &&& q0.len() > 0
    &&& s == q0[0]
    &&& new.queue() == q0.drop_first()
    &&& new.current() == cur
    &&& new.status() == old.status()
    &&& new.history() == hist
    &&& new.settings() == old.settings()
    &&& new.logs_songs() == old.logs_songs()
    &&& new.ap().playlists() == old.ap().playlists()
    &&& new.ap().is_on() == old.ap().is_on()
    &&& if old.ap().is_on() && old.settings().queue_adds_usertime {
        &&& new.ap().cached_times() == old.ap().cached_times().insert(u, charged)
        &&& new.ap().times() == (if old.ap().times().contains_key(u) {
            old.ap().times().insert(u, charged)
        } else {
            old.ap().times()
        })
    } else {
        same_state(new.ap(), old.ap())
    }
}

/// Like `took_front`, but the queue was empty and autoplay gave `s`.
pub open spec fn took_autoplay(old: MusicState, new: MusicState, q0: Seq<SongRequest>,
    hist: Seq<SongRequest>, cur: Option<SongRequest>, s: SongRequest) -> bool {
    &&& q0.len() == 0
    &&& old.ap().is_on()
    &&& new.queue() == q0
    &&& new.current() == cur
    &&& new.status() == old.status()
    &&& new.history() == hist
    &&& new.settings() == old.settings()
    &&& new.logs_songs() == old.logs_songs()
    &&& next_taken(old.ap(), new.ap(), s)
}

/// Like `took_front`, but there was nothing to take.
pub open spec fn took_nothing(old: MusicState, new: MusicState, q0: Seq<SongRequest>,
    hist: Seq<SongRequest>, cur: Option<SongRequest>) -> bool {
    &&& q0.len() == 0
    &&& (!old.ap().is_on() || old.ap().times().dom().is_empty())
    &&& new.queue() == q0
    &&& new.current() == cur
    &&& new.status() == old.status()
    &&& new.history() == hist
    &&& new.settings() == old.settings()
    &&& new.logs_songs() == old.logs_songs()
    &&& same_state(new.ap(), old.ap())
}

/// What taking the next song gives: the front of the queue; when the queue is
/// empty, autoplay's next song when autoplay is on; otherwise nothing.
pub open spec fn next_song_taken(old: MusicState, new: MusicState, r: NextSong) -> bool {
    let q0 = old.queue();
    let hist = old.history();
    let cur = old.current();
    match r {
        NextSong::Song(s) => if q0.len() > 0 {
            took_front(old, new, q0, hist, cur, s)
        } else {
            took_autoplay(old, new, q0, hist, cur, s)
        },
        NextSong::Nothing => took_nothing(old, new, q0, hist, cur),
        NextSong::Fault => !fits_for(old, q0),
    }
}

/// The history after `song` ended: it goes first, and at most `count` songs are kept.
pub open spec fn history_after(history: Seq<SongRequest>, song: SongRequest, count: u64) -> Seq<SongRequest> {
    let h = seq![song] + history;
    if h.len() > count as usize { h.take(count as usize as int) } else { h }
}

impl MusicState {
    pub closed spec fn current(&self) -> Option<SongRequest> {
        self.current_track
    }

    pub closed spec fn status(&self) -> MusicStateStatus {
        self.status
    }

    /// The play queue, front first.
    pub closed spec fn queue(&self) -> Seq<SongRequest> {
        self.queue@
    }

    /// Songs played, most recent first.
    pub closed spec fn history(&self) -> Seq<SongRequest> {
        self.history@
    }

    /// The autoplay state.
    pub closed spec fn ap(&self) -> AutoplayState {
        self.autoplay
    }

    pub closed spec fn settings(&self) -> MusicConfig {
        self.config
    }

    /// Played songs go to the song log.
    pub closed spec fn logs_songs(&self) -> bool {
        self.songlog_enabled
    }

    pub open spec fn wf(&self) -> bool {
        self.ap().wf()
    }

    /// A new, idle music state with the given autoplay state and settings.
    pub fn new(autoplay: AutoplayState, config: MusicConfig, songlog_enabled: bool) -> (r: MusicState)
        ensures
            r.current() is None,
            r.status() == MusicStateStatus::Idle,
            r.queue().len() == 0,
            r.history().len() == 0,
            r.ap() == autoplay,
            r.settings() == config,
            r.logs_songs() == songlog_enabled,
    {
        MusicState {
            current_track: None,
            status: MusicStateStatus::Idle,
            queue: VecDeque::new(),
            history: VecDeque::new(),
            autoplay,
            config,
            songlog_enabled,
        }
    }

    /// Takes the next song: the front of the queue, else autoplay's pick when
    /// autoplay is on.
    pub fn get_next_song(&mut self) -> (r: NextSong)
        requires
            old(self).wf(),
        ensures
            final(self).wf(),
            next_song_taken(*old(self), *final(self), r),
            old(self).queue().len() > 0 ==> (r is Fault <==> !next_song_fits(*old(self))),
    {
        let ghost old_self = *self;
        if self.queue.len() > 0 {
            let song = match self.queue.pop_front() {
                Some(s) => s,
                None => {
                    proof {
                        assert(false);
                    }
                    return NextSong::Nothing;
                },
            };
            if self.autoplay.is_enabled() && self.config.queue_adds_usertime {
                let u = song.requested_by.id;
                let current = self.autoplay.cached_time(u);
                match current.checked_add(song.song.duration) {
                    Some(_) => {
                        self.autoplay.add_time_to_user(&u, song.song.duration);
                    },
                    None => {
                        return NextSong::Fault;
                    },
                }
            }
            return NextSong::Song(song);
        }
        if self.autoplay.is_enabled() {
            match self.autoplay.step() {
                AutoplayStep::Song(s) => NextSong::Song(s),
                AutoplayStep::Empty => NextSong::Nothing,
                AutoplayStep::Fault => NextSong::Fault,
            }
        } else {
            NextSong::Nothing
        }
    }
}

} // verus!

verus! {

/// What `play` decides for `s` when the current track is `cur`: refuse while
/// something is playing, otherwise ask the player to play it.
pub open spec fn play_decided(cur: Option<SongRequest>, s: SongRequest, origin: PlayOrigin, r: Step) -> bool {
    if cur is Some {
        match r {
            Step::Reply(Err(MusicError::AlreadyPlaying), e) => no_effects(e),
            _ => false,
        }
    } else {
        match r {
            Step::Invoke(MusicPlayerCommand::Play(x), Resume::Play(y, o), e) =>
                x == s.song && y == s && o == origin && no_effects(e),
            _ => false,
        }
    }
}

/// The step is the answer `m` with no effects.
pub open spec fn replies_ok(r: Step, m: MusicOk) -> bool {
    match r {
        Step::Reply(Ok(x), e) => x == m && no_effects(e),
        _ => false,
    }
}

/// What taking the next song and playing it comes to, from a state whose
/// queue was `q0`, history `hist` and current track `cur`; `empty` is the
/// answer when there is nothing to play.
pub open spec fn next_outcome(old: MusicState, new: MusicState, q0: Seq<SongRequest>,
    hist: Seq<SongRequest>, cur: Option<SongRequest>, origin: PlayOrigin, empty: MusicOk, r: Step) -> bool {
    &&& r is Abort ==> !fits_for(old, q0)
    &&& q0.len() > 0 && !fits_for(old, q0) ==> r is Abort
    &&& q0.len() > 0 && fits_for(old, q0) ==>
        took_front(old, new, q0, hist, cur, q0[0]) && play_decided(cur, q0[0], origin, r)
    &&& q0.len() == 0 && (!old.ap().is_on() || old.ap().times().dom().is_empty()) ==>
        took_nothing(old, new, q0, hist, cur) && replies_ok(r, empty)
    &&& q0.len() == 0 && old.ap().is_on() && !old.ap().times().dom().is_empty() && !(r is Abort) ==>
        exists|s: SongRequest| #[trigger] took_autoplay(old, new, q0, hist, cur, s) && play_decided(cur, s, origin, r)
}

impl MusicState {
    /// Plays a song unless one is playing already.
    fn play_from(&mut self, song: SongRequest, origin: PlayOrigin) -> (r: Step)
        ensures
            *final(self) == *old(self),
            play_decided(old(self).current(), song, origin, r),
    {
        if self.current_track.is_some() {
            return Step::Reply(Err(MusicError::AlreadyPlaying), Effects::none());
        }
        let cmd = MusicPlayerCommand::Play(song.song.clone());
        Step::Invoke(cmd, Resume::Play(song, origin), Effects::none())
    }

    /// Starts playing a song.
    pub fn play(&mut self, song: SongRequest) -> (r: Step)
        ensures
            *final(self) == *old(self),
            play_decided(old(self).current(), song, PlayOrigin::Direct, r),
    {
        self.play_from(song, PlayOrigin::Direct)
    }

    /// Takes the next song and plays it; `empty` is the answer when there is
    /// nothing to play.
    fn next_from(&mut self, origin: PlayOrigin, empty: MusicOk) -> (r: Step)
        requires
            old(self).wf(),
        ensures
            final(self).wf(),
            next_outcome(*old(self), *final(self), old(self).queue(), old(self).history(),
                old(self).current(), origin, empty, r),
    {
        let ghost old_self = *self;
        match self.get_next_song() {
            NextSong::Song(s) => {
                let ghost mid = *self;
                let r = self.play_from(s, origin);
                proof {
                    if old_self.queue().len() == 0 {
                        assert(took_autoplay(old_self, *self, old_self.queue(), old_self.history(),
                            old_self.current(), s));
                    }
                }
                r
            },
            NextSong::Nothing => Step::Reply(Ok(empty), Effects::none()),
            NextSong::Fault => Step::Abort,
        }
    }

    /// Plays the next song in the queue, or from autoplay.
    pub fn next(&mut self) -> (r: Step)
        requires
            old(self).wf(),
        ensures
            final(self).wf(),
            next_outcome(*old(self), *final(self), old(self).queue(), old(self).history(),
                old(self).current(), PlayOrigin::Direct, MusicOk::EmptyQueue, r),
    {
        self.next_from(PlayOrigin::Direct, MusicOk::EmptyQueue)
    }
}

} // verus!

verus! {

/// What starting from `old` comes to: refused when something is playing;
/// otherwise the next song is taken and played, or `NothingToPlay`.
pub open spec fn start_outcome(old: MusicState, new: MusicState, origin: PlayOrigin, r: Step) -> bool {
    &&& old.status() == MusicStateStatus::Playing ==>
        unchanged(old, new) && replies_err(r, MusicError::AlreadyPlaying)
    &&& old.status() != MusicStateStatus::Playing ==>
        next_outcome(old, new, old.queue(), old.history(), old.current(), origin, MusicOk::NothingToPlay, r)
}

/// The step is the error `err` with no effects.
pub open spec fn replies_err(r: Step, err: MusicError) -> bool {
    match r {
        Step::Reply(Err(x), e) => x == err && no_effects(e),
        _ => false,
    }
}

/// The step is the answer `m` with only a broadcast.
pub open spec fn replies_ok_broadcast(r: Step, m: MusicOk) -> bool {
    match r {
        Step::Reply(Ok(x), e) => x == m && broadcast_only(e, true),
        _ => false,
    }
}

/// `a` and `b` are the same effects but for the broadcast, which `b` makes.
pub open spec fn plus_broadcast(a: Effects, b: Effects) -> bool {
    &&& b.broadcast
    &&& b.play_error == a.play_error
    &&& b.log_song == a.log_song
    &&& b.started_song == a.started_song
    &&& b.schedule_song_ended == a.schedule_song_ended
}

/// `r` is what `enqueue_and_play` makes of the step `r0` of starting: a
/// broadcast is added, and `AlreadyPlaying` counts as enqueued.
pub open spec fn enqueued_step(r0: Step, r: Step) -> bool {
    match r0 {
        Step::Reply(Ok(m), e0) => match r {
            Step::Reply(Ok(x), e) => x == m && plus_broadcast(e0, e),
            _ => false,
        },
        Step::Reply(Err(MusicError::AlreadyPlaying), e0) => match r {
            Step::Reply(Ok(MusicOk::EnqueuedSong), e) => plus_broadcast(e0, e),
            _ => false,
        },
        Step::Reply(Err(x0), e0) => match r {
            Step::Reply(Err(x), e) => x == x0 && plus_broadcast(e0, e),
            _ => false,
        },
        Step::Invoke(c0, k0, e0) => match r {
            Step::Invoke(c, k, e) => c == c0 && k == k0 && plus_broadcast(e0, e),
            _ => false,
        },
        Step::Abort => r is Abort,
    }
}

/// `new` is `old` with only the queue and the history changed.
pub open spec fn only_queue_history(old: MusicState, new: MusicState, q: Seq<SongRequest>, hist: Seq<SongRequest>) -> bool {
    &&& new.queue() == q
    &&& new.history() == hist
    &&& new.current() == old.current()
    &&& new.status() == old.status()
    &&& same_state(new.ap(), old.ap())
    &&& new.settings() == old.settings()
    &&& new.logs_songs() == old.logs_songs()
}

/// What `enqueue_and_play` of `song` comes to from a state whose history is
/// `hist`: refused when the queue is full; otherwise the song joins the queue
/// and playing starts, unless something is playing already.
pub open spec fn enqueue_and_play_outcome(old: MusicState, new: MusicState, song: SongRequest,
    hist: Seq<SongRequest>, r: Step) -> bool {
    let q0 = old.queue().push(song);
    &&& old.queue().len() > old.settings().queue_length ==> {
        &&& only_queue_history(old, new, old.queue(), hist)
        &&& replies_err(r, MusicError::QueueFull)
    }
    &&& old.queue().len() <= old.settings().queue_length && old.status() == MusicStateStatus::Playing ==> {
        &&& only_queue_history(old, new, q0, hist)
        &&& replies_ok_broadcast(r, MusicOk::EnqueuedSong)
    }
    &&& old.queue().len() <= old.settings().queue_length && old.status() != MusicStateStatus::Playing ==>
        exists|r0: Step| #[trigger] enqueued_step(r0, r) && next_outcome(old, new, q0, hist, old.current(),
            PlayOrigin::EnqueueAndPlay, MusicOk::NothingToPlay, r0)
}

/// How the state and answer change once the player has answered `answer` to
/// the command that `k` continues.
pub open spec fn resume_outcome(old: MusicState, new: MusicState, k: Resume, answer: Result<(), MusicError>, r: Step) -> bool {
    match k {
        Resume::Play(song, origin) => match answer {
            Err(e) => {
                &&& unchanged(old, new)
                &&& match r {
                    Step::Reply(res, eff) => {
                        &&& eff.play_error == Some(e)
                        &&& eff.schedule_song_ended
                        &&& !eff.broadcast
                        &&& eff.log_song is None
                        &&& !eff.started_song
                        &&& res == match origin {
                            PlayOrigin::Direct => Err(e),
                            PlayOrigin::EnqueueAndPlay => if e is AlreadyPlaying {
                                Ok(MusicOk::EnqueuedSong)
                            } else {
                                Err(e)
                            },
                            PlayOrigin::SongEnded => Ok(MusicOk::Unimplemented),
                        }
                    },
                    _ => false,
                }
            },
            Ok(()) => {
                &&& new.current() == Some(song)
                &&& new.status() == MusicStateStatus::Playing
                &&& new.queue() == old.queue()
                &&& new.history() == old.history()
                &&& same_state(new.ap(), old.ap())
                &&& new.settings() == old.settings()
                &&& new.logs_songs() == old.logs_songs()
                &&& match r {
                    Step::Reply(Ok(m), eff) => {
                        &&& eff.broadcast
                        &&& eff.started_song
                        &&& eff.play_error is None
                        &&& !eff.schedule_song_ended
                        &&& eff.log_song == (if old.logs_songs() { Some(song) } else { None })
                        &&& m == if origin == PlayOrigin::SongEnded {
                            MusicOk::Unimplemented
                        } else {
                            MusicOk::StartedPlaying
                        }
                    },
                    _ => false,
                }
            },
        },
        Resume::Skip => {
            &&& unchanged(old, new)
            &&& match answer {
                Err(e) => replies_err(r, e),
                Ok(()) => replies_ok(r, MusicOk::SkippingSong),
            }
        },
        Resume::Stop => match answer {
            Err(e) => unchanged(old, new) && replies_err(r, e),
            Ok(()) => {
                &&& new.current() is None
                &&& new.status() == MusicStateStatus::Stopped
                &&& new.queue() == old.queue()
                &&& new.history() == old.history()
                &&& same_state(new.ap(), old.ap())
                &&& new.settings() == old.settings()
                &&& new.logs_songs() == old.logs_songs()
                &&& replies_ok_broadcast(r, MusicOk::StoppedPlaying)
            },
        },
    }
}

impl MusicState {
    /// Stops the current track, to go on with the next one.
    pub fn skip(&mut self) -> (r: Step)
        ensures
            *final(self) == *old(self),
            match r {
                Step::Invoke(MusicPlayerCommand::Stop, Resume::Skip, e) => no_effects(e),
                _ => false,
            },
    {
        Step::Invoke(MusicPlayerCommand::Stop, Resume::Skip, Effects::none())
    }

    /// Stops the current track, if any, and does not go on.
    pub fn stop(&mut self) -> (r: Step)
        ensures
            final(self).status() == MusicStateStatus::Stopping,
            final(self).current() == old(self).current(),
            final(self).queue() == old(self).queue(),
            final(self).history() == old(self).history(),
            final(self).ap() == old(self).ap(),
            final(self).settings() == old(self).settings(),
            final(self).logs_songs() == old(self).logs_songs(),
            match r {
                Step::Invoke(MusicPlayerCommand::Stop, Resume::Stop, e) => no_effects(e),
                _ => false,
            },
    {
        self.status = MusicStateStatus::Stopping;
        Step::Invoke(MusicPlayerCommand::Stop, Resume::Stop, Effects::none())
    }

    fn start_from(&mut self, origin: PlayOrigin) -> (r: Step)
        requires
            old(self).wf(),
        ensures
            final(self).wf(),
            old(self).status() == MusicStateStatus::Playing ==>
                *final(self) == *old(self) && replies_err(r, MusicError::AlreadyPlaying),
            old(self).status() != MusicStateStatus::Playing ==>
                next_outcome(*old(self), *final(self), old(self).queue(), old(self).history(),
                    old(self).current(), origin, MusicOk::NothingToPlay, r),
    {
        if self.status == MusicStateStatus::Playing {
            return Step::Reply(Err(MusicError::AlreadyPlaying), Effects::none());
        }
        self.next_from(origin, MusicOk::NothingToPlay)
    }

    /// Plays the next song unless something is playing already.
    pub fn start(&mut self) -> (r: Step)
        requires
            old(self).wf(),
        ensures
            final(self).wf(),
            old(self).status() == MusicStateStatus::Playing ==> *final(self) == *old(self),
            start_outcome(*old(self), *final(self), PlayOrigin::Direct, r),
    {
        self.start_from(PlayOrigin::Direct)
    }

    /// Adds a song to the end of the queue, unless the queue already holds
    /// more than `queue_length` songs; does not start playing.
    pub fn enqueue(&mut self, song: SongRequest) -> (r: Step)
        ensures
            old(self).queue().len() > old(self).settings().queue_length ==>
                *final(self) == *old(self) && replies_err(r, MusicError::QueueFull),
            old(self).queue().len() <= old(self).settings().queue_length ==>
                only_queue(*old(self), *final(self), old(self).queue().push(song))
                && replies_ok_broadcast(r, MusicOk::EnqueuedSong),
    {
        if self.queue.len() > self.config.queue_length {
            return Step::Reply(Err(MusicError::QueueFull), Effects::none());
        }
        self.queue.push_back(song);
        Step::Reply(Ok(MusicOk::EnqueuedSong), Effects::broadcast())
    }

    fn add_broadcast(r0: Step) -> (r: Step)
        ensures
            enqueued_step(r0, r),
    {
        match r0 {
            Step::Reply(Ok(m), e) => Step::Reply(Ok(m), Effects { broadcast: true, ..e }),
            Step::Reply(Err(MusicError::AlreadyPlaying), e) =>
                Step::Reply(Ok(MusicOk::EnqueuedSong), Effects { broadcast: true, ..e }),
            Step::Reply(Err(x), e) => Step::Reply(Err(x), Effects { broadcast: true, ..e }),
            Step::Invoke(c, k, e) => Step::Invoke(c, k, Effects { broadcast: true, ..e }),
            Step::Abort => Step::Abort,
        }
    }

    /// Adds a song to the queue and starts playing, unless something is
    /// playing already.
    pub fn enqueue_and_play(&mut self, song: SongRequest) -> (r: Step)
        requires
            old(self).wf(),
        ensures
            final(self).wf(),
            enqueue_and_play_outcome(*old(self), *final(self), song, old(self).history(), r),
    {
        let ghost old_self = *self;
        let ghost q0 = self.queue@.push(song);
        if self.queue.len() > self.config.queue_length {
            return Step::Reply(Err(MusicError::QueueFull), Effects::none());
        }
        self.queue.push_back(song);
        let ghost mid = *self;
        let r0 = self.start_from(PlayOrigin::EnqueueAndPlay);
        let r = Self::add_broadcast(r0);
        proof {
            if old_self.status() != MusicStateStatus::Playing {
                assert(next_outcome(mid, *self, q0, old_self.history(), old_self.current(),
                    PlayOrigin::EnqueueAndPlay, MusicOk::NothingToPlay, r0));
                lemma_next_outcome_same_start(mid, old_self, *self, q0, old_self.history(),
                    old_self.current(), PlayOrigin::EnqueueAndPlay, MusicOk::NothingToPlay, r0);
                assert(enqueued_step(r0, r));
            }
        }
        r
    }

    /// Takes the most recently played song out of the history and plays it
    /// again through `enqueue_and_play`.
    pub fn previous(&mut self) -> (r: Step)
        requires
            old(self).wf(),
        ensures
            final(self).wf(),
            old(self).history().len() == 0 ==>
                unchanged(*old(self), *final(self)) && replies_err(r, MusicError::EmptyHistory),
            old(self).history().len() > 0 ==>
                enqueue_and_play_outcome(*old(self), *final(self), old(self).history()[0],
                    old(self).history().drop_first(), r),
    {
        let ghost old_self = *self;
        match self.history.pop_front() {
            Some(song) => {
                let ghost mid = *self;
                let r = self.enqueue_and_play(song);
                proof {
                    assert(mid.history() =~= old_self.history().drop_first());
                    lemma_enqueue_and_play_same_start(mid, old_self, *self, song,
                        old_self.history().drop_first(), r);
                }
                r
            },
            None => {
                proof {
                    assert(self.history@ =~= old_self.history@);
                }
                Step::Reply(Err(MusicError::EmptyHistory), Effects::none())
            },
        }
    }

    /// Empties the queue.
    pub fn clear_queue(&mut self) -> (r: Step)
        ensures
            only_queue(*old(self), *final(self), Seq::empty()),
            replies_ok_broadcast(r, MusicOk::EmptyQueue),
    {
        self.queue.clear();
        proof {
            assert(self.queue@ =~= Seq::<SongRequest>::empty());
        }
        Step::Reply(Ok(MusicOk::EmptyQueue), Effects::broadcast())
    }

    /// Empties the history.
    pub fn clear_history(&mut self) -> (r: Step)
        ensures
            only_queue_history(*old(self), *final(self), old(self).queue(), Seq::empty()),
            replies_ok_broadcast(r, MusicOk::EmptyQueue),
    {
        self.history.clear();
        proof {
            assert(self.history@ =~= Seq::<SongRequest>::empty());
        }
        Step::Reply(Ok(MusicOk::EmptyQueue), Effects::broadcast())
    }
}

/// `next_outcome` depends on the state it starts from only through the
/// status, the settings and the autoplay state.
pub proof fn lemma_next_outcome_same_start(a: MusicState, b: MusicState, new: MusicState, q0: Seq<SongRequest>,
    hist: Seq<SongRequest>, cur: Option<SongRequest>, origin: PlayOrigin, empty: MusicOk, r: Step)
    requires
        next_outcome(a, new, q0, hist, cur, origin, empty, r),
        a.status() == b.status(),
        a.settings() == b.settings(),
        a.logs_songs() == b.logs_songs(),
        same_state(a.ap(), b.ap()),
    ensures
        next_outcome(b, new, q0, hist, cur, origin, empty, r),
{
    if q0.len() == 0 && b.ap().is_on() && !b.ap().times().dom().is_empty() && !(r is Abort) {
        let s = choose|s: SongRequest| #[trigger] took_autoplay(a, new, q0, hist, cur, s) && play_decided(cur, s, origin, r);
        assert(took_autoplay(b, new, q0, hist, cur, s));
    }
}

/// `enqueue_and_play_outcome` depends on the state it starts from only
/// through the queue, the current track, the status, the settings and the
/// autoplay state.
pub proof fn lemma_enqueue_and_play_same_start(a: MusicState, b: MusicState, new: MusicState, song: SongRequest,
    hist: Seq<SongRequest>, r: Step)
    requires
        enqueue_and_play_outcome(a, new, song, hist, r),
        a.queue() == b.queue(),
        a.current() == b.current(),
        a.status() == b.status(),
        a.settings() == b.settings(),
        a.logs_songs() == b.logs_songs(),
        same_state(a.ap(), b.ap()),
    ensures
        enqueue_and_play_outcome(b, new, song, hist, r),
{
    let q0 = a.queue().push(song);
    if a.queue().len() <= a.settings().queue_length && a.status() != MusicStateStatus::Playing {
        let r0 = choose|r0: Step| #[trigger] enqueued_step(r0, r) && next_outcome(a, new, q0, hist, a.current(),
            PlayOrigin::EnqueueAndPlay, MusicOk::NothingToPlay, r0);
        lemma_next_outcome_same_start(a, b, new, q0, hist, a.current(), PlayOrigin::EnqueueAndPlay,
            MusicOk::NothingToPlay, r0);
    }
}

} // verus!

verus! {

/// The history once the current track `cur` has ended.
pub open spec fn history_when_ended(old: MusicState) -> Seq<SongRequest> {
    match old.current() {
        Some(c) => history_after(old.history(), c, old.settings().history_count),
        None => old.history(),
    }
}

/// What the end of the current song comes to: it goes to the history; then,
/// unless stopping or stopped, the next song is taken and played, and the
/// state becomes stopped when there is none. The answer is not meaningful.
pub open spec fn song_ended_outcome(old: MusicState, new: MusicState, r: Step) -> bool {
    let q = old.queue();
    let hist = history_when_ended(old);
    if old.status() == MusicStateStatus::Stopping || old.status() == MusicStateStatus::Stopped {
        &&& new.current() is None
        &&& new.history() == hist
        &&& new.queue() == q
        &&& new.status() == old.status()
        &&& same_state(new.ap(), old.ap())
        &&& new.settings() == old.settings()
        &&& new.logs_songs() == old.logs_songs()
        &&& replies_ok(r, MusicOk::Unimplemented)
    } else {
        &&& r is Abort ==> !fits_for(old, q)
        &&& q.len() > 0 && !fits_for(old, q) ==> r is Abort
        &&& q.len() > 0 && fits_for(old, q) ==>
            took_front(old, new, q, hist, None, q[0]) && play_decided(None, q[0], PlayOrigin::SongEnded, r)
        &&& q.len() == 0 && (!old.ap().is_on() || old.ap().times().dom().is_empty()) ==> {
            &&& new.current() is None
            &&& new.history() == hist
            &&& new.queue() == q
            &&& new.status() == MusicStateStatus::Stopped
            &&& same_state(new.ap(), old.ap())
            &&& new.settings() == old.settings()
            &&& new.logs_songs() == old.logs_songs()
            &&& replies_ok(r, MusicOk::Unimplemented)
        }
        &&& q.len() == 0 && old.ap().is_on() && !old.ap().times().dom().is_empty() && !(r is Abort) ==>
            exists|s: SongRequest| #[trigger] took_autoplay(old, new, q, hist, None, s)
                && play_decided(None, s, PlayOrigin::SongEnded, r)
    }
}

impl MusicState {
    /// Handles the end of the current song.
    pub fn song_ended(&mut self) -> (r: Step)
        requires
            old(self).wf(),
        ensures
            final(self).wf(),
            song_ended_outcome(*old(self), *final(self), r),
    {
        let ghost old_self = *self;
        match &self.current_track {
            Some(song) => {
                let song = song.clone();
                self.current_track = None;
                self.history.push_front(song);
                self.history.truncate(#[verifier::truncate] (self.config.history_count as usize));
                proof {
                    assert(self.history@ =~= history_when_ended(old_self));
                }
            },
            None => {},
        }
        proof {
            assert(self.history@ == history_when_ended(old_self));
            assert(self.current_track is None);
        }
        if self.status == MusicStateStatus::Stopping || self.status == MusicStateStatus::Stopped {
            return Step::Reply(Ok(MusicOk::Unimplemented), Effects::none());
        }
        let ghost mid = *self;
        let r0 = self.next_from(PlayOrigin::SongEnded, MusicOk::EmptyQueue);
        proof {
            lemma_next_outcome_same_start(mid, old_self, *self, mid.queue(), mid.history(), None,
                PlayOrigin::SongEnded, MusicOk::EmptyQueue, r0);
        }
        match r0 {
            Step::Reply(_, e) => {
                let ghost before = *self;
                self.status = MusicStateStatus::Stopped;
                proof {
                    assert(old_self.queue().len() == 0);
                    assert(!old_self.ap().is_on() || old_self.ap().times().dom().is_empty());
                    assert(took_nothing(old_self, before, mid.queue(), mid.history(), None));
                    assert(self.queue() == before.queue());
                    assert(self.history() == before.history());
                    assert(self.current() == before.current());
                    assert(same_state(self.ap(), before.ap()));
                }
                Step::Reply(Ok(MusicOk::Unimplemented), e)
            },
            other => other,
        }
    }

    /// Continues the command that `k` stands for, once the player has answered.
    pub fn resume(&mut self, k: Resume, answer: Result<(), MusicError>) -> (r: Step)
        ensures
            resume_outcome(*old(self), *final(self), k, answer, r),
            final(self).ap() == old(self).ap(),
    {
        match k {
            Resume::Play(song, origin) => match answer {
                Err(e) => {
                    let res = match origin {
                        PlayOrigin::Direct => Err(e),
                        PlayOrigin::EnqueueAndPlay => match e {
                            MusicError::AlreadyPlaying => Ok(MusicOk::EnqueuedSong),
                            other => Err(other),
                        },
                        PlayOrigin::SongEnded => Ok(MusicOk::Unimplemented),
                    };
                    let e2 = Effects {
                        broadcast: false,
                        play_error: Some(e),
                        log_song: None,
                        started_song: false,
                        schedule_song_ended: true,
                    };
                    Step::Reply(res, e2)
                },
                Ok(()) => {
                    let log_song = if self.songlog_enabled { Some(song.clone()) } else { None };
                    self.current_track = Some(song);
                    self.status = MusicStateStatus::Playing;
                    let m = if origin == PlayOrigin::SongEnded {
                        MusicOk::Unimplemented
                    } else {
                        MusicOk::StartedPlaying
                    };
                    Step::Reply(Ok(m), Effects {
                        broadcast: true,
                        play_error: None,
                        log_song,
                        started_song: true,
                        schedule_song_ended: false,
                    })
                },
            },
            Resume::Skip => match answer {
                Err(e) => Step::Reply(Err(e), Effects::none()),
                Ok(()) => Step::Reply(Ok(MusicOk::SkippingSong), Effects::none()),
            },
            Resume::Stop => match answer {
                Err(e) => Step::Reply(Err(e), Effects::none()),
                Ok(()) => {
                    self.status = MusicStateStatus::Stopped;
                    self.current_track = None;
                    Step::Reply(Ok(MusicOk::StoppedPlaying), Effects::broadcast())
                },
            },
        }
    }
}

} // verus!

verus! {

impl MusicState {
    /// The front-end snapshot of the state; `song_progress` is how far into
    /// the current song playing is, in seconds. Upcoming songs are empty when
    /// autoplay has none to give.
    pub fn get_webdata(&self, song_progress: u64) -> (d: MinstrelWebData)
        requires
            self.wf(),
        ensures
            d.current_track == self.current(),
            d.song_progress == song_progress,
            d.status == self.status(),
            d.queue@ == self.queue(),
            d.history@ == self.history(),
            d.ap_enabled == self.ap().is_on(),
            lookahead(self.ap(), upcoming_len(*self), d.upcoming@),
    {
        let upcoming = match self.autoplay.prefetch(self.config.upcoming_count, self.config.autoplay_prefetch_max) {
            Some(v) => v,
            None => Vec::new(),
        };
        let queue = self.queue.clone();
        let history = self.history.clone();
        proof {
            assert(queue@ =~= self.queue@);
            assert(history@ =~= self.history@);
        }
        MinstrelWebData {
            current_track: self.current_song(),
            song_progress,
            status: self.status,
            queue,
            upcoming,
            history,
            ap_enabled: self.autoplay.is_enabled(),
        }
    }

    /// The display text of the play queue.
    pub fn show_queue(&self) -> (s: String)
        ensures
            s@ == crate::model::queue_listing(self.queue()),
    {
        let data = MinstrelWebData {
            current_track: None,
            song_progress: 0,
            status: self.status,
            queue: self.queue.clone(),
            upcoming: Vec::new(),
            history: VecDeque::new(),
            ap_enabled: false,
        };
        proof {
            assert(data.queue@ =~= self.queue@);
        }
        data.show_queue()
    }

    pub fn get_history(&self) -> (h: VecDeque<SongRequest>)
        ensures
            h@ == self.history(),
    {
        let h = self.history.clone();
        proof {
            assert(h@ =~= self.history@);
        }
        h
    }

    pub fn current_song(&self) -> (s: Option<SongRequest>)
        ensures
            s == self.current(),
    {
        match &self.current_track {
            Some(s) => Some(s.clone()),
            None => None,
        }
    }

    /// The autoplay state, for reading.
    pub fn autoplay_state(&self) -> (a: &AutoplayState)
        ensures
            *a == self.ap(),
    {
        &self.autoplay
    }

    /// The most songs autoplay looks ahead.
    pub fn prefetch_max(&self) -> (m: u64)
        ensures
            m == self.settings().autoplay_prefetch_max,
    {
        self.config.autoplay_prefetch_max
    }

    pub fn is_queue_empty(&self) -> (b: bool)
        ensures
            b == (self.queue().len() == 0),
    {
        self.queue.len() == 0
    }
}

} // verus!

verus! {

/// What carrying out `cmd` comes to; `fetched` are the songs of the
/// requester's sources for an `UpdatePlaylist` command, and `song_progress`
/// the seconds played of the current song, for `GetData`.
pub open spec fn command_outcome(old: MusicState, new: MusicState, cmd: MusicControlCmd,
    fetched: Seq<Song>, song_progress: u64, r: Step) -> bool {
    match cmd {
        MusicControlCmd::Play(song) => new == old && play_decided(old.current(), song, PlayOrigin::Direct, r),
        MusicControlCmd::Skip => new == old && match r {
            Step::Invoke(MusicPlayerCommand::Stop, Resume::Skip, e) => no_effects(e),
            _ => false,
        },
        MusicControlCmd::Stop => {
            &&& new.status() == MusicStateStatus::Stopping
            &&& new.current() == old.current()
            &&& new.queue() == old.queue()
            &&& new.history() == old.history()
            &&& new.ap() == old.ap()
            &&& new.settings() == old.settings()
            &&& new.logs_songs() == old.logs_songs()
            &&& match r {
                Step::Invoke(MusicPlayerCommand::Stop, Resume::Stop, e) => no_effects(e),
                _ => false,
            }
        },
        MusicControlCmd::Start => {
            &&& old.status() == MusicStateStatus::Playing ==>
                new == old && replies_err(r, MusicError::AlreadyPlaying)
            &&& old.status() != MusicStateStatus::Playing ==>
                next_outcome(old, new, old.queue(), old.history(), old.current(), PlayOrigin::Direct,
                    MusicOk::NothingToPlay, r)
        },
        MusicControlCmd::Enqueue(song) => {
            &&& old.queue().len() > old.settings().queue_length ==>
                new == old && replies_err(r, MusicError::QueueFull)
            &&& old.queue().len() <= old.settings().queue_length ==>
                only_queue(old, new, old.queue().push(song)) && replies_ok_broadcast(r, MusicOk::EnqueuedSong)
        },
        MusicControlCmd::EnqueueAndPlay(song) => enqueue_and_play_outcome(old, new, song, old.history(), r),
        MusicControlCmd::ClearQueue =>
            only_queue(old, new, Seq::empty()) && replies_ok_broadcast(r, MusicOk::EmptyQueue),
        MusicControlCmd::ClearHistory =>
            only_queue_history(old, new, old.queue(), Seq::empty()) && replies_ok_broadcast(r, MusicOk::EmptyQueue),
        MusicControlCmd::Previous => {
            &&& old.history().len() == 0 ==> unchanged(old, new) && replies_err(r, MusicError::EmptyHistory)
            &&& old.history().len() > 0 ==>
                enqueue_and_play_outcome(old, new, old.history()[0], old.history().drop_first(), r)
        },
        MusicControlCmd::SongEnded => song_ended_outcome(old, new, r),
        MusicControlCmd::GetData => new == old && match r {
            Step::Reply(Ok(MusicOk::Data(d)), e) => {
                &&& no_effects(e)
                &&& d.current_track == old.current()
                &&& d.song_progress == song_progress
                &&& d.status == old.status()
                &&& d.queue@ == old.queue()
                &&& d.history@ == old.history()
                &&& d.ap_enabled == old.ap().is_on()
                &&& lookahead(old.ap(), upcoming_len(old), d.upcoming@)
            },
            _ => false,
        },
        MusicControlCmd::AutoplayCmd(c) => {
            &&& new.current() == old.current()
            &&& new.status() == old.status()
            &&& new.queue() == old.queue()
            &&& new.history() == old.history()
            &&& new.settings() == old.settings()
            &&& new.logs_songs() == old.logs_songs()
            &&& !autoplay_cmd_fits(old.ap(), c) ==> r is Abort && new == old
            &&& autoplay_cmd_fits(old.ap(), c) ==> match r {
                Step::Reply(res, e) => {
                    &&& autoplay_cmd_outcome(old.ap(), new.ap(), c, fetched, old.settings().autoplay_prefetch_max, res)
                    &&& broadcast_only(e, res is Ok && !(c is Status))
                },
                _ => false,
            }
        },
    }
}

impl MusicState {
    /// Carries out one command, as the command loop does.
    pub fn handle(&mut self, cmd: MusicControlCmd, fetched: &Vec<Song>, song_progress: u64) -> (r: Step)
        requires
            old(self).wf(),
        ensures
            final(self).wf(),
            command_outcome(*old(self), *final(self), cmd, fetched@, song_progress, r),
    {
        match cmd {
            MusicControlCmd::Play(song) => self.play(song),
            MusicControlCmd::Skip => self.skip(),
            MusicControlCmd::Stop => self.stop(),
            MusicControlCmd::Start => self.start(),
            MusicControlCmd::Enqueue(song) => self.enqueue(song),
            MusicControlCmd::EnqueueAndPlay(song) => self.enqueue_and_play(song),
            MusicControlCmd::ClearQueue => self.clear_queue(),
            MusicControlCmd::ClearHistory => self.clear_history(),
            MusicControlCmd::Previous => self.previous(),
            MusicControlCmd::SongEnded => self.song_ended(),
            MusicControlCmd::GetData => {
                let d = self.get_webdata(song_progress);
                Step::Reply(Ok(MusicOk::Data(Box::new(d))), Effects::none())
            },
            MusicControlCmd::AutoplayCmd(c) => {
                let is_status = match c {
                    AutoplayControlCmd::Status => true,
                    _ => false,
                };
                if !cmd_fits(&self.autoplay, &c) {
                    return Step::Abort;
                }
                let res = handle_cmd(c, &mut self.autoplay, fetched, self.config.autoplay_prefetch_max);
                let b = res.is_ok() && !is_status;
                Step::Reply(res, Effects { broadcast: b, play_error: None, log_song: None, started_song: false, schedule_song_ended: false })
            },
        }
    }
}

} // verus!

verus! {

/// How many more songs the queue takes: it accepts a song while it holds no
/// more than `queue_length`.
pub open spec fn queue_room(s: MusicState) -> nat {
    if s.queue().len() > s.settings().queue_length {
        0
    } else {
        (s.settings().queue_length + 1 - s.queue().len()) as nat
    }
}

/// The smaller of two counts.
pub open spec fn min_nat(a: nat, b: nat) -> nat {
    if a < b { a } else { b }
}

/// The most songs that moving autoplay songs into the queue takes at once.
pub const DUMP_MAX: u64 = 20;

/// Why autoplay songs were not moved into the queue.
#[derive(Debug, Clone, Copy, PartialEq, Eq, Structural)]
pub enum DumpError {
    /// More than `DUMP_MAX` songs were asked for.
    TooMany,
    NotEnabled,
}

/// The reply for a refused move of autoplay songs.
pub open spec fn dump_error_text(e: DumpError) -> Seq<char> {
    match e {
        DumpError::TooMany => "Requested dump exceeds maximum allowed, max is "@ + nat_text(DUMP_MAX as nat),
        DumpError::NotEnabled => "Autoplay is not enabled."@,
    }
}

impl DumpError {
    pub fn message(&self) -> (s: String)
        ensures
            s@ == dump_error_text(*self),
    {
        match self {
            DumpError::TooMany => {
                let mut s = String::from_str("Requested dump exceeds maximum allowed, max is ");
                push_u64(&mut s, DUMP_MAX);
                s
            },
            DumpError::NotEnabled => String::from_str("Autoplay is not enabled."),
        }
    }
}

/// The notice that the queue filled up after `added` songs.
pub fn queue_full_notice(added: u64) -> (s: String)
    ensures
        s@ == "Queue capacity reached, only could add "@ + nat_text(added as nat),
{
    let mut s = String::from_str("Queue capacity reached, only could add ");
    push_u64(&mut s, added);
    s
}

/// How many songs autoplay looks ahead for the web view.
pub open spec fn upcoming_len(s: MusicState) -> nat {
    (if s.settings().upcoming_count > s.settings().autoplay_prefetch_max {
        s.settings().autoplay_prefetch_max
    } else {
        s.settings().upcoming_count
    }) as nat
}

/// `new` is `old` after moving the first songs of the look-ahead `up` into
/// the queue, `added` of them, and turning autoplay off.
pub open spec fn dumped(old: MusicState, new: MusicState, num: u64, up: Seq<SongRequest>, added: nat) -> bool {
    let k = min_nat(num as nat, up.len());
    &&& lookahead(old.ap(), upcoming_len(old), up)
    &&& added == min_nat(k, queue_room(old))
    &&& new.queue() == old.queue() + up.take(added as int)
    &&& new.current() == old.current()
    &&& new.status() == old.status()
    &&& new.history() == old.history()
    &&& new.ap().playlists() == old.ap().playlists()
    &&& new.ap().times() == old.ap().times()
    &&& new.ap().cached_times() == old.ap().cached_times()
    &&& !new.ap().is_on()
    &&& new.settings() == old.settings()
    &&& new.logs_songs() == old.logs_songs()
}

/// What moving autoplay songs into the queue did: how many went in, and
/// whether the queue filled up before all the asked-for songs did.
#[derive(Debug, Clone, Copy, PartialEq, Eq, Structural)]
pub struct DumpReport {
    pub added: usize,
    pub queue_full: bool,
}

/// When `r` reports songs moved, `new` is `old` after moving them.
pub open spec fn dump_done(old: MusicState, new: MusicState, num: u64, r: Result<DumpReport, DumpError>) -> bool {
    r matches Ok(rep) ==> exists|up: Seq<SongRequest>| #[trigger] dumped(old, new, num, up, rep.added as nat)
        && rep.queue_full == (rep.added < min_nat(num as nat, up.len()))
}

impl MusicState {
    /// Appends songs to the queue in order until it is full; gives how many
    /// went in.
    pub fn enqueue_all(&mut self, songs: &Vec<SongRequest>) -> (added: usize)
        ensures
            added == min_nat(songs@.len(), queue_room(*old(self))),
            only_queue(*old(self), *final(self), old(self).queue() + songs@.take(added as int)),
    {
        let ghost start = *self;
        let n = songs.len();
        let mut i: usize = 0;
        let mut full = false;
        while i < n && !full
            invariant
                i <= n,
                n == songs@.len(),
                only_queue(start, *self, start.queue() + songs@.take(i as int)),
                full ==> i == queue_room(start),
                !full ==> i <= queue_room(start),
            decreases n - i + (if full { 0int } else { 1int }),
        {
            let r = self.enqueue(songs[i].clone());
            match r {
                Step::Reply(Ok(_), _) => {
                    proof {
                        assert(songs@.take(i + 1) =~= songs@.take(i as int).push(songs@[i as int]));
                    }
                    i = i + 1;
                },
                _ => {
                    full = true;
                },
            }
        }
        i
    }

    /// Moves up to `num` of the songs autoplay would play next into the
    /// queue, as many as it takes, then turns autoplay off; the report says
    /// how many went in and whether the queue filled up first.
    pub fn dump_upcoming(&mut self, num: u64) -> (r: Result<DumpReport, DumpError>)
        requires
            old(self).wf(),
        ensures
            final(self).wf(),
            num > DUMP_MAX ==> r == Err::<DumpReport, DumpError>(DumpError::TooMany) && *final(self) == *old(self),
            num <= DUMP_MAX && !old(self).ap().is_on()
                ==> r == Err::<DumpReport, DumpError>(DumpError::NotEnabled) && *final(self) == *old(self),
            num <= DUMP_MAX && old(self).ap().is_on() ==> r is Ok,
            dump_done(*old(self), *final(self), num, r),
    {
        if num > DUMP_MAX {
            return Err(DumpError::TooMany);
        }
        if !self.autoplay.is_enabled() {
            return Err(DumpError::NotEnabled);
        }
        let ghost start = *self;
        let upcoming = self.get_webdata(0).upcoming;
        let k: usize = if (num as usize) < upcoming.len() { num as usize } else { upcoming.len() };
        let mut first: Vec<SongRequest> = Vec::new();
        let mut i: usize = 0;
        while i < k
            invariant
                i <= k,
                k <= upcoming@.len(),
                first@ == upcoming@.take(i as int),
            decreases k - i,
        {
            first.push(upcoming[i].clone());
            proof {
                assert(upcoming@.take(i + 1) =~= upcoming@.take(i as int).push(upcoming@[i as int]));
            }
            i = i + 1;
        }
        let added = self.enqueue_all(&first);
        self.autoplay.disable();
        let r: Result<DumpReport, DumpError> = Ok(DumpReport { added, queue_full: added < k });
        proof {
            let up = upcoming@;
            assert(up.take(k as int).take(added as int) =~= up.take(added as int));
            assert(dumped(start, *self, num, up, added as nat));
            assert(r->Ok_0.added == added);
            assert(dump_done(start, *self, num, r));
        }
        r
    }
}

} // verus!

verus! {

/// Songs are played in the order they were queued: a song added to a
/// non-empty queue does not jump ahead, the next song taken is the front of
/// the queue, and the new song waits at the back.
pub proof fn law_queue_first_in_first_out(s0: MusicState, s1: MusicState, s2: MusicState,
    song: SongRequest, taken: SongRequest)
    requires
        s0.queue().len() > 0,
        only_queue(s0, s1, s0.queue().push(song)),
        next_song_taken(s1, s2, NextSong::Song(taken)),
    ensures
        taken == s0.queue()[0],
        s2.queue() == s0.queue().drop_first().push(song),
{
    assert(s1.queue().drop_first() =~= s0.queue().drop_first().push(song));
}

/// Autoplay only plays when the queue is empty: whenever the queue holds a
/// song, the next song taken is its front.
pub proof fn law_queue_before_autoplay(old: MusicState, new: MusicState, taken: SongRequest)
    requires
        old.queue().len() > 0,
        next_song_taken(old, new, NextSong::Song(taken)),
    ensures
        taken == old.queue()[0],
        new.queue() == old.queue().drop_first(),
{
}

/// The history keeps the most recent song first, followed by the earlier
/// history in order, and never holds more than `count` songs.
pub proof fn law_history_most_recent_first(history: Seq<SongRequest>, song: SongRequest, count: u64)
    requires
        1 <= count <= usize::MAX,
    ensures
        history_after(history, song, count).len() <= count,
        history_after(history, song, count).len() == min_nat((history.len() + 1) as nat, count as nat),
        history_after(history, song, count)[0] == song,
        forall|i: int| 1 <= i < history_after(history, song, count).len()
            ==> #[trigger] history_after(history, song, count)[i] == history[i - 1],
{
    let h = seq![song] + history;
    assert(h[0] == song);
    assert forall|i: int| 1 <= i < h.len() implies #[trigger] h[i] == history[i - 1] by {}
}

} // verus!

verus! {

/// The line written to the song log for a song that started at `time`:
/// the time, title, artist, URL and requester, separated by `sep`.
pub open spec fn songlog_text(time: Seq<char>, sep: char, s: SongRequest) -> Seq<char> {
    time + seq![sep] + s.song.title@ + seq![sep] + s.song.artist@ + seq![sep] + s.song.url@
        + seq![sep] + s.requested_by.displayname@ + "\n"@
}

/// The song log line of a song that started at `time`.
pub fn songlog_line(time: &str, sep: char, s: &SongRequest) -> (r: String)
    ensures
        r@ == songlog_text(time@, sep, *s),
{
    let mut r = String::from_str(time);
    push_char(&mut r, sep);
    r.append(s.song.title.as_str());
    push_char(&mut r, sep);
    r.append(s.song.artist.as_str());
    push_char(&mut r, sep);
    r.append(s.song.url.as_str());
    push_char(&mut r, sep);
    r.append(s.requested_by.displayname.as_str());
    r.append("\n");
    proof {
        assert(r@ =~= songlog_text(time@, sep, *s));
    }
    r
}

} // verus!

verus! {

/// Enqueue-and-play is enqueueing, then starting: with the queue full the
/// song is refused and nothing changes; otherwise the answer is what starting
/// from the state with the song queued (`mid`) gives, with `AlreadyPlaying`
/// answered as `EnqueuedSong`.
pub proof fn law_enqueue_and_play_is_enqueue_then_start(old: MusicState, mid: MusicState, new: MusicState,
    song: SongRequest, r: Step)
    requires
        enqueue_and_play_outcome(old, new, song, old.history(), r),
        only_queue(old, mid, old.queue().push(song)),
    ensures
        old.queue().len() > old.settings().queue_length ==>
            replies_err(r, MusicError::QueueFull) && unchanged(old, new),
        old.queue().len() <= old.settings().queue_length ==>
            exists|r0: Step| #[trigger] enqueued_step(r0, r) && start_outcome(mid, new, PlayOrigin::EnqueueAndPlay, r0),
{
    let q0 = old.queue().push(song);
    if old.queue().len() <= old.settings().queue_length {
        if old.status() == MusicStateStatus::Playing {
            let e0 = Effects { broadcast: false, play_error: None, log_song: None, started_song: false,
                schedule_song_ended: false };
            let r0 = Step::Reply(Err(MusicError::AlreadyPlaying), e0);
            assert(enqueued_step(r0, r));
            assert(start_outcome(mid, new, PlayOrigin::EnqueueAndPlay, r0));
        } else {
            let r0 = choose|r0: Step| #[trigger] enqueued_step(r0, r) && next_outcome(old, new, q0, old.history(),
                old.current(), PlayOrigin::EnqueueAndPlay, MusicOk::NothingToPlay, r0);
            lemma_next_outcome_same_start(old, mid, new, q0, old.history(), old.current(),
                PlayOrigin::EnqueueAndPlay, MusicOk::NothingToPlay, r0);
            assert(start_outcome(mid, new, PlayOrigin::EnqueueAndPlay, r0));
        }
    }
}

} // verus!

verus! {

/// A song played from the queue while autoplay is on, with queued songs
/// counting toward autoplay time, is charged to its requester: their last
/// known time, and their enrolled time when they are enrolled, grow by
/// exactly its duration; every other user's times stay as they were.
pub proof fn law_queued_song_charged(old: MusicState, new: MusicState, s: SongRequest)
    requires
        old.wf(),
        old.queue().len() > 0,
        old.ap().is_on(),
        old.settings().queue_adds_usertime,
        next_song_taken(old, new, NextSong::Song(s)),
        fits_i64(cached_or_zero(old.ap(), s.requested_by.id) + s.song.duration),
    ensures
        s == old.queue()[0],
        new.ap().cached_times().contains_key(s.requested_by.id),
        new.ap().cached_times()[s.requested_by.id] == cached_or_zero(old.ap(), s.requested_by.id) + s.song.duration,
        old.ap().times().contains_key(s.requested_by.id) ==>
            new.ap().times()[s.requested_by.id] == old.ap().times()[s.requested_by.id] + s.song.duration,
        new.ap().times().dom() == old.ap().times().dom(),
        forall|w: i64| w != s.requested_by.id && #[trigger] old.ap().times().contains_key(w)
            ==> new.ap().times()[w] == old.ap().times()[w],
        forall|w: i64| w != s.requested_by.id ==>
            (#[trigger] new.ap().cached_times().contains_key(w) == old.ap().cached_times().contains_key(w)),
{
    let u = s.requested_by.id;
    if old.ap().times().contains_key(u) {
        assert(old.ap().cached_times().contains_key(u));
        assert(cached_or_zero(old.ap(), u) == old.ap().times()[u]);
    }
    assert(new.ap().times().dom() =~= old.ap().times().dom());
}

/// When a song ends, the history starts with that song, followed by the
/// earlier history in order, and holds `min(old length + 1, history_count)`
/// songs; with no song playing it is left as it was.
pub proof fn law_song_end_history(old: MusicState, new: MusicState, r: Step)
    requires
        song_ended_outcome(old, new, r),
        !(r is Abort),
        old.settings().history_count <= usize::MAX,
    ensures
        old.current() is None ==> new.history() == old.history(),
        old.current() matches Some(c) ==> {
            let n = old.settings().history_count;
            &&& new.history().len() == min_nat((old.history().len() + 1) as nat, n as nat)
            &&& n >= 1 ==> new.history()[0] == c
            &&& forall|i: int| 1 <= i < new.history().len() ==> #[trigger] new.history()[i] == old.history()[i - 1]
        },
{
    let q = old.queue();
    if !(old.status() == MusicStateStatus::Stopping || old.status() == MusicStateStatus::Stopped) {
        if q.len() == 0 && old.ap().is_on() && !old.ap().times().dom().is_empty() {
            let s = choose|s: SongRequest| #[trigger] took_autoplay(old, new, q, history_when_ended(old), None, s)
                && play_decided(None, s, PlayOrigin::SongEnded, r);
        }
    }
    assert(new.history() == history_when_ended(old));
    if let Some(c) = old.current() {
        let n = old.settings().history_count;
        if n >= 1 {
            law_history_most_recent_first(old.history(), c, n);
        } else {
            let h = seq![c] + old.history();
            assert(h.len() > n as usize);
            assert(h.take(0).len() == 0);
        }
    }
}

} // verus!
