//! The text shown in chat for the history, the upcoming autoplay songs and
//! the whole queue state.

use vstd::prelude::*;
use vstd::string::StringExecFns;
use crate::model::{SongRequest, numbered_line, numbered_lines, push_numbered_line, request_text, queue_listing};
use crate::musicstate::MusicState;
use crate::autoplay::{AutoplayState, prefetched, prefetch_blocked};
use crate::config::DiscordConfig;
use crate::model::Song;
use crate::text::{int_text, int_text_02, trunc_div, trunc_rem, push_i64, push_i64_02, minutes_seconds};

verus! {

/// The lines `hi: s[hi - 1]` down to `1: s[0]`.
pub open spec fn lines_down(s: Seq<SongRequest>, hi: nat) -> Seq<char>
    decreases hi,
{
    if hi == 0 {
        Seq::empty()
    } else {
        numbered_line(hi, s[hi - 1]) + lines_down(s, (hi - 1) as nat)
    }
}

/// The history listing: the `num` most recent songs, the oldest of them
/// first, each numbered by how many songs ago it played; `None` when
/// nothing has played.
pub open spec fn history_listing(h: Seq<SongRequest>, num: nat) -> Option<Seq<char>> {
    if h.len() == 0 {
        None
    } else {
        let k = if num < h.len() { num } else { h.len() };
        Some("Last played songs:\n"@ + lines_down(h, k))
    }
}

/// The listing of the `num` most recently played songs.
pub fn show_history(state: &MusicState, num: usize) -> (r: Option<String>)
    ensures
        r is Some == (state.history().len() > 0),
        r matches Some(s) ==> history_listing(state.history(), num as nat) == Some(s@),
{
    let h = state.get_history();
    let n = h.len();
    if n == 0 {
        return None;
    }
    let k: usize = if num < n { num } else { n };
    let mut ret = String::from_str("Last played songs:\n");
    let ghost head = ret@;
    let mut i: usize = k;
    while i > 0
        invariant
            i <= k,
            k <= n,
            n == h@.len(),
            ret@ + lines_down(h@, i as nat) == head + lines_down(h@, k as nat),
        decreases i,
    {
        let ghost before = ret@;
        push_numbered_line(&mut ret, i as u64, &h[i - 1]);
        proof {
            assert(ret@ + lines_down(h@, (i - 1) as nat) =~= before + lines_down(h@, i as nat));
        }
        i = i - 1;
    }
    proof {
        assert(ret@ + lines_down(h@, 0) =~= ret@);
    }
    Some(ret)
}

/// The autoplay listing: the upcoming songs numbered from 1, or a notice
/// that nobody is enrolled.
pub open spec fn upcoming_listing(o: Option<Seq<SongRequest>>) -> Seq<char> {
    match o {
        None => "No users enrolled in Autoplay\n"@,
        Some(v) => "Upcoming Autoplay songs:\n"@ + numbered_lines(v),
    }
}

/// The autoplay listing of the given look-ahead.
pub fn upcoming_text(songs: &Option<Vec<SongRequest>>) -> (s: String)
    ensures
        s@ == upcoming_listing(match songs { Some(v) => Some(v@), None => None }),
{
    match songs {
        None => String::from_str("No users enrolled in Autoplay\n"),
        Some(v) => {
            let mut ret = String::from_str("Upcoming Autoplay songs:\n");
            let n = v.len();
            let mut i: usize = 0;
            while i < n
                invariant
                    n == v@.len(),
                    i <= n,
                    ret@ == "Upcoming Autoplay songs:\n"@ + numbered_lines(v@.take(i as int)),
                decreases n - i,
            {
                push_numbered_line(&mut ret, (i + 1) as u64, &v[i]);
                proof {
                    assert(v@.take(i + 1).drop_last() =~= v@.take(i as int));
                }
                i = i + 1;
            }
            proof {
                assert(v@.take(n as int) =~= v@);
            }
            ret
        },
    }
}

/// `t` is an autoplay listing of the next `n` songs of `ap`: the notice when
/// nobody is enrolled, an empty listing when `n` is zero, otherwise the
/// listing of the songs autoplay would give next, or the notice when that
/// run gets stuck.
pub open spec fn upcoming_shown(ap: AutoplayState, n: nat, t: Seq<char>) -> bool {
    &&& n == 0 ==> t == upcoming_listing(Some(Seq::empty()))
    &&& n > 0 && ap.times().dom().is_empty() ==> t == upcoming_listing(None)
    &&& (t == upcoming_listing(None) && n > 0 && (ap.times().dom().is_empty() || prefetch_blocked(ap, n)))
        || exists|v: Seq<SongRequest>| #[trigger] prefetched(ap, n, v) && t == upcoming_listing(Some(v))
}

/// How many songs a listing of `num` upcoming songs shows: `num`, capped at
/// the front end's most and at how far autoplay looks ahead.
pub open spec fn upcoming_count(state: MusicState, discord: DiscordConfig, num: u64) -> nat {
    let n = if num > discord.autoplay_upcoming_max { discord.autoplay_upcoming_max } else { num };
    let m = state.settings().autoplay_prefetch_max;
    (if n > m { m } else { n }) as nat
}

/// The `num` next autoplay songs, with `num` capped at the configured most.
pub fn autoplay_show_upcoming(state: &MusicState, num: u64, discord: &DiscordConfig) -> (s: String)
    requires
        state.wf(),
    ensures
        upcoming_shown(state.ap(), upcoming_count(*state, *discord, num), s@),
{
    let n = if num > discord.autoplay_upcoming_max { discord.autoplay_upcoming_max } else { num };
    let songs = state.autoplay_state().prefetch(n, state.prefetch_max());
    let s = upcoming_text(&songs);
    proof {
        if let Some(v) = songs {
            let n2 = if n > state.settings().autoplay_prefetch_max { state.settings().autoplay_prefetch_max } else { n };
            assert(prefetched(state.ap(), n2 as nat, v@));
            assert(v@.len() == 0 ==> v@ =~= Seq::<SongRequest>::empty());
        }
    }
    s
}

/// The history part of the queue state text: the last five songs and a
/// blank line, or nothing when nothing has played.
pub open spec fn history_part(h: Seq<SongRequest>) -> Seq<char> {
    match history_listing(h, 5) {
        Some(t) => t + "\n"@,
        None => Seq::empty(),
    }
}

/// The part of the queue state text about the song playing now.
pub open spec fn now_part(cur: Option<SongRequest>) -> Seq<char> {
    match cur {
        Some(c) => "Now Playing:\n:musical_note: "@ + request_text(c) + "\n\n"@,
        None => "_Nothing is currently playing._\n\n"@,
    }
}

/// The part of the queue state text about the queue and autoplay.
pub open spec fn tail_part(q: Seq<SongRequest>, ap: Option<Seq<char>>) -> Seq<char> {
    if q.len() == 0 {
        match ap {
            None => "Queue is empty and Autoplay is disabled"@,
            Some(a) => a,
        }
    } else {
        match ap {
            None => queue_listing(q) + "\nAutoplay is disabled"@,
            Some(a) => queue_listing(q) + "\n"@ + a,
        }
    }
}

/// The text shown for the queue state: the last five songs, what plays now,
/// then the queue and the autoplay listing `ap` (`None` when autoplay is
/// off).
pub open spec fn queuestate_text(h: Seq<SongRequest>, cur: Option<SongRequest>, q: Seq<SongRequest>,
    ap: Option<Seq<char>>) -> Seq<char> {
    history_part(h) + now_part(cur) + tail_part(q, ap)
}

/// The text held by an optional string.
pub open spec fn text_of(o: Option<String>) -> Option<Seq<char>> {
    match o {
        Some(a) => Some(a@),
        None => None,
    }
}

/// The queue state text of `state` with the given autoplay listing.
pub fn queuestate_with(state: &MusicState, ap: Option<String>) -> (s: String)
    ensures
        s@ == queuestate_text(state.history(), state.current(), state.queue(),
            text_of(ap)),
{
    let mut ret = String::new();
    match show_history(state, 5) {
        Some(hs) => {
            ret.append(hs.as_str());
            ret.append("\n");
        },
        None => {},
    }
    let ghost part1 = ret@;
    assert(part1 =~= history_part(state.history()));
    match state.current_song() {
        Some(c) => {
            ret.append("Now Playing:\n:musical_note: ");
            let t = c.to_text();
            ret.append(t.as_str());
            ret.append("\n\n");
        },
        None => {
            ret.append("_Nothing is currently playing._\n\n");
        },
    }
    let ghost part2 = ret@;
    assert(part2 =~= part1 + now_part(state.current()));
    if !state.is_queue_empty() {
        let q = state.show_queue();
        ret.append(q.as_str());
        match &ap {
            None => {
                ret.append("\nAutoplay is disabled");
            },
            Some(a) => {
                ret.append("\n");
                ret.append(a.as_str());
            },
        }
    } else {
        match &ap {
            None => {
                ret.append("Queue is empty and Autoplay is disabled");
            },
            Some(a) => {
                ret.append(a.as_str());
            },
        }
    }
    proof {
        assert(ret@ =~= part2 + tail_part(state.queue(), text_of(ap)));
    }
    ret
}

/// `out` is the queue state text of `state` with an autoplay listing `t`
/// that autoplay could show, present exactly when autoplay is on.
pub open spec fn queuestate_shown(state: MusicState, discord: DiscordConfig, t: Option<Seq<char>>, out: Seq<char>) -> bool {
    &&& (t is Some) == state.ap().is_on()
    &&& t matches Some(a) ==> upcoming_shown(state.ap(), upcoming_count(state, discord, discord.queuestate_ap_count), a)
    &&& out == queuestate_text(state.history(), state.current(), state.queue(), t)
}

/// The queue state text: history, the current song, the queue and, when
/// autoplay is on, its upcoming songs.
pub fn show_queuestate(state: &MusicState, discord: &DiscordConfig) -> (s: String)
    requires
        state.wf(),
    ensures
        exists|t: Option<Seq<char>>| #[trigger] queuestate_shown(*state, *discord, t, s@),
{
    let ap = if state.autoplay_state().is_enabled() {
        Some(autoplay_show_upcoming(state, discord.queuestate_ap_count, discord))
    } else {
        None
    };
    let ghost t = text_of(ap);
    let s = queuestate_with(state, ap);
    proof {
        assert(queuestate_shown(*state, *discord, t, s@));
    }
    s
}

/// The title of the now-playing card: `title [m:ss]`.
pub open spec fn nowplay_title_text(song: Song) -> Seq<char> {
    song.title@ + " ["@ + int_text(trunc_div(song.duration as int, 60)) + ":"@
        + int_text_02(trunc_rem(song.duration as int, 60)) + "]"@
}

/// The title of the now-playing card.
pub fn nowplay_title(song: &Song) -> (s: String)
    ensures
        s@ == nowplay_title_text(*song),
{
    let mut s = song.title.clone();
    s.append(" [");
    let (mins, secs) = minutes_seconds(song.duration);
    push_i64(&mut s, mins);
    s.append(":");
    push_i64_02(&mut s, secs);
    s.append("]");
    proof {
        assert(s@ =~= nowplay_title_text(*song));
    }
    s
}

/// The description of the now-playing card: who uploaded the song.
pub fn nowplay_description(song: &Song) -> (s: String)
    ensures
        s@ == "Uploaded by: "@ + song.artist@,
{
    let mut s = String::from_str("Uploaded by: ");
    s.append(song.artist.as_str());
    s
}

} // verus!
