//! The data shared between the music core and its front ends.

use vstd::prelude::*;
use vstd::string::StringExecFns;
use std::collections::VecDeque;
use crate::text::{int_text, int_text_02, nat_text, trunc_div, trunc_rem, push_i64, push_i64_02, push_u64};

verus! {

/// Identifier of a Minstrel user.
pub type MinstrelUserId = i64;

/// The user who asked for a song.
#[derive(Debug)]
pub struct Requester {
    pub username: String,
    pub displayname: String,
    pub icon: String,
    pub id: MinstrelUserId,
}

impl Clone for Requester {
    fn clone(&self) -> (r: Self)
        ensures
            r == *self,
    {
        Requester {
            username: self.username.clone(),
            displayname: self.displayname.clone(),
            icon: self.icon.clone(),
            id: self.id,
        }
    }
}

/// A playable track; `duration` is in seconds.
#[derive(Debug)]
pub struct Song {
    pub title: String,
    pub artist: String,
    pub url: String,
    pub thumbnail: String,
    pub duration: i64,
}

impl Clone for Song {
    fn clone(&self) -> (r: Self)
        ensures
            r == *self,
    {
        Song {
            title: self.title.clone(),
            artist: self.artist.clone(),
            url: self.url.clone(),
            thumbnail: self.thumbnail.clone(),
            duration: self.duration,
        }
    }
}

/// A song together with who asked for it.
#[derive(Debug)]
pub struct SongRequest {
    pub song: Song,
    pub requested_by: Requester,
}

impl Clone for SongRequest {
    fn clone(&self) -> (r: Self)
        ensures
            r == *self,
    {
        SongRequest { song: self.song.clone(), requested_by: self.requested_by.clone() }
    }
}

/// How a request is shown: `**title** [m:ss] _(requested by name)_`.
pub open spec fn request_text(r: SongRequest) -> Seq<char> {
    "**"@ + r.song.title@ + "** ["@ + int_text(trunc_div(r.song.duration as int, 60)) + ":"@
        + int_text_02(trunc_rem(r.song.duration as int, 60)) + "] _(requested by "@
        + r.requested_by.displayname@ + ")_"@
}

/// One numbered line of a listing: `n: request`.
pub open spec fn numbered_line(n: nat, r: SongRequest) -> Seq<char> {
    nat_text(n) + ": "@ + request_text(r) + "\n"@
}

/// The requests listed one per line, numbered from 1.
pub open spec fn numbered_lines(s: Seq<SongRequest>) -> Seq<char>
    decreases s.len(),
{
    if s.len() == 0 {
        Seq::empty()
    } else {
        numbered_lines(s.drop_last()) + numbered_line(s.len(), s.last())
    }
}

impl SongRequest {
    /// Convenience constructor.
    pub fn new(song: Song, requested_by: Requester) -> (r: Self)
        ensures
            r.song == song,
            r.requested_by == requested_by,
    {
        SongRequest { song, requested_by }
    }

    /// The text shown for this request.
    pub fn to_text(&self) -> (s: String)
        ensures
            s@ == request_text(*self),
    {
        let mut s = String::from_str("**");
        s.append(self.song.title.as_str());
        s.append("** [");
        let (mins, secs) = crate::text::minutes_seconds(self.song.duration);
        push_i64(&mut s, mins);
        s.append(":");
        push_i64_02(&mut s, secs);
        s.append("] _(requested by ");
        s.append(self.requested_by.displayname.as_str());
        s.append(")_");
        s
    }
}

/// Appends `n: request` and a newline.
pub fn push_numbered_line(out: &mut String, n: u64, r: &SongRequest)
    ensures
        final(out)@ == old(out)@ + numbered_line(n as nat, *r),
{
    push_u64(out, n);
    out.append(": ");
    let t = r.to_text();
    out.append(t.as_str());
    out.append("\n");
    assert(final(out)@ =~= old(out)@ + numbered_line(n as nat, *r));
}

/// Where autoplay takes songs from: a playlist, or possibly a single song.
#[derive(Debug)]
pub enum Source {
    YoutubePlaylist(String),
}

impl Clone for Source {
    fn clone(&self) -> (r: Self)
        ensures
            r == *self,
    {
        match self {
            Source::YoutubePlaylist(p) => Source::YoutubePlaylist(p.clone()),
        }
    }
}

/// A source as stored for a user, with its row id.
#[derive(Debug)]
pub struct StoredSource {
    pub id: i64,
    pub path: Source,
}

/// What the music state is doing.
#[non_exhaustive]
#[derive(Clone, Copy, Debug, PartialEq, Eq, Structural)]
pub enum MusicStateStatus {
    Playing,
    Stopping,
    Stopped,
    Idle,
}

/// A snapshot of the music state for front ends.
#[derive(Debug)]
pub struct MinstrelWebData {
    pub current_track: Option<SongRequest>,
    pub song_progress: u64,
    pub status: MusicStateStatus,
    pub queue: VecDeque<SongRequest>,
    pub upcoming: Vec<SongRequest>,
    pub history: VecDeque<SongRequest>,
    pub ap_enabled: bool,
}

/// The header of the queue listing followed by the numbered queue.
pub open spec fn queue_listing(q: Seq<SongRequest>) -> Seq<char> {
    "Current play queue:\n"@ + numbered_lines(q)
}

impl MinstrelWebData {
    /// The display text of the play queue.
    pub fn show_queue(&self) -> (s: String)
        ensures
            s@ == queue_listing(self.queue@),
    {
        let mut ret = String::from_str("Current play queue:\n");
        let n = self.queue.len();
        let mut i: usize = 0;
        while i < n
            invariant
                n == self.queue@.len(),
                i <= n,
                ret@ == "Current play queue:\n"@ + numbered_lines(self.queue@.take(i as int)),
            decreases n - i,
        {
            push_numbered_line(&mut ret, (i + 1) as u64, &self.queue[i]);
            proof {
                let t = self.queue@.take(i + 1);
                assert(t.drop_last() =~= self.queue@.take(i as int));
            }
            i = i + 1;
        }
        proof {
            assert(self.queue@.take(n as int) =~= self.queue@);
        }
        ret
    }

    pub fn get_history(&self) -> (h: VecDeque<SongRequest>)
        ensures
            h@ == self.history@,
    {
        let h = self.history.clone();
        proof {
            assert(h@ =~= self.history@);
        }
        h
    }

    pub fn current_song(&self) -> (s: Option<SongRequest>)
        ensures
            s == self.current_track,
    {
        match &self.current_track {
            Some(s) => Some(s.clone()),
            None => None,
        }
    }

    pub fn is_queue_empty(&self) -> (b: bool)
        ensures
            b == (self.queue@.len() == 0),
    {
        self.queue.len() == 0
    }
}

/// A message pushed to every front end.
#[derive(Debug)]
pub enum MinstrelBroadcast {
    MusicState(MinstrelWebData),
    Error(String),
}

/// Failures of account management.
#[derive(Debug, PartialEq, Eq, Structural)]
pub enum UserMgmtError {
    InvalidLink,
    UserExists,
    UserDoesNotExist,
    DbError,
    UnknownError,
}

} // verus!
