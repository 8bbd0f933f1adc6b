//! Turning what youtube-dl reports of a video into a song.

use vstd::prelude::*;
use vstd::string::{StringExecFns, StrSliceExecFns};
use crate::model::{Requester, Song, SongRequest};
use crate::musicstate::MusicError;

verus! {

/// What youtube-dl reports of one video, as plain values; `duration` is in
/// whole seconds.
#[derive(Debug)]
pub struct VideoInfo {
    pub id: String,
    pub title: String,
    pub uploader: Option<String>,
    pub thumbnail: Option<String>,
    pub url: Option<String>,
    pub duration: Option<i64>,
}

/// What youtube-dl reports for a URL.
#[derive(Debug)]
pub enum VideoOutput {
    SingleVideo(VideoInfo),
    Playlist(Vec<VideoInfo>),
}

/// The video carries what a song needs: a URL and a duration.
pub open spec fn playable(v: VideoInfo) -> bool {
    v.url is Some && v.duration is Some
}

/// The thumbnail of a video, or the standard one for its id.
pub open spec fn thumbnail_of(v: VideoInfo) -> Seq<char> {
    match v.thumbnail {
        Some(t) => t@,
        None => "https://img.youtube.com/vi/"@ + v.id@ + "/maxresdefault.jpg"@,
    }
}

/// The song made of a playable video.
pub open spec fn video_song(v: VideoInfo, s: Song) -> bool {
    &&& s.title == v.title
    &&& s.artist@ == match v.uploader { Some(u) => u@, None => "Unknown"@ }
    &&& s.url@ == "https://www.youtube.com/watch?v="@ + v.url.unwrap()@
    &&& s.thumbnail@ == thumbnail_of(v)
    &&& s.duration == v.duration.unwrap()
}

/// Makes a song of a video's metadata.
pub fn song_from_video(video: VideoInfo) -> (s: Song)
    requires
        playable(video),
    ensures
        video_song(video, s),
{
    let ghost v = video;
    let duration = match video.duration {
        Some(d) => d,
        None => 0,
    };
    let thumbnail = match video.thumbnail {
        Some(t) => t,
        None => {
            let mut t = String::from_str("https://img.youtube.com/vi/");
            t.append(video.id.as_str());
            t.append("/maxresdefault.jpg");
            t
        },
    };
    let mut url = String::from_str("https://www.youtube.com/watch?v=");
    match &video.url {
        Some(u) => url.append(u.as_str()),
        None => {},
    }
    let artist = match video.uploader {
        Some(u) => u,
        None => String::from_str("Unknown"),
    };
    Song { title: video.title, artist, url, thumbnail, duration }
}

/// Makes a request of a video's metadata.
pub fn song_request_from_video(video: VideoInfo, requester: &Requester) -> (r: SongRequest)
    requires
        playable(video),
    ensures
        video_song(video, r.song),
        r.requested_by == *requester,
{
    let song = song_from_video(video);
    SongRequest { song, requested_by: requester.clone() }
}

/// The text begins with `http`.
pub open spec fn is_http_url(url: Seq<char>) -> bool {
    url.len() >= 4 && url.subrange(0, 4) == "http"@
}

/// Whether the text begins with `http`.
pub fn starts_with_http(url: &str) -> (b: bool)
    ensures
        b == is_http_url(url@),
{
    proof {
        reveal_strlit("http");
    }
    if url.unicode_len() < 4 {
        return false;
    }
    let ok = url.get_char(0) == 'h' && url.get_char(1) == 't' && url.get_char(2) == 't'
        && url.get_char(3) == 'p';
    proof {
        if ok {
            assert(url@.subrange(0, 4) =~= "http"@);
        } else {
            if url@.subrange(0, 4) == "http"@ {
                assert(url@.subrange(0, 4)[0] == 'h');
                assert(url@.subrange(0, 4)[1] == 't');
                assert(url@.subrange(0, 4)[2] == 't');
                assert(url@.subrange(0, 4)[3] == 'p');
            }
        }
    }
    ok
}

/// Refuses what is not a web address before youtube-dl is asked.
pub fn check_song_url(url: &String) -> (r: Result<(), MusicError>)
    ensures
        r is Ok <==> is_http_url(url@),
        r matches Err(e) ==> e == MusicError::InvalidUrl,
{
    if starts_with_http(url.as_str()) {
        Ok(())
    } else {
        Err(MusicError::InvalidUrl)
    }
}

/// The song for what youtube-dl reported of a URL: a failed run is
/// `FailedToRetrieve`, a playlist is `UnknownError`.
pub fn song_from_output(output: Result<VideoOutput, ()>) -> (r: Result<Song, MusicError>)
    requires
        output matches Ok(VideoOutput::SingleVideo(v)) ==> playable(v),
    ensures
        match output {
            Err(()) => r == Err::<Song, MusicError>(MusicError::FailedToRetrieve),
            Ok(VideoOutput::Playlist(_)) => r == Err::<Song, MusicError>(MusicError::UnknownError),
            Ok(VideoOutput::SingleVideo(v)) => r matches Ok(s) && video_song(v, s),
        },
{
    match output {
        Err(()) => Err(MusicError::FailedToRetrieve),
        Ok(VideoOutput::Playlist(_)) => Err(MusicError::UnknownError),
        Ok(VideoOutput::SingleVideo(v)) => Ok(song_from_video(v)),
    }
}

/// The songs of a playlist's entries, in order.
pub fn songs_from_entries(entries: Vec<VideoInfo>) -> (r: Vec<Song>)
    requires
        forall|i: int| 0 <= i < entries@.len() ==> playable(#[trigger] entries@[i]),
    ensures
        r@.len() == entries@.len(),
        forall|i: int| 0 <= i < entries@.len() ==> video_song(entries@[i], #[trigger] r@[i]),
{
    let ghost all = entries@;
    let mut entries = entries;
    let mut rev: Vec<Song> = Vec::new();
    while entries.len() > 0
        invariant
            entries@.len() + rev@.len() == all.len(),
            entries@ == all.take(entries@.len() as int),
            forall|i: int| 0 <= i < rev@.len() ==>
                video_song(all[all.len() - 1 - i], #[trigger] rev@[i]),
            forall|i: int| 0 <= i < all.len() ==> playable(#[trigger] all[i]),
        decreases entries@.len(),
    {
        let ghost n = entries@.len();
        let v = entries.pop().unwrap();
        proof {
            assert(v == all[n - 1]);
            assert(entries@ =~= all.take(n - 1));
        }
        let s = song_from_video(v);
        rev.push(s);
    }
    let mut r: Vec<Song> = Vec::new();
    while rev.len() > 0
        invariant
            rev@.len() + r@.len() == all.len(),
            forall|i: int| 0 <= i < rev@.len() ==>
                video_song(all[all.len() - 1 - i], #[trigger] rev@[i]),
            forall|i: int| 0 <= i < r@.len() ==> video_song(all[i], #[trigger] r@[i]),
        decreases rev@.len(),
    {
        let ghost m = rev@.len();
        let s = rev.pop().unwrap();
        proof {
            assert(s == rev@.push(s)[m - 1]);
        }
        r.push(s);
        proof {
            assert forall|i: int| 0 <= i < r@.len() implies video_song(all[i], #[trigger] r@[i]) by {
                if i == r@.len() - 1 {
                    assert(r@[i] == s);
                }
            }
        }
    }
    r
}

} // verus!
