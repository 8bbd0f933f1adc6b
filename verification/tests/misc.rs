use minstrel::config::{Configuration, DiscordConfig, MusicConfig, SongLogConfig, UserConfig, WebConfig};
use minstrel::model::{Requester, Song};
use minstrel::musicstate::MusicError;
use minstrel::player::{MusicPlayer, MusicPlayerCommand, run_command};
use minstrel::song::{VideoInfo, VideoOutput, check_song_url, song_from_output, song_from_video,
    song_request_from_video, songs_from_entries, starts_with_http};
use minstrel::text::{minutes_seconds, u64_to_text};
use minstrel::web::{ApBumpRequest, ApToggleRequest, LinkRequest, LoginRequest, RegisterRequest, ReplyData, ReplyStatus};

fn video(id: &str, thumbnail: Option<&str>, uploader: Option<&str>) -> VideoInfo {
    VideoInfo {
        id: id.to_string(),
        title: format!("title {}", id),
        uploader: uploader.map(|u| u.to_string()),
        thumbnail: thumbnail.map(|t| t.to_string()),
        url: Some(id.to_string()),
        duration: Some(90),
    }
}

#[test]
fn decimal_text() {
    assert_eq!(u64_to_text(0), "0");
    assert_eq!(u64_to_text(1234567890), "1234567890");
    assert_eq!(u64_to_text(u64::MAX), "18446744073709551615");
}

#[test]
fn minutes_and_seconds_truncate_toward_zero() {
    assert_eq!(minutes_seconds(125), (2, 5));
    assert_eq!(minutes_seconds(-61), (-1, -1));
    assert_eq!(minutes_seconds(59), (0, 59));
}

#[test]
fn songs_from_videos() {
    let s = song_from_video(video("abc", None, None));
    assert_eq!(s.url, "https://www.youtube.com/watch?v=abc");
    assert_eq!(s.thumbnail, "https://img.youtube.com/vi/abc/maxresdefault.jpg");
    assert_eq!(s.artist, "Unknown");
    assert_eq!(s.duration, 90);
    let s = song_from_video(video("d", Some("https://t"), Some("Up")));
    assert_eq!(s.thumbnail, "https://t");
    assert_eq!(s.artist, "Up");
    let r = Requester { username: "u".to_string(), displayname: "U".to_string(), icon: String::new(), id: 3 };
    let req = song_request_from_video(video("e", None, None), &r);
    assert_eq!(req.requested_by.id, 3);
    assert_eq!(req.song.title, "title e");
    let list = songs_from_entries(vec![video("1", None, None), video("2", None, None)]);
    let titles: Vec<String> = list.iter().map(|s| s.title.clone()).collect();
    assert_eq!(titles, vec!["title 1".to_string(), "title 2".to_string()]);
}

#[test]
fn urls_must_be_web_addresses() {
    assert!(starts_with_http("https://x"));
    assert!(!starts_with_http("htt"));
    assert_eq!(check_song_url(&"ftp://x".to_string()), Err(MusicError::InvalidUrl));
    assert_eq!(check_song_url(&"http://x".to_string()), Ok(()));
}

#[test]
fn youtube_dl_outputs() {
    assert_eq!(song_from_output(Err(())).err(), Some(MusicError::FailedToRetrieve));
    assert_eq!(song_from_output(Ok(VideoOutput::Playlist(Vec::new()))).err(), Some(MusicError::UnknownError));
    let s = song_from_output(Ok(VideoOutput::SingleVideo(video("z", None, None)))).unwrap();
    assert_eq!(s.title, "title z");
}

#[test]
fn default_settings() {
    let c = Configuration::default();
    assert_eq!(c.music.queue_length, 10);
    assert!(c.music.queue_adds_usertime);
    assert_eq!(c.music.autoplay_prefetch_max, 50);
    assert_eq!(c.music.upcoming_count, 20);
    assert_eq!(c.music.history_count, 20);
    assert_eq!(c.discord.queuestate_ap_count, 10);
    assert_eq!(c.user.link_timeout, 3600);
    assert_eq!(c.web.port, 3030);
    assert_eq!(MusicConfig::default().queue_length, 10);
    assert_eq!(DiscordConfig::default().autoplay_upcoming_max, 10);
    assert_eq!(UserConfig::default().link_timeout, 3600);
    let log = SongLogConfig::default();
    assert!(!log.enabled);
    assert_eq!(log.path, "songlog.tsv");
    assert_eq!(log.seperator, '\t');
    assert_eq!(WebConfig::default().bind_address, "127.0.0.1");
}

#[test]
fn web_requests_clone() {
    let login = LoginRequest { username: "a".to_string(), password: "b".to_string() };
    assert_eq!(login.clone().username, "a");
    let reg = RegisterRequest { username: "a".to_string(), password: "b".to_string(), displayname: "A".to_string(), icon: None };
    assert_eq!(reg.clone().displayname, "A");
    let link = LinkRequest { username: "a".to_string(), password: "b".to_string(), link: 9 };
    assert_eq!(link.clone().link, 9);
    assert_eq!(ApBumpRequest { index: 2 }.index, 2);
    assert!(ApToggleRequest { enabled: true }.enabled);
    let reply = ReplyStatus { status: 200, error: String::new(), data: Some(ReplyData::LinkInfo(5)) };
    assert!(matches!(reply.clone().data, Some(ReplyData::LinkInfo(5))));
}

struct RecordingPlayer {
    played: Vec<String>,
    stopped: u32,
    disconnected: bool,
    fail: bool,
}

impl MusicPlayer for RecordingPlayer {
    fn init(&self) -> Result<(), MusicError> {
        Ok(())
    }

    fn play(&mut self, song: &Song) -> Result<(), MusicError> {
        if self.fail {
            return Err(MusicError::PlaybackFailed);
        }
        self.played.push(song.title.clone());
        Ok(())
    }

    fn stop(&mut self) -> Result<(), MusicError> {
        self.stopped += 1;
        Ok(())
    }

    fn disconnect(&mut self) {
        self.disconnected = true;
    }
}

#[test]
fn player_commands() {
    let mut p = RecordingPlayer { played: Vec::new(), stopped: 0, disconnected: false, fail: false };
    let s = Song { title: "t".to_string(), artist: String::new(), url: String::new(), thumbnail: String::new(), duration: 1 };
    assert_eq!(run_command(&mut p, &MusicPlayerCommand::Play(s.clone())), Ok(()));
    assert_eq!(run_command(&mut p, &MusicPlayerCommand::Stop), Ok(()));
    assert_eq!(run_command(&mut p, &MusicPlayerCommand::Disconnect), Ok(()));
    assert_eq!(p.played, vec!["t".to_string()]);
    assert_eq!(p.stopped, 1);
    assert!(p.disconnected);
    p.fail = true;
    assert_eq!(run_command(&mut p, &MusicPlayerCommand::Play(s)), Err(MusicError::PlaybackFailed));
}
