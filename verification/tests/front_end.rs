use minstrel::autoplay::AutoplayState;
use minstrel::config::{DiscordConfig, MusicConfig};
use minstrel::frontend::{autoplay_show_upcoming, nowplay_description, nowplay_title, queuestate_with,
    show_history, show_queuestate, upcoming_text};
use minstrel::model::{Requester, Song, SongRequest};
use minstrel::musicstate::{MusicState, Step};

fn requester(id: i64, name: &str) -> Requester {
    Requester { username: name.to_string(), displayname: name.to_string(), icon: String::new(), id }
}

fn song(title: &str, duration: i64) -> Song {
    Song {
        title: title.to_string(),
        artist: "Uploader".to_string(),
        url: String::new(),
        thumbnail: String::new(),
        duration,
    }
}

fn config() -> MusicConfig {
    MusicConfig { queue_length: 10, queue_adds_usertime: true, autoplay_prefetch_max: 50, upcoming_count: 20, history_count: 20 }
}

fn play_and_end(state: &mut MusicState, title: &str) {
    let step = state.play(SongRequest::new(song(title, 60), requester(1, "alice")));
    if let Step::Invoke(_, k, _) = step {
        state.resume(k, Ok(()));
    }
    let _ = state.song_ended();
}

#[test]
fn history_lists_oldest_of_shown_first() {
    let mut state = MusicState::new(AutoplayState::new(), config(), false);
    assert_eq!(show_history(&state, 5), None);
    play_and_end(&mut state, "one");
    play_and_end(&mut state, "two");
    play_and_end(&mut state, "three");
    assert_eq!(
        show_history(&state, 2).unwrap(),
        "Last played songs:\n2: **two** [1:00] _(requested by alice)_\n1: **three** [1:00] _(requested by alice)_\n"
    );
    let all = show_history(&state, 10).unwrap();
    assert!(all.starts_with("Last played songs:\n3: **one**"));
}

#[test]
fn upcoming_listing_texts() {
    assert_eq!(upcoming_text(&None), "No users enrolled in Autoplay\n");
    assert_eq!(upcoming_text(&Some(Vec::new())), "Upcoming Autoplay songs:\n");
    let v = vec![SongRequest::new(song("x", 5), requester(2, "bob"))];
    assert_eq!(upcoming_text(&Some(v)), "Upcoming Autoplay songs:\n1: **x** [0:05] _(requested by bob)_\n");
}

#[test]
fn upcoming_with_nobody_enrolled() {
    let mut ap = AutoplayState::new();
    ap.enable();
    let state = MusicState::new(ap, config(), false);
    let discord = DiscordConfig::default();
    assert_eq!(autoplay_show_upcoming(&state, 3, &discord), "No users enrolled in Autoplay\n");
}

#[test]
fn upcoming_is_capped() {
    let mut ap = AutoplayState::from_sources(vec![(requester(1, "alice"), vec![song("s", 10)])]);
    ap.enable();
    let _ = ap.enable_user(&1);
    let state = MusicState::new(ap, config(), false);
    let discord = DiscordConfig { autoplay_upcoming_max: 2, queuestate_ap_count: 10, webdash_prefetch: 10 };
    let text = autoplay_show_upcoming(&state, 5, &discord);
    assert_eq!(
        text,
        "Upcoming Autoplay songs:\n1: **s** [0:10] _(requested by alice)_\n2: **s** [0:10] _(requested by alice)_\n"
    );
}

#[test]
fn queuestate_when_idle() {
    let state = MusicState::new(AutoplayState::new(), config(), false);
    let discord = DiscordConfig::default();
    assert_eq!(
        show_queuestate(&state, &discord),
        "_Nothing is currently playing._\n\nQueue is empty and Autoplay is disabled"
    );
}

#[test]
fn queuestate_with_queue_and_autoplay_text() {
    let mut state = MusicState::new(AutoplayState::new(), config(), false);
    let _ = state.enqueue(SongRequest::new(song("q", 3), requester(3, "carol")));
    let text = queuestate_with(&state, Some("AP".to_string()));
    assert_eq!(
        text,
        "_Nothing is currently playing._\n\nCurrent play queue:\n1: **q** [0:03] _(requested by carol)_\n\nAP"
    );
    let text = queuestate_with(&state, None);
    assert!(text.ends_with("\nAutoplay is disabled"));
}

#[test]
fn queuestate_shows_now_playing_and_history() {
    let mut state = MusicState::new(AutoplayState::new(), config(), false);
    play_and_end(&mut state, "old");
    let step = state.play(SongRequest::new(song("now", 75), requester(1, "alice")));
    if let Step::Invoke(_, k, _) = step {
        state.resume(k, Ok(()));
    }
    let text = queuestate_with(&state, None);
    assert_eq!(
        text,
        "Last played songs:\n1: **old** [1:00] _(requested by alice)_\n\nNow Playing:\n:musical_note: **now** [1:15] _(requested by alice)_\n\nQueue is empty and Autoplay is disabled"
    );
}

#[test]
fn nowplaying_card_text() {
    let s = song("Tune", 3599);
    assert_eq!(nowplay_title(&s), "Tune [59:59]");
    assert_eq!(nowplay_description(&s), "Uploaded by: Uploader");
}
