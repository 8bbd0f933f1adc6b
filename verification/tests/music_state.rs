use minstrel::autoplay::AutoplayState;
use minstrel::config::MusicConfig;
use minstrel::model::{MinstrelWebData, MusicStateStatus, Requester, Song, SongRequest};
use minstrel::musicstate::{DumpError, DumpReport, MusicError, MusicOk, MusicState, Resume, Step, queue_full_notice, songlog_line};
use minstrel::player::MusicPlayerCommand;
use std::collections::VecDeque;

fn requester(id: i64, name: &str) -> Requester {
    Requester {
        username: name.to_string(),
        displayname: name.to_string(),
        icon: String::new(),
        id,
    }
}

fn song(title: &str, duration: i64) -> Song {
    Song {
        title: title.to_string(),
        artist: "Someone".to_string(),
        url: format!("https://example.com/{}", title),
        thumbnail: String::new(),
        duration,
    }
}

fn request(title: &str, duration: i64, id: i64, name: &str) -> SongRequest {
    SongRequest::new(song(title, duration), requester(id, name))
}

fn config(queue_length: usize, history_count: u64) -> MusicConfig {
    MusicConfig {
        queue_length,
        queue_adds_usertime: true,
        autoplay_prefetch_max: 50,
        upcoming_count: 20,
        history_count,
    }
}

fn idle_state(queue_length: usize) -> MusicState {
    MusicState::new(AutoplayState::new(), config(queue_length, 20), false)
}

fn reply_ok(step: Step) -> MusicOk {
    match step {
        Step::Reply(Ok(m), _) => m,
        other => panic!("expected an answer, got {:?}", other),
    }
}

/// Carries out a step that asks the player, with the player succeeding.
fn run_with_player(state: &mut MusicState, step: Step) -> Step {
    match step {
        Step::Invoke(_, k, _) => state.resume(k, Ok(())),
        other => other,
    }
}

#[test]
fn song_request_text() {
    let r = request("Song A", 125, 1, "alice");
    assert_eq!(r.to_text(), "**Song A** [2:05] _(requested by alice)_");
    let long = request("Long", 3600, 1, "alice");
    assert_eq!(long.to_text(), "**Long** [60:00] _(requested by alice)_");
}

#[test]
fn webdata_queue_listing() {
    let mut queue = VecDeque::new();
    queue.push_back(request("One", 61, 1, "alice"));
    queue.push_back(request("Two", 9, 2, "bob"));
    let data = MinstrelWebData {
        current_track: None,
        song_progress: 0,
        status: MusicStateStatus::Idle,
        queue,
        upcoming: Vec::new(),
        history: VecDeque::new(),
        ap_enabled: false,
    };
    assert_eq!(
        data.show_queue(),
        "Current play queue:\n1: **One** [1:01] _(requested by alice)_\n2: **Two** [0:09] _(requested by bob)_\n"
    );
    assert!(!data.is_queue_empty());
    assert!(data.current_song().is_none());
    assert_eq!(data.get_history().len(), 0);
}

#[test]
fn enqueue_then_next_plays_front() {
    let mut state = idle_state(10);
    assert_eq!(reply_ok(state.enqueue(request("First", 10, 1, "alice"))).message(), "Enqueued song.");
    assert_eq!(reply_ok(state.enqueue(request("Second", 20, 2, "bob"))).message(), "Enqueued song.");
    let step = state.next();
    match &step {
        Step::Invoke(MusicPlayerCommand::Play(s), Resume::Play(r, _), _) => {
            assert_eq!(s.title, "First");
            assert_eq!(r.song.title, "First");
        },
        other => panic!("expected to play, got {:?}", other),
    }
    let done = run_with_player(&mut state, step);
    assert!(matches!(reply_ok(done), MusicOk::StartedPlaying));
    assert_eq!(state.current_song().unwrap().song.title, "First");
    assert!(state.show_queue().contains("Second"));
    assert!(!state.show_queue().contains("First"));
}

#[test]
fn queue_full_is_refused() {
    let mut state = idle_state(1);
    assert!(matches!(reply_ok(state.enqueue(request("a", 1, 1, "u"))), MusicOk::EnqueuedSong));
    assert!(matches!(reply_ok(state.enqueue(request("b", 1, 1, "u"))), MusicOk::EnqueuedSong));
    match state.enqueue(request("c", 1, 1, "u")) {
        Step::Reply(Err(MusicError::QueueFull), _) => {},
        other => panic!("expected QueueFull, got {:?}", other),
    }
    assert!(!state.show_queue().contains("**c**"));
}

#[test]
fn next_on_empty_queue_without_autoplay() {
    let mut state = idle_state(10);
    assert!(matches!(reply_ok(state.next()), MusicOk::EmptyQueue));
    assert!(state.current_song().is_none());
}

#[test]
fn play_while_playing_is_refused() {
    let mut state = idle_state(10);
    let step = state.play(request("a", 5, 1, "u"));
    run_with_player(&mut state, step);
    match state.play(request("b", 5, 1, "u")) {
        Step::Reply(Err(MusicError::AlreadyPlaying), _) => {},
        other => panic!("expected AlreadyPlaying, got {:?}", other),
    }
}

#[test]
fn song_end_moves_song_to_history() {
    let mut state = idle_state(10);
    let step = state.play(request("a", 5, 1, "u"));
    run_with_player(&mut state, step);
    let _ = state.song_ended();
    let history = state.get_history();
    assert_eq!(history.len(), 1);
    assert_eq!(history[0].song.title, "a");
}

#[test]
fn previous_without_history() {
    let mut state = idle_state(10);
    match state.previous() {
        Step::Reply(Err(MusicError::EmptyHistory), _) => {},
        other => panic!("expected EmptyHistory, got {:?}", other),
    }
}

#[test]
fn stop_when_player_answers() {
    let mut state = idle_state(10);
    let step = state.play(request("a", 5, 1, "u"));
    run_with_player(&mut state, step);
    let step = state.stop();
    assert!(matches!(step, Step::Invoke(MusicPlayerCommand::Stop, Resume::Stop, _)));
    let done = run_with_player(&mut state, step);
    assert!(matches!(reply_ok(done), MusicOk::StoppedPlaying));
    assert!(state.current_song().is_none());
}

#[test]
fn failed_playback_reports_error() {
    let mut state = idle_state(10);
    let step = state.play(request("a", 5, 1, "u"));
    let k = match step {
        Step::Invoke(_, k, _) => k,
        other => panic!("expected to play, got {:?}", other),
    };
    match state.resume(k, Err(MusicError::PlaybackFailed)) {
        Step::Reply(Err(MusicError::PlaybackFailed), e) => {
            assert!(e.schedule_song_ended);
            assert_eq!(e.play_error, Some(MusicError::PlaybackFailed));
        },
        other => panic!("expected the playback error, got {:?}", other),
    }
    assert!(state.current_song().is_none());
}

#[test]
fn dump_refuses_too_many() {
    let mut state = idle_state(10);
    assert_eq!(state.dump_upcoming(21), Err(DumpError::TooMany));
    assert_eq!(DumpError::TooMany.message(), "Requested dump exceeds maximum allowed, max is 20");
}

#[test]
fn dump_needs_autoplay() {
    let mut state = idle_state(10);
    assert_eq!(state.dump_upcoming(3), Err(DumpError::NotEnabled));
    assert_eq!(DumpError::NotEnabled.message(), "Autoplay is not enabled.");
}

#[test]
fn dump_moves_autoplay_songs_into_queue() {
    let alice = requester(1, "alice");
    let mut ap = AutoplayState::from_sources(vec![(alice, vec![song("only", 30)])]);
    ap.enable();
    let _ = ap.enable_user(&1);
    let mut state = MusicState::new(ap, config(10, 20), false);
    assert_eq!(state.dump_upcoming(2), Ok(DumpReport { added: 2, queue_full: false }));
    let listing = state.show_queue();
    assert_eq!(
        listing,
        "Current play queue:\n1: **only** [0:30] _(requested by alice)_\n2: **only** [0:30] _(requested by alice)_\n"
    );
    assert!(!state.autoplay_state().is_enabled());
}

#[test]
fn queue_full_notice_text() {
    assert_eq!(queue_full_notice(3), "Queue capacity reached, only could add 3");
}

#[test]
fn music_ok_messages() {
    assert_eq!(MusicOk::StartedPlaying.message(), "Started playing.");
    assert_eq!(MusicOk::StoppedPlaying.message(), "Stopped playing.");
    assert_eq!(MusicOk::SkippingSong.message(), "Skipping song.");
}

#[test]
fn songlog_lines() {
    let r = request("Tune", 10, 4, "dee");
    assert_eq!(songlog_line("2024-01-01", '\t', &r), "2024-01-01\tTune\tSomeone\thttps://example.com/Tune\tdee\n");
}

#[test]
fn dump_stops_when_queue_fills() {
    let alice = requester(1, "alice");
    let mut ap = AutoplayState::from_sources(vec![(alice, vec![song("only", 30)])]);
    ap.enable();
    let _ = ap.enable_user(&1);
    let mut state = MusicState::new(ap, config(1, 20), false);
    assert_eq!(state.dump_upcoming(5), Ok(DumpReport { added: 2, queue_full: true }));
}

#[test]
fn webdata_upcoming_follows_autoplay() {
    let alice = requester(1, "alice");
    let mut ap = AutoplayState::from_sources(vec![(alice, vec![song("only", 30)])]);
    ap.enable();
    let _ = ap.enable_user(&1);
    let state = MusicState::new(ap, config(10, 20), false);
    let data = state.get_webdata(0);
    assert_eq!(data.upcoming.len(), 20);
    assert!(data.ap_enabled);
}

#[test]
fn enqueue_and_play_starts_or_enqueues() {
    let mut state = idle_state(10);
    let step = state.enqueue_and_play(request("a", 5, 1, "u"));
    assert!(matches!(step, Step::Invoke(MusicPlayerCommand::Play(_), _, _)));
    run_with_player(&mut state, step);
    assert_eq!(state.current_song().unwrap().song.title, "a");
    let step = state.enqueue_and_play(request("b", 5, 1, "u"));
    assert!(matches!(reply_ok(step), MusicOk::EnqueuedSong));
    assert!(state.show_queue().contains("**b**"));
    let mut full = idle_state(0);
    let _ = full.enqueue(request("c", 5, 1, "u"));
    match full.enqueue_and_play(request("d", 5, 1, "u")) {
        Step::Reply(Err(MusicError::QueueFull), _) => {},
        other => panic!("expected QueueFull, got {:?}", other),
    }
}
