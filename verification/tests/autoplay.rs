use minstrel::adapters::handle_cmd;
use minstrel::autoplay::{AutoplayControlCmd, AutoplayError, AutoplayOk, AutoplayState, UserPlaylist};
use minstrel::model::{Requester, Song, SongRequest};
use minstrel::musicstate::{MusicError, MusicOk};

fn requester(id: i64, name: &str) -> Requester {
    Requester { username: name.to_string(), displayname: name.to_string(), icon: String::new(), id }
}

fn song(title: &str, duration: i64) -> Song {
    Song { title: title.to_string(), artist: String::new(), url: String::new(), thumbnail: String::new(), duration }
}

fn two_users() -> AutoplayState {
    let mut ap = AutoplayState::from_sources(vec![
        (requester(1, "alice"), vec![song("a", 100)]),
        (requester(2, "bob"), vec![song("b", 30)]),
    ]);
    ap.enable();
    ap
}

#[test]
fn playlist_next_and_push_to_end() {
    let r = requester(1, "alice");
    let list = vec![
        SongRequest::new(song("x", 1), r.clone()),
        SongRequest::new(song("y", 2), r.clone()),
        SongRequest::new(song("z", 3), r.clone()),
    ];
    let mut p = UserPlaylist::new(list);
    assert_eq!(p.len(), 3);
    assert_eq!(p.push_to_end(3), Err(AutoplayError::ExcessiveSize));
    assert_eq!(p.push_to_end(0), Ok(()));
    assert_eq!(p.next().song.title, "y");
    assert_eq!(p.next().song.title, "z");
    assert_eq!(p.next().song.title, "x");
    assert_eq!(p.len(), 3);
}

#[test]
fn enrolment_errors() {
    let mut ap = two_users();
    assert_eq!(ap.enable_user(&3).err(), Some(AutoplayError::UserNotRegistered));
    assert!(matches!(ap.enable_user(&1), Ok(AutoplayOk::EnrolledUser)));
    assert_eq!(ap.enable_user(&1).err(), Some(AutoplayError::AlreadyEnrolled));
    assert_eq!(ap.disable_user(&2).err(), Some(AutoplayError::UserNotEnrolled));
    assert!(matches!(ap.disable_user(&1), Ok(AutoplayOk::RemovedUser)));
}

#[test]
fn least_time_plays_next_and_is_charged() {
    let mut ap = two_users();
    let _ = ap.enable_user(&1);
    let _ = ap.enable_user(&2);
    // Both start at zero; whoever plays first is charged its duration.
    let first = ap.next().unwrap();
    let u = first.requested_by.id;
    assert_eq!(ap.cached_time(u), first.song.duration);
    // The other user now has the least time and plays next.
    let second = ap.next().unwrap();
    assert_ne!(second.requested_by.id, u);
    // After alice (100) and bob (30), bob has the least time.
    let third = ap.next().unwrap();
    assert_eq!(third.requested_by.id, 2);
    assert_eq!(ap.cached_time(2), 60);
}

#[test]
fn returning_user_gets_minimum() {
    let mut ap = two_users();
    let _ = ap.enable_user(&1);
    let _ = ap.enable_user(&2);
    let _ = ap.next();
    let _ = ap.next();
    // alice has 100, bob 30.
    let _ = ap.disable_user(&2);
    let _ = ap.enable_user(&2);
    // bob comes back at the current minimum, alice's 100.
    assert_eq!(ap.cached_time(2), 100);
}

#[test]
fn first_user_enrolled_starts_at_zero() {
    let mut ap = two_users();
    let _ = ap.enable_user(&1);
    let _ = ap.next();
    assert_eq!(ap.cached_time(1), 100);
    let _ = ap.disable_user(&1);
    assert_eq!(ap.cached_time(1), 100);
    let _ = ap.enable_user(&1);
    assert_eq!(ap.cached_time(1), 0);
}

#[test]
fn reset_and_disable_all() {
    let mut ap = two_users();
    let _ = ap.enable_user(&1);
    let _ = ap.enable_user(&2);
    let _ = ap.next();
    ap.reset_usertime();
    assert_eq!(ap.cached_time(1), 0);
    assert_eq!(ap.cached_time(2), 0);
    ap.disable_all_users();
    assert!(ap.next().is_none());
}

#[test]
fn enroll_only_channel_members() {
    let mut ap = two_users();
    let _ = ap.enable_user(&1);
    let _ = ap.next();
    ap.enroll_only(vec![2, 3]);
    assert!(matches!(ap.enable_user(&1), Ok(AutoplayOk::EnrolledUser)));
    let _ = ap.disable_user(&1);
    assert_eq!(ap.enable_user(&2).err(), Some(AutoplayError::AlreadyEnrolled));
    assert_eq!(ap.enable_user(&3).err(), Some(AutoplayError::UserNotRegistered));
    assert_eq!(ap.cached_time(2), 0);
    assert_eq!(ap.next().unwrap().requested_by.id, 2);
}

#[test]
fn prefetch_does_not_change_state() {
    let mut ap = two_users();
    let _ = ap.enable_user(&1);
    let _ = ap.enable_user(&2);
    let up = ap.prefetch(4, 50).unwrap();
    assert_eq!(up.len(), 4);
    assert_eq!(ap.cached_time(1), 0);
    assert_eq!(ap.cached_time(2), 0);
    assert_eq!(ap.prefetch(10, 3).unwrap().len(), 3);
    assert!(AutoplayState::new().prefetch(2, 50).is_none());
    assert_eq!(AutoplayState::new().prefetch(0, 50).map(|v| v.len()), Some(0));
}

#[test]
fn bump_and_advance() {
    let r = requester(1, "alice");
    let mut ap = AutoplayState::new();
    let _ = ap.load_sources_for_requester(&r, &vec![song("x", 1), song("y", 2), song("z", 3)]);
    assert_eq!(ap.bump_userplaylist(&1, 51, 50).err(), Some(AutoplayError::ExcessiveSize));
    assert_eq!(ap.bump_userplaylist(&1, 3, 50).err(), Some(AutoplayError::ExcessiveSize));
    assert!(matches!(ap.bump_userplaylist(&1, 1, 50), Ok(AutoplayOk::Done)));
    assert!(matches!(ap.bump_userplaylist(&9, 1, 50), Ok(AutoplayOk::Done)));
    assert!(matches!(ap.advance_userplaylist(&1, 1), Ok(AutoplayOk::Done)));
    assert_eq!(ap.playlist_position(1), Some(1));
    assert_eq!(ap.advance_userplaylist(&9, 1).err(), Some(AutoplayError::UserNotRegistered));
    assert_eq!(ap.shuffle_user(&9).err(), Some(AutoplayError::UnknownError));
    assert_eq!(ap.playlist_position(1), Some(1));
}

#[test]
fn loading_no_songs_removes_playlist() {
    let r = requester(1, "alice");
    let mut ap = AutoplayState::new();
    assert!(matches!(ap.load_sources_for_requester(&r, &vec![song("x", 1)]), Ok(AutoplayOk::UpdatedPlaylist)));
    assert!(matches!(ap.load_sources_for_requester(&r, &Vec::new()), Ok(AutoplayOk::RemovedUser)));
    assert_eq!(ap.playlist_position(1), None);
}

#[test]
fn autoplay_commands() {
    let mut ap = two_users();
    let fetched: Vec<Song> = Vec::new();
    assert!(matches!(handle_cmd(AutoplayControlCmd::Disable, &mut ap, &fetched, 50), Ok(MusicOk::AutoplayOk(_))));
    assert!(!ap.is_enabled());
    assert_eq!(
        handle_cmd(AutoplayControlCmd::EnableUser(7), &mut ap, &fetched, 50).err(),
        Some(MusicError::AutoplayError(AutoplayError::UserNotRegistered))
    );
}

#[test]
fn autoplay_messages() {
    assert_eq!(AutoplayOk::EnrolledUser.message(), "Enrolled user for current autoplay");
    assert_eq!(AutoplayOk::RemovedUser.message(), "Removed user from current autoplay");
    assert_eq!(AutoplayOk::UpdatedPlaylist.message(), "Refreshed playlist, upcoming songs have been shuffled");
    assert_eq!(AutoplayOk::Done.message(), "Unknown response, fill me in!");
}

#[test]
fn advancing_wraps_around() {
    let r = requester(1, "alice");
    let mut ap = AutoplayState::new();
    let _ = ap.load_sources_for_requester(&r, &vec![song("x", 1), song("y", 2), song("z", 3)]);
    assert!(matches!(ap.advance_userplaylist(&1, 2), Ok(AutoplayOk::Done)));
    assert_eq!(ap.playlist_position(1), Some(2));
    assert!(matches!(ap.advance_userplaylist(&1, 5), Ok(AutoplayOk::Done)));
    assert_eq!(ap.playlist_position(1), Some(1));
}

#[test]
fn built_playlists() {
    let ap = AutoplayState::from_sources(vec![
        (requester(1, "alice"), vec![song("a", 1), song("b", 2)]),
        (requester(2, "bob"), Vec::new()),
    ]);
    assert_eq!(ap.playlist_position(1), Some(0));
    assert_eq!(ap.playlist_position(2), None);
    assert_eq!(ap.cached_time(2), 0);
    let mut ap = ap;
    let _ = ap.enable_user(&1);
    let mut titles: Vec<String> = Vec::new();
    for _ in 0..2 {
        titles.push(ap.next().unwrap().song.title);
    }
    titles.sort();
    assert_eq!(titles, vec!["a".to_string(), "b".to_string()]);
}
