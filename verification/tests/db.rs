use minstrel::dbmodel::{Source, Song, group_sources, requester_from_row, song_from_row, source_columns};
use minstrel::model::{Source as ModelSource, StoredSource};

#[test]
fn it_works() {
    let result = 2 + 2;
    assert_eq!(result, 4);
}

fn row(id: i64, user_id: i64, path: &str) -> Source {
    Source { id, path: path.to_string(), active: 1, source_type: 0, user_id }
}

#[test]
fn source_rows_become_playlists() {
    let s: StoredSource = row(4, 1, "https://list").into();
    assert_eq!(s.id, 4);
    match s.path {
        ModelSource::YoutubePlaylist(url) => assert_eq!(url, "https://list"),
    }
    let (path, kind) = source_columns(&ModelSource::YoutubePlaylist("https://p".to_string()));
    assert_eq!(path, "https://p");
    assert_eq!(kind, 1);
}

#[test]
fn sources_grouped_by_user() {
    let grouped = group_sources(vec![row(1, 10, "a"), row(2, 11, "b"), row(3, 10, "c")]);
    assert_eq!(grouped.len(), 2);
    let first: Vec<i64> = grouped[&10].iter().map(|s| s.id).collect();
    assert_eq!(first, vec![1, 3]);
    assert_eq!(grouped[&11].len(), 1);
}

#[test]
fn song_rows_become_songs() {
    let s = song_from_row(Song {
        id: 1,
        path: "https://v".to_string(),
        title: "T".to_string(),
        artist: "A".to_string(),
        thumbnail_url: None,
        duration: 42,
        available: 1,
    });
    assert_eq!(s.url, "https://v");
    assert_eq!(s.thumbnail, "");
    assert_eq!(s.duration, 42);
}

#[test]
fn requester_rows() {
    let r = requester_from_row(5, "Dee".to_string(), Some("icon".to_string()));
    assert_eq!(r.id, 5);
    assert_eq!(r.displayname, "Dee");
    assert_eq!(r.icon, "icon");
}
