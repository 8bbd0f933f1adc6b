//! The rows the database stores, and how they become the shared model.

use vstd::prelude::*;
use std::collections::HashMap;
use crate::model::{MinstrelUserId, Requester, Source as ModelSource, StoredSource};

verus! {

broadcast use vstd::std_specs::hash::group_hash_axioms;

/// A row of the `user` table.
#[derive(Clone, Debug)]
pub struct User {
    pub id: i64,
    pub displayname: String,
    pub icon: String,
}

/// A row of the `user_auth` table.
#[derive(Clone, Debug)]
pub struct UserAuth {
    pub id: i64,
    pub userid: i64,
    pub username: String,
    pub password: String,
}

/// A row of the `discord_user` table.
#[derive(Clone, Debug)]
pub struct DiscordUser {
    pub id: i64,
    pub userid: i64,
    pub discordid: i64,
}

/// A row of the `source` table.
#[derive(Debug)]
pub struct Source {
    pub id: i64,
    pub path: String,
    pub active: i64,
    pub source_type: i64,
    pub user_id: i64,
}

impl Clone for Source {
    fn clone(&self) -> (r: Self)
        ensures
            r == *self,
    {
        Source {
            id: self.id,
            path: self.path.clone(),
            active: self.active,
            source_type: self.source_type,
            user_id: self.user_id,
        }
    }
}

/// A row of the `song` table.
#[derive(Debug)]
pub struct Song {
    pub id: i64,
    pub path: String,
    pub title: String,
    pub artist: String,
    pub thumbnail_url: Option<String>,
    pub duration: i64,
    pub available: i64,
}

/// A source row as the shared model has it; every source is read as a playlist.
pub open spec fn stored_source(src: Source) -> StoredSource {
    StoredSource { id: src.id, path: ModelSource::YoutubePlaylist(src.path) }
}

impl From<Source> for StoredSource {
    fn from(src: Source) -> (r: Self) {
        StoredSource { id: src.id, path: ModelSource::YoutubePlaylist(src.path) }
    }
}

impl vstd::std_specs::convert::FromSpecImpl<Source> for StoredSource {
    open spec fn obeys_from_spec() -> bool {
        true
    }

    open spec fn from_spec(src: Source) -> Self {
        stored_source(src)
    }
}

/// The shared model's song for a `song` row: the path is the URL, and the
/// thumbnail is empty when there is none.
pub fn song_from_row(song: Song) -> (r: crate::model::Song)
    ensures
        r.title == song.title,
        r.artist == song.artist,
        r.url == song.path,
        song.thumbnail_url matches Some(t) ==> r.thumbnail == t,
        song.thumbnail_url is None ==> r.thumbnail@.len() == 0,
        r.duration == song.duration,
{
    crate::model::Song {
        title: song.title,
        artist: song.artist,
        url: song.path,
        thumbnail: match song.thumbnail_url {
            Some(t) => t,
            None => String::new(),
        },
        duration: song.duration,
    }
}

impl From<Song> for crate::model::Song {
    fn from(song: Song) -> (r: Self) {
        song_from_row(song)
    }
}

/// What `from` gives is stated by `song_from_row`; the empty thumbnail cannot
/// be written as a spec value, so no `from_spec` is claimed.
impl vstd::std_specs::convert::FromSpecImpl<Song> for crate::model::Song {
    open spec fn obeys_from_spec() -> bool {
        false
    }

    open spec fn from_spec(song: Song) -> Self {
        arbitrary()
    }
}

/// The columns a source is stored with: its path and its type number.
pub fn source_columns(src: &ModelSource) -> (r: (String, i64))
    ensures
        match *src {
            ModelSource::YoutubePlaylist(p) => r.0 == p && r.1 == 1,
        },
{
    match src {
        ModelSource::YoutubePlaylist(path) => (path.clone(), 1),
    }
}

/// The requester for a `user` row: the icon is empty when there is none, and
/// the table holds no user name.
pub fn requester_from_row(id: MinstrelUserId, displayname: String, icon: Option<String>) -> (r: Requester)
    ensures
        r.id == id,
        r.displayname == displayname,
        r.username@.len() == 0,
        icon matches Some(i) ==> r.icon == i,
        icon is None ==> r.icon@.len() == 0,
{
    Requester {
        username: String::new(),
        displayname,
        icon: match icon {
            Some(i) => i,
            None => String::new(),
        },
        id,
    }
}

/// The sources of user `u` among `rows`, in order.
pub open spec fn sources_of(rows: Seq<Source>, u: i64) -> Seq<StoredSource>
    decreases rows.len(),
{
    if rows.len() == 0 {
        Seq::empty()
    } else {
        let prev = sources_of(rows.drop_last(), u);
        if rows.last().user_id == u { prev.push(stored_source(rows.last())) } else { prev }
    }
}

/// Groups source rows by the user they belong to, keeping their order.
pub fn group_sources(rows: Vec<Source>) -> (r: HashMap<MinstrelUserId, Vec<StoredSource>>)
    ensures
        forall|u: i64| #[trigger] r@.contains_key(u) <==> exists|i: int| 0 <= i < rows@.len() && #[trigger] rows@[i].user_id == u,
        forall|u: i64| #[trigger] r@.contains_key(u) ==> r@[u]@ == sources_of(rows@, u),
{
    let mut ret: HashMap<MinstrelUserId, Vec<StoredSource>> = HashMap::new();
    let n = rows.len();
    let mut i: usize = 0;
    while i < n
        invariant
            n == rows@.len(),
            i <= n,
            forall|u: i64| #[trigger] ret@.contains_key(u) <==> exists|j: int| 0 <= j < i && #[trigger] rows@[j].user_id == u,
            forall|u: i64| #[trigger] ret@.contains_key(u) ==> ret@[u]@ == sources_of(rows@.take(i as int), u),
        decreases n - i,
    {
        let row = rows[i].clone();
        let u = row.user_id;
        let ghost before = ret@;
        let mut list = match ret.remove(&u) {
            Some(l) => l,
            None => Vec::new(),
        };
        let s = StoredSource { id: row.id, path: ModelSource::YoutubePlaylist(row.path) };
        list.push(s);
        ret.insert(u, list);
        proof {
            let t = rows@.take(i + 1);
            assert(t.drop_last() =~= rows@.take(i as int));
            assert(t.last() == rows@[i as int]);
            assert forall|v: i64| #[trigger] ret@.contains_key(v) implies ret@[v]@ == sources_of(t, v) by {
                if v == u {
                    if !before.contains_key(u) {
                        assert forall|j: int| 0 <= j < i implies rows@[j].user_id != u by {
                            if rows@[j].user_id == u {
                                assert(before.contains_key(u));
                            }
                        }
                        lemma_sources_of_none(rows@.take(i as int), u);
                    }
                    assert(list@ =~= sources_of(rows@.take(i as int), u).push(stored_source(rows@[i as int])));
                } else {
                    assert(before.contains_key(v));
                }
            }
            assert forall|v: i64| #[trigger] ret@.contains_key(v) <==> exists|j: int| 0 <= j < i + 1 && #[trigger] rows@[j].user_id == v by {
                if v == u {
                    assert(rows@[i as int].user_id == u);
                } else if ret@.contains_key(v) {
                    assert(before.contains_key(v));
                } else if exists|j: int| 0 <= j < i + 1 && #[trigger] rows@[j].user_id == v {
                    let j = choose|j: int| 0 <= j < i + 1 && #[trigger] rows@[j].user_id == v;
                    assert(j < i);
                    assert(before.contains_key(v));
                }
            }
        }
        i = i + 1;
    }
    proof {
        assert(rows@.take(n as int) =~= rows@);
    }
    ret
}

/// A user without rows has no sources.
pub proof fn lemma_sources_of_none(rows: Seq<Source>, u: i64)
    requires
        forall|j: int| 0 <= j < rows.len() ==> (#[trigger] rows[j]).user_id != u,
    ensures
        sources_of(rows, u) == Seq::<StoredSource>::empty(),
    decreases rows.len(),
{
    if rows.len() > 0 {
        lemma_sources_of_none(rows.drop_last(), u);
        assert(rows.last() == rows[rows.len() - 1]);
    }
}

} // verus!
