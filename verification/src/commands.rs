//! What the chat commands decide and answer, apart from reading the
//! message and sending the reply.

use vstd::prelude::*;
use vstd::string::StringExecFns;
use crate::model::{Source, StoredSource, UserMgmtError};
use crate::text::{nat_text, push_u64};

verus! {

/// `slice::sort_by_key` on the row id: afterwards the vector holds the same
/// sources, ordered by id. Which of two sources with the same id comes first
/// is not stated here.
#[verifier::external_body]
fn sort_by_id(v: &mut Vec<StoredSource>)
    ensures
        final(v)@.to_multiset() == old(v)@.to_multiset(),
        sorted_by_id(final(v)@),
{
    v.sort_by_key(|e| e.id)
}

/// The sources are in order of their ids.
pub open spec fn sorted_by_id(s: Seq<StoredSource>) -> bool {
    forall|i: int, j: int| 0 <= i <= j < s.len() ==> s[i].id <= s[j].id
}

/// `sorted` holds the sources of `s`, in order of their ids.
pub open spec fn sorts_by_id(s: Seq<StoredSource>, sorted: Seq<StoredSource>) -> bool {
    &&& sorted.to_multiset() == s.to_multiset()
    &&& sorted_by_id(sorted)
}

/// The location a source reads from.
pub open spec fn source_path(s: StoredSource) -> Seq<char> {
    match s.path {
        Source::YoutubePlaylist(url) => url@,
    }
}

/// The sources listed one per line, numbered from 1.
pub open spec fn source_lines(s: Seq<StoredSource>) -> Seq<char>
    decreases s.len(),
{
    if s.len() == 0 {
        Seq::empty()
    } else {
        source_lines(s.drop_last()) + nat_text(s.len()) + ": "@ + source_path(s.last()) + "\n"@
    }
}

/// The listing of the sources in a code block.
pub open spec fn sources_text(sorted: Seq<StoredSource>) -> Seq<char> {
    "```\n"@ + source_lines(sorted) + "```"@
}

/// The listing of a user's sources in order of their ids; `None` when the
/// user has none.
pub fn show_sources(sources: Vec<StoredSource>) -> (r: Option<String>)
    ensures
        r is None == (sources@.len() == 0),
        r matches Some(t) ==> exists|sorted: Seq<StoredSource>|
            #[trigger] sorts_by_id(sources@, sorted) && t@ == sources_text(sorted),
{
    if sources.len() == 0 {
        return None;
    }
    let ghost given = sources@;
    let mut sorted = sources;
    sort_by_id(&mut sorted);
    let mut out = String::from_str("```\n");
    let n = sorted.len();
    let mut i: usize = 0;
    while i < n
        invariant
            n == sorted@.len(),
            i <= n,
            out@ == "```\n"@ + source_lines(sorted@.take(i as int)),
        decreases n - i,
    {
        push_u64(&mut out, (i + 1) as u64);
        out.append(": ");
        match &sorted[i].path {
            Source::YoutubePlaylist(url) => out.append(url.as_str()),
        }
        out.append("\n");
        proof {
            let t = sorted@.take(i + 1);
            assert(t.drop_last() =~= sorted@.take(i as int));
            assert(out@ =~= "```\n"@ + source_lines(t));
        }
        i = i + 1;
    }
    out.append("```");
    proof {
        assert(sorted@.take(n as int) =~= sorted@);
        assert(sorts_by_id(given, sorted@));
    }
    Some(out)
}

/// Why a source cannot be removed.
#[derive(Debug, Clone, Copy, PartialEq, Eq, Structural)]
pub enum RemoveSourceError {
    /// Sources are numbered from 1.
    ZeroNumber,
    NoSources,
    /// No source at this place, counted from 0.
    DoesNotExist(u64),
}

/// The reply for a refused removal.
pub open spec fn remove_source_error_text(e: RemoveSourceError) -> Seq<char> {
    match e {
        RemoveSourceError::ZeroNumber => "Use the number from `!source show`, it is not zero indexed."@,
        RemoveSourceError::NoSources => "You have no sources."@,
        RemoveSourceError::DoesNotExist(i) => "Source #"@ + nat_text(i as nat) + " does not exist"@,
    }
}

impl RemoveSourceError {
    pub fn message(&self) -> (s: String)
        ensures
            s@ == remove_source_error_text(*self),
    {
        match self {
            RemoveSourceError::ZeroNumber =>
                String::from_str("Use the number from `!source show`, it is not zero indexed."),
            RemoveSourceError::NoSources => String::from_str("You have no sources."),
            RemoveSourceError::DoesNotExist(i) => {
                let mut s = String::from_str("Source #");
                push_u64(&mut s, *i);
                s.append(" does not exist");
                s
            },
        }
    }
}

/// The id of the source shown as `number` by `show_sources`.
pub fn source_to_remove(sources: Vec<StoredSource>, number: u64) -> (r: Result<i64, RemoveSourceError>)
    ensures
        number == 0 ==> r == Err::<i64, RemoveSourceError>(RemoveSourceError::ZeroNumber),
        number > 0 && sources@.len() == 0 ==> r == Err::<i64, RemoveSourceError>(RemoveSourceError::NoSources),
        number > 0 && sources@.len() > 0 && number - 1 >= sources@.len()
            ==> r == Err::<i64, RemoveSourceError>(RemoveSourceError::DoesNotExist((number - 1) as u64)),
        number > 0 && sources@.len() > 0 && number - 1 < sources@.len() ==> (r matches Ok(id)
            && exists|sorted: Seq<StoredSource>|
                #[trigger] sorts_by_id(sources@, sorted) && sorted[number - 1].id == id),
{
    if number == 0 {
        return Err(RemoveSourceError::ZeroNumber);
    }
    let index = number - 1;
    if sources.len() == 0 {
        return Err(RemoveSourceError::NoSources);
    }
    if (sources.len() as u64) <= index {
        return Err(RemoveSourceError::DoesNotExist(index));
    }
    let ghost given = sources@;
    let mut sorted = sources;
    sort_by_id(&mut sorted);
    proof {
        vstd::seq_lib::to_multiset_len(sorted@);
        vstd::seq_lib::to_multiset_len(given);
        assert(sorts_by_id(given, sorted@));
    }
    Ok(sorted[index as usize].id)
}

/// The name of an account error, as its `Debug` form prints it.
pub open spec fn user_error_name(e: UserMgmtError) -> Seq<char> {
    match e {
        UserMgmtError::InvalidLink => "InvalidLink"@,
        UserMgmtError::UserExists => "UserExists"@,
        UserMgmtError::UserDoesNotExist => "UserDoesNotExist"@,
        UserMgmtError::DbError => "DbError"@,
        UserMgmtError::UnknownError => "UnknownError"@,
    }
}

/// The name of an account error.
pub fn user_error_text(e: &UserMgmtError) -> (s: String)
    ensures
        s@ == user_error_name(*e),
{
    match e {
        UserMgmtError::InvalidLink => String::from_str("InvalidLink"),
        UserMgmtError::UserExists => String::from_str("UserExists"),
        UserMgmtError::UserDoesNotExist => String::from_str("UserDoesNotExist"),
        UserMgmtError::DbError => String::from_str("DbError"),
        UserMgmtError::UnknownError => String::from_str("UnknownError"),
    }
}

/// The reply to a registration.
pub open spec fn register_reply_text(r: Result<(), UserMgmtError>) -> Seq<char> {
    match r {
        Ok(_) => "Registered successfully!"@,
        Err(UserMgmtError::UserExists) =>
            "You have already registered! If you are trying to link to a web account, see `!help link`"@,
        Err(e) => "An unknown error occurred: "@ + user_error_name(e),
    }
}

pub fn register_reply(r: &Result<(), UserMgmtError>) -> (s: String)
    ensures
        s@ == register_reply_text(*r),
{
    match r {
        Ok(_) => String::from_str("Registered successfully!"),
        Err(UserMgmtError::UserExists) => String::from_str(
            "You have already registered! If you are trying to link to a web account, see `!help link`"),
        Err(e) => {
            let mut s = String::from_str("An unknown error occurred: ");
            let t = user_error_text(e);
            s.append(t.as_str());
            s
        },
    }
}

/// The reply to applying a link code.
pub open spec fn link_reply_text(r: Result<(), UserMgmtError>) -> Seq<char> {
    match r {
        Ok(_) => "User successfully linked!"@,
        Err(UserMgmtError::InvalidLink) => "Link is invalid or expired."@,
        Err(UserMgmtError::UserExists) =>
            "You already have a Discord auth, regenerate a link and use in some other auth."@,
        Err(UserMgmtError::UserDoesNotExist) =>
            "You are somehow not registered? Register first then try linking."@,
        Err(e) => "There was a problem attempting to link users: "@ + user_error_name(e),
    }
}

pub fn link_reply(r: &Result<(), UserMgmtError>) -> (s: String)
    ensures
        s@ == link_reply_text(*r),
{
    match r {
        Ok(_) => String::from_str("User successfully linked!"),
        Err(UserMgmtError::InvalidLink) => String::from_str("Link is invalid or expired."),
        Err(UserMgmtError::UserExists) => String::from_str(
            "You already have a Discord auth, regenerate a link and use in some other auth."),
        Err(UserMgmtError::UserDoesNotExist) => String::from_str(
            "You are somehow not registered? Register first then try linking."),
        Err(e) => {
            let mut s = String::from_str("There was a problem attempting to link users: ");
            let t = user_error_text(e);
            s.append(t.as_str());
            s
        },
    }
}

/// The direct message that hands out a new link code.
pub open spec fn link_code_message(link: u64) -> Seq<char> {
    "Here is your link number:\n`"@ + nat_text(link as nat)
        + "`\nEnter this when registering a new account, or through the link option/menu."@
}

pub fn link_code_text(link: u64) -> (s: String)
    ensures
        s@ == link_code_message(link),
{
    let mut s = String::from_str("Here is your link number:\n`");
    push_u64(&mut s, link);
    s.append("`\nEnter this when registering a new account, or through the link option/menu.");
    s
}

} // verus!
