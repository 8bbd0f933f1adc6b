//! Account management: password hashing with PBKDF2 and the table of link
//! codes that let a second way of signing in join an existing user.

use vstd::prelude::*;
use std::collections::HashMap;
use pbkdf2::password_hash::rand_core::OsRng;
use pbkdf2::password_hash::{Error as PwError, PasswordHash, PasswordHasher, PasswordVerifier, SaltString};
use pbkdf2::Pbkdf2;
use crate::model::{MinstrelUserId, UserMgmtError};
use crate::keys::keys_of;
use crate::random::random_u64;

verus! {

broadcast use vstd::std_specs::hash::group_hash_axioms;

/// A way of signing in: a user name and password, or a Discord account.
#[derive(Debug)]
pub enum AuthType {
    UserAuth(String, String),
    Discord(u64),
}

impl Clone for AuthType {
    fn clone(&self) -> (r: Self)
        ensures
            r == *self,
    {
        match self {
            AuthType::UserAuth(u, p) => AuthType::UserAuth(u.clone(), p.clone()),
            AuthType::Discord(d) => AuthType::Discord(*d),
        }
    }
}

/// What a new user is shown as.
#[derive(Debug)]
pub struct UserInfo {
    pub displayname: String,
    pub icon: Option<String>,
}

impl Clone for UserInfo {
    fn clone(&self) -> (r: Self)
        ensures
            r == *self,
    {
        let icon = match &self.icon {
            Some(i) => Some(i.clone()),
            None => None,
        };
        UserInfo { displayname: self.displayname.clone(), icon }
    }
}

/// What checking a password against a stored hash gives.
#[derive(Clone, Copy, Debug, PartialEq, Eq, Structural)]
pub enum PasswordCheck {
    /// The password matches the hash.
    Match,
    /// The password does not match the hash.
    Mismatch,
    /// The stored hash cannot be read.
    Malformed,
    /// The check failed for another reason.
    Failed,
}

/// What PBKDF2 verification of `input` against the PHC string `hash` gives.
pub uninterp spec fn pbkdf2_verification(input: Seq<char>, hash: Seq<char>) -> PasswordCheck;

/// The PHC string PBKDF2 makes of `password` with `salt`, or `None` when the
/// salt is not acceptable.
pub uninterp spec fn pbkdf2_digest(password: Seq<char>, salt: Seq<char>) -> Option<Seq<char>>;

/// `PasswordHash::new` on the stored hash, then `Pbkdf2.verify_password`:
/// a hash that does not parse is `Malformed`; otherwise the verifier's answer,
/// with `Error::Password` as `Mismatch`. The result depends on the two strings
/// alone.
#[verifier::external_body]
fn pbkdf2_verify(input: &String, hash: &String) -> (r: PasswordCheck)
    ensures
        r == pbkdf2_verification(input@, hash@),
{
    match PasswordHash::new(hash.as_str()) {
        Err(_) => PasswordCheck::Malformed,
        Ok(parsed) => match Pbkdf2.verify_password(input.as_bytes(), &parsed) {
            Ok(()) => PasswordCheck::Match,
            Err(PwError::Password) => PasswordCheck::Mismatch,
            Err(_) => PasswordCheck::Failed,
        },
    }
}

/// `Pbkdf2.hash_password` with the default parameters, as a PHC string; the
/// result depends on the password and the salt alone. A hash it gives
/// verifies against the same password: `verify_password` reads the
/// algorithm, rounds, output length and salt back from the string and
/// recomputes the same output.
#[verifier::external_body]
fn pbkdf2_hash(password: &String, salt: &String) -> (r: Option<String>)
    ensures
        match r {
            Some(h) => pbkdf2_digest(password@, salt@) == Some(h@),
            None => pbkdf2_digest(password@, salt@) is None,
        },
        r matches Some(h) ==> pbkdf2_verification(password@, h@) == PasswordCheck::Match,
{
    match Pbkdf2.hash_password(password.as_bytes(), salt.as_str()) {
        Ok(h) => Some(h.to_string()),
        Err(_) => None,
    }
}

/// `SaltString::generate` with the operating system's generator: the B64
/// encoding of 16 random bytes, which `hash_password` accepts as a salt
/// (22 characters, within the length limits, decoding back to those bytes),
/// so hashing any password with it succeeds. Which salt comes out is random
/// and not stated.
#[verifier::external_body]
fn generate_salt() -> (r: String)
    ensures
        forall|password: Seq<char>| #[trigger] pbkdf2_digest(password, r@) is Some,
{
    SaltString::generate(&mut OsRng).as_str().to_owned()
}

/// Checks a password against a stored hash: `Ok(true)` when it matches,
/// `Ok(false)` when it does not, `UnknownError` when the check cannot be made.
pub fn verify_password(input: &String, hash: &String) -> (r: Result<bool, UserMgmtError>)
    ensures
        r == match pbkdf2_verification(input@, hash@) {
            PasswordCheck::Match => Ok::<bool, UserMgmtError>(true),
            PasswordCheck::Mismatch => Ok(false),
            _ => Err(UserMgmtError::UnknownError),
        },
{
    match pbkdf2_verify(input, hash) {
        PasswordCheck::Match => Ok(true),
        PasswordCheck::Mismatch => Ok(false),
        _ => Err(UserMgmtError::UnknownError),
    }
}

/// The outcome of hashing `password` with `salt`, checked against itself.
pub open spec fn salted_hash_result(password: Seq<char>, salt: Seq<char>) -> Result<Seq<char>, UserMgmtError> {
    match pbkdf2_digest(password, salt) {
        None => Err(UserMgmtError::UnknownError),
        Some(h) => match pbkdf2_verification(password, h) {
            PasswordCheck::Match => Ok(h),
            _ => Err(UserMgmtError::UnknownError),
        },
    }
}

/// Hashes a password with the given salt, then checks the hash against the
/// password; a hash that does not verify is refused.
pub fn hash_password_with_salt(password: &String, salt: &String) -> (r: Result<String, UserMgmtError>)
    ensures
        match r {
            Ok(h) => salted_hash_result(password@, salt@) == Ok::<Seq<char>, UserMgmtError>(h@),
            Err(e) => salted_hash_result(password@, salt@) == Err::<Seq<char>, UserMgmtError>(e),
        },
        pbkdf2_digest(password@, salt@) is Some ==> r is Ok,
{
    match pbkdf2_hash(password, salt) {
        None => Err(UserMgmtError::UnknownError),
        Some(h) => match verify_password(password, &h) {
            Ok(true) => Ok(h),
            Ok(false) => Err(UserMgmtError::UnknownError),
            Err(e) => Err(e),
        },
    }
}

/// `h` is a PBKDF2 hash of `password` with some salt, and it verifies
/// against the password.
pub open spec fn is_hash_of(password: Seq<char>, h: Seq<char>) -> bool {
    &&& pbkdf2_verification(password, h) == PasswordCheck::Match
    &&& exists|salt: Seq<char>| pbkdf2_digest(password, salt) == Some(h)
}

/// Hashes a password with a fresh random salt; this always succeeds, and
/// the hash verifies against the password.
pub fn hash_password(password: &String) -> (r: Result<String, UserMgmtError>)
    ensures
        r matches Ok(h) && is_hash_of(password@, h@),
{
    let salt = generate_salt();
    proof {
        assert(pbkdf2_digest(password@, salt@) is Some);
    }
    hash_password_with_salt(password, &salt)
}

/// Checks a user's credentials against their stored record: `(user, hash)`
/// when the user name exists. `Some(user)` when the password matches; `None`
/// when the user name is unknown or the password is wrong.
pub fn authenticate_with(record: Option<(MinstrelUserId, String)>, password: String) -> (r: Result<Option<MinstrelUserId>, UserMgmtError>)
    ensures
        match record {
            None => r == Ok::<Option<MinstrelUserId>, UserMgmtError>(None),
            Some((id, hash)) => match pbkdf2_verification(password@, hash@) {
                PasswordCheck::Match => r == Ok::<Option<MinstrelUserId>, UserMgmtError>(Some(id)),
                PasswordCheck::Mismatch => r == Ok::<Option<MinstrelUserId>, UserMgmtError>(None),
                _ => r == Err::<Option<MinstrelUserId>, UserMgmtError>(UserMgmtError::UnknownError),
            },
        },
{
    match record {
        Some((id, phash)) => match verify_password(&password, &phash)? {
            true => Ok(Some(id)),
            false => Ok(None),
        },
        None => Ok(None),
    }
}

} // verus!

verus! {

/// The link codes that are waiting to be used: code to the user it links to
/// and the time, in seconds, at which it was made.
pub struct LinkTable {
    links: HashMap<u64, (MinstrelUserId, u64)>,
}

/// Seconds from `made` to `now`, zero when `now` is earlier.
pub open spec fn elapsed(made: u64, now: u64) -> int {
    if now >= made { now - made } else { 0 }
}

/// The entries of `m` that have not expired at `now`.
pub open spec fn live_links(m: Map<u64, (MinstrelUserId, u64)>, now: u64, timeout: u64) -> Map<u64, (MinstrelUserId, u64)> {
    m.restrict(m.dom().filter(|k: u64| elapsed(m[k].1, now) < timeout))
}

/// No user has two codes.
pub open spec fn one_link_per_user(m: Map<u64, (MinstrelUserId, u64)>) -> bool {
    forall|a: u64, b: u64| #[trigger] m.contains_key(a) && #[trigger] m.contains_key(b) && a != b ==> m[a].0 != m[b].0
}

/// `draws[i]` is the first of the draws that is not a code in `m`.
pub open spec fn first_free(m: Map<u64, (MinstrelUserId, u64)>, draws: Seq<u64>, i: int) -> bool {
    &&& 0 <= i < draws.len()
    &&& !m.contains_key(draws[i])
    &&& forall|j: int| 0 <= j < i ==> m.contains_key(#[trigger] draws[j])
}

/// What using the code `link` at `now` does: the code is gone afterwards,
/// and it gives its user only when it was made less than `timeout` seconds
/// before.
pub open spec fn take_link_outcome(old: Map<u64, (MinstrelUserId, u64)>, new: Map<u64, (MinstrelUserId, u64)>,
    link: u64, now: u64, timeout: u64, r: Result<MinstrelUserId, UserMgmtError>) -> bool {
    &&& new == old.remove(link)
    &&& !old.contains_key(link) ==> r == Err::<MinstrelUserId, UserMgmtError>(UserMgmtError::InvalidLink)
    &&& old.contains_key(link) ==> {
        let (user, made) = old[link];
        &&& elapsed(made, now) >= timeout ==> r == Err::<MinstrelUserId, UserMgmtError>(UserMgmtError::InvalidLink)
        &&& elapsed(made, now) < timeout ==> r == Ok::<MinstrelUserId, UserMgmtError>(user)
    }
}

/// What asking for a code for `user_id` at `now` does: expired codes go; a
/// user with a live code gets it again; otherwise a new code made at `now`
/// is added, or, failing that, `UnknownError`.
pub open spec fn create_link_outcome(old: Map<u64, (MinstrelUserId, u64)>, new: Map<u64, (MinstrelUserId, u64)>,
    user_id: MinstrelUserId, now: u64, timeout: u64, r: Result<u64, UserMgmtError>) -> bool {
    let live = live_links(old, now, timeout);
    &&& (exists|k: u64| #[trigger] live.contains_key(k) && live[k].0 == user_id) ==> {
        &&& r matches Ok(k) && live.contains_key(k) && live[k].0 == user_id
        &&& new == live
    }
    &&& (forall|k: u64| #[trigger] live.contains_key(k) ==> live[k].0 != user_id) ==> {
        &&& r matches Ok(k) ==> !live.contains_key(k) && new == live.insert(k, (user_id, now))
        &&& r matches Err(e) ==> e == UserMgmtError::UnknownError && new == live
    }
}

/// A new link code gives back its user when used within `timeout` seconds,
/// and only once: using it a second time is refused.
pub proof fn law_link_used_once(t0: Map<u64, (MinstrelUserId, u64)>, t1: Map<u64, (MinstrelUserId, u64)>,
    t2: Map<u64, (MinstrelUserId, u64)>, t3: Map<u64, (MinstrelUserId, u64)>, user_id: MinstrelUserId,
    made: u64, used: u64, again: u64, timeout: u64, code: u64,
    r2: Result<MinstrelUserId, UserMgmtError>, r3: Result<MinstrelUserId, UserMgmtError>)
    requires
        forall|k: u64| #[trigger] live_links(t0, made, timeout).contains_key(k)
            ==> live_links(t0, made, timeout)[k].0 != user_id,
        create_link_outcome(t0, t1, user_id, made, timeout, Ok(code)),
        take_link_outcome(t1, t2, code, used, timeout, r2),
        take_link_outcome(t2, t3, code, again, timeout, r3),
        elapsed(made, used) < timeout,
    ensures
        r2 == Ok::<MinstrelUserId, UserMgmtError>(user_id),
        r3 == Err::<MinstrelUserId, UserMgmtError>(UserMgmtError::InvalidLink),
{
    assert(t1.contains_key(code));
    assert(!t2.contains_key(code));
}

impl LinkTable {
    /// The codes waiting to be used.
    pub closed spec fn entries(&self) -> Map<u64, (MinstrelUserId, u64)> {
        self.links@
    }

    pub open spec fn wf(&self) -> bool {
        one_link_per_user(self.entries())
    }

    pub fn new() -> (r: LinkTable)
        ensures
            r.wf(),
            r.entries().dom().is_empty(),
    {
        LinkTable { links: HashMap::new() }
    }

    /// Uses up a link code made less than `timeout` seconds before `now`,
    /// giving the user it links to. An expired code is removed and refused;
    /// so is an unknown one.
    pub fn take_link(&mut self, link: u64, now: u64, timeout: u64) -> (r: Result<MinstrelUserId, UserMgmtError>)
        requires
            old(self).wf(),
        ensures
            final(self).wf(),
            take_link_outcome(old(self).entries(), final(self).entries(), link, now, timeout, r),
    {
        let (user, made) = match self.links.get(&link) {
            Some(e) => *e,
            None => {
                proof {
                    assert(self.entries() =~= old(self).entries().remove(link));
                }
                return Err(UserMgmtError::InvalidLink);
            },
        };
        self.links.remove(&link);
        proof {
            assert forall|a: u64, b: u64| #[trigger] self.entries().contains_key(a) && #[trigger] self.entries().contains_key(b) && a != b
                implies self.entries()[a].0 != self.entries()[b].0 by {
                assert(old(self).entries().contains_key(a) && old(self).entries().contains_key(b));
            }
        }
        if now.saturating_sub(made) >= timeout {
            return Err(UserMgmtError::InvalidLink);
        }
        Ok(user)
    }

    /// Removes every code made `timeout` seconds or more before `now`.
    fn remove_expired(&mut self, now: u64, timeout: u64)
        requires
            old(self).wf(),
        ensures
            final(self).wf(),
            final(self).entries() == live_links(old(self).entries(), now, timeout),
    {
        let keys = keys_of(&self.links);
        let ghost start = self.links@;
        let n = keys.len();
        let mut i: usize = 0;
        while i < n
            invariant
                n == keys@.len(),
                i <= n,
                keys@.no_duplicates(),
                keys@.to_set() == start.dom(),
                one_link_per_user(start),
                self.links@.dom().subset_of(start.dom()),
                forall|k: u64| #[trigger] self.links@.contains_key(k) ==> self.links@[k] == start[k],
                forall|j: int| 0 <= j < i ==> (self.links@.contains_key(#[trigger] keys@[j])
                    <==> elapsed(start[keys@[j]].1, now) < timeout),
                forall|j: int| i <= j < n ==> self.links@.contains_key(#[trigger] keys@[j]),
            decreases n - i,
        {
            let k = keys[i];
            let ghost before = self.links@;
            let made = match self.links.get(&k) {
                Some(e) => e.1,
                None => {
                    proof {
                        assert(self.links@.contains_key(keys@[i as int]));
                    }
                    0
                },
            };
            if now.saturating_sub(made) >= timeout {
                self.links.remove(&k);
            }
            proof {
                assert forall|j: int| 0 <= j < i + 1 implies (self.links@.contains_key(#[trigger] keys@[j])
                    <==> elapsed(start[keys@[j]].1, now) < timeout) by {
                    if j < i {
                        assert(keys@[j] != k);
                        assert(before.contains_key(keys@[j]) == self.links@.contains_key(keys@[j]));
                    }
                }
                assert forall|j: int| i + 1 <= j < n implies self.links@.contains_key(#[trigger] keys@[j]) by {
                    assert(keys@[j] != k);
                    assert(before.contains_key(keys@[j]));
                }
            }
            i = i + 1;
        }
        proof {
            let live = live_links(start, now, timeout);
            assert forall|k: u64| #[trigger] self.links@.contains_key(k) <==> live.contains_key(k) by {
                if start.contains_key(k) {
                    assert(keys@.to_set().contains(k));
                    let j = choose|j: int| 0 <= j < keys@.len() && keys@[j] == k;
                    assert(self.links@.contains_key(keys@[j]) <==> elapsed(start[keys@[j]].1, now) < timeout);
                }
            }
            assert(self.links@ =~= live);
            assert forall|a: u64, b: u64| #[trigger] self.entries().contains_key(a) && #[trigger] self.entries().contains_key(b) && a != b
                implies self.entries()[a].0 != self.entries()[b].0 by {
                assert(start.contains_key(a) && start.contains_key(b));
            }
        }
    }

    /// The code of `user_id`, if it has one.
    fn find_link(&self, user_id: MinstrelUserId) -> (r: Option<u64>)
        ensures
            r matches Some(k) ==> self.entries().contains_key(k) && self.entries()[k].0 == user_id,
            r is None ==> forall|k: u64| #[trigger] self.entries().contains_key(k) ==> self.entries()[k].0 != user_id,
    {
        let keys = keys_of(&self.links);
        let n = keys.len();
        let mut i: usize = 0;
        while i < n
            invariant
                n == keys@.len(),
                i <= n,
                keys@.to_set() == self.links@.dom(),
                forall|j: int| 0 <= j < i ==> self.links@[#[trigger] keys@[j]].0 != user_id,
            decreases n - i,
        {
            let k = keys[i];
            proof {
                assert(keys@.to_set().contains(k));
            }
            match self.links.get(&k) {
                Some(e) => {
                    if e.0 == user_id {
                        return Some(k);
                    }
                },
                None => {},
            }
            i = i + 1;
        }
        proof {
            assert forall|k: u64| #[trigger] self.entries().contains_key(k) implies self.entries()[k].0 != user_id by {
                assert(keys@.to_set().contains(k));
                let j = choose|j: int| 0 <= j < keys@.len() && keys@[j] == k;
                assert(self.links@[keys@[j]].0 != user_id);
            }
        }
        None
    }

    /// Gives the user a link code valid for `timeout` seconds from `now`.
    /// Expired codes are dropped first; a user who already has a code gets
    /// that code again. Otherwise a random code is drawn, up to five times,
    /// until one is unused; when all five are taken the result is
    /// `UnknownError`.
    pub fn create_link(&mut self, user_id: MinstrelUserId, now: u64, timeout: u64) -> (r: Result<u64, UserMgmtError>)
        requires
            old(self).wf(),
        ensures
            final(self).wf(),
            create_link_outcome(old(self).entries(), final(self).entries(), user_id, now, timeout, r),
    {
        self.remove_expired(now, timeout);
        if let Some(k) = self.find_link(user_id) {
            return Ok(k);
        }
        let mut draws: Vec<u64> = Vec::new();
        let mut attempt: u32 = 0;
        while attempt < 5
            decreases 5 - attempt,
        {
            draws.push(random_u64());
            attempt = attempt + 1;
        }
        self.place_link(user_id, now, &draws)
    }

    /// Gives `user_id`, who has no code, the first of the drawn codes that is
    /// not in use, made at `now`; `UnknownError` when every drawn code is
    /// taken.
    pub fn place_link(&mut self, user_id: MinstrelUserId, now: u64, draws: &Vec<u64>) -> (r: Result<u64, UserMgmtError>)
        requires
            old(self).wf(),
            forall|k: u64| #[trigger] old(self).entries().contains_key(k) ==> old(self).entries()[k].0 != user_id,
        ensures
            final(self).wf(),
            (exists|i: int| 0 <= i < draws@.len() && !old(self).entries().contains_key(#[trigger] draws@[i])) ==> r is Ok,
            r matches Ok(k) ==> exists|i: int| #[trigger] first_free(old(self).entries(), draws@, i) && draws@[i] == k
                && final(self).entries() == old(self).entries().insert(k, (user_id, now)),
            r is Err ==> r == Err::<u64, UserMgmtError>(UserMgmtError::UnknownError)
                && final(self).entries() == old(self).entries()
                && forall|i: int| 0 <= i < draws@.len() ==> old(self).entries().contains_key(#[trigger] draws@[i]),
    {
        let n = draws.len();
        let mut i: usize = 0;
        while i < n
            invariant
                n == draws@.len(),
                i <= n,
                self.wf(),
                *self == *old(self),
                forall|k: u64| #[trigger] self.entries().contains_key(k) ==> self.entries()[k].0 != user_id,
                forall|j: int| 0 <= j < i ==> self.entries().contains_key(#[trigger] draws@[j]),
            decreases n - i,
        {
            let link = draws[i];
            if !self.links.contains_key(&link) {
                let ghost before = self.entries();
                self.links.insert(link, (user_id, now));
                proof {
                    assert(first_free(before, draws@, i as int));
                    assert forall|a: u64, b: u64| #[trigger] self.entries().contains_key(a) && #[trigger] self.entries().contains_key(b) && a != b
                        implies self.entries()[a].0 != self.entries()[b].0 by {
                        if a != link && b != link {
                            assert(before.contains_key(a) && before.contains_key(b));
                        } else if a == link {
                            assert(before.contains_key(b));
                        } else {
                            assert(before.contains_key(a));
                        }
                    }
                }
                return Ok(link);
            }
            i = i + 1;
        }
        proof {
            assert forall|j: int| 0 <= j < draws@.len() implies old(self).entries().contains_key(#[trigger] draws@[j]) by {}
        }
        Err(UserMgmtError::UnknownError)
    }
}

} // verus!
