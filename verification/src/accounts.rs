//! Registering users and linking a second login to a user. Both talk to the
//! database between their decisions, so each is a small state machine: the
//! caller performs the step it is given and reports what came back.

use vstd::prelude::*;
use crate::model::{MinstrelUserId, UserMgmtError};
use crate::usermgmt::{AuthType, UserInfo, LinkTable, hash_password, is_hash_of, take_link_outcome};

verus! {

/// A login to store: a user name with the hash of its password, or a
/// Discord account.
#[derive(Debug)]
pub enum Login {
    Password(String, String),
    Discord(u64),
}

/// Which kind of login.
#[derive(Debug, Clone, Copy, PartialEq, Eq, Structural)]
pub enum LoginKind {
    Password,
    Discord,
}

/// The kind of login an authentication is.
pub open spec fn kind_of(auth: AuthType) -> LoginKind {
    match auth {
        AuthType::UserAuth(_, _) => LoginKind::Password,
        AuthType::Discord(_) => LoginKind::Discord,
    }
}

/// What the caller is asked to do next.
#[derive(Debug)]
pub enum AccountStep {
    /// Answer whether this login is registered already (the user name, or
    /// the Discord account).
    CheckLogin(AuthType),
    /// Create a user shown as given and report its id.
    MakeUser(UserInfo),
    /// Store the login for the user.
    StoreLogin(MinstrelUserId, Login),
    /// Delete the user.
    DeleteUser(MinstrelUserId),
    /// Answer whether the user exists.
    CheckUser(MinstrelUserId),
    /// Answer whether the user has a login of this kind already.
    CheckUserLogin(MinstrelUserId, LoginKind),
    /// Finished with this result.
    Done(Result<MinstrelUserId, UserMgmtError>),
}

/// What came back from a step.
#[derive(Debug, Clone, Copy, PartialEq, Eq, Structural)]
pub enum AccountEvent {
    /// The answer to a question.
    Answer(bool),
    /// The database failed to answer or to store.
    DbFailed,
    /// The new user's id.
    UserMade(MinstrelUserId),
    /// The login was stored.
    Stored,
    Deleted,
}

/// Where a registration is.
#[derive(Debug, Clone, Copy, PartialEq, Eq, Structural)]
pub enum RegisterStage {
    Checking,
    Making,
    Storing(MinstrelUserId),
    Deleting(MinstrelUserId),
    Finished,
}

/// Registering a new user with a first login.
#[derive(Debug)]
pub struct Registration {
    pub auth: AuthType,
    pub info: UserInfo,
    pub stage: RegisterStage,
}

/// The step that stores `auth` for `uid`, the password hashed.
pub open spec fn stores_login(auth: AuthType, uid: MinstrelUserId, s: AccountStep) -> bool {
    match auth {
        AuthType::Discord(did) => s == AccountStep::StoreLogin(uid, Login::Discord(did)),
        AuthType::UserAuth(name, pw) => s matches AccountStep::StoreLogin(u, Login::Password(n, h))
            && u == uid && n == name && is_hash_of(pw@, h@),
    }
}

/// The step finishes with `r`.
pub open spec fn finishes(s: AccountStep, r: Result<MinstrelUserId, UserMgmtError>) -> bool {
    s == AccountStep::Done(r)
}

/// One move of a registration: a login that is taken, or a failing
/// database, ends it; otherwise a user is made and the login stored; a user
/// whose login cannot be stored is deleted again. An event that does not answer the last step
/// ends it with `UnknownError`.
pub open spec fn register_moves(old: Registration, ev: AccountEvent, new: Registration, s: AccountStep) -> bool {
    &&& new.auth == old.auth
    &&& new.info == old.info
    &&& match (old.stage, ev) {
        (RegisterStage::Checking, AccountEvent::DbFailed) =>
            finishes(s, Err(UserMgmtError::DbError)) && new.stage == RegisterStage::Finished,
        (RegisterStage::Checking, AccountEvent::Answer(true)) =>
            finishes(s, Err(UserMgmtError::UserExists)) && new.stage == RegisterStage::Finished,
        (RegisterStage::Checking, AccountEvent::Answer(false)) =>
            s == AccountStep::MakeUser(old.info) && new.stage == RegisterStage::Making,
        (RegisterStage::Making, AccountEvent::UserMade(uid)) =>
            stores_login(old.auth, uid, s) && new.stage == RegisterStage::Storing(uid),
        (RegisterStage::Storing(uid), AccountEvent::Stored) =>
            finishes(s, Ok(uid)) && new.stage == RegisterStage::Finished,
        (RegisterStage::Storing(uid), AccountEvent::DbFailed) =>
            s == AccountStep::DeleteUser(uid) && new.stage == RegisterStage::Deleting(uid),
        (RegisterStage::Deleting(_), AccountEvent::Deleted) =>
            finishes(s, Err(UserMgmtError::DbError)) && new.stage == RegisterStage::Finished,
        _ => finishes(s, Err(UserMgmtError::UnknownError)) && new.stage == RegisterStage::Finished,
    }
}

/// The step that stores `auth` for `uid`, the password, if any, hashed.
fn store_step(auth: &AuthType, uid: MinstrelUserId) -> (s: AccountStep)
    ensures
        stores_login(*auth, uid, s),
{
    match auth {
        AuthType::Discord(did) => AccountStep::StoreLogin(uid, Login::Discord(*did)),
        AuthType::UserAuth(name, pw) => match hash_password(pw) {
            Ok(h) => AccountStep::StoreLogin(uid, Login::Password(name.clone(), h)),
            Err(_) => AccountStep::Done(Err(UserMgmtError::UnknownError)),
        },
    }
}

impl Registration {
    /// Starts registering `auth` for a new user shown as `info`: the first
    /// step asks whether the login is taken.
    pub fn start(auth: AuthType, info: UserInfo) -> (r: (Registration, AccountStep))
        ensures
            r.0.auth == auth,
            r.0.info == info,
            r.0.stage == RegisterStage::Checking,
            r.1 == AccountStep::CheckLogin(auth),
    {
        let step = AccountStep::CheckLogin(auth.clone());
        (Registration { auth, info, stage: RegisterStage::Checking }, step)
    }

    /// Takes what came back from the last step and gives the next one.
    pub fn step(&mut self, ev: AccountEvent) -> (s: AccountStep)
        ensures
            register_moves(*old(self), ev, *final(self), s),
    {
        match (self.stage, ev) {
            (RegisterStage::Checking, AccountEvent::DbFailed) => {
                self.stage = RegisterStage::Finished;
                AccountStep::Done(Err(UserMgmtError::DbError))
            },
            (RegisterStage::Checking, AccountEvent::Answer(true)) => {
                self.stage = RegisterStage::Finished;
                AccountStep::Done(Err(UserMgmtError::UserExists))
            },
            (RegisterStage::Checking, AccountEvent::Answer(false)) => {
                self.stage = RegisterStage::Making;
                AccountStep::MakeUser(self.info.clone())
            },
            (RegisterStage::Making, AccountEvent::UserMade(uid)) => {
                self.stage = RegisterStage::Storing(uid);
                store_step(&self.auth, uid)
            },
            (RegisterStage::Storing(uid), AccountEvent::Stored) => {
                self.stage = RegisterStage::Finished;
                AccountStep::Done(Ok(uid))
            },
            (RegisterStage::Storing(uid), AccountEvent::DbFailed) => {
                self.stage = RegisterStage::Deleting(uid);
                AccountStep::DeleteUser(uid)
            },
            (RegisterStage::Deleting(_), AccountEvent::Deleted) => {
                self.stage = RegisterStage::Finished;
                AccountStep::Done(Err(UserMgmtError::DbError))
            },
            _ => {
                self.stage = RegisterStage::Finished;
                AccountStep::Done(Err(UserMgmtError::UnknownError))
            },
        }
    }
}

/// Where a linking is.
#[derive(Debug, Clone, Copy, PartialEq, Eq, Structural)]
pub enum LinkStage {
    CheckingUser(MinstrelUserId),
    CheckingLogin(MinstrelUserId),
    Storing(MinstrelUserId),
    Finished,
}

/// Adding a second login to the user a link code points to.
#[derive(Debug)]
pub struct Linking {
    pub auth: AuthType,
    pub stage: LinkStage,
}

/// One move of a linking: a failing database ends it with `DbError`; a user
/// that does not exist, or that has a login of this kind already, ends it;
/// otherwise the login is stored. An event that does not answer the last step ends it with
/// `UnknownError`.
pub open spec fn link_moves(old: Linking, ev: AccountEvent, new: Linking, s: AccountStep) -> bool {
    &&& new.auth == old.auth
    &&& match (old.stage, ev) {
        (LinkStage::CheckingUser(_), AccountEvent::DbFailed) =>
            finishes(s, Err(UserMgmtError::DbError)) && new.stage == LinkStage::Finished,
        (LinkStage::CheckingUser(_), AccountEvent::Answer(false)) =>
            finishes(s, Err(UserMgmtError::UserDoesNotExist)) && new.stage == LinkStage::Finished,
        (LinkStage::CheckingUser(u), AccountEvent::Answer(true)) =>
            s == AccountStep::CheckUserLogin(u, kind_of(old.auth)) && new.stage == LinkStage::CheckingLogin(u),
        (LinkStage::CheckingLogin(_), AccountEvent::DbFailed) =>
            finishes(s, Err(UserMgmtError::DbError)) && new.stage == LinkStage::Finished,
        (LinkStage::CheckingLogin(_), AccountEvent::Answer(true)) =>
            finishes(s, Err(UserMgmtError::UserExists)) && new.stage == LinkStage::Finished,
        (LinkStage::CheckingLogin(u), AccountEvent::Answer(false)) =>
            stores_login(old.auth, u, s) && new.stage == LinkStage::Storing(u),
        (LinkStage::Storing(u), AccountEvent::Stored) =>
            finishes(s, Ok(u)) && new.stage == LinkStage::Finished,
        (LinkStage::Storing(_), AccountEvent::DbFailed) =>
            finishes(s, Err(UserMgmtError::DbError)) && new.stage == LinkStage::Finished,
        _ => finishes(s, Err(UserMgmtError::UnknownError)) && new.stage == LinkStage::Finished,
    }
}

impl Linking {
    /// Starts linking `auth` to the user of the code `link`, using up the
    /// code at `now`: an unknown or expired code ends it at once with
    /// `InvalidLink`; otherwise the first step asks whether the user exists.
    pub fn start(links: &mut LinkTable, link: u64, now: u64, timeout: u64, auth: AuthType) -> (r: (Linking, AccountStep))
        requires
            old(links).wf(),
        ensures
            final(links).wf(),
            r.0.auth == auth,
            exists|t: Result<MinstrelUserId, UserMgmtError>|
                #[trigger] take_link_outcome(old(links).entries(), final(links).entries(), link, now, timeout, t)
                && match t {
                    Ok(u) => r.0.stage == LinkStage::CheckingUser(u) && r.1 == AccountStep::CheckUser(u),
                    Err(e) => r.0.stage == LinkStage::Finished && finishes(r.1, Err(e)),
                },
    {
        let t = links.take_link(link, now, timeout);
        let r = match t {
            Ok(u) => (Linking { auth, stage: LinkStage::CheckingUser(u) }, AccountStep::CheckUser(u)),
            Err(e) => (Linking { auth, stage: LinkStage::Finished }, AccountStep::Done(Err(e))),
        };
        proof {
            assert(take_link_outcome(old(links).entries(), links.entries(), link, now, timeout, t));
        }
        r
    }

    /// Takes what came back from the last step and gives the next one.
    pub fn step(&mut self, ev: AccountEvent) -> (s: AccountStep)
        ensures
            link_moves(*old(self), ev, *final(self), s),
    {
        match (self.stage, ev) {
            (LinkStage::CheckingUser(_), AccountEvent::DbFailed) => {
                self.stage = LinkStage::Finished;
                AccountStep::Done(Err(UserMgmtError::DbError))
            },
            (LinkStage::CheckingUser(_), AccountEvent::Answer(false)) => {
                self.stage = LinkStage::Finished;
                AccountStep::Done(Err(UserMgmtError::UserDoesNotExist))
            },
            (LinkStage::CheckingUser(u), AccountEvent::Answer(true)) => {
                self.stage = LinkStage::CheckingLogin(u);
                let kind = match &self.auth {
                    AuthType::UserAuth(_, _) => LoginKind::Password,
                    AuthType::Discord(_) => LoginKind::Discord,
                };
                AccountStep::CheckUserLogin(u, kind)
            },
            (LinkStage::CheckingLogin(_), AccountEvent::DbFailed) => {
                self.stage = LinkStage::Finished;
                AccountStep::Done(Err(UserMgmtError::DbError))
            },
            (LinkStage::CheckingLogin(_), AccountEvent::Answer(true)) => {
                self.stage = LinkStage::Finished;
                AccountStep::Done(Err(UserMgmtError::UserExists))
            },
            (LinkStage::CheckingLogin(u), AccountEvent::Answer(false)) => {
                self.stage = LinkStage::Storing(u);
                store_step(&self.auth, u)
            },
            (LinkStage::Storing(u), AccountEvent::Stored) => {
                self.stage = LinkStage::Finished;
                AccountStep::Done(Ok(u))
            },
            (LinkStage::Storing(_), AccountEvent::DbFailed) => {
                self.stage = LinkStage::Finished;
                AccountStep::Done(Err(UserMgmtError::DbError))
            },
            _ => {
                self.stage = LinkStage::Finished;
                AccountStep::Done(Err(UserMgmtError::UnknownError))
            },
        }
    }
}

} // verus!

verus! {

/// Once the user a code points to is known to exist, a linking asks whether
/// they already have a login of the new login's kind: a password login for a
/// user name and password, a Discord login for a Discord account.
pub proof fn law_link_checks_kind_of_new_login(old: Linking, new: Linking, u: MinstrelUserId, s: AccountStep)
    requires
        old.stage == LinkStage::CheckingUser(u),
        link_moves(old, AccountEvent::Answer(true), new, s),
    ensures
        old.auth is UserAuth ==> s == AccountStep::CheckUserLogin(u, LoginKind::Password),
        old.auth is Discord ==> s == AccountStep::CheckUserLogin(u, LoginKind::Discord),
        new.stage == LinkStage::CheckingLogin(u),
{
}

/// A registration whose login is free makes a user shown exactly as the
/// `UserInfo` it was started with, whatever the kind of login; the info is
/// kept unchanged through every move.
pub proof fn law_register_makes_user_as_given(old: Registration, new: Registration, ev: AccountEvent, s: AccountStep)
    requires
        register_moves(old, ev, new, s),
    ensures
        new.info == old.info,
        new.auth == old.auth,
        old.stage == RegisterStage::Checking && ev == AccountEvent::Answer(false) ==>
            (s matches AccountStep::MakeUser(i) && i.displayname == old.info.displayname && i.icon == old.info.icon),
{
}

/// The first step of a registration keeps the info it is given.
pub proof fn law_registration_starts_with_info(auth: AuthType, info: UserInfo, r: (Registration, AccountStep))
    requires
        r.0.auth == auth,
        r.0.info == info,
        r.0.stage == RegisterStage::Checking,
    ensures
        forall|new: Registration, s: AccountStep| #[trigger] register_moves(r.0, AccountEvent::Answer(false), new, s)
            ==> (s matches AccountStep::MakeUser(i) && i.displayname == info.displayname && i.icon == info.icon),
{
}

} // verus!
