//! Requests and replies exchanged with the web front end.

use vstd::prelude::*;
use crate::model::Requester;

verus! {

/// The payload of a reply.
#[derive(Debug)]
pub enum ReplyData {
    UserInfo(Requester),
    LinkInfo(u64),
}

impl Clone for ReplyData {
    fn clone(&self) -> (r: Self)
        ensures
            r == *self,
    {
        match self {
            ReplyData::UserInfo(u) => ReplyData::UserInfo(u.clone()),
            ReplyData::LinkInfo(l) => ReplyData::LinkInfo(*l),
        }
    }
}

/// A reply: an HTTP-like status, an error text (empty on success) and an
/// optional payload.
#[derive(Debug)]
pub struct ReplyStatus {
    pub status: u16,
    pub error: String,
    pub data: Option<ReplyData>,
}

impl Clone for ReplyStatus {
    fn clone(&self) -> (r: Self)
        ensures
            r == *self,
    {
        let data = match &self.data {
            Some(d) => Some(d.clone()),
            None => None,
        };
        ReplyStatus { status: self.status, error: self.error.clone(), data }
    }
}

/// Logging in with a username and password.
#[derive(Debug)]
pub struct LoginRequest {
    pub username: String,
    pub password: String,
}

impl Clone for LoginRequest {
    fn clone(&self) -> (r: Self)
        ensures
            r == *self,
    {
        LoginRequest { username: self.username.clone(), password: self.password.clone() }
    }
}

/// Creating an account.
#[derive(Debug)]
pub struct RegisterRequest {
    pub username: String,
    pub password: String,
    pub displayname: String,
    pub icon: Option<String>,
}

impl Clone for RegisterRequest {
    fn clone(&self) -> (r: Self)
        ensures
            r == *self,
    {
        let icon = match &self.icon {
            Some(i) => Some(i.clone()),
            None => None,
        };
        RegisterRequest {
            username: self.username.clone(),
            password: self.password.clone(),
            displayname: self.displayname.clone(),
            icon,
        }
    }
}

/// Linking an account to a chat identity with a link code.
#[derive(Debug)]
pub struct LinkRequest {
    pub username: String,
    pub password: String,
    pub link: u64,
}

impl Clone for LinkRequest {
    fn clone(&self) -> (r: Self)
        ensures
            r == *self,
    {
        LinkRequest { username: self.username.clone(), password: self.password.clone(), link: self.link }
    }
}

/// Moving the song `index` places ahead to the end of one's autoplay playlist.
#[derive(Debug, Clone, Copy)]
pub struct ApBumpRequest {
    pub index: usize,
}

/// Turning one's autoplay enrolment on or off.
#[derive(Debug, Clone, Copy)]
pub struct ApToggleRequest {
    pub enabled: bool,
}

} // verus!
