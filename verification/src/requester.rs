//! The music core's own record of who asked for a song.

use vstd::prelude::*;

verus! {

/// Identifier of a user, as the music core names it.
pub type MinstrelUserId = crate::model::MinstrelUserId;

/// Who asked for a song.
#[derive(Debug)]
pub struct Requester {
    pub username: String,
    pub displayname: String,
    pub icon: String,
    pub id: MinstrelUserId,
}

impl From<Requester> for crate::model::Requester {
    fn from(req: Requester) -> (r: Self) {
        crate::model::Requester {
            username: req.username,
            displayname: req.displayname,
            icon: req.icon,
            id: req.id,
        }
    }
}

impl vstd::std_specs::convert::FromSpecImpl<Requester> for crate::model::Requester {
    open spec fn obeys_from_spec() -> bool {
        true
    }

    open spec fn from_spec(req: Requester) -> Self {
        crate::model::Requester {
            username: req.username,
            displayname: req.displayname,
            icon: req.icon,
            id: req.id,
        }
    }
}

impl From<crate::model::Requester> for Requester {
    fn from(req: crate::model::Requester) -> (r: Self) {
        Requester {
            username: req.username,
            displayname: req.displayname,
            icon: req.icon,
            id: req.id,
        }
    }
}

impl vstd::std_specs::convert::FromSpecImpl<crate::model::Requester> for Requester {
    open spec fn obeys_from_spec() -> bool {
        true
    }

    open spec fn from_spec(req: crate::model::Requester) -> Self {
        Requester {
            username: req.username,
            displayname: req.displayname,
            icon: req.icon,
            id: req.id,
        }
    }
}

} // verus!
