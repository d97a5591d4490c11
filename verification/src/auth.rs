//! How far a connection has authenticated.
use crate::protocol::UserId;
use vstd::prelude::*;

verus! {

/// The authentication state of one connection.
#[derive(Debug)]
pub enum ConnAuth {
    Anonymous,
    /// A challenge was issued and awaits its signature.
    Pending { user_id: UserId, challenge: Vec<u8> },
    Auth { user_id: UserId },
}

pub enum ConnAuthView {
    Anonymous,
    Pending { user_id: UserId, challenge: Seq<u8> },
    Auth { user_id: UserId },
}

impl View for ConnAuth {
    type V = ConnAuthView;

    open spec fn view(&self) -> ConnAuthView {
        match self {
            ConnAuth::Anonymous => ConnAuthView::Anonymous,
            ConnAuth::Pending { user_id, challenge } => ConnAuthView::Pending {
                user_id: *user_id,
                challenge: challenge@,
            },
            ConnAuth::Auth { user_id } => ConnAuthView::Auth { user_id: *user_id },
        }
    }
}

impl ConnAuthView {
    /// The authenticated user, if there is one.
    pub open spec fn user(self) -> Option<UserId> {
        match self {
            ConnAuthView::Auth { user_id } => Some(user_id),
            _ => None,
        }
    }
}

impl ConnAuth {
    /// The authenticated user, if there is one.
    pub fn user(&self) -> (user: Option<UserId>)
        ensures
            user == self@.user(),
    {
        match self {
            ConnAuth::Auth { user_id } => Some(*user_id),
            _ => None,
        }
    }
}

} // verus!
