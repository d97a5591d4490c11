//! The shared state as mathematics, and what it means to push frames to users.
use crate::protocol::{
    member_view, ConnId, DeliveryView, Epoch, MemberInfoView, ServerId, ServerInfoView,
    ServerMessageView, StoredMessageView, UserId, UserRecordView,
};
use crate::state::Session;
use vstd::prelude::*;

verus! {

/// The most messages that a channel's history keeps.
pub const MAX_HISTORY: usize = 500;

/// A channel.
#[verifier::ext_equal]
pub struct ChannelView {
    pub server_id: ServerId,
    pub name: Seq<char>,
    pub owner_id: UserId,
    pub members: Set<UserId>,
    pub epoch: Epoch,
    pub history: Seq<StoredMessageView>,
}

/// Everything that the relay keeps: registered users, channels, and the sessions of
/// the users that are online.
#[verifier::ext_equal]
pub struct AppStateView {
    pub users: Map<UserId, UserRecordView>,
    pub channels: Map<ServerId, ChannelView>,
    pub online: Map<UserId, Session>,
}

impl ChannelView {
    /// A new channel: its creator is the sole member, at epoch zero.
    pub open spec fn created(server_id: ServerId, name: Seq<char>, owner_id: UserId) -> ChannelView {
        ChannelView {
            server_id,
            name,
            owner_id,
            members: Set::empty().insert(owner_id),
            epoch: 0,
            history: Seq::empty(),
        }
    }

    /// The channel once a user has joined.
    pub open spec fn joined(self, user: UserId) -> ChannelView {
        ChannelView {
            members: self.members.insert(user),
            epoch: (self.epoch + 1) as Epoch,
            ..self
        }
    }

    /// The channel once a user has left.
    pub open spec fn left(self, user: UserId) -> ChannelView {
        ChannelView {
            members: self.members.remove(user),
            epoch: (self.epoch + 1) as Epoch,
            ..self
        }
    }

    /// The channel once a message was added to its history.
    pub open spec fn posted(self, message: StoredMessageView) -> ChannelView {
        ChannelView { history: most_recent(self.history.push(message)), ..self }
    }

    /// The channel's line in a listing.
    pub open spec fn info(self) -> ServerInfoView {
        ServerInfoView {
            server_id: self.server_id,
            name: self.name,
            owner_id: self.owner_id,
            member_count: self.members.len(),
        }
    }
}

impl AppStateView {
    /// A relay that has just started.
    pub open spec fn empty() -> AppStateView {
        AppStateView { users: Map::empty(), channels: Map::empty(), online: Map::empty() }
    }

    /// Which connection each online user's frames go to.
    pub open spec fn queues(self) -> Map<UserId, ConnId> {
        Map::new(|u: UserId| self.online.contains_key(u), |u: UserId| self.online[u].conn)
    }

    pub open spec fn with_user(self, user: UserRecordView) -> AppStateView {
        AppStateView { users: self.users.insert(user.user_id, user), ..self }
    }

    pub open spec fn with_session(self, user: UserId, conn: ConnId) -> AppStateView {
        AppStateView {
            online: self.online.insert(user, Session { user_id: user, conn }),
            ..self
        }
    }

    pub open spec fn with_channel(self, id: ServerId, channel: ChannelView) -> AppStateView {
        AppStateView { channels: self.channels.insert(id, channel), ..self }
    }

    pub open spec fn is_member(self, id: ServerId, user: UserId) -> bool {
        self.channels.contains_key(id) && self.channels[id].members.contains(user)
    }
}

/// The end of a message log that a history keeps.
pub open spec fn most_recent(log: Seq<StoredMessageView>) -> Seq<StoredMessageView> {
    if log.len() > MAX_HISTORY {
        log.skip(log.len() - MAX_HISTORY)
    } else {
        log
    }
}

/// The sessions that are on another connection than this one.
pub open spec fn sessions_elsewhere(
    online: Map<UserId, Session>,
    conn: ConnId,
) -> Map<UserId, Session> {
    Map::new(
        |user: UserId| online.contains_key(user) && online[user].conn != conn,
        |user: UserId| online[user],
    )
}

/// Whether a sequence lists a set, each element once. A hash set is walked in an
/// order that nothing fixes: some order that lists it.
pub open spec fn lists<A>(order: Seq<A>, set: Set<A>) -> bool {
    order.no_duplicates() && order.to_set() == set
}

/// Pushing a frame to a user: it goes to that user's queue, or nowhere if the user is
/// offline.
pub open spec fn pushed(
    queues: Map<UserId, ConnId>,
    user: UserId,
    msg: ServerMessageView,
) -> Seq<DeliveryView> {
    if queues.contains_key(user) {
        seq![DeliveryView { to: queues[user], msg }]
    } else {
        Seq::empty()
    }
}

/// Pushing a frame to a list of users in turn, all but one.
pub open spec fn fanned_out(
    queues: Map<UserId, ConnId>,
    users: Seq<UserId>,
    except: Option<UserId>,
    msg: ServerMessageView,
) -> Seq<DeliveryView>
    decreases users.len(),
{
    if users.len() == 0 {
        Seq::empty()
    } else {
        fanned_out(queues, users.drop_last(), except, msg) + if except == Some(users.last()) {
            Seq::empty()
        } else {
            pushed(queues, users.last(), msg)
        }
    }
}

/// Whether some deliveries push a frame to all of a set of users but one, in an order
/// that nothing fixes.
pub open spec fn is_fan_out(
    deliveries: Seq<DeliveryView>,
    queues: Map<UserId, ConnId>,
    users: Set<UserId>,
    except: Option<UserId>,
    msg: ServerMessageView,
) -> bool {
    exists|order: Seq<UserId>| #[trigger]
        lists(order, users) && deliveries == fanned_out(queues, order, except, msg)
}

/// What members are shown of a list of users: those among them that are registered.
pub open spec fn roster(users: Map<UserId, UserRecordView>, ids: Seq<UserId>) -> Seq<MemberInfoView>
    decreases ids.len(),
{
    if ids.len() == 0 {
        Seq::empty()
    } else {
        roster(users, ids.drop_last()) + if users.contains_key(ids.last()) {
            seq![member_view(users[ids.last()])]
        } else {
            Seq::empty()
        }
    }
}

/// Whether a list is the roster of a set of users, in an order that nothing fixes.
pub open spec fn is_roster(
    list: Seq<MemberInfoView>,
    users: Map<UserId, UserRecordView>,
    members: Set<UserId>,
) -> bool {
    exists|order: Seq<UserId>| #[trigger] lists(order, members) && list == roster(users, order)
}

/// Whether a list has one line for each channel, in an order that nothing fixes.
pub open spec fn is_listing(
    list: Seq<ServerInfoView>,
    channels: Map<ServerId, ChannelView>,
) -> bool {
    exists|order: Seq<ServerId>| #[trigger]
        lists(order, channels.dom()) && list == order.map_values(|id: ServerId| channels[id].info())
}

} // verus!
