//! What each request does at the development relay.
use crate::connection::{SocketEventView, StepView};
use crate::encoding::{b64_decoding, b64_encoding};
use crate::fresh::FreshView;
use crate::model::{is_fan_out, is_roster, lists, pushed};
use crate::outside::utf8_lossy;
use crate::protocol::{
    member_view, ClientMessageView, ConnId, DeliveryView, Epoch, ServerId, ServerInfoView,
    ServerMessageView, StoredMessageView, UserId, UserRecordView,
};
use crate::rules::{registered, reply, stored};
use vstd::prelude::*;

verus! {

/// A channel of the relay.
#[verifier::ext_equal]
pub struct RelayChannelView {
    pub name: Seq<char>,
    pub owner_id: UserId,
    pub epoch: Epoch,
    pub members: Set<UserId>,
    pub messages: Seq<StoredMessageView>,
}

/// Everything that the relay keeps.
#[verifier::ext_equal]
pub struct HubView {
    pub users: Map<UserId, UserRecordView>,
    pub channels: Map<ServerId, RelayChannelView>,
    pub online: Map<UserId, ConnId>,
}

/// How far a connection to the relay has authenticated: as whom, and for whom a
/// challenge is out.
pub struct RelayAuthView {
    pub me: Option<UserId>,
    pub pending: Option<UserId>,
}

impl HubView {
    pub open spec fn empty() -> HubView {
        HubView { users: Map::empty(), channels: Map::empty(), online: Map::empty() }
    }

    pub open spec fn with_channel(self, id: ServerId, channel: RelayChannelView) -> HubView {
        HubView { channels: self.channels.insert(id, channel), ..self }
    }
}

impl RelayChannelView {
    pub open spec fn created(name: Seq<char>, owner_id: UserId) -> RelayChannelView {
        RelayChannelView {
            name,
            owner_id,
            epoch: 0,
            members: Set::empty().insert(owner_id),
            messages: Seq::empty(),
        }
    }

    /// The channel once a user has asked to join, member or not.
    pub open spec fn joined(self, user: UserId) -> RelayChannelView {
        RelayChannelView {
            members: self.members.insert(user),
            epoch: (self.epoch + 1) as Epoch,
            ..self
        }
    }

    /// The channel once a user has asked to leave, member or not.
    pub open spec fn left(self, user: UserId) -> RelayChannelView {
        RelayChannelView {
            members: self.members.remove(user),
            epoch: (self.epoch + 1) as Epoch,
            ..self
        }
    }

    pub open spec fn posted(self, message: StoredMessageView) -> RelayChannelView {
        RelayChannelView { messages: self.messages.push(message), ..self }
    }

    pub open spec fn info(self, server_id: ServerId) -> ServerInfoView {
        ServerInfoView {
            server_id,
            name: self.name,
            owner_id: self.owner_id,
            member_count: self.members.len(),
        }
    }
}

/// Whether a list has one line for each channel, in an order that nothing fixes.
pub open spec fn is_relay_listing(
    list: Seq<ServerInfoView>,
    channels: Map<ServerId, RelayChannelView>,
) -> bool {
    exists|order: Seq<ServerId>| #[trigger]
        lists(order, channels.dom()) && list == order.map_values(
            |id: ServerId| channels[id].info(id),
        )
}

/// The users online whose connection is another than this one.
pub open spec fn connected_elsewhere(
    online: Map<UserId, ConnId>,
    conn: ConnId,
) -> Map<UserId, ConnId> {
    Map::new(
        |user: UserId| online.contains_key(user) && online[user] != conn,
        |user: UserId| online[user],
    )
}

/// The relay's state once a connection has ended: everyone whose frames went to it is
/// offline.
pub open spec fn relay_disconnected(hub: HubView, conn: ConnId) -> HubView {
    HubView { online: connected_elsewhere(hub.online, conn), ..hub }
}

/// What a text decodes to, or nothing if it is not base64.
pub open spec fn decoded_or_empty(text: Seq<char>) -> Seq<u8> {
    match b64_decoding(text) {
        Some(bytes) => bytes,
        None => Seq::empty(),
    }
}

/// Why a request is answered with an error, if it is.
pub open spec fn relay_error(hub: HubView, auth: RelayAuthView, req: ClientMessageView) -> Option<
    Seq<char>,
> {
    match req {
        ClientMessageView::Register { .. }
        | ClientMessageView::ListServers
        | ClientMessageView::Ping => None,
        ClientMessageView::AuthBegin { user_id }
        | ClientMessageView::LookupUser { user_id } => if hub.users.contains_key(user_id) {
            None
        } else {
            Some("unknown user"@)
        },
        ClientMessageView::AuthFinish { .. } => if auth.pending is Some {
            None
        } else {
            Some("no auth in progress"@)
        },
        ClientMessageView::CreateServer { .. }
        | ClientMessageView::DistributeKey { .. } => if auth.me is Some {
            None
        } else {
            Some("not authenticated"@)
        },
        ClientMessageView::JoinServer { server_id }
        | ClientMessageView::LeaveServer { server_id } => if auth.me is None {
            Some("not authenticated"@)
        } else if !hub.channels.contains_key(server_id) {
            Some("no such server"@)
        } else {
            None
        },
        ClientMessageView::SendMessage { server_id, .. } => if auth.me is None {
            Some("not authenticated"@)
        } else if !hub.channels.contains_key(server_id) {
            Some("no such server"@)
        } else if !hub.channels[server_id].members.contains(auth.me->0) {
            Some("not a member"@)
        } else {
            None
        },
        ClientMessageView::ListMembers { server_id }
        | ClientMessageView::GetHistory { server_id } => if hub.channels.contains_key(server_id) {
            None
        } else {
            Some("no such server"@)
        },
    }
}

/// The relay's state after a request that is not answered with an error.
pub open spec fn relay_next(
    hub: HubView,
    auth: RelayAuthView,
    conn: ConnId,
    req: ClientMessageView,
    fresh: FreshView,
) -> HubView {
    match req {
        ClientMessageView::Register { display_name, kem_public_key, sig_public_key } => HubView {
            users: hub.users.insert(
                fresh.id,
                registered(
                    display_name,
                    decoded_or_empty(kem_public_key),
                    decoded_or_empty(sig_public_key),
                    fresh,
                ),
            ),
            ..hub
        },
        ClientMessageView::AuthFinish { .. } => HubView {
            online: hub.online.insert(auth.pending->0, conn),
            ..hub
        },
        ClientMessageView::CreateServer { name } => hub.with_channel(
            fresh.id,
            RelayChannelView::created(name, auth.me->0),
        ),
        ClientMessageView::JoinServer { server_id } => hub.with_channel(
            server_id,
            hub.channels[server_id].joined(auth.me->0),
        ),
        ClientMessageView::LeaveServer { server_id } => hub.with_channel(
            server_id,
            hub.channels[server_id].left(auth.me->0),
        ),
        ClientMessageView::SendMessage { server_id, epoch, nonce, ciphertext, signature } => {
            hub.with_channel(
                server_id,
                hub.channels[server_id].posted(
                    stored(
                        auth.me->0,
                        epoch,
                        decoded_or_empty(nonce),
                        decoded_or_empty(ciphertext),
                        decoded_or_empty(signature),
                        fresh,
                    ),
                ),
            )
        },
        _ => hub,
    }
}

/// The connection's authentication after a request that is not answered with an
/// error. The signature over the challenge is not checked.
pub open spec fn relay_next_auth(auth: RelayAuthView, req: ClientMessageView) -> RelayAuthView {
    match req {
        ClientMessageView::AuthBegin { user_id } => RelayAuthView {
            pending: Some(user_id),
            ..auth
        },
        ClientMessageView::AuthFinish { .. } => RelayAuthView { me: auth.pending, pending: None },
        _ => auth,
    }
}

/// What a join sends: the full roster to the joiner, then the news to every other
/// member that is online.
pub open spec fn relay_join_sent(
    after: HubView,
    me: UserId,
    conn: ConnId,
    server_id: ServerId,
    sent: Seq<DeliveryView>,
) -> bool {
    let channel = after.channels[server_id];
    &&& sent.len() >= 1
    &&& sent[0].to == conn
    &&& sent[0].msg matches ServerMessageView::ServerJoined { server_id: id, epoch, members }
    &&& id == server_id
    &&& epoch == channel.epoch
    &&& is_roster(members, after.users, channel.members)
    &&& if after.users.contains_key(me) {
        is_fan_out(
            sent.skip(1),
            after.online,
            channel.members,
            Some(me),
            ServerMessageView::MemberJoined {
                server_id,
                member: member_view(after.users[me]),
                epoch: channel.epoch,
            },
        )
    } else {
        sent.len() == 1
    }
}

/// What a leave sends: an acknowledgement, then the news to every remaining member
/// that is online.
pub open spec fn relay_leave_sent(
    after: HubView,
    me: UserId,
    conn: ConnId,
    server_id: ServerId,
    sent: Seq<DeliveryView>,
) -> bool {
    let channel = after.channels[server_id];
    &&& sent.len() >= 1
    &&& sent[0] == DeliveryView { to: conn, msg: ServerMessageView::ServerLeft { server_id } }
    &&& is_fan_out(
        sent.skip(1),
        after.online,
        channel.members,
        None,
        ServerMessageView::MemberLeft { server_id, user_id: me, epoch: channel.epoch },
    )
}

/// What a request sends that is not answered with an error, given the state after it.
pub open spec fn relay_sent(
    after: HubView,
    auth: RelayAuthView,
    conn: ConnId,
    req: ClientMessageView,
    fresh: FreshView,
    sent: Seq<DeliveryView>,
) -> bool {
    match req {
        ClientMessageView::Register { .. } => sent == reply(
            conn,
            ServerMessageView::Registered { user_id: fresh.id },
        ),
        ClientMessageView::AuthBegin { .. } => sent == reply(
            conn,
            ServerMessageView::AuthChallenge { nonce: b64_encoding(fresh.challenge) },
        ),
        ClientMessageView::AuthFinish { .. } => sent == reply(
            conn,
            ServerMessageView::Authenticated { user_id: auth.pending->0 },
        ),
        ClientMessageView::CreateServer { .. } => sent == reply(
            conn,
            ServerMessageView::ServerCreated { server_id: fresh.id, epoch: 0 },
        ),
        ClientMessageView::JoinServer { server_id } => relay_join_sent(
            after,
            auth.me->0,
            conn,
            server_id,
            sent,
        ),
        ClientMessageView::LeaveServer { server_id } => relay_leave_sent(
            after,
            auth.me->0,
            conn,
            server_id,
            sent,
        ),
        ClientMessageView::DistributeKey { server_id, target_user_id, epoch, wrapped_key } => sent
            == pushed(
            after.online,
            target_user_id,
            ServerMessageView::KeyMaterial {
                server_id,
                from_user: auth.me->0,
                epoch,
                wrapped_key,
            },
        ),
        ClientMessageView::SendMessage { server_id, epoch, nonce, ciphertext, signature } => {
            is_fan_out(
                sent,
                after.online,
                after.channels[server_id].members,
                None,
                ServerMessageView::NewMessage {
                    server_id,
                    message_id: fresh.id,
                    sender: auth.me->0,
                    epoch,
                    nonce,
                    ciphertext,
                    signature,
                    timestamp: fresh.now,
                },
            )
        },
        ClientMessageView::ListServers => {
            &&& sent.len() == 1
            &&& sent[0].to == conn
            &&& sent[0].msg matches ServerMessageView::ServerList { servers }
            &&& is_relay_listing(servers, after.channels)
        },
        ClientMessageView::ListMembers { server_id } => {
            &&& sent.len() == 1
            &&& sent[0].to == conn
            &&& sent[0].msg matches ServerMessageView::MemberList { server_id: id, members }
            &&& id == server_id
            &&& is_roster(members, after.users, after.channels[server_id].members)
        },
        ClientMessageView::GetHistory { server_id } => sent == reply(
            conn,
            ServerMessageView::History { server_id, messages: after.channels[server_id].messages },
        ),
        ClientMessageView::LookupUser { user_id } => sent == reply(
            conn,
            ServerMessageView::UserInfo { user: after.users[user_id] },
        ),
        ClientMessageView::Ping => sent == reply(conn, ServerMessageView::Pong),
    }
}

/// What a request on a connection does. One that is answered with an error changes
/// nothing.
pub open spec fn relayed(
    hub: HubView,
    auth: RelayAuthView,
    conn: ConnId,
    req: ClientMessageView,
    fresh: FreshView,
    after: HubView,
    auth_after: RelayAuthView,
    sent: Seq<DeliveryView>,
) -> bool {
    match relay_error(hub, auth, req) {
        Some(reason) => {
            &&& after == hub
            &&& auth_after == auth
            &&& sent == reply(conn, ServerMessageView::Error { reason })
        },
        None => {
            &&& after == relay_next(hub, auth, conn, req, fresh)
            &&& auth_after == relay_next_auth(auth, req)
            &&& relay_sent(after, auth, conn, req, fresh, sent)
        },
    }
}

/// Whether the epoch that a request would bump, if any, can be bumped.
pub open spec fn relay_epoch_room(hub: HubView, auth: RelayAuthView, req: ClientMessageView) -> bool {
    match req {
        ClientMessageView::JoinServer { server_id }
        | ClientMessageView::LeaveServer { server_id } => {
            auth.me is Some && hub.channels.contains_key(server_id)
                ==> hub.channels[server_id].epoch < Epoch::MAX
        },
        _ => true,
    }
}

/// What a socket event calls for at the relay. A binary frame is read as text, with
/// replacement characters where it is not UTF-8; pings are left to the socket.
pub open spec fn relay_step_for(event: SocketEventView) -> StepView {
    match event {
        SocketEventView::End | SocketEventView::Failed | SocketEventView::Close => StepView::Stop,
        SocketEventView::Text(text) => StepView::Request(text),
        SocketEventView::Binary(bytes) => StepView::Request(utf8_lossy(bytes)),
        SocketEventView::Ping(_) | SocketEventView::Other => StepView::Skip,
    }
}

} // verus!
