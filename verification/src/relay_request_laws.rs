//! What every request to the development relay comes to, told by what can be seen: the
//! fields of its state before and after it, and the frames that arrive.
use crate::connection::{SocketEventView, StepView};
use crate::encoding::b64_encoding;
use crate::fresh::FreshView;
use crate::model::lists;
use crate::outside::utf8_lossy;
use crate::protocol::{
    ClientMessageView, ConnId, DeliveryView, Epoch, MemberInfoView, ServerId, ServerInfoView,
    ServerMessageView, StoredMessageView, UserId,
};
use crate::relay_laws::hub_wf;
use crate::relay_rules::{
    is_relay_listing, relay_disconnected, relay_epoch_room, relay_step_for, relayed, HubView,
    RelayAuthView, RelayChannelView,
};
use crate::request_laws::{
    answered_with, fan_out_reaches, reaches, reaching_all_but_one, reading_is_decoding, reads,
    roster_shows_members, shows_members,
};
use vstd::prelude::*;

verus! {

/// Nothing changes, and the requester, and nobody else, is told why.
pub open spec fn relay_refused_with(
    hub: HubView,
    auth: RelayAuthView,
    conn: ConnId,
    after: HubView,
    auth_after: RelayAuthView,
    sent: Seq<DeliveryView>,
    reason: Seq<char>,
) -> bool {
    &&& after == hub
    &&& auth_after == auth
    &&& answered_with(sent, conn, ServerMessageView::Error { reason })
}

/// The bytes that a text reads as, or none at all.
pub open spec fn bytes_or_nothing(bytes: Option<Seq<u8>>) -> Seq<u8> {
    match bytes {
        Some(b) => b,
        None => Seq::empty(),
    }
}

/// Only one channel differs, and in nothing but its members, its epoch and its messages.
pub open spec fn relay_changes_only(hub: HubView, after: HubView, id: ServerId) -> bool {
    &&& after.users == hub.users
    &&& after.online == hub.online
    &&& forall|other: ServerId|
        #![trigger after.channels.contains_key(other)]
        after.channels.contains_key(other) == hub.channels.contains_key(other)
    &&& forall|other: ServerId|
        #![trigger after.channels[other]]
        other != id && hub.channels.contains_key(other) ==> after.channels[other]
            == hub.channels[other]
    &&& after.channels[id].name == hub.channels[id].name
    &&& after.channels[id].owner_id == hub.channels[id].owner_id
}

/// A list has exactly one line for each channel.
pub open spec fn relay_shows_channels(
    list: Seq<ServerInfoView>,
    channels: Map<ServerId, RelayChannelView>,
) -> bool {
    exists|order: Seq<ServerId>| #[trigger]
        order.no_duplicates() && (forall|id: ServerId|
            #![trigger order.contains(id)]
            order.contains(id) <==> channels.contains_key(id)) && list.len() == order.len() && (
        forall|i: int|
            #![trigger list[i]]
            0 <= i < order.len() ==> {
                &&& list[i].server_id == order[i]
                &&& list[i].name == channels[order[i]].name
                &&& list[i].owner_id == channels[order[i]].owner_id
                &&& list[i].member_count == channels[order[i]].members.len()
            })
}

/// A ping is answered with a pong, whoever sends it, and changes nothing.
pub proof fn relay_ping_law(
    hub: HubView,
    auth: RelayAuthView,
    conn: ConnId,
    fresh: FreshView,
    after: HubView,
    auth_after: RelayAuthView,
    sent: Seq<DeliveryView>,
)
    requires
        relayed(
            hub,
            auth,
            conn,
            ClientMessageView::Ping,
            fresh,
            after,
            auth_after,
            sent,
        ),
    ensures
        after == hub,
        auth_after == auth,
        answered_with(sent, conn, ServerMessageView::Pong),
{
}

/// Every registration is accepted, whatever the keys: they are kept as the bytes that
/// they read as, or as nothing where they are not base64.
pub proof fn relay_register_law(
    hub: HubView,
    auth: RelayAuthView,
    conn: ConnId,
    display_name: Seq<char>,
    kem_public_key: Seq<char>,
    sig_public_key: Seq<char>,
    fresh: FreshView,
    after: HubView,
    auth_after: RelayAuthView,
    sent: Seq<DeliveryView>,
    kem: Option<Seq<u8>>,
    sig: Option<Seq<u8>>,
)
    requires
        relayed(
            hub,
            auth,
            conn,
            ClientMessageView::Register { display_name, kem_public_key, sig_public_key },
            fresh,
            after,
            auth_after,
            sent,
        ),
        reads(kem_public_key, kem),
        reads(sig_public_key, sig),
    ensures
        auth_after == auth,
        after.channels == hub.channels,
        after.online == hub.online,
        after.users == hub.users.insert(fresh.id, after.users[fresh.id]),
        after.users[fresh.id].user_id == fresh.id,
        after.users[fresh.id].display_name == display_name,
        after.users[fresh.id].kem_public_key == bytes_or_nothing(kem),
        after.users[fresh.id].sig_public_key == bytes_or_nothing(sig),
        after.users[fresh.id].created_at == fresh.now,
        answered_with(sent, conn, ServerMessageView::Registered { user_id: fresh.id }),
{
    reading_is_decoding(kem_public_key, kem);
    reading_is_decoding(sig_public_key, sig);
}

/// A challenge is issued to whoever names a registered user, and to nobody else. Whom the
/// connection speaks for stays until the answer.
pub proof fn relay_auth_begin_law(
    hub: HubView,
    auth: RelayAuthView,
    conn: ConnId,
    user: UserId,
    fresh: FreshView,
    after: HubView,
    auth_after: RelayAuthView,
    sent: Seq<DeliveryView>,
)
    requires
        relayed(
            hub,
            auth,
            conn,
            ClientMessageView::AuthBegin { user_id: user },
            fresh,
            after,
            auth_after,
            sent,
        ),
    ensures
        !hub.users.contains_key(user) ==> relay_refused_with(
            hub,
            auth,
            conn,
            after,
            auth_after,
            sent,
            "unknown user"@,
        ),
        hub.users.contains_key(user) ==> {
            &&& after == hub
            &&& auth_after.me == auth.me
            &&& auth_after.pending == Some(user)
            &&& answered_with(
                sent,
                conn,
                ServerMessageView::AuthChallenge { nonce: b64_encoding(fresh.challenge) },
            )
        },
{
}

/// Any answer is accepted while a challenge is out, and none otherwise. It puts the
/// challenged user online on this connection, in place of any other, and uses the
/// challenge up.
pub proof fn relay_auth_finish_law(
    hub: HubView,
    auth: RelayAuthView,
    conn: ConnId,
    signature: Seq<char>,
    fresh: FreshView,
    after: HubView,
    auth_after: RelayAuthView,
    sent: Seq<DeliveryView>,
)
    requires
        relayed(
            hub,
            auth,
            conn,
            ClientMessageView::AuthFinish { signature },
            fresh,
            after,
            auth_after,
            sent,
        ),
    ensures
        auth.pending is None ==> relay_refused_with(
            hub,
            auth,
            conn,
            after,
            auth_after,
            sent,
            "no auth in progress"@,
        ),
        auth.pending matches Some(user) ==> {
            &&& auth_after.me == Some(user)
            &&& auth_after.pending is None
            &&& after.users == hub.users
            &&& after.channels == hub.channels
            &&& after.online == hub.online.insert(user, conn)
            &&& answered_with(sent, conn, ServerMessageView::Authenticated { user_id: user })
        },
{
}

/// Any authenticated user may create a channel, whatever its name. It is filed under the
/// id that was drawn, with its creator as owner and sole member, at epoch zero and without
/// messages, and nothing else changes.
pub proof fn relay_create_server_law(
    hub: HubView,
    auth: RelayAuthView,
    conn: ConnId,
    name: Seq<char>,
    fresh: FreshView,
    after: HubView,
    auth_after: RelayAuthView,
    sent: Seq<DeliveryView>,
)
    requires
        relayed(
            hub,
            auth,
            conn,
            ClientMessageView::CreateServer { name },
            fresh,
            after,
            auth_after,
            sent,
        ),
    ensures
        auth.me is None ==> relay_refused_with(
            hub,
            auth,
            conn,
            after,
            auth_after,
            sent,
            "not authenticated"@,
        ),
        auth.me matches Some(me) ==> {
            &&& auth_after == auth
            &&& after.users == hub.users
            &&& after.online == hub.online
            &&& after.channels == hub.channels.insert(fresh.id, after.channels[fresh.id])
            &&& after.channels[fresh.id].name == name
            &&& after.channels[fresh.id].owner_id == me
            &&& after.channels[fresh.id].members == set![me]
            &&& after.channels[fresh.id].epoch == 0
            &&& after.channels[fresh.id].messages.len() == 0
            &&& answered_with(
                sent,
                conn,
                ServerMessageView::ServerCreated { server_id: fresh.id, epoch: 0 },
            )
        },
{
    if auth.me is Some {
        assert(set![auth.me->0] =~= Set::empty().insert(auth.me->0));
    }
}

/// A join of an existing channel is accepted from every authenticated user, member or
/// not. The user is a member afterwards, the epoch is one more, and everything else stays.
/// The joiner is told the channel, the new epoch and all members; every other member that
/// is online is told of the joiner and the new epoch.
pub proof fn relay_join_server_law(
    hub: HubView,
    auth: RelayAuthView,
    conn: ConnId,
    id: ServerId,
    fresh: FreshView,
    after: HubView,
    auth_after: RelayAuthView,
    sent: Seq<DeliveryView>,
)
    requires
        relayed(
            hub,
            auth,
            conn,
            ClientMessageView::JoinServer { server_id: id },
            fresh,
            after,
            auth_after,
            sent,
        ),
    ensures
        auth.me is None ==> relay_refused_with(
            hub,
            auth,
            conn,
            after,
            auth_after,
            sent,
            "not authenticated"@,
        ),
        auth.me is Some && !hub.channels.contains_key(id) ==> relay_refused_with(
            hub,
            auth,
            conn,
            after,
            auth_after,
            sent,
            "no such server"@,
        ),
        auth.me is Some && hub.channels.contains_key(id) && hub.channels[id].epoch < Epoch::MAX ==> {
            &&& auth_after == auth
            &&& relay_changes_only(hub, after, id)
            &&& after.channels[id].members == hub.channels[id].members.insert(auth.me->0)
            &&& after.channels[id].epoch == hub.channels[id].epoch + 1
            &&& after.channels[id].messages == hub.channels[id].messages
            &&& sent.len() >= 1
            &&& sent[0].to == conn
            &&& sent[0].msg matches ServerMessageView::ServerJoined { server_id, epoch, members }
            &&& server_id == id
            &&& epoch == hub.channels[id].epoch + 1
            &&& shows_members(members, hub.users, hub.channels[id].members.insert(auth.me->0))
            &&& !hub.users.contains_key(auth.me->0) ==> sent.len() == 1
            &&& hub.users.contains_key(auth.me->0) ==> reaches(
                sent.skip(1),
                hub.online,
                hub.channels[id].members.remove(auth.me->0),
                None,
                ServerMessageView::MemberJoined {
                    server_id: id,
                    member: MemberInfoView {
                        user_id: hub.users[auth.me->0].user_id,
                        display_name: hub.users[auth.me->0].display_name,
                        kem_public_key: hub.users[auth.me->0].kem_public_key,
                        sig_public_key: hub.users[auth.me->0].sig_public_key,
                    },
                    epoch: (hub.channels[id].epoch + 1) as Epoch,
                },
            )
        },
{
    let before = hub.channels[id];
    if auth.me is Some && hub.channels.contains_key(id) && before.epoch < Epoch::MAX {
        let me = auth.me->0;
        roster_shows_members(sent[0].msg->ServerJoined_members, hub.users, before.members.insert(me));
        if hub.users.contains_key(me) {
            let notice = ServerMessageView::MemberJoined {
                server_id: id,
                member: MemberInfoView {
                    user_id: hub.users[me].user_id,
                    display_name: hub.users[me].display_name,
                    kem_public_key: hub.users[me].kem_public_key,
                    sig_public_key: hub.users[me].sig_public_key,
                },
                epoch: (before.epoch + 1) as Epoch,
            };
            fan_out_reaches(sent.skip(1), hub.online, before.members.insert(me), Some(me), notice);
            assert(before.members.remove(me).insert(me) =~= before.members.insert(me));
            reaching_all_but_one(sent.skip(1), hub.online, before.members.remove(me), me, notice);
        }
    }
}

/// A leave of an existing channel is accepted from every authenticated user, member or
/// not. The user is no member afterwards, the epoch is one more, and everything else stays.
/// The leaver gets an acknowledgement; every remaining member that is online is told who
/// left and the new epoch.
pub proof fn relay_leave_server_law(
    hub: HubView,
    auth: RelayAuthView,
    conn: ConnId,
    id: ServerId,
    fresh: FreshView,
    after: HubView,
    auth_after: RelayAuthView,
    sent: Seq<DeliveryView>,
)
    requires
        relayed(
            hub,
            auth,
            conn,
            ClientMessageView::LeaveServer { server_id: id },
            fresh,
            after,
            auth_after,
            sent,
        ),
    ensures
        auth.me is None ==> relay_refused_with(
            hub,
            auth,
            conn,
            after,
            auth_after,
            sent,
            "not authenticated"@,
        ),
        auth.me is Some && !hub.channels.contains_key(id) ==> relay_refused_with(
            hub,
            auth,
            conn,
            after,
            auth_after,
            sent,
            "no such server"@,
        ),
        auth.me is Some && hub.channels.contains_key(id) && hub.channels[id].epoch < Epoch::MAX ==> {
            &&& auth_after == auth
            &&& relay_changes_only(hub, after, id)
            &&& after.channels[id].members == hub.channels[id].members.remove(auth.me->0)
            &&& after.channels[id].epoch == hub.channels[id].epoch + 1
            &&& after.channels[id].messages == hub.channels[id].messages
            &&& sent.len() >= 1
            &&& sent[0].to == conn
            &&& sent[0].msg == (ServerMessageView::ServerLeft { server_id: id })
            &&& reaches(
                sent.skip(1),
                hub.online,
                hub.channels[id].members.remove(auth.me->0),
                None,
                ServerMessageView::MemberLeft {
                    server_id: id,
                    user_id: auth.me->0,
                    epoch: (hub.channels[id].epoch + 1) as Epoch,
                },
            )
        },
{
    let before = hub.channels[id];
    if auth.me is Some && hub.channels.contains_key(id) && before.epoch < Epoch::MAX {
        fan_out_reaches(
            sent.skip(1),
            hub.online,
            before.members.remove(auth.me->0),
            None,
            ServerMessageView::MemberLeft {
                server_id: id,
                user_id: auth.me->0,
                epoch: (before.epoch + 1) as Epoch,
            },
        );
    }
}

/// A wrapped key of any authenticated user goes to the target that it names, if that is
/// online, as it was handed in, whatever it is, and nobody else gets anything.
pub proof fn relay_distribute_key_law(
    hub: HubView,
    auth: RelayAuthView,
    conn: ConnId,
    id: ServerId,
    target: UserId,
    epoch: Epoch,
    wrapped_key: Seq<char>,
    fresh: FreshView,
    after: HubView,
    auth_after: RelayAuthView,
    sent: Seq<DeliveryView>,
)
    requires
        relayed(
            hub,
            auth,
            conn,
            ClientMessageView::DistributeKey {
                server_id: id,
                target_user_id: target,
                epoch,
                wrapped_key,
            },
            fresh,
            after,
            auth_after,
            sent,
        ),
    ensures
        auth.me is None ==> relay_refused_with(
            hub,
            auth,
            conn,
            after,
            auth_after,
            sent,
            "not authenticated"@,
        ),
        auth.me matches Some(me) ==> {
            &&& after == hub
            &&& auth_after == auth
            &&& if hub.online.contains_key(target) {
                answered_with(
                    sent,
                    hub.online[target],
                    ServerMessageView::KeyMaterial {
                        server_id: id,
                        from_user: me,
                        epoch,
                        wrapped_key,
                    },
                )
            } else {
                sent.len() == 0
            }
        },
{
}

/// Every message of a member is accepted, whatever its epoch, its length and its
/// signature. It is added behind all messages that are there, its parts as the bytes that
/// they read as, nothing else changes, and every member that is online, the sender among
/// them, gets it once as it was handed in.
pub proof fn relay_send_message_law(
    hub: HubView,
    auth: RelayAuthView,
    conn: ConnId,
    id: ServerId,
    epoch: Epoch,
    nonce: Seq<char>,
    ciphertext: Seq<char>,
    signature: Seq<char>,
    fresh: FreshView,
    after: HubView,
    auth_after: RelayAuthView,
    sent: Seq<DeliveryView>,
    n: Option<Seq<u8>>,
    c: Option<Seq<u8>>,
    s: Option<Seq<u8>>,
)
    requires
        relayed(
            hub,
            auth,
            conn,
            ClientMessageView::SendMessage { server_id: id, epoch, nonce, ciphertext, signature },
            fresh,
            after,
            auth_after,
            sent,
        ),
        reads(nonce, n),
        reads(ciphertext, c),
        reads(signature, s),
    ensures
        auth.me is None ==> relay_refused_with(
            hub,
            auth,
            conn,
            after,
            auth_after,
            sent,
            "not authenticated"@,
        ),
        auth.me is Some && !hub.channels.contains_key(id) ==> relay_refused_with(
            hub,
            auth,
            conn,
            after,
            auth_after,
            sent,
            "no such server"@,
        ),
        auth.me is Some && hub.channels.contains_key(id) && !hub.channels[id].members.contains(
            auth.me->0,
        ) ==> relay_refused_with(
            hub,
            auth,
            conn,
            after,
            auth_after,
            sent,
            "not a member"@,
        ),
        auth.me is Some && hub.channels.contains_key(id) && hub.channels[id].members.contains(
            auth.me->0,
        ) ==> {
            &&& auth_after == auth
            &&& relay_changes_only(hub, after, id)
            &&& after.channels[id].members == hub.channels[id].members
            &&& after.channels[id].epoch == hub.channels[id].epoch
            &&& after.channels[id].messages.len() == hub.channels[id].messages.len() + 1
            &&& forall|i: int|
                0 <= i < hub.channels[id].messages.len() ==> #[trigger] after.channels[id].messages[i]
                    == hub.channels[id].messages[i]
            &&& after.channels[id].messages.last() == (StoredMessageView {
                message_id: fresh.id,
                sender: auth.me->0,
                epoch,
                nonce: bytes_or_nothing(n),
                ciphertext: bytes_or_nothing(c),
                signature: bytes_or_nothing(s),
                timestamp: fresh.now,
            })
            &&& reaches(
                sent,
                hub.online,
                hub.channels[id].members,
                None,
                ServerMessageView::NewMessage {
                    server_id: id,
                    message_id: fresh.id,
                    sender: auth.me->0,
                    epoch,
                    nonce,
                    ciphertext,
                    signature,
                    timestamp: fresh.now,
                },
            )
        },
{
    reading_is_decoding(nonce, n);
    reading_is_decoding(ciphertext, c);
    reading_is_decoding(signature, s);
    if auth.me is Some && hub.channels.contains_key(id) && hub.channels[id].members.contains(
        auth.me->0,
    ) {
        fan_out_reaches(
            sent,
            hub.online,
            hub.channels[id].members,
            None,
            ServerMessageView::NewMessage {
                server_id: id,
                message_id: fresh.id,
                sender: auth.me->0,
                epoch,
                nonce,
                ciphertext,
                signature,
                timestamp: fresh.now,
            },
        );
    }
}

/// Anyone gets a list of all channels, with one line for each.
pub proof fn relay_list_servers_law(
    hub: HubView,
    auth: RelayAuthView,
    conn: ConnId,
    fresh: FreshView,
    after: HubView,
    auth_after: RelayAuthView,
    sent: Seq<DeliveryView>,
)
    requires
        relayed(
            hub,
            auth,
            conn,
            ClientMessageView::ListServers,
            fresh,
            after,
            auth_after,
            sent,
        ),
    ensures
        after == hub,
        auth_after == auth,
        sent.len() == 1,
        sent[0].to == conn,
        sent[0].msg is ServerList,
        relay_shows_channels(sent[0].msg->ServerList_servers, hub.channels),
{
    let list = sent[0].msg->ServerList_servers;
    assert(is_relay_listing(list, hub.channels));
    let order = choose|order: Seq<ServerId>| #[trigger]
        lists(order, hub.channels.dom()) && list == order.map_values(
            |id: ServerId| hub.channels[id].info(id),
        );
    assert forall|id: ServerId| #![trigger order.contains(id)]
        order.contains(id) <==> hub.channels.contains_key(id) by {
        assert(order.to_set().contains(id) <==> order.contains(id));
    }
    assert(order.no_duplicates());
}

/// Anyone gets a list of the members of an existing channel, with one line for each that
/// is registered, online or not.
pub proof fn relay_list_members_law(
    hub: HubView,
    auth: RelayAuthView,
    conn: ConnId,
    id: ServerId,
    fresh: FreshView,
    after: HubView,
    auth_after: RelayAuthView,
    sent: Seq<DeliveryView>,
)
    requires
        relayed(
            hub,
            auth,
            conn,
            ClientMessageView::ListMembers { server_id: id },
            fresh,
            after,
            auth_after,
            sent,
        ),
    ensures
        !hub.channels.contains_key(id) ==> relay_refused_with(
            hub,
            auth,
            conn,
            after,
            auth_after,
            sent,
            "no such server"@,
        ),
        hub.channels.contains_key(id) ==> {
            &&& after == hub
            &&& auth_after == auth
            &&& sent.len() == 1
            &&& sent[0].to == conn
            &&& sent[0].msg matches ServerMessageView::MemberList { server_id, members }
            &&& server_id == id
            &&& shows_members(members, hub.users, hub.channels[id].members)
        },
{
    if hub.channels.contains_key(id) {
        roster_shows_members(
            sent[0].msg->MemberList_members,
            hub.users,
            hub.channels[id].members,
        );
    }
}

/// Anyone gets all messages of an existing channel, in order.
pub proof fn relay_get_history_law(
    hub: HubView,
    auth: RelayAuthView,
    conn: ConnId,
    id: ServerId,
    fresh: FreshView,
    after: HubView,
    auth_after: RelayAuthView,
    sent: Seq<DeliveryView>,
)
    requires
        relayed(
            hub,
            auth,
            conn,
            ClientMessageView::GetHistory { server_id: id },
            fresh,
            after,
            auth_after,
            sent,
        ),
    ensures
        !hub.channels.contains_key(id) ==> relay_refused_with(
            hub,
            auth,
            conn,
            after,
            auth_after,
            sent,
            "no such server"@,
        ),
        hub.channels.contains_key(id) ==> {
            &&& after == hub
            &&& auth_after == auth
            &&& answered_with(
                sent,
                conn,
                ServerMessageView::History { server_id: id, messages: hub.channels[id].messages },
            )
        },
{
}

/// Anyone gets the record of any registered user.
pub proof fn relay_lookup_user_law(
    hub: HubView,
    auth: RelayAuthView,
    conn: ConnId,
    user: UserId,
    fresh: FreshView,
    after: HubView,
    auth_after: RelayAuthView,
    sent: Seq<DeliveryView>,
)
    requires
        relayed(
            hub,
            auth,
            conn,
            ClientMessageView::LookupUser { user_id: user },
            fresh,
            after,
            auth_after,
            sent,
        ),
    ensures
        !hub.users.contains_key(user) ==> relay_refused_with(
            hub,
            auth,
            conn,
            after,
            auth_after,
            sent,
            "unknown user"@,
        ),
        hub.users.contains_key(user) ==> {
            &&& after == hub
            &&& auth_after == auth
            &&& answered_with(sent, conn, ServerMessageView::UserInfo { user: hub.users[user] })
        },
{
}

/// When a connection ends, exactly the users that are online on it go offline. Whoever is
/// online elsewhere stays so, and users and channels stay.
pub proof fn relay_disconnect_law(hub: HubView, conn: ConnId, user: UserId)
    ensures
        relay_disconnected(hub, conn).users == hub.users,
        relay_disconnected(hub, conn).channels == hub.channels,
        relay_disconnected(hub, conn).online.contains_key(user) <==> hub.online.contains_key(user)
            && hub.online[user] != conn,
        relay_disconnected(hub, conn).online.contains_key(user) ==> relay_disconnected(
            hub,
            conn,
        ).online[user] == hub.online[user],
{
}

/// There is room for every request, but for a join or a leave of an authenticated user
/// that would count past the last epoch.
pub proof fn relay_epoch_room_law(hub: HubView, auth: RelayAuthView, req: ClientMessageView)
    requires
        !relay_epoch_room(hub, auth, req),
    ensures
        auth.me is Some,
        req is JoinServer || req is LeaveServer,
        req matches ClientMessageView::JoinServer { server_id } ==> hub.channels.contains_key(
            server_id,
        ) && hub.channels[server_id].epoch == Epoch::MAX,
        req matches ClientMessageView::LeaveServer { server_id } ==> hub.channels.contains_key(
            server_id,
        ) && hub.channels[server_id].epoch == Epoch::MAX,
{
}

/// Texts and binary frames are read as requests. The end of the stream, a failure and a
/// close end the connection, and nothing else does. Pings and other frames are passed over.
pub proof fn relay_socket_law(event: SocketEventView, text: Seq<char>, bytes: Seq<u8>)
    ensures
        relay_step_for(SocketEventView::Text(text)) == StepView::Request(text),
        relay_step_for(SocketEventView::Binary(bytes)) == StepView::Request(utf8_lossy(bytes)),
        relay_step_for(event) is Stop <==> event is End || event is Failed || event is Close,
        relay_step_for(event) is Skip <==> event is Ping || event is Other,
{
}

/// In a well-formed state the list of members leaves nobody out: everyone in the channel
/// is registered.
pub proof fn relay_members_are_registered(hub: HubView, id: ServerId, user: UserId)
    requires
        hub_wf(hub),
        hub.channels.contains_key(id),
        hub.channels[id].members.contains(user),
    ensures
        hub.users.contains_key(user),
        hub.users[user].user_id == user,
{
    assert(hub.channels[id].members.subset_of(hub.users.dom()));
}

} // verus!
