//! What holds of the development relay across requests.
use crate::encoding::{b64_decoding, b64_length, b64_round_trip};
use crate::fresh::FreshView;
use crate::laws::{addressed, audience, fan_out_reaches_each_online_user_once};
use crate::model::{is_roster, lists};
use crate::protocol::{
    member_view, ClientMessageView, ConnId, DeliveryView, Epoch, ServerId, ServerMessageView,
    UserId,
};
use crate::relay_rules::{
    decoded_or_empty, relay_disconnected, relay_epoch_room, relay_error, relayed, HubView,
    RelayAuthView,
};
use crate::rules::{registered, reply, stored};
use vstd::prelude::*;

verus! {

/// A request that is answered with an error changes nothing, and its sender alone is
/// told, in a single frame.
pub proof fn failed_request_changes_nothing(
    hub: HubView,
    auth: RelayAuthView,
    conn: ConnId,
    req: ClientMessageView,
    fresh: FreshView,
    after: HubView,
    auth_after: RelayAuthView,
    sent: Seq<DeliveryView>,
)
    requires
        relayed(hub, auth, conn, req, fresh, after, auth_after, sent),
        relay_error(hub, auth, req) is Some,
    ensures
        after == hub,
        auth_after == auth,
        sent == reply(conn, ServerMessageView::Error { reason: relay_error(hub, auth, req)->0 }),
{
}

/// A relay that has just started knows nobody: whoever begins to authenticate is
/// answered that the user is unknown.
pub proof fn restart_forgets_users(auth: RelayAuthView, user: UserId)
    ensures
        relay_error(HubView::empty(), auth, ClientMessageView::AuthBegin { user_id: user }) == Some(
            "unknown user"@,
        ),
{
}

/// Registration never fails, and a registered user can be looked up, even without
/// authentication, and can begin to authenticate.
pub proof fn registered_user_is_known(
    hub: HubView,
    auth: RelayAuthView,
    conn: ConnId,
    display_name: Seq<char>,
    kem_public_key: Seq<char>,
    sig_public_key: Seq<char>,
    fresh: FreshView,
    after: HubView,
    auth_after: RelayAuthView,
    sent: Seq<DeliveryView>,
    reader: RelayAuthView,
    reader_conn: ConnId,
    fresh2: FreshView,
    last: HubView,
    reader_after: RelayAuthView,
    found: Seq<DeliveryView>,
)
    requires
        relayed(
            hub,
            auth,
            conn,
            ClientMessageView::Register { display_name, kem_public_key, sig_public_key },
            fresh,
            after,
            auth_after,
            sent,
        ),
        relayed(
            after,
            reader,
            reader_conn,
            ClientMessageView::LookupUser { user_id: fresh.id },
            fresh2,
            last,
            reader_after,
            found,
        ),
    ensures
        sent == reply(conn, ServerMessageView::Registered { user_id: fresh.id }),
        found == reply(
            reader_conn,
            ServerMessageView::UserInfo {
                user: registered(
                    display_name,
                    decoded_or_empty(kem_public_key),
                    decoded_or_empty(sig_public_key),
                    fresh,
                ),
            },
        ),
        relay_error(after, reader, ClientMessageView::AuthBegin { user_id: fresh.id }) is None,
{
}

/// Whatever signature answers a challenge is accepted: the frame reads back as the
/// challenge, in four characters for every three bytes begun, and after any answer to
/// it the connection speaks for the challenged user, whose frames go to it.
pub proof fn any_signature_authenticates(
    hub: HubView,
    auth: RelayAuthView,
    conn: ConnId,
    user: UserId,
    fresh: FreshView,
    challenged: HubView,
    pending: RelayAuthView,
    issued: Seq<DeliveryView>,
    signature: Seq<char>,
    fresh2: FreshView,
    after: HubView,
    auth_after: RelayAuthView,
    sent: Seq<DeliveryView>,
)
    requires
        hub.users.contains_key(user),
        relayed(
            hub,
            auth,
            conn,
            ClientMessageView::AuthBegin { user_id: user },
            fresh,
            challenged,
            pending,
            issued,
        ),
        relayed(
            challenged,
            pending,
            conn,
            ClientMessageView::AuthFinish { signature },
            fresh2,
            after,
            auth_after,
            sent,
        ),
    ensures
        issued.len() == 1,
        issued[0].to == conn,
        issued[0].msg is AuthChallenge,
        b64_decoding(issued[0].msg->AuthChallenge_nonce) == Some(fresh.challenge),
        issued[0].msg->AuthChallenge_nonce.len() == 4 * ((fresh.challenge.len() + 2) / 3),
        auth_after == (RelayAuthView { me: Some(user), pending: None }),
        after == (HubView { online: hub.online.insert(user, conn), ..hub }),
        sent == reply(conn, ServerMessageView::Authenticated { user_id: user }),
{
    b64_length(fresh.challenge);
    b64_round_trip(fresh.challenge, signature);
}

/// Every join and every leave of a channel bumps its epoch by one, and nothing else
/// does. Only a creation that happens to draw the id of an existing channel replaces
/// that channel.
pub proof fn epoch_counts_joins_and_leaves(
    hub: HubView,
    auth: RelayAuthView,
    conn: ConnId,
    req: ClientMessageView,
    fresh: FreshView,
    after: HubView,
    auth_after: RelayAuthView,
    sent: Seq<DeliveryView>,
    id: ServerId,
)
    requires
        relayed(hub, auth, conn, req, fresh, after, auth_after, sent),
        relay_epoch_room(hub, auth, req),
        hub.channels.contains_key(id),
        !(req is CreateServer && fresh.id == id),
    ensures
        after.channels.contains_key(id),
        after.channels[id].name == hub.channels[id].name,
        after.channels[id].owner_id == hub.channels[id].owner_id,
        after.channels[id].epoch == hub.channels[id].epoch + if auth.me is Some && (req
            == (ClientMessageView::JoinServer { server_id: id }) || req
            == (ClientMessageView::LeaveServer { server_id: id })) {
            1int
        } else {
            0int
        },
{
}

/// Messages are never dropped: whatever a channel holds stays, in order, and at most
/// one message is added by a request.
pub proof fn messages_are_kept(
    hub: HubView,
    auth: RelayAuthView,
    conn: ConnId,
    req: ClientMessageView,
    fresh: FreshView,
    after: HubView,
    auth_after: RelayAuthView,
    sent: Seq<DeliveryView>,
    id: ServerId,
)
    requires
        relayed(hub, auth, conn, req, fresh, after, auth_after, sent),
        hub.channels.contains_key(id),
        !(req is CreateServer && fresh.id == id),
    ensures
        after.channels.contains_key(id),
        hub.channels[id].messages.is_prefix_of(after.channels[id].messages),
        after.channels[id].messages.len() <= hub.channels[id].messages.len() + 1,
{
    assert(hub.channels[id].messages.is_prefix_of(hub.channels[id].messages));
    match req {
        ClientMessageView::SendMessage { server_id, epoch, nonce, ciphertext, signature } => {
            let message = stored(
                auth.me->0,
                epoch,
                decoded_or_empty(nonce),
                decoded_or_empty(ciphertext),
                decoded_or_empty(signature),
                fresh,
            );
            assert(hub.channels[id].messages.is_prefix_of(hub.channels[id].messages.push(message)));
        },
        _ => {},
    }
}

/// A message of a member reaches every member that is online, its sender among them,
/// exactly once, as the sender handed it in, and whoever asks for the history finds it
/// at the end.
pub proof fn message_reaches_members_and_history(
    hub: HubView,
    auth: RelayAuthView,
    conn: ConnId,
    id: ServerId,
    epoch: Epoch,
    nonce: Seq<char>,
    ciphertext: Seq<char>,
    signature: Seq<char>,
    fresh: FreshView,
    after: HubView,
    auth_after: RelayAuthView,
    sent: Seq<DeliveryView>,
    reader: RelayAuthView,
    reader_conn: ConnId,
    fresh2: FreshView,
    last: HubView,
    reader_after: RelayAuthView,
    read: Seq<DeliveryView>,
)
    requires
        auth.me is Some,
        hub.channels.contains_key(id),
        hub.channels[id].members.contains(auth.me->0),
        relayed(
            hub,
            auth,
            conn,
            ClientMessageView::SendMessage { server_id: id, epoch, nonce, ciphertext, signature },
            fresh,
            after,
            auth_after,
            sent,
        ),
        relayed(
            after,
            reader,
            reader_conn,
            ClientMessageView::GetHistory { server_id: id },
            fresh2,
            last,
            reader_after,
            read,
        ),
    ensures
        exists|told: Seq<UserId>| #[trigger]
            lists(told, audience(hub.online, hub.channels[id].members, None)) && sent == addressed(
                hub.online,
                told,
                ServerMessageView::NewMessage {
                    server_id: id,
                    message_id: fresh.id,
                    sender: auth.me->0,
                    epoch,
                    nonce,
                    ciphertext,
                    signature,
                    timestamp: fresh.now,
                },
            ),
        read == reply(
            reader_conn,
            ServerMessageView::History {
                server_id: id,
                messages: hub.channels[id].messages.push(
                    stored(
                        auth.me->0,
                        epoch,
                        decoded_or_empty(nonce),
                        decoded_or_empty(ciphertext),
                        decoded_or_empty(signature),
                        fresh,
                    ),
                ),
            },
        ),
{
    fan_out_reaches_each_online_user_once(
        sent,
        after.online,
        after.channels[id].members,
        None,
        ServerMessageView::NewMessage {
            server_id: id,
            message_id: fresh.id,
            sender: auth.me->0,
            epoch,
            nonce,
            ciphertext,
            signature,
            timestamp: fresh.now,
        },
    );
}

/// When someone joins, the joiner gets the full roster and the new epoch, and every
/// other member that is online is told once; when someone leaves, the leaver gets an
/// acknowledgement, and every remaining member that is online is told once.
pub proof fn membership_change_tells_the_others(
    hub: HubView,
    auth: RelayAuthView,
    conn: ConnId,
    joins: bool,
    id: ServerId,
    fresh: FreshView,
    after: HubView,
    auth_after: RelayAuthView,
    sent: Seq<DeliveryView>,
)
    requires
        auth.me is Some,
        joins ==> hub.users.contains_key(auth.me->0),
        hub.channels.contains_key(id),
        hub.channels[id].epoch < Epoch::MAX,
        relayed(
            hub,
            auth,
            conn,
            if joins {
                ClientMessageView::JoinServer { server_id: id }
            } else {
                ClientMessageView::LeaveServer { server_id: id }
            },
            fresh,
            after,
            auth_after,
            sent,
        ),
    ensures
        sent.len() >= 1,
        sent[0].to == conn,
        if joins {
            &&& sent[0].msg matches ServerMessageView::ServerJoined { server_id, epoch, members }
            &&& server_id == id
            &&& epoch == hub.channels[id].epoch + 1
            &&& is_roster(members, hub.users, hub.channels[id].members.insert(auth.me->0))
        } else {
            sent[0].msg == (ServerMessageView::ServerLeft { server_id: id })
        },
        exists|told: Seq<UserId>| #[trigger]
            lists(told, audience(hub.online, hub.channels[id].members, auth.me)) && sent.skip(1)
                == addressed(
                hub.online,
                told,
                if joins {
                    ServerMessageView::MemberJoined {
                        server_id: id,
                        member: member_view(hub.users[auth.me->0]),
                        epoch: (hub.channels[id].epoch + 1) as Epoch,
                    }
                } else {
                    ServerMessageView::MemberLeft {
                        server_id: id,
                        user_id: auth.me->0,
                        epoch: (hub.channels[id].epoch + 1) as Epoch,
                    }
                },
            ),
{
    let me = auth.me->0;
    let epoch = (hub.channels[id].epoch + 1) as Epoch;
    let members = hub.channels[id].members;
    if joins {
        fan_out_reaches_each_online_user_once(
            sent.skip(1),
            hub.online,
            members.insert(me),
            Some(me),
            ServerMessageView::MemberJoined {
                server_id: id,
                member: member_view(hub.users[me]),
                epoch,
            },
        );
        assert(audience(hub.online, members.insert(me), Some(me)) =~= audience(
            hub.online,
            members,
            Some(me),
        ));
    } else {
        fan_out_reaches_each_online_user_once(
            sent.skip(1),
            hub.online,
            members.remove(me),
            None,
            ServerMessageView::MemberLeft { server_id: id, user_id: me, epoch },
        );
        assert(audience(hub.online, members.remove(me), None) =~= audience(
            hub.online,
            members,
            Some(me),
        ));
    }
}

/// What every request keeps of the relay's state: users are filed under their ids, and
/// owners, members and users online are registered.
pub open spec fn hub_wf(hub: HubView) -> bool {
    &&& forall|id: UserId| #[trigger] hub.users.contains_key(id) ==> hub.users[id].user_id == id
    &&& forall|id: ServerId| #[trigger]
        hub.channels.contains_key(id) ==> {
            &&& hub.users.contains_key(hub.channels[id].owner_id)
            &&& hub.channels[id].members.finite()
            &&& hub.channels[id].members.subset_of(hub.users.dom())
        }
    &&& hub.online.dom().subset_of(hub.users.dom())
}

/// What every request keeps of a connection's authentication: it speaks of registered
/// users.
pub open spec fn relay_auth_wf(hub: HubView, auth: RelayAuthView) -> bool {
    &&& auth.me matches Some(user) ==> hub.users.contains_key(user)
    &&& auth.pending matches Some(user) ==> hub.users.contains_key(user)
}

/// A request keeps the relay's state and every connection's authentication
/// well-formed, so does the end of the connection, and a relay that has just started
/// is well-formed.
pub proof fn relay_stays_well_formed(
    hub: HubView,
    auth: RelayAuthView,
    conn: ConnId,
    req: ClientMessageView,
    fresh: FreshView,
    after: HubView,
    auth_after: RelayAuthView,
    sent: Seq<DeliveryView>,
)
    requires
        relayed(hub, auth, conn, req, fresh, after, auth_after, sent),
        hub_wf(hub),
        relay_auth_wf(hub, auth),
    ensures
        hub_wf(HubView::empty()),
        hub_wf(after),
        hub_wf(relay_disconnected(after, conn)),
        relay_auth_wf(after, auth_after),
        forall|other: RelayAuthView| #[trigger]
            relay_auth_wf(hub, other) ==> relay_auth_wf(after, other),
{
    assert(forall|id: UserId| hub.users.contains_key(id) ==> after.users.contains_key(id));
    assert forall|id: ServerId| #[trigger] after.channels.contains_key(id) implies {
        &&& after.users.contains_key(after.channels[id].owner_id)
        &&& after.channels[id].members.finite()
        &&& after.channels[id].members.subset_of(after.users.dom())
    } by {
        if hub.channels.contains_key(id) {
            assert(hub.channels[id].members.subset_of(hub.users.dom()));
        }
    }
}

/// Whether everyone that is online is so on one of these connections.
pub open spec fn relay_online_on(hub: HubView, live: Set<ConnId>) -> bool {
    forall|user: UserId| #[trigger]
        hub.online.contains_key(user) ==> live.contains(hub.online[user])
}

/// Only users with a live connection are online: it is so at the start, a request on a
/// live connection keeps it so, and when a connection ends it is so of the connections
/// that are left, whoever authenticated on the one that ended.
pub proof fn relay_online_users_are_connected(
    hub: HubView,
    auth: RelayAuthView,
    conn: ConnId,
    req: ClientMessageView,
    fresh: FreshView,
    after: HubView,
    auth_after: RelayAuthView,
    sent: Seq<DeliveryView>,
    live: Set<ConnId>,
)
    requires
        relayed(hub, auth, conn, req, fresh, after, auth_after, sent),
        live.contains(conn),
        relay_online_on(hub, live),
    ensures
        relay_online_on(HubView::empty(), Set::empty()),
        relay_online_on(after, live),
        relay_online_on(relay_disconnected(after, conn), live.remove(conn)),
{
}

} // verus!
