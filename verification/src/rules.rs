//! What each request does: when it is refused, how it changes the state, and which
//! frames it sends.
use crate::auth::ConnAuthView;
use crate::crypto::{dilithium_key_verdict, kyber_key_verdict, signature_verdict};
use crate::encoding::{b64_decoding, b64_encoding};
use crate::errors::{DispatchError, DispatchErrorView};
use crate::fresh::FreshView;
use crate::model::{
    is_fan_out, is_listing, is_roster, pushed, AppStateView, ChannelView, MAX_HISTORY,
};
use crate::outside::uuid_octets;
use crate::protocol::{
    member_view, views, ClientMessageView, ConnId, Delivery, DeliveryView, Epoch, ServerId,
    ServerMessageView, StoredMessageView, UserId, UserRecordView,
};
use vstd::bytes::spec_u64_to_le_bytes;
use vstd::prelude::*;

verus! {

// ---------------------------------------------------------------------------
// Refusals
// ---------------------------------------------------------------------------

/// Why a registration with these decoded keys is refused, if it is.
pub open spec fn key_refusal(kem: Option<Seq<u8>>, sig: Option<Seq<u8>>) -> Option<
    DispatchErrorView,
> {
    match (kem, sig) {
        (None, _) => Some(DispatchErrorView::KemKeyNotBase64),
        (_, None) => Some(DispatchErrorView::SigKeyNotBase64),
        (Some(kem), Some(sig)) => match (kyber_key_verdict(kem), dilithium_key_verdict(sig)) {
            (Err(e), _) => Some(DispatchErrorView::Crypto(e)),
            (_, Err(e)) => Some(DispatchErrorView::Crypto(e)),
            _ => None,
        },
    }
}

/// Why a signature over a pending challenge is refused, if it is.
pub open spec fn auth_finish_refusal(
    state: AppStateView,
    user_id: UserId,
    challenge: Seq<u8>,
    signature: Option<Seq<u8>>,
) -> Option<DispatchErrorView> {
    match signature {
        None => Some(DispatchErrorView::SignatureNotBase64),
        Some(signature) => if !state.users.contains_key(user_id) {
            Some(DispatchErrorView::UnknownUser)
        } else {
            match signature_verdict(state.users[user_id].sig_public_key, challenge, signature) {
                Ok(()) => None,
                Err(e) => Some(DispatchErrorView::Crypto(e)),
            }
        },
    }
}

/// Why a member-only query about a channel is refused, if it is.
pub open spec fn member_refusal(state: AppStateView, me: UserId, server_id: ServerId) -> Option<
    DispatchErrorView,
> {
    if !state.channels.contains_key(server_id) {
        Some(DispatchErrorView::UnknownServer)
    } else if !state.channels[server_id].members.contains(me) {
        Some(DispatchErrorView::NotMember)
    } else {
        None
    }
}

/// Why forwarding a key is refused, if it is.
pub open spec fn key_forward_refusal(
    state: AppStateView,
    me: UserId,
    server_id: ServerId,
    target: UserId,
    is_base64: bool,
) -> Option<DispatchErrorView> {
    if !state.channels.contains_key(server_id) {
        Some(DispatchErrorView::UnknownServer)
    } else if !state.channels[server_id].members.contains(me) {
        Some(DispatchErrorView::NotInServer)
    } else if !state.channels[server_id].members.contains(target) {
        Some(DispatchErrorView::TargetNotInServer)
    } else if !is_base64 {
        Some(DispatchErrorView::WrappedKeyNotBase64)
    } else {
        None
    }
}

/// Why posting to a channel at some epoch is refused, if it is, whatever the message.
pub open spec fn post_refusal(
    state: AppStateView,
    me: UserId,
    server_id: ServerId,
    epoch: Epoch,
) -> Option<DispatchErrorView> {
    if !state.channels.contains_key(server_id) {
        Some(DispatchErrorView::UnknownServer)
    } else if !state.channels[server_id].members.contains(me) {
        Some(DispatchErrorView::NotInServer)
    } else if state.channels[server_id].epoch != epoch {
        Some(
            DispatchErrorView::StaleEpoch {
                expected: state.channels[server_id].epoch,
                got: epoch,
            },
        )
    } else {
        None
    }
}

/// What a sender signs: channel, epoch, ciphertext and nonce.
pub open spec fn signed_payload(
    server_id: ServerId,
    epoch: Epoch,
    ciphertext: Seq<u8>,
    nonce: Seq<u8>,
) -> Seq<u8> {
    uuid_octets(server_id) + spec_u64_to_le_bytes(epoch) + ciphertext + nonce
}

/// Why a message is refused, if it is.
pub open spec fn message_refusal(
    state: AppStateView,
    me: UserId,
    server_id: ServerId,
    epoch: Epoch,
    nonce: Option<Seq<u8>>,
    ciphertext: Option<Seq<u8>>,
    signature: Option<Seq<u8>>,
) -> Option<DispatchErrorView> {
    match (nonce, ciphertext, signature) {
        (None, _, _) => Some(DispatchErrorView::NonceNotBase64),
        (_, None, _) => Some(DispatchErrorView::CiphertextNotBase64),
        (_, _, None) => Some(DispatchErrorView::SignatureNotBase64),
        (Some(nonce), Some(ciphertext), Some(signature)) => {
            if post_refusal(state, me, server_id, epoch) is Some {
                post_refusal(state, me, server_id, epoch)
            } else if !state.users.contains_key(me) {
                None
            } else {
                match signature_verdict(
                    state.users[me].sig_public_key,
                    signed_payload(server_id, epoch, ciphertext, nonce),
                    signature,
                ) {
                    Ok(()) => None,
                    Err(e) => Some(DispatchErrorView::MessageSignatureInvalid(e)),
                }
            }
        },
    }
}

/// Why a request of an authenticated user is refused, if it is.
pub open spec fn user_refusal(state: AppStateView, me: UserId, req: ClientMessageView) -> Option<
    DispatchErrorView,
> {
    match req {
        ClientMessageView::JoinServer { server_id } => if !state.channels.contains_key(server_id) {
            Some(DispatchErrorView::UnknownServer)
        } else if state.channels[server_id].members.contains(me) {
            Some(DispatchErrorView::AlreadyMember)
        } else {
            None
        },
        ClientMessageView::LeaveServer { server_id }
        | ClientMessageView::ListMembers { server_id }
        | ClientMessageView::GetHistory { server_id } => member_refusal(state, me, server_id),
        ClientMessageView::DistributeKey { server_id, target_user_id, epoch, wrapped_key } => {
            key_forward_refusal(
                state,
                me,
                server_id,
                target_user_id,
                b64_decoding(wrapped_key) is Some,
            )
        },
        ClientMessageView::SendMessage { server_id, epoch, nonce, ciphertext, signature } => {
            message_refusal(
                state,
                me,
                server_id,
                epoch,
                b64_decoding(nonce),
                b64_decoding(ciphertext),
                b64_decoding(signature),
            )
        },
        ClientMessageView::LookupUser { user_id } => if state.users.contains_key(user_id) {
            None
        } else {
            Some(DispatchErrorView::UnknownUser)
        },
        _ => None,
    }
}

/// Why a request is refused, if it is.
pub open spec fn refusal(state: AppStateView, auth: ConnAuthView, req: ClientMessageView) -> Option<
    DispatchErrorView,
> {
    match req {
        ClientMessageView::Ping => None,
        ClientMessageView::Register { display_name, kem_public_key, sig_public_key } => key_refusal(
            b64_decoding(kem_public_key),
            b64_decoding(sig_public_key),
        ),
        ClientMessageView::AuthBegin { user_id } => if state.users.contains_key(user_id) {
            None
        } else {
            Some(DispatchErrorView::UnknownUser)
        },
        ClientMessageView::AuthFinish { signature } => match auth {
            ConnAuthView::Pending { user_id, challenge } => auth_finish_refusal(
                state,
                user_id,
                challenge,
                b64_decoding(signature),
            ),
            _ => Some(DispatchErrorView::NoPendingAuth),
        },
        _ => match auth {
            ConnAuthView::Auth { user_id } => user_refusal(state, user_id, req),
            _ => Some(DispatchErrorView::NotAuthenticated),
        },
    }
}

// ---------------------------------------------------------------------------
// Effects of a request that is not refused
// ---------------------------------------------------------------------------

/// The record of a newly registered user.
pub open spec fn registered(
    display_name: Seq<char>,
    kem_public_key: Seq<u8>,
    sig_public_key: Seq<u8>,
    fresh: FreshView,
) -> UserRecordView {
    UserRecordView {
        user_id: fresh.id,
        display_name,
        kem_public_key,
        sig_public_key,
        created_at: fresh.now,
    }
}

/// A message as it is stored.
pub open spec fn stored(
    me: UserId,
    epoch: Epoch,
    nonce: Seq<u8>,
    ciphertext: Seq<u8>,
    signature: Seq<u8>,
    fresh: FreshView,
) -> StoredMessageView {
    StoredMessageView {
        message_id: fresh.id,
        sender: me,
        epoch,
        nonce,
        ciphertext,
        signature,
        timestamp: fresh.now,
    }
}

/// The frame in which a stored message is sent out.
pub open spec fn new_message(server_id: ServerId, message: StoredMessageView) -> ServerMessageView {
    ServerMessageView::NewMessage {
        server_id,
        message_id: message.message_id,
        sender: message.sender,
        epoch: message.epoch,
        nonce: b64_encoding(message.nonce),
        ciphertext: b64_encoding(message.ciphertext),
        signature: b64_encoding(message.signature),
        timestamp: message.timestamp,
    }
}

/// What a text decodes to; used where it is known to be base64.
pub open spec fn decoded(text: Seq<char>) -> Seq<u8> {
    b64_decoding(text)->0
}

/// The state after an accepted request of an authenticated user.
pub open spec fn user_next_state(
    state: AppStateView,
    me: UserId,
    req: ClientMessageView,
    fresh: FreshView,
) -> AppStateView {
    match req {
        ClientMessageView::CreateServer { name } => state.with_channel(
            fresh.id,
            ChannelView::created(fresh.id, name, me),
        ),
        ClientMessageView::JoinServer { server_id } => state.with_channel(
            server_id,
            state.channels[server_id].joined(me),
        ),
        ClientMessageView::LeaveServer { server_id } => state.with_channel(
            server_id,
            state.channels[server_id].left(me),
        ),
        ClientMessageView::SendMessage { server_id, epoch, nonce, ciphertext, signature } => {
            state.with_channel(
                server_id,
                state.channels[server_id].posted(
                    stored(
                        me,
                        epoch,
                        decoded(nonce),
                        decoded(ciphertext),
                        decoded(signature),
                        fresh,
                    ),
                ),
            )
        },
        _ => state,
    }
}

/// The state after an accepted request.
pub open spec fn next_state(
    state: AppStateView,
    auth: ConnAuthView,
    conn: ConnId,
    req: ClientMessageView,
    fresh: FreshView,
) -> AppStateView {
    match req {
        ClientMessageView::Register { display_name, kem_public_key, sig_public_key } => {
            state.with_user(
                registered(display_name, decoded(kem_public_key), decoded(sig_public_key), fresh),
            )
        },
        ClientMessageView::AuthFinish { signature } => match auth {
            ConnAuthView::Pending { user_id, challenge } => state.with_session(user_id, conn),
            _ => state,
        },
        _ => match auth {
            ConnAuthView::Auth { user_id } => user_next_state(state, user_id, req, fresh),
            _ => state,
        },
    }
}

/// The connection's authentication after an accepted request.
pub open spec fn next_auth(
    auth: ConnAuthView,
    req: ClientMessageView,
    fresh: FreshView,
) -> ConnAuthView {
    match req {
        ClientMessageView::AuthBegin { user_id } => ConnAuthView::Pending {
            user_id,
            challenge: fresh.challenge,
        },
        ClientMessageView::AuthFinish { signature } => match auth {
            ConnAuthView::Pending { user_id, challenge } => ConnAuthView::Auth { user_id },
            _ => auth,
        },
        _ => auth,
    }
}

/// A single frame to the connection that made the request.
pub open spec fn reply(conn: ConnId, msg: ServerMessageView) -> Seq<DeliveryView> {
    seq![DeliveryView { to: conn, msg }]
}

/// What a join sends: the roster to the joiner, then the news to every other member
/// that is online.
pub open spec fn join_sent(
    after: AppStateView,
    me: UserId,
    conn: ConnId,
    server_id: ServerId,
    sent: Seq<DeliveryView>,
) -> bool {
    let channel = after.channels[server_id];
    &&& sent.len() >= 1
    &&& sent[0].to == conn
    &&& sent[0].msg matches ServerMessageView::ServerJoined { server_id: id, epoch, members }
    &&& id == server_id
    &&& epoch == channel.epoch
    &&& is_roster(members, after.users, channel.members)
    &&& if after.users.contains_key(me) {
        is_fan_out(
            sent.skip(1),
            after.queues(),
            channel.members,
            Some(me),
            ServerMessageView::MemberJoined {
                server_id,
                member: member_view(after.users[me]),
                epoch: channel.epoch,
            },
        )
    } else {
        sent.len() == 1
    }
}

/// What a leave sends: an acknowledgement, then the news to every remaining member
/// that is online.
pub open spec fn leave_sent(
    after: AppStateView,
    me: UserId,
    conn: ConnId,
    server_id: ServerId,
    sent: Seq<DeliveryView>,
) -> bool {
    let channel = after.channels[server_id];
    &&& sent.len() >= 1
    &&& sent[0] == DeliveryView { to: conn, msg: ServerMessageView::ServerLeft { server_id } }
    &&& is_fan_out(
        sent.skip(1),
        after.queues(),
        channel.members,
        Some(me),
        ServerMessageView::MemberLeft { server_id, user_id: me, epoch: channel.epoch },
    )
}

/// What an accepted request of an authenticated user sends, given the state after it.
pub open spec fn user_sent(
    after: AppStateView,
    me: UserId,
    conn: ConnId,
    req: ClientMessageView,
    fresh: FreshView,
    sent: Seq<DeliveryView>,
) -> bool {
    match req {
        ClientMessageView::CreateServer { name } => sent == reply(
            conn,
            ServerMessageView::ServerCreated { server_id: fresh.id, epoch: 0 },
        ),
        ClientMessageView::JoinServer { server_id } => join_sent(after, me, conn, server_id, sent),
        ClientMessageView::LeaveServer { server_id } => leave_sent(after, me, conn, server_id, sent),
        ClientMessageView::DistributeKey { server_id, target_user_id, epoch, wrapped_key } => sent
            == pushed(
            after.queues(),
            target_user_id,
            ServerMessageView::KeyMaterial { server_id, from_user: me, epoch, wrapped_key },
        ),
        ClientMessageView::SendMessage { server_id, epoch, nonce, ciphertext, signature } => {
            is_fan_out(
                sent,
                after.queues(),
                after.channels[server_id].members,
                None,
                ServerMessageView::NewMessage {
                    server_id,
                    message_id: fresh.id,
                    sender: me,
                    epoch,
                    nonce,
                    ciphertext,
                    signature,
                    timestamp: fresh.now,
                },
            )
        },
        ClientMessageView::ListServers => {
            &&& sent.len() == 1
            &&& sent[0].to == conn
            &&& sent[0].msg matches ServerMessageView::ServerList { servers }
            &&& is_listing(servers, after.channels)
        },
        ClientMessageView::ListMembers { server_id } => {
            &&& sent.len() == 1
            &&& sent[0].to == conn
            &&& sent[0].msg matches ServerMessageView::MemberList { server_id: id, members }
            &&& id == server_id
            &&& is_roster(members, after.users, after.channels[server_id].members)
        },
        ClientMessageView::GetHistory { server_id } => sent == reply(
            conn,
            ServerMessageView::History { server_id, messages: after.channels[server_id].history },
        ),
        ClientMessageView::LookupUser { user_id } => sent == reply(
            conn,
            ServerMessageView::UserInfo { user: after.users[user_id] },
        ),
        _ => true,
    }
}

/// What an accepted request sends, given the state after it.
pub open spec fn sent_by(
    after: AppStateView,
    auth: ConnAuthView,
    conn: ConnId,
    req: ClientMessageView,
    fresh: FreshView,
    sent: Seq<DeliveryView>,
) -> bool {
    match req {
        ClientMessageView::Ping => sent == reply(conn, ServerMessageView::Pong),
        ClientMessageView::Register { .. } => sent == reply(
            conn,
            ServerMessageView::Registered { user_id: fresh.id },
        ),
        ClientMessageView::AuthBegin { user_id } => sent == reply(
            conn,
            ServerMessageView::AuthChallenge { nonce: b64_encoding(fresh.challenge) },
        ),
        ClientMessageView::AuthFinish { signature } => match auth {
            ConnAuthView::Pending { user_id, challenge } => sent == reply(
                conn,
                ServerMessageView::Authenticated { user_id },
            ),
            _ => true,
        },
        _ => match auth {
            ConnAuthView::Auth { user_id } => user_sent(after, user_id, conn, req, fresh, sent),
            _ => true,
        },
    }
}

// ---------------------------------------------------------------------------
// A whole request
// ---------------------------------------------------------------------------

/// What handling a request comes to: the frames to send, or the refusal.
pub open spec fn outcome_view(outcome: Result<Vec<Delivery>, DispatchError>) -> Result<
    Seq<DeliveryView>,
    DispatchErrorView,
> {
    match outcome {
        Ok(sent) => Ok(views(sent@)),
        Err(e) => Err(e@),
    }
}

/// What a request on a connection does. A refused request changes nothing; any other
/// changes the state and the connection's authentication, and sends frames, as the
/// rules above say.
pub open spec fn dispatched(
    state: AppStateView,
    auth: ConnAuthView,
    conn: ConnId,
    req: ClientMessageView,
    fresh: FreshView,
    after: AppStateView,
    auth_after: ConnAuthView,
    outcome: Result<Seq<DeliveryView>, DispatchErrorView>,
) -> bool {
    match refusal(state, auth, req) {
        Some(e) => {
            &&& outcome == Err::<Seq<DeliveryView>, DispatchErrorView>(e)
            &&& after == state
            &&& auth_after == auth
        },
        None => {
            &&& after == next_state(state, auth, conn, req, fresh)
            &&& auth_after == next_auth(auth, req, fresh)
            &&& outcome matches Ok(sent)
            &&& sent_by(after, auth, conn, req, fresh, sent)
        },
    }
}

/// Whether the epoch that a request would bump, if any, can be bumped.
pub open spec fn epoch_room(state: AppStateView, auth: ConnAuthView, req: ClientMessageView) -> bool {
    match (auth, req) {
        (ConnAuthView::Auth { user_id }, ClientMessageView::JoinServer { server_id }) => {
            state.channels.contains_key(server_id) && !state.is_member(server_id, user_id)
                ==> state.channels[server_id].epoch < Epoch::MAX
        },
        (ConnAuthView::Auth { user_id }, ClientMessageView::LeaveServer { server_id }) => {
            state.is_member(server_id, user_id) ==> state.channels[server_id].epoch < Epoch::MAX
        },
        _ => true,
    }
}

// ---------------------------------------------------------------------------
// Well-formedness
// ---------------------------------------------------------------------------

/// A user's record is filed under its id, with keys of the right length.
pub open spec fn user_wf(id: UserId, user: UserRecordView) -> bool {
    &&& user.user_id == id
    &&& kyber_key_verdict(user.kem_public_key) is Ok
    &&& dilithium_key_verdict(user.sig_public_key) is Ok
}

/// A channel is filed under its id, everyone in it is registered, and its history is
/// within the cap and of no later epoch than the channel.
pub open spec fn channel_wf(
    users: Map<UserId, UserRecordView>,
    id: ServerId,
    channel: ChannelView,
) -> bool {
    &&& channel.server_id == id
    &&& users.contains_key(channel.owner_id)
    &&& channel.members.finite()
    &&& channel.members.subset_of(users.dom())
    &&& channel.history.len() <= MAX_HISTORY
    &&& forall|i: int|
        0 <= i < channel.history.len() ==> {
            &&& users.contains_key((#[trigger] channel.history[i]).sender)
            &&& channel.history[i].epoch <= channel.epoch
        }
}

/// What every request keeps of the shared state.
pub open spec fn state_wf(state: AppStateView) -> bool {
    &&& forall|id: UserId| #[trigger]
        state.users.contains_key(id) ==> user_wf(id, state.users[id])
    &&& forall|id: ServerId| #[trigger]
        state.channels.contains_key(id) ==> channel_wf(state.users, id, state.channels[id])
    &&& forall|id: UserId| #[trigger]
        state.online.contains_key(id) ==> state.online[id].user_id == id && state.users.contains_key(
            id,
        )
}

/// What every request keeps of a connection's authentication: it speaks of a
/// registered user.
pub open spec fn auth_wf(state: AppStateView, auth: ConnAuthView) -> bool {
    match auth {
        ConnAuthView::Anonymous => true,
        ConnAuthView::Pending { user_id, challenge } => state.users.contains_key(user_id),
        ConnAuthView::Auth { user_id } => state.users.contains_key(user_id),
    }
}

/// Putting a well-formed channel in place keeps the state well-formed.
pub proof fn channel_keeps_well_formed(state: AppStateView, id: ServerId, channel: ChannelView)
    requires
        state_wf(state),
        channel_wf(state.users, id, channel),
    ensures
        state_wf(state.with_channel(id, channel)),
{
}

/// A join of a registered user, a leave, and a post by a registered user of no later
/// epoch keep a channel well-formed.
pub proof fn change_keeps_channel_well_formed(
    users: Map<UserId, UserRecordView>,
    id: ServerId,
    channel: ChannelView,
    user: UserId,
    message: StoredMessageView,
)
    requires
        channel_wf(users, id, channel),
    ensures
        users.contains_key(user) && channel.epoch < Epoch::MAX ==> channel_wf(
            users,
            id,
            channel.joined(user),
        ),
        channel.epoch < Epoch::MAX ==> channel_wf(users, id, channel.left(user)),
        users.contains_key(message.sender) && message.epoch <= channel.epoch ==> channel_wf(
            users,
            id,
            channel.posted(message),
        ),
{
    if users.contains_key(message.sender) && message.epoch <= channel.epoch {
        let log = channel.history.push(message);
        let kept = channel.posted(message).history;
        assert forall|i: int| 0 <= i < kept.len() implies users.contains_key(
            (#[trigger] kept[i]).sender,
        ) && kept[i].epoch <= channel.epoch by {
            let j = log.len() - kept.len() + i;
            assert(kept[i] == log[j]);
            if j < channel.history.len() {
                assert(log[j] == channel.history[j]);
            }
        }
    }
}

/// A request keeps the state and the connection's authentication well-formed.
pub proof fn request_keeps_well_formed(
    state: AppStateView,
    auth: ConnAuthView,
    conn: ConnId,
    req: ClientMessageView,
    fresh: FreshView,
    after: AppStateView,
    auth_after: ConnAuthView,
    outcome: Result<Seq<DeliveryView>, DispatchErrorView>,
)
    requires
        dispatched(state, auth, conn, req, fresh, after, auth_after, outcome),
        epoch_room(state, auth, req),
        state_wf(state),
        auth_wf(state, auth),
    ensures
        state_wf(after),
        auth_wf(after, auth_after),
        forall|other: ConnAuthView| #[trigger] auth_wf(state, other) ==> auth_wf(after, other),
{
    assert(forall|id: UserId| state.users.contains_key(id) ==> after.users.contains_key(id));
    assert forall|id: ServerId| #[trigger] after.channels.contains_key(id) implies channel_wf(
        after.users,
        id,
        after.channels[id],
    ) by {
        if state.channels.contains_key(id) {
            assert(channel_wf(state.users, id, state.channels[id]));
            match (auth, req) {
                (
                    ConnAuthView::Auth { user_id },
                    ClientMessageView::SendMessage { server_id, epoch, nonce, ciphertext, signature },
                ) => {
                    change_keeps_channel_well_formed(
                        state.users,
                        id,
                        state.channels[id],
                        user_id,
                        stored(
                            user_id,
                            epoch,
                            decoded(nonce),
                            decoded(ciphertext),
                            decoded(signature),
                            fresh,
                        ),
                    );
                },
                (ConnAuthView::Auth { user_id }, _) => {
                    change_keeps_channel_well_formed(
                        state.users,
                        id,
                        state.channels[id],
                        user_id,
                        arbitrary(),
                    );
                },
                _ => {},
            }
        }
    }
}

} // verus!
