//! Handling requests.
use crate::auth::{ConnAuth, ConnAuthView};
use crate::crypto::{
    validate_dilithium_pubkey, validate_kyber_pubkey, verdict_view, verify_dilithium_signature,
    CryptoError,
};
use crate::encoding::{b64_decoding, b64_encoding, b64_is_injective};
use crate::errors::{DispatchError, DispatchErrorView};
use crate::fresh::{drawn_for, Fresh, FreshView};
use crate::model::{is_fan_out, pushed};
use crate::outside::{b64, b64_decode, uuid_bytes};
use crate::protocol::{
    views, ClientMessage, ClientMessageView, ConnId, Delivery, DeliveryView, Epoch, ServerId,
    ServerMessage, ServerMessageView, StoredMessage, UserId, UserRecord,
};
use crate::rules::{
    auth_wf, dispatched, epoch_room, key_forward_refusal, key_refusal, member_refusal,
    new_message, outcome_view, post_refusal, reply, request_keeps_well_formed, signed_payload,
    state_wf,
};
use crate::state::AppState;
use vstd::bytes::u64_to_le_bytes;
use vstd::prelude::*;

verus! {

/// A single frame to one connection.
pub fn reply_with(conn: ConnId, msg: ServerMessage) -> (sent: Vec<Delivery>)
    ensures
        views(sent@) == reply(conn, msg@),
{
    let mut sent: Vec<Delivery> = Vec::new();
    sent.push(Delivery { to: conn, msg });
    assert(views(sent@) =~= reply(conn, msg@));
    sent
}

/// Decodes base64 text, if that is what it is. The bytes encode to the same text.
fn from_base64(text: &str) -> (bytes: Option<Vec<u8>>)
    ensures
        bytes_view(bytes) == b64_decoding(text@),
        bytes matches Some(b) ==> b64_encoding(b@) == text@,
{
    match b64_decode(text) {
        Ok(bytes) => {
            proof {
                b64_is_injective(bytes@, b64_decoding(text@)->0);
            }
            Some(bytes)
        },
        Err(_) => None,
    }
}

/// The view of bytes that may be missing.
pub open spec fn bytes_view(bytes: Option<Vec<u8>>) -> Option<Seq<u8>> {
    match bytes {
        Some(b) => Some(b@),
        None => None,
    }
}

// ---------------------------------------------------------------------------
// Registration
// ---------------------------------------------------------------------------

/// Checks the decoded keys of a registration.
pub fn check_keys(kem: Option<Vec<u8>>, sig: Option<Vec<u8>>) -> (checked: Result<
    (Vec<u8>, Vec<u8>),
    DispatchError,
>)
    ensures
        match checked {
            Ok((k, s)) => {
                &&& key_refusal(bytes_view(kem), bytes_view(sig)) is None
                &&& bytes_view(kem) == Some(k@)
                &&& bytes_view(sig) == Some(s@)
            },
            Err(e) => key_refusal(bytes_view(kem), bytes_view(sig)) == Some(e@),
        },
{
    let kem: Vec<u8> = match kem {
        Some(kem) => kem,
        None => {
            return Err(DispatchError::KemKeyNotBase64);
        },
    };
    let sig: Vec<u8> = match sig {
        Some(sig) => sig,
        None => {
            return Err(DispatchError::SigKeyNotBase64);
        },
    };
    match validate_kyber_pubkey(kem.as_slice()) {
        Ok(()) => {},
        Err(e) => {
            return Err(DispatchError::Crypto(e));
        },
    }
    match validate_dilithium_pubkey(sig.as_slice()) {
        Ok(()) => {},
        Err(e) => {
            return Err(DispatchError::Crypto(e));
        },
    }
    Ok((kem, sig))
}

/// Registers a user under a fresh id.
fn register(
    state: &mut AppState,
    auth: &ConnAuth,
    conn: ConnId,
    display_name: String,
    kem_public_key: String,
    sig_public_key: String,
    fresh: &Fresh,
) -> (outcome: Result<Vec<Delivery>, DispatchError>)
    ensures
        dispatched(
            old(state)@,
            auth@,
            conn,
            ClientMessageView::Register {
                display_name: display_name@,
                kem_public_key: kem_public_key@,
                sig_public_key: sig_public_key@,
            },
            fresh@,
            final(state)@,
            auth@,
            outcome_view(outcome),
        ),
{
    let kem = from_base64(kem_public_key.as_str());
    let sig = from_base64(sig_public_key.as_str());
    match check_keys(kem, sig) {
        Ok((kem, sig)) => {
            let user_id: UserId = fresh.id;
            state.add_user(
                UserRecord {
                    user_id,
                    display_name,
                    kem_public_key: kem,
                    sig_public_key: sig,
                    created_at: fresh.now,
                },
            );
            Ok(reply_with(conn, ServerMessage::Registered { user_id }))
        },
        Err(e) => Err(e),
    }
}

// ---------------------------------------------------------------------------
// Authentication
// ---------------------------------------------------------------------------

/// Issues a challenge to a registered user.
fn auth_begin(
    state: &AppState,
    auth: &mut ConnAuth,
    conn: ConnId,
    user_id: UserId,
    fresh: &Fresh,
) -> (outcome: Result<Vec<Delivery>, DispatchError>)
    ensures
        dispatched(
            state@,
            old(auth)@,
            conn,
            ClientMessageView::AuthBegin { user_id },
            fresh@,
            state@,
            final(auth)@,
            outcome_view(outcome),
        ),
{
    if !state.knows_user(user_id) {
        return Err(DispatchError::UnknownUser);
    }
    let challenge = fresh.challenge.clone();
    let nonce = b64(challenge.as_slice());
    *auth = ConnAuth::Pending { user_id, challenge };
    Ok(reply_with(conn, ServerMessage::AuthChallenge { nonce }))
}

/// Promotes a connection whose user's signature was accepted, and brings the user
/// online on it.
pub fn finish_auth(
    state: &mut AppState,
    auth: &mut ConnAuth,
    conn: ConnId,
    user_id: UserId,
    verdict: Result<(), CryptoError>,
) -> (outcome: Result<Vec<Delivery>, DispatchError>)
    ensures
        match verdict_view(verdict) {
            Ok(()) => {
                &&& final(state)@ == old(state)@.with_session(user_id, conn)
                &&& final(auth)@ == ConnAuthView::Auth { user_id }
                &&& outcome_view(outcome) == Ok::<Seq<DeliveryView>, DispatchErrorView>(
                    reply(conn, ServerMessageView::Authenticated { user_id }),
                )
            },
            Err(e) => {
                &&& final(state)@ == old(state)@
                &&& final(auth)@ == old(auth)@
                &&& outcome_view(outcome) == Err::<Seq<DeliveryView>, DispatchErrorView>(
                    DispatchErrorView::Crypto(e),
                )
            },
        },
        state_wf(old(state)@) && old(state)@.users.contains_key(user_id) ==> state_wf(
            final(state)@,
        ),
{
    match verdict {
        Ok(()) => {
            state.open_session(user_id, conn);
            *auth = ConnAuth::Auth { user_id };
            Ok(reply_with(conn, ServerMessage::Authenticated { user_id }))
        },
        Err(e) => Err(DispatchError::Crypto(e)),
    }
}

/// Checks the signature over the pending challenge.
fn auth_finish(
    state: &mut AppState,
    auth: &mut ConnAuth,
    conn: ConnId,
    signature: String,
    fresh: &Fresh,
) -> (outcome: Result<Vec<Delivery>, DispatchError>)
    ensures
        dispatched(
            old(state)@,
            old(auth)@,
            conn,
            ClientMessageView::AuthFinish { signature: signature@ },
            fresh@,
            final(state)@,
            final(auth)@,
            outcome_view(outcome),
        ),
{
    let (user_id, challenge): (UserId, Vec<u8>) = match &*auth {
        ConnAuth::Pending { user_id, challenge } => (*user_id, challenge.clone()),
        _ => {
            return Err(DispatchError::NoPendingAuth);
        },
    };
    let signature = match from_base64(signature.as_str()) {
        Some(signature) => signature,
        None => {
            return Err(DispatchError::SignatureNotBase64);
        },
    };
    let user = match state.user(user_id) {
        Some(user) => user,
        None => {
            return Err(DispatchError::UnknownUser);
        },
    };
    let verdict = verify_dilithium_signature(
        user.sig_public_key.as_slice(),
        challenge.as_slice(),
        signature.as_slice(),
    );
    finish_auth(state, auth, conn, user_id, verdict)
}

// ---------------------------------------------------------------------------
// Channels
// ---------------------------------------------------------------------------

/// Opens a channel.
fn create_server(
    state: &mut AppState,
    me: UserId,
    conn: ConnId,
    name: String,
    fresh: &Fresh,
) -> (outcome: Result<Vec<Delivery>, DispatchError>)
    ensures
        dispatched(
            old(state)@,
            ConnAuthView::Auth { user_id: me },
            conn,
            ClientMessageView::CreateServer { name: name@ },
            fresh@,
            final(state)@,
            ConnAuthView::Auth { user_id: me },
            outcome_view(outcome),
        ),
{
    let server_id: ServerId = fresh.id;
    state.create_channel(server_id, name, me);
    Ok(reply_with(conn, ServerMessage::ServerCreated { server_id, epoch: 0 }))
}

/// Adds the requester to a channel and tells the members.
fn join_server(
    state: &mut AppState,
    me: UserId,
    conn: ConnId,
    server_id: ServerId,
    fresh: &Fresh,
) -> (outcome: Result<Vec<Delivery>, DispatchError>)
    requires
        epoch_room(
            old(state)@,
            ConnAuthView::Auth { user_id: me },
            ClientMessageView::JoinServer { server_id },
        ),
    ensures
        dispatched(
            old(state)@,
            ConnAuthView::Auth { user_id: me },
            conn,
            ClientMessageView::JoinServer { server_id },
            fresh@,
            final(state)@,
            ConnAuthView::Auth { user_id: me },
            outcome_view(outcome),
        ),
{
    let epoch: Epoch = match state.join_channel(server_id, me) {
        Ok(epoch) => epoch,
        Err(e) => {
            return Err(e);
        },
    };
    let ids = match state.member_ids(server_id) {
        Some(ids) => ids,
        None => Vec::new(),
    };
    let members = state.roster(&ids);
    let mut sent = reply_with(conn, ServerMessage::ServerJoined { server_id, epoch, members });
    let ghost first = views(sent@);
    match state.user(me) {
        Some(joiner) => {
            let notice = ServerMessage::MemberJoined {
                server_id,
                member: joiner.member_info(),
                epoch,
            };
            state.broadcast(server_id, Some(me), &notice, &mut sent);
        },
        None => {},
    }
    assert(first.len() == 1 && views(sent@).take(1)[0] == first[0]);
    Ok(sent)
}

/// Takes the requester out of a channel and tells the remaining members.
fn leave_server(
    state: &mut AppState,
    me: UserId,
    conn: ConnId,
    server_id: ServerId,
    fresh: &Fresh,
) -> (outcome: Result<Vec<Delivery>, DispatchError>)
    requires
        epoch_room(
            old(state)@,
            ConnAuthView::Auth { user_id: me },
            ClientMessageView::LeaveServer { server_id },
        ),
    ensures
        dispatched(
            old(state)@,
            ConnAuthView::Auth { user_id: me },
            conn,
            ClientMessageView::LeaveServer { server_id },
            fresh@,
            final(state)@,
            ConnAuthView::Auth { user_id: me },
            outcome_view(outcome),
        ),
{
    let epoch: Epoch = match state.leave_channel(server_id, me) {
        Ok(epoch) => epoch,
        Err(e) => {
            return Err(e);
        },
    };
    let mut sent = reply_with(conn, ServerMessage::ServerLeft { server_id });
    let ghost first = views(sent@);
    let notice = ServerMessage::MemberLeft { server_id, user_id: me, epoch };
    state.broadcast(server_id, Some(me), &notice, &mut sent);
    assert(first.len() == 1 && views(sent@).take(1)[0] == first[0]);
    Ok(sent)
}

// ---------------------------------------------------------------------------
// Keys and messages
// ---------------------------------------------------------------------------

/// Forwards a wrapped key verbatim from one member of a channel to another, given
/// whether it is base64.
pub fn forward_key(
    state: &AppState,
    me: UserId,
    server_id: ServerId,
    target: UserId,
    epoch: Epoch,
    wrapped_key: String,
    is_base64: bool,
) -> (outcome: Result<Vec<Delivery>, DispatchError>)
    ensures
        outcome_view(outcome) == match key_forward_refusal(
            state@,
            me,
            server_id,
            target,
            is_base64,
        ) {
            Some(e) => Err::<Seq<DeliveryView>, DispatchErrorView>(e),
            None => Ok::<Seq<DeliveryView>, DispatchErrorView>(
                pushed(
                    state@.queues(),
                    target,
                    ServerMessageView::KeyMaterial {
                        server_id,
                        from_user: me,
                        epoch,
                        wrapped_key: wrapped_key@,
                    },
                ),
            ),
        },
{
    match state.membership(server_id, me) {
        None => {
            return Err(DispatchError::UnknownServer);
        },
        Some(member) => if !member {
            return Err(DispatchError::NotInServer);
        },
    }
    match state.membership(server_id, target) {
        None => {
            return Err(DispatchError::UnknownServer);
        },
        Some(member) => if !member {
            return Err(DispatchError::TargetNotInServer);
        },
    }
    if !is_base64 {
        return Err(DispatchError::WrappedKeyNotBase64);
    }
    let mut sent: Vec<Delivery> = Vec::new();
    let ghost start = views(sent@);
    state.push(
        target,
        ServerMessage::KeyMaterial { server_id, from_user: me, epoch, wrapped_key },
        &mut sent,
    );
    assert(start + pushed(
        state@.queues(),
        target,
        ServerMessageView::KeyMaterial {
            server_id,
            from_user: me,
            epoch,
            wrapped_key: wrapped_key@,
        },
    ) =~= views(sent@));
    assert(start =~= Seq::empty());
    Ok(sent)
}

/// Whether a user may post to a channel at some epoch.
pub fn may_post(state: &AppState, me: UserId, server_id: ServerId, epoch: Epoch) -> (allowed: Result<
    (),
    DispatchError,
>)
    ensures
        match allowed {
            Ok(()) => post_refusal(state@, me, server_id, epoch) is None,
            Err(e) => post_refusal(state@, me, server_id, epoch) == Some(e@),
        },
{
    match state.membership(server_id, me) {
        None => {
            return Err(DispatchError::UnknownServer);
        },
        Some(member) => if !member {
            return Err(DispatchError::NotInServer);
        },
    }
    match state.epoch(server_id) {
        None => Err(DispatchError::UnknownServer),
        Some(expected) => if expected != epoch {
            Err(DispatchError::StaleEpoch { expected, got: epoch })
        } else {
            Ok(())
        },
    }
}

/// The bytes that a sender signs.
pub fn signed_bytes(server_id: ServerId, epoch: Epoch, ciphertext: &[u8], nonce: &[u8]) -> (bytes:
    Vec<u8>)
    ensures
        bytes@ == signed_payload(server_id, epoch, ciphertext@, nonce@),
{
    let mut bytes: Vec<u8> = uuid_bytes(server_id);
    let epoch_bytes: Vec<u8> = u64_to_le_bytes(epoch);
    bytes.extend_from_slice(epoch_bytes.as_slice());
    bytes.extend_from_slice(ciphertext);
    bytes.extend_from_slice(nonce);
    bytes
}

/// Stores a message whose signature was accepted and sends it to every online member
/// of its channel, its sender among them.
pub fn post_message(
    state: &mut AppState,
    server_id: ServerId,
    message: StoredMessage,
    verdict: Result<(), CryptoError>,
) -> (outcome: Result<Vec<Delivery>, DispatchError>)
    ensures
        match verdict_view(verdict) {
            Err(e) => {
                &&& final(state)@ == old(state)@
                &&& outcome_view(outcome) == Err::<Seq<DeliveryView>, DispatchErrorView>(
                    DispatchErrorView::MessageSignatureInvalid(e),
                )
            },
            Ok(()) => if old(state)@.channels.contains_key(server_id) {
                &&& final(state)@ == old(state)@.with_channel(
                    server_id,
                    old(state)@.channels[server_id].posted(message@),
                )
                &&& outcome_view(outcome) matches Ok(sent)
                &&& is_fan_out(
                    sent,
                    old(state)@.queues(),
                    old(state)@.channels[server_id].members,
                    None,
                    new_message(server_id, message@),
                )
            } else {
                &&& final(state)@ == old(state)@
                &&& outcome_view(outcome) == Err::<Seq<DeliveryView>, DispatchErrorView>(
                    DispatchErrorView::UnknownServer,
                )
            },
        },
        state_wf(old(state)@) && old(state)@.users.contains_key(message.sender) && (old(
            state,
        )@.channels.contains_key(server_id) ==> message.epoch <= old(
            state,
        )@.channels[server_id].epoch) ==> state_wf(final(state)@),
{
    match verdict {
        Ok(()) => {},
        Err(e) => {
            return Err(DispatchError::MessageSignatureInvalid(e));
        },
    }
    let frame = ServerMessage::NewMessage {
        server_id,
        message_id: message.message_id,
        sender: message.sender,
        epoch: message.epoch,
        nonce: b64(message.nonce.as_slice()),
        ciphertext: b64(message.ciphertext.as_slice()),
        signature: b64(message.signature.as_slice()),
        timestamp: message.timestamp,
    };
    match state.append_message(server_id, message) {
        Ok(()) => {},
        Err(e) => {
            return Err(e);
        },
    }
    let mut sent: Vec<Delivery> = Vec::new();
    state.broadcast(server_id, None, &frame, &mut sent);
    assert(views(sent@).skip(0) =~= views(sent@));
    assert(state@.queues() =~= old(state)@.queues());
    Ok(sent)
}

/// Takes a message from a member of a channel.
fn send_message(
    state: &mut AppState,
    me: UserId,
    conn: ConnId,
    server_id: ServerId,
    epoch: Epoch,
    nonce: String,
    ciphertext: String,
    signature: String,
    fresh: &Fresh,
) -> (outcome: Result<Vec<Delivery>, DispatchError>)
    ensures
        dispatched(
            old(state)@,
            ConnAuthView::Auth { user_id: me },
            conn,
            ClientMessageView::SendMessage {
                server_id,
                epoch,
                nonce: nonce@,
                ciphertext: ciphertext@,
                signature: signature@,
            },
            fresh@,
            final(state)@,
            ConnAuthView::Auth { user_id: me },
            outcome_view(outcome),
        ),
{
    let nonce = match from_base64(nonce.as_str()) {
        Some(nonce) => nonce,
        None => {
            return Err(DispatchError::NonceNotBase64);
        },
    };
    let ciphertext = match from_base64(ciphertext.as_str()) {
        Some(ciphertext) => ciphertext,
        None => {
            return Err(DispatchError::CiphertextNotBase64);
        },
    };
    let signature = match from_base64(signature.as_str()) {
        Some(signature) => signature,
        None => {
            return Err(DispatchError::SignatureNotBase64);
        },
    };
    match may_post(state, me, server_id, epoch) {
        Ok(()) => {},
        Err(e) => {
            return Err(e);
        },
    }
    let verdict = match state.user(me) {
        Some(user) => {
            let signed = signed_bytes(server_id, epoch, ciphertext.as_slice(), nonce.as_slice());
            verify_dilithium_signature(
                user.sig_public_key.as_slice(),
                signed.as_slice(),
                signature.as_slice(),
            )
        },
        None => Ok(()),
    };
    let message = StoredMessage {
        message_id: fresh.id,
        sender: me,
        epoch,
        nonce,
        ciphertext,
        signature,
        timestamp: fresh.now,
    };
    let outcome = post_message(state, server_id, message, verdict);
    assert(state@.queues() =~= old(state)@.queues());
    outcome
}

// ---------------------------------------------------------------------------
// Queries
// ---------------------------------------------------------------------------

/// Whether a user may ask about a channel.
pub fn may_query(state: &AppState, me: UserId, server_id: ServerId) -> (allowed: Result<
    (),
    DispatchError,
>)
    ensures
        match allowed {
            Ok(()) => member_refusal(state@, me, server_id) is None,
            Err(e) => member_refusal(state@, me, server_id) == Some(e@),
        },
{
    match state.membership(server_id, me) {
        None => Err(DispatchError::UnknownServer),
        Some(member) => if member {
            Ok(())
        } else {
            Err(DispatchError::NotMember)
        },
    }
}

/// Lists the members of a channel to a member.
fn list_members(
    state: &AppState,
    me: UserId,
    conn: ConnId,
    server_id: ServerId,
    fresh: &Fresh,
) -> (outcome: Result<Vec<Delivery>, DispatchError>)
    ensures
        dispatched(
            state@,
            ConnAuthView::Auth { user_id: me },
            conn,
            ClientMessageView::ListMembers { server_id },
            fresh@,
            state@,
            ConnAuthView::Auth { user_id: me },
            outcome_view(outcome),
        ),
{
    match may_query(state, me, server_id) {
        Ok(()) => {},
        Err(e) => {
            return Err(e);
        },
    }
    let ids = match state.member_ids(server_id) {
        Some(ids) => ids,
        None => Vec::new(),
    };
    let members = state.roster(&ids);
    Ok(reply_with(conn, ServerMessage::MemberList { server_id, members }))
}

/// Shows a channel's history to a member.
fn get_history(
    state: &AppState,
    me: UserId,
    conn: ConnId,
    server_id: ServerId,
    fresh: &Fresh,
) -> (outcome: Result<Vec<Delivery>, DispatchError>)
    ensures
        dispatched(
            state@,
            ConnAuthView::Auth { user_id: me },
            conn,
            ClientMessageView::GetHistory { server_id },
            fresh@,
            state@,
            ConnAuthView::Auth { user_id: me },
            outcome_view(outcome),
        ),
{
    match may_query(state, me, server_id) {
        Ok(()) => {},
        Err(e) => {
            return Err(e);
        },
    }
    let messages = match state.history(server_id) {
        Some(messages) => messages,
        None => Vec::new(),
    };
    Ok(reply_with(conn, ServerMessage::History { server_id, messages }))
}

/// Shows a user's record.
fn lookup_user(
    state: &AppState,
    me: UserId,
    conn: ConnId,
    user_id: UserId,
    fresh: &Fresh,
) -> (outcome: Result<Vec<Delivery>, DispatchError>)
    ensures
        dispatched(
            state@,
            ConnAuthView::Auth { user_id: me },
            conn,
            ClientMessageView::LookupUser { user_id },
            fresh@,
            state@,
            ConnAuthView::Auth { user_id: me },
            outcome_view(outcome),
        ),
{
    match state.user(user_id) {
        Some(user) => Ok(reply_with(conn, ServerMessage::UserInfo { user })),
        None => Err(DispatchError::UnknownUser),
    }
}

// ---------------------------------------------------------------------------
// Dispatch
// ---------------------------------------------------------------------------

/// Whether the epoch that a request would bump, if any, can be bumped. Only a channel
/// that has seen as many membership changes as an epoch can count has no room.
pub fn has_epoch_room(state: &AppState, auth: &ConnAuth, req: &ClientMessage) -> (room: bool)
    ensures
        room == epoch_room(state@, auth@, req@),
{
    let me: UserId = match auth.user() {
        Some(me) => me,
        None => {
            return true;
        },
    };
    let (server_id, joins): (ServerId, bool) = match req {
        ClientMessage::JoinServer { server_id } => (*server_id, true),
        ClientMessage::LeaveServer { server_id } => (*server_id, false),
        _ => {
            return true;
        },
    };
    match (state.membership(server_id, me), state.epoch(server_id)) {
        (Some(member), Some(epoch)) => member == joins || epoch < Epoch::MAX,
        _ => true,
    }
}

/// Handles a request of an authenticated user with given fresh values.
fn dispatch_user(
    state: &mut AppState,
    me: UserId,
    conn: ConnId,
    req: ClientMessage,
    fresh: &Fresh,
) -> (outcome: Result<Vec<Delivery>, DispatchError>)
    requires
        epoch_room(old(state)@, ConnAuthView::Auth { user_id: me }, req@),
        !(req is Ping || req is Register || req is AuthBegin || req is AuthFinish),
    ensures
        dispatched(
            old(state)@,
            ConnAuthView::Auth { user_id: me },
            conn,
            req@,
            fresh@,
            final(state)@,
            ConnAuthView::Auth { user_id: me },
            outcome_view(outcome),
        ),
{
    match req {
        ClientMessage::CreateServer { name } => create_server(state, me, conn, name, fresh),
        ClientMessage::JoinServer { server_id } => join_server(state, me, conn, server_id, fresh),
        ClientMessage::LeaveServer { server_id } => leave_server(state, me, conn, server_id, fresh),
        ClientMessage::DistributeKey { server_id, target_user_id, epoch, wrapped_key } => {
            let is_base64 = from_base64(wrapped_key.as_str()).is_some();
            forward_key(state, me, server_id, target_user_id, epoch, wrapped_key, is_base64)
        },
        ClientMessage::SendMessage { server_id, epoch, nonce, ciphertext, signature } => {
            send_message(state, me, conn, server_id, epoch, nonce, ciphertext, signature, fresh)
        },
        ClientMessage::ListServers => {
            let servers = state.servers();
            Ok(reply_with(conn, ServerMessage::ServerList { servers }))
        },
        ClientMessage::ListMembers { server_id } => list_members(state, me, conn, server_id, fresh),
        ClientMessage::GetHistory { server_id } => get_history(state, me, conn, server_id, fresh),
        ClientMessage::LookupUser { user_id } => lookup_user(state, me, conn, user_id, fresh),
        _ => Ok(Vec::new()),
    }
}

/// Handles a request with given fresh values.
pub fn dispatch_with(
    state: &mut AppState,
    auth: &mut ConnAuth,
    conn: ConnId,
    req: ClientMessage,
    fresh: &Fresh,
) -> (outcome: Result<Vec<Delivery>, DispatchError>)
    requires
        epoch_room(old(state)@, old(auth)@, req@),
    ensures
        dispatched(
            old(state)@,
            old(auth)@,
            conn,
            req@,
            fresh@,
            final(state)@,
            final(auth)@,
            outcome_view(outcome),
        ),
        state_wf(old(state)@) && auth_wf(old(state)@, old(auth)@) ==> state_wf(final(state)@)
            && auth_wf(final(state)@, final(auth)@),
{
    let ghost r = req@;
    let outcome = match req {
        ClientMessage::Ping => Ok(reply_with(conn, ServerMessage::Pong)),
        ClientMessage::Register { display_name, kem_public_key, sig_public_key } => register(
            state,
            auth,
            conn,
            display_name,
            kem_public_key,
            sig_public_key,
            fresh,
        ),
        ClientMessage::AuthBegin { user_id } => auth_begin(state, auth, conn, user_id, fresh),
        ClientMessage::AuthFinish { signature } => auth_finish(state, auth, conn, signature, fresh),
        req => match auth.user() {
            Some(me) => dispatch_user(state, me, conn, req, fresh),
            None => Err(DispatchError::NotAuthenticated),
        },
    };
    proof {
        if state_wf(old(state)@) && auth_wf(old(state)@, old(auth)@) {
            request_keeps_well_formed(
                old(state)@,
                old(auth)@,
                conn,
                r,
                fresh@,
                state@,
                auth@,
                outcome_view(outcome),
            );
        }
    }
    outcome
}

/// Handles a single request. A violation of the protocol comes back as an error; the
/// connection stays.
pub fn dispatch(state: &mut AppState, auth: &mut ConnAuth, conn: ConnId, req: ClientMessage) -> (outcome:
    Result<Vec<Delivery>, DispatchError>)
    requires
        epoch_room(old(state)@, old(auth)@, req@),
    ensures
        exists|fresh: FreshView|
            drawn_for(fresh, req@) && #[trigger] dispatched(
                old(state)@,
                old(auth)@,
                conn,
                req@,
                fresh,
                final(state)@,
                final(auth)@,
                outcome_view(outcome),
            ),
        state_wf(old(state)@) && auth_wf(old(state)@, old(auth)@) ==> state_wf(final(state)@)
            && auth_wf(final(state)@, final(auth)@),
{
    let fresh = Fresh::draw(&req);
    dispatch_with(state, auth, conn, req, &fresh)
}

} // verus!
