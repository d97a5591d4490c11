//! What contracts see of a value is what the value holds: no field is lost, moved or
//! changed on the way.
use crate::auth::ConnAuth;
use crate::connection::{SocketEvent, Step};
use crate::crypto::{verdict_view, CryptoError};
use crate::dispatch::bytes_view;
use crate::errors::{DispatchError, DispatchErrorView};
use crate::fresh::Fresh;
use crate::protocol::{
    views, ClientMessage, Delivery, MemberInfo, ServerInfo, ServerMessage, StoredMessage, UserId,
    UserRecord,
};
use crate::relay::user_views;
use crate::rules::outcome_view;
use vstd::prelude::*;

verus! {

/// A user record is seen field by field.
pub proof fn user_record_view_law(user: UserRecord)
    ensures
        user@.user_id == user.user_id,
        user@.display_name == user.display_name@,
        user@.kem_public_key == user.kem_public_key@,
        user@.sig_public_key == user.sig_public_key@,
        user@.created_at == user.created_at,
{
}

/// A stored message is seen field by field.
pub proof fn stored_message_view_law(message: StoredMessage)
    ensures
        message@.message_id == message.message_id,
        message@.sender == message.sender,
        message@.epoch == message.epoch,
        message@.nonce == message.nonce@,
        message@.ciphertext == message.ciphertext@,
        message@.signature == message.signature@,
        message@.timestamp == message.timestamp,
{
}

/// A member's line is seen field by field.
pub proof fn member_info_view_law(info: MemberInfo)
    ensures
        info@.user_id == info.user_id,
        info@.display_name == info.display_name@,
        info@.kem_public_key == info.kem_public_key@,
        info@.sig_public_key == info.sig_public_key@,
{
}

/// A channel's line is seen field by field.
pub proof fn server_info_view_law(info: ServerInfo)
    ensures
        info@.server_id == info.server_id,
        info@.name == info.name@,
        info@.owner_id == info.owner_id,
        info@.member_count == info.member_count,
{
}

/// A delivery is seen field by field.
pub proof fn delivery_view_law(delivery: Delivery)
    ensures
        delivery@.to == delivery.to,
        delivery@.msg == delivery.msg@,
{
}

/// A request is seen field by field.
pub proof fn request_view_law(msg: ClientMessage)
    ensures
        msg is Register <==> msg@ is Register,
        msg is Register ==> {
            &&& msg@->Register_display_name == (msg->Register_display_name)@
            &&& msg@->Register_kem_public_key == (msg->Register_kem_public_key)@
            &&& msg@->Register_sig_public_key == (msg->Register_sig_public_key)@
        },
        msg is AuthBegin <==> msg@ is AuthBegin,
        msg is AuthBegin ==> {
            &&& msg@->AuthBegin_user_id == msg->AuthBegin_user_id
        },
        msg is AuthFinish <==> msg@ is AuthFinish,
        msg is AuthFinish ==> {
            &&& msg@->AuthFinish_signature == (msg->AuthFinish_signature)@
        },
        msg is CreateServer <==> msg@ is CreateServer,
        msg is CreateServer ==> {
            &&& msg@->CreateServer_name == (msg->CreateServer_name)@
        },
        msg is JoinServer <==> msg@ is JoinServer,
        msg is JoinServer ==> {
            &&& msg@->JoinServer_server_id == msg->JoinServer_server_id
        },
        msg is LeaveServer <==> msg@ is LeaveServer,
        msg is LeaveServer ==> {
            &&& msg@->LeaveServer_server_id == msg->LeaveServer_server_id
        },
        msg is DistributeKey <==> msg@ is DistributeKey,
        msg is DistributeKey ==> {
            &&& msg@->DistributeKey_server_id == msg->DistributeKey_server_id
            &&& msg@->DistributeKey_target_user_id == msg->DistributeKey_target_user_id
            &&& msg@->DistributeKey_epoch == msg->DistributeKey_epoch
            &&& msg@->DistributeKey_wrapped_key == (msg->DistributeKey_wrapped_key)@
        },
        msg is SendMessage <==> msg@ is SendMessage,
        msg is SendMessage ==> {
            &&& msg@->SendMessage_server_id == msg->SendMessage_server_id
            &&& msg@->SendMessage_epoch == msg->SendMessage_epoch
            &&& msg@->SendMessage_nonce == (msg->SendMessage_nonce)@
            &&& msg@->SendMessage_ciphertext == (msg->SendMessage_ciphertext)@
            &&& msg@->SendMessage_signature == (msg->SendMessage_signature)@
        },
        msg is ListServers <==> msg@ is ListServers,
        msg is ListMembers <==> msg@ is ListMembers,
        msg is ListMembers ==> {
            &&& msg@->ListMembers_server_id == msg->ListMembers_server_id
        },
        msg is GetHistory <==> msg@ is GetHistory,
        msg is GetHistory ==> {
            &&& msg@->GetHistory_server_id == msg->GetHistory_server_id
        },
        msg is LookupUser <==> msg@ is LookupUser,
        msg is LookupUser ==> {
            &&& msg@->LookupUser_user_id == msg->LookupUser_user_id
        },
        msg is Ping <==> msg@ is Ping,
{
}

/// A frame is seen field by field, and its lists line by line.
pub proof fn frame_view_law(msg: ServerMessage, i: int)
    ensures
        msg is Registered <==> msg@ is Registered,
        msg is Registered ==> {
            &&& msg@->Registered_user_id == msg->Registered_user_id
        },
        msg is AuthChallenge <==> msg@ is AuthChallenge,
        msg is AuthChallenge ==> {
            &&& msg@->AuthChallenge_nonce == (msg->AuthChallenge_nonce)@
        },
        msg is Authenticated <==> msg@ is Authenticated,
        msg is Authenticated ==> {
            &&& msg@->Authenticated_user_id == msg->Authenticated_user_id
        },
        msg is Error <==> msg@ is Error,
        msg is Error ==> {
            &&& msg@->Error_reason == (msg->Error_reason)@
        },
        msg is ServerCreated <==> msg@ is ServerCreated,
        msg is ServerCreated ==> {
            &&& msg@->ServerCreated_server_id == msg->ServerCreated_server_id
            &&& msg@->ServerCreated_epoch == msg->ServerCreated_epoch
        },
        msg is ServerJoined <==> msg@ is ServerJoined,
        msg is ServerJoined ==> {
            &&& msg@->ServerJoined_server_id == msg->ServerJoined_server_id
            &&& msg@->ServerJoined_epoch == msg->ServerJoined_epoch
            &&& (msg@->ServerJoined_members).len() == (msg->ServerJoined_members)@.len()
            &&& 0 <= i < (msg->ServerJoined_members)@.len() ==> (msg@->ServerJoined_members)[i] == (msg->ServerJoined_members)@[i]@
        },
        msg is ServerLeft <==> msg@ is ServerLeft,
        msg is ServerLeft ==> {
            &&& msg@->ServerLeft_server_id == msg->ServerLeft_server_id
        },
        msg is MemberJoined <==> msg@ is MemberJoined,
        msg is MemberJoined ==> {
            &&& msg@->MemberJoined_server_id == msg->MemberJoined_server_id
            &&& msg@->MemberJoined_member == (msg->MemberJoined_member)@
            &&& msg@->MemberJoined_epoch == msg->MemberJoined_epoch
        },
        msg is MemberLeft <==> msg@ is MemberLeft,
        msg is MemberLeft ==> {
            &&& msg@->MemberLeft_server_id == msg->MemberLeft_server_id
            &&& msg@->MemberLeft_user_id == msg->MemberLeft_user_id
            &&& msg@->MemberLeft_epoch == msg->MemberLeft_epoch
        },
        msg is KeyMaterial <==> msg@ is KeyMaterial,
        msg is KeyMaterial ==> {
            &&& msg@->KeyMaterial_server_id == msg->KeyMaterial_server_id
            &&& msg@->KeyMaterial_from_user == msg->KeyMaterial_from_user
            &&& msg@->KeyMaterial_epoch == msg->KeyMaterial_epoch
            &&& msg@->KeyMaterial_wrapped_key == (msg->KeyMaterial_wrapped_key)@
        },
        msg is NewMessage <==> msg@ is NewMessage,
        msg is NewMessage ==> {
            &&& msg@->NewMessage_server_id == msg->NewMessage_server_id
            &&& msg@->NewMessage_message_id == msg->NewMessage_message_id
            &&& msg@->NewMessage_sender == msg->NewMessage_sender
            &&& msg@->NewMessage_epoch == msg->NewMessage_epoch
            &&& msg@->NewMessage_nonce == (msg->NewMessage_nonce)@
            &&& msg@->NewMessage_ciphertext == (msg->NewMessage_ciphertext)@
            &&& msg@->NewMessage_signature == (msg->NewMessage_signature)@
            &&& msg@->NewMessage_timestamp == msg->NewMessage_timestamp
        },
        msg is History <==> msg@ is History,
        msg is History ==> {
            &&& msg@->History_server_id == msg->History_server_id
            &&& (msg@->History_messages).len() == (msg->History_messages)@.len()
            &&& 0 <= i < (msg->History_messages)@.len() ==> (msg@->History_messages)[i] == (msg->History_messages)@[i]@
        },
        msg is ServerList <==> msg@ is ServerList,
        msg is ServerList ==> {
            &&& (msg@->ServerList_servers).len() == (msg->ServerList_servers)@.len()
            &&& 0 <= i < (msg->ServerList_servers)@.len() ==> (msg@->ServerList_servers)[i] == (msg->ServerList_servers)@[i]@
        },
        msg is MemberList <==> msg@ is MemberList,
        msg is MemberList ==> {
            &&& msg@->MemberList_server_id == msg->MemberList_server_id
            &&& (msg@->MemberList_members).len() == (msg->MemberList_members)@.len()
            &&& 0 <= i < (msg->MemberList_members)@.len() ==> (msg@->MemberList_members)[i] == (msg->MemberList_members)@[i]@
        },
        msg is UserInfo <==> msg@ is UserInfo,
        msg is UserInfo ==> {
            &&& msg@->UserInfo_user == (msg->UserInfo_user)@
        },
        msg is Pong <==> msg@ is Pong,
{
}

/// How far a connection has authenticated is seen field by field.
pub proof fn auth_view_law(auth: ConnAuth)
    ensures
        auth is Anonymous <==> auth@ is Anonymous,
        auth is Pending <==> auth@ is Pending,
        auth is Pending ==> auth@->Pending_user_id == auth->Pending_user_id
            && auth@->Pending_challenge == (auth->Pending_challenge)@,
        auth is Auth <==> auth@ is Auth,
        auth is Auth ==> auth@->Auth_user_id == auth->Auth_user_id,
        auth@.user() == if auth is Auth {
            Some(auth->Auth_user_id)
        } else {
            None
        },
{
}

/// Fresh values are seen field by field.
pub proof fn fresh_view_law(fresh: Fresh)
    ensures
        fresh@.id == fresh.id,
        fresh@.now == fresh.now,
        fresh@.challenge == fresh.challenge@,
{
}

/// Socket events and the steps that they call for are seen with their texts and bytes.
pub proof fn socket_view_law(event: SocketEvent, step: Step)
    ensures
        event matches SocketEvent::Text(text) ==> event@->Text_0 == text@ && event@ is Text,
        event matches SocketEvent::Binary(bytes) ==> event@->Binary_0 == bytes@ && event@ is Binary,
        event matches SocketEvent::Ping(bytes) ==> event@->Ping_0 == bytes@ && event@ is Ping,
        event is End <==> event@ is End,
        event is Failed <==> event@ is Failed,
        event is Close <==> event@ is Close,
        event is Other <==> event@ is Other,
        step matches Step::Request(text) ==> step@->Request_0 == text@ && step@ is Request,
        step matches Step::Pong(bytes) ==> step@->Pong_0 == bytes@ && step@ is Pong,
        step is Stop <==> step@ is Stop,
        step is Skip <==> step@ is Skip,
{
}

/// A stale epoch is reported with the channel's epoch first and the sender's second, and
/// whatever is wrong with a message's signature, the sender is told only that it is.
pub proof fn error_view_law(e: DispatchError)
    ensures
        e matches DispatchError::StaleEpoch { expected, got } ==> e@ == (
        DispatchErrorView::StaleEpoch { expected, got }),
        e is MessageSignatureInvalid ==> e@.text() == "message signature invalid"@,
        e matches DispatchError::Crypto(why) ==> e@ == DispatchErrorView::Crypto(why@) && e@.text()
            == why@.text(),
{
}

/// A list is seen item by item, in order.
pub proof fn list_view_law(sent: Seq<Delivery>, i: int)
    ensures
        views(sent).len() == sent.len(),
        0 <= i < sent.len() ==> views(sent)[i] == sent[i]@,
{
}

/// An outcome is seen with all its frames, in order, or with its error.
pub proof fn outcome_view_law(outcome: Result<Vec<Delivery>, DispatchError>, i: int)
    ensures
        outcome is Ok <==> outcome_view(outcome) is Ok,
        outcome matches Ok(sent) ==> {
            &&& (outcome_view(outcome)->Ok_0).len() == sent@.len()
            &&& 0 <= i < sent@.len() ==> (outcome_view(outcome)->Ok_0)[i] == sent@[i]@
        },
        outcome matches Err(e) ==> outcome_view(outcome)->Err_0 == e@,
{
}

/// A verdict is seen with its error, and bytes that may be missing as they are.
pub proof fn verdict_view_law(verdict: Result<(), CryptoError>, bytes: Option<Vec<u8>>)
    ensures
        verdict is Ok <==> verdict_view(verdict) is Ok,
        verdict matches Err(e) ==> verdict_view(verdict)->Err_0 == e@,
        bytes is Some <==> bytes_view(bytes) is Some,
        bytes matches Some(b) ==> bytes_view(bytes)->0 == b@,
{
}

/// A table of users is seen with every user, and with that user's record.
pub proof fn user_views_law(users: Map<UserId, UserRecord>, user: UserId)
    ensures
        user_views(users).contains_key(user) == users.contains_key(user),
        users.contains_key(user) ==> user_views(users)[user] == users[user]@,
{
}

} // verus!
