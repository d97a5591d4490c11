//! Identifiers, stored records and wire messages, each with its mathematical view.
use vstd::prelude::*;

verus! {

/// A user, as the 128 bits of its UUID.
pub type UserId = u128;

/// A channel ("server" on the wire), as the 128 bits of its UUID.
pub type ServerId = u128;

/// A message, as the 128 bits of its UUID.
pub type MessageId = u128;

/// Counts the membership changes of a channel.
pub type Epoch = u64;

/// Names one live connection, and with it that connection's outbound queue.
pub type ConnId = u64;

/// A point in time: whole seconds since the Unix epoch, and nanoseconds past them.
#[derive(Clone, Copy, Debug, PartialEq, Eq, Structural)]
pub struct Timestamp {
    pub secs: i64,
    pub nanos: u32,
}

/// The views of the items of a sequence, in order.
pub open spec fn views<T: View>(items: Seq<T>) -> Seq<T::V> {
    Seq::new(items.len(), |i: int| items[i]@)
}

// ---------------------------------------------------------------------------
// Stored records
// ---------------------------------------------------------------------------

/// A registered user.
#[derive(Debug)]
pub struct UserRecord {
    pub user_id: UserId,
    pub display_name: String,
    /// Kyber768 public key: other members wrap group keys for this user with it.
    pub kem_public_key: Vec<u8>,
    /// Dilithium3 public key: this user's signatures are checked against it.
    pub sig_public_key: Vec<u8>,
    pub created_at: Timestamp,
}

pub struct UserRecordView {
    pub user_id: UserId,
    pub display_name: Seq<char>,
    pub kem_public_key: Seq<u8>,
    pub sig_public_key: Seq<u8>,
    pub created_at: Timestamp,
}

impl View for UserRecord {
    type V = UserRecordView;

    open spec fn view(&self) -> UserRecordView {
        UserRecordView {
            user_id: self.user_id,
            display_name: self.display_name@,
            kem_public_key: self.kem_public_key@,
            sig_public_key: self.sig_public_key@,
            created_at: self.created_at,
        }
    }
}

impl Clone for UserRecord {
    fn clone(&self) -> (copy: Self)
        ensures
            copy@ == self@,
    {
        UserRecord {
            user_id: self.user_id,
            display_name: self.display_name.clone(),
            kem_public_key: self.kem_public_key.clone(),
            sig_public_key: self.sig_public_key.clone(),
            created_at: self.created_at,
        }
    }
}

/// An encrypted message as it is kept in a channel's history.
#[derive(Debug)]
pub struct StoredMessage {
    pub message_id: MessageId,
    pub sender: UserId,
    pub epoch: Epoch,
    pub nonce: Vec<u8>,
    /// The text under the group key of `epoch`.
    pub ciphertext: Vec<u8>,
    /// Dilithium3 detached signature.
    pub signature: Vec<u8>,
    pub timestamp: Timestamp,
}

pub struct StoredMessageView {
    pub message_id: MessageId,
    pub sender: UserId,
    pub epoch: Epoch,
    pub nonce: Seq<u8>,
    pub ciphertext: Seq<u8>,
    pub signature: Seq<u8>,
    pub timestamp: Timestamp,
}

impl View for StoredMessage {
    type V = StoredMessageView;

    open spec fn view(&self) -> StoredMessageView {
        StoredMessageView {
            message_id: self.message_id,
            sender: self.sender,
            epoch: self.epoch,
            nonce: self.nonce@,
            ciphertext: self.ciphertext@,
            signature: self.signature@,
            timestamp: self.timestamp,
        }
    }
}

impl Clone for StoredMessage {
    fn clone(&self) -> (copy: Self)
        ensures
            copy@ == self@,
    {
        StoredMessage {
            message_id: self.message_id,
            sender: self.sender,
            epoch: self.epoch,
            nonce: self.nonce.clone(),
            ciphertext: self.ciphertext.clone(),
            signature: self.signature.clone(),
            timestamp: self.timestamp,
        }
    }
}

/// What a member is shown of another member.
#[derive(Debug)]
pub struct MemberInfo {
    pub user_id: UserId,
    pub display_name: String,
    pub kem_public_key: Vec<u8>,
    pub sig_public_key: Vec<u8>,
}

pub struct MemberInfoView {
    pub user_id: UserId,
    pub display_name: Seq<char>,
    pub kem_public_key: Seq<u8>,
    pub sig_public_key: Seq<u8>,
}

impl View for MemberInfo {
    type V = MemberInfoView;

    open spec fn view(&self) -> MemberInfoView {
        MemberInfoView {
            user_id: self.user_id,
            display_name: self.display_name@,
            kem_public_key: self.kem_public_key@,
            sig_public_key: self.sig_public_key@,
        }
    }
}

impl Clone for MemberInfo {
    fn clone(&self) -> (copy: Self)
        ensures
            copy@ == self@,
    {
        MemberInfo {
            user_id: self.user_id,
            display_name: self.display_name.clone(),
            kem_public_key: self.kem_public_key.clone(),
            sig_public_key: self.sig_public_key.clone(),
        }
    }
}

/// The part of a user's record that other members see.
pub open spec fn member_view(user: UserRecordView) -> MemberInfoView {
    MemberInfoView {
        user_id: user.user_id,
        display_name: user.display_name,
        kem_public_key: user.kem_public_key,
        sig_public_key: user.sig_public_key,
    }
}

impl UserRecord {
    /// The part of this record that other members see.
    pub fn member_info(&self) -> (info: MemberInfo)
        ensures
            info@ == member_view(self@),
    {
        MemberInfo {
            user_id: self.user_id,
            display_name: self.display_name.clone(),
            kem_public_key: self.kem_public_key.clone(),
            sig_public_key: self.sig_public_key.clone(),
        }
    }
}

/// One line of a channel listing.
#[derive(Debug)]
pub struct ServerInfo {
    pub server_id: ServerId,
    pub name: String,
    pub owner_id: UserId,
    pub member_count: usize,
}

pub struct ServerInfoView {
    pub server_id: ServerId,
    pub name: Seq<char>,
    pub owner_id: UserId,
    pub member_count: nat,
}

impl View for ServerInfo {
    type V = ServerInfoView;

    open spec fn view(&self) -> ServerInfoView {
        ServerInfoView {
            server_id: self.server_id,
            name: self.name@,
            owner_id: self.owner_id,
            member_count: self.member_count as nat,
        }
    }
}

impl Clone for ServerInfo {
    fn clone(&self) -> (copy: Self)
        ensures
            copy@ == self@,
    {
        ServerInfo {
            server_id: self.server_id,
            name: self.name.clone(),
            owner_id: self.owner_id,
            member_count: self.member_count,
        }
    }
}

// ---------------------------------------------------------------------------
// Wire messages
// ---------------------------------------------------------------------------

/// A request of a client.
#[derive(Debug)]
pub enum ClientMessage {
    /// First-time registration. The reply carries the assigned user id.
    Register { display_name: String, kem_public_key: String, sig_public_key: String },
    /// Begins an authenticated session. The reply is a challenge.
    AuthBegin { user_id: UserId },
    /// Detached Dilithium3 signature over the most recent challenge, in base64.
    AuthFinish { signature: String },
    CreateServer { name: String },
    JoinServer { server_id: ServerId },
    LeaveServer { server_id: ServerId },
    /// Forwards a wrapped group key to another member of a channel. The relay cannot
    /// read it.
    DistributeKey {
        server_id: ServerId,
        target_user_id: UserId,
        epoch: Epoch,
        wrapped_key: String,
    },
    /// An encrypted chat message; nonce, ciphertext and signature are in base64.
    SendMessage {
        server_id: ServerId,
        epoch: Epoch,
        nonce: String,
        ciphertext: String,
        signature: String,
    },
    ListServers,
    ListMembers { server_id: ServerId },
    GetHistory { server_id: ServerId },
    /// Looks up a user's public keys.
    LookupUser { user_id: UserId },
    Ping,
}

pub enum ClientMessageView {
    Register { display_name: Seq<char>, kem_public_key: Seq<char>, sig_public_key: Seq<char> },
    AuthBegin { user_id: UserId },
    AuthFinish { signature: Seq<char> },
    CreateServer { name: Seq<char> },
    JoinServer { server_id: ServerId },
    LeaveServer { server_id: ServerId },
    DistributeKey {
        server_id: ServerId,
        target_user_id: UserId,
        epoch: Epoch,
        wrapped_key: Seq<char>,
    },
    SendMessage {
        server_id: ServerId,
        epoch: Epoch,
        nonce: Seq<char>,
        ciphertext: Seq<char>,
        signature: Seq<char>,
    },
    ListServers,
    ListMembers { server_id: ServerId },
    GetHistory { server_id: ServerId },
    LookupUser { user_id: UserId },
    Ping,
}

impl View for ClientMessage {
    type V = ClientMessageView;

    open spec fn view(&self) -> ClientMessageView {
        match self {
            ClientMessage::Register { display_name, kem_public_key, sig_public_key } => ClientMessageView::Register {
                display_name: display_name@,
                kem_public_key: kem_public_key@,
                sig_public_key: sig_public_key@,
            },
            ClientMessage::AuthBegin { user_id } => ClientMessageView::AuthBegin {
                user_id: *user_id,
            },
            ClientMessage::AuthFinish { signature } => ClientMessageView::AuthFinish {
                signature: signature@,
            },
            ClientMessage::CreateServer { name } => ClientMessageView::CreateServer {
                name: name@,
            },
            ClientMessage::JoinServer { server_id } => ClientMessageView::JoinServer {
                server_id: *server_id,
            },
            ClientMessage::LeaveServer { server_id } => ClientMessageView::LeaveServer {
                server_id: *server_id,
            },
            ClientMessage::DistributeKey { server_id, target_user_id, epoch, wrapped_key } => ClientMessageView::DistributeKey {
                server_id: *server_id,
                target_user_id: *target_user_id,
                epoch: *epoch,
                wrapped_key: wrapped_key@,
            },
            ClientMessage::SendMessage { server_id, epoch, nonce, ciphertext, signature } => ClientMessageView::SendMessage {
                server_id: *server_id,
                epoch: *epoch,
                nonce: nonce@,
                ciphertext: ciphertext@,
                signature: signature@,
            },
            ClientMessage::ListServers => ClientMessageView::ListServers,
            ClientMessage::ListMembers { server_id } => ClientMessageView::ListMembers {
                server_id: *server_id,
            },
            ClientMessage::GetHistory { server_id } => ClientMessageView::GetHistory {
                server_id: *server_id,
            },
            ClientMessage::LookupUser { user_id } => ClientMessageView::LookupUser {
                user_id: *user_id,
            },
            ClientMessage::Ping => ClientMessageView::Ping,
        }
    }
}

/// A frame to a client.
#[derive(Debug)]
pub enum ServerMessage {
    Registered { user_id: UserId },
    /// The challenge, in base64.
    AuthChallenge { nonce: String },
    Authenticated { user_id: UserId },
    Error { reason: String },
    ServerCreated { server_id: ServerId, epoch: Epoch },
    ServerJoined { server_id: ServerId, epoch: Epoch, members: Vec<MemberInfo> },
    ServerLeft { server_id: ServerId },
    /// Pushed to existing members when someone joins: they are to rewrap a fresh key.
    MemberJoined { server_id: ServerId, member: MemberInfo, epoch: Epoch },
    /// Pushed to remaining members when someone leaves.
    MemberLeft { server_id: ServerId, user_id: UserId, epoch: Epoch },
    /// A wrapped group key for the recipient.
    KeyMaterial {
        server_id: ServerId,
        from_user: UserId,
        epoch: Epoch,
        wrapped_key: String,
    },
    /// A chat message; nonce, ciphertext and signature are in base64.
    NewMessage {
        server_id: ServerId,
        message_id: MessageId,
        sender: UserId,
        epoch: Epoch,
        nonce: String,
        ciphertext: String,
        signature: String,
        timestamp: Timestamp,
    },
    History { server_id: ServerId, messages: Vec<StoredMessage> },
    ServerList { servers: Vec<ServerInfo> },
    MemberList { server_id: ServerId, members: Vec<MemberInfo> },
    UserInfo { user: UserRecord },
    Pong,
}

pub enum ServerMessageView {
    Registered { user_id: UserId },
    AuthChallenge { nonce: Seq<char> },
    Authenticated { user_id: UserId },
    Error { reason: Seq<char> },
    ServerCreated { server_id: ServerId, epoch: Epoch },
    ServerJoined { server_id: ServerId, epoch: Epoch, members: Seq<MemberInfoView> },
    ServerLeft { server_id: ServerId },
    MemberJoined { server_id: ServerId, member: MemberInfoView, epoch: Epoch },
    MemberLeft { server_id: ServerId, user_id: UserId, epoch: Epoch },
    KeyMaterial {
        server_id: ServerId,
        from_user: UserId,
        epoch: Epoch,
        wrapped_key: Seq<char>,
    },
    NewMessage {
        server_id: ServerId,
        message_id: MessageId,
        sender: UserId,
        epoch: Epoch,
        nonce: Seq<char>,
        ciphertext: Seq<char>,
        signature: Seq<char>,
        timestamp: Timestamp,
    },
    History { server_id: ServerId, messages: Seq<StoredMessageView> },
    ServerList { servers: Seq<ServerInfoView> },
    MemberList { server_id: ServerId, members: Seq<MemberInfoView> },
    UserInfo { user: UserRecordView },
    Pong,
}

impl View for ServerMessage {
    type V = ServerMessageView;

    open spec fn view(&self) -> ServerMessageView {
        match self {
            ServerMessage::Registered { user_id } => ServerMessageView::Registered {
                user_id: *user_id,
            },
            ServerMessage::AuthChallenge { nonce } => ServerMessageView::AuthChallenge {
                nonce: nonce@,
            },
            ServerMessage::Authenticated { user_id } => ServerMessageView::Authenticated {
                user_id: *user_id,
            },
            ServerMessage::Error { reason } => ServerMessageView::Error {
                reason: reason@,
            },
            ServerMessage::ServerCreated { server_id, epoch } => ServerMessageView::ServerCreated {
                server_id: *server_id,
                epoch: *epoch,
            },
            ServerMessage::ServerJoined { server_id, epoch, members } => ServerMessageView::ServerJoined {
                server_id: *server_id,
                epoch: *epoch,
                members: views(members@),
            },
            ServerMessage::ServerLeft { server_id } => ServerMessageView::ServerLeft {
                server_id: *server_id,
            },
            ServerMessage::MemberJoined { server_id, member, epoch } => ServerMessageView::MemberJoined {
                server_id: *server_id,
                member: member@,
                epoch: *epoch,
            },
            ServerMessage::MemberLeft { server_id, user_id, epoch } => ServerMessageView::MemberLeft {
                server_id: *server_id,
                user_id: *user_id,
                epoch: *epoch,
            },
            ServerMessage::KeyMaterial { server_id, from_user, epoch, wrapped_key } => ServerMessageView::KeyMaterial {
                server_id: *server_id,
                from_user: *from_user,
                epoch: *epoch,
                wrapped_key: wrapped_key@,
            },
            ServerMessage::NewMessage { server_id, message_id, sender, epoch, nonce, ciphertext, signature, timestamp } => ServerMessageView::NewMessage {
                server_id: *server_id,
                message_id: *message_id,
                sender: *sender,
                epoch: *epoch,
                nonce: nonce@,
                ciphertext: ciphertext@,
                signature: signature@,
                timestamp: *timestamp,
            },
            ServerMessage::History { server_id, messages } => ServerMessageView::History {
                server_id: *server_id,
                messages: views(messages@),
            },
            ServerMessage::ServerList { servers } => ServerMessageView::ServerList {
                servers: views(servers@),
            },
            ServerMessage::MemberList { server_id, members } => ServerMessageView::MemberList {
                server_id: *server_id,
                members: views(members@),
            },
            ServerMessage::UserInfo { user } => ServerMessageView::UserInfo {
                user: user@,
            },
            ServerMessage::Pong => ServerMessageView::Pong,
        }
    }
}

impl Clone for ServerMessage {
    fn clone(&self) -> (copy: Self)
        ensures
            copy@ == self@,
    {
        match self {
            ServerMessage::Registered { user_id } => ServerMessage::Registered {
                user_id: *user_id,
            },
            ServerMessage::AuthChallenge { nonce } => ServerMessage::AuthChallenge {
                nonce: nonce.clone(),
            },
            ServerMessage::Authenticated { user_id } => ServerMessage::Authenticated {
                user_id: *user_id,
            },
            ServerMessage::Error { reason } => ServerMessage::Error {
                reason: reason.clone(),
            },
            ServerMessage::ServerCreated { server_id, epoch } => ServerMessage::ServerCreated {
                server_id: *server_id,
                epoch: *epoch,
            },
            ServerMessage::ServerJoined { server_id, epoch, members } => {
                let copies = members.clone();
                assert(views(copies@) =~= views(members@));
                ServerMessage::ServerJoined {
                    server_id: *server_id,
                    epoch: *epoch,
                    members: copies,
                }
            },
            ServerMessage::ServerLeft { server_id } => ServerMessage::ServerLeft {
                server_id: *server_id,
            },
            ServerMessage::MemberJoined { server_id, member, epoch } => ServerMessage::MemberJoined {
                server_id: *server_id,
                member: member.clone(),
                epoch: *epoch,
            },
            ServerMessage::MemberLeft { server_id, user_id, epoch } => ServerMessage::MemberLeft {
                server_id: *server_id,
                user_id: *user_id,
                epoch: *epoch,
            },
            ServerMessage::KeyMaterial { server_id, from_user, epoch, wrapped_key } => ServerMessage::KeyMaterial {
                server_id: *server_id,
                from_user: *from_user,
                epoch: *epoch,
                wrapped_key: wrapped_key.clone(),
            },
            ServerMessage::NewMessage { server_id, message_id, sender, epoch, nonce, ciphertext, signature, timestamp } => ServerMessage::NewMessage {
                server_id: *server_id,
                message_id: *message_id,
                sender: *sender,
                epoch: *epoch,
                nonce: nonce.clone(),
                ciphertext: ciphertext.clone(),
                signature: signature.clone(),
                timestamp: *timestamp,
            },
            ServerMessage::History { server_id, messages } => {
                let copies = messages.clone();
                assert(views(copies@) =~= views(messages@));
                ServerMessage::History {
                    server_id: *server_id,
                    messages: copies,
                }
            },
            ServerMessage::ServerList { servers } => {
                let copies = servers.clone();
                assert(views(copies@) =~= views(servers@));
                ServerMessage::ServerList {
                    servers: copies,
                }
            },
            ServerMessage::MemberList { server_id, members } => {
                let copies = members.clone();
                assert(views(copies@) =~= views(members@));
                ServerMessage::MemberList {
                    server_id: *server_id,
                    members: copies,
                }
            },
            ServerMessage::UserInfo { user } => ServerMessage::UserInfo {
                user: user.clone(),
            },
            ServerMessage::Pong => ServerMessage::Pong,
        }
    }
}

/// A frame that is to be put on one connection's outbound queue. A frame for a
/// connection that is gone is dropped.
#[derive(Debug)]
pub struct Delivery {
    pub to: ConnId,
    pub msg: ServerMessage,
}

pub struct DeliveryView {
    pub to: ConnId,
    pub msg: ServerMessageView,
}

impl View for Delivery {
    type V = DeliveryView;

    open spec fn view(&self) -> DeliveryView {
        DeliveryView { to: self.to, msg: self.msg@ }
    }
}

} // verus!
