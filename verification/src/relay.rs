//! A minimal relay for development and integration tests.
//!
//! It stores public keys and ciphertext, tracks channel membership and epochs, and
//! forwards frames. It issues a challenge but accepts any answer to it, and it keeps
//! every message.
use crate::connection::{SocketEvent, SocketEventView, Step, StepView};
use crate::dispatch::reply_with;
use crate::encoding::{b64_decoding, b64_is_injective};
use crate::fresh::{drawn_for, Fresh, FreshView};
use crate::model::{fanned_out, lists, pushed, roster};
use crate::outside::{b64, b64_decode, utf8_lossy_text};
use crate::protocol::{
    member_view, views, ClientMessage, ClientMessageView, ConnId, Delivery, Epoch, MemberInfo,
    ServerId, ServerInfo, ServerMessage, ServerMessageView, StoredMessage, UserId, UserRecord,
    UserRecordView,
};
use crate::relay_rules::{
    connected_elsewhere, decoded_or_empty, is_relay_listing, relay_disconnected, relay_epoch_room,
    relay_step_for, relayed, HubView, RelayAuthView, RelayChannelView,
};
use crate::rules::reply;
use crate::state::listed;
use crate::text::join;
use std::collections::{HashMap, HashSet};
use vstd::prelude::*;
use vstd::std_specs::iter::IteratorSpec;

verus! {

broadcast use vstd::std_specs::hash::group_hash_axioms;

/// A channel with all its messages.
#[derive(Debug)]
struct Channel {
    name: String,
    owner_id: UserId,
    epoch: Epoch,
    members: HashSet<UserId>,
    messages: Vec<StoredMessage>,
}

impl View for Channel {
    type V = RelayChannelView;

    closed spec fn view(&self) -> RelayChannelView {
        RelayChannelView {
            name: self.name@,
            owner_id: self.owner_id,
            epoch: self.epoch,
            members: self.members@,
            messages: views(self.messages@),
        }
    }
}

/// The state that all connections share.
pub struct Hub {
    users: HashMap<UserId, UserRecord>,
    channels: HashMap<ServerId, Channel>,
    /// Authenticated users that are connected, and their connections.
    online: HashMap<UserId, ConnId>,
}

impl View for Hub {
    type V = HubView;

    closed spec fn view(&self) -> HubView {
        HubView {
            users: user_views(self.users@),
            channels: self.channels@.map_values(|c: Channel| c@),
            online: self.online@,
        }
    }
}

/// The views of a table of users.
pub open spec fn user_views(users: Map<UserId, UserRecord>) -> Map<UserId, UserRecordView> {
    users.map_values(|u: UserRecord| u@)
}

/// Enqueues a frame on one connection's outbound queue.
pub fn send(conn: ConnId, msg: ServerMessage, out: &mut Vec<Delivery>)
    ensures
        views(final(out)@) == views(old(out)@) + reply(conn, msg@),
{
    out.push(Delivery { to: conn, msg });
    assert(views(out@) =~= views(old(out)@) + reply(conn, msg@));
}

/// Pushes the same frame to every listed member that is online.
pub fn fan_out(
    online: &HashMap<UserId, ConnId>,
    members: &Vec<UserId>,
    msg: &ServerMessage,
    out: &mut Vec<Delivery>,
)
    ensures
        views(final(out)@) == views(old(out)@) + fanned_out(online@, members@, None, msg@),
{
    fan_out_except(online, members, None, msg, out)
}

/// Pushes the same frame to every listed member that is online, all but one.
pub fn fan_out_except(
    online: &HashMap<UserId, ConnId>,
    members: &Vec<UserId>,
    except: Option<UserId>,
    msg: &ServerMessage,
    out: &mut Vec<Delivery>,
)
    ensures
        views(final(out)@) == views(old(out)@) + fanned_out(online@, members@, except, msg@),
{
    let mut i: usize = 0;
    assert(views(out@) =~= views(old(out)@) + fanned_out(online@, members@.take(0), except, msg@));
    while i < members.len()
        invariant
            i <= members@.len(),
            views(out@) == views(old(out)@) + fanned_out(
                online@,
                members@.take(i as int),
                except,
                msg@,
            ),
        decreases members@.len() - i,
    {
        let id: UserId = members[i];
        let skip = match except {
            Some(user) => user == id,
            None => false,
        };
        assert(members@.take(i + 1).drop_last() =~= members@.take(i as int));
        if !skip {
            match online.get(&id) {
                Some(conn) => send(*conn, msg.clone(), out),
                None => {},
            }
        }
        assert(views(out@) =~= views(old(out)@) + fanned_out(
            online@,
            members@.take(i + 1),
            except,
            msg@,
        ));
        i = i + 1;
    }
    assert(members@.take(i as int) =~= members@);
}

/// What members are shown of a registered user.
pub fn minfo(users: &HashMap<UserId, UserRecord>, id: UserId) -> (info: Option<MemberInfo>)
    ensures
        info is Some <==> users@.contains_key(id),
        info matches Some(i) ==> i@ == member_view(users@[id]@),
{
    match users.get(&id) {
        Some(user) => Some(user.member_info()),
        None => None,
    }
}

/// What members are shown of a list of users.
fn minfos(users: &HashMap<UserId, UserRecord>, ids: &Vec<UserId>) -> (infos: Vec<MemberInfo>)
    ensures
        views(infos@) == roster(user_views(users@), ids@),
{
    let mut infos: Vec<MemberInfo> = Vec::new();
    let mut i: usize = 0;
    assert(views(infos@) =~= Seq::empty());
    while i < ids.len()
        invariant
            i <= ids@.len(),
            views(infos@) == roster(user_views(users@), ids@.take(i as int)),
        decreases ids@.len() - i,
    {
        let ghost before = views(infos@);
        assert(ids@.take(i + 1).drop_last() =~= ids@.take(i as int));
        match minfo(users, ids[i]) {
            Some(info) => {
                infos.push(info);
                assert(views(infos@) =~= before + seq![info@]);
            },
            None => {},
        }
        i = i + 1;
    }
    assert(ids@.take(i as int) =~= ids@);
    infos
}

/// Decodes base64 text; anything else counts as no bytes.
fn bytes_or_empty(text: &str) -> (bytes: Vec<u8>)
    ensures
        bytes@ == decoded_or_empty(text@),
{
    match b64_decode(text) {
        Ok(bytes) => {
            proof {
                b64_is_injective(bytes@, b64_decoding(text@)->0);
            }
            bytes
        },
        Err(_) => Vec::new(),
    }
}

/// Answers a request with an error.
fn fail(conn: ConnId, reason: &str) -> (sent: Vec<Delivery>)
    ensures
        views(sent@) == reply(conn, ServerMessageView::Error { reason: reason@ }),
{
    reply_with(conn, ServerMessage::Error { reason: reason.to_owned() })
}

/// Answers a request that needs authentication.
pub fn unauth(conn: ConnId) -> (sent: Vec<Delivery>)
    ensures
        views(sent@) == reply(conn, ServerMessageView::Error { reason: "not authenticated"@ }),
{
    fail(conn, "not authenticated")
}

impl Hub {
    /// A relay that has just started.
    pub fn new() -> (hub: Hub)
        ensures
            hub@ == HubView::empty(),
    {
        let hub = Hub { users: HashMap::new(), channels: HashMap::new(), online: HashMap::new() };
        assert(hub@.users =~= Map::empty());
        assert(hub@.channels =~= Map::empty());
        hub
    }

    fn register(
        &mut self,
        Ghost(auth): Ghost<RelayAuthView>,
        conn: ConnId,
        display_name: String,
        kem_public_key: String,
        sig_public_key: String,
        fresh: &Fresh,
    ) -> (sent: Vec<Delivery>)
        ensures
            relayed(
                old(self)@,
                auth,
                conn,
                ClientMessageView::Register {
                    display_name: display_name@,
                    kem_public_key: kem_public_key@,
                    sig_public_key: sig_public_key@,
                },
                fresh@,
                final(self)@,
                auth,
                views(sent@),
            ),
    {
        let user_id: UserId = fresh.id;
        let record = UserRecord {
            user_id,
            display_name,
            kem_public_key: bytes_or_empty(kem_public_key.as_str()),
            sig_public_key: bytes_or_empty(sig_public_key.as_str()),
            created_at: fresh.now,
        };
        self.users.insert(user_id, record);
        assert(self@.users =~= old(self)@.users.insert(user_id, record@));
        reply_with(conn, ServerMessage::Registered { user_id })
    }

    fn create_server(
        &mut self,
        Ghost(auth): Ghost<RelayAuthView>,
        me: UserId,
        conn: ConnId,
        name: String,
        fresh: &Fresh,
    ) -> (sent: Vec<Delivery>)
        requires
            auth.me == Some(me),
        ensures
            relayed(
                old(self)@,
                auth,
                conn,
                ClientMessageView::CreateServer { name: name@ },
                fresh@,
                final(self)@,
                auth,
                views(sent@),
            ),
    {
        let server_id: ServerId = fresh.id;
        let mut members: HashSet<UserId> = HashSet::new();
        members.insert(me);
        let channel = Channel { name, owner_id: me, epoch: 0, members, messages: Vec::new() };
        assert(channel@ =~= RelayChannelView::created(name@, me));
        self.channels.insert(server_id, channel);
        assert(self@.channels =~= old(self)@.channels.insert(server_id, channel@));
        reply_with(conn, ServerMessage::ServerCreated { server_id, epoch: 0 })
    }

    fn join_server(
        &mut self,
        Ghost(auth): Ghost<RelayAuthView>,
        me: UserId,
        conn: ConnId,
        server_id: ServerId,
        fresh: &Fresh,
    ) -> (sent: Vec<Delivery>)
        requires
            auth.me == Some(me),
            relay_epoch_room(old(self)@, auth, ClientMessageView::JoinServer { server_id }),
        ensures
            relayed(
                old(self)@,
                auth,
                conn,
                ClientMessageView::JoinServer { server_id },
                fresh@,
                final(self)@,
                auth,
                views(sent@),
            ),
    {
        let mut channel = match self.channels.remove(&server_id) {
            Some(channel) => channel,
            None => {
                assert(self@.channels =~= old(self)@.channels);
                return fail(conn, "no such server");
            },
        };
        let ghost before = channel@;
        assert(old(self)@.channels[server_id] == before);
        channel.members.insert(me);
        channel.epoch = channel.epoch + 1;
        let epoch: Epoch = channel.epoch;
        let ids = listed(&channel.members);
        assert(channel@ =~= before.joined(me));
        self.channels.insert(server_id, channel);
        assert(self@.channels =~= old(self)@.channels.insert(server_id, channel@));

        let members = minfos(&self.users, &ids);
        let mut sent = reply_with(conn, ServerMessage::ServerJoined { server_id, epoch, members });
        let ghost first = views(sent@);
        match minfo(&self.users, me) {
            Some(member) => {
                let notice = ServerMessage::MemberJoined { server_id, member, epoch };
                fan_out_except(&self.online, &ids, Some(me), &notice, &mut sent);
                assert(views(sent@).skip(1) =~= fanned_out(
                    self@.online,
                    ids@,
                    Some(me),
                    notice@,
                ));
            },
            None => {},
        }
        assert(views(sent@)[0] == first[0]);
        sent
    }

    fn leave_server(
        &mut self,
        Ghost(auth): Ghost<RelayAuthView>,
        me: UserId,
        conn: ConnId,
        server_id: ServerId,
        fresh: &Fresh,
    ) -> (sent: Vec<Delivery>)
        requires
            auth.me == Some(me),
            relay_epoch_room(old(self)@, auth, ClientMessageView::LeaveServer { server_id }),
        ensures
            relayed(
                old(self)@,
                auth,
                conn,
                ClientMessageView::LeaveServer { server_id },
                fresh@,
                final(self)@,
                auth,
                views(sent@),
            ),
    {
        let mut channel = match self.channels.remove(&server_id) {
            Some(channel) => channel,
            None => {
                assert(self@.channels =~= old(self)@.channels);
                return fail(conn, "no such server");
            },
        };
        let ghost before = channel@;
        assert(old(self)@.channels[server_id] == before);
        channel.members.remove(&me);
        channel.epoch = channel.epoch + 1;
        let epoch: Epoch = channel.epoch;
        let remaining = listed(&channel.members);
        assert(channel@ =~= before.left(me));
        self.channels.insert(server_id, channel);
        assert(self@.channels =~= old(self)@.channels.insert(server_id, channel@));

        let mut sent = reply_with(conn, ServerMessage::ServerLeft { server_id });
        let ghost first = views(sent@);
        let notice = ServerMessage::MemberLeft { server_id, user_id: me, epoch };
        fan_out(&self.online, &remaining, &notice, &mut sent);
        assert(views(sent@).skip(1) =~= fanned_out(self@.online, remaining@, None, notice@));
        assert(views(sent@)[0] == first[0]);
        sent
    }

    fn distribute_key(
        &self,
        Ghost(auth): Ghost<RelayAuthView>,
        me: UserId,
        conn: ConnId,
        server_id: ServerId,
        target_user_id: UserId,
        epoch: Epoch,
        wrapped_key: String,
        fresh: &Fresh,
    ) -> (sent: Vec<Delivery>)
        requires
            auth.me == Some(me),
        ensures
            relayed(
                self@,
                auth,
                conn,
                ClientMessageView::DistributeKey {
                    server_id,
                    target_user_id,
                    epoch,
                    wrapped_key: wrapped_key@,
                },
                fresh@,
                self@,
                auth,
                views(sent@),
            ),
    {
        let mut sent: Vec<Delivery> = Vec::new();
        let ghost start = views(sent@);
        assert(start =~= Seq::empty());
        let msg = ServerMessage::KeyMaterial { server_id, from_user: me, epoch, wrapped_key };
        let ghost frame = msg@;
        match self.online.get(&target_user_id) {
            Some(peer) => send(*peer, msg, &mut sent),
            None => {},
        }
        assert(views(sent@) =~= pushed(self@.online, target_user_id, frame));
        sent
    }

    fn send_message(
        &mut self,
        Ghost(auth): Ghost<RelayAuthView>,
        me: UserId,
        conn: ConnId,
        server_id: ServerId,
        epoch: Epoch,
        nonce: String,
        ciphertext: String,
        signature: String,
        fresh: &Fresh,
    ) -> (sent: Vec<Delivery>)
        requires
            auth.me == Some(me),
        ensures
            relayed(
                old(self)@,
                auth,
                conn,
                ClientMessageView::SendMessage {
                    server_id,
                    epoch,
                    nonce: nonce@,
                    ciphertext: ciphertext@,
                    signature: signature@,
                },
                fresh@,
                final(self)@,
                auth,
                views(sent@),
            ),
    {
        match self.channels.get(&server_id) {
            Some(channel) => if !channel.members.contains(&me) {
                return fail(conn, "not a member");
            },
            None => {
                return fail(conn, "no such server");
            },
        }
        let mut channel = match self.channels.remove(&server_id) {
            Some(channel) => channel,
            None => {
                return fail(conn, "no such server");
            },
        };
        let ghost before = channel@;
        assert(old(self)@.channels[server_id] == before);
        let message = StoredMessage {
            message_id: fresh.id,
            sender: me,
            epoch,
            nonce: bytes_or_empty(nonce.as_str()),
            ciphertext: bytes_or_empty(ciphertext.as_str()),
            signature: bytes_or_empty(signature.as_str()),
            timestamp: fresh.now,
        };
        let frame = ServerMessage::NewMessage {
            server_id,
            message_id: message.message_id,
            sender: me,
            epoch,
            nonce,
            ciphertext,
            signature,
            timestamp: message.timestamp,
        };
        let ids = listed(&channel.members);
        channel.messages.push(message);
        assert(channel@ =~= before.posted(message@));
        self.channels.insert(server_id, channel);
        assert(self@.channels =~= old(self)@.channels.insert(server_id, channel@));

        let mut sent: Vec<Delivery> = Vec::new();
        let ghost start = views(sent@);
        assert(start =~= Seq::empty());
        fan_out(&self.online, &ids, &frame, &mut sent);
        assert(views(sent@) =~= fanned_out(self@.online, ids@, None, frame@));
        sent
    }

    fn list_servers(&self, conn: ConnId) -> (sent: Vec<Delivery>)
        ensures
            views(sent@).len() == 1,
            views(sent@)[0].to == conn,
            views(sent@)[0].msg matches ServerMessageView::ServerList { servers }
                && is_relay_listing(servers, self@.channels),
    {
        let mut servers: Vec<ServerInfo> = Vec::new();
        let ghost walk = vstd::std_specs::hash::spec_hash_map_iter(&self.channels).remaining();
        let ghost ids = Seq::new(walk.len(), |i: int| *walk[i].0);
        assert forall|i: int| 0 <= i < walk.len() implies self.channels@.contains_key(
            #[trigger] ids[i],
        ) && self.channels@[ids[i]] == *walk[i].1 by {
            assert(self.channels@.contains_key(*walk[i].0));
        }
        for entry in it: self.channels.iter()
            invariant
                it.seq() == walk,
                ids.len() == walk.len(),
                forall|i: int|
                    0 <= i < walk.len() ==> self.channels@.contains_key(#[trigger] ids[i])
                        && self.channels@[ids[i]] == *walk[i].1 && ids[i] == *walk[i].0,
                views(servers@).len() == it.index(),
                forall|i: int|
                    0 <= i < it.index() ==> #[trigger] views(servers@)[i]
                        == self@.channels[ids[i]].info(ids[i]),
        {
            let (id, channel) = entry;
            let ghost before = views(servers@);
            assert(self@.channels[ids[it.index() as int]] == channel@);
            servers.push(
                ServerInfo {
                    server_id: *id,
                    name: channel.name.clone(),
                    owner_id: channel.owner_id,
                    member_count: channel.members.len(),
                },
            );
            assert(views(servers@) =~= before.push(channel@.info(*id)));
        }
        proof {
            assert forall|i: int, j: int|
                0 <= i < ids.len() && 0 <= j < ids.len() && i != j implies ids[i] != ids[j] by {
                assert(walk[i] != walk[j]);
            }
            assert forall|id: ServerId| self@.channels.dom().contains(id) implies ids.to_set().contains(
                id,
            ) by {
                assert(self.channels@.contains_key(id));
                let i = walk.index_of((&id, &self.channels@[id]));
                assert(ids[i] == id);
            }
            assert(ids.to_set() =~= self@.channels.dom());
            assert(lists(ids, self@.channels.dom()));
            assert(views(servers@) =~= ids.map_values(|id: ServerId| self@.channels[id].info(id)));
        }
        reply_with(conn, ServerMessage::ServerList { servers })
    }

    fn list_members(
        &self,
        Ghost(auth): Ghost<RelayAuthView>,
        conn: ConnId,
        server_id: ServerId,
        fresh: &Fresh,
    ) -> (sent: Vec<Delivery>)
        ensures
            relayed(
                self@,
                auth,
                conn,
                ClientMessageView::ListMembers { server_id },
                fresh@,
                self@,
                auth,
                views(sent@),
            ),
    {
        match self.channels.get(&server_id) {
            Some(channel) => {
                let ids = listed(&channel.members);
                let members = minfos(&self.users, &ids);
                reply_with(conn, ServerMessage::MemberList { server_id, members })
            },
            None => fail(conn, "no such server"),
        }
    }

    fn get_history(
        &self,
        Ghost(auth): Ghost<RelayAuthView>,
        conn: ConnId,
        server_id: ServerId,
        fresh: &Fresh,
    ) -> (sent: Vec<Delivery>)
        ensures
            relayed(
                self@,
                auth,
                conn,
                ClientMessageView::GetHistory { server_id },
                fresh@,
                self@,
                auth,
                views(sent@),
            ),
    {
        match self.channels.get(&server_id) {
            Some(channel) => {
                let messages = channel.messages.clone();
                assert(views(messages@) =~= views(channel.messages@));
                reply_with(conn, ServerMessage::History { server_id, messages })
            },
            None => fail(conn, "no such server"),
        }
    }

    fn lookup_user(
        &self,
        Ghost(auth): Ghost<RelayAuthView>,
        conn: ConnId,
        user_id: UserId,
        fresh: &Fresh,
    ) -> (sent: Vec<Delivery>)
        ensures
            relayed(
                self@,
                auth,
                conn,
                ClientMessageView::LookupUser { user_id },
                fresh@,
                self@,
                auth,
                views(sent@),
            ),
    {
        match self.users.get(&user_id) {
            Some(user) => reply_with(conn, ServerMessage::UserInfo { user: user.clone() }),
            None => fail(conn, "unknown user"),
        }
    }

    /// The epoch of a channel, if the channel exists.
    pub fn epoch(&self, server_id: ServerId) -> (epoch: Option<Epoch>)
        ensures
            epoch == if self@.channels.contains_key(server_id) {
                Some(self@.channels[server_id].epoch)
            } else {
                None
            },
    {
        match self.channels.get(&server_id) {
            Some(channel) => Some(channel.epoch),
            None => None,
        }
    }
}

/// Whether the epoch that a request would bump, if any, can be bumped.
pub fn has_epoch_room(hub: &Hub, me: Option<UserId>, cm: &ClientMessage) -> (room: bool)
    ensures
        forall|pending: Option<UserId>|
            room == #[trigger] relay_epoch_room(hub@, RelayAuthView { me, pending }, cm@),
{
    let server_id: ServerId = match cm {
        ClientMessage::JoinServer { server_id } => *server_id,
        ClientMessage::LeaveServer { server_id } => *server_id,
        _ => {
            return true;
        },
    };
    match (me, hub.epoch(server_id)) {
        (Some(_), Some(epoch)) => epoch < Epoch::MAX,
        _ => true,
    }
}

/// Handles a request with given fresh values.
pub fn handle_msg_with(
    hub: &mut Hub,
    conn: ConnId,
    me: &mut Option<UserId>,
    pending: &mut Option<UserId>,
    cm: ClientMessage,
    fresh: &Fresh,
) -> (sent: Vec<Delivery>)
    requires
        relay_epoch_room(old(hub)@, RelayAuthView { me: *old(me), pending: *old(pending) }, cm@),
    ensures
        relayed(
            old(hub)@,
            RelayAuthView { me: *old(me), pending: *old(pending) },
            conn,
            cm@,
            fresh@,
            final(hub)@,
            RelayAuthView { me: *final(me), pending: *final(pending) },
            views(sent@),
        ),
{
    let ghost auth = RelayAuthView { me: *old(me), pending: *old(pending) };
    match cm {
        ClientMessage::Register { display_name, kem_public_key, sig_public_key } => hub.register(
            Ghost(auth),
            conn,
            display_name,
            kem_public_key,
            sig_public_key,
            fresh,
        ),
        ClientMessage::AuthBegin { user_id } => {
            if !hub.users.contains_key(&user_id) {
                return fail(conn, "unknown user");
            }
            *pending = Some(user_id);
            reply_with(conn, ServerMessage::AuthChallenge { nonce: b64(fresh.challenge.as_slice()) })
        },
        ClientMessage::AuthFinish { signature: _ } => match pending.take() {
            Some(user_id) => {
                *me = Some(user_id);
                hub.online.insert(user_id, conn);
                reply_with(conn, ServerMessage::Authenticated { user_id })
            },
            None => fail(conn, "no auth in progress"),
        },
        ClientMessage::CreateServer { name } => match *me {
            Some(user) => hub.create_server(Ghost(auth), user, conn, name, fresh),
            None => unauth(conn),
        },
        ClientMessage::JoinServer { server_id } => match *me {
            Some(user) => hub.join_server(Ghost(auth), user, conn, server_id, fresh),
            None => unauth(conn),
        },
        ClientMessage::LeaveServer { server_id } => match *me {
            Some(user) => hub.leave_server(Ghost(auth), user, conn, server_id, fresh),
            None => unauth(conn),
        },
        ClientMessage::DistributeKey { server_id, target_user_id, epoch, wrapped_key } => {
            match *me {
                Some(user) => hub.distribute_key(
                    Ghost(auth),
                    user,
                    conn,
                    server_id,
                    target_user_id,
                    epoch,
                    wrapped_key,
                    fresh,
                ),
                None => unauth(conn),
            }
        },
        ClientMessage::SendMessage { server_id, epoch, nonce, ciphertext, signature } => {
            match *me {
                Some(user) => hub.send_message(
                    Ghost(auth),
                    user,
                    conn,
                    server_id,
                    epoch,
                    nonce,
                    ciphertext,
                    signature,
                    fresh,
                ),
                None => unauth(conn),
            }
        },
        ClientMessage::ListServers => hub.list_servers(conn),
        ClientMessage::ListMembers { server_id } => hub.list_members(
            Ghost(auth),
            conn,
            server_id,
            fresh,
        ),
        ClientMessage::GetHistory { server_id } => hub.get_history(
            Ghost(auth),
            conn,
            server_id,
            fresh,
        ),
        ClientMessage::LookupUser { user_id } => hub.lookup_user(Ghost(auth), conn, user_id, fresh),
        ClientMessage::Ping => reply_with(conn, ServerMessage::Pong),
    }
}

/// Handles a request.
pub fn handle_msg(
    hub: &mut Hub,
    conn: ConnId,
    me: &mut Option<UserId>,
    pending: &mut Option<UserId>,
    cm: ClientMessage,
) -> (sent: Vec<Delivery>)
    requires
        relay_epoch_room(old(hub)@, RelayAuthView { me: *old(me), pending: *old(pending) }, cm@),
    ensures
        exists|fresh: FreshView|
            drawn_for(fresh, cm@) && #[trigger] relayed(
                old(hub)@,
                RelayAuthView { me: *old(me), pending: *old(pending) },
                conn,
                cm@,
                fresh,
                final(hub)@,
                RelayAuthView { me: *final(me), pending: *final(pending) },
                views(sent@),
            ),
{
    let fresh = Fresh::draw_from_thread_rng(&cm);
    handle_msg_with(hub, conn, me, pending, cm, &fresh)
}

/// Answers a frame that could not be read as a request.
pub fn on_bad_frame(conn: ConnId, why: &str) -> (sent: Vec<Delivery>)
    ensures
        views(sent@) == reply(conn, ServerMessageView::Error { reason: "bad frame: "@ + why@ }),
{
    reply_with(conn, ServerMessage::Error { reason: join("bad frame: ", why) })
}

/// Decides what to do about a socket event.
pub fn on_event(event: SocketEvent) -> (step: Step)
    ensures
        step@ == relay_step_for(event@),
        event@ matches SocketEventView::Binary(bytes) ==> (vstd::utf8::valid_utf8(bytes) ==> step@
            == StepView::Request(vstd::utf8::decode_utf8(bytes))),
{
    match event {
        SocketEvent::End => Step::Stop,
        SocketEvent::Failed => Step::Stop,
        SocketEvent::Text(text) => Step::Request(text),
        SocketEvent::Binary(bytes) => Step::Request(utf8_lossy_text(bytes.as_slice())),
        SocketEvent::Close => Step::Stop,
        _ => Step::Skip,
    }
}

/// The entries of a table of users online whose connection is another than this one.
fn kept_elsewhere(online: &HashMap<UserId, ConnId>, conn: ConnId) -> (kept: HashMap<UserId, ConnId>)
    ensures
        kept@ == connected_elsewhere(online@, conn),
{
    let mut kept: HashMap<UserId, ConnId> = HashMap::new();
    let ghost walk = vstd::std_specs::hash::spec_hash_map_iter(online).remaining();
    for entry in it: online.iter()
        invariant
            it.seq() == walk,
            forall|i: int|
                0 <= i < walk.len() ==> online@.contains_key(*(#[trigger] walk[i]).0)
                    && online@[*walk[i].0] == *walk[i].1,
            forall|user: UserId| #[trigger]
                kept@.contains_key(user) ==> connected_elsewhere(online@, conn).contains_key(user)
                    && kept@[user] == online@[user],
            forall|i: int|
                0 <= i < it.index() && *(#[trigger] walk[i]).1 != conn ==> kept@.contains_key(
                    *walk[i].0,
                ),
    {
        let (user, at) = entry;
        if *at != conn {
            kept.insert(*user, *at);
        }
    }
    proof {
        assert forall|user: UserId| connected_elsewhere(online@, conn).contains_key(
            user,
        ) implies kept@.contains_key(user) by {
            let i = walk.index_of((&user, &online@[user]));
            assert(*walk[i].0 == user);
        }
        assert(kept@ =~= connected_elsewhere(online@, conn));
    }
    kept
}

/// Cleans up after a connection that has ended: nobody is online on it any more,
/// whoever authenticated there. A user that has since authenticated on another
/// connection stays online on that one.
pub fn on_disconnect(hub: &mut Hub, conn: ConnId)
    ensures
        final(hub)@ == relay_disconnected(old(hub)@, conn),
{
    hub.online = kept_elsewhere(&hub.online, conn);
}

} // verus!
