//! The shared state and the primitives on it.
use crate::errors::{DispatchError, DispatchErrorView};
use crate::model::{
    fanned_out, is_fan_out, is_listing, lists, most_recent, pushed, roster, sessions_elsewhere,
    AppStateView, ChannelView, MAX_HISTORY,
};
use crate::outside::{
    online_get, online_insert, online_new, online_retain_elsewhere, session_table, user_table,
    users_contains, users_get, users_insert, users_new,
};
use crate::rules::{change_keeps_channel_well_formed, channel_keeps_well_formed, state_wf, user_wf};
use crate::protocol::{
    views, ConnId, Delivery, Epoch, MemberInfo, ServerId, ServerInfo, ServerMessage, StoredMessage,
    UserId, UserRecord,
};
use dashmap::DashMap;
use std::collections::{HashMap, HashSet};
use vstd::prelude::*;
use vstd::std_specs::iter::IteratorSpec;

verus! {

broadcast use vstd::std_specs::hash::group_hash_axioms;

/// A live session: the connection whose queue a user's frames go to.
#[derive(Clone, Copy, Debug, PartialEq, Eq, Structural)]
pub struct Session {
    pub user_id: UserId,
    pub conn: ConnId,
}

impl Session {
    /// Whether this session is on another connection than this one.
    pub fn is_elsewhere(&self, conn: ConnId) -> (elsewhere: bool)
        ensures
            elsewhere == (self.conn != conn),
    {
        self.conn != conn
    }
}

/// A channel. The history holds the most recent messages, for members that come
/// online after a message was sent.
#[derive(Debug)]
struct ChannelRecord {
    server_id: ServerId,
    name: String,
    owner_id: UserId,
    members: HashSet<UserId>,
    epoch: Epoch,
    history: Vec<StoredMessage>,
}

impl View for ChannelRecord {
    type V = ChannelView;

    closed spec fn view(&self) -> ChannelView {
        ChannelView {
            server_id: self.server_id,
            name: self.name@,
            owner_id: self.owner_id,
            members: self.members@,
            epoch: self.epoch,
            history: views(self.history@),
        }
    }
}

/// The state that all connections share.
pub struct AppState {
    /// All registered users, by id.
    users: DashMap<UserId, UserRecord>,
    /// All channels, by id.
    channels: HashMap<ServerId, ChannelRecord>,
    /// The users that are online.
    online: DashMap<UserId, Session>,
}

impl View for AppState {
    type V = AppStateView;

    closed spec fn view(&self) -> AppStateView {
        AppStateView {
            users: user_table(self.users),
            channels: self.channels@.map_values(|c: ChannelRecord| c@),
            online: session_table(self.online),
        }
    }
}

/// The members of a set, in the order in which it is walked.
pub fn listed(set: &HashSet<UserId>) -> (order: Vec<UserId>)
    ensures
        lists(order@, set@),
{
    let mut order: Vec<UserId> = Vec::new();
    let ghost walk = vstd::std_specs::hash::spec_hash_keys_iter(set).remaining();
    for id in it: set.iter()
        invariant
            it.seq() == walk,
            order@ == walk.unref().take(it.index() as int),
    {
        order.push(*id);
    }
    assert(order@ == walk.unref());
    order
}

/// Adds a message at the end of a history and drops the oldest beyond the cap.
fn push_recent(history: &mut Vec<StoredMessage>, message: StoredMessage)
    ensures
        views(final(history)@) == most_recent(views(old(history)@).push(message@)),
{
    history.push(message);
    let ghost log = views(history@);
    assert(log =~= views(old(history)@).push(message@));
    let ghost mut dropped: int = 0;
    assert(views(history@) =~= log.skip(0));
    while history.len() > MAX_HISTORY
        invariant
            0 <= dropped <= log.len(),
            history@.len() == log.len() - dropped,
            dropped > 0 ==> history@.len() >= MAX_HISTORY,
            views(history@) == log.skip(dropped),
        decreases history@.len(),
    {
        let ghost before = history@;
        let _oldest = history.remove(0);
        proof {
            dropped = dropped + 1;
            assert forall|i: int| 0 <= i < history@.len() implies #[trigger] views(history@)[i]
                == log.skip(dropped)[i] by {
                assert(history@[i] == before[i + 1]);
                assert(views(before)[i + 1] == log.skip(dropped - 1)[i + 1]);
            }
            assert(views(history@) =~= log.skip(dropped));
        }
    }
    assert(views(history@) =~= most_recent(log));
}

impl AppState {
    /// A relay that has just started.
    pub fn new() -> (state: Self)
        ensures
            state@ == AppStateView::empty(),
            state_wf(state@),
    {
        let state = AppState { users: users_new(), channels: HashMap::new(), online: online_new() };
        assert(state@.channels =~= Map::empty());
        state
    }

    /// A registered user's record.
    pub fn user(&self, id: UserId) -> (record: Option<UserRecord>)
        ensures
            record is Some <==> self@.users.contains_key(id),
            record matches Some(r) ==> r@ == self@.users[id],
    {
        users_get(&self.users, id)
    }

    /// Whether a user is registered.
    pub fn knows_user(&self, id: UserId) -> (known: bool)
        ensures
            known == self@.users.contains_key(id),
    {
        users_contains(&self.users, id)
    }

    /// Registers a user under the id in its record.
    pub fn add_user(&mut self, record: UserRecord)
        ensures
            final(self)@ == old(self)@.with_user(record@),
            state_wf(old(self)@) && user_wf(record.user_id, record@) ==> state_wf(final(self)@),
    {
        let ghost user = record@;
        users_insert(&mut self.users, record.user_id, record);
        assert(self@ =~= old(self)@.with_user(user));
        assert(forall|id: UserId| old(self)@.users.contains_key(id) ==> self@.users.contains_key(id));
    }

    /// Brings a user online: its frames go to this connection from now on.
    pub fn open_session(&mut self, user: UserId, conn: ConnId)
        ensures
            final(self)@ == old(self)@.with_session(user, conn),
            state_wf(old(self)@) && old(self)@.users.contains_key(user) ==> state_wf(final(self)@),
    {
        online_insert(&mut self.online, user, Session { user_id: user, conn });
        assert(self@ =~= old(self)@.with_session(user, conn));
    }

    /// Takes every user offline whose frames go to this connection.
    pub fn close_connection(&mut self, conn: ConnId)
        ensures
            final(self)@ == (AppStateView {
                online: sessions_elsewhere(old(self)@.online, conn),
                ..old(self)@
            }),
            state_wf(old(self)@) ==> state_wf(final(self)@),
    {
        online_retain_elsewhere(&mut self.online, conn);
        assert(self@ =~= AppStateView {
            online: sessions_elsewhere(old(self)@.online, conn),
            ..old(self)@
        });
    }

    /// Pushes a frame to a single user. It is dropped if the user is offline.
    pub fn push(&self, user: UserId, msg: ServerMessage, out: &mut Vec<Delivery>)
        ensures
            views(final(out)@) == views(old(out)@) + pushed(self@.queues(), user, msg@),
    {
        match online_get(&self.online, user) {
            Some(session) => {
                out.push(Delivery { to: session.conn, msg });
            },
            None => {},
        }
        assert(views(out@) =~= views(old(out)@) + pushed(self@.queues(), user, msg@));
    }

    /// Pushes a frame to each of a list of users, all but one.
    pub fn fan_out(
        &self,
        users: &Vec<UserId>,
        except: Option<UserId>,
        msg: &ServerMessage,
        out: &mut Vec<Delivery>,
    )
        ensures
            views(final(out)@) == views(old(out)@) + fanned_out(
                self@.queues(),
                users@,
                except,
                msg@,
            ),
    {
        let mut i: usize = 0;
        while i < users.len()
            invariant
                i <= users@.len(),
                views(out@) == views(old(out)@) + fanned_out(
                    self@.queues(),
                    users@.take(i as int),
                    except,
                    msg@,
                ),
            decreases users@.len() - i,
        {
            let user: UserId = users[i];
            let skip = match except {
                Some(id) => id == user,
                None => false,
            };
            assert(users@.take(i + 1).drop_last() =~= users@.take(i as int));
            if !skip {
                self.push(user, msg.clone(), out);
            }
            i = i + 1;
        }
        assert(users@.take(i as int) =~= users@);
    }

    /// Pushes a frame to every member of a channel except one.
    pub fn broadcast(
        &self,
        server_id: ServerId,
        except: Option<UserId>,
        msg: &ServerMessage,
        out: &mut Vec<Delivery>,
    )
        ensures
            old(out)@.len() <= final(out)@.len(),
            views(final(out)@).take(old(out)@.len() as int) == views(old(out)@),
            self@.channels.contains_key(server_id) ==> is_fan_out(
                views(final(out)@).skip(old(out)@.len() as int),
                self@.queues(),
                self@.channels[server_id].members,
                except,
                msg@,
            ),
            !self@.channels.contains_key(server_id) ==> views(final(out)@) == views(old(out)@),
    {
        let ghost start = views(out@);
        match self.channels.get(&server_id) {
            Some(ch) => {
                let users = listed(&ch.members);
                self.fan_out(&users, except, msg, out);
                assert(views(out@).skip(old(out)@.len() as int) =~= fanned_out(
                    self@.queues(),
                    users@,
                    except,
                    msg@,
                ));
            },
            None => {},
        }
        assert(start.len() <= views(out@).len());
        assert(views(out@).take(start.len() as int) =~= start);
    }

    /// What members are shown of a list of users.
    pub fn roster(&self, ids: &Vec<UserId>) -> (infos: Vec<MemberInfo>)
        ensures
            views(infos@) == roster(self@.users, ids@),
    {
        let mut infos: Vec<MemberInfo> = Vec::new();
        let mut i: usize = 0;
        assert(views(infos@) =~= Seq::empty());
        while i < ids.len()
            invariant
                i <= ids@.len(),
                views(infos@) == roster(self@.users, ids@.take(i as int)),
            decreases ids@.len() - i,
        {
            let ghost before = views(infos@);
            assert(ids@.take(i + 1).drop_last() =~= ids@.take(i as int));
            match self.user(ids[i]) {
                Some(user) => {
                    let info = user.member_info();
                    infos.push(info);
                    assert(views(infos@) =~= before + seq![info@]);
                },
                None => {},
            }
            i = i + 1;
        }
        assert(ids@.take(i as int) =~= ids@);
        infos
    }

    /// The members of a channel.
    pub fn member_ids(&self, server_id: ServerId) -> (ids: Option<Vec<UserId>>)
        ensures
            ids is Some <==> self@.channels.contains_key(server_id),
            ids matches Some(ids) ==> lists(ids@, self@.channels[server_id].members),
    {
        match self.channels.get(&server_id) {
            Some(ch) => Some(listed(&ch.members)),
            None => None,
        }
    }

    /// Whether a user is a member of a channel, if the channel exists.
    pub fn membership(&self, server_id: ServerId, user: UserId) -> (member: Option<bool>)
        ensures
            member == if self@.channels.contains_key(server_id) {
                Some(self@.channels[server_id].members.contains(user))
            } else {
                None
            },
    {
        match self.channels.get(&server_id) {
            Some(ch) => Some(ch.members.contains(&user)),
            None => None,
        }
    }

    /// The epoch of a channel, if the channel exists.
    pub fn epoch(&self, server_id: ServerId) -> (epoch: Option<Epoch>)
        ensures
            epoch == if self@.channels.contains_key(server_id) {
                Some(self@.channels[server_id].epoch)
            } else {
                None
            },
    {
        match self.channels.get(&server_id) {
            Some(ch) => Some(ch.epoch),
            None => None,
        }
    }

    /// The history of a channel, if the channel exists.
    pub fn history(&self, server_id: ServerId) -> (history: Option<Vec<StoredMessage>>)
        ensures
            history is Some <==> self@.channels.contains_key(server_id),
            history matches Some(h) ==> views(h@) == self@.channels[server_id].history,
    {
        match self.channels.get(&server_id) {
            Some(ch) => {
                let copy = ch.history.clone();
                assert(views(copy@) =~= views(ch.history@));
                Some(copy)
            },
            None => None,
        }
    }

    /// Opens a channel with its creator as the sole member.
    pub fn create_channel(&mut self, server_id: ServerId, name: String, owner: UserId)
        ensures
            final(self)@ == old(self)@.with_channel(
                server_id,
                ChannelView::created(server_id, name@, owner),
            ),
            state_wf(old(self)@) && old(self)@.users.contains_key(owner) ==> state_wf(final(self)@),
    {
        let mut members: HashSet<UserId> = HashSet::new();
        members.insert(owner);
        let channel = ChannelRecord {
            server_id,
            name,
            owner_id: owner,
            members,
            epoch: 0,
            history: Vec::new(),
        };
        assert(channel@ =~= ChannelView::created(server_id, name@, owner));
        self.channels.insert(server_id, channel);
        assert(self@.channels =~= old(self)@.channels.insert(server_id, channel@));
    }

    /// Adds a user to a channel, which bumps its epoch. Returns the new epoch.
    pub fn join_channel(&mut self, server_id: ServerId, user: UserId) -> (joined: Result<
        Epoch,
        DispatchError,
    >)
        requires
            old(self)@.channels.contains_key(server_id) && !old(self)@.is_member(server_id, user)
                ==> old(self)@.channels[server_id].epoch < Epoch::MAX,
        ensures
            match joined {
                Ok(epoch) => {
                    &&& old(self)@.channels.contains_key(server_id)
                    &&& !old(self)@.is_member(server_id, user)
                    &&& epoch == old(self)@.channels[server_id].epoch + 1
                    &&& final(self)@ == old(self)@.with_channel(
                        server_id,
                        old(self)@.channels[server_id].joined(user),
                    )
                },
                Err(e) => {
                    &&& final(self)@ == old(self)@
                    &&& if old(self)@.channels.contains_key(server_id) {
                        old(self)@.is_member(server_id, user) && e@
                            == DispatchErrorView::AlreadyMember
                    } else {
                        e@ == DispatchErrorView::UnknownServer
                    }
                },
            },
            state_wf(old(self)@) && old(self)@.users.contains_key(user) ==> state_wf(final(self)@),
    {
        match self.channels.remove(&server_id) {
            Some(mut channel) => {
                let ghost before = channel@;
                assert(old(self)@.channels[server_id] == before);
                if !channel.members.insert(user) {
                    assert(channel@ =~= before);
                    self.channels.insert(server_id, channel);
                    assert(self@.channels =~= old(self)@.channels);
                    return Err(DispatchError::AlreadyMember);
                }
                channel.epoch = channel.epoch + 1;
                let epoch: Epoch = channel.epoch;
                assert(channel@ =~= before.joined(user));
                self.channels.insert(server_id, channel);
                assert(self@.channels =~= old(self)@.channels.insert(server_id, channel@));
                proof {
                    if state_wf(old(self)@) && old(self)@.users.contains_key(user) {
                        change_keeps_channel_well_formed(
                            self@.users,
                            server_id,
                            before,
                            user,
                            arbitrary(),
                        );
                        channel_keeps_well_formed(old(self)@, server_id, channel@);
                    }
                }
                Ok(epoch)
            },
            None => {
                assert(self@.channels =~= old(self)@.channels);
                Err(DispatchError::UnknownServer)
            },
        }
    }

    /// Takes a user out of a channel, which bumps its epoch. Returns the new epoch.
    pub fn leave_channel(&mut self, server_id: ServerId, user: UserId) -> (left: Result<
        Epoch,
        DispatchError,
    >)
        requires
            old(self)@.is_member(server_id, user) ==> old(self)@.channels[server_id].epoch
                < Epoch::MAX,
        ensures
            match left {
                Ok(epoch) => {
                    &&& old(self)@.is_member(server_id, user)
                    &&& epoch == old(self)@.channels[server_id].epoch + 1
                    &&& final(self)@ == old(self)@.with_channel(
                        server_id,
                        old(self)@.channels[server_id].left(user),
                    )
                },
                Err(e) => {
                    &&& final(self)@ == old(self)@
                    &&& !old(self)@.is_member(server_id, user)
                    &&& e@ == if old(self)@.channels.contains_key(server_id) {
                        DispatchErrorView::NotMember
                    } else {
                        DispatchErrorView::UnknownServer
                    }
                },
            },
            state_wf(old(self)@) ==> state_wf(final(self)@),
    {
        match self.channels.remove(&server_id) {
            Some(mut channel) => {
                let ghost before = channel@;
                assert(old(self)@.channels[server_id] == before);
                if !channel.members.remove(&user) {
                    assert(channel@ =~= before);
                    self.channels.insert(server_id, channel);
                    assert(self@.channels =~= old(self)@.channels);
                    return Err(DispatchError::NotMember);
                }
                channel.epoch = channel.epoch + 1;
                let epoch: Epoch = channel.epoch;
                assert(channel@ =~= before.left(user));
                self.channels.insert(server_id, channel);
                assert(self@.channels =~= old(self)@.channels.insert(server_id, channel@));
                proof {
                    if state_wf(old(self)@) {
                        change_keeps_channel_well_formed(
                            self@.users,
                            server_id,
                            before,
                            user,
                            arbitrary(),
                        );
                        channel_keeps_well_formed(old(self)@, server_id, channel@);
                    }
                }
                Ok(epoch)
            },
            None => {
                assert(self@.channels =~= old(self)@.channels);
                Err(DispatchError::UnknownServer)
            },
        }
    }

    /// Adds a message to a channel's history, of which the oldest are dropped beyond
    /// the cap.
    pub fn append_message(&mut self, server_id: ServerId, message: StoredMessage) -> (appended:
        Result<(), DispatchError>)
        ensures
            match appended {
                Ok(()) => {
                    &&& old(self)@.channels.contains_key(server_id)
                    &&& final(self)@ == old(self)@.with_channel(
                        server_id,
                        old(self)@.channels[server_id].posted(message@),
                    )
                },
                Err(e) => {
                    &&& !old(self)@.channels.contains_key(server_id)
                    &&& final(self)@ == old(self)@
                    &&& e@ == DispatchErrorView::UnknownServer
                },
            },
            state_wf(old(self)@) && old(self)@.users.contains_key(message.sender) && (old(
                self,
            )@.channels.contains_key(server_id) ==> message.epoch <= old(
                self,
            )@.channels[server_id].epoch) ==> state_wf(final(self)@),
    {
        match self.channels.remove(&server_id) {
            Some(mut channel) => {
                let ghost before = channel@;
                assert(old(self)@.channels[server_id] == before);
                let ghost posted = message@;
                push_recent(&mut channel.history, message);
                assert(channel@ =~= before.posted(posted));
                self.channels.insert(server_id, channel);
                assert(self@.channels =~= old(self)@.channels.insert(server_id, channel@));
                proof {
                    if state_wf(old(self)@) && old(self)@.users.contains_key(posted.sender)
                        && posted.epoch <= before.epoch {
                        change_keeps_channel_well_formed(
                            self@.users,
                            server_id,
                            before,
                            posted.sender,
                            posted,
                        );
                        channel_keeps_well_formed(old(self)@, server_id, channel@);
                    }
                }
                Ok(())
            },
            None => {
                assert(self@.channels =~= old(self)@.channels);
                Err(DispatchError::UnknownServer)
            },
        }
    }

    /// One line for each channel.
    pub fn servers(&self) -> (servers: Vec<ServerInfo>)
        ensures
            is_listing(views(servers@), self@.channels),
    {
        let mut servers: Vec<ServerInfo> = Vec::new();
        let ghost walk = vstd::std_specs::hash::spec_hash_map_iter(&self.channels).remaining();
        let ghost ids = Seq::new(walk.len(), |i: int| *walk[i].0);
        assert forall|i: int| 0 <= i < walk.len() implies self.channels@.contains_key(
            #[trigger] ids[i],
        ) && self.channels@[ids[i]] == *walk[i].1 by {
            assert(self.channels@.contains_key(*walk[i].0));
        }
        for entry in it: self.channels.iter()
            invariant
                it.seq() == walk,
                ids.len() == walk.len(),
                forall|i: int|
                    0 <= i < walk.len() ==> self.channels@.contains_key(#[trigger] ids[i])
                        && self.channels@[ids[i]] == *walk[i].1,
                views(servers@).len() == it.index(),
                forall|i: int|
                    0 <= i < it.index() ==> #[trigger] views(servers@)[i]
                        == self@.channels[ids[i]].info(),
        {
            let (_, channel) = entry;
            let ghost before = views(servers@);
            assert(self@.channels[ids[it.index() as int]] == channel@);
            servers.push(
                ServerInfo {
                    server_id: channel.server_id,
                    name: channel.name.clone(),
                    owner_id: channel.owner_id,
                    member_count: channel.members.len(),
                },
            );
            assert(views(servers@) =~= before.push(channel@.info()));
        }
        proof {
            assert forall|i: int, j: int|
                0 <= i < ids.len() && 0 <= j < ids.len() && i != j implies ids[i] != ids[j] by {
                assert(walk[i] != walk[j]);
            }
            assert forall|id: ServerId| self@.channels.dom().contains(id) implies ids.to_set().contains(
                id,
            ) by {
                assert(self.channels@.contains_key(id));
                let i = walk.index_of((&id, &self.channels@[id]));
                assert(ids[i] == id);
            }
            assert(ids.to_set() =~= self@.channels.dom());
            assert(lists(ids, self@.channels.dom()));
            assert(views(servers@) =~= ids.map_values(|id: ServerId| self@.channels[id].info()));
        }
        servers
    }
}

} // verus!
