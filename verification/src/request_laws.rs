//! What every request comes to, told by what can be seen: the fields of the state before
//! and after it, and the frames that arrive.
use crate::auth::ConnAuthView;
use crate::connection::{disconnected, served};
use crate::encoding::{b64_decoding, b64_encoding, b64_round_trip};
use crate::fresh::FreshView;
use crate::laws::{
    addressed, audience, fan_out_reaches_each_online_user_once, roster_is_complete,
};
use crate::model::{is_fan_out, is_listing, is_roster, lists, roster, AppStateView, ChannelView};
use crate::outside::{bad_length_text, dilithium3_accepts, uuid_octets};
use crate::protocol::{
    ClientMessageView, ConnId, DeliveryView, Epoch, MemberInfoView, ServerId, ServerInfoView,
    ServerMessageView, StoredMessageView, UserId, UserRecordView,
};
use crate::rules::{decoded, state_wf};
use crate::state::Session;
use crate::text::decimal;
use vstd::bytes::spec_u64_to_le_bytes;
use vstd::prelude::*;

verus! {

// ---------------------------------------------------------------------------
// What can be seen
// ---------------------------------------------------------------------------

/// The requester, and nobody else, gets one frame.
pub open spec fn answered_with(
    sent: Seq<DeliveryView>,
    conn: ConnId,
    msg: ServerMessageView,
) -> bool {
    &&& sent.len() == 1
    &&& sent[0].to == conn
    &&& sent[0].msg == msg
}

/// Nothing changes, and the requester, and nobody else, is told why.
pub open spec fn refused_with(
    state: AppStateView,
    auth: ConnAuthView,
    conn: ConnId,
    after: AppStateView,
    auth_after: ConnAuthView,
    sent: Seq<DeliveryView>,
    reason: Seq<char>,
) -> bool {
    &&& after == state
    &&& auth_after == auth
    &&& answered_with(sent, conn, ServerMessageView::Error { reason })
}

/// A text is the base64 of these bytes, or of none.
pub open spec fn reads(text: Seq<char>, bytes: Option<Seq<u8>>) -> bool {
    match bytes {
        Some(b) => text == b64_encoding(b),
        None => forall|b: Seq<u8>| #[trigger] b64_encoding(b) != text,
    }
}

/// The connections of the users that are online.
pub open spec fn connections(online: Map<UserId, Session>) -> Map<UserId, ConnId> {
    online.map_values(|session: Session| session.conn)
}

/// Everyone of a set of users that is online, but for one, gets a frame on its
/// connection, exactly once, and nobody else does.
pub open spec fn reaches(
    sent: Seq<DeliveryView>,
    online: Map<UserId, ConnId>,
    users: Set<UserId>,
    except: Option<UserId>,
    msg: ServerMessageView,
) -> bool {
    exists|told: Seq<UserId>| #[trigger]
        told.no_duplicates() && (forall|user: UserId|
            #![trigger told.contains(user)]
            told.contains(user) <==> users.contains(user) && online.contains_key(user) && except
                != Some(user)) && sent.len() == told.len() && (forall|i: int|
            #![trigger sent[i]]
            0 <= i < told.len() ==> sent[i].to == online[told[i]] && sent[i].msg == msg)
}

/// A list has exactly one line for each member that is registered, online or not, with
/// that user's name and keys.
pub open spec fn shows_members(
    list: Seq<MemberInfoView>,
    users: Map<UserId, UserRecordView>,
    members: Set<UserId>,
) -> bool {
    exists|order: Seq<UserId>| #[trigger]
        order.no_duplicates() && (forall|user: UserId|
            #![trigger order.contains(user)]
            order.contains(user) <==> members.contains(user) && users.contains_key(user))
            && list.len() == order.len() && (forall|i: int|
            #![trigger list[i]]
            0 <= i < order.len() ==> {
                &&& list[i].user_id == users[order[i]].user_id
                &&& list[i].display_name == users[order[i]].display_name
                &&& list[i].kem_public_key == users[order[i]].kem_public_key
                &&& list[i].sig_public_key == users[order[i]].sig_public_key
            })
}

/// A list has exactly one line for each channel.
pub open spec fn shows_channels(
    list: Seq<ServerInfoView>,
    channels: Map<ServerId, ChannelView>,
) -> bool {
    exists|order: Seq<ServerId>| #[trigger]
        order.no_duplicates() && (forall|id: ServerId|
            #![trigger order.contains(id)]
            order.contains(id) <==> channels.contains_key(id)) && list.len() == order.len() && (
        forall|i: int|
            #![trigger list[i]]
            0 <= i < order.len() ==> {
                &&& list[i].server_id == channels[order[i]].server_id
                &&& list[i].name == channels[order[i]].name
                &&& list[i].owner_id == channels[order[i]].owner_id
                &&& list[i].member_count == channels[order[i]].members.len()
            })
}

/// A history after a message: the messages before it and then the message, of which the
/// last five hundred are kept.
pub open spec fn grows_by(
    before: Seq<StoredMessageView>,
    after: Seq<StoredMessageView>,
    message: StoredMessageView,
) -> bool {
    let dropped = before.len() + 1 - after.len();
    &&& after.len() == if before.len() < 500 {
        before.len() + 1
    } else {
        500
    }
    &&& after[after.len() - 1] == message
    &&& forall|i: int| 0 <= i < after.len() - 1 ==> #[trigger] after[i] == before[dropped + i]
}

/// Only one channel differs, and in nothing but its members, its epoch and its history.
pub open spec fn changes_only(state: AppStateView, after: AppStateView, id: ServerId) -> bool {
    &&& after.users == state.users
    &&& after.online == state.online
    &&& forall|other: ServerId|
        #![trigger after.channels.contains_key(other)]
        after.channels.contains_key(other) == state.channels.contains_key(other)
    &&& forall|other: ServerId|
        #![trigger after.channels[other]]
        other != id && state.channels.contains_key(other) ==> after.channels[other]
            == state.channels[other]
    &&& after.channels[id].server_id == state.channels[id].server_id
    &&& after.channels[id].name == state.channels[id].name
    &&& after.channels[id].owner_id == state.channels[id].owner_id
}

// ---------------------------------------------------------------------------
// From the rules to what can be seen
// ---------------------------------------------------------------------------

/// What a text reads as, said both ways.
pub(crate) proof fn reading_is_decoding(text: Seq<char>, bytes: Option<Seq<u8>>)
    requires
        reads(text, bytes),
    ensures
        b64_decoding(text) == bytes,
        bytes matches Some(b) ==> decoded(text) == b,
{
    match bytes {
        Some(b) => b64_round_trip(b, text),
        None => {},
    }
}

/// Every text reads as some bytes or as none, and not as both.
pub proof fn every_text_reads_one_way(text: Seq<char>, x: Option<Seq<u8>>, y: Option<Seq<u8>>)
    ensures
        exists|bytes: Option<Seq<u8>>| reads(text, bytes),
        reads(text, x) && reads(text, y) ==> x == y,
{
    assert(reads(text, b64_decoding(text)));
    if reads(text, x) && reads(text, y) {
        reading_is_decoding(text, x);
        reading_is_decoding(text, y);
    }
}

/// A fan-out reaches whom it should.
pub proof fn fan_out_reaches(
    sent: Seq<DeliveryView>,
    queues: Map<UserId, ConnId>,
    users: Set<UserId>,
    except: Option<UserId>,
    msg: ServerMessageView,
)
    requires
        is_fan_out(sent, queues, users, except, msg),
    ensures
        reaches(sent, queues, users, except, msg),
{
    fan_out_reaches_each_online_user_once(sent, queues, users, except, msg);
    let told = choose|told: Seq<UserId>| #[trigger]
        lists(told, audience(queues, users, except)) && sent == addressed(queues, told, msg);
    assert forall|user: UserId| #![trigger told.contains(user)]
        told.contains(user) <==> users.contains(user) && queues.contains_key(user) && except != Some(
            user,
        ) by {
        assert(told.to_set().contains(user) <==> told.contains(user));
    }
    assert forall|i: int| #![trigger sent[i]] 0 <= i < told.len() implies sent[i].to
        == queues[told[i]] && sent[i].msg == msg by {
        assert(told.contains(told[i]));
    }
    assert(told.no_duplicates());
}

/// The registered among a list of users, in the order of the list, with their lines.
proof fn roster_of_list(users: Map<UserId, UserRecordView>, ids: Seq<UserId>) -> (order: Seq<UserId>)
    requires
        ids.no_duplicates(),
    ensures
        order.no_duplicates(),
        forall|user: UserId|
            #![trigger order.contains(user)]
            order.contains(user) <==> ids.contains(user) && users.contains_key(user),
        roster(users, ids).len() == order.len(),
        forall|i: int|
            #![trigger roster(users, ids)[i]]
            0 <= i < order.len() ==> {
                &&& roster(users, ids)[i].user_id == users[order[i]].user_id
                &&& roster(users, ids)[i].display_name == users[order[i]].display_name
                &&& roster(users, ids)[i].kem_public_key == users[order[i]].kem_public_key
                &&& roster(users, ids)[i].sig_public_key == users[order[i]].sig_public_key
            },
    decreases ids.len(),
{
    if ids.len() == 0 {
        Seq::empty()
    } else {
        let user = ids.last();
        let others = ids.drop_last();
        let before = roster_of_list(users, others);
        assert(!others.contains(user)) by {
            if others.contains(user) {
                let i = others.index_of(user);
                assert(ids[i] == ids[ids.len() - 1]);
            }
        }
        assert forall|u: UserId| #[trigger] ids.contains(u) <==> others.contains(u) || u == user by {
            if ids.contains(u) && u != user {
                let i = ids.index_of(u);
                assert(others[i] == u);
            }
            if others.contains(u) {
                let i = others.index_of(u);
                assert(ids[i] == u);
            }
            if u == user {
                assert(ids[ids.len() - 1] == u);
            }
        }
        if users.contains_key(user) {
            let order = before.push(user);
            assert(!before.contains(user));
            assert forall|u: UserId| #![trigger order.contains(u)]
                order.contains(u) <==> ids.contains(u) && users.contains_key(u) by {
                if before.contains(u) {
                    let i = before.index_of(u);
                    assert(order[i] == u);
                }
                if u == user {
                    assert(order[before.len() as int] == u);
                }
                if order.contains(u) && u != user {
                    let i = order.index_of(u);
                    assert(before[i] == u);
                }
            }
            order
        } else {
            assert forall|u: UserId| #![trigger before.contains(u)]
                before.contains(u) <==> ids.contains(u) && users.contains_key(u) by {
                assert(ids.contains(u) <==> others.contains(u) || u == user);
            }
            before
        }
    }
}

/// A roster shows whom it should.
pub proof fn roster_shows_members(
    list: Seq<MemberInfoView>,
    users: Map<UserId, UserRecordView>,
    members: Set<UserId>,
)
    requires
        is_roster(list, users, members),
    ensures
        shows_members(list, users, members),
{
    let ids = choose|ids: Seq<UserId>| #[trigger] lists(ids, members) && list == roster(users, ids);
    let order = roster_of_list(users, ids);
    assert forall|user: UserId| #![trigger order.contains(user)]
        order.contains(user) <==> members.contains(user) && users.contains_key(user) by {
        assert(ids.to_set().contains(user) <==> ids.contains(user));
    }
    assert(order.no_duplicates());
}

/// A listing shows every channel.
pub proof fn listing_shows_channels(
    list: Seq<ServerInfoView>,
    channels: Map<ServerId, ChannelView>,
)
    requires
        is_listing(list, channels),
    ensures
        shows_channels(list, channels),
{
    let order = choose|order: Seq<ServerId>| #[trigger]
        lists(order, channels.dom()) && list == order.map_values(
            |id: ServerId| channels[id].info(),
        );
    assert forall|id: ServerId| #![trigger order.contains(id)]
        order.contains(id) <==> channels.contains_key(id) by {
        assert(order.to_set().contains(id) <==> order.contains(id));
    }
    assert(order.no_duplicates());
}

/// Leaving out someone who is added first reaches the same users.
pub(crate) proof fn reaching_all_but_one(
    sent: Seq<DeliveryView>,
    online: Map<UserId, ConnId>,
    users: Set<UserId>,
    me: UserId,
    msg: ServerMessageView,
)
    requires
        !users.contains(me),
        reaches(sent, online, users.insert(me), Some(me), msg) || reaches(
            sent,
            online,
            users,
            Some(me),
            msg,
        ),
    ensures
        reaches(sent, online, users, None, msg),
{
    let all = if reaches(sent, online, users.insert(me), Some(me), msg) {
        users.insert(me)
    } else {
        users
    };
    let told = choose|told: Seq<UserId>| #[trigger]
        told.no_duplicates() && (forall|user: UserId|
            #![trigger told.contains(user)]
            told.contains(user) <==> all.contains(user) && online.contains_key(user) && Some(me)
                != Some(user)) && sent.len() == told.len() && (forall|i: int|
            #![trigger sent[i]]
            0 <= i < told.len() ==> sent[i].to == online[told[i]] && sent[i].msg == msg);
    assert(told.no_duplicates());
    assert forall|user: UserId| #![trigger told.contains(user)]
        told.contains(user) <==> users.contains(user) && online.contains_key(user) && None::<UserId>
            != Some(user) by {
    }
}

// ---------------------------------------------------------------------------
// Without a session
// ---------------------------------------------------------------------------

/// A ping is answered with a pong, whoever sends it, and changes nothing.
pub proof fn ping_law(
    state: AppStateView,
    auth: ConnAuthView,
    conn: ConnId,
    fresh: FreshView,
    after: AppStateView,
    auth_after: ConnAuthView,
    sent: Seq<DeliveryView>,
)
    requires
        served(state, auth, conn, ClientMessageView::Ping, fresh, after, auth_after, sent),
    ensures
        after == state,
        auth_after == auth,
        answered_with(sent, conn, ServerMessageView::Pong),
{
}

/// A registration is accepted if and only if both keys are base64 of the right lengths,
/// whatever the name and whoever asks, and is otherwise refused for the first thing that
/// is wrong. An accepted one files the user under the id that was drawn, with the name
/// and the bytes that were handed in, and changes nothing else.
pub proof fn register_law(
    state: AppStateView,
    auth: ConnAuthView,
    conn: ConnId,
    display_name: Seq<char>,
    kem_public_key: Seq<char>,
    sig_public_key: Seq<char>,
    fresh: FreshView,
    after: AppStateView,
    auth_after: ConnAuthView,
    sent: Seq<DeliveryView>,
    kem: Option<Seq<u8>>,
    sig: Option<Seq<u8>>,
)
    requires
        served(
            state,
            auth,
            conn,
            ClientMessageView::Register { display_name, kem_public_key, sig_public_key },
            fresh,
            after,
            auth_after,
            sent,
        ),
        reads(kem_public_key, kem),
        reads(sig_public_key, sig),
    ensures
        kem is None ==> refused_with(
            state,
            auth,
            conn,
            after,
            auth_after,
            sent,
            "kem_public_key not base64"@,
        ),
        kem is Some && sig is None ==> refused_with(
            state,
            auth,
            conn,
            after,
            auth_after,
            sent,
            "sig_public_key not base64"@,
        ),
        kem is Some && sig is Some && (kem->0).len() != 1184 ==> refused_with(
            state,
            auth,
            conn,
            after,
            auth_after,
            sent,
            "invalid Kyber768 public key: "@ + bad_length_text("PublicKey"@, (kem->0).len(), 1184),
        ),
        kem is Some && sig is Some && (kem->0).len() == 1184 && (sig->0).len() != 1952
            ==> refused_with(
            state,
            auth,
            conn,
            after,
            auth_after,
            sent,
            "invalid Dilithium3 public key: "@ + bad_length_text("PublicKey"@, (sig->0).len(), 1952),
        ),
        kem is Some && sig is Some && (kem->0).len() == 1184 && (sig->0).len() == 1952 ==> {
            &&& auth_after == auth
            &&& after.channels == state.channels
            &&& after.online == state.online
            &&& after.users == state.users.insert(fresh.id, after.users[fresh.id])
            &&& after.users[fresh.id].user_id == fresh.id
            &&& after.users[fresh.id].display_name == display_name
            &&& after.users[fresh.id].kem_public_key == kem->0
            &&& after.users[fresh.id].sig_public_key == sig->0
            &&& after.users[fresh.id].created_at == fresh.now
            &&& answered_with(sent, conn, ServerMessageView::Registered { user_id: fresh.id })
        },
{
    reading_is_decoding(kem_public_key, kem);
    reading_is_decoding(sig_public_key, sig);
}

/// A challenge is issued to whoever names a registered user, in whatever state the
/// connection is, and to nobody else. It is sent as the base64 of the bytes that the
/// connection now holds.
pub proof fn auth_begin_law(
    state: AppStateView,
    auth: ConnAuthView,
    conn: ConnId,
    user: UserId,
    fresh: FreshView,
    after: AppStateView,
    auth_after: ConnAuthView,
    sent: Seq<DeliveryView>,
)
    requires
        served(
            state,
            auth,
            conn,
            ClientMessageView::AuthBegin { user_id: user },
            fresh,
            after,
            auth_after,
            sent,
        ),
    ensures
        !state.users.contains_key(user) ==> refused_with(
            state,
            auth,
            conn,
            after,
            auth_after,
            sent,
            "unknown user"@,
        ),
        state.users.contains_key(user) ==> {
            &&& after == state
            &&& auth_after == (ConnAuthView::Pending { user_id: user, challenge: fresh.challenge })
            &&& answered_with(
                sent,
                conn,
                ServerMessageView::AuthChallenge { nonce: b64_encoding(fresh.challenge) },
            )
        },
{
}

/// The answer to a challenge is accepted if and only if a challenge is out, the answer
/// is base64 and Dilithium3 accepts it as a signature over the challenge under the key
/// of the challenged user; it is otherwise refused for the first thing that is wrong. An
/// accepted one puts the user online on this connection, in place of any other, and
/// changes nothing else.
pub proof fn auth_finish_law(
    state: AppStateView,
    auth: ConnAuthView,
    conn: ConnId,
    signature: Seq<char>,
    fresh: FreshView,
    after: AppStateView,
    auth_after: ConnAuthView,
    sent: Seq<DeliveryView>,
    sig: Option<Seq<u8>>,
)
    requires
        served(
            state,
            auth,
            conn,
            ClientMessageView::AuthFinish { signature },
            fresh,
            after,
            auth_after,
            sent,
        ),
        reads(signature, sig),
    ensures
        !(auth is Pending) ==> refused_with(
            state,
            auth,
            conn,
            after,
            auth_after,
            sent,
            "no pending auth — call auth_begin first"@,
        ),
        auth is Pending && sig is None ==> refused_with(
            state,
            auth,
            conn,
            after,
            auth_after,
            sent,
            "signature not base64"@,
        ),
        auth is Pending && sig is Some && !state.users.contains_key(auth->Pending_user_id) ==> refused_with(
            state,
            auth,
            conn,
            after,
            auth_after,
            sent,
            "unknown user"@,
        ),
        auth is Pending && sig is Some && state.users.contains_key(auth->Pending_user_id) ==> ({
            let user_id = auth->Pending_user_id;
            let challenge = auth->Pending_challenge;
            let s = sig->0;
            let key = state.users[user_id].sig_public_key;
            &&& key.len() != 1952 ==> refused_with(
                state,
                auth,
                conn,
                after,
                auth_after,
                sent,
                "invalid Dilithium3 public key: "@ + bad_length_text("PublicKey"@, key.len(), 1952),
            )
            &&& key.len() == 1952 && s.len() > 3309 ==> refused_with(
                state,
                auth,
                conn,
                after,
                auth_after,
                sent,
                "invalid Dilithium3 signature encoding: "@ + bad_length_text(
                    "DetachedSignature"@,
                    s.len(),
                    3309,
                ),
            )
            &&& key.len() == 1952 && s.len() <= 3309 && !dilithium3_accepts(key, challenge, s)
                ==> refused_with(
                state,
                auth,
                conn,
                after,
                auth_after,
                sent,
                "Dilithium3 signature verification failed"@,
            )
            &&& key.len() == 1952 && s.len() <= 3309 && dilithium3_accepts(key, challenge, s) ==> {
                &&& auth_after == (ConnAuthView::Auth { user_id })
                &&& after.users == state.users
                &&& after.channels == state.channels
                &&& after.online == state.online.insert(user_id, Session { user_id, conn })
                &&& answered_with(sent, conn, ServerMessageView::Authenticated { user_id })
            }
        }),
{
    reading_is_decoding(signature, sig);
}

/// Everything but a ping, a registration and an authentication is refused to a
/// connection that has not authenticated.
pub proof fn session_law(
    state: AppStateView,
    auth: ConnAuthView,
    conn: ConnId,
    req: ClientMessageView,
    fresh: FreshView,
    after: AppStateView,
    auth_after: ConnAuthView,
    sent: Seq<DeliveryView>,
)
    requires
        served(state, auth, conn, req, fresh, after, auth_after, sent),
        !(auth is Auth),
        !(req is Ping || req is Register || req is AuthBegin || req is AuthFinish),
    ensures
        refused_with(state, auth, conn, after, auth_after, sent, "not authenticated"@),
{
}

// ---------------------------------------------------------------------------
// Channels
// ---------------------------------------------------------------------------

/// Any authenticated user may create a channel, whatever its name. The channel is filed
/// under the id that was drawn, with its creator as owner and sole member, at epoch zero
/// and without messages, and nothing else changes.
pub proof fn create_server_law(
    state: AppStateView,
    me: UserId,
    conn: ConnId,
    name: Seq<char>,
    fresh: FreshView,
    after: AppStateView,
    auth_after: ConnAuthView,
    sent: Seq<DeliveryView>,
)
    requires
        served(
            state,
            ConnAuthView::Auth { user_id: me },
            conn,
            ClientMessageView::CreateServer { name },
            fresh,
            after,
            auth_after,
            sent,
        ),
    ensures
        auth_after == (ConnAuthView::Auth { user_id: me }),
        after.users == state.users,
        after.online == state.online,
        after.channels == state.channels.insert(fresh.id, after.channels[fresh.id]),
        after.channels[fresh.id].server_id == fresh.id,
        after.channels[fresh.id].name == name,
        after.channels[fresh.id].owner_id == me,
        after.channels[fresh.id].members == set![me],
        after.channels[fresh.id].epoch == 0,
        after.channels[fresh.id].history.len() == 0,
        answered_with(
            sent,
            conn,
            ServerMessageView::ServerCreated { server_id: fresh.id, epoch: 0 },
        ),
{
    assert(set![me] =~= Set::empty().insert(me));
}

/// A join of an existing channel is accepted from everyone that is no member. It adds the
/// joiner, bumps the epoch by one and leaves everything else as it was. The joiner is
/// told the channel, the new epoch and all members; every other member that is online is
/// told of the joiner and the new epoch.
pub proof fn join_server_law(
    state: AppStateView,
    me: UserId,
    conn: ConnId,
    id: ServerId,
    fresh: FreshView,
    after: AppStateView,
    auth_after: ConnAuthView,
    sent: Seq<DeliveryView>,
)
    requires
        served(
            state,
            ConnAuthView::Auth { user_id: me },
            conn,
            ClientMessageView::JoinServer { server_id: id },
            fresh,
            after,
            auth_after,
            sent,
        ),
    ensures
        !state.channels.contains_key(id) ==> refused_with(
            state,
            ConnAuthView::Auth { user_id: me },
            conn,
            after,
            auth_after,
            sent,
            "unknown server"@,
        ),
        state.channels.contains_key(id) && state.channels[id].members.contains(me) ==> refused_with(
            state,
            ConnAuthView::Auth { user_id: me },
            conn,
            after,
            auth_after,
            sent,
            "already a member"@,
        ),
        state.channels.contains_key(id) && !state.channels[id].members.contains(me)
            && state.channels[id].epoch < Epoch::MAX ==> {
            &&& auth_after == (ConnAuthView::Auth { user_id: me })
            &&& changes_only(state, after, id)
            &&& after.channels[id].members == state.channels[id].members.insert(me)
            &&& after.channels[id].epoch == state.channels[id].epoch + 1
            &&& after.channels[id].history == state.channels[id].history
            &&& sent.len() >= 1
            &&& sent[0].to == conn
            &&& sent[0].msg matches ServerMessageView::ServerJoined { server_id, epoch, members }
            &&& server_id == id
            &&& epoch == state.channels[id].epoch + 1
            &&& shows_members(members, state.users, state.channels[id].members.insert(me))
            &&& !state.users.contains_key(me) ==> sent.len() == 1
            &&& state.users.contains_key(me) ==> reaches(
                sent.skip(1),
                connections(state.online),
                state.channels[id].members,
                None,
                ServerMessageView::MemberJoined {
                    server_id: id,
                    member: MemberInfoView {
                        user_id: state.users[me].user_id,
                        display_name: state.users[me].display_name,
                        kem_public_key: state.users[me].kem_public_key,
                        sig_public_key: state.users[me].sig_public_key,
                    },
                    epoch: (state.channels[id].epoch + 1) as Epoch,
                },
            )
        },
{
    let before = state.channels[id];
    assert(after.online == state.online ==> after.queues() =~= connections(state.online));
    if state.channels.contains_key(id) && !before.members.contains(me) && before.epoch < Epoch::MAX {
        roster_shows_members(
            sent[0].msg->ServerJoined_members,
            state.users,
            before.members.insert(me),
        );
        if state.users.contains_key(me) {
            let notice = ServerMessageView::MemberJoined {
                server_id: id,
                member: MemberInfoView {
                    user_id: state.users[me].user_id,
                    display_name: state.users[me].display_name,
                    kem_public_key: state.users[me].kem_public_key,
                    sig_public_key: state.users[me].sig_public_key,
                },
                epoch: (before.epoch + 1) as Epoch,
            };
            fan_out_reaches(sent.skip(1), connections(state.online), before.members.insert(me), Some(me), notice);
            reaching_all_but_one(sent.skip(1), connections(state.online), before.members, me, notice);
        }
    }
}

/// A leave is accepted from every member. It removes the leaver, bumps the epoch by one
/// and leaves everything else as it was, the channel among it. The leaver gets an
/// acknowledgement; every remaining member that is online is told who left and the new
/// epoch.
pub proof fn leave_server_law(
    state: AppStateView,
    me: UserId,
    conn: ConnId,
    id: ServerId,
    fresh: FreshView,
    after: AppStateView,
    auth_after: ConnAuthView,
    sent: Seq<DeliveryView>,
)
    requires
        served(
            state,
            ConnAuthView::Auth { user_id: me },
            conn,
            ClientMessageView::LeaveServer { server_id: id },
            fresh,
            after,
            auth_after,
            sent,
        ),
    ensures
        !state.channels.contains_key(id) ==> refused_with(
            state,
            ConnAuthView::Auth { user_id: me },
            conn,
            after,
            auth_after,
            sent,
            "unknown server"@,
        ),
        state.channels.contains_key(id) && !state.channels[id].members.contains(me) ==> refused_with(
            state,
            ConnAuthView::Auth { user_id: me },
            conn,
            after,
            auth_after,
            sent,
            "not a member"@,
        ),
        state.channels.contains_key(id) && state.channels[id].members.contains(me)
            && state.channels[id].epoch < Epoch::MAX ==> {
            &&& auth_after == (ConnAuthView::Auth { user_id: me })
            &&& changes_only(state, after, id)
            &&& after.channels[id].members == state.channels[id].members.remove(me)
            &&& after.channels[id].epoch == state.channels[id].epoch + 1
            &&& after.channels[id].history == state.channels[id].history
            &&& sent.len() >= 1
            &&& sent[0].to == conn
            &&& sent[0].msg == (ServerMessageView::ServerLeft { server_id: id })
            &&& reaches(
                sent.skip(1),
                connections(state.online),
                state.channels[id].members.remove(me),
                None,
                ServerMessageView::MemberLeft {
                    server_id: id,
                    user_id: me,
                    epoch: (state.channels[id].epoch + 1) as Epoch,
                },
            )
        },
{
    let before = state.channels[id];
    assert(after.online == state.online ==> after.queues() =~= connections(state.online));
    if state.channels.contains_key(id) && before.members.contains(me) && before.epoch < Epoch::MAX {
        let notice = ServerMessageView::MemberLeft {
            server_id: id,
            user_id: me,
            epoch: (before.epoch + 1) as Epoch,
        };
        fan_out_reaches(sent.skip(1), connections(state.online), before.members.remove(me), Some(me), notice);
        assert(before.members.remove(me).insert(me) =~= before.members);
        reaching_all_but_one(sent.skip(1), connections(state.online), before.members.remove(me), me, notice);
    }
}

// ---------------------------------------------------------------------------
// Keys and messages
// ---------------------------------------------------------------------------

/// A wrapped key is forwarded if and only if sender and target are members of the channel
/// and it is base64, of however many bytes and for whatever epoch. The target gets it as
/// it was handed in if it is online, nobody else gets anything, and nothing changes.
pub proof fn distribute_key_law(
    state: AppStateView,
    me: UserId,
    conn: ConnId,
    id: ServerId,
    target: UserId,
    epoch: Epoch,
    wrapped_key: Seq<char>,
    fresh: FreshView,
    after: AppStateView,
    auth_after: ConnAuthView,
    sent: Seq<DeliveryView>,
    key: Option<Seq<u8>>,
)
    requires
        served(
            state,
            ConnAuthView::Auth { user_id: me },
            conn,
            ClientMessageView::DistributeKey {
                server_id: id,
                target_user_id: target,
                epoch,
                wrapped_key,
            },
            fresh,
            after,
            auth_after,
            sent,
        ),
        reads(wrapped_key, key),
    ensures
        !state.channels.contains_key(id) ==> refused_with(
            state,
            ConnAuthView::Auth { user_id: me },
            conn,
            after,
            auth_after,
            sent,
            "unknown server"@,
        ),
        state.channels.contains_key(id) && !state.channels[id].members.contains(me) ==> refused_with(
            state,
            ConnAuthView::Auth { user_id: me },
            conn,
            after,
            auth_after,
            sent,
            "you are not in this server"@,
        ),
        state.channels.contains_key(id) && state.channels[id].members.contains(me)
            && !state.channels[id].members.contains(target) ==> refused_with(
            state,
            ConnAuthView::Auth { user_id: me },
            conn,
            after,
            auth_after,
            sent,
            "target is not in this server"@,
        ),
        state.channels.contains_key(id) && state.channels[id].members.contains(me)
            && state.channels[id].members.contains(target) && key is None ==> refused_with(
            state,
            ConnAuthView::Auth { user_id: me },
            conn,
            after,
            auth_after,
            sent,
            "wrapped_key not base64"@,
        ),
        state.channels.contains_key(id) && state.channels[id].members.contains(me)
            && state.channels[id].members.contains(target) && key is Some ==> {
            &&& after == state
            &&& auth_after == (ConnAuthView::Auth { user_id: me })
            &&& if state.online.contains_key(target) {
                answered_with(
                    sent,
                    state.online[target].conn,
                    ServerMessageView::KeyMaterial {
                        server_id: id,
                        from_user: me,
                        epoch,
                        wrapped_key,
                    },
                )
            } else {
                sent.len() == 0
            }
        },
{
    reading_is_decoding(wrapped_key, key);
}

/// A message is accepted if and only if its parts are base64, its sender is a member, its
/// epoch is the channel's and, of a registered sender, Dilithium3 accepts the signature
/// over channel, epoch, ciphertext and nonce, in this order, under the sender's key. It
/// is otherwise refused for the first thing that is wrong. Neither the ciphertext nor the
/// nonce is limited in length. An accepted one is added to the history, nothing else
/// changes, and every member that is online, the sender among them, gets it once as it
/// was handed in.
pub proof fn send_message_law(
    state: AppStateView,
    me: UserId,
    conn: ConnId,
    id: ServerId,
    epoch: Epoch,
    nonce: Seq<char>,
    ciphertext: Seq<char>,
    signature: Seq<char>,
    fresh: FreshView,
    after: AppStateView,
    auth_after: ConnAuthView,
    sent: Seq<DeliveryView>,
    n: Option<Seq<u8>>,
    c: Option<Seq<u8>>,
    s: Option<Seq<u8>>,
)
    requires
        served(
            state,
            ConnAuthView::Auth { user_id: me },
            conn,
            ClientMessageView::SendMessage { server_id: id, epoch, nonce, ciphertext, signature },
            fresh,
            after,
            auth_after,
            sent,
        ),
        reads(nonce, n),
        reads(ciphertext, c),
        reads(signature, s),
    ensures
        n is None ==> refused_with(
            state,
            ConnAuthView::Auth { user_id: me },
            conn,
            after,
            auth_after,
            sent,
            "nonce not base64"@,
        ),
        n is Some && c is None ==> refused_with(
            state,
            ConnAuthView::Auth { user_id: me },
            conn,
            after,
            auth_after,
            sent,
            "ciphertext not base64"@,
        ),
        n is Some && c is Some && s is None ==> refused_with(
            state,
            ConnAuthView::Auth { user_id: me },
            conn,
            after,
            auth_after,
            sent,
            "signature not base64"@,
        ),
        n is Some && c is Some && s is Some && !state.channels.contains_key(id) ==> refused_with(
            state,
            ConnAuthView::Auth { user_id: me },
            conn,
            after,
            auth_after,
            sent,
            "unknown server"@,
        ),
        n is Some && c is Some && s is Some && state.channels.contains_key(id)
            && !state.channels[id].members.contains(me) ==> refused_with(
            state,
            ConnAuthView::Auth { user_id: me },
            conn,
            after,
            auth_after,
            sent,
            "you are not in this server"@,
        ),
        n is Some && c is Some && s is Some && state.channels.contains_key(id)
            && state.channels[id].members.contains(me) && state.channels[id].epoch != epoch ==> refused_with(
            state,
            ConnAuthView::Auth { user_id: me },
            conn,
            after,
            auth_after,
            sent,
            "stale epoch (expected "@ + decimal(state.channels[id].epoch as nat) + ", got "@ + decimal(
                epoch as nat,
            ) + ")"@,
        ),
        n is Some && c is Some && s is Some && state.channels.contains_key(id)
            && state.channels[id].members.contains(me) && state.channels[id].epoch == epoch ==> ({
            let key = state.users[me].sig_public_key;
            let payload = uuid_octets(id) + spec_u64_to_le_bytes(epoch) + c->0 + n->0;
            let good = key.len() == 1952 && (s->0).len() <= 3309 && dilithium3_accepts(
                key,
                payload,
                s->0,
            );
            &&& state.users.contains_key(me) && !good ==> refused_with(
                state,
                ConnAuthView::Auth { user_id: me },
                conn,
                after,
                auth_after,
                sent,
                "message signature invalid"@,
            )
            &&& !state.users.contains_key(me) || good ==> {
                &&& auth_after == (ConnAuthView::Auth { user_id: me })
                &&& changes_only(state, after, id)
                &&& after.channels[id].members == state.channels[id].members
                &&& after.channels[id].epoch == state.channels[id].epoch
                &&& grows_by(
                    state.channels[id].history,
                    after.channels[id].history,
                    StoredMessageView {
                        message_id: fresh.id,
                        sender: me,
                        epoch,
                        nonce: n->0,
                        ciphertext: c->0,
                        signature: s->0,
                        timestamp: fresh.now,
                    },
                )
                &&& reaches(
                    sent,
                    connections(state.online),
                    state.channels[id].members,
                    None,
                    ServerMessageView::NewMessage {
                        server_id: id,
                        message_id: fresh.id,
                        sender: me,
                        epoch,
                        nonce,
                        ciphertext,
                        signature,
                        timestamp: fresh.now,
                    },
                )
            }
        }),
{
    reading_is_decoding(nonce, n);
    reading_is_decoding(ciphertext, c);
    reading_is_decoding(signature, s);
    let before = state.channels[id];
    assert(after.online == state.online ==> after.queues() =~= connections(state.online));
    if n is Some && c is Some && s is Some && state.channels.contains_key(id)
        && before.members.contains(me) && before.epoch == epoch {
        let key = state.users[me].sig_public_key;
        let payload = uuid_octets(id) + spec_u64_to_le_bytes(epoch) + c->0 + n->0;
        if !state.users.contains_key(me) || (key.len() == 1952 && (s->0).len() <= 3309
            && dilithium3_accepts(key, payload, s->0)) {
            fan_out_reaches(
                sent,
                connections(state.online),
                before.members,
                None,
                ServerMessageView::NewMessage {
                    server_id: id,
                    message_id: fresh.id,
                    sender: me,
                    epoch,
                    nonce,
                    ciphertext,
                    signature,
                    timestamp: fresh.now,
                },
            );
        }
    }
}

// ---------------------------------------------------------------------------
// Queries
// ---------------------------------------------------------------------------

/// Any authenticated user gets a list of all channels, with one line for each, whether
/// the user is a member or not.
pub proof fn list_servers_law(
    state: AppStateView,
    me: UserId,
    conn: ConnId,
    fresh: FreshView,
    after: AppStateView,
    auth_after: ConnAuthView,
    sent: Seq<DeliveryView>,
)
    requires
        served(
            state,
            ConnAuthView::Auth { user_id: me },
            conn,
            ClientMessageView::ListServers,
            fresh,
            after,
            auth_after,
            sent,
        ),
    ensures
        after == state,
        auth_after == (ConnAuthView::Auth { user_id: me }),
        sent.len() == 1,
        sent[0].to == conn,
        sent[0].msg is ServerList,
        shows_channels(sent[0].msg->ServerList_servers, state.channels),
{
    listing_shows_channels(sent[0].msg->ServerList_servers, state.channels);
}

/// A member, and nobody else, gets a list of the members, with one line for each that is
/// registered, online or not; in a well-formed state that is everyone.
pub proof fn list_members_law(
    state: AppStateView,
    me: UserId,
    conn: ConnId,
    id: ServerId,
    fresh: FreshView,
    after: AppStateView,
    auth_after: ConnAuthView,
    sent: Seq<DeliveryView>,
)
    requires
        served(
            state,
            ConnAuthView::Auth { user_id: me },
            conn,
            ClientMessageView::ListMembers { server_id: id },
            fresh,
            after,
            auth_after,
            sent,
        ),
    ensures
        !state.channels.contains_key(id) ==> refused_with(
            state,
            ConnAuthView::Auth { user_id: me },
            conn,
            after,
            auth_after,
            sent,
            "unknown server"@,
        ),
        state.channels.contains_key(id) && !state.channels[id].members.contains(me) ==> refused_with(
            state,
            ConnAuthView::Auth { user_id: me },
            conn,
            after,
            auth_after,
            sent,
            "not a member"@,
        ),
        state.channels.contains_key(id) && state.channels[id].members.contains(me) ==> {
            &&& after == state
            &&& auth_after == (ConnAuthView::Auth { user_id: me })
            &&& sent.len() == 1
            &&& sent[0].to == conn
            &&& sent[0].msg matches ServerMessageView::MemberList { server_id, members }
            &&& server_id == id
            &&& shows_members(members, state.users, state.channels[id].members)
            &&& state_wf(state) ==> members.len() == state.channels[id].members.len()
        },
{
    if state.channels.contains_key(id) && state.channels[id].members.contains(me) {
        let members = sent[0].msg->MemberList_members;
        roster_shows_members(members, state.users, state.channels[id].members);
        if state_wf(state) {
            roster_is_complete(state, id, members);
        }
    }
}

/// A member, and nobody else, gets the channel's whole history as it stands, in order,
/// whatever the epochs of its messages and whoever sent them.
pub proof fn get_history_law(
    state: AppStateView,
    me: UserId,
    conn: ConnId,
    id: ServerId,
    fresh: FreshView,
    after: AppStateView,
    auth_after: ConnAuthView,
    sent: Seq<DeliveryView>,
)
    requires
        served(
            state,
            ConnAuthView::Auth { user_id: me },
            conn,
            ClientMessageView::GetHistory { server_id: id },
            fresh,
            after,
            auth_after,
            sent,
        ),
    ensures
        !state.channels.contains_key(id) ==> refused_with(
            state,
            ConnAuthView::Auth { user_id: me },
            conn,
            after,
            auth_after,
            sent,
            "unknown server"@,
        ),
        state.channels.contains_key(id) && !state.channels[id].members.contains(me) ==> refused_with(
            state,
            ConnAuthView::Auth { user_id: me },
            conn,
            after,
            auth_after,
            sent,
            "not a member"@,
        ),
        state.channels.contains_key(id) && state.channels[id].members.contains(me) ==> {
            &&& after == state
            &&& auth_after == (ConnAuthView::Auth { user_id: me })
            &&& answered_with(
                sent,
                conn,
                ServerMessageView::History {
                    server_id: id,
                    messages: state.channels[id].history,
                },
            )
        },
{
}

/// Any authenticated user gets the record of any registered user.
pub proof fn lookup_user_law(
    state: AppStateView,
    me: UserId,
    conn: ConnId,
    user: UserId,
    fresh: FreshView,
    after: AppStateView,
    auth_after: ConnAuthView,
    sent: Seq<DeliveryView>,
)
    requires
        served(
            state,
            ConnAuthView::Auth { user_id: me },
            conn,
            ClientMessageView::LookupUser { user_id: user },
            fresh,
            after,
            auth_after,
            sent,
        ),
    ensures
        !state.users.contains_key(user) ==> refused_with(
            state,
            ConnAuthView::Auth { user_id: me },
            conn,
            after,
            auth_after,
            sent,
            "unknown user"@,
        ),
        state.users.contains_key(user) ==> {
            &&& after == state
            &&& auth_after == (ConnAuthView::Auth { user_id: me })
            &&& answered_with(sent, conn, ServerMessageView::UserInfo { user: state.users[user] })
        },
{
}

// ---------------------------------------------------------------------------
// Over many requests
// ---------------------------------------------------------------------------

/// Whether a state comes from another by one request of anyone, but for a creation that
/// happens to draw this channel's id, or by the end of a connection.
pub open spec fn moves(before: AppStateView, after: AppStateView, id: ServerId) -> bool {
    ||| exists|
        auth: ConnAuthView,
        conn: ConnId,
        req: ClientMessageView,
        fresh: FreshView,
        auth_after: ConnAuthView,
        sent: Seq<DeliveryView>,
    | #[trigger]
        served(before, auth, conn, req, fresh, after, auth_after, sent) && !(req is CreateServer
            && fresh.id == id)
    ||| exists|conn: ConnId| after == #[trigger] disconnected(before, conn)
}

/// Whether each of a run of states comes from the one before it.
pub open spec fn runs(run: Seq<AppStateView>, id: ServerId) -> bool
    decreases run.len(),
{
    run.len() >= 2 ==> runs(run.drop_last(), id) && moves(
        run[run.len() - 2],
        run[run.len() - 1],
        id,
    )
}

/// A channel stays, and its history stays as it is, or grows by a message at its end.
pub proof fn history_step_law(before: AppStateView, after: AppStateView, id: ServerId)
    requires
        moves(before, after, id),
        before.channels.contains_key(id),
    ensures
        after.channels.contains_key(id),
        after.channels[id].history == before.channels[id].history || exists|m: StoredMessageView|
            grows_by(before.channels[id].history, after.channels[id].history, m),
{
    if !(exists|conn: ConnId| after == #[trigger] disconnected(before, conn)) {
        let (auth, conn, req, fresh, auth_after, sent) = choose|
            auth: ConnAuthView,
            conn: ConnId,
            req: ClientMessageView,
            fresh: FreshView,
            auth_after: ConnAuthView,
            sent: Seq<DeliveryView>,
        | #[trigger]
            served(before, auth, conn, req, fresh, after, auth_after, sent) && !(req is CreateServer
                && fresh.id == id);
        match (auth, req) {
            (
                ConnAuthView::Auth { user_id },
                ClientMessageView::SendMessage { server_id, epoch, nonce, ciphertext, signature },
            ) => {
                if server_id == id && after.channels[id].history != before.channels[id].history {
                    let m = StoredMessageView {
                        message_id: fresh.id,
                        sender: user_id,
                        epoch,
                        nonce: decoded(nonce),
                        ciphertext: decoded(ciphertext),
                        signature: decoded(signature),
                        timestamp: fresh.now,
                    };
                    assert(grows_by(before.channels[id].history, after.channels[id].history, m));
                }
            },
            _ => {},
        }
    }
}

/// How far from the end of the history a message is after a run.
proof fn message_stays(run: Seq<AppStateView>, id: ServerId, m: StoredMessageView) -> (newer: int)
    requires
        0 < run.len() <= 500,
        runs(run, id),
        run[0].channels.contains_key(id),
        run[0].channels[id].history.len() > 0,
        run[0].channels[id].history.last() == m,
    ensures
        run.last().channels.contains_key(id),
        0 <= newer < run.len(),
        newer < run.last().channels[id].history.len(),
        run.last().channels[id].history[run.last().channels[id].history.len() - 1 - newer] == m,
    decreases run.len(),
{
    if run.len() == 1 {
        0
    } else {
        let newer = message_stays(run.drop_last(), id, m);
        let before = run[run.len() - 2];
        let after = run[run.len() - 1];
        assert(run.drop_last().last() == before);
        history_step_law(before, after, id);
        let h = before.channels[id].history;
        let k = after.channels[id].history;
        if k == h {
            newer
        } else {
            let added = choose|added: StoredMessageView| grows_by(h, k, added);
            assert(grows_by(h, k, added));
            let i = k.len() - 1 - (newer + 1);
            assert(0 <= i < k.len() - 1);
            assert(k[i] == h[h.len() + 1 - k.len() + i]);
            newer + 1
        }
    }
}

/// What was sent is read back later too: whatever happens meanwhile, joins, leaves, other
/// messages and ended connections, as long as it is fewer than five hundred things, a
/// message that was last in the history is still in it for everyone that is a member then.
pub proof fn message_is_read_back_later(
    run: Seq<AppStateView>,
    id: ServerId,
    m: StoredMessageView,
    reader: UserId,
    conn: ConnId,
    fresh: FreshView,
    after: AppStateView,
    auth_after: ConnAuthView,
    sent: Seq<DeliveryView>,
)
    requires
        0 < run.len() <= 500,
        runs(run, id),
        run[0].channels.contains_key(id),
        run[0].channels[id].history.len() > 0,
        run[0].channels[id].history.last() == m,
        run.last().channels[id].members.contains(reader),
        served(
            run.last(),
            ConnAuthView::Auth { user_id: reader },
            conn,
            ClientMessageView::GetHistory { server_id: id },
            fresh,
            after,
            auth_after,
            sent,
        ),
    ensures
        sent.len() == 1,
        sent[0].to == conn,
        sent[0].msg is History,
        (sent[0].msg->History_messages).contains(m),
{
    let newer = message_stays(run, id, m);
    get_history_law(run.last(), reader, conn, id, fresh, after, auth_after, sent);
    let history = run.last().channels[id].history;
    assert(history[history.len() - 1 - newer] == m);
}

} // verus!
