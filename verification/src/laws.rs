//! What holds of the relay across requests.
use crate::auth::ConnAuthView;
use crate::connection::{disconnected, served};
use crate::crypto::signature_verdict;
use crate::encoding::{b64_decoding, b64_length, b64_round_trip};
use crate::errors::DispatchErrorView;
use crate::fresh::FreshView;
use crate::model::{
    fanned_out, is_fan_out, is_roster, lists, most_recent, pushed, roster, AppStateView,
    ChannelView, MAX_HISTORY,
};
use crate::protocol::{
    member_view, ClientMessageView, ConnId, DeliveryView, Epoch, MemberInfoView, ServerId,
    ServerMessageView, StoredMessageView, UserId, UserRecordView,
};
use crate::rules::{
    auth_wf, channel_wf, decoded, dispatched, epoch_room, refusal, registered, reply,
    signed_payload, state_wf, stored,
};
use vstd::prelude::*;

verus! {

// ---------------------------------------------------------------------------
// Refusals and queries
// ---------------------------------------------------------------------------

/// A refused request changes nothing, and its sender alone is told, in a single error
/// frame that gives the reason.
pub proof fn refused_request_changes_nothing(
    state: AppStateView,
    auth: ConnAuthView,
    conn: ConnId,
    req: ClientMessageView,
    fresh: FreshView,
    after: AppStateView,
    auth_after: ConnAuthView,
    sent: Seq<DeliveryView>,
)
    requires
        served(state, auth, conn, req, fresh, after, auth_after, sent),
        refusal(state, auth, req) is Some,
    ensures
        after == state,
        auth_after == auth,
        sent == reply(
            conn,
            ServerMessageView::Error { reason: (refusal(state, auth, req)->0).text() },
        ),
{
}

/// Requests that only ask or forward leave the state and the connection's
/// authentication as they were.
pub proof fn query_changes_nothing(
    state: AppStateView,
    auth: ConnAuthView,
    conn: ConnId,
    req: ClientMessageView,
    fresh: FreshView,
    after: AppStateView,
    auth_after: ConnAuthView,
    outcome: Result<Seq<DeliveryView>, DispatchErrorView>,
)
    requires
        dispatched(state, auth, conn, req, fresh, after, auth_after, outcome),
        req is Ping || req is ListServers || req is ListMembers || req is GetHistory
            || req is LookupUser || req is DistributeKey,
    ensures
        after == state,
        auth_after == auth,
{
}

/// Without an authenticated session only registration, authentication and pings are
/// served.
pub proof fn unauthenticated_request_is_refused(
    state: AppStateView,
    auth: ConnAuthView,
    req: ClientMessageView,
)
    requires
        auth.user() is None,
        !(req is Ping || req is Register || req is AuthBegin || req is AuthFinish),
    ensures
        refusal(state, auth, req) == Some(DispatchErrorView::NotAuthenticated),
{
}

// ---------------------------------------------------------------------------
// Users and authentication
// ---------------------------------------------------------------------------

/// A connection comes to speak for a user only by a signature that verifies under
/// that user's stored key over the very challenge that was issued to the connection.
pub proof fn only_a_valid_signature_authenticates(
    state: AppStateView,
    auth: ConnAuthView,
    conn: ConnId,
    req: ClientMessageView,
    fresh: FreshView,
    after: AppStateView,
    auth_after: ConnAuthView,
    outcome: Result<Seq<DeliveryView>, DispatchErrorView>,
    user: UserId,
)
    requires
        dispatched(state, auth, conn, req, fresh, after, auth_after, outcome),
        auth_after.user() == Some(user),
        auth.user() != Some(user),
    ensures
        auth is Pending,
        auth->Pending_user_id == user,
        req is AuthFinish,
        b64_decoding(req->AuthFinish_signature) is Some,
        state.users.contains_key(user),
        signature_verdict(
            state.users[user].sig_public_key,
            auth->Pending_challenge,
            decoded(req->AuthFinish_signature),
        ) is Ok,
{
}

/// A challenge that was begun by one request is answered by the next: the frame reads
/// back as the challenge that the connection now holds, in four characters for every
/// three bytes begun, and a signature over it that verifies brings the user online on
/// this connection.
pub proof fn answered_challenge_authenticates(
    state: AppStateView,
    auth: ConnAuthView,
    conn: ConnId,
    user: UserId,
    fresh: FreshView,
    challenged: AppStateView,
    pending: ConnAuthView,
    issued: Result<Seq<DeliveryView>, DispatchErrorView>,
    signature: Seq<char>,
    fresh2: FreshView,
    after: AppStateView,
    auth_after: ConnAuthView,
    outcome: Result<Seq<DeliveryView>, DispatchErrorView>,
)
    requires
        state.users.contains_key(user),
        dispatched(
            state,
            auth,
            conn,
            ClientMessageView::AuthBegin { user_id: user },
            fresh,
            challenged,
            pending,
            issued,
        ),
        b64_decoding(signature) is Some,
        signature_verdict(
            state.users[user].sig_public_key,
            fresh.challenge,
            decoded(signature),
        ) is Ok,
        dispatched(
            challenged,
            pending,
            conn,
            ClientMessageView::AuthFinish { signature },
            fresh2,
            after,
            auth_after,
            outcome,
        ),
    ensures
        challenged == state,
        pending == (ConnAuthView::Pending { user_id: user, challenge: fresh.challenge }),
        issued is Ok,
        (issued->Ok_0).len() == 1,
        (issued->Ok_0)[0].to == conn,
        (issued->Ok_0)[0].msg is AuthChallenge,
        b64_decoding((issued->Ok_0)[0].msg->AuthChallenge_nonce) == Some(fresh.challenge),
        (issued->Ok_0)[0].msg->AuthChallenge_nonce.len() == 4 * ((fresh.challenge.len() + 2) / 3),
        auth_after == (ConnAuthView::Auth { user_id: user }),
        after.queues().contains_key(user),
        after.queues()[user] == conn,
        outcome == Ok::<Seq<DeliveryView>, DispatchErrorView>(
            reply(conn, ServerMessageView::Authenticated { user_id: user }),
        ),
{
    b64_length(fresh.challenge);
    b64_round_trip(fresh.challenge, signature);
}

/// No user is ever forgotten, and no record changes but that of the id which a
/// registration assigns.
pub proof fn users_are_kept(
    state: AppStateView,
    auth: ConnAuthView,
    conn: ConnId,
    req: ClientMessageView,
    fresh: FreshView,
    after: AppStateView,
    auth_after: ConnAuthView,
    outcome: Result<Seq<DeliveryView>, DispatchErrorView>,
    user: UserId,
)
    requires
        dispatched(state, auth, conn, req, fresh, after, auth_after, outcome),
        state.users.contains_key(user),
    ensures
        after.users.contains_key(user),
        !(req is Register && fresh.id == user) ==> after.users[user] == state.users[user],
{
}

/// A user that has registered can be looked up by any authenticated user, with the
/// keys that were registered, and can begin to authenticate.
pub proof fn registered_user_is_found(
    state: AppStateView,
    auth: ConnAuthView,
    conn: ConnId,
    display_name: Seq<char>,
    kem_public_key: Seq<char>,
    sig_public_key: Seq<char>,
    fresh: FreshView,
    after: AppStateView,
    auth_after: ConnAuthView,
    sent: Seq<DeliveryView>,
    reader: UserId,
    reader_conn: ConnId,
    fresh2: FreshView,
    last: AppStateView,
    reader_after: ConnAuthView,
    found: Result<Seq<DeliveryView>, DispatchErrorView>,
)
    requires
        dispatched(
            state,
            auth,
            conn,
            ClientMessageView::Register { display_name, kem_public_key, sig_public_key },
            fresh,
            after,
            auth_after,
            Ok(sent),
        ),
        dispatched(
            after,
            ConnAuthView::Auth { user_id: reader },
            reader_conn,
            ClientMessageView::LookupUser { user_id: fresh.id },
            fresh2,
            last,
            reader_after,
            found,
        ),
    ensures
        sent == reply(conn, ServerMessageView::Registered { user_id: fresh.id }),
        b64_decoding(kem_public_key) is Some,
        b64_decoding(sig_public_key) is Some,
        found == Ok::<Seq<DeliveryView>, DispatchErrorView>(
            reply(
                reader_conn,
                ServerMessageView::UserInfo {
                    user: registered(
                        display_name,
                        decoded(kem_public_key),
                        decoded(sig_public_key),
                        fresh,
                    ),
                },
            ),
        ),
        refusal(after, auth, ClientMessageView::AuthBegin { user_id: fresh.id }) is None,
{
}

/// Whether everyone that is online is so on one of these connections.
pub open spec fn online_on(state: AppStateView, live: Set<ConnId>) -> bool {
    forall|user: UserId| #[trigger]
        state.online.contains_key(user) ==> live.contains(state.online[user].conn)
}

/// Only users with a live connection are online: it is so at the start, a request on a
/// live connection keeps it so, and when a connection ends it is so of the connections
/// that are left, whoever authenticated on the one that ended.
pub proof fn online_users_are_connected(
    state: AppStateView,
    auth: ConnAuthView,
    conn: ConnId,
    req: ClientMessageView,
    fresh: FreshView,
    after: AppStateView,
    auth_after: ConnAuthView,
    outcome: Result<Seq<DeliveryView>, DispatchErrorView>,
    live: Set<ConnId>,
)
    requires
        dispatched(state, auth, conn, req, fresh, after, auth_after, outcome),
        live.contains(conn),
        online_on(state, live),
    ensures
        online_on(AppStateView::empty(), Set::empty()),
        online_on(after, live),
        online_on(disconnected(after, conn), live.remove(conn)),
{
}

/// The end of a connection takes those users offline that were online on it, and
/// nobody else: they are pushed nothing any more, and everyone else is pushed what they
/// were, on the connection where they last authenticated.
pub proof fn disconnect_spares_other_connections(
    state: AppStateView,
    conn: ConnId,
    user: UserId,
    msg: ServerMessageView,
)
    ensures
        pushed(disconnected(state, conn).queues(), user, msg) == if state.online.contains_key(user)
            && state.online[user].conn == conn {
            Seq::<DeliveryView>::empty()
        } else {
            pushed(state.queues(), user, msg)
        },
{
}

// ---------------------------------------------------------------------------
// Membership and epochs
// ---------------------------------------------------------------------------

/// A new channel has its creator as the sole member, at epoch zero, with no messages.
pub proof fn creator_is_sole_member(
    state: AppStateView,
    me: UserId,
    conn: ConnId,
    name: Seq<char>,
    fresh: FreshView,
    after: AppStateView,
    auth_after: ConnAuthView,
    outcome: Result<Seq<DeliveryView>, DispatchErrorView>,
)
    requires
        dispatched(
            state,
            ConnAuthView::Auth { user_id: me },
            conn,
            ClientMessageView::CreateServer { name },
            fresh,
            after,
            auth_after,
            outcome,
        ),
    ensures
        after.channels.contains_key(fresh.id),
        after.channels[fresh.id].owner_id == me,
        after.channels[fresh.id].name == name,
        after.channels[fresh.id].epoch == 0,
        after.channels[fresh.id].history.len() == 0,
        forall|user: UserId| after.is_member(fresh.id, user) <==> user == me,
        after.channels[fresh.id].info().member_count == 1,
{
}

/// Channels do not vanish, keep their name and owner, and an epoch grows by one
/// exactly when the membership changes. Only a creation that happens to draw the id of
/// an existing channel replaces that channel.
pub proof fn epoch_counts_membership_changes(
    state: AppStateView,
    auth: ConnAuthView,
    conn: ConnId,
    req: ClientMessageView,
    fresh: FreshView,
    after: AppStateView,
    auth_after: ConnAuthView,
    outcome: Result<Seq<DeliveryView>, DispatchErrorView>,
    id: ServerId,
)
    requires
        dispatched(state, auth, conn, req, fresh, after, auth_after, outcome),
        epoch_room(state, auth, req),
        state.channels.contains_key(id),
        !(req is CreateServer && fresh.id == id),
    ensures
        after.channels.contains_key(id),
        after.channels[id].name == state.channels[id].name,
        after.channels[id].owner_id == state.channels[id].owner_id,
        if after.channels[id].members == state.channels[id].members {
            after.channels[id].epoch == state.channels[id].epoch
        } else {
            after.channels[id].epoch == state.channels[id].epoch + 1
        },
{
    match (auth, req) {
        (ConnAuthView::Auth { user_id }, ClientMessageView::JoinServer { server_id }) => {
            if refusal(state, auth, req) is None && server_id == id {
                assert(after.channels[id].members.contains(user_id));
            }
        },
        (ConnAuthView::Auth { user_id }, ClientMessageView::LeaveServer { server_id }) => {
            if refusal(state, auth, req) is None && server_id == id {
                assert(!after.channels[id].members.contains(user_id));
            }
        },
        _ => {},
    }
}

/// Membership changes by the member alone: whoever's membership a request changes is
/// the user that made it, or the creator of the channel that it drew.
pub proof fn only_users_themselves_join_and_leave(
    state: AppStateView,
    auth: ConnAuthView,
    conn: ConnId,
    req: ClientMessageView,
    fresh: FreshView,
    after: AppStateView,
    auth_after: ConnAuthView,
    outcome: Result<Seq<DeliveryView>, DispatchErrorView>,
    id: ServerId,
    user: UserId,
)
    requires
        dispatched(state, auth, conn, req, fresh, after, auth_after, outcome),
        !(req is CreateServer && fresh.id == id),
        after.is_member(id, user) != state.is_member(id, user),
    ensures
        auth.user() == Some(user),
        if after.is_member(id, user) {
            req == (ClientMessageView::JoinServer { server_id: id })
        } else {
            req == (ClientMessageView::LeaveServer { server_id: id })
        },
{
}

/// Joining a channel and leaving it again restores its members, two epochs later.
pub proof fn leave_undoes_join(channel: ChannelView, user: UserId)
    requires
        !channel.members.contains(user),
        channel.epoch + 2 <= Epoch::MAX,
    ensures
        channel.joined(user).left(user) == (ChannelView {
            epoch: (channel.epoch + 2) as Epoch,
            ..channel
        }),
{
    assert(channel.members.insert(user).remove(user) =~= channel.members);
}

/// Who is not a member of a channel is refused everything about it but joining.
pub proof fn non_member_is_excluded(
    state: AppStateView,
    user: UserId,
    id: ServerId,
    req: ClientMessageView,
)
    requires
        !state.is_member(id, user),
        req matches ClientMessageView::SendMessage { server_id, .. } ==> server_id == id,
        req matches ClientMessageView::DistributeKey { server_id, .. } ==> server_id == id,
        req matches ClientMessageView::GetHistory { server_id } ==> server_id == id,
        req matches ClientMessageView::ListMembers { server_id } ==> server_id == id,
        req matches ClientMessageView::LeaveServer { server_id } ==> server_id == id,
        req is SendMessage || req is DistributeKey || req is GetHistory || req is ListMembers
            || req is LeaveServer,
    ensures
        refusal(state, ConnAuthView::Auth { user_id: user }, req) is Some,
{
}

/// Whether a state comes from another by one request, but not by that user's join of
/// that channel nor by a creation that happens to draw the channel's id, or by the end
/// of a connection.
pub open spec fn moves_without_join(
    before: AppStateView,
    after: AppStateView,
    user: UserId,
    id: ServerId,
) -> bool {
    ||| exists|
        auth: ConnAuthView,
        conn: ConnId,
        req: ClientMessageView,
        fresh: FreshView,
        auth_after: ConnAuthView,
        outcome: Result<Seq<DeliveryView>, DispatchErrorView>,
    | #[trigger]
        dispatched(before, auth, conn, req, fresh, after, auth_after, outcome) && !(auth.user()
            == Some(user) && req == (ClientMessageView::JoinServer { server_id: id })) && !(
        req is CreateServer && fresh.id == id)
    ||| exists|conn: ConnId| after == #[trigger] disconnected(before, conn)
}

/// Whether each of a run of states comes from the one before it without that user
/// joining that channel.
pub open spec fn runs_without_join(run: Seq<AppStateView>, user: UserId, id: ServerId) -> bool
    decreases run.len(),
{
    run.len() >= 2 ==> runs_without_join(run.drop_last(), user, id) && moves_without_join(
        run[run.len() - 2],
        run[run.len() - 1],
        user,
        id,
    )
}

/// Who is not a member of a channel stays none, however many requests are served and
/// connections end, until it joins; and the channel stays.
pub proof fn non_member_stays_out(run: Seq<AppStateView>, user: UserId, id: ServerId)
    requires
        run.len() > 0,
        runs_without_join(run, user, id),
        run[0].channels.contains_key(id),
        !run[0].is_member(id, user),
    ensures
        run.last().channels.contains_key(id),
        !run.last().is_member(id, user),
    decreases run.len(),
{
    if run.len() >= 2 {
        non_member_stays_out(run.drop_last(), user, id);
    }
}

/// A user that has left a channel is out of it: whatever is served to others and to it,
/// in every later state nothing that concerns the channel is served to it, on any
/// connection, until it joins again, which it may.
pub proof fn departed_user_is_excluded(
    state: AppStateView,
    user: UserId,
    conn: ConnId,
    id: ServerId,
    fresh: FreshView,
    auth_after: ConnAuthView,
    sent: Seq<DeliveryView>,
    run: Seq<AppStateView>,
    req: ClientMessageView,
)
    requires
        run.len() > 0,
        dispatched(
            state,
            ConnAuthView::Auth { user_id: user },
            conn,
            ClientMessageView::LeaveServer { server_id: id },
            fresh,
            run[0],
            auth_after,
            Ok(sent),
        ),
        runs_without_join(run, user, id),
        req matches ClientMessageView::SendMessage { server_id, .. } ==> server_id == id,
        req matches ClientMessageView::DistributeKey { server_id, .. } ==> server_id == id,
        req matches ClientMessageView::GetHistory { server_id } ==> server_id == id,
        req matches ClientMessageView::ListMembers { server_id } ==> server_id == id,
        req matches ClientMessageView::LeaveServer { server_id } ==> server_id == id,
        req is SendMessage || req is DistributeKey || req is GetHistory || req is ListMembers
            || req is LeaveServer,
    ensures
        refusal(run.last(), ConnAuthView::Auth { user_id: user }, req) is Some,
        refusal(
            run.last(),
            ConnAuthView::Auth { user_id: user },
            ClientMessageView::JoinServer { server_id: id },
        ) is None,
{
    non_member_stays_out(run, user, id);
    non_member_is_excluded(run.last(), user, id, req);
}

/// Whatever was encrypted under the key of an epoch cannot be posted once the
/// membership has changed: the message is refused as stale, or for a reason that is
/// found before.
pub proof fn message_of_an_earlier_epoch_is_refused(
    state: AppStateView,
    auth: ConnAuthView,
    conn: ConnId,
    change: ClientMessageView,
    fresh: FreshView,
    after: AppStateView,
    auth_after: ConnAuthView,
    outcome: Result<Seq<DeliveryView>, DispatchErrorView>,
    id: ServerId,
    sender: UserId,
    nonce: Seq<char>,
    ciphertext: Seq<char>,
    signature: Seq<char>,
)
    requires
        dispatched(state, auth, conn, change, fresh, after, auth_after, outcome),
        epoch_room(state, auth, change),
        state.channels.contains_key(id),
        !(change is CreateServer && fresh.id == id),
        after.channels[id].members != state.channels[id].members,
    ensures
        ({
            let late = refusal(
                after,
                ConnAuthView::Auth { user_id: sender },
                ClientMessageView::SendMessage {
                    server_id: id,
                    epoch: state.channels[id].epoch,
                    nonce,
                    ciphertext,
                    signature,
                },
            );
            &&& late is Some
            &&& after.is_member(id, sender) && b64_decoding(nonce) is Some && b64_decoding(
                ciphertext,
            ) is Some && b64_decoding(signature) is Some ==> late == Some(
                DispatchErrorView::StaleEpoch {
                    expected: after.channels[id].epoch,
                    got: state.channels[id].epoch,
                },
            )
        }),
{
    epoch_counts_membership_changes(
        state,
        auth,
        conn,
        change,
        fresh,
        after,
        auth_after,
        outcome,
        id,
    );
}

// ---------------------------------------------------------------------------
// Pushing frames
// ---------------------------------------------------------------------------

/// The users that a frame for a set of users reaches: those that are online, all but
/// one.
pub open spec fn audience(
    queues: Map<UserId, ConnId>,
    users: Set<UserId>,
    except: Option<UserId>,
) -> Set<UserId> {
    users.filter(|user: UserId| queues.contains_key(user) && except != Some(user))
}

/// A frame for each of a list of users, on that user's queue.
pub open spec fn addressed(
    queues: Map<UserId, ConnId>,
    users: Seq<UserId>,
    msg: ServerMessageView,
) -> Seq<DeliveryView> {
    users.map_values(|user: UserId| DeliveryView { to: queues[user], msg })
}

/// Pushing a frame to a list of users reaches those of them that are online, once
/// each.
proof fn fan_out_to_list(
    queues: Map<UserId, ConnId>,
    users: Seq<UserId>,
    except: Option<UserId>,
    msg: ServerMessageView,
) -> (reached: Seq<UserId>)
    requires
        users.no_duplicates(),
    ensures
        lists(reached, audience(queues, users.to_set(), except)),
        fanned_out(queues, users, except, msg) == addressed(queues, reached, msg),
    decreases users.len(),
{
    if users.len() == 0 {
        let reached = Seq::<UserId>::empty();
        assert(reached.to_set() =~= audience(queues, users.to_set(), except));
        assert(addressed(queues, reached, msg) =~= Seq::empty());
        reached
    } else {
        let user = users.last();
        let others = users.drop_last();
        let before = fan_out_to_list(queues, others, except, msg);
        assert(users =~= others.push(user));
        assert(users.to_set() =~= others.to_set().insert(user)) by {
            assert forall|u: UserId| users.to_set().contains(u) implies #[trigger] others.to_set().insert(
                user,
            ).contains(u) by {
                let i = users.index_of(u);
                if i < others.len() {
                    assert(others[i] == u);
                }
            }
            assert forall|u: UserId| #[trigger]
                others.to_set().insert(user).contains(u) implies users.to_set().contains(u) by {
                if u == user {
                    assert(users[users.len() - 1] == u);
                } else {
                    let i = others.index_of(u);
                    assert(users[i] == u);
                }
            }
        }
        assert(!others.to_set().contains(user)) by {
            if others.contains(user) {
                let i = others.index_of(user);
                assert(users[i] == users[users.len() - 1]);
            }
        }
        assert(!before.contains(user)) by {
            assert(before.to_set().contains(user) ==> others.to_set().contains(user));
        }
        if queues.contains_key(user) && except != Some(user) {
            let reached = before.push(user);
            assert(reached.to_set() =~= before.to_set().insert(user)) by {
                assert forall|u: UserId| #[trigger]
                    before.to_set().insert(user).contains(u) implies reached.to_set().contains(u) by {
                    if u == user {
                        assert(reached[before.len() as int] == u);
                    } else {
                        assert(reached[before.index_of(u)] == u);
                    }
                }
            }
            assert(reached.to_set() =~= audience(queues, users.to_set(), except));
            assert(addressed(queues, reached, msg) =~= addressed(queues, before, msg).push(
                DeliveryView { to: queues[user], msg },
            ));
            reached
        } else {
            assert(before.to_set() =~= audience(queues, users.to_set(), except));
            before
        }
    }
}

/// A frame that is fanned out to a set of users reaches every one of them that is
/// online, except the one left out, on that user's queue, exactly once, and nobody
/// else.
pub proof fn fan_out_reaches_each_online_user_once(
    sent: Seq<DeliveryView>,
    queues: Map<UserId, ConnId>,
    users: Set<UserId>,
    except: Option<UserId>,
    msg: ServerMessageView,
)
    requires
        is_fan_out(sent, queues, users, except, msg),
    ensures
        exists|reached: Seq<UserId>| #[trigger]
            lists(reached, audience(queues, users, except)) && sent == addressed(
                queues,
                reached,
                msg,
            ),
{
    let order = choose|order: Seq<UserId>| #[trigger]
        lists(order, users) && sent == fanned_out(queues, order, except, msg);
    let reached = fan_out_to_list(queues, order, except, msg);
    assert(lists(reached, audience(queues, users, except)));
}

/// When someone joins, the joiner gets the roster, and every other member that is
/// online is told once, at the new epoch.
pub proof fn join_tells_every_other_member(
    state: AppStateView,
    me: UserId,
    conn: ConnId,
    id: ServerId,
    fresh: FreshView,
    after: AppStateView,
    auth_after: ConnAuthView,
    sent: Seq<DeliveryView>,
)
    requires
        state.users.contains_key(me),
        epoch_room(
            state,
            ConnAuthView::Auth { user_id: me },
            ClientMessageView::JoinServer { server_id: id },
        ),
        dispatched(
            state,
            ConnAuthView::Auth { user_id: me },
            conn,
            ClientMessageView::JoinServer { server_id: id },
            fresh,
            after,
            auth_after,
            Ok(sent),
        ),
    ensures
        sent.len() >= 1,
        sent[0].to == conn,
        sent[0].msg is ServerJoined,
        is_roster(
            sent[0].msg->ServerJoined_members,
            state.users,
            state.channels[id].members.insert(me),
        ),
        exists|told: Seq<UserId>| #[trigger]
            lists(told, audience(state.queues(), state.channels[id].members, Some(me)))
                && sent.skip(1) == addressed(
                state.queues(),
                told,
                ServerMessageView::MemberJoined {
                    server_id: id,
                    member: member_view(state.users[me]),
                    epoch: (state.channels[id].epoch + 1) as Epoch,
                },
            ),
{
    assert(after.queues() =~= state.queues());
    fan_out_reaches_each_online_user_once(
        sent.skip(1),
        after.queues(),
        after.channels[id].members,
        Some(me),
        ServerMessageView::MemberJoined {
            server_id: id,
            member: member_view(state.users[me]),
            epoch: (state.channels[id].epoch + 1) as Epoch,
        },
    );
    assert(audience(state.queues(), state.channels[id].members.insert(me), Some(me)) =~= audience(
        state.queues(),
        state.channels[id].members,
        Some(me),
    ));
}

/// When someone leaves, the leaver gets an acknowledgement, and every remaining member
/// that is online is told once, at the new epoch.
pub proof fn leave_tells_every_remaining_member(
    state: AppStateView,
    me: UserId,
    conn: ConnId,
    id: ServerId,
    fresh: FreshView,
    after: AppStateView,
    auth_after: ConnAuthView,
    sent: Seq<DeliveryView>,
)
    requires
        epoch_room(
            state,
            ConnAuthView::Auth { user_id: me },
            ClientMessageView::LeaveServer { server_id: id },
        ),
        dispatched(
            state,
            ConnAuthView::Auth { user_id: me },
            conn,
            ClientMessageView::LeaveServer { server_id: id },
            fresh,
            after,
            auth_after,
            Ok(sent),
        ),
    ensures
        sent.len() >= 1,
        sent[0] == (DeliveryView { to: conn, msg: ServerMessageView::ServerLeft { server_id: id } }),
        exists|told: Seq<UserId>| #[trigger]
            lists(told, audience(state.queues(), state.channels[id].members, Some(me)))
                && sent.skip(1) == addressed(
                state.queues(),
                told,
                ServerMessageView::MemberLeft {
                    server_id: id,
                    user_id: me,
                    epoch: (state.channels[id].epoch + 1) as Epoch,
                },
            ),
{
    assert(after.queues() =~= state.queues());
    fan_out_reaches_each_online_user_once(
        sent.skip(1),
        after.queues(),
        after.channels[id].members,
        Some(me),
        ServerMessageView::MemberLeft {
            server_id: id,
            user_id: me,
            epoch: (state.channels[id].epoch + 1) as Epoch,
        },
    );
    assert(audience(state.queues(), state.channels[id].members.remove(me), Some(me)) =~= audience(
        state.queues(),
        state.channels[id].members,
        Some(me),
    ));
}

/// A wrapped key goes from one member of a channel to the member that it names, as it
/// was handed in, and to nobody else.
pub proof fn wrapped_key_reaches_its_target_alone(
    state: AppStateView,
    me: UserId,
    conn: ConnId,
    id: ServerId,
    target: UserId,
    epoch: Epoch,
    wrapped_key: Seq<char>,
    fresh: FreshView,
    after: AppStateView,
    auth_after: ConnAuthView,
    sent: Seq<DeliveryView>,
)
    requires
        dispatched(
            state,
            ConnAuthView::Auth { user_id: me },
            conn,
            ClientMessageView::DistributeKey {
                server_id: id,
                target_user_id: target,
                epoch,
                wrapped_key,
            },
            fresh,
            after,
            auth_after,
            Ok(sent),
        ),
    ensures
        state.is_member(id, me),
        state.is_member(id, target),
        sent == if state.queues().contains_key(target) {
            seq![
                DeliveryView {
                    to: state.queues()[target],
                    msg: ServerMessageView::KeyMaterial {
                        server_id: id,
                        from_user: me,
                        epoch,
                        wrapped_key,
                    },
                },
            ]
        } else {
            Seq::empty()
        },
{
}

// ---------------------------------------------------------------------------
// Messages and history
// ---------------------------------------------------------------------------

/// A message is accepted only from a member, at the channel's current epoch, and, of a
/// registered sender, only with a signature by that sender over the channel, the
/// epoch, the ciphertext and the nonce.
pub proof fn accepted_message_is_authorised(
    state: AppStateView,
    me: UserId,
    conn: ConnId,
    id: ServerId,
    epoch: Epoch,
    nonce: Seq<char>,
    ciphertext: Seq<char>,
    signature: Seq<char>,
    fresh: FreshView,
    after: AppStateView,
    auth_after: ConnAuthView,
    sent: Seq<DeliveryView>,
)
    requires
        dispatched(
            state,
            ConnAuthView::Auth { user_id: me },
            conn,
            ClientMessageView::SendMessage { server_id: id, epoch, nonce, ciphertext, signature },
            fresh,
            after,
            auth_after,
            Ok(sent),
        ),
    ensures
        state.is_member(id, me),
        state.channels[id].epoch == epoch,
        b64_decoding(nonce) is Some,
        b64_decoding(ciphertext) is Some,
        b64_decoding(signature) is Some,
        state.users.contains_key(me) ==> signature_verdict(
            state.users[me].sig_public_key,
            signed_payload(id, epoch, decoded(ciphertext), decoded(nonce)),
            decoded(signature),
        ) is Ok,
{
}

/// An accepted message reaches every member that is online, its sender among them,
/// exactly once, and nobody else; what they get is what the sender handed in.
pub proof fn accepted_message_reaches_every_online_member(
    state: AppStateView,
    me: UserId,
    conn: ConnId,
    id: ServerId,
    epoch: Epoch,
    nonce: Seq<char>,
    ciphertext: Seq<char>,
    signature: Seq<char>,
    fresh: FreshView,
    after: AppStateView,
    auth_after: ConnAuthView,
    sent: Seq<DeliveryView>,
)
    requires
        dispatched(
            state,
            ConnAuthView::Auth { user_id: me },
            conn,
            ClientMessageView::SendMessage { server_id: id, epoch, nonce, ciphertext, signature },
            fresh,
            after,
            auth_after,
            Ok(sent),
        ),
    ensures
        exists|told: Seq<UserId>| #[trigger]
            lists(told, audience(state.queues(), state.channels[id].members, None)) && sent
                == addressed(
                state.queues(),
                told,
                ServerMessageView::NewMessage {
                    server_id: id,
                    message_id: fresh.id,
                    sender: me,
                    epoch,
                    nonce,
                    ciphertext,
                    signature,
                    timestamp: fresh.now,
                },
            ),
{
    assert(after.queues() =~= state.queues());
    fan_out_reaches_each_online_user_once(
        sent,
        after.queues(),
        after.channels[id].members,
        None,
        ServerMessageView::NewMessage {
            server_id: id,
            message_id: fresh.id,
            sender: me,
            epoch,
            nonce,
            ciphertext,
            signature,
            timestamp: fresh.now,
        },
    );
}

/// What was sent is what is read back: after an accepted message any member that asks
/// for the history, whether it was online or not, finds the message at its end, with
/// the bytes that the sender handed in, after the messages that were there before as
/// far as the cap leaves room.
pub proof fn accepted_message_is_read_back(
    state: AppStateView,
    me: UserId,
    conn: ConnId,
    id: ServerId,
    epoch: Epoch,
    nonce: Seq<char>,
    ciphertext: Seq<char>,
    signature: Seq<char>,
    fresh: FreshView,
    after: AppStateView,
    auth_after: ConnAuthView,
    sent: Seq<DeliveryView>,
    reader: UserId,
    reader_conn: ConnId,
    fresh2: FreshView,
    last: AppStateView,
    reader_after: ConnAuthView,
    read: Result<Seq<DeliveryView>, DispatchErrorView>,
)
    requires
        dispatched(
            state,
            ConnAuthView::Auth { user_id: me },
            conn,
            ClientMessageView::SendMessage { server_id: id, epoch, nonce, ciphertext, signature },
            fresh,
            after,
            auth_after,
            Ok(sent),
        ),
        state.is_member(id, reader),
        dispatched(
            after,
            ConnAuthView::Auth { user_id: reader },
            reader_conn,
            ClientMessageView::GetHistory { server_id: id },
            fresh2,
            last,
            reader_after,
            read,
        ),
    ensures
        ({
            let message = stored(
                me,
                epoch,
                decoded(nonce),
                decoded(ciphertext),
                decoded(signature),
                fresh,
            );
            let messages = most_recent(state.channels[id].history.push(message));
            &&& read == Ok::<Seq<DeliveryView>, DispatchErrorView>(
                reply(reader_conn, ServerMessageView::History { server_id: id, messages }),
            )
            &&& messages.len() > 0
            &&& messages.last() == message
        }),
{
    let log = state.channels[id].history.push(
        stored(me, epoch, decoded(nonce), decoded(ciphertext), decoded(signature), fresh),
    );
    assert(most_recent(log).last() == log.last());
}

/// A channel after several messages, one after the other.
pub open spec fn posted_all(channel: ChannelView, messages: Seq<StoredMessageView>) -> ChannelView
    decreases messages.len(),
{
    if messages.len() == 0 {
        channel
    } else {
        posted_all(channel, messages.drop_last()).posted(messages.last())
    }
}

/// However many messages are posted, the history is the most recent of all of them in
/// the order in which they came, and never more than the cap.
pub proof fn history_is_the_end_of_the_log(channel: ChannelView, messages: Seq<StoredMessageView>)
    requires
        channel.history.len() <= MAX_HISTORY,
    ensures
        posted_all(channel, messages).history == most_recent(channel.history + messages),
        posted_all(channel, messages).history.len() <= MAX_HISTORY,
    decreases messages.len(),
{
    if messages.len() == 0 {
        assert(channel.history + messages =~= channel.history);
    } else {
        let before = messages.drop_last();
        history_is_the_end_of_the_log(channel, before);
        let log = channel.history + before;
        assert((channel.history + messages) =~= log.push(messages.last()));
        assert(most_recent(most_recent(log).push(messages.last())) =~= most_recent(
            log.push(messages.last()),
        ));
    }
}

/// Whether every message in every history carries a signature by its sender over the
/// channel, the epoch, the ciphertext and the nonce.
pub open spec fn authentic(state: AppStateView) -> bool {
    forall|id: ServerId, i: int|
        state.channels.contains_key(id) && 0 <= i < state.channels[id].history.len()
            ==> message_is_authentic(state, id, #[trigger] state.channels[id].history[i])
}

/// Whether a message in a channel's history carries a signature by its sender.
pub open spec fn message_is_authentic(
    state: AppStateView,
    id: ServerId,
    message: StoredMessageView,
) -> bool {
    &&& state.users.contains_key(message.sender)
    &&& signature_verdict(
        state.users[message.sender].sig_public_key,
        signed_payload(id, message.epoch, message.ciphertext, message.nonce),
        message.signature,
    ) is Ok
}

/// Every message in every history is signed by its sender, from the start and after
/// every request, as long as no registration draws the id of an existing user.
pub proof fn history_stays_authentic(
    state: AppStateView,
    auth: ConnAuthView,
    conn: ConnId,
    req: ClientMessageView,
    fresh: FreshView,
    after: AppStateView,
    auth_after: ConnAuthView,
    outcome: Result<Seq<DeliveryView>, DispatchErrorView>,
)
    requires
        dispatched(state, auth, conn, req, fresh, after, auth_after, outcome),
        auth_wf(state, auth),
        !(req is Register && state.users.contains_key(fresh.id)),
    ensures
        authentic(AppStateView::empty()),
        authentic(state) ==> authentic(after),
{
    if authentic(state) {
        assert forall|id: ServerId, i: int|
            after.channels.contains_key(id) && 0 <= i
                < after.channels[id].history.len() implies message_is_authentic(
            after,
            id,
            #[trigger] after.channels[id].history[i],
        ) by {
            let kept = after.channels[id].history;
            if state.channels.contains_key(id) && !(req is CreateServer && fresh.id == id) {
                let before = state.channels[id].history;
                if kept == before {
                    assert(message_is_authentic(state, id, before[i]));
                } else {
                    match (auth, req) {
                        (
                            ConnAuthView::Auth { user_id },
                            ClientMessageView::SendMessage {
                                server_id,
                                epoch,
                                nonce,
                                ciphertext,
                                signature,
                            },
                        ) => {
                            let message = stored(
                                user_id,
                                epoch,
                                decoded(nonce),
                                decoded(ciphertext),
                                decoded(signature),
                                fresh,
                            );
                            let log = before.push(message);
                            let j = log.len() - kept.len() + i;
                            assert(kept[i] == log[j]);
                            if j < before.len() {
                                assert(message_is_authentic(state, id, before[j]));
                            }
                        },
                        _ => {},
                    }
                }
            }
        }
    }
}

// ---------------------------------------------------------------------------
// Rosters
// ---------------------------------------------------------------------------

/// The roster of users that are all registered has one line for each.
proof fn roster_of_registered(users: Map<UserId, UserRecordView>, ids: Seq<UserId>)
    requires
        forall|i: int| 0 <= i < ids.len() ==> users.contains_key(#[trigger] ids[i]),
    ensures
        roster(users, ids) == ids.map_values(|id: UserId| member_view(users[id])),
    decreases ids.len(),
{
    if ids.len() > 0 {
        assert forall|i: int| 0 <= i < ids.drop_last().len() implies users.contains_key(
            #[trigger] ids.drop_last()[i],
        ) by {
            assert(users.contains_key(ids[i]));
        }
        roster_of_registered(users, ids.drop_last());
        assert(users.contains_key(ids[ids.len() - 1]));
    }
    assert(roster(users, ids) =~= ids.map_values(|id: UserId| member_view(users[id])));
}

/// A roster leaves nobody out: it has exactly one line for each member of the channel,
/// with that member's own keys.
pub proof fn roster_is_complete(state: AppStateView, id: ServerId, list: Seq<MemberInfoView>)
    requires
        state_wf(state),
        state.channels.contains_key(id),
        is_roster(list, state.users, state.channels[id].members),
    ensures
        exists|order: Seq<UserId>| #[trigger]
            lists(order, state.channels[id].members) && list == order.map_values(
                |user: UserId| member_view(state.users[user]),
            ),
        list.len() == state.channels[id].info().member_count,
{
    let members = state.channels[id].members;
    let order = choose|order: Seq<UserId>| #[trigger]
        lists(order, members) && list == roster(state.users, order);
    assert(channel_wf(state.users, id, state.channels[id]));
    assert forall|i: int| 0 <= i < order.len() implies state.users.contains_key(
        #[trigger] order[i],
    ) by {
        assert(order.to_set().contains(order[i]));
    }
    roster_of_registered(state.users, order);
    order.unique_seq_to_set();
}

} // verus!
