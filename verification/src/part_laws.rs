//! What holds of the parts that requests are made of, however they are put together.
use crate::auth::ConnAuthView;
use crate::connection::{disconnected, step_for, SocketEventView, StepView};
use crate::crypto::{dilithium_key_verdict, kyber_key_verdict, signature_verdict, CryptoErrorView};
use crate::encoding::{b64_decoding, b64_encoding, b64_length, b64_round_trip, b64_symbol};
use crate::fresh::{drawn_for, FreshView};
use crate::model::{
    fanned_out, lists, most_recent, pushed, roster, sessions_elsewhere, AppStateView,
};
use crate::outside::{bad_length_text, dilithium3_accepts, uuid_octets};
use crate::protocol::{
    ClientMessageView, ConnId, DeliveryView, Epoch, MemberInfoView, ServerMessageView,
    StoredMessageView, UserId, UserRecordView,
};
use crate::rules::{epoch_room, new_message, signed_payload};
use crate::text::decimal;
use vstd::bytes::{spec_u64_from_le_bytes, spec_u64_to_le_bytes};
use vstd::prelude::*;
use vstd::utf8::{encode_utf8, valid_utf8};

verus! {

// ---------------------------------------------------------------------------
// Pushing frames
// ---------------------------------------------------------------------------

/// Pushing to one user sends one frame on that user's connection, or none if the user is
/// offline.
pub proof fn push_law(queues: Map<UserId, ConnId>, user: UserId, msg: ServerMessageView)
    ensures
        !queues.contains_key(user) ==> pushed(queues, user, msg).len() == 0,
        queues.contains_key(user) ==> {
            &&& pushed(queues, user, msg).len() == 1
            &&& pushed(queues, user, msg)[0].to == queues[user]
            &&& pushed(queues, user, msg)[0].msg == msg
        },
{
}

/// Everyone's queue is the connection of its session, and who has no session has no
/// queue.
pub proof fn queues_law(state: AppStateView, user: UserId)
    ensures
        state.queues().contains_key(user) == state.online.contains_key(user),
        state.online.contains_key(user) ==> state.queues()[user] == state.online[user].conn,
{
}

/// Pushing to a list of users is pushing to its first part and then to the rest; of one
/// user, it is pushing to that user, unless it is the one left out.
pub proof fn fan_out_law(
    queues: Map<UserId, ConnId>,
    first: Seq<UserId>,
    rest: Seq<UserId>,
    user: UserId,
    except: Option<UserId>,
    msg: ServerMessageView,
)
    ensures
        fanned_out(queues, first + rest, except, msg) == fanned_out(queues, first, except, msg)
            + fanned_out(queues, rest, except, msg),
        fanned_out(queues, seq![user], except, msg) == if except == Some(user)
            || !queues.contains_key(user) {
            Seq::<DeliveryView>::empty()
        } else {
            seq![DeliveryView { to: queues[user], msg }]
        },
    decreases rest.len(),
{
    let one = seq![user];
    assert(one.drop_last() =~= Seq::<UserId>::empty());
    assert(one.last() == user);
    assert(fanned_out(queues, one.drop_last(), except, msg) =~= Seq::<DeliveryView>::empty());
    assert(fanned_out(queues, one, except, msg) =~= if except == Some(user)
        || !queues.contains_key(user) {
        Seq::<DeliveryView>::empty()
    } else {
        seq![DeliveryView { to: queues[user], msg }]
    });
    if rest.len() == 0 {
        assert(first + rest =~= first);
        assert(fanned_out(queues, first, except, msg) + fanned_out(queues, rest, except, msg)
            =~= fanned_out(queues, first, except, msg));
    } else {
        fan_out_law(queues, first, rest.drop_last(), user, except, msg);
        assert((first + rest).drop_last() =~= first + rest.drop_last());
        assert((first + rest).last() == rest.last());
        assert(fanned_out(queues, first + rest, except, msg) =~= fanned_out(
            queues,
            first,
            except,
            msg,
        ) + fanned_out(queues, rest, except, msg));
    }
}

/// The roster of a list of users is that of its first part and then that of the rest; of
/// one user, it is that user's line, if it is registered.
pub proof fn roster_law(
    users: Map<UserId, UserRecordView>,
    first: Seq<UserId>,
    rest: Seq<UserId>,
    user: UserId,
)
    ensures
        roster(users, first + rest) == roster(users, first) + roster(users, rest),
        roster(users, seq![user]) == if users.contains_key(user) {
            seq![
                MemberInfoView {
                    user_id: users[user].user_id,
                    display_name: users[user].display_name,
                    kem_public_key: users[user].kem_public_key,
                    sig_public_key: users[user].sig_public_key,
                },
            ]
        } else {
            Seq::<MemberInfoView>::empty()
        },
    decreases rest.len(),
{
    let one = seq![user];
    assert(one.drop_last() =~= Seq::<UserId>::empty());
    assert(one.last() == user);
    assert(roster(users, one.drop_last()) =~= Seq::<MemberInfoView>::empty());
    assert(roster(users, one) =~= if users.contains_key(user) {
        seq![
            MemberInfoView {
                user_id: users[user].user_id,
                display_name: users[user].display_name,
                kem_public_key: users[user].kem_public_key,
                sig_public_key: users[user].sig_public_key,
            },
        ]
    } else {
        Seq::<MemberInfoView>::empty()
    });
    if rest.len() == 0 {
        assert(first + rest =~= first);
        assert(roster(users, first) + roster(users, rest) =~= roster(users, first));
    } else {
        roster_law(users, first, rest.drop_last(), user);
        assert((first + rest).drop_last() =~= first + rest.drop_last());
        assert((first + rest).last() == rest.last());
        assert(roster(users, first + rest) =~= roster(users, first) + roster(users, rest));
    }
}

/// A walk of a set meets everything that is in it and nothing else, no element twice.
pub proof fn walk_law<A>(order: Seq<A>, set: Set<A>, a: A, i: int, j: int)
    requires
        lists(order, set),
    ensures
        order.contains(a) <==> set.contains(a),
        0 <= i < order.len() && 0 <= j < order.len() && i != j ==> order[i] != order[j],
        order.len() == set.len(),
{
    assert(order.to_set().contains(a) <==> order.contains(a));
    order.unique_seq_to_set();
}

// ---------------------------------------------------------------------------
// Histories and sessions
// ---------------------------------------------------------------------------

/// What is kept of a log is its end: all of it up to five hundred messages, and the last
/// five hundred of a longer one.
pub proof fn most_recent_law(log: Seq<StoredMessageView>, i: int)
    ensures
        log.len() <= 500 ==> most_recent(log) == log,
        log.len() > 500 ==> most_recent(log).len() == 500,
        log.len() > 500 && 0 <= i < 500 ==> most_recent(log)[i] == log[log.len() - 500 + i],
{
}

/// When a connection ends, exactly the users whose session is on it go offline. Whoever
/// is online elsewhere keeps its session, and users and channels stay.
pub proof fn disconnect_law(state: AppStateView, conn: ConnId, user: UserId)
    ensures
        disconnected(state, conn).users == state.users,
        disconnected(state, conn).channels == state.channels,
        disconnected(state, conn).online.contains_key(user) <==> state.online.contains_key(user)
            && state.online[user].conn != conn,
        disconnected(state, conn).online.contains_key(user)
            ==> disconnected(state, conn).online[user] == state.online[user],
        sessions_elsewhere(state.online, conn) == disconnected(state, conn).online,
{
}

/// There is room for every request, but for a join or a leave that would count past the
/// last epoch.
pub proof fn epoch_room_law(state: AppStateView, auth: ConnAuthView, req: ClientMessageView)
    requires
        !epoch_room(state, auth, req),
    ensures
        auth is Auth,
        req matches ClientMessageView::JoinServer { server_id } ==> {
            &&& state.channels.contains_key(server_id)
            &&& !state.channels[server_id].members.contains(auth->Auth_user_id)
            &&& state.channels[server_id].epoch == Epoch::MAX
        },
        req matches ClientMessageView::LeaveServer { server_id } ==> {
            &&& state.channels.contains_key(server_id)
            &&& state.channels[server_id].members.contains(auth->Auth_user_id)
            &&& state.channels[server_id].epoch == Epoch::MAX
        },
        req is JoinServer || req is LeaveServer,
{
}

// ---------------------------------------------------------------------------
// Sockets
// ---------------------------------------------------------------------------

/// A binary frame that is the UTF-8 of a text is read like the text itself, and one that
/// is not UTF-8 like an empty text. A ping is answered with its own payload. The end of
/// the stream, a failure and a close end the connection, and nothing else does.
pub proof fn socket_law(event: SocketEventView, text: Seq<char>, bytes: Seq<u8>)
    ensures
        step_for(SocketEventView::Text(text)) == StepView::Request(text),
        step_for(SocketEventView::Binary(encode_utf8(text))) == step_for(
            SocketEventView::Text(text),
        ),
        !valid_utf8(bytes) ==> step_for(SocketEventView::Binary(bytes)) == StepView::Request(
            Seq::empty(),
        ),
        step_for(SocketEventView::Ping(bytes)) == StepView::Pong(bytes),
        step_for(event) is Stop <==> event is End || event is Failed || event is Close,
        step_for(event) is Skip <==> event is Other,
{
    vstd::utf8::encode_utf8_valid_utf8(text);
    vstd::utf8::encode_utf8_decode_utf8(text);
}

// ---------------------------------------------------------------------------
// Keys, signatures and fresh values
// ---------------------------------------------------------------------------

/// A Kyber768 key is turned down for its length alone, and so is a Dilithium3 key.
pub proof fn key_law(bytes: Seq<u8>)
    ensures
        kyber_key_verdict(bytes) is Ok <==> bytes.len() == 1184,
        dilithium_key_verdict(bytes) is Ok <==> bytes.len() == 1952,
        kyber_key_verdict(bytes) matches Err(e) ==> e == CryptoErrorView::KyberKey(
            bad_length_text("PublicKey"@, bytes.len(), 1184),
        ),
        dilithium_key_verdict(bytes) matches Err(e) ==> e == CryptoErrorView::DilithiumKey(
            bad_length_text("PublicKey"@, bytes.len(), 1952),
        ),
{
}

/// A signature is good if and only if the key is one, the signature is not too long, and
/// Dilithium3 accepts it, over whatever message.
pub proof fn signature_law(key: Seq<u8>, message: Seq<u8>, signature: Seq<u8>)
    ensures
        signature_verdict(key, message, signature) is Ok <==> key.len() == 1952 && signature.len()
            <= 3309 && dilithium3_accepts(key, message, signature),
        key.len() == 1952 && signature.len() <= 3309 && !dilithium3_accepts(key, message, signature)
            ==> signature_verdict(key, message, signature) == Err::<(), CryptoErrorView>(
            CryptoErrorView::VerificationFailed,
        ),
        key.len() == 1952 && signature.len() > 3309 ==> signature_verdict(key, message, signature)
            == Err::<(), CryptoErrorView>(
            CryptoErrorView::DilithiumSignature(
                bad_length_text("DetachedSignature"@, signature.len(), 3309),
            ),
        ),
        key.len() != 1952 ==> signature_verdict(key, message, signature) == Err::<
            (),
            CryptoErrorView,
        >(CryptoErrorView::DilithiumKey(bad_length_text("PublicKey"@, key.len(), 1952))),
{
}

/// What is signed starts with the channel's bytes and eight bytes that read as the epoch,
/// the least significant first, and ends with the ciphertext and then the nonce, whole. Two payloads of one channel, epoch and
/// nonce differ where the ciphertexts do, and two of one length of ciphertext and nonce
/// differ where the nonces do.
pub proof fn payload_law(
    id: u128,
    epoch: Epoch,
    ciphertext: Seq<u8>,
    nonce: Seq<u8>,
    other_ciphertext: Seq<u8>,
    other_nonce: Seq<u8>,
)
    ensures
        ({
            let payload = signed_payload(id, epoch, ciphertext, nonce);
            let other = signed_payload(id, epoch, other_ciphertext, other_nonce);
            &&& payload.len() == 24 + ciphertext.len() + nonce.len()
            &&& payload.take(16) == uuid_octets(id)
            &&& spec_u64_from_le_bytes(payload.subrange(16, 24)) == epoch
            &&& payload.subrange(24, 24 + ciphertext.len() as int) == ciphertext
            &&& payload.skip((24 + ciphertext.len()) as int) == nonce
            &&& payload.take(24) == other.take(24)
            &&& payload == other && ciphertext.len() == other_ciphertext.len() ==> ciphertext
                == other_ciphertext && nonce == other_nonce
        }),
{
    vstd::bytes::lemma_auto_spec_u64_to_from_le_bytes();
    let payload = signed_payload(id, epoch, ciphertext, nonce);
    let other = signed_payload(id, epoch, other_ciphertext, other_nonce);
    assert(payload.take(16) =~= uuid_octets(id));
    assert(payload.subrange(16, 24) =~= spec_u64_to_le_bytes(epoch));
    assert(payload.subrange(24, 24 + ciphertext.len() as int) =~= ciphertext);
    assert(payload.skip((24 + ciphertext.len()) as int) =~= nonce);
    assert(other.subrange(24, 24 + other_ciphertext.len() as int) =~= other_ciphertext);
    assert(other.skip((24 + other_ciphertext.len()) as int) =~= other_nonce);
    assert(payload.take(24) =~= other.take(24));
}

/// A stored message is sent out with its own id, sender, epoch and time, and with the
/// base64 of its own bytes: whoever reads them back has what is stored.
pub proof fn new_message_law(id: u128, message: StoredMessageView)
    ensures
        ({
            let frame = new_message(id, message);
            &&& frame is NewMessage
            &&& frame->NewMessage_server_id == id
            &&& frame->NewMessage_message_id == message.message_id
            &&& frame->NewMessage_sender == message.sender
            &&& frame->NewMessage_epoch == message.epoch
            &&& frame->NewMessage_timestamp == message.timestamp
            &&& b64_decoding(frame->NewMessage_nonce) == Some(message.nonce)
            &&& b64_decoding(frame->NewMessage_ciphertext) == Some(message.ciphertext)
            &&& b64_decoding(frame->NewMessage_signature) == Some(message.signature)
        }),
{
    b64_round_trip(message.nonce, Seq::empty());
    b64_round_trip(message.ciphertext, Seq::empty());
    b64_round_trip(message.signature, Seq::empty());
}

/// A challenge has thirty-two bytes, a drawn id is a random UUID, and a time has less than
/// a second of nanoseconds.
pub proof fn fresh_law(fresh: FreshView, req: ClientMessageView)
    requires
        drawn_for(fresh, req),
    ensures
        req is AuthBegin ==> fresh.challenge.len() == 32,
        req is Register || req is SendMessage ==> fresh.now.nanos < 1_000_000_000,
        req is Register || req is SendMessage || req is CreateServer ==> {
            &&& (fresh.id as nat / 0x10000000000000000000) % 16 == 4
            &&& (fresh.id as nat / 0x4000000000000000) % 4 == 2
        },
{
}

// ---------------------------------------------------------------------------
// Texts
// ---------------------------------------------------------------------------

/// The number that a text of decimal digits stands for.
pub open spec fn decimal_value(text: Seq<char>) -> int
    decreases text.len(),
{
    if text.len() == 0 {
        0
    } else {
        decimal_value(text.drop_last()) * 10 + (text.last() as int - '0' as int)
    }
}

/// A number that is written in decimal reads as the number. The text consists of digits,
/// and starts with a zero only if the number is zero.
pub proof fn decimal_law(n: nat, i: int)
    ensures
        decimal_value(decimal(n)) == n,
        decimal(n).len() > 0,
        0 <= i < decimal(n).len() ==> '0' as int <= decimal(n)[i] as int <= '9' as int,
        decimal(n)[0] == '0' ==> decimal(n).len() == 1,
    decreases n,
{
    if n < 10 {
        let text = decimal(n);
        assert(text.drop_last() =~= Seq::<char>::empty());
        assert(decimal_value(text.drop_last()) == 0);
    } else {
        decimal_law(n / 10, i);
        decimal_law(n / 10, 0);
        let text = decimal(n);
        assert(text.drop_last() =~= decimal(n / 10));
        if decimal(n)[0] == '0' {
            assert(decimal(n / 10)[0] == '0');
            decimal_of_zero(n / 10);
        }
    }
}

/// Only zero starts with a zero.
proof fn decimal_of_zero(n: nat)
    requires
        n > 0,
    ensures
        decimal(n).len() > 0,
        decimal(n)[0] != '0',
    decreases n,
{
    if n >= 10 {
        decimal_of_zero(n / 10);
    }
}

/// The sixty-four characters of base64, in order.
pub open spec fn b64_alphabet() -> Seq<char> {
    "ABCDEFGHIJKLMNOPQRSTUVWXYZabcdefghijklmnopqrstuvwxyz0123456789+/"@
}

/// The characters are those of the alphabet, in its order.
pub proof fn b64_symbol_law(v: int)
    requires
        0 <= v < 64,
    ensures
        b64_alphabet().len() == 64,
        b64_symbol(v) == b64_alphabet()[v],
{
    reveal_strlit("ABCDEFGHIJKLMNOPQRSTUVWXYZabcdefghijklmnopqrstuvwxyz0123456789+/");
}

/// The text of some bytes is the text of the first three and then that of the others, in
/// whole groups; the bits of its characters, six each, are those of the bytes, eight
/// each, followed by zeros; and padding stands only where the last group is incomplete.
pub proof fn b64_law(bytes: Seq<u8>, v: Seq<int>)
    requires
        bytes.len() > 0,
        v.len() == 4,
        forall|k: int|
            #![trigger v[k]]
            0 <= k < 4 ==> 0 <= v[k] < 64 && (b64_encoding(bytes)[k] == b64_alphabet()[v[k]] || (
            b64_encoding(bytes)[k] == '=' && v[k] == 0)),
    ensures
        b64_encoding(bytes).len() == 4 * ((bytes.len() + 2) / 3),
        bytes.len() > 3 ==> b64_encoding(bytes) == b64_encoding(bytes.take(3)) + b64_encoding(
            bytes.skip(3),
        ),
        v[0] * 262144 + v[1] * 4096 + v[2] * 64 + v[3] == bytes[0] * 65536 + (if bytes.len() > 1 {
            bytes[1] * 256
        } else {
            0
        }) + (if bytes.len() > 2 {
            bytes[2] as int
        } else {
            0
        }),
        b64_encoding(bytes)[0] != '=' && b64_encoding(bytes)[1] != '=',
        b64_encoding(bytes)[2] == '=' <==> bytes.len() == 1,
        b64_encoding(bytes)[3] == '=' <==> bytes.len() <= 2,
{
    b64_length(bytes);
    let text = b64_encoding(bytes);
    let a = bytes[0] as int;
    let b = if bytes.len() > 1 {
        bytes[1] as int
    } else {
        0
    };
    let c = if bytes.len() > 2 {
        bytes[2] as int
    } else {
        0
    };
    let w = seq![a / 4, a % 4 * 16 + b / 16, b % 16 * 4 + c / 64, c % 64];
    assert forall|k: int| #![trigger v[k]] 0 <= k < 4 implies v[k] == w[k] by {
        b64_symbol_law(v[k]);
        b64_symbol_law(w[k]);
        assert(text[k] == b64_symbol(w[k]) || (text[k] == '=' && w[k] == 0));
    }
    assert(v[0] == w[0] && v[1] == w[1] && v[2] == w[2] && v[3] == w[3]);
    if bytes.len() > 3 {
        let first = bytes.take(3);
        assert(first.skip(3) =~= Seq::<u8>::empty());
        assert(b64_encoding(first.skip(3)) =~= Seq::<char>::empty());
        assert(b64_encoding(first) + b64_encoding(bytes.skip(3)) =~= text);
    }
}

} // verus!
