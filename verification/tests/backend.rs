//! Requests to the relay, with real keys and signatures.
use base64::engine::general_purpose::STANDARD;
use base64::Engine as _;
use pq_chat_backend::auth::ConnAuth;
use pq_chat_backend::connection::on_disconnect;
use pq_chat_backend::crypto::CryptoError;
use pq_chat_backend::dispatch::{
    check_keys, dispatch, dispatch_with, finish_auth, forward_key, has_epoch_room, may_post,
    may_query, post_message, signed_bytes,
};
use pq_chat_backend::errors::DispatchError;
use pq_chat_backend::fresh::Fresh;
use pq_chat_backend::model::MAX_HISTORY;
use pq_chat_backend::protocol::{
    ClientMessage, Delivery, MemberInfo, ServerMessage, StoredMessage, Timestamp, UserRecord,
};
use pq_chat_backend::state::AppState;
use pqcrypto_dilithium::dilithium3;
use pqcrypto_kyber::kyber768;
use pqcrypto_traits::kem::PublicKey as _;
use pqcrypto_traits::sign::{DetachedSignature as _, PublicKey as _};

const ALICE: u128 = 0xa;
const BOB: u128 = 0xb;
const CAROL: u128 = 0xc;
const ROOM: u128 = 0xa1a2a3a4_b1b2_c1c2_d1d2_d3d4d5d6d7d8;
const NOWHERE: u128 = 0xdead;

const NOW: Timestamp = Timestamp { secs: 1_700_000_000, nanos: 5 };

struct Keys {
    kem: Vec<u8>,
    sig: dilithium3::PublicKey,
    secret: dilithium3::SecretKey,
}

fn new_keys() -> Keys {
    let (kem, _) = kyber768::keypair();
    let (sig, secret) = dilithium3::keypair();
    Keys { kem: kem.as_bytes().to_vec(), sig, secret }
}

impl Keys {
    fn sign(&self, message: &[u8]) -> Vec<u8> {
        dilithium3::detached_sign(message, &self.secret).as_bytes().to_vec()
    }

    fn registration(&self, name: &str) -> ClientMessage {
        ClientMessage::Register {
            display_name: name.to_string(),
            kem_public_key: STANDARD.encode(&self.kem),
            sig_public_key: STANDARD.encode(self.sig.as_bytes()),
        }
    }

    fn message(&self, epoch: u64, nonce: &[u8], ciphertext: &[u8]) -> ClientMessage {
        ClientMessage::SendMessage {
            server_id: ROOM,
            epoch,
            nonce: STANDARD.encode(nonce),
            ciphertext: STANDARD.encode(ciphertext),
            signature: STANDARD.encode(self.sign(&signed_bytes(ROOM, epoch, ciphertext, nonce))),
        }
    }
}

fn fresh_values(id: u128) -> Fresh {
    Fresh { id, now: NOW, challenge: vec![7u8; 32] }
}

fn run(
    state: &mut AppState,
    auth: &mut ConnAuth,
    conn: u64,
    req: ClientMessage,
    id: u128,
) -> Result<Vec<Delivery>, DispatchError> {
    assert!(has_epoch_room(state, auth, &req));
    dispatch_with(state, auth, conn, req, &fresh_values(id))
}

fn accept(
    state: &mut AppState,
    auth: &mut ConnAuth,
    conn: u64,
    req: ClientMessage,
    id: u128,
) -> Vec<Delivery> {
    match run(state, auth, conn, req, id) {
        Ok(sent) => sent,
        Err(e) => panic!("refused: {}", e.message()),
    }
}

fn refuse(state: &mut AppState, auth: &mut ConnAuth, conn: u64, req: ClientMessage) -> String {
    match run(state, auth, conn, req, 0) {
        Ok(sent) => panic!("accepted: {sent:?}"),
        Err(e) => e.message(),
    }
}

fn assert_sent(sent: &[Delivery], expected: &[(u64, ServerMessage)]) {
    let sent: Vec<String> = sent.iter().map(|d| format!("{} {:?}", d.to, d.msg)).collect();
    let expected: Vec<String> = expected.iter().map(|(to, msg)| format!("{to} {msg:?}")).collect();
    assert_eq!(sent, expected);
}

/// As `assert_sent`, for frames whose order nothing fixes.
fn assert_sent_in_any_order(sent: &[Delivery], expected: &[(u64, ServerMessage)]) {
    let mut sent: Vec<String> = sent.iter().map(|d| format!("{} {:?}", d.to, d.msg)).collect();
    let mut expected: Vec<String> =
        expected.iter().map(|(to, msg)| format!("{to} {msg:?}")).collect();
    sent.sort();
    expected.sort();
    assert_eq!(sent, expected);
}

fn assert_same_auth(auth: &ConnAuth, expected: &ConnAuth) {
    assert_eq!(format!("{auth:?}"), format!("{expected:?}"));
}

/// Registers a user under a given id and authenticates it on a connection.
fn login(state: &mut AppState, id: u128, conn: u64, name: &str) -> (Keys, ConnAuth) {
    let keys = new_keys();
    let mut auth = ConnAuth::Anonymous;
    accept(state, &mut auth, conn, keys.registration(name), id);
    accept(state, &mut auth, conn, ClientMessage::AuthBegin { user_id: id }, 0);
    let signature = STANDARD.encode(keys.sign(&[7u8; 32]));
    accept(state, &mut auth, conn, ClientMessage::AuthFinish { signature }, 0);
    (keys, auth)
}

fn member(id: u128, name: &str, keys: &Keys) -> MemberInfo {
    MemberInfo {
        user_id: id,
        display_name: name.to_string(),
        kem_public_key: keys.kem.clone(),
        sig_public_key: keys.sig.as_bytes().to_vec(),
    }
}

/// Alice, on connection 1, has created the room; Bob, on connection 2, is online.
struct Scene {
    state: AppState,
    alice: Keys,
    alice_auth: ConnAuth,
    bob: Keys,
    bob_auth: ConnAuth,
}

fn scene() -> Scene {
    let mut state = AppState::new();
    let (alice, mut alice_auth) = login(&mut state, ALICE, 1, "alice");
    let (bob, bob_auth) = login(&mut state, BOB, 2, "bob");
    let create = ClientMessage::CreateServer { name: "general".to_string() };
    accept(&mut state, &mut alice_auth, 1, create, ROOM);
    Scene { state, alice, alice_auth, bob, bob_auth }
}

impl Scene {
    fn bob_joins(&mut self) -> Vec<Delivery> {
        let join = ClientMessage::JoinServer { server_id: ROOM };
        accept(&mut self.state, &mut self.bob_auth, 2, join, 0)
    }

    fn bob_leaves(&mut self) -> Vec<Delivery> {
        let leave = ClientMessage::LeaveServer { server_id: ROOM };
        accept(&mut self.state, &mut self.bob_auth, 2, leave, 0)
    }

    fn members(&self) -> Vec<u128> {
        let mut ids = self.state.member_ids(ROOM).expect("the room exists");
        ids.sort();
        ids
    }
}

// ---------------------------------------------------------------------------
// Registration
// ---------------------------------------------------------------------------

#[test]
fn ping_is_answered_on_the_same_connection() {
    let mut state = AppState::new();
    let mut auth = ConnAuth::Anonymous;
    let sent = accept(&mut state, &mut auth, 9, ClientMessage::Ping, 0);
    assert_sent(&sent, &[(9, ServerMessage::Pong)]);
    assert_same_auth(&auth, &ConnAuth::Anonymous);
}

#[test]
fn registered_user_can_be_looked_up() {
    let mut state = AppState::new();
    let keys = new_keys();
    let mut auth = ConnAuth::Anonymous;
    let sent = accept(&mut state, &mut auth, 3, keys.registration("carol"), CAROL);
    assert_sent(&sent, &[(3, ServerMessage::Registered { user_id: CAROL })]);
    assert_same_auth(&auth, &ConnAuth::Anonymous);

    let (_, mut alice_auth) = login(&mut state, ALICE, 1, "alice");
    let lookup = ClientMessage::LookupUser { user_id: CAROL };
    let sent = accept(&mut state, &mut alice_auth, 1, lookup, 0);
    let user = UserRecord {
        user_id: CAROL,
        display_name: "carol".to_string(),
        kem_public_key: keys.kem.clone(),
        sig_public_key: keys.sig.as_bytes().to_vec(),
        created_at: NOW,
    };
    assert_sent(&sent, &[(1, ServerMessage::UserInfo { user })]);

    let lookup = ClientMessage::LookupUser { user_id: NOWHERE };
    assert_eq!(refuse(&mut state, &mut alice_auth, 1, lookup), "unknown user");
}

#[test]
fn malformed_keys_are_refused_at_registration() {
    let mut state = AppState::new();
    let mut auth = ConnAuth::Anonymous;
    let keys = new_keys();
    let kem = STANDARD.encode(&keys.kem);
    let sig = STANDARD.encode(keys.sig.as_bytes());
    let short = STANDARD.encode(b"too short");
    let cases = [
        ("%".to_string(), sig.clone(), "kem_public_key not base64"),
        (kem.clone(), "%".to_string(), "sig_public_key not base64"),
        ("%".to_string(), "%".to_string(), "kem_public_key not base64"),
        (
            short.clone(),
            short.clone(),
            "invalid Kyber768 public key: BadLength { name: \"PublicKey\", actual: 9, expected: 1184 }",
        ),
        (
            kem,
            short,
            "invalid Dilithium3 public key: BadLength { name: \"PublicKey\", actual: 9, expected: 1952 }",
        ),
    ];
    for (kem_public_key, sig_public_key, reason) in cases {
        let req = ClientMessage::Register {
            display_name: "mallory".to_string(),
            kem_public_key,
            sig_public_key,
        };
        assert_eq!(refuse(&mut state, &mut auth, 1, req), reason);
        assert!(!state.knows_user(0));
    }
}

#[test]
fn decoded_keys_are_checked() {
    let kem = vec![1u8; 1184];
    let sig = vec![2u8; 1952];
    let (k, s) = check_keys(Some(kem.clone()), Some(sig.clone())).expect("right lengths");
    assert_eq!((k, s), (kem.clone(), sig.clone()));
    assert!(matches!(check_keys(None, Some(sig.clone())), Err(DispatchError::KemKeyNotBase64)));
    assert!(matches!(check_keys(Some(kem.clone()), None), Err(DispatchError::SigKeyNotBase64)));
    assert!(matches!(
        check_keys(Some(vec![1u8; 1183]), Some(sig)),
        Err(DispatchError::Crypto(CryptoError::KyberKey(_)))
    ));
    assert!(matches!(
        check_keys(Some(kem), Some(vec![2u8; 1953])),
        Err(DispatchError::Crypto(CryptoError::DilithiumKey(_)))
    ));
}

#[test]
fn base64_without_padding_is_not_base64() {
    let mut state = AppState::new();
    let mut auth = ConnAuth::Anonymous;
    for text in ["AA", "AA=", "AB==", "A A=", "-_8="] {
        let req = ClientMessage::Register {
            display_name: "x".to_string(),
            kem_public_key: text.to_string(),
            sig_public_key: String::new(),
        };
        assert_eq!(refuse(&mut state, &mut auth, 1, req), "kem_public_key not base64");
    }
}

// ---------------------------------------------------------------------------
// Authentication
// ---------------------------------------------------------------------------

#[test]
fn signed_challenge_authenticates() {
    let mut state = AppState::new();
    let keys = new_keys();
    let mut auth = ConnAuth::Anonymous;
    accept(&mut state, &mut auth, 4, keys.registration("alice"), ALICE);

    let sent = accept(&mut state, &mut auth, 4, ClientMessage::AuthBegin { user_id: ALICE }, 0);
    let nonce = "BwcHBwcHBwcHBwcHBwcHBwcHBwcHBwcHBwcHBwcHBwc=".to_string();
    assert_sent(&sent, &[(4, ServerMessage::AuthChallenge { nonce })]);
    assert_same_auth(&auth, &ConnAuth::Pending { user_id: ALICE, challenge: vec![7u8; 32] });

    let signature = STANDARD.encode(keys.sign(&[7u8; 32]));
    let sent = accept(&mut state, &mut auth, 4, ClientMessage::AuthFinish { signature }, 0);
    assert_sent(&sent, &[(4, ServerMessage::Authenticated { user_id: ALICE })]);
    assert_same_auth(&auth, &ConnAuth::Auth { user_id: ALICE });
    assert_eq!(auth.user(), Some(ALICE));

    let mut pushed = Vec::new();
    state.push(ALICE, ServerMessage::Pong, &mut pushed);
    assert_sent(&pushed, &[(4, ServerMessage::Pong)]);
}

#[test]
fn only_the_right_signature_authenticates() {
    let mut state = AppState::new();
    let keys = new_keys();
    let other = new_keys();
    let mut auth = ConnAuth::Anonymous;
    accept(&mut state, &mut auth, 1, keys.registration("alice"), ALICE);

    assert_eq!(
        refuse(&mut state, &mut auth, 1, ClientMessage::AuthBegin { user_id: NOWHERE }),
        "unknown user"
    );
    assert_eq!(
        refuse(&mut state, &mut auth, 1, ClientMessage::AuthFinish { signature: String::new() }),
        "no pending auth — call auth_begin first"
    );

    accept(&mut state, &mut auth, 1, ClientMessage::AuthBegin { user_id: ALICE }, 0);
    let good = keys.sign(&[7u8; 32]);
    let mut tampered = good.clone();
    tampered[0] ^= 0xFF;
    let mut long = good.clone();
    long.push(0);
    let failed = "Dilithium3 signature verification failed";
    let cases = [
        ("?".to_string(), "signature not base64"),
        (STANDARD.encode(&tampered), failed),
        (STANDARD.encode(&good[..good.len() - 1]), failed),
        (String::new(), failed),
        (STANDARD.encode(other.sign(&[7u8; 32])), failed),
        (STANDARD.encode(keys.sign(&[8u8; 32])), failed),
        (
            STANDARD.encode(&long),
            "invalid Dilithium3 signature encoding: BadLength { name: \"DetachedSignature\", actual: 3310, expected: 3309 }",
        ),
    ];
    for (signature, reason) in cases {
        assert_eq!(
            refuse(&mut state, &mut auth, 1, ClientMessage::AuthFinish { signature }),
            reason
        );
        assert_same_auth(&auth, &ConnAuth::Pending { user_id: ALICE, challenge: vec![7u8; 32] });
        let mut pushed = Vec::new();
        state.push(ALICE, ServerMessage::Pong, &mut pushed);
        assert!(pushed.is_empty());
    }

    let signature = STANDARD.encode(&good);
    accept(&mut state, &mut auth, 1, ClientMessage::AuthFinish { signature: signature.clone() }, 0);
    assert_eq!(
        refuse(&mut state, &mut auth, 1, ClientMessage::AuthFinish { signature }),
        "no pending auth — call auth_begin first"
    );
}

#[test]
fn pending_user_that_is_gone_is_unknown() {
    let mut state = AppState::new();
    let mut auth = ConnAuth::Pending { user_id: NOWHERE, challenge: vec![7u8; 32] };
    let finish = ClientMessage::AuthFinish { signature: String::new() };
    assert_eq!(refuse(&mut state, &mut auth, 1, finish), "unknown user");
}

#[test]
fn verdict_decides_whether_a_session_opens() {
    let mut state = AppState::new();
    let mut auth = ConnAuth::Anonymous;
    let refused = finish_auth(&mut state, &mut auth, 6, ALICE, Err(CryptoError::VerificationFailed));
    assert!(matches!(refused, Err(DispatchError::Crypto(CryptoError::VerificationFailed))));
    assert_same_auth(&auth, &ConnAuth::Anonymous);

    let sent = finish_auth(&mut state, &mut auth, 6, ALICE, Ok(())).expect("accepted");
    assert_sent(&sent, &[(6, ServerMessage::Authenticated { user_id: ALICE })]);
    assert_same_auth(&auth, &ConnAuth::Auth { user_id: ALICE });
}

#[test]
fn latest_connection_receives_the_frames() {
    let mut s = scene();
    let mut second = ConnAuth::Anonymous;
    accept(&mut s.state, &mut second, 8, ClientMessage::AuthBegin { user_id: ALICE }, 0);
    let signature = STANDARD.encode(s.alice.sign(&[7u8; 32]));
    accept(&mut s.state, &mut second, 8, ClientMessage::AuthFinish { signature }, 0);
    let mut pushed = Vec::new();
    s.state.push(ALICE, ServerMessage::Pong, &mut pushed);
    assert_sent(&pushed, &[(8, ServerMessage::Pong)]);

    // The end of the first connection changes nothing about it.
    on_disconnect(&mut s.state, 1);
    let mut pushed = Vec::new();
    s.state.push(ALICE, ServerMessage::Pong, &mut pushed);
    assert_sent(&pushed, &[(8, ServerMessage::Pong)]);
    on_disconnect(&mut s.state, 8);
    let mut pushed = Vec::new();
    s.state.push(ALICE, ServerMessage::Pong, &mut pushed);
    assert!(pushed.is_empty());
}

#[test]
fn everything_else_needs_authentication() {
    let mut s = scene();
    let pending = ConnAuth::Pending { user_id: ALICE, challenge: vec![7u8; 32] };
    for mut auth in [ConnAuth::Anonymous, pending] {
        let requests = vec![
            ClientMessage::CreateServer { name: "x".to_string() },
            ClientMessage::JoinServer { server_id: ROOM },
            ClientMessage::LeaveServer { server_id: ROOM },
            ClientMessage::DistributeKey {
                server_id: ROOM,
                target_user_id: ALICE,
                epoch: 0,
                wrapped_key: String::new(),
            },
            s.alice.message(0, b"n", b"c"),
            ClientMessage::ListServers,
            ClientMessage::ListMembers { server_id: ROOM },
            ClientMessage::GetHistory { server_id: ROOM },
            ClientMessage::LookupUser { user_id: ALICE },
        ];
        for req in requests {
            assert_eq!(refuse(&mut s.state, &mut auth, 1, req), "not authenticated");
        }
    }
    assert_eq!(s.members(), vec![ALICE]);
    assert_eq!(s.state.servers().len(), 1);
}

// ---------------------------------------------------------------------------
// Channels
// ---------------------------------------------------------------------------

#[test]
fn creator_is_the_sole_member_at_epoch_zero() {
    let mut state = AppState::new();
    let (_, mut auth) = login(&mut state, ALICE, 1, "alice");
    let create = ClientMessage::CreateServer { name: "general".to_string() };
    let sent = accept(&mut state, &mut auth, 1, create, ROOM);
    assert_sent(&sent, &[(1, ServerMessage::ServerCreated { server_id: ROOM, epoch: 0 })]);
    assert_eq!(state.member_ids(ROOM), Some(vec![ALICE]));
    assert_eq!(state.epoch(ROOM), Some(0));
    assert_eq!(state.membership(ROOM, ALICE), Some(true));
    assert_eq!(state.membership(ROOM, BOB), Some(false));
    assert!(state.history(ROOM).expect("the room exists").is_empty());

    let sent = accept(&mut state, &mut auth, 1, ClientMessage::ListServers, 0);
    assert_eq!(
        format!("{:?}", sent[0].msg),
        format!(
            "ServerList {{ servers: [ServerInfo {{ server_id: {ROOM}, name: \"general\", owner_id: {ALICE}, member_count: 1 }}] }}"
        )
    );
}

#[test]
fn join_bumps_the_epoch_and_tells_everyone() {
    let mut s = scene();
    let sent = s.bob_joins();
    assert_eq!(s.state.epoch(ROOM), Some(1));
    assert_eq!(s.members(), vec![ALICE, BOB]);

    assert_eq!(sent.len(), 2);
    assert_eq!(sent[0].to, 2);
    match &sent[0].msg {
        ServerMessage::ServerJoined { server_id, epoch, members } => {
            assert_eq!((*server_id, *epoch), (ROOM, 1));
            let mut lines: Vec<String> = members.iter().map(|m| format!("{m:?}")).collect();
            lines.sort();
            let mut expected = vec![
                format!("{:?}", member(ALICE, "alice", &s.alice)),
                format!("{:?}", member(BOB, "bob", &s.bob)),
            ];
            expected.sort();
            assert_eq!(lines, expected);
        }
        other => panic!("{other:?}"),
    }
    let notice = ServerMessage::MemberJoined {
        server_id: ROOM,
        member: member(BOB, "bob", &s.bob),
        epoch: 1,
    };
    assert_sent(&sent[1..], &[(1, notice)]);
}

#[test]
fn joining_twice_or_nowhere_is_refused() {
    let mut s = scene();
    s.bob_joins();
    let join = ClientMessage::JoinServer { server_id: ROOM };
    assert_eq!(refuse(&mut s.state, &mut s.bob_auth, 2, join), "already a member");
    assert_eq!(s.state.epoch(ROOM), Some(1));
    let join = ClientMessage::JoinServer { server_id: NOWHERE };
    assert_eq!(refuse(&mut s.state, &mut s.bob_auth, 2, join), "unknown server");
    assert_eq!(s.state.epoch(NOWHERE), None);
}

#[test]
fn leave_undoes_a_join_two_epochs_later() {
    let mut s = scene();
    s.bob_joins();
    let sent = s.bob_leaves();
    let notice = ServerMessage::MemberLeft { server_id: ROOM, user_id: BOB, epoch: 2 };
    assert_sent(&sent, &[(2, ServerMessage::ServerLeft { server_id: ROOM }), (1, notice)]);
    assert_eq!(s.members(), vec![ALICE]);
    assert_eq!(s.state.epoch(ROOM), Some(2));
}

#[test]
fn last_member_may_leave_and_the_channel_stays() {
    let mut s = scene();
    let leave = ClientMessage::LeaveServer { server_id: ROOM };
    let sent = accept(&mut s.state, &mut s.alice_auth, 1, leave, 0);
    assert_sent(&sent, &[(1, ServerMessage::ServerLeft { server_id: ROOM })]);
    assert!(s.members().is_empty());
    assert_eq!(s.state.servers()[0].member_count, 0);
    assert_eq!(s.state.servers()[0].owner_id, ALICE);
}

#[test]
fn departed_user_is_excluded_until_it_joins_again() {
    let mut s = scene();
    s.bob_joins();
    s.bob_leaves();
    let message = s.bob.message(2, b"n", b"c");
    let cases = vec![
        (ClientMessage::LeaveServer { server_id: ROOM }, "not a member"),
        (ClientMessage::ListMembers { server_id: ROOM }, "not a member"),
        (ClientMessage::GetHistory { server_id: ROOM }, "not a member"),
        (
            ClientMessage::DistributeKey {
                server_id: ROOM,
                target_user_id: ALICE,
                epoch: 2,
                wrapped_key: "AAAA".to_string(),
            },
            "you are not in this server",
        ),
        (message, "you are not in this server"),
    ];
    for (req, reason) in cases {
        assert_eq!(refuse(&mut s.state, &mut s.bob_auth, 2, req), reason);
    }

    // Whatever happens meanwhile.
    let req = s.alice.message(2, b"n", b"c");
    accept(&mut s.state, &mut s.alice_auth, 1, req, 5);
    let (_, mut carol_auth) = login(&mut s.state, CAROL, 3, "carol");
    accept(&mut s.state, &mut carol_auth, 3, ClientMessage::JoinServer { server_id: ROOM }, 0);
    on_disconnect(&mut s.state, 3);
    let read = ClientMessage::GetHistory { server_id: ROOM };
    assert_eq!(refuse(&mut s.state, &mut s.bob_auth, 2, read), "not a member");

    s.bob_joins();
    assert_eq!(s.state.epoch(ROOM), Some(4));
}

#[test]
fn unknown_channel_is_refused() {
    let mut s = scene();
    let requests = vec![
        ClientMessage::LeaveServer { server_id: NOWHERE },
        ClientMessage::ListMembers { server_id: NOWHERE },
        ClientMessage::GetHistory { server_id: NOWHERE },
        ClientMessage::DistributeKey {
            server_id: NOWHERE,
            target_user_id: ALICE,
            epoch: 0,
            wrapped_key: "%".to_string(),
        },
        ClientMessage::SendMessage {
            server_id: NOWHERE,
            epoch: 0,
            nonce: String::new(),
            ciphertext: String::new(),
            signature: String::new(),
        },
    ];
    for req in requests {
        assert_eq!(refuse(&mut s.state, &mut s.alice_auth, 1, req), "unknown server");
    }
}

#[test]
fn roster_lists_every_member_once() {
    let mut s = scene();
    s.bob_joins();
    let list = ClientMessage::ListMembers { server_id: ROOM };
    let sent = accept(&mut s.state, &mut s.alice_auth, 1, list, 0);
    assert_eq!(sent.len(), 1);
    assert_eq!(sent[0].to, 1);
    match &sent[0].msg {
        ServerMessage::MemberList { server_id, members } => {
            assert_eq!(*server_id, ROOM);
            let mut ids: Vec<u128> = members.iter().map(|m| m.user_id).collect();
            ids.sort();
            assert_eq!(ids, vec![ALICE, BOB]);
        }
        other => panic!("{other:?}"),
    }
    assert_eq!(s.state.servers()[0].member_count, 2);
}

#[test]
fn roster_shows_registered_users_only() {
    let s = scene();
    let infos = s.state.roster(&vec![NOWHERE, BOB, ALICE, BOB]);
    let ids: Vec<u128> = infos.iter().map(|i| i.user_id).collect();
    assert_eq!(ids, vec![BOB, ALICE, BOB]);
}

// ---------------------------------------------------------------------------
// Keys
// ---------------------------------------------------------------------------

#[test]
fn wrapped_key_goes_to_its_target_alone() {
    let mut s = scene();
    s.bob_joins();
    let key = |target, wrapped_key: &str| ClientMessage::DistributeKey {
        server_id: ROOM,
        target_user_id: target,
        epoch: 41,
        wrapped_key: wrapped_key.to_string(),
    };
    let sent = accept(&mut s.state, &mut s.alice_auth, 1, key(BOB, "AAEC"), 0);
    let frame = ServerMessage::KeyMaterial {
        server_id: ROOM,
        from_user: ALICE,
        epoch: 41,
        wrapped_key: "AAEC".to_string(),
    };
    assert_sent(&sent, &[(2, frame)]);

    assert_eq!(
        refuse(&mut s.state, &mut s.alice_auth, 1, key(BOB, "%")),
        "wrapped_key not base64"
    );
    assert_eq!(
        refuse(&mut s.state, &mut s.alice_auth, 1, key(CAROL, "%")),
        "target is not in this server"
    );

    s.state.close_connection(2);
    assert!(accept(&mut s.state, &mut s.alice_auth, 1, key(BOB, "AAEC"), 0).is_empty());
}

#[test]
fn key_forwarding_depends_on_the_encoding() {
    let s = scene();
    let refused = forward_key(&s.state, ALICE, ROOM, ALICE, 0, "k".to_string(), false);
    assert!(matches!(refused, Err(DispatchError::WrappedKeyNotBase64)));
    let sent = forward_key(&s.state, ALICE, ROOM, ALICE, 0, "k".to_string(), true).expect("sent");
    assert_eq!((sent.len(), sent[0].to), (1, 1));
}

// ---------------------------------------------------------------------------
// Messages
// ---------------------------------------------------------------------------

#[test]
fn signed_bytes_are_channel_epoch_ciphertext_nonce() {
    let bytes = signed_bytes(ROOM, 0x0102030405060708, &[0x20, 0x21], &[0x10]);
    assert_eq!(
        bytes,
        vec![
            0xa1, 0xa2, 0xa3, 0xa4, 0xb1, 0xb2, 0xc1, 0xc2, 0xd1, 0xd2, 0xd3, 0xd4, 0xd5, 0xd6,
            0xd7, 0xd8, 8, 7, 6, 5, 4, 3, 2, 1, 0x20, 0x21, 0x10,
        ]
    );
}

#[test]
fn accepted_message_reaches_members_and_history() {
    let mut s = scene();
    s.bob_joins();
    let (_, mut carol_auth) = login(&mut s.state, CAROL, 3, "carol");
    let nonce = [1u8; 12];
    let ciphertext = b"sealed";
    let req = s.bob.message(1, &nonce, ciphertext);
    let signature = match &req {
        ClientMessage::SendMessage { signature, .. } => signature.clone(),
        _ => unreachable!(),
    };
    let sent = accept(&mut s.state, &mut s.bob_auth, 2, req, 77);
    let frame = ServerMessage::NewMessage {
        server_id: ROOM,
        message_id: 77,
        sender: BOB,
        epoch: 1,
        nonce: "AQEBAQEBAQEBAQEB".to_string(),
        ciphertext: "c2VhbGVk".to_string(),
        signature: signature.clone(),
        timestamp: NOW,
    };
    assert_sent_in_any_order(&sent, &[(1, frame.clone()), (2, frame)]);

    // Alice was offline, say: the history has it.
    s.state.close_connection(1);
    let read = ClientMessage::GetHistory { server_id: ROOM };
    let sent = accept(&mut s.state, &mut s.alice_auth, 1, read, 0);
    let message = StoredMessage {
        message_id: 77,
        sender: BOB,
        epoch: 1,
        nonce: nonce.to_vec(),
        ciphertext: ciphertext.to_vec(),
        signature: STANDARD.decode(&signature).expect("base64"),
        timestamp: NOW,
    };
    assert_sent(&sent, &[(1, ServerMessage::History { server_id: ROOM, messages: vec![message] })]);

    let read = ClientMessage::GetHistory { server_id: ROOM };
    assert_eq!(refuse(&mut s.state, &mut carol_auth, 3, read), "not a member");
}

#[test]
fn unacceptable_messages_are_refused() {
    let mut s = scene();
    let good = |s: &Scene| s.alice.message(0, b"n", b"c");
    let with = |s: &Scene, nonce: Option<&str>, ciphertext: Option<&str>, signature: Option<&str>| {
        match good(s) {
            ClientMessage::SendMessage {
                server_id,
                epoch,
                nonce: n,
                ciphertext: c,
                signature: g,
            } => ClientMessage::SendMessage {
                server_id,
                epoch,
                nonce: nonce.map(|t| t.to_string()).unwrap_or(n),
                ciphertext: ciphertext.map(|t| t.to_string()).unwrap_or(c),
                signature: signature.map(|t| t.to_string()).unwrap_or(g),
            },
            _ => unreachable!(),
        }
    };
    let cases = vec![
        (with(&s, Some("%"), Some("%"), Some("%")), "nonce not base64"),
        (with(&s, None, Some("%"), Some("%")), "ciphertext not base64"),
        (with(&s, None, None, Some("%")), "signature not base64"),
        (with(&s, None, None, Some("")), "message signature invalid"),
        (with(&s, Some("AAAA"), None, None), "message signature invalid"),
        (with(&s, None, Some("AAAA"), None), "message signature invalid"),
        (s.bob.message(0, b"n", b"c"), "message signature invalid"),
        (s.alice.message(12, b"n", b"c"), "stale epoch (expected 0, got 12)"),
    ];
    for (req, reason) in cases {
        assert_eq!(refuse(&mut s.state, &mut s.alice_auth, 1, req), reason);
        assert!(s.state.history(ROOM).expect("the room exists").is_empty());
    }
    let req = good(&s);
    accept(&mut s.state, &mut s.alice_auth, 1, req, 5);
    assert_eq!(s.state.history(ROOM).expect("the room exists").len(), 1);
}

#[test]
fn message_of_an_earlier_epoch_is_stale() {
    let mut s = scene();
    let early = |s: &Scene| s.alice.message(0, b"n", b"c");
    s.bob_joins();
    let req = early(&s);
    assert_eq!(
        refuse(&mut s.state, &mut s.alice_auth, 1, req),
        "stale epoch (expected 1, got 0)"
    );
    s.bob_leaves();
    let req = early(&s);
    assert_eq!(
        refuse(&mut s.state, &mut s.alice_auth, 1, req),
        "stale epoch (expected 2, got 0)"
    );
}

#[test]
fn posting_needs_membership_and_the_current_epoch() {
    let s = scene();
    assert!(may_post(&s.state, ALICE, ROOM, 0).is_ok());
    assert!(matches!(may_post(&s.state, ALICE, NOWHERE, 0), Err(DispatchError::UnknownServer)));
    assert!(matches!(may_post(&s.state, BOB, ROOM, 0), Err(DispatchError::NotInServer)));
    assert!(matches!(
        may_post(&s.state, ALICE, ROOM, 9),
        Err(DispatchError::StaleEpoch { expected: 0, got: 9 })
    ));
    assert!(may_query(&s.state, ALICE, ROOM).is_ok());
    assert!(matches!(may_query(&s.state, BOB, ROOM), Err(DispatchError::NotMember)));
    assert!(matches!(may_query(&s.state, ALICE, NOWHERE), Err(DispatchError::UnknownServer)));
}

fn numbered(n: u128) -> StoredMessage {
    StoredMessage {
        message_id: n,
        sender: ALICE,
        epoch: 0,
        nonce: vec![1],
        ciphertext: vec![2],
        signature: vec![3],
        timestamp: NOW,
    }
}

#[test]
fn verdict_decides_whether_a_message_is_stored() {
    let mut s = scene();
    let refused =
        post_message(&mut s.state, ROOM, numbered(1), Err(CryptoError::VerificationFailed));
    assert!(matches!(refused, Err(DispatchError::MessageSignatureInvalid(_))));
    assert!(s.state.history(ROOM).expect("the room exists").is_empty());

    let refused = post_message(&mut s.state, NOWHERE, numbered(1), Ok(()));
    assert!(matches!(refused, Err(DispatchError::UnknownServer)));

    let sent = post_message(&mut s.state, ROOM, numbered(1), Ok(())).expect("stored");
    let frame = ServerMessage::NewMessage {
        server_id: ROOM,
        message_id: 1,
        sender: ALICE,
        epoch: 0,
        nonce: "AQ==".to_string(),
        ciphertext: "Ag==".to_string(),
        signature: "Aw==".to_string(),
        timestamp: NOW,
    };
    assert_sent(&sent, &[(1, frame)]);
}

#[test]
fn history_keeps_the_most_recent_messages() {
    let mut s = scene();
    let total: u128 = MAX_HISTORY as u128 + 3;
    for n in 0..total {
        s.state.append_message(ROOM, numbered(n)).expect("the room exists");
        let kept = s.state.history(ROOM).expect("the room exists");
        assert_eq!(kept.len(), std::cmp::min(n as usize + 1, 500));
        assert_eq!(kept[kept.len() - 1].message_id, n);
    }
    let kept = s.state.history(ROOM).expect("the room exists");
    let ids: Vec<u128> = kept.iter().map(|m| m.message_id).collect();
    assert_eq!(ids, (3..503u128).collect::<Vec<u128>>());
    assert!(matches!(
        s.state.append_message(NOWHERE, numbered(0)),
        Err(DispatchError::UnknownServer)
    ));
}

#[test]
fn every_stored_message_carries_its_senders_signature() {
    let mut s = scene();
    s.bob_joins();
    for n in 0..3u8 {
        let req = s.alice.message(1, &[n], &[n, n]);
        accept(&mut s.state, &mut s.alice_auth, 1, req, 100 + n as u128);
        let req = s.bob.message(1, &[n], &[n]);
        accept(&mut s.state, &mut s.bob_auth, 2, req, 200 + n as u128);
    }
    let history = s.state.history(ROOM).expect("the room exists");
    assert_eq!(history.len(), 6);
    for m in history {
        let user = s.state.user(m.sender).expect("registered");
        let signed = signed_bytes(ROOM, m.epoch, &m.ciphertext, &m.nonce);
        assert!(pq_chat_backend::crypto::verify_dilithium_signature(
            &user.sig_public_key,
            &signed,
            &m.signature
        )
        .is_ok());
    }
}

#[test]
fn bytes_are_sent_in_padded_base64() {
    let mut s = scene();
    let alphabet = "ABCDEFGHIJKLMNOPQRSTUVWXYZabcdefghijklmnopqrstuvwxyz0123456789+/";
    let mut all: Vec<u8> = Vec::new();
    for v in (0..64u32).step_by(4) {
        let bits = (v << 18) | ((v + 1) << 12) | ((v + 2) << 6) | (v + 3);
        all.extend_from_slice(&bits.to_be_bytes()[1..]);
    }
    let cases: Vec<(Vec<u8>, &str)> = vec![
        (b"".to_vec(), ""),
        (b"f".to_vec(), "Zg=="),
        (b"fo".to_vec(), "Zm8="),
        (b"foo".to_vec(), "Zm9v"),
        (b"foob".to_vec(), "Zm9vYg=="),
        (b"fooba".to_vec(), "Zm9vYmE="),
        (b"foobar".to_vec(), "Zm9vYmFy"),
        (vec![0xfb, 0xff], "+/8="),
        (all, alphabet),
    ];
    for (bytes, text) in cases {
        let message = StoredMessage { nonce: bytes, ..numbered(1) };
        let sent = post_message(&mut s.state, ROOM, message, Ok(())).expect("stored");
        match &sent[0].msg {
            ServerMessage::NewMessage { nonce, .. } => assert_eq!(nonce, text),
            other => panic!("{other:?}"),
        }
    }
}

// ---------------------------------------------------------------------------
// Pushing frames
// ---------------------------------------------------------------------------

#[test]
fn broadcast_reaches_online_members_but_one() {
    let mut s = scene();
    s.bob_joins();
    let (_, mut carol_auth) = login(&mut s.state, CAROL, 3, "carol");
    let join = ClientMessage::JoinServer { server_id: ROOM };
    accept(&mut s.state, &mut carol_auth, 3, join, 0);

    let mut sent = Vec::new();
    s.state.broadcast(ROOM, None, &ServerMessage::Pong, &mut sent);
    assert_sent_in_any_order(
        &sent,
        &[(1, ServerMessage::Pong), (2, ServerMessage::Pong), (3, ServerMessage::Pong)],
    );

    let mut sent = Vec::new();
    s.state.close_connection(1);
    s.state.broadcast(ROOM, Some(BOB), &ServerMessage::Pong, &mut sent);
    assert_sent(&sent, &[(3, ServerMessage::Pong)]);

    let mut sent = Vec::new();
    s.state.broadcast(NOWHERE, None, &ServerMessage::Pong, &mut sent);
    assert!(sent.is_empty());

    let mut sent = Vec::new();
    s.state.fan_out(&vec![CAROL, BOB, CAROL, ALICE], Some(BOB), &ServerMessage::Pong, &mut sent);
    assert_sent(&sent, &[(3, ServerMessage::Pong), (3, ServerMessage::Pong)]);
}

#[test]
fn queries_change_nothing() {
    let mut s = scene();
    s.bob_joins();
    let before = format!("{:?} {:?}", s.members(), s.state.epoch(ROOM));
    let requests = vec![
        ClientMessage::Ping,
        ClientMessage::ListServers,
        ClientMessage::ListMembers { server_id: ROOM },
        ClientMessage::GetHistory { server_id: ROOM },
        ClientMessage::LookupUser { user_id: BOB },
        ClientMessage::DistributeKey {
            server_id: ROOM,
            target_user_id: BOB,
            epoch: 1,
            wrapped_key: "AAAA".to_string(),
        },
    ];
    for req in requests {
        accept(&mut s.state, &mut s.alice_auth, 1, req, 0);
        assert_eq!(format!("{:?} {:?}", s.members(), s.state.epoch(ROOM)), before);
        assert_same_auth(&s.alice_auth, &ConnAuth::Auth { user_id: ALICE });
    }
}

// ---------------------------------------------------------------------------
// Fresh values
// ---------------------------------------------------------------------------

#[test]
fn fresh_values_are_drawn_for_each_request() {
    let register = new_keys().registration("x");
    let first = Fresh::draw(&register);
    let second = Fresh::draw(&register);
    assert_ne!(first.id, second.id);
    for fresh in [&first, &second] {
        assert_eq!((fresh.id >> 76) & 0xf, 4);
        assert_eq!((fresh.id >> 62) & 0x3, 2);
        assert!(fresh.now.nanos < 1_000_000_000);
        assert!(fresh.now.secs > 1_600_000_000);
    }
    let begin = ClientMessage::AuthBegin { user_id: ALICE };
    let first = Fresh::draw(&begin);
    let second = Fresh::draw(&begin);
    assert_eq!((first.challenge.len(), second.challenge.len()), (32, 32));
    assert_ne!(first.challenge, second.challenge);
    assert_ne!(first.challenge, vec![0u8; 32]);
    let relayed = Fresh::draw_from_thread_rng(&begin);
    assert_eq!(relayed.challenge.len(), 32);
    assert_ne!(relayed.challenge, vec![0u8; 32]);
}

#[test]
fn dispatch_runs_a_whole_session() {
    let mut state = AppState::new();
    let mut auth = ConnAuth::Anonymous;
    let keys = new_keys();
    let sent = dispatch(&mut state, &mut auth, 1, keys.registration("alice")).expect("registered");
    let me = match sent[0].msg {
        ServerMessage::Registered { user_id } => user_id,
        _ => panic!("{sent:?}"),
    };
    assert!(state.knows_user(me));
    let sent = dispatch(&mut state, &mut auth, 1, ClientMessage::AuthBegin { user_id: me })
        .expect("challenged");
    let nonce = match &sent[0].msg {
        ServerMessage::AuthChallenge { nonce } => STANDARD.decode(nonce).expect("base64"),
        _ => panic!("{sent:?}"),
    };
    assert_eq!(nonce.len(), 32);
    let signature = STANDARD.encode(keys.sign(&nonce));
    dispatch(&mut state, &mut auth, 1, ClientMessage::AuthFinish { signature }).expect("signed");
    let create = ClientMessage::CreateServer { name: "general".to_string() };
    let sent = dispatch(&mut state, &mut auth, 1, create).expect("created");
    match sent[0].msg {
        ServerMessage::ServerCreated { server_id, epoch } => {
            assert_eq!(epoch, 0);
            assert_eq!(state.member_ids(server_id), Some(vec![me]));
        }
        _ => panic!("{sent:?}"),
    }
}
