//! Requests to the development relay.
use pq_chat_backend::connection::{SocketEvent, Step};
use pq_chat_backend::fresh::Fresh;
use pq_chat_backend::protocol::{
    ClientMessage, Delivery, ServerMessage, StoredMessage, Timestamp, UserRecord,
};
use pq_chat_backend::relay::{
    fan_out, fan_out_except, handle_msg, handle_msg_with, has_epoch_room, minfo, on_bad_frame,
    on_disconnect, on_event, send, unauth, Hub,
};
use std::collections::HashMap;

const AT: Timestamp = Timestamp { secs: 1, nanos: 2 };

/// A connection to the relay.
struct Peer {
    conn: u64,
    me: Option<u128>,
    pending: Option<u128>,
}

impl Peer {
    fn new(conn: u64) -> Peer {
        Peer { conn, me: None, pending: None }
    }

    fn ask(&mut self, hub: &mut Hub, req: ClientMessage, id: u128) -> Vec<Delivery> {
        assert!(has_epoch_room(hub, self.me, &req));
        let fresh = Fresh { id, now: AT, challenge: vec![1u8; 32] };
        handle_msg_with(hub, self.conn, &mut self.me, &mut self.pending, req, &fresh)
    }

    fn fails(&mut self, hub: &mut Hub, req: ClientMessage) -> String {
        let sent = self.ask(hub, req, 0);
        assert_eq!(sent.len(), 1);
        assert_eq!(sent[0].to, self.conn);
        match &sent[0].msg {
            ServerMessage::Error { reason } => reason.clone(),
            other => panic!("{other:?}"),
        }
    }

    fn sign_in(&mut self, hub: &mut Hub, id: u128, name: &str) {
        let register = ClientMessage::Register {
            display_name: name.to_string(),
            kem_public_key: "AAAA".to_string(),
            sig_public_key: "AAAA".to_string(),
        };
        self.ask(hub, register, id);
        self.ask(hub, ClientMessage::AuthBegin { user_id: id }, 0);
        self.ask(hub, ClientMessage::AuthFinish { signature: "AAAA".to_string() }, 0);
    }
}

fn frames(sent: &[Delivery]) -> Vec<String> {
    let mut lines: Vec<String> = sent.iter().map(|d| format!("{} {:?}", d.to, d.msg)).collect();
    lines.sort();
    lines
}

fn posting(server_id: u128, nonce: &str) -> ClientMessage {
    ClientMessage::SendMessage {
        server_id,
        epoch: 99,
        nonce: nonce.to_string(),
        ciphertext: "AAEC".to_string(),
        signature: "AA==".to_string(),
    }
}

#[test]
fn smoke() {
    let mut hub = Hub::new();
    let mut me = None;
    let mut pending = None;
    let mut ask = |hub: &mut Hub, req: ClientMessage| {
        let mut sent = handle_msg(hub, 1, &mut me, &mut pending, req);
        assert_eq!(sent.len(), 1);
        sent.remove(0).msg
    };
    let register = ClientMessage::Register {
        display_name: "alice".to_string(),
        kem_public_key: "AAAA".to_string(),
        sig_public_key: "AAAA".to_string(),
    };
    let uid = match ask(&mut hub, register) {
        ServerMessage::Registered { user_id } => user_id,
        other => panic!("{other:?}"),
    };
    let challenge = ask(&mut hub, ClientMessage::AuthBegin { user_id: uid });
    assert!(matches!(challenge, ServerMessage::AuthChallenge { .. }));
    match ask(&mut hub, ClientMessage::AuthFinish { signature: "AAAA".to_string() }) {
        ServerMessage::Authenticated { user_id } => assert_eq!(user_id, uid),
        other => panic!("{other:?}"),
    }
    match ask(&mut hub, ClientMessage::AuthBegin { user_id: 0 }) {
        ServerMessage::Error { reason } => assert_eq!(reason, "unknown user"),
        other => panic!("{other:?}"),
    }
    let sid = match ask(&mut hub, ClientMessage::CreateServer { name: "general".to_string() }) {
        ServerMessage::ServerCreated { server_id, epoch } => {
            assert_eq!(epoch, 0);
            server_id
        }
        other => panic!("{other:?}"),
    };
    match ask(&mut hub, ClientMessage::ListServers) {
        ServerMessage::ServerList { servers } => {
            assert_eq!(servers.len(), 1);
            assert_eq!(servers[0].server_id, sid);
            assert_eq!(servers[0].name, "general");
            assert_eq!(servers[0].member_count, 1);
        }
        other => panic!("{other:?}"),
    }
    match ask(&mut hub, ClientMessage::ListMembers { server_id: sid }) {
        ServerMessage::MemberList { members, .. } => assert_eq!(members[0].display_name, "alice"),
        other => panic!("{other:?}"),
    }
    assert!(matches!(
        ask(&mut hub, ClientMessage::GetHistory { server_id: sid }),
        ServerMessage::History { .. }
    ));
    assert!(matches!(ask(&mut hub, ClientMessage::Ping), ServerMessage::Pong));
}

#[test]
fn relay_errors_change_nothing() {
    let mut hub = Hub::new();
    let mut peer = Peer::new(4);
    assert_eq!(
        peer.fails(&mut hub, ClientMessage::AuthFinish { signature: String::new() }),
        "no auth in progress"
    );
    for user_id in [0u128, 7] {
        assert_eq!(peer.fails(&mut hub, ClientMessage::AuthBegin { user_id }), "unknown user");
        assert_eq!(peer.fails(&mut hub, ClientMessage::LookupUser { user_id }), "unknown user");
    }
    let requests = vec![
        ClientMessage::CreateServer { name: "x".to_string() },
        ClientMessage::JoinServer { server_id: 5 },
        ClientMessage::LeaveServer { server_id: 5 },
        ClientMessage::DistributeKey {
            server_id: 5,
            target_user_id: 1,
            epoch: 0,
            wrapped_key: String::new(),
        },
        posting(5, "AAAA"),
    ];
    for req in requests {
        assert_eq!(peer.fails(&mut hub, req), "not authenticated");
    }
    assert_eq!(peer.fails(&mut hub, ClientMessage::ListMembers { server_id: 5 }), "no such server");
    assert_eq!(peer.fails(&mut hub, ClientMessage::GetHistory { server_id: 5 }), "no such server");

    peer.sign_in(&mut hub, 1, "alice");
    for req in [
        ClientMessage::JoinServer { server_id: 5 },
        ClientMessage::LeaveServer { server_id: 5 },
        posting(5, "AAAA"),
    ] {
        assert_eq!(peer.fails(&mut hub, req), "no such server");
    }
    assert_eq!(hub.epoch(5), None);

    peer.ask(&mut hub, ClientMessage::CreateServer { name: "x".to_string() }, 5);
    let mut other = Peer::new(6);
    other.sign_in(&mut hub, 2, "bob");
    assert_eq!(other.fails(&mut hub, posting(5, "AAAA")), "not a member");
}

#[test]
fn keys_that_are_not_base64_count_as_empty() {
    let mut hub = Hub::new();
    let mut peer = Peer::new(1);
    let register = ClientMessage::Register {
        display_name: "alice".to_string(),
        kem_public_key: "%".to_string(),
        sig_public_key: "AAEC".to_string(),
    };
    let sent = peer.ask(&mut hub, register, 3);
    assert_eq!(frames(&sent), vec!["1 Registered { user_id: 3 }".to_string()]);
    let sent = peer.ask(&mut hub, ClientMessage::LookupUser { user_id: 3 }, 0);
    let user = UserRecord {
        user_id: 3,
        display_name: "alice".to_string(),
        kem_public_key: Vec::new(),
        sig_public_key: vec![0, 1, 2],
        created_at: AT,
    };
    assert_eq!(frames(&sent), vec![format!("1 {:?}", ServerMessage::UserInfo { user })]);
}

#[test]
fn any_answer_to_the_challenge_is_accepted() {
    let mut hub = Hub::new();
    let mut peer = Peer::new(1);
    peer.sign_in(&mut hub, 3, "alice");
    assert_eq!((peer.me, peer.pending), (Some(3), None));
    let sent = peer.ask(&mut hub, ClientMessage::AuthBegin { user_id: 3 }, 0);
    let nonce = "AQEBAQEBAQEBAQEBAQEBAQEBAQEBAQEBAQEBAQEBAQE=".to_string();
    assert_eq!(frames(&sent), vec![format!("1 {:?}", ServerMessage::AuthChallenge { nonce })]);
    assert_eq!((peer.me, peer.pending), (Some(3), Some(3)));
}

#[test]
fn every_join_and_leave_bumps_the_epoch() {
    let mut hub = Hub::new();
    let mut alice = Peer::new(1);
    let mut bob = Peer::new(2);
    alice.sign_in(&mut hub, 10, "alice");
    bob.sign_in(&mut hub, 20, "bob");
    alice.ask(&mut hub, ClientMessage::CreateServer { name: "x".to_string() }, 5);

    let sent = bob.ask(&mut hub, ClientMessage::JoinServer { server_id: 5 }, 0);
    assert_eq!(sent.len(), 2);
    assert_eq!(sent[0].to, 2);
    match &sent[0].msg {
        ServerMessage::ServerJoined { server_id, epoch, members } => {
            assert_eq!((*server_id, *epoch, members.len()), (5, 1, 2));
        }
        other => panic!("{other:?}"),
    }
    assert_eq!(sent[1].to, 1);
    match &sent[1].msg {
        ServerMessage::MemberJoined { server_id, member, epoch } => {
            assert_eq!((*server_id, member.user_id, *epoch), (5, 20, 1));
        }
        other => panic!("{other:?}"),
    }

    bob.ask(&mut hub, ClientMessage::JoinServer { server_id: 5 }, 0);
    assert_eq!(hub.epoch(5), Some(2));
    let sent = bob.ask(&mut hub, ClientMessage::LeaveServer { server_id: 5 }, 0);
    assert_eq!(
        sent.iter().map(|d| format!("{} {:?}", d.to, d.msg)).collect::<Vec<String>>(),
        vec![
            "2 ServerLeft { server_id: 5 }".to_string(),
            "1 MemberLeft { server_id: 5, user_id: 20, epoch: 3 }".to_string(),
        ]
    );
    bob.ask(&mut hub, ClientMessage::LeaveServer { server_id: 5 }, 0);
    assert_eq!(hub.epoch(5), Some(4));
}

#[test]
fn messages_are_kept_and_fanned_out_verbatim() {
    let mut hub = Hub::new();
    let mut alice = Peer::new(1);
    let mut bob = Peer::new(2);
    alice.sign_in(&mut hub, 10, "alice");
    bob.sign_in(&mut hub, 20, "bob");
    alice.ask(&mut hub, ClientMessage::CreateServer { name: "x".to_string() }, 5);
    bob.ask(&mut hub, ClientMessage::JoinServer { server_id: 5 }, 0);

    // Neither the epoch nor the encoding is checked.
    let sent = alice.ask(&mut hub, posting(5, "%"), 70);
    let frame = ServerMessage::NewMessage {
        server_id: 5,
        message_id: 70,
        sender: 10,
        epoch: 99,
        nonce: "%".to_string(),
        ciphertext: "AAEC".to_string(),
        signature: "AA==".to_string(),
        timestamp: AT,
    };
    assert_eq!(frames(&sent), vec![format!("1 {frame:?}"), format!("2 {frame:?}")]);

    for n in 0..600u128 {
        alice.ask(&mut hub, posting(5, "AAAA"), n);
    }
    let mut anyone = Peer::new(9);
    let mut sent = anyone.ask(&mut hub, ClientMessage::GetHistory { server_id: 5 }, 0);
    let first = StoredMessage {
        message_id: 70,
        sender: 10,
        epoch: 99,
        nonce: Vec::new(),
        ciphertext: vec![0, 1, 2],
        signature: vec![0],
        timestamp: AT,
    };
    match sent.remove(0).msg {
        ServerMessage::History { server_id, messages } => {
            assert_eq!((server_id, messages.len()), (5, 601));
            assert_eq!(format!("{:?}", messages[0]), format!("{first:?}"));
            assert_eq!(messages[600].message_id, 599);
        }
        other => panic!("{other:?}"),
    }
}

#[test]
fn key_goes_to_the_target_if_online() {
    let mut hub = Hub::new();
    let mut alice = Peer::new(1);
    let mut bob = Peer::new(2);
    alice.sign_in(&mut hub, 10, "alice");
    bob.sign_in(&mut hub, 20, "bob");
    let key = || ClientMessage::DistributeKey {
        server_id: 5,
        target_user_id: 20,
        epoch: 3,
        wrapped_key: "anything".to_string(),
    };
    let sent = alice.ask(&mut hub, key(), 0);
    let frame = ServerMessage::KeyMaterial {
        server_id: 5,
        from_user: 10,
        epoch: 3,
        wrapped_key: "anything".to_string(),
    };
    assert_eq!(frames(&sent), vec![format!("2 {frame:?}")]);
    on_disconnect(&mut hub, 9);
    assert_eq!(alice.ask(&mut hub, key(), 0).len(), 1);
    on_disconnect(&mut hub, 2);
    assert!(alice.ask(&mut hub, key(), 0).is_empty());
}

#[test]
fn relay_forgets_everyone_on_a_closed_connection() {
    let mut hub = Hub::new();
    let mut alice = Peer::new(1);
    let mut shared = Peer::new(2);
    alice.sign_in(&mut hub, 10, "alice");
    shared.sign_in(&mut hub, 20, "bob");
    shared.sign_in(&mut hub, 30, "carol");
    let key = |target_user_id| ClientMessage::DistributeKey {
        server_id: 5,
        target_user_id,
        epoch: 3,
        wrapped_key: String::new(),
    };
    for (user, connected) in [(10, 1), (20, 2), (30, 2)] {
        let sent = alice.ask(&mut hub, key(user), 0);
        assert_eq!((sent.len(), sent[0].to), (1, connected));
    }
    // Alice has moved on to another connection before the first one ends.
    let mut moved = Peer::new(3);
    moved.ask(&mut hub, ClientMessage::AuthBegin { user_id: 10 }, 0);
    moved.ask(&mut hub, ClientMessage::AuthFinish { signature: String::new() }, 0);
    on_disconnect(&mut hub, 1);
    on_disconnect(&mut hub, 2);
    for (user, frames_sent) in [(10, 1), (20, 0), (30, 0)] {
        assert_eq!(alice.ask(&mut hub, key(user), 0).len(), frames_sent);
    }
    assert!(matches!(
        alice.ask(&mut hub, ClientMessage::LookupUser { user_id: 20 }, 0)[0].msg,
        ServerMessage::UserInfo { .. }
    ));
}

#[test]
fn frames_are_enqueued_in_order() {
    let mut online: HashMap<u128, u64> = HashMap::new();
    online.insert(1, 11);
    online.insert(2, 12);
    let mut out = Vec::new();
    send(9, ServerMessage::Pong, &mut out);
    fan_out(&online, &vec![2, 3, 1], &ServerMessage::Pong, &mut out);
    fan_out_except(&online, &vec![2, 1], Some(2), &ServerMessage::Pong, &mut out);
    let to: Vec<u64> = out.iter().map(|d| d.to).collect();
    assert_eq!(to, vec![9, 12, 11, 11]);
    assert_eq!(
        frames(&unauth(3)),
        vec!["3 Error { reason: \"not authenticated\" }".to_string()]
    );
    assert_eq!(
        frames(&on_bad_frame(3, "eof")),
        vec!["3 Error { reason: \"bad frame: eof\" }".to_string()]
    );
}

#[test]
fn members_are_shown_without_their_registration_time() {
    let mut users: HashMap<u128, UserRecord> = HashMap::new();
    users.insert(
        1,
        UserRecord {
            user_id: 1,
            display_name: "alice".to_string(),
            kem_public_key: vec![1],
            sig_public_key: vec![2],
            created_at: AT,
        },
    );
    assert_eq!(
        format!("{:?}", minfo(&users, 1)),
        "Some(MemberInfo { user_id: 1, display_name: \"alice\", kem_public_key: [1], sig_public_key: [2] })"
    );
    assert!(minfo(&users, 2).is_none());
}

#[test]
fn relay_reads_binary_frames_with_replacement_characters() {
    let step = |event| format!("{:?}", on_event(event));
    assert_eq!(step(SocketEvent::End), "Stop");
    assert_eq!(step(SocketEvent::Failed), "Stop");
    assert_eq!(step(SocketEvent::Close), "Stop");
    assert_eq!(step(SocketEvent::Other), "Skip");
    assert_eq!(step(SocketEvent::Ping(vec![1])), "Skip");
    match on_event(SocketEvent::Binary(vec![0x68, 0xc3, 0xa9])) {
        Step::Request(text) => assert_eq!(text, "hé"),
        other => panic!("{other:?}"),
    }
    match on_event(SocketEvent::Binary(vec![0x68, 0xff])) {
        Step::Request(text) => assert_eq!(text, "h\u{fffd}"),
        other => panic!("{other:?}"),
    }
    match on_event(SocketEvent::Text("x".to_string())) {
        Step::Request(text) => assert_eq!(text, "x"),
        other => panic!("{other:?}"),
    }
}
