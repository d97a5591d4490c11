//! What a request takes from chance and from the clock.
use crate::crypto::{random_challenge, CHALLENGE_LEN};
use crate::outside::{fill_from_thread_rng, is_random_uuid, new_uuid, utc_now};
use crate::protocol::{ClientMessage, ClientMessageView, Timestamp};
use vstd::prelude::*;

verus! {

/// Fresh values for one request: an identifier, the time, and a challenge. A request
/// uses those that it needs.
#[derive(Debug)]
pub struct Fresh {
    pub id: u128,
    pub now: Timestamp,
    pub challenge: Vec<u8>,
}

pub struct FreshView {
    pub id: u128,
    pub now: Timestamp,
    pub challenge: Seq<u8>,
}

impl View for Fresh {
    type V = FreshView;

    open spec fn view(&self) -> FreshView {
        FreshView { id: self.id, now: self.now, challenge: self.challenge@ }
    }
}

/// What holds of the fresh values that a request uses, whatever they are.
pub open spec fn drawn_for(fresh: FreshView, req: ClientMessageView) -> bool {
    match req {
        ClientMessageView::Register { .. } | ClientMessageView::SendMessage { .. } => {
            is_random_uuid(fresh.id) && fresh.now.nanos < 1_000_000_000
        },
        ClientMessageView::CreateServer { .. } => is_random_uuid(fresh.id),
        ClientMessageView::AuthBegin { .. } => fresh.challenge.len() == CHALLENGE_LEN,
        _ => true,
    }
}

impl Fresh {
    /// The values of a request that needs none: all zero, and no challenge.
    fn none() -> (fresh: Fresh)
        ensures
            fresh@ == (FreshView {
                id: 0,
                now: Timestamp { secs: 0, nanos: 0 },
                challenge: Seq::empty(),
            }),
    {
        Fresh { id: 0, now: Timestamp { secs: 0, nanos: 0 }, challenge: Vec::new() }
    }

    /// Draws what a request needs, the challenge from the operating system.
    pub fn draw(req: &ClientMessage) -> (fresh: Fresh)
        ensures
            drawn_for(fresh@, req@),
    {
        match req {
            ClientMessage::AuthBegin { .. } => Fresh { challenge: random_challenge(), ..Fresh::none() },
            _ => Fresh::draw_id_and_time(req),
        }
    }

    /// Draws what a request needs, the challenge from the thread's generator.
    pub fn draw_from_thread_rng(req: &ClientMessage) -> (fresh: Fresh)
        ensures
            drawn_for(fresh@, req@),
    {
        match req {
            ClientMessage::AuthBegin { .. } => {
                let mut challenge: Vec<u8> = vec![0u8; CHALLENGE_LEN];
                fill_from_thread_rng(&mut challenge);
                Fresh { challenge, ..Fresh::none() }
            },
            _ => Fresh::draw_id_and_time(req),
        }
    }

    fn draw_id_and_time(req: &ClientMessage) -> (fresh: Fresh)
        requires
            !(req@ is AuthBegin),
        ensures
            drawn_for(fresh@, req@),
    {
        match req {
            ClientMessage::Register { .. } | ClientMessage::SendMessage { .. } => Fresh {
                id: new_uuid(),
                now: utc_now(),
                ..Fresh::none()
            },
            ClientMessage::CreateServer { .. } => Fresh { id: new_uuid(), ..Fresh::none() },
            _ => Fresh::none(),
        }
    }
}

} // verus!
