//! What a connection does with each socket event.
use crate::auth::{ConnAuth, ConnAuthView};
use crate::dispatch::{dispatch, reply_with};
use crate::errors::{DispatchError, DispatchErrorView};
use crate::fresh::{drawn_for, FreshView};
use crate::model::{sessions_elsewhere, AppStateView};
use crate::outside::utf8_text;
use crate::protocol::{
    views, ClientMessage, ClientMessageView, ConnId, Delivery, DeliveryView, ServerMessage,
    ServerMessageView,
};
use crate::rules::{auth_wf, dispatched, epoch_room, outcome_view, reply, state_wf};
use crate::state::AppState;
use crate::text::join;
use vstd::prelude::*;

verus! {

/// What came from the socket.
#[derive(Debug)]
pub enum SocketEvent {
    /// The stream has ended.
    End,
    /// Reading failed.
    Failed,
    Text(String),
    Binary(Vec<u8>),
    Ping(Vec<u8>),
    Close,
    /// Any other frame.
    Other,
}

pub enum SocketEventView {
    End,
    Failed,
    Text(Seq<char>),
    Binary(Seq<u8>),
    Ping(Seq<u8>),
    Close,
    Other,
}

impl View for SocketEvent {
    type V = SocketEventView;

    open spec fn view(&self) -> SocketEventView {
        match self {
            SocketEvent::End => SocketEventView::End,
            SocketEvent::Failed => SocketEventView::Failed,
            SocketEvent::Text(text) => SocketEventView::Text(text@),
            SocketEvent::Binary(bytes) => SocketEventView::Binary(bytes@),
            SocketEvent::Ping(payload) => SocketEventView::Ping(payload@),
            SocketEvent::Close => SocketEventView::Close,
            SocketEvent::Other => SocketEventView::Other,
        }
    }
}

/// What to do about it.
#[derive(Debug)]
pub enum Step {
    /// End the connection.
    Stop,
    /// Nothing.
    Skip,
    /// Send a pong with this payload.
    Pong(Vec<u8>),
    /// Read this text as a request.
    Request(String),
}

pub enum StepView {
    Stop,
    Skip,
    Pong(Seq<u8>),
    Request(Seq<char>),
}

impl View for Step {
    type V = StepView;

    open spec fn view(&self) -> StepView {
        match self {
            Step::Stop => StepView::Stop,
            Step::Skip => StepView::Skip,
            Step::Pong(payload) => StepView::Pong(payload@),
            Step::Request(text) => StepView::Request(text@),
        }
    }
}

/// What a socket event calls for. A binary frame is read as text; one that is not
/// UTF-8 counts as an empty text.
pub open spec fn step_for(event: SocketEventView) -> StepView {
    match event {
        SocketEventView::End | SocketEventView::Failed | SocketEventView::Close => StepView::Stop,
        SocketEventView::Text(text) => StepView::Request(text),
        SocketEventView::Binary(bytes) => if vstd::utf8::valid_utf8(bytes) {
            StepView::Request(vstd::utf8::decode_utf8(bytes))
        } else {
            StepView::Request(Seq::empty())
        },
        SocketEventView::Ping(payload) => StepView::Pong(payload),
        SocketEventView::Other => StepView::Skip,
    }
}

/// Decides what to do about a socket event.
pub fn on_event(event: SocketEvent) -> (step: Step)
    ensures
        step@ == step_for(event@),
{
    match event {
        SocketEvent::End => Step::Stop,
        SocketEvent::Failed => Step::Stop,
        SocketEvent::Text(text) => Step::Request(text),
        SocketEvent::Binary(bytes) => match utf8_text(bytes) {
            Some(text) => Step::Request(text),
            None => Step::Request(String::new()),
        },
        SocketEvent::Ping(payload) => Step::Pong(payload),
        SocketEvent::Close => Step::Stop,
        SocketEvent::Other => Step::Skip,
    }
}

/// The frames that a request results in: a refusal becomes a single error frame.
pub open spec fn answer_view(
    conn: ConnId,
    outcome: Result<Seq<DeliveryView>, DispatchErrorView>,
) -> Seq<DeliveryView> {
    match outcome {
        Ok(sent) => sent,
        Err(e) => reply(conn, ServerMessageView::Error { reason: e.text() }),
    }
}

/// A single error frame.
fn error_frame(conn: ConnId, reason: String) -> (sent: Vec<Delivery>)
    ensures
        views(sent@) == reply(conn, ServerMessageView::Error { reason: reason@ }),
{
    reply_with(conn, ServerMessage::Error { reason })
}

/// Turns the outcome of a request into frames.
pub fn answer(conn: ConnId, outcome: Result<Vec<Delivery>, DispatchError>) -> (sent: Vec<Delivery>)
    ensures
        views(sent@) == answer_view(conn, outcome_view(outcome)),
{
    match outcome {
        Ok(sent) => sent,
        Err(e) => error_frame(conn, e.message()),
    }
}

/// What a well-formed request on a connection does to the state, to the connection's
/// authentication and to the outbound queues.
pub open spec fn served(
    state: AppStateView,
    auth: ConnAuthView,
    conn: ConnId,
    req: ClientMessageView,
    fresh: FreshView,
    after: AppStateView,
    auth_after: ConnAuthView,
    sent: Seq<DeliveryView>,
) -> bool {
    exists|outcome: Result<Seq<DeliveryView>, DispatchErrorView>|
        sent == answer_view(conn, outcome) && #[trigger] dispatched(
            state,
            auth,
            conn,
            req,
            fresh,
            after,
            auth_after,
            outcome,
        )
}

/// Handles a request, or the reason why a text could not be read as one.
pub fn on_request(
    state: &mut AppState,
    auth: &mut ConnAuth,
    conn: ConnId,
    parsed: Result<ClientMessage, String>,
) -> (sent: Vec<Delivery>)
    requires
        parsed matches Ok(req) ==> epoch_room(old(state)@, old(auth)@, req@),
    ensures
        match parsed {
            Ok(req) => exists|fresh: FreshView|
                drawn_for(fresh, req@) && #[trigger] served(
                    old(state)@,
                    old(auth)@,
                    conn,
                    req@,
                    fresh,
                    final(state)@,
                    final(auth)@,
                    views(sent@),
                ),
            Err(why) => {
                &&& final(state)@ == old(state)@
                &&& final(auth)@ == old(auth)@
                &&& views(sent@) == reply(
                    conn,
                    ServerMessageView::Error { reason: "malformed request: "@ + why@ },
                )
            },
        },
        state_wf(old(state)@) && auth_wf(old(state)@, old(auth)@) ==> state_wf(final(state)@)
            && auth_wf(final(state)@, final(auth)@),
{
    match parsed {
        Ok(req) => {
            let ghost r = req@;
            let outcome = dispatch(state, auth, conn, req);
            proof {
                let fresh = choose|fresh: FreshView|
                    drawn_for(fresh, r) && #[trigger] dispatched(
                        old(state)@,
                        old(auth)@,
                        conn,
                        r,
                        fresh,
                        state@,
                        auth@,
                        outcome_view(outcome),
                    );
                assert(served(
                    old(state)@,
                    old(auth)@,
                    conn,
                    r,
                    fresh,
                    state@,
                    auth@,
                    answer_view(conn, outcome_view(outcome)),
                ));
            }
            answer(conn, outcome)
        },
        Err(why) => error_frame(conn, join("malformed request: ", why.as_str())),
    }
}

/// The state once a connection has ended: everyone whose frames went to it is offline.
pub open spec fn disconnected(state: AppStateView, conn: ConnId) -> AppStateView {
    AppStateView { online: sessions_elsewhere(state.online, conn), ..state }
}

/// Cleans up after a connection that has ended: no session on it is left, whoever
/// authenticated there. A user that has since authenticated on another connection
/// stays online on that one.
pub fn on_disconnect(state: &mut AppState, conn: ConnId)
    ensures
        final(state)@ == disconnected(old(state)@, conn),
        state_wf(old(state)@) ==> state_wf(final(state)@),
{
    state.close_connection(conn);
}

} // verus!
