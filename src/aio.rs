//! The decisions of the per-context asynchronous I/O loops, as state machines.
//!
//! Each socket context has one outstanding operation at a time. The loop that drives it
//! performs the action that a step returns, waits for the next event, and feeds it back.

use vstd::prelude::*;

verus! {

/// What the completion callback of an I/O operation reported.
#[derive(Debug, Clone, Copy, PartialEq, Eq, Structural)]
pub enum AioResult {
    /// The operation completed.
    Done,
    /// The socket or context is closed.
    Closed,
    /// The operation failed for another reason.
    Failed,
}

/// State of a server context.
#[derive(Debug, Clone, Copy, PartialEq, Eq, Structural)]
pub enum AioState {
    /// A receive is outstanding, or a received request is being processed.
    Recv,
    /// A reply is being sent.
    Send,
    /// The context is closed; no further events are expected.
    Closed,
}

/// An event seen by a server context.
#[derive(Debug, Clone, Copy, PartialEq, Eq, Structural)]
pub enum ServerAioEvent {
    /// The completion callback fired; `has_message` tells whether a message is available.
    Completed { result: AioResult, has_message: bool },
    /// The request service replied to the forwarded request.
    ReplyReady,
    /// The request service failed to process the forwarded request.
    ReplyFailed,
    /// Starting the send of the reply failed at once.
    SendRejected,
    /// The event channel was closed: the server is shutting down.
    ChannelClosed,
}

/// What a server context does next.
#[derive(Debug, Clone, Copy, PartialEq, Eq, Structural)]
pub enum ServerAioAction {
    /// Issue a receive.
    Recv,
    /// Forward the received message to the request service and wait for its reply.
    Forward,
    /// Send the reply.
    Send,
    /// Cancel the outstanding operation and issue a receive.
    CancelAndRecv,
    /// Nothing: the event does not apply in this state.
    Wait,
    /// Close the context and leave the loop.
    Exit,
}

/// The server context's transition table.
pub open spec fn server_transition(state: AioState, event: ServerAioEvent) -> (AioState, ServerAioAction) {
    match (state, event) {
        (AioState::Closed, _) => (AioState::Closed, ServerAioAction::Exit),
        (_, ServerAioEvent::ChannelClosed) => (AioState::Closed, ServerAioAction::Exit),
        (_, ServerAioEvent::Completed { result: AioResult::Closed, .. }) => (
            AioState::Closed,
            ServerAioAction::Exit,
        ),
        (AioState::Recv, ServerAioEvent::Completed { result: AioResult::Done, has_message: true }) => (
            AioState::Recv,
            ServerAioAction::Forward,
        ),
        (AioState::Recv, ServerAioEvent::Completed { .. }) => (
            AioState::Recv,
            ServerAioAction::CancelAndRecv,
        ),
        (AioState::Recv, ServerAioEvent::ReplyReady) => (AioState::Send, ServerAioAction::Send),
        (AioState::Recv, ServerAioEvent::ReplyFailed) => (
            AioState::Recv,
            ServerAioAction::CancelAndRecv,
        ),
        (AioState::Send, ServerAioEvent::Completed { result: AioResult::Done, .. }) => (
            AioState::Recv,
            ServerAioAction::Recv,
        ),
        (AioState::Send, ServerAioEvent::Completed { .. }) => (
            AioState::Recv,
            ServerAioAction::CancelAndRecv,
        ),
        (AioState::Send, ServerAioEvent::SendRejected) => (
            AioState::Recv,
            ServerAioAction::CancelAndRecv,
        ),
        (s, _) => (s, ServerAioAction::Wait),
    }
}

/// The first action of a server context: it starts by receiving.
pub fn server_start() -> (r: (AioState, ServerAioAction))
    ensures
        r == (AioState::Recv, ServerAioAction::Recv),
{
    (AioState::Recv, ServerAioAction::Recv)
}

/// One step of a server context: the next state and the action to perform.
pub fn server_step(state: AioState, event: ServerAioEvent) -> (r: (AioState, ServerAioAction))
    ensures
        r == server_transition(state, event),
{
    match state {
        AioState::Closed => (AioState::Closed, ServerAioAction::Exit),
        AioState::Recv => match event {
            ServerAioEvent::ChannelClosed => (AioState::Closed, ServerAioAction::Exit),
            ServerAioEvent::Completed { result, has_message } => match result {
                AioResult::Closed => (AioState::Closed, ServerAioAction::Exit),
                AioResult::Done => if has_message {
                    (AioState::Recv, ServerAioAction::Forward)
                } else {
                    (AioState::Recv, ServerAioAction::CancelAndRecv)
                },
                AioResult::Failed => (AioState::Recv, ServerAioAction::CancelAndRecv),
            },
            ServerAioEvent::ReplyReady => (AioState::Send, ServerAioAction::Send),
            ServerAioEvent::ReplyFailed => (AioState::Recv, ServerAioAction::CancelAndRecv),
            ServerAioEvent::SendRejected => (AioState::Recv, ServerAioAction::Wait),
        },
        AioState::Send => match event {
            ServerAioEvent::ChannelClosed => (AioState::Closed, ServerAioAction::Exit),
            ServerAioEvent::Completed { result, .. } => match result {
                AioResult::Closed => (AioState::Closed, ServerAioAction::Exit),
                AioResult::Done => (AioState::Recv, ServerAioAction::Recv),
                AioResult::Failed => (AioState::Recv, ServerAioAction::CancelAndRecv),
            },
            ServerAioEvent::SendRejected => (AioState::Recv, ServerAioAction::CancelAndRecv),
            _ => (AioState::Send, ServerAioAction::Wait),
        },
    }
}

/// Once closed, a server context stays closed and only exits; a closed transport or a closed
/// event channel closes it from any state.
pub proof fn lemma_server_closed_is_final(state: AioState, event: ServerAioEvent)
    ensures
        server_transition(AioState::Closed, event) == (AioState::Closed, ServerAioAction::Exit),
        event is ChannelClosed ==> server_transition(state, event) == (
            AioState::Closed,
            ServerAioAction::Exit,
        ),
        (event matches ServerAioEvent::Completed { result: AioResult::Closed, .. })
            ==> server_transition(state, event) == (AioState::Closed, ServerAioAction::Exit),
{
}

/// A server context never pipelines: a reply is sent only from the receiving state, after the
/// request service replied, and the next operation after a send is a receive.
pub proof fn lemma_server_serializes(state: AioState, event: ServerAioEvent)
    ensures
        server_transition(state, event).1 is Send ==> state is Recv && event is ReplyReady,
        server_transition(state, event).1 is Forward ==> state is Recv,
        state is Send ==> (server_transition(state, event).0 is Recv || server_transition(
            state,
            event,
        ).0 is Closed || server_transition(state, event) == (AioState::Send, ServerAioAction::Wait)),
{
}

/// Why a client request failed.
#[derive(Debug, Clone, Copy, PartialEq, Eq, Structural)]
pub enum RequestError {
    /// The pool of contexts is gone.
    NngAioContextPoolChannelDisconnected,
    /// The borrowed context's request channel is gone.
    AioContextChannelDisconnected,
    /// The context dropped the reply channel without replying.
    ReplyChannelClosed,
    /// Sending the request failed.
    SendFailed,
    /// Receiving the reply failed.
    RecvFailed,
    /// The request carried no message.
    InvalidRequest,
    /// The receive completed without a message.
    NoReplyMessage,
}

/// State of a client context.
#[derive(Debug, Clone, Copy, PartialEq, Eq, Structural)]
pub enum ClientAioState {
    /// In the pool, waiting to be borrowed for a request.
    Idle,
    /// The request is being sent.
    Sending,
    /// The reply is being received.
    Receiving,
    /// The context is closed.
    Closed,
}

/// An event seen by a client context.
#[derive(Debug, Clone, Copy, PartialEq, Eq, Structural)]
pub enum ClientAioEvent {
    /// A request arrived; `has_message` tells whether it carries a message.
    Request { has_message: bool },
    /// Starting the send failed at once.
    SendRejected,
    /// Starting the receive failed at once.
    RecvRejected,
    /// The completion callback fired; `has_message` tells whether a message is available.
    Completed { result: AioResult, has_message: bool },
    /// The context's channel was closed: the client is shutting down.
    ChannelClosed,
}

/// What a client context hands to the caller.
#[derive(Debug, Clone, Copy, PartialEq, Eq, Structural)]
pub enum Delivery {
    /// The received reply message.
    Reply,
    /// The request failed.
    Failure(RequestError),
}

/// What a client context does next.
#[derive(Debug, Clone, Copy, PartialEq, Eq, Structural)]
pub enum ClientAioAction {
    /// Send the request.
    Send,
    /// Receive the reply.
    Recv,
    /// Deliver the outcome to the caller, cancel the
    /// outstanding operation first when `cancel` is set, and return to the pool.
    Deliver { outcome: Delivery, cancel: bool },
    /// Nothing: the event does not apply in this state.
    Wait,
    /// Leave the loop.
    Exit,
}

/// The client context's transition table.
pub open spec fn client_transition(state: ClientAioState, event: ClientAioEvent) -> (
    ClientAioState,
    ClientAioAction,
) {
    match (state, event) {
        (ClientAioState::Closed, _) => (ClientAioState::Closed, ClientAioAction::Exit),
        (_, ClientAioEvent::ChannelClosed) => (ClientAioState::Closed, ClientAioAction::Exit),
        (ClientAioState::Idle, ClientAioEvent::Request { has_message: true }) => (
            ClientAioState::Sending,
            ClientAioAction::Send,
        ),
        (ClientAioState::Idle, ClientAioEvent::Request { has_message: false }) => (
            ClientAioState::Idle,
            ClientAioAction::Deliver { outcome: Delivery::Failure(RequestError::InvalidRequest), cancel: false },
        ),
        (ClientAioState::Sending, ClientAioEvent::SendRejected) => (
            ClientAioState::Idle,
            ClientAioAction::Deliver { outcome: Delivery::Failure(RequestError::SendFailed), cancel: true },
        ),
        (ClientAioState::Sending, ClientAioEvent::Completed { result: AioResult::Done, .. }) => (
            ClientAioState::Receiving,
            ClientAioAction::Recv,
        ),
        (ClientAioState::Sending, ClientAioEvent::Completed { .. }) => (
            ClientAioState::Idle,
            ClientAioAction::Deliver { outcome: Delivery::Failure(RequestError::SendFailed), cancel: true },
        ),
        (ClientAioState::Receiving, ClientAioEvent::RecvRejected) => (
            ClientAioState::Idle,
            ClientAioAction::Deliver { outcome: Delivery::Failure(RequestError::RecvFailed), cancel: true },
        ),
        (
            ClientAioState::Receiving,
            ClientAioEvent::Completed { result: AioResult::Done, has_message: true },
        ) => (ClientAioState::Idle, ClientAioAction::Deliver { outcome: Delivery::Reply, cancel: false }),
        (
            ClientAioState::Receiving,
            ClientAioEvent::Completed { result: AioResult::Done, has_message: false },
        ) => (
            ClientAioState::Idle,
            ClientAioAction::Deliver { outcome: Delivery::Failure(RequestError::NoReplyMessage), cancel: false },
        ),
        (ClientAioState::Receiving, ClientAioEvent::Completed { .. }) => (
            ClientAioState::Idle,
            ClientAioAction::Deliver { outcome: Delivery::Failure(RequestError::RecvFailed), cancel: true },
        ),
        (s, _) => (s, ClientAioAction::Wait),
    }
}

/// One step of a client context: the next state and the action to perform.
pub fn client_step(state: ClientAioState, event: ClientAioEvent) -> (r: (
    ClientAioState,
    ClientAioAction,
))
    ensures
        r == client_transition(state, event),
{
    match state {
        ClientAioState::Closed => (ClientAioState::Closed, ClientAioAction::Exit),
        _ => match event {
            ClientAioEvent::ChannelClosed => (ClientAioState::Closed, ClientAioAction::Exit),
            ClientAioEvent::Request { has_message } => match state {
                ClientAioState::Idle => if has_message {
                    (ClientAioState::Sending, ClientAioAction::Send)
                } else {
                    (
                        ClientAioState::Idle,
                        ClientAioAction::Deliver {
                            outcome: Delivery::Failure(RequestError::InvalidRequest),
                            cancel: false,
                        },
                    )
                },
                _ => (state, ClientAioAction::Wait),
            },
            ClientAioEvent::SendRejected => match state {
                ClientAioState::Sending => (
                    ClientAioState::Idle,
                    ClientAioAction::Deliver { outcome: Delivery::Failure(RequestError::SendFailed), cancel: true },
                ),
                _ => (state, ClientAioAction::Wait),
            },
            ClientAioEvent::RecvRejected => match state {
                ClientAioState::Receiving => (
                    ClientAioState::Idle,
                    ClientAioAction::Deliver { outcome: Delivery::Failure(RequestError::RecvFailed), cancel: true },
                ),
                _ => (state, ClientAioAction::Wait),
            },
            ClientAioEvent::Completed { result, has_message } => match state {
                ClientAioState::Sending => match result {
                    AioResult::Done => (ClientAioState::Receiving, ClientAioAction::Recv),
                    _ => (
                        ClientAioState::Idle,
                        ClientAioAction::Deliver {
                            outcome: Delivery::Failure(RequestError::SendFailed),
                            cancel: true,
                        },
                    ),
                },
                ClientAioState::Receiving => match result {
                    AioResult::Done => if has_message {
                        (
                            ClientAioState::Idle,
                            ClientAioAction::Deliver { outcome: Delivery::Reply, cancel: false },
                        )
                    } else {
                        (
                            ClientAioState::Idle,
                            ClientAioAction::Deliver {
                                outcome: Delivery::Failure(RequestError::NoReplyMessage),
                                cancel: false,
                            },
                        )
                    },
                    _ => (
                        ClientAioState::Idle,
                        ClientAioAction::Deliver {
                            outcome: Delivery::Failure(RequestError::RecvFailed),
                            cancel: true,
                        },
                    ),
                },
                _ => (state, ClientAioAction::Wait),
            },
        },
    }
}

/// Every request that a client context takes up ends in exactly one delivery, after which
/// the context is back in the pool; a context that delivers is idle afterwards.
pub proof fn lemma_client_delivers_then_idles(state: ClientAioState, event: ClientAioEvent)
    ensures
        client_transition(state, event).1 is Deliver ==> client_transition(state, event).0 is Idle,
        client_transition(state, event).1 is Send ==> state is Idle,
        client_transition(state, event).1 is Recv ==> state is Sending,
        client_transition(ClientAioState::Closed, event).0 is Closed,
{
}

/// How a request through the client ended, from what the caller observed: whether a context
/// could be borrowed from the pool, whether the request reached it, and what came back on
/// the reply channel (`None` when it was dropped).
pub open spec fn request_outcome_spec(
    borrowed: bool,
    delivered: bool,
    reply: Option<Result<(), RequestError>>,
) -> Result<(), RequestError> {
    if !borrowed {
        Err(RequestError::NngAioContextPoolChannelDisconnected)
    } else if !delivered {
        Err(RequestError::AioContextChannelDisconnected)
    } else {
        match reply {
            None => Err(RequestError::ReplyChannelClosed),
            Some(r) => r,
        }
    }
}

/// How a request through the client ended; see `request_outcome_spec`.
pub fn request_outcome(
    borrowed: bool,
    delivered: bool,
    reply: Option<Result<(), RequestError>>,
) -> (r: Result<(), RequestError>)
    ensures
        r == request_outcome_spec(borrowed, delivered, reply),
{
    if !borrowed {
        Err(RequestError::NngAioContextPoolChannelDisconnected)
    } else if !delivered {
        Err(RequestError::AioContextChannelDisconnected)
    } else {
        match reply {
            None => Err(RequestError::ReplyChannelClosed),
            Some(r) => r,
        }
    }
}

} // verus!
