//! The realtime event socket: what each thing that happens makes it do.
use vstd::prelude::*;
use crate::protocol::Event;

verus! {

/// What the socket task sees next.
#[derive(Debug, Clone, PartialEq, Eq)]
pub enum SocketInput {
    /// An event from the gateway's event feed.
    Event(Event),
    /// The feed skipped this many events because the socket was too slow.
    Lagged(u64),
    /// The gateway's event feed ended.
    FeedClosed,
    /// The client closed the socket, or its stream ended.
    ClientClosed,
    /// The client sent a ping with this payload.
    ClientPing(Vec<u8>),
    /// The client sent any other message.
    ClientMessage,
    /// Reading from the client failed.
    ClientError,
}

/// What the socket task does about it.
#[derive(Debug, Clone, PartialEq, Eq)]
pub enum SocketAction {
    /// Send the event; end the socket if sending fails.
    Forward(Event),
    /// Send the event so that the client resynchronizes; a failed send is ignored.
    Resync(Event),
    /// Answer the ping with this payload; a failed send is ignored.
    Pong(Vec<u8>),
    /// Nothing to do.
    Continue,
    /// End the socket.
    Stop,
}

/// The first event a new socket sends.
pub fn greeting() -> (res: Event)
    ensures
        res is Connected,
{
    Event::Connected
}

/// What the socket does about `input`.
pub fn socket_step(input: SocketInput) -> (res: SocketAction)
    ensures
        match input {
            SocketInput::Event(e) => res == SocketAction::Forward(e),
            SocketInput::Lagged(_) => res matches SocketAction::Resync(Event::Status { authorized })
                && authorized,
            SocketInput::FeedClosed => res is Stop,
            SocketInput::ClientClosed => res is Stop,
            SocketInput::ClientPing(v) => res == SocketAction::Pong(v),
            SocketInput::ClientMessage => res is Continue,
            SocketInput::ClientError => res is Stop,
        },
{
    match input {
        SocketInput::Event(e) => SocketAction::Forward(e),
        SocketInput::Lagged(_) => SocketAction::Resync(Event::Status { authorized: true }),
        SocketInput::FeedClosed => SocketAction::Stop,
        SocketInput::ClientClosed => SocketAction::Stop,
        SocketInput::ClientPing(v) => SocketAction::Pong(v),
        SocketInput::ClientMessage => SocketAction::Continue,
        SocketInput::ClientError => SocketAction::Stop,
    }
}

} // verus!
