//! Inbound frames and what each means for the receive loop.

use std::ops::ControlFlow;
use vstd::prelude::*;

verus! {

/// Why the peer closed, where it said so.
#[derive(Debug)]
pub struct CloseFrame {
    pub code: u16,
    pub reason: String,
}

/// One inbound frame of a connection.
#[derive(Debug)]
pub enum Message {
    Text(String),
    Binary(Vec<u8>),
    Ping(Vec<u8>),
    Pong(Vec<u8>),
    Close(Option<CloseFrame>),
}

/// A read that failed: the peer reset the connection or sent a frame that
/// cannot be read.
#[derive(Clone, Copy, PartialEq, Eq, Structural, Debug)]
pub struct ReadError;

/// What one read of the inbound half gave: a frame, a failed read, or `None`
/// where the stream has ended.
pub type Inbound = Option<Result<Message, ReadError>>;

/// Whether a frame ends the receive loop: a close frame does, no other.
pub open spec fn closes(msg: Message) -> bool {
    msg is Close
}

/// Whether a read ends the receive loop: the end of the stream, a failed read
/// and a close frame do.
pub open spec fn ends_session(inbound: Inbound) -> bool {
    match inbound {
        Some(Ok(msg)) => closes(msg),
        Some(Err(_)) => true,
        None => true,
    }
}

/// Classifies a frame: a close frame breaks the loop, every other frame is
/// observed and the loop goes on.
pub fn process_message(msg: &Message) -> (flow: ControlFlow<(), ()>)
    ensures
        flow == if closes(*msg) {
            ControlFlow::<(), ()>::Break(())
        } else {
            ControlFlow::<(), ()>::Continue(())
        },
{
    match msg {
        Message::Text(_) => ControlFlow::Continue(()),
        Message::Binary(_) => ControlFlow::Continue(()),
        Message::Close(_) => ControlFlow::Break(()),
        Message::Ping(_) => ControlFlow::Continue(()),
        Message::Pong(_) => ControlFlow::Continue(()),
    }
}

/// One turn of the receive loop on what the read gave: the loop goes on with
/// a frame that is no close frame, and ends with anything else.
pub fn receive(inbound: &Inbound) -> (flow: ControlFlow<(), ()>)
    ensures
        flow == if ends_session(*inbound) {
            ControlFlow::<(), ()>::Break(())
        } else {
            ControlFlow::<(), ()>::Continue(())
        },
{
    match inbound {
        Some(Ok(msg)) => process_message(msg),
        Some(Err(_)) => ControlFlow::Break(()),
        None => ControlFlow::Break(()),
    }
}

} // verus!
