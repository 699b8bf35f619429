//! The push trigger: a fixed message for the peer at an address, and the
//! answer to whoever asked for it.

use super::frame::Message;
use super::manager::SendOutcome;
use vstd::prelude::*;

verus! {

/// The text that the trigger pushes.
pub open spec fn push_text() -> Seq<char> {
    "Hello, World!"@
}

/// The message that the trigger pushes to a peer: a text frame with the
/// fixed text.
pub fn push_message() -> (msg: Message)
    ensures
        msg matches Message::Text(text) && text@ == push_text(),
{
    Message::Text("Hello, World!".to_owned())
}

/// The body of the answer, from what came of the push: `None` where the
/// target was no address and nothing was sent, else how the send ended.
pub open spec fn push_answer(pushed: Option<SendOutcome>) -> Seq<char> {
    match pushed {
        Some(_) => "status: Message sent"@,
        None => "error: Invalid address format"@,
    }
}

/// The body of the answer to a push. Only a target that is no address is
/// answered as an error. How the send ended does not show in the answer: a
/// peer that is not connected is no fault of the request.
pub fn push_reply(pushed: Option<SendOutcome>) -> (body: String)
    ensures
        body@ == push_answer(pushed),
{
    match pushed {
        Some(_) => "status: Message sent".to_owned(),
        None => "error: Invalid address format".to_owned(),
    }
}

} // verus!
