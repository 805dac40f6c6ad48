//! How the client reads the server's answer to one of its requests.

use vstd::prelude::*;

use crate::message::message_type::{spec_display_name, MessageType};

verus! {

/// What an answer of the server is, given the message type that was expected.
#[derive(Debug, Clone, Copy, PartialEq, Eq, Structural)]
pub enum ResponseKind {
    /// The server reports an error; its message is shown and the request
    /// yields nothing.
    ServerError,
    /// The answer that was asked for.
    Expected,
    /// Anything else: the request fails.
    Unexpected,
}

/// Sorts the server's answer by its message type.
pub fn classify_response(received: MessageType, expected: MessageType) -> (res: ResponseKind)
    requires
        expected != MessageType::Error,
    ensures
        received == MessageType::Error ==> res == ResponseKind::ServerError,
        received == expected ==> res == ResponseKind::Expected,
        received != MessageType::Error && received != expected ==> res == ResponseKind::Unexpected,
{
    if received == MessageType::Error {
        ResponseKind::ServerError
    } else if received == expected {
        ResponseKind::Expected
    } else {
        ResponseKind::Unexpected
    }
}

/// The error text for an answer of an unexpected type.
pub fn unexpected_response_message(received: MessageType) -> (res: String)
    ensures
        res@ == "Unexpected response from server, got: "@ + spec_display_name(received),
{
    let mut res = String::from_str("Unexpected response from server, got: ");
    let name = received.display_name();
    res.append(name.as_str());
    res
}

} // verus!
