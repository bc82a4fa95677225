use vstd::prelude::*;

verus! {

/// The kind of a frame received from a WebSocket client.
pub enum ClientFrame {
    /// A text message.
    Text,
    /// The client asked to close the connection.
    Close,
    /// Any other frame (binary, ping, pong).
    Other,
}

/// Whether the server keeps listening to a client after receiving `frame`;
/// `None` stands for the end of the client's stream or a receive error.
pub fn keeps_receiving(frame: Option<ClientFrame>) -> (r: bool)
    ensures
        r <==> (frame matches Some(f) && !(f is Close)),
{
    match frame {
        Some(ClientFrame::Close) => false,
        Some(_) => true,
        None => false,
    }
}

/// What became of one broadcast message forwarded to a client.
pub enum Delivery {
    /// The message could not be turned into JSON; it is skipped.
    EncodingFailed,
    /// The message was sent.
    Sent,
    /// The client could not be written to.
    SendFailed,
}

/// Whether the server keeps forwarding broadcast messages to a client after
/// `delivery`: a message that cannot be encoded is skipped, a client that
/// cannot be written to is dropped.
pub fn keeps_sending(delivery: Delivery) -> (r: bool)
    ensures
        r <==> !(delivery is SendFailed),
{
    match delivery {
        Delivery::SendFailed => false,
        _ => true,
    }
}

} // verus!
