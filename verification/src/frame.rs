//! The frame transform: pure, stateless bidirectional conversion between
//! transport-native messages and the opaque byte buffers the rendering
//! engine consumes and produces.

use crate::error::LiveViewError;
use poem::web::websocket::Message;
use vstd::prelude::*;

verus! {

/// Declares poem's transport message type, the source-transport-specific
/// representation of one discrete frame; its values are opaque here.
#[verifier::external_type_specification]
#[verifier::external_body]
pub struct ExMessage(Message);

/// Declares the standard I/O error type that poem's transport reports; its
/// values are opaque here and are only ever collapsed into the unified
/// channel error.
#[verifier::external_type_specification]
#[verifier::external_body]
pub struct ExIoError(std::io::Error);

/// The payload bytes of a transport message, as `Message::as_bytes` returns
/// them: every message kind is treated uniformly as a byte-bearing unit.
pub uninterp spec fn message_payload(m: Message) -> Seq<u8>;

/// Relies on poem's `Message::as_bytes`: it returns the payload bytes of the
/// message (the UTF-8 bytes of a text message; the payload of a binary, ping
/// or pong message; the empty slice for a close message).
#[verifier::external_body]
fn message_bytes(message: &Message) -> (r: Vec<u8>)
    ensures
        r@ == message_payload(*message),
{
    message.as_bytes().to_vec()
}

/// Relies on poem's `Message::Binary` and `Message::as_bytes`: a binary
/// message carries exactly the bytes it was constructed from, and
/// `as_bytes` on a binary message returns them unchanged.
#[verifier::external_body]
fn binary_message(payload: Vec<u8>) -> (m: Message)
    ensures
        message_payload(m) == payload@,
{
    Message::Binary(payload)
}

/// Inbound transform: converts one transport receive result into a raw byte
/// buffer.  A transport-level failure is collapsed into the unified channel
/// error `SendingFailed`; a delivered message yields its payload bytes, with
/// every message kind treated uniformly as a byte-bearing unit.
pub fn transform_rx(message: Result<Message, std::io::Error>) -> (r: Result<
    Vec<u8>,
    LiveViewError,
>)
    ensures
        message matches Ok(m) ==> r matches Ok(payload) && payload@ == message_payload(m),
        message is Err ==> r == Err::<Vec<u8>, LiveViewError>(LiveViewError::SendingFailed),
{
    match message {
        Ok(m) => Ok(message_bytes(&m)),
        Err(_) => Err(LiveViewError::SendingFailed),
    }
}

/// Outbound transform: wraps a raw byte buffer produced by the rendering
/// engine as a binary transport message.  Total: it succeeds on every
/// buffer, and the message carries exactly the given bytes.
pub fn transform_tx(message: Vec<u8>) -> (r: Result<Message, std::io::Error>)
    ensures
        r matches Ok(m) && message_payload(m) == message@,
{
    Ok(binary_message(message))
}

/// Round-trip law: a byte buffer pushed through the outbound transform and
/// handed back through the inbound transform, as over a lossless transport,
/// comes out unchanged.
pub fn frame_round_trip(payload: Vec<u8>) -> (r: Result<Vec<u8>, LiveViewError>)
    ensures
        r matches Ok(b) && b@ == payload@,
{
    match transform_tx(payload) {
        Ok(m) => transform_rx(Ok(m)),
        Err(_) => vstd::pervasive::unreached(),
    }
}

} // verus!
