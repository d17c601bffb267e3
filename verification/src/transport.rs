//! What the connection reports when it fails, as far as a decision depends on it.

use vstd::prelude::*;

verus! {

/// The kinds of I/O errors that are told apart.
#[derive(Clone, Copy, Debug, PartialEq, Eq, Structural)]
pub enum IoErrorKind {
    /// The peer went away in the middle of a read.
    UnexpectedEof,
    /// Any other kind.
    Other,
}

/// An I/O error: its kind, and the text that describes it.
#[derive(Clone, Debug, PartialEq, Eq)]
pub struct IoError {
    /// The kind of the error.
    pub kind: IoErrorKind,
    /// The description of the error.
    pub detail: String,
}

/// A failure of the WebSocket connection.
#[derive(Clone, Debug, PartialEq, Eq)]
pub enum TransportError {
    /// The peer reset the connection without a closing handshake.
    ResetWithoutClosingHandshake,
    /// The stream under the connection failed.
    Io(IoError),
    /// Any other failure, with its description.
    Other(String),
}

/// A message could not be encoded or decoded.
#[derive(Clone, Debug, PartialEq, Eq)]
pub struct CodecError {
    /// The description of the error.
    pub detail: String,
}

/// A task ended without a result of its own.
#[derive(Clone, Debug, PartialEq, Eq)]
pub enum TaskError {
    /// The task was cancelled.
    Cancelled,
    /// The task panicked, with the description.
    Panicked(String),
}

/// A message could not be handed to the peer.
#[derive(Clone, Debug, PartialEq, Eq)]
pub enum SendError {
    /// The message could not be encoded.
    Encode(CodecError),
    /// The connection did not take the message.
    Transport(TransportError),
}

/// What is known of something that is waited for.
#[derive(Clone, Copy, Debug, PartialEq, Eq)]
pub enum Poll<T> {
    /// It is there.
    Ready(T),
    /// It is not there yet.
    Pending,
}

/// Whether a connection failed because the peer is gone: it reset the connection, or the stream
/// ended in the middle of a read.
pub open spec fn peer_is_gone(err: TransportError) -> bool {
    match err {
        TransportError::ResetWithoutClosingHandshake => true,
        TransportError::Io(err) => err.kind == IoErrorKind::UnexpectedEof,
        TransportError::Other(_) => false,
    }
}

/// Tests whether `err` says that the peer is gone.
pub fn is_peer_gone(err: &TransportError) -> (r: bool)
    ensures
        r == peer_is_gone(*err),
{
    match err {
        TransportError::ResetWithoutClosingHandshake => true,
        TransportError::Io(err) => err.kind == IoErrorKind::UnexpectedEof,
        TransportError::Other(_) => false,
    }
}

/// A peer is gone if and only if the connection was reset without a closing handshake, or the
/// stream under it ended unexpectedly.
pub proof fn law_peer_is_gone(err: TransportError, io: IoError, text: String)
    ensures
        peer_is_gone(TransportError::ResetWithoutClosingHandshake),
        peer_is_gone(TransportError::Io(io)) <==> io.kind == IoErrorKind::UnexpectedEof,
        !peer_is_gone(TransportError::Other(text)),
        peer_is_gone(err) ==> err == TransportError::ResetWithoutClosingHandshake || (
        err matches TransportError::Io(e) && e.kind is UnexpectedEof),
{
}

} // verus!
