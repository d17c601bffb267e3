//! The services that a connection with a device is made of.
//!
//! [`TcpService`] accepts TCP connections; [`WebSocketService`] makes WebSocket connections of the
//! connections of another service.

use vstd::prelude::*;

use crate::host::HostError;
use crate::transport::{IoError, Poll, TransportError};

verus! {

/// Service responsible for creating a TCP connection.
#[derive(Clone, Copy, Debug, PartialEq, Eq, Structural)]
pub struct TcpService;

/// What a poll of the listener comes to; `T` stands for a TCP connection.
pub open spec fn tcp_accepted<T>(accepted: Poll<Result<T, IoError>>) -> Poll<
    Result<T, HostError>,
> {
    match accepted {
        Poll::Pending => Poll::Pending,
        Poll::Ready(Ok(stream)) => Poll::Ready(Ok(stream)),
        Poll::Ready(Err(err)) => Poll::Ready(Err(HostError::Listen(err))),
    }
}

/// Accepts a TCP connection.
#[derive(Clone, Copy, Debug, PartialEq, Eq, Structural)]
pub struct TcpAccept;

impl TcpAccept {
    /// Takes what a poll of the listener yields.
    pub fn poll<T>(accepted: Poll<Result<T, IoError>>) -> (r: Poll<Result<T, HostError>>)
        ensures
            r == tcp_accepted(accepted),
    {
        match accepted {
            Poll::Pending => Poll::Pending,
            Poll::Ready(Ok(stream)) => Poll::Ready(Ok(stream)),
            Poll::Ready(Err(err)) => Poll::Ready(Err(HostError::Listen(err))),
        }
    }
}

/// Service handling WebSocket connections.
#[derive(Clone, Copy, Debug, PartialEq, Eq)]
pub struct WebSocketService<S> {
    /// The service that makes the connections.
    pub service: S,
}

/// The layer that adds a [`WebSocketService`].
#[derive(Clone, Copy, Debug, PartialEq, Eq, Structural)]
pub struct WebSocketLayer;

impl WebSocketLayer {
    /// Puts WebSocket connections on top of `inner`.
    pub fn layer<S>(&self, inner: S) -> (r: WebSocketService<S>)
        ensures
            r.service == inner,
    {
        WebSocketService { service: inner }
    }
}

/// How a call of a [`WebSocketService`] goes on once the inner service has made a connection. `C`
/// stands for that connection, `W` for a WebSocket connection.
#[derive(Debug)]
pub enum WebSocketStep<C, W> {
    /// Perform the WebSocket handshake on the connection.
    Handshake(C),
    /// End with this result.
    Return(Result<W, HostError>),
}

impl<S> WebSocketService<S> {
    /// Takes the connection of the inner service.
    pub fn connected<C, W>(connection: Result<C, HostError>) -> (r: WebSocketStep<C, W>)
        ensures
            match connection {
                Ok(stream) => r == WebSocketStep::<C, W>::Handshake(stream),
                Err(err) => r == WebSocketStep::<C, W>::Return(Err(err)),
            },
    {
        match connection {
            Ok(stream) => WebSocketStep::Handshake(stream),
            Err(err) => WebSocketStep::Return(Err(err)),
        }
    }

    /// Takes the outcome of the WebSocket handshake.
    pub fn upgraded<C, W>(handshake: Result<W, TransportError>) -> (r: WebSocketStep<C, W>)
        ensures
            match handshake {
                Ok(stream) => r == WebSocketStep::<C, W>::Return(Ok(stream)),
                Err(err) => r == WebSocketStep::<C, W>::Return(
                    Err(HostError::WebSocketConnect(err)),
                ),
            },
    {
        match handshake {
            Ok(stream) => WebSocketStep::Return(Ok(stream)),
            Err(err) => WebSocketStep::Return(Err(HostError::WebSocketConnect(err))),
        }
    }
}

/// Every connection that the listener accepts is handed on as it is, and every error of it is an
/// error of listening.
pub proof fn law_every_connection_is_handed_on<T>(stream: T, err: IoError)
    ensures
        tcp_accepted(Poll::Ready(Ok::<T, IoError>(stream))) == Poll::Ready(
            Ok::<T, HostError>(stream),
        ),
        tcp_accepted(Poll::Ready(Err::<T, IoError>(err))) == Poll::Ready(
            Err::<T, HostError>(HostError::Listen(err)),
        ),
        tcp_accepted(Poll::<Result<T, IoError>>::Pending) == Poll::<Result<T, HostError>>::Pending,
{
}

} // verus!
