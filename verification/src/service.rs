//! A WebSocket service on top of a service for WebSocket connections.

use vstd::prelude::*;

verus! {

/// Service that hands the WebSocket connections that it makes to another service.
#[derive(Clone, Copy, Debug, PartialEq, Eq)]
pub struct WebSocketService<S> {
    /// The service that takes the connections.
    pub service: S,
}

/// The layer that adds a [`WebSocketService`].
#[derive(Clone, Copy, Debug, PartialEq, Eq, Structural)]
pub struct WebSocketLayer;

impl WebSocketLayer {
    /// Hands the connections to `inner`.
    pub fn layer<S>(&self, inner: S) -> (r: WebSocketService<S>)
        ensures
            r.service == inner,
    {
        WebSocketService { service: inner }
    }
}

impl<S: Clone> WebSocketService<S> {
    /// Takes the service that is ready for a connection, and leaves a clone in its place: a clone
    /// need not be ready.
    pub fn call(&mut self) -> (r: S)
        ensures
            r == old(self).service,
            cloned(old(self).service, final(self).service),
    {
        let mut inner = self.service.clone();
        std::mem::swap(&mut self.service, &mut inner);
        inner
    }
}

} // verus!
