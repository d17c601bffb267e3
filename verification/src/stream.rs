//! The stream of messages that a host receives from a device.

use vstd::prelude::*;

use crate::host::HostError;
use crate::protocol::{device_incoming, DeviceMsg, Incoming, Message};
use crate::transport::{Poll, TransportError};

verus! {

/// Reads the messages of a device. `S` stands for the shared connection.
#[derive(Debug)]
pub struct MessageHandler<S> {
    /// The connection.
    pub ws_stream: S,
    /// Whether the connection is known to be over.
    pub ended: bool,
}

/// What the connection yields when it is polled.
#[derive(Debug)]
pub struct Polled {
    /// The next message, an error in its place, or the end of the messages.
    pub item: Option<Result<Message, TransportError>>,
    /// Whether the connection is over.
    pub terminated: bool,
}

/// What the next message of the connection comes to.
pub open spec fn next_message(item: Option<Result<Message, TransportError>>) -> Option<
    Incoming<DeviceMsg, HostError>,
> {
    match item {
        None => None,
        Some(Ok(msg)) => Some(device_incoming(msg)),
        Some(Err(err)) => Some(Incoming::Done(Err(HostError::WebSocketConnect(err)))),
    }
}

impl<S> MessageHandler<S> {
    /// A handler of a new connection.
    pub fn new(ws_stream: S) -> (r: Self)
        ensures
            r.ws_stream == ws_stream,
            !r.ended,
    {
        MessageHandler { ws_stream, ended: false }
    }

    /// Takes what the connection yields, and remembers whether it is over. As long as the
    /// connection yields nothing, nothing changes.
    pub fn poll_next(&mut self, polled: Poll<Polled>) -> (r: Poll<
        Option<Incoming<DeviceMsg, HostError>>,
    >)
        ensures
            final(self).ws_stream == old(self).ws_stream,
            match polled {
                Poll::Pending => r == Poll::<Option<Incoming<DeviceMsg, HostError>>>::Pending
                    && final(self).ended == old(self).ended,
                Poll::Ready(polled) => r == Poll::Ready(next_message(polled.item))
                    && final(self).ended == polled.terminated,
            },
    {
        match polled {
            Poll::Pending => Poll::Pending,
            Poll::Ready(polled) => {
                self.ended = polled.terminated;
                Poll::Ready(
                    match polled.item {
                        None => None,
                        Some(Ok(msg)) => Some(DeviceMsg::try_from(msg)),
                        Some(Err(err)) => Some(
                            Incoming::Done(Err(HostError::WebSocketConnect(err))),
                        ),
                    },
                )
            },
        }
    }

    /// Whether the connection is known to be over.
    pub fn is_terminated(&self) -> (r: bool)
        ensures
            r == self.ended,
    {
        self.ended
    }
}

impl<S: Clone> Clone for MessageHandler<S> {
    /// A handler of the same connection.
    fn clone(&self) -> (r: Self)
        ensures
            cloned(self.ws_stream, r.ws_stream),
            r.ended == self.ended,
    {
        MessageHandler { ws_stream: self.ws_stream.clone(), ended: self.ended }
    }
}

/// Every message that the connection yields is read, whatever it holds: a binary one is decoded, a
/// close message is the end of the output, any other one is an error, and so is an error of the
/// connection; where the connection yields no more messages, there are none.
pub proof fn law_every_message_is_read(
    item: Option<Result<Message, TransportError>>,
    bytes: Vec<u8>,
    err: TransportError,
)
    ensures
        next_message(item) is None <==> item is None,
        next_message(item) == Some(Incoming::<DeviceMsg, HostError>::Decode(bytes)) <==> item
            == Some(Ok::<Message, TransportError>(Message::Binary(bytes))),
        next_message(Some(Err(err))) == Some(
            Incoming::<DeviceMsg, HostError>::Done(Err(HostError::WebSocketConnect(err))),
        ),
        item matches Some(Ok(msg)) ==> (msg is Close ==> next_message(item) == Some(
            Incoming::<DeviceMsg, HostError>::Done(Ok(DeviceMsg::Eof)),
        )),
        item matches Some(Ok(msg)) ==> (!(msg is Close) && !(msg is Binary) ==> next_message(item)
            == Some(
            Incoming::<DeviceMsg, HostError>::Done(Err(HostError::WrongWsMessage(msg))),
        )),
{
}

} // verus!
