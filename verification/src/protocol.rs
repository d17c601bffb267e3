//! Protocol describing the host and device actions after a connection has been established.
//!
//! A message travels as one binary WebSocket message that holds its encoding. The encoding itself
//! is made and read by the caller: see [`Incoming::Decode`].

use vstd::prelude::*;
use vstd::utf8::encode_utf8;

use crate::device::DeviceError;
use crate::host::HostError;
use crate::transport::CodecError;

verus! {

/// The content of a close message.
#[derive(Clone, Debug, PartialEq, Eq)]
pub struct CloseFrame {
    /// The status code.
    pub code: u16,
    /// The reason.
    pub reason: String,
}

/// A WebSocket message.
#[derive(Clone, Debug, PartialEq, Eq)]
pub enum Message {
    /// A text message.
    Text(String),
    /// A binary message.
    Binary(Vec<u8>),
    /// A ping, with its payload.
    Ping(Vec<u8>),
    /// A pong, with its payload.
    Pong(Vec<u8>),
    /// A close message.
    Close(Option<CloseFrame>),
    /// A raw frame, with its payload.
    Frame(Vec<u8>),
}

impl Message {
    /// The data that a message carries.
    pub open spec fn data(self) -> Seq<u8> {
        match self {
            Message::Text(text) => encode_utf8(text@),
            Message::Binary(data) => data@,
            Message::Ping(data) => data@,
            Message::Pong(data) => data@,
            Message::Close(None) => Seq::empty(),
            Message::Close(Some(frame)) => encode_utf8(frame.reason@),
            Message::Frame(data) => data@,
        }
    }

    /// Takes the data out of the message.
    pub fn into_data(self) -> (r: Vec<u8>)
        ensures
            r@ == self.data(),
    {
        match self {
            Message::Text(text) => text.as_str().as_bytes_vec(),
            Message::Binary(data) => data,
            Message::Ping(data) => data,
            Message::Pong(data) => data,
            Message::Close(None) => Vec::new(),
            Message::Close(Some(frame)) => frame.reason.as_str().as_bytes_vec(),
            Message::Frame(data) => data,
        }
    }
}

/// The messages a host can send to a device.
#[derive(Clone, Debug, PartialEq, Eq)]
pub enum HostMsg {
    /// Close the WebSocket connection.
    Exit,
    /// Execute a command.
    Command {
        /// Command to execute.
        cmd: String,
    },
    /// CTRL C signal sent.
    Ctrlc,
}

/// The messages a device can send to a host.
#[derive(Clone, Debug, PartialEq, Eq)]
pub enum DeviceMsg {
    /// The output of a command is ready.
    Output(Vec<u8>),
    /// EOF received.
    Eof,
    /// Error.
    Failure(String),
}

/// The content of a [`DeviceMsg`].
pub enum Reply {
    /// The output of a command is ready.
    Output(Seq<u8>),
    /// The output of a command is complete.
    Eof,
    /// The command was not executed.
    Failure(Seq<char>),
}

impl View for DeviceMsg {
    type V = Reply;

    open spec fn view(&self) -> Reply {
        match self {
            DeviceMsg::Output(out) => Reply::Output(out@),
            DeviceMsg::Eof => Reply::Eof,
            DeviceMsg::Failure(err) => Reply::Failure(err@),
        }
    }
}

/// What a received WebSocket message comes to.
#[derive(Debug)]
pub enum Incoming<M, E> {
    /// The message is known, or it is an error.
    Done(Result<M, E>),
    /// The message is encoded in these bytes.
    Decode(Vec<u8>),
}

/// What a device makes of a WebSocket message.
pub open spec fn host_incoming(value: Message) -> Incoming<HostMsg, DeviceError> {
    match value {
        Message::Close(_) => Incoming::Done(Ok(HostMsg::Exit)),
        Message::Binary(bytes) => Incoming::Decode(bytes),
        _ => Incoming::Done(Err(DeviceError::WrongWsMessage(value))),
    }
}

/// What a host makes of a WebSocket message.
pub open spec fn device_incoming(value: Message) -> Incoming<DeviceMsg, HostError> {
    match value {
        Message::Close(_) => Incoming::Done(Ok(DeviceMsg::Eof)),
        Message::Binary(bytes) => Incoming::Decode(bytes),
        _ => Incoming::Done(Err(HostError::WrongWsMessage(value))),
    }
}

/// The WebSocket message that carries an encoded message, or the error of the encoding.
pub open spec fn framed<E>(encoded: Result<Vec<u8>, E>) -> Result<Message, E> {
    match encoded {
        Ok(bytes) => Ok(Message::Binary(bytes)),
        Err(err) => Err(err),
    }
}

impl HostMsg {
    /// Reads a WebSocket message of a host.
    pub fn try_from(value: Message) -> (r: Incoming<HostMsg, DeviceError>)
        ensures
            r == host_incoming(value),
    {
        match value {
            Message::Close(_) => Incoming::Done(Ok(HostMsg::Exit)),
            Message::Binary(bytes) => Incoming::Decode(bytes),
            msg => Incoming::Done(Err(DeviceError::WrongWsMessage(msg))),
        }
    }

    /// Takes what the bytes of [`Incoming::Decode`] decode to.
    pub fn from_decoded(decoded: Result<HostMsg, CodecError>) -> (r: Result<HostMsg, DeviceError>)
        ensures
            match decoded {
                Ok(msg) => r == Ok::<HostMsg, DeviceError>(msg),
                Err(err) => r == Err::<HostMsg, DeviceError>(DeviceError::Deserialize(err)),
            },
    {
        match decoded {
            Ok(msg) => Ok(msg),
            Err(err) => Err(DeviceError::Deserialize(err)),
        }
    }

    /// The WebSocket message that carries a message of a host, given its encoding.
    pub fn into_message(encoded: Result<Vec<u8>, CodecError>) -> (r: Result<Message, HostError>)
        ensures
            match framed(encoded) {
                Ok(msg) => r == Ok::<Message, HostError>(msg),
                Err(err) => r == Err::<Message, HostError>(HostError::Serialize(err)),
            },
    {
        match encoded {
            Ok(bytes) => Ok(Message::Binary(bytes)),
            Err(err) => Err(HostError::Serialize(err)),
        }
    }
}

impl DeviceMsg {
    /// Reads a WebSocket message of a device.
    pub fn try_from(value: Message) -> (r: Incoming<DeviceMsg, HostError>)
        ensures
            r == device_incoming(value),
    {
        match value {
            Message::Close(_) => Incoming::Done(Ok(DeviceMsg::Eof)),
            Message::Binary(bytes) => Incoming::Decode(bytes),
            msg => Incoming::Done(Err(HostError::WrongWsMessage(msg))),
        }
    }

    /// Takes what the bytes of [`Incoming::Decode`] decode to.
    pub fn from_decoded(decoded: Result<DeviceMsg, CodecError>) -> (r: Result<DeviceMsg, HostError>)
        ensures
            match decoded {
                Ok(msg) => r == Ok::<DeviceMsg, HostError>(msg),
                Err(err) => r == Err::<DeviceMsg, HostError>(HostError::Deserialize(err)),
            },
    {
        match decoded {
            Ok(msg) => Ok(msg),
            Err(err) => Err(HostError::Deserialize(err)),
        }
    }

    /// The WebSocket message that carries a message of a device, given its encoding.
    pub fn into_message(encoded: Result<Vec<u8>, CodecError>) -> (r: Result<Message, DeviceError>)
        ensures
            match framed(encoded) {
                Ok(msg) => r == Ok::<Message, DeviceError>(msg),
                Err(err) => r == Err::<Message, DeviceError>(DeviceError::Serialize(err)),
            },
    {
        match encoded {
            Ok(bytes) => Ok(Message::Binary(bytes)),
            Err(err) => Err(DeviceError::Serialize(err)),
        }
    }
}

/// What one side encodes, the other side is asked to decode, byte for byte.
pub proof fn law_frames_are_transparent(bytes: Vec<u8>)
    ensures
        framed::<CodecError>(Ok(bytes)) matches Ok(msg) && host_incoming(msg) == Incoming::<
            HostMsg,
            DeviceError,
        >::Decode(bytes) && device_incoming(msg) == Incoming::<DeviceMsg, HostError>::Decode(bytes),
{
}

/// A message carries all of its data: a text carries its encoding, and a close message the
/// encoding of its reason, where it has one.
pub proof fn law_message_data(bytes: Vec<u8>, text: String, frame: CloseFrame)
    ensures
        Message::Text(text).data() == encode_utf8(text@),
        Message::Binary(bytes).data() == bytes@,
        Message::Ping(bytes).data() == bytes@,
        Message::Pong(bytes).data() == bytes@,
        Message::Frame(bytes).data() == bytes@,
        Message::Close(None).data() == Seq::<u8>::empty(),
        Message::Close(Some(frame)).data() == encode_utf8(frame.reason@),
{
}

/// The content of a message of a device is all of the message.
pub proof fn law_device_msg_content(msg: DeviceMsg, out: Seq<u8>, text: Seq<char>)
    ensures
        msg@ == Reply::Output(out) <==> (msg matches DeviceMsg::Output(o) && o@ == out),
        msg@ == Reply::Eof <==> msg is Eof,
        msg@ == Reply::Failure(text) <==> (msg matches DeviceMsg::Failure(t) && t@ == text),
{
}

/// How a WebSocket message is read: a binary one is decoded, on either side, whatever it holds; a
/// close message tells a device to exit, and a host that the output is complete; any other one is
/// an error that holds the message.
pub proof fn law_websocket_messages(msg: Message, bytes: Vec<u8>)
    ensures
        host_incoming(msg) == Incoming::<HostMsg, DeviceError>::Decode(bytes) <==> msg
            == Message::Binary(bytes),
        device_incoming(msg) == Incoming::<DeviceMsg, HostError>::Decode(bytes) <==> msg
            == Message::Binary(bytes),
        msg is Close ==> host_incoming(msg) == Incoming::<HostMsg, DeviceError>::Done(
            Ok(HostMsg::Exit),
        ),
        msg is Close ==> device_incoming(msg) == Incoming::<DeviceMsg, HostError>::Done(
            Ok(DeviceMsg::Eof),
        ),
        !(msg is Close) && !(msg is Binary) ==> host_incoming(msg) == Incoming::<
            HostMsg,
            DeviceError,
        >::Done(Err(DeviceError::WrongWsMessage(msg))),
        !(msg is Close) && !(msg is Binary) ==> device_incoming(msg) == Incoming::<
            DeviceMsg,
            HostError,
        >::Done(Err(HostError::WrongWsMessage(msg))),
{
}

/// An encoded message is sent as one binary message that holds exactly its bytes, and an encoding
/// that failed is not sent.
pub proof fn law_encoded_messages(bytes: Vec<u8>, err: CodecError)
    ensures
        framed::<CodecError>(Ok(bytes)) == Ok::<Message, CodecError>(Message::Binary(bytes)),
        framed::<CodecError>(Err(err)) == Err::<Message, CodecError>(err),
{
}

} // verus!
