//! Host implementation.
//!
//! A [`Host`] waits for a device in a [`ListenLoop`] and runs the commands that are typed in on
//! it. [`HostService`] and [`HostLayer`] make the handler of a device's messages out of a
//! WebSocket connection.

use vstd::prelude::*;

use crate::protocol::Message;
use crate::stream::MessageHandler;
use crate::tls;
use crate::transport::{is_peer_gone, peer_is_gone, CodecError, IoError, TransportError};

verus! {

/// Host errors.
#[derive(Debug)]
pub enum HostError {
    /// Error while trying to connect with a device.
    WebSocketConnect(TransportError),
    /// Error while reading from stdin.
    IORead(IoError),
    /// Error while writing to stdout.
    IOWrite(IoError),
    /// Error while binding.
    Bind(IoError),
    /// Failed to accept a new connection.
    Listen(IoError),
    /// Error while reading from a file.
    ReadFile {
        /// The reason.
        err: std::io::Error,
        /// File path.
        file: String,
    },
    /// Error while trying to send the output of a command to the task that handles it; holds the
    /// message.
    ChannelMsg(Message),
    /// Error while trying to send a command to the task that handles it; holds the command.
    ChannelCmd(String),
    /// Error of the connection while reading a command.
    TungsteniteReadData(TransportError),
    /// Error of the connection while closing it.
    TungsteniteClose(TransportError),
    /// Wrong WebSocket message type.
    WrongWsMessage(Message),
    /// A message could not be decoded.
    Deserialize(CodecError),
    /// A message could not be encoded.
    Serialize(CodecError),
    /// The stream of messages ended before the output of a command was complete.
    UnexpectedEof,
    /// Exit command received: the connection is closed, the host goes on.
    Exit,
    /// TLS error.
    Tls(tls::Error),
}

impl HostError {
    /// The text that describes this error.
    pub open spec fn text(self) -> Seq<char> {
        match self {
            HostError::WebSocketConnect(_) => "Error while trying to connect with a device."@,
            HostError::IORead(_) => "IO error occurred while reading from stdin."@,
            HostError::IOWrite(_) => "IO error occurred while writing to stdout."@,
            HostError::Bind(_) => "Failed to bind."@,
            HostError::Listen(_) => "Failed to accept a new connection."@,
            HostError::ReadFile { err, file } => "Error while reading from file "@ + file@ + "."@,
            HostError::ChannelMsg(_) =>
                "Error while trying to send the output of a command to the task responsible for handling it."@,
            HostError::ChannelCmd(_) =>
                "Error while trying to send the command to the task responsible for handling it."@,
            HostError::TungsteniteReadData(_) => "Error from Tungstenite while reading command."@,
            HostError::TungsteniteClose(_) =>
                "Error from Tungstenite while closing websocket connection"@,
            HostError::WrongWsMessage(_) => "Wrong WebSocket message type."@,
            HostError::Deserialize(_) => "Couldn't deserialize from BSON."@,
            HostError::Serialize(_) => "Couldn't serialize to BSON."@,
            HostError::UnexpectedEof => "Unexpected EoF."@,
            HostError::Exit => "Exit command"@,
            HostError::Tls(_) => "Wrong item."@,
        }
    }

    /// Describes the error.
    pub fn message(&self) -> (r: String)
        ensures
            r@ == self.text(),
    {
        match self {
            HostError::WebSocketConnect(_) => {
                "Error while trying to connect with a device.".to_owned()
            },
            HostError::IORead(_) => "IO error occurred while reading from stdin.".to_owned(),
            HostError::IOWrite(_) => "IO error occurred while writing to stdout.".to_owned(),
            HostError::Bind(_) => "Failed to bind.".to_owned(),
            HostError::Listen(_) => "Failed to accept a new connection.".to_owned(),
            HostError::ReadFile { err: _, file } => {
                "Error while reading from file ".to_owned().concat(file.as_str()).concat(".")
            },
            HostError::ChannelMsg(_) => {
                "Error while trying to send the output of a command to the task responsible for handling it.".to_owned()
            },
            HostError::ChannelCmd(_) => {
                "Error while trying to send the command to the task responsible for handling it.".to_owned()
            },
            HostError::TungsteniteReadData(_) => {
                "Error from Tungstenite while reading command.".to_owned()
            },
            HostError::TungsteniteClose(_) => {
                "Error from Tungstenite while closing websocket connection".to_owned()
            },
            HostError::WrongWsMessage(_) => "Wrong WebSocket message type.".to_owned(),
            HostError::Deserialize(_) => "Couldn't deserialize from BSON.".to_owned(),
            HostError::Serialize(_) => "Couldn't serialize to BSON.".to_owned(),
            HostError::UnexpectedEof => "Unexpected EoF.".to_owned(),
            HostError::Exit => "Exit command".to_owned(),
            HostError::Tls(_) => "Wrong item.".to_owned(),
        }
    }
}

/// What is left of an error once the connection that it concerns is closed: the message for an
/// error that is over with it, or the error that the host goes on with. `Exit` stands for a
/// connection that ended normally.
pub open spec fn closed_with(err: HostError) -> Result<Seq<char>, HostError> {
    match err {
        HostError::WebSocketConnect(err) if peer_is_gone(err) => Err(HostError::Exit),
        HostError::TungsteniteReadData(_) => Err(HostError::Exit),
        HostError::Tls(tls::Error::AcceptTls(_)) => Ok(
            "Connection discarded due to tls error: "@
                + "Error while accepting a TLS connection."@,
        ),
        _ => Err(err),
    }
}

impl HostError {
    /// Handles an error that closes the connection with a device.
    pub fn handle_close(self) -> (r: Result<String, HostError>)
        ensures
            match closed_with(self) {
                Ok(message) => r matches Ok(text) && text@ == message,
                Err(err) => r == Err::<String, HostError>(err),
            },
    {
        match self {
            HostError::WebSocketConnect(err) => {
                if is_peer_gone(&err) {
                    Err(HostError::Exit)
                } else {
                    Err(HostError::WebSocketConnect(err))
                }
            },
            HostError::TungsteniteReadData(_) => Err(HostError::Exit),
            HostError::Tls(tls::Error::AcceptTls(err)) => {
                let tls_err = tls::Error::AcceptTls(err);
                Ok(
                    "Connection discarded due to tls error: ".to_owned().concat(
                        tls_err.message().as_str(),
                    ),
                )
            },
            err => Err(err),
        }
    }
}

/// Struct handling connections with devices. `L` stands for the TCP listener, `A` for what
/// accepts TLS on a connection.
#[derive(Debug)]
pub struct Host<L, A> {
    /// The TCP listener.
    pub listener: L,
    /// What accepts TLS, where TLS is used.
    pub acceptor: Option<A>,
}

/// What the connections of a host are made of.
#[derive(Debug)]
pub enum ListenStack<A> {
    /// WebSocket over TCP.
    Plain,
    /// WebSocket over TLS over TCP.
    Tls(A),
}

impl<L, A> Host<L, A> {
    /// A host with the given listener, without TLS.
    pub fn bind(listener: Result<L, IoError>) -> (r: Result<Self, HostError>)
        ensures
            match listener {
                Ok(l) => r matches Ok(host) && host.listener == l && host.acceptor is None,
                Err(err) => r == Err::<Self, HostError>(HostError::Bind(err)),
            },
    {
        match listener {
            Ok(listener) => Ok(Host { listener, acceptor: None }),
            Err(err) => Err(HostError::Bind(err)),
        }
    }

    /// Adds TLS.
    pub fn with_tls(self, acceptor: Result<A, HostError>) -> (r: Result<Self, HostError>)
        ensures
            match acceptor {
                Ok(a) => r matches Ok(host) && host.listener == self.listener && host.acceptor
                    == Some(a),
                Err(err) => r == Err::<Self, HostError>(err),
            },
    {
        match acceptor {
            Ok(acceptor) => Ok(Host { listener: self.listener, acceptor: Some(acceptor) }),
            Err(err) => Err(err),
        }
    }
}

impl<L, A: Clone> Host<L, A> {
    /// Decides what the connections are made of: with an acceptor they go over TLS.
    pub fn listen_result(&self) -> (r: ListenStack<A>)
        ensures
            match self.acceptor {
                Some(acceptor) => r matches ListenStack::Tls(a) && cloned(acceptor, a),
                None => r == ListenStack::<A>::Plain,
            },
    {
        match &self.acceptor {
            Some(acceptor) => ListenStack::Tls(acceptor.clone()),
            None => ListenStack::Plain,
        }
    }
}

/// Service that makes the message handler of a device out of the connections of another service.
/// `N` stands for what tells of a CTRL C.
#[derive(Clone, Debug)]
pub struct HostService<S, N> {
    /// The service that makes the connections.
    pub service: S,
    /// What tells of a CTRL C.
    pub ctrl_c: N,
}

impl<S, N> HostService<S, N> {
    /// Takes the connection of the inner service.
    pub fn call<W>(ws_stream: Result<W, HostError>) -> (r: Result<MessageHandler<W>, HostError>)
        ensures
            match ws_stream {
                Ok(stream) => r matches Ok(handler) && handler.ws_stream == stream
                    && !handler.ended,
                Err(err) => r == Err::<MessageHandler<W>, HostError>(err),
            },
    {
        match ws_stream {
            Ok(ws_stream) => Ok(MessageHandler::new(ws_stream)),
            Err(err) => Err(err),
        }
    }
}

/// The layer that adds a [`HostService`].
#[derive(Clone, Debug)]
pub struct HostLayer<N> {
    /// What tells of a CTRL C.
    pub ctrl_c: N,
}

impl<N: Clone> HostLayer<N> {
    /// Puts message handlers on top of `inner`.
    pub fn layer<S>(&self, inner: S) -> (r: HostService<S, N>)
        ensures
            r.service == inner,
            cloned(self.ctrl_c, r.ctrl_c),
    {
        HostService { service: inner, ctrl_c: self.ctrl_c.clone() }
    }
}

/// Listens for devices: it runs the commands that are typed in on the device that is connected,
/// and waits for the next device once the connection is closed.
#[derive(Clone, Copy, Debug, PartialEq, Eq, Structural)]
pub enum ListenLoop {
    /// Waits for a device, or for a CTRL C.
    Accepting,
    /// Waits for a command, or for a CTRL C.
    AwaitingCommand,
    /// Waits until a command is done.
    RunningCommand,
    /// Waits until the connection is closed.
    Closing,
    /// The process is to exit.
    Exited,
    /// Is done.
    Returned,
}

/// What a [`ListenLoop`] is told.
#[derive(Debug)]
pub enum ListenEvent {
    /// The user typed CTRL C.
    CtrlC,
    /// A device connected, or could not.
    Connected(Result<(), HostError>),
    /// The line that was typed in, or the end of the lines.
    Line(Option<String>),
    /// The outcome of [`ListenAction::Run`].
    Ran(Result<(), HostError>),
    /// The outcome of [`ListenAction::Close`].
    Closed(Result<(), HostError>),
}

/// What a [`ListenLoop`] asks for.
#[derive(Debug)]
pub enum ListenAction {
    /// Wait for a device or for a CTRL C.
    Accept,
    /// Wait for a line or for a CTRL C.
    AwaitCommand,
    /// Run a command on the device.
    Run(String),
    /// Close the connection.
    Close,
    /// Stop reading lines, then wait for a device or for a CTRL C.
    StopReadingAndAccept,
    /// Stop reading lines and exit the process with status zero.
    ExitProcess,
    /// End with this error.
    Return(HostError),
    /// Go on waiting: the event was not one that is waited for.
    Ignore,
}

/// How a [`ListenLoop`] goes on: its next state, and what it asks for.
pub open spec fn listen_next(state: ListenLoop, event: ListenEvent) -> (ListenLoop, ListenAction) {
    match (state, event) {
        (ListenLoop::Accepting, ListenEvent::CtrlC) => (
            ListenLoop::Exited,
            ListenAction::ExitProcess,
        ),
        (ListenLoop::Accepting, ListenEvent::Connected(Ok(()))) => (
            ListenLoop::AwaitingCommand,
            ListenAction::AwaitCommand,
        ),
        (ListenLoop::Accepting, ListenEvent::Connected(Err(err))) => (
            ListenLoop::Returned,
            ListenAction::Return(err),
        ),
        (ListenLoop::AwaitingCommand, ListenEvent::CtrlC) => (
            ListenLoop::Closing,
            ListenAction::Close,
        ),
        (ListenLoop::AwaitingCommand, ListenEvent::Line(None)) => (
            ListenLoop::AwaitingCommand,
            ListenAction::AwaitCommand,
        ),
        // CTRL D is a line without even a line break
        (ListenLoop::AwaitingCommand, ListenEvent::Line(Some(cmd))) => if cmd@.len() == 0 {
            (ListenLoop::Closing, ListenAction::Close)
        } else {
            (ListenLoop::RunningCommand, ListenAction::Run(cmd))
        },
        (ListenLoop::RunningCommand, ListenEvent::Ran(Ok(()))) => (
            ListenLoop::AwaitingCommand,
            ListenAction::AwaitCommand,
        ),
        (ListenLoop::RunningCommand, ListenEvent::Ran(Err(HostError::Exit))) => (
            ListenLoop::Accepting,
            ListenAction::Accept,
        ),
        (ListenLoop::RunningCommand, ListenEvent::Ran(Err(err))) => (
            ListenLoop::Returned,
            ListenAction::Return(err),
        ),
        (ListenLoop::Closing, ListenEvent::Closed(Ok(()))) => (
            ListenLoop::Accepting,
            ListenAction::StopReadingAndAccept,
        ),
        (ListenLoop::Closing, ListenEvent::Closed(Err(err))) => (
            ListenLoop::Returned,
            ListenAction::Return(err),
        ),
        _ => (state, ListenAction::Ignore),
    }
}

impl ListenLoop {
    /// A loop that starts by waiting for a device.
    pub fn new() -> (r: Self)
        ensures
            r == ListenLoop::Accepting,
    {
        ListenLoop::Accepting
    }

    /// Takes an event.
    pub fn listen_loop(&mut self, event: ListenEvent) -> (r: ListenAction)
        ensures
            (*final(self), r) == listen_next(*old(self), event),
    {
        match (*self, event) {
            (ListenLoop::Accepting, ListenEvent::CtrlC) => {
                *self = ListenLoop::Exited;
                ListenAction::ExitProcess
            },
            (ListenLoop::Accepting, ListenEvent::Connected(Ok(()))) => {
                *self = ListenLoop::AwaitingCommand;
                ListenAction::AwaitCommand
            },
            (ListenLoop::Accepting, ListenEvent::Connected(Err(err))) => {
                *self = ListenLoop::Returned;
                ListenAction::Return(err)
            },
            (ListenLoop::AwaitingCommand, ListenEvent::CtrlC) => {
                *self = ListenLoop::Closing;
                ListenAction::Close
            },
            (ListenLoop::AwaitingCommand, ListenEvent::Line(None)) => ListenAction::AwaitCommand,
            (ListenLoop::AwaitingCommand, ListenEvent::Line(Some(cmd))) => {
                if cmd.as_str().is_empty() {
                    *self = ListenLoop::Closing;
                    ListenAction::Close
                } else {
                    *self = ListenLoop::RunningCommand;
                    ListenAction::Run(cmd)
                }
            },
            (ListenLoop::RunningCommand, ListenEvent::Ran(Ok(()))) => {
                *self = ListenLoop::AwaitingCommand;
                ListenAction::AwaitCommand
            },
            (ListenLoop::RunningCommand, ListenEvent::Ran(Err(HostError::Exit))) => {
                *self = ListenLoop::Accepting;
                ListenAction::Accept
            },
            (ListenLoop::RunningCommand, ListenEvent::Ran(Err(err))) => {
                *self = ListenLoop::Returned;
                ListenAction::Return(err)
            },
            (ListenLoop::Closing, ListenEvent::Closed(Ok(()))) => {
                *self = ListenLoop::Accepting;
                ListenAction::StopReadingAndAccept
            },
            (ListenLoop::Closing, ListenEvent::Closed(Err(err))) => {
                *self = ListenLoop::Returned;
                ListenAction::Return(err)
            },
            _ => ListenAction::Ignore,
        }
    }
}

/// Takes the outcome of waiting for a CTRL C: the result says whether to notify the tasks that
/// handle it. A failure to wait is no CTRL C.
pub fn ctrl_c_handler(waited: Result<(), IoError>) -> (notify: bool)
    ensures
        notify == (waited is Ok),
{
    waited.is_ok()
}

/// Reads lines endlessly and passes them on.
#[derive(Clone, Copy, Debug, PartialEq, Eq, Structural)]
pub enum StdinReader {
    /// Waits for a line.
    Reading,
    /// Waits until a line is passed on.
    Passing,
    /// Is done.
    Returned,
}

/// What a [`StdinReader`] is told.
#[derive(Debug)]
pub enum StdinEvent {
    /// The line that was read; it is empty at the end of the input.
    Read(Result<String, IoError>),
    /// The outcome of [`StdinAction::Pass`]: a line that was not taken is handed back.
    Passed(Result<(), String>),
}

/// What a [`StdinReader`] asks for.
#[derive(Debug)]
pub enum StdinAction {
    /// Read a line.
    Read,
    /// Pass a line on.
    Pass(String),
    /// End with this error.
    Return(HostError),
    /// Go on waiting: the event was not the one that is waited for.
    Ignore,
}

/// How a [`StdinReader`] goes on: its next state, and what it asks for.
pub open spec fn stdin_next(state: StdinReader, event: StdinEvent) -> (StdinReader, StdinAction) {
    match (state, event) {
        (StdinReader::Reading, StdinEvent::Read(Ok(line))) => (
            StdinReader::Passing,
            StdinAction::Pass(line),
        ),
        (StdinReader::Reading, StdinEvent::Read(Err(err))) => (
            StdinReader::Returned,
            StdinAction::Return(HostError::IORead(err)),
        ),
        (StdinReader::Passing, StdinEvent::Passed(Ok(()))) => (
            StdinReader::Reading,
            StdinAction::Read,
        ),
        (StdinReader::Passing, StdinEvent::Passed(Err(line))) => (
            StdinReader::Returned,
            StdinAction::Return(HostError::ChannelCmd(line)),
        ),
        _ => (state, StdinAction::Ignore),
    }
}

impl StdinReader {
    /// A reader that starts by reading a line.
    pub fn new() -> (r: Self)
        ensures
            r == StdinReader::Reading,
    {
        StdinReader::Reading
    }

    /// Takes an event.
    pub fn stdin_handler(&mut self, event: StdinEvent) -> (r: StdinAction)
        ensures
            (*final(self), r) == stdin_next(*old(self), event),
    {
        match (*self, event) {
            (StdinReader::Reading, StdinEvent::Read(Ok(line))) => {
                *self = StdinReader::Passing;
                StdinAction::Pass(line)
            },
            (StdinReader::Reading, StdinEvent::Read(Err(err))) => {
                *self = StdinReader::Returned;
                StdinAction::Return(HostError::IORead(err))
            },
            (StdinReader::Passing, StdinEvent::Passed(Ok(()))) => {
                *self = StdinReader::Reading;
                StdinAction::Read
            },
            (StdinReader::Passing, StdinEvent::Passed(Err(line))) => {
                *self = StdinReader::Returned;
                StdinAction::Return(HostError::ChannelCmd(line))
            },
            _ => StdinAction::Ignore,
        }
    }
}

/// What is left of an error: nothing but a message for a TLS connection that is not accepted,
/// `Exit` for a peer that is gone and for a command that cannot be read, and else the error.
pub proof fn law_closed_with(err: HostError, transport: TransportError)
    ensures
        closed_with(err) is Ok <==> (err matches HostError::Tls(tls::Error::AcceptTls(_))),
        closed_with(err) matches Ok(text) ==> text
            == "Connection discarded due to tls error: "@
            + "Error while accepting a TLS connection."@,
        closed_with(HostError::TungsteniteReadData(transport)) == Err::<Seq<char>, HostError>(
            HostError::Exit,
        ),
        (transport == TransportError::ResetWithoutClosingHandshake || (
        transport matches TransportError::Io(io) && io.kind is UnexpectedEof)) ==> closed_with(
            HostError::WebSocketConnect(transport),
        ) == Err::<Seq<char>, HostError>(HostError::Exit),
        !(transport == TransportError::ResetWithoutClosingHandshake || (
        transport matches TransportError::Io(io) && io.kind is UnexpectedEof)) ==> closed_with(
            HostError::WebSocketConnect(transport),
        ) == Err::<Seq<char>, HostError>(HostError::WebSocketConnect(transport)),
        !(err is TungsteniteReadData) && !(err is WebSocketConnect) && !(
        err matches HostError::Tls(tls::Error::AcceptTls(_))) ==> closed_with(err) == Err::<
            Seq<char>,
            HostError,
        >(err),
{
}

/// The text for a file that cannot be read holds the whole path.
pub proof fn law_host_error_texts(err: std::io::Error, file: String)
    ensures
        (HostError::ReadFile { err, file }).text() == "Error while reading from file "@ + file@
            + "."@,
{
}

/// What a host does with what it is told. It runs exactly the lines that are typed in while it
/// waits for a command, character for character, except for the empty one, which closes the
/// connection; a CTRL C closes the connection, or ends the process where there is none; after
/// `exit` and after a close the next device is waited for; and the host ends with the errors that
/// it is told, and with no others.
pub proof fn law_every_line_is_run(
    state: ListenLoop,
    event: ListenEvent,
    cmd: String,
    err: HostError,
)
    ensures
        ({
            let (next, action) = listen_next(state, event);
            &&& action == ListenAction::Run(cmd) <==> state == ListenLoop::AwaitingCommand && event
                == ListenEvent::Line(Some(cmd)) && cmd@.len() > 0
            &&& action is Close <==> state == ListenLoop::AwaitingCommand && (event is CtrlC || (
            event matches ListenEvent::Line(Some(line)) && line@.len() == 0))
            &&& action is AwaitCommand <==> {
                ||| state == ListenLoop::Accepting && (event matches ListenEvent::Connected(Ok(_)))
                ||| state == ListenLoop::AwaitingCommand && event == ListenEvent::Line(None)
                ||| state == ListenLoop::RunningCommand && (event matches ListenEvent::Ran(Ok(_)))
            }
            &&& action is Accept <==> state == ListenLoop::RunningCommand && (
            event matches ListenEvent::Ran(Err(e)) && e == HostError::Exit)
            &&& action is StopReadingAndAccept <==> state == ListenLoop::Closing && (
            event matches ListenEvent::Closed(Ok(_)))
            &&& action is ExitProcess <==> state == ListenLoop::Accepting && event is CtrlC
            &&& action == ListenAction::Return(err) <==> {
                ||| state == ListenLoop::Accepting && event == ListenEvent::Connected(Err(err))
                ||| state == ListenLoop::RunningCommand && event == ListenEvent::Ran(Err(err))
                    && err != HostError::Exit
                ||| state == ListenLoop::Closing && event == ListenEvent::Closed(Err(err))
            }
            &&& next == match action {
                ListenAction::Accept => ListenLoop::Accepting,
                ListenAction::StopReadingAndAccept => ListenLoop::Accepting,
                ListenAction::AwaitCommand => ListenLoop::AwaitingCommand,
                ListenAction::Run(_) => ListenLoop::RunningCommand,
                ListenAction::Close => ListenLoop::Closing,
                ListenAction::ExitProcess => ListenLoop::Exited,
                ListenAction::Return(_) => ListenLoop::Returned,
                ListenAction::Ignore => state,
            }
        }),
{
}

/// Every line that is read is passed on as it is, and only these are; the reader ends exactly
/// where a line cannot be read or is not taken.
pub proof fn law_every_line_is_passed_on(
    state: StdinReader,
    event: StdinEvent,
    line: String,
    err: HostError,
)
    ensures
        ({
            let (next, action) = stdin_next(state, event);
            &&& action == StdinAction::Pass(line) <==> state == StdinReader::Reading && event
                == StdinEvent::Read(Ok(line))
            &&& action is Read <==> state == StdinReader::Passing && (
            event matches StdinEvent::Passed(Ok(_)))
            &&& action == StdinAction::Return(err) <==> {
                ||| state == StdinReader::Reading && (event matches StdinEvent::Read(Err(e)) && err
                    == HostError::IORead(e))
                ||| state == StdinReader::Passing && (event matches StdinEvent::Passed(Err(l))
                    && err == HostError::ChannelCmd(l))
            }
            &&& next == match action {
                StdinAction::Read => StdinReader::Reading,
                StdinAction::Pass(_) => StdinReader::Passing,
                StdinAction::Return(_) => StdinReader::Returned,
                StdinAction::Ignore => state,
            }
        }),
{
}

/// Apart from the errors whose text names something, the text of an error depends on its kind
/// alone.
pub proof fn law_fixed_host_error_texts(err: HostError)
    ensures
        err is WebSocketConnect ==> err.text() == "Error while trying to connect with a device."@,
        err is IORead ==> err.text() == "IO error occurred while reading from stdin."@,
        err is IOWrite ==> err.text() == "IO error occurred while writing to stdout."@,
        err is Bind ==> err.text() == "Failed to bind."@,
        err is Listen ==> err.text() == "Failed to accept a new connection."@,
        err is ChannelMsg ==> err.text() == "Error while trying to send the output of a command to the task responsible for handling it."@,
        err is ChannelCmd ==> err.text() == "Error while trying to send the command to the task responsible for handling it."@,
        err is TungsteniteReadData ==> err.text() == "Error from Tungstenite while reading command."@,
        err is TungsteniteClose ==> err.text() == "Error from Tungstenite while closing websocket connection"@,
        err is WrongWsMessage ==> err.text() == "Wrong WebSocket message type."@,
        err is Deserialize ==> err.text() == "Couldn't deserialize from BSON."@,
        err is Serialize ==> err.text() == "Couldn't serialize to BSON."@,
        err is UnexpectedEof ==> err.text() == "Unexpected EoF."@,
        err is Exit ==> err.text() == "Exit command"@,
        err is Tls ==> err.text() == "Wrong item."@,
{
}

} // verus!
