//! A device that listens for its host: it executes every command that the host sends and answers
//! with the whole output.

use tokio_rustls::rustls::Error as RustlsError;
use vstd::prelude::*;
use vstd::utf8::{encode_utf8, valid_utf8};

use crate::protocol::Message;
use crate::shell::ShellError;
use crate::transport::{is_peer_gone, peer_is_gone, IoError, TransportError};

verus! {

/// How many errors of connections wait to be handled at most.
pub const MAX_ERRORS_TO_HANDLE: usize = 10;

/// Server errors.
#[derive(Debug)]
pub enum ServerError {
    /// Failed to bind.
    Bind(IoError),
    /// Failed to accept a new connection.
    AcceptConnection {
        /// The reason.
        err: IoError,
    },
    /// Failed to read a file.
    ReadFile {
        /// The reason.
        err: IoError,
        /// File path.
        file: String,
    },
    /// The address of the peer is unknown.
    PeerAddr,
    /// The WebSocket handshake failed.
    WebSocketHandshake,
    /// The message holds no command.
    ReadCommand,
    /// The command is no text.
    Utf8Error(std::string::FromUtf8Error),
    /// Error of the connection.
    Transport(TransportError),
    /// Shell error.
    ShellError(ShellError),
    /// The host closed the connection.
    CloseWebsocket,
    /// Error while establishing a TLS connection.
    RustTls(RustlsError),
}

impl ServerError {
    /// The text that describes this error.
    pub open spec fn text(self) -> Seq<char> {
        match self {
            ServerError::Bind(_) => "Failed to bind"@,
            ServerError::AcceptConnection { err } => "Failed to accept a new connection"@,
            ServerError::ReadFile { err, file } => "Failed to read "@ + file@ + " from file"@,
            ServerError::PeerAddr => "Connected streams should have a peer address"@,
            ServerError::WebSocketHandshake =>
                "Error during the websocket handshake occurred"@,
            ServerError::ReadCommand =>
                "Error while reading the shell command from websocket"@,
            ServerError::Utf8Error(_) => "Error marshaling to UTF8"@,
            ServerError::Transport(_) => "Trasport error from Tungstenite"@,
            ServerError::ShellError(_) => "Error while precessing the shell command"@,
            ServerError::CloseWebsocket => "Close websocket connection"@,
            ServerError::RustTls(_) => "Error while establishing a TLS connection"@,
        }
    }

    /// Describes the error.
    pub fn message(&self) -> (r: String)
        ensures
            r@ == self.text(),
    {
        match self {
            ServerError::Bind(_) => "Failed to bind".to_owned(),
            ServerError::AcceptConnection { err: _ } => {
                "Failed to accept a new connection".to_owned()
            },
            ServerError::ReadFile { err: _, file } => {
                "Failed to read ".to_owned().concat(file.as_str()).concat(" from file")
            },
            ServerError::PeerAddr => "Connected streams should have a peer address".to_owned(),
            ServerError::WebSocketHandshake => {
                "Error during the websocket handshake occurred".to_owned()
            },
            ServerError::ReadCommand => {
                "Error while reading the shell command from websocket".to_owned()
            },
            ServerError::Utf8Error(_) => "Error marshaling to UTF8".to_owned(),
            ServerError::Transport(_) => "Trasport error from Tungstenite".to_owned(),
            ServerError::ShellError(_) => "Error while precessing the shell command".to_owned(),
            ServerError::CloseWebsocket => "Close websocket connection".to_owned(),
            ServerError::RustTls(_) => "Error while establishing a TLS connection".to_owned(),
        }
    }
}

/// Connects over plain TCP.
#[derive(Clone, Copy, Debug, PartialEq, Eq, Structural)]
pub struct TcpConnector;

impl TcpConnector {
    /// The listener, given what binding the address came to.
    pub fn bind<L>(listener: Result<L, IoError>) -> (r: Result<L, ServerError>)
        ensures
            match listener {
                Ok(l) => r == Ok::<L, ServerError>(l),
                Err(err) => r == Err::<L, ServerError>(ServerError::Bind(err)),
            },
    {
        match listener {
            Ok(listener) => Ok(listener),
            Err(err) => Err(ServerError::Bind(err)),
        }
    }

    /// The connection, given what accepting it came to.
    pub fn connect<T>(accepted: Result<T, IoError>) -> (r: Result<T, ServerError>)
        ensures
            match accepted {
                Ok(stream) => r == Ok::<T, ServerError>(stream),
                Err(err) => r == Err::<T, ServerError>(ServerError::AcceptConnection { err }),
            },
    {
        match accepted {
            Ok(stream) => Ok(stream),
            Err(err) => Err(ServerError::AcceptConnection { err }),
        }
    }
}

/// A server: its address, and how it accepts connections. `D` stands for an address.
#[derive(Clone, Debug)]
pub struct Server<D, C> {
    /// The address to listen at.
    pub addr: D,
    /// How connections are accepted.
    pub connector: C,
}

impl<D> Server<D, TcpConnector> {
    /// A server that accepts plain TCP connections.
    pub fn new(addr: D) -> (r: Self)
        ensures
            r.addr == addr,
            r.connector == TcpConnector,
    {
        Server { addr, connector: TcpConnector }
    }

    /// The server that listens at the same address and accepts connections over TLS, given the
    /// TLS configuration.
    pub fn with_tls<T>(self, tls_config: Result<T, RustlsError>) -> (r: Result<
        Server<D, T>,
        ServerError,
    >)
        ensures
            match tls_config {
                Ok(config) => r matches Ok(server) && server.addr == self.addr && server.connector
                    == config,
                Err(err) => r == Err::<Server<D, T>, ServerError>(ServerError::RustTls(err)),
            },
    {
        match tls_config {
            Ok(connector) => Ok(Server { addr: self.addr, connector }),
            Err(err) => Err(ServerError::RustTls(err)),
        }
    }
}

/// Runs a server: it starts to accept connections and ends with the first error of any of them.
#[derive(Clone, Copy, Debug, PartialEq, Eq, Structural)]
pub enum ServerTask {
    /// Waits until the address is bound.
    Binding,
    /// Waits for the first error.
    Listening,
    /// Is done.
    Returned,
}

/// What a [`ServerTask`] is told.
#[derive(Debug)]
pub enum ServerEvent {
    /// Whether the address is bound.
    Bound(Result<(), ServerError>),
    /// The first error, or that there is nobody left to report one.
    Reported(Option<ServerError>),
}

/// What a [`ServerTask`] asks for.
#[derive(Debug)]
pub enum ServerAction {
    /// Start to accept connections and wait for an error.
    Listen,
    /// Terminate all connections, then end with this error.
    Terminate(ServerError),
    /// End with this result.
    Return(Result<(), ServerError>),
    /// Go on waiting: the event was not the one that is waited for.
    Ignore,
}

/// How a [`ServerTask`] goes on: its next state, and what it asks for.
pub open spec fn server_next(task: ServerTask, event: ServerEvent) -> (ServerTask, ServerAction) {
    match (task, event) {
        (ServerTask::Binding, ServerEvent::Bound(Ok(()))) => (
            ServerTask::Listening,
            ServerAction::Listen,
        ),
        (ServerTask::Binding, ServerEvent::Bound(Err(err))) => (
            ServerTask::Returned,
            ServerAction::Return(Err(err)),
        ),
        (ServerTask::Listening, ServerEvent::Reported(Some(err))) => (
            ServerTask::Returned,
            ServerAction::Terminate(err),
        ),
        (ServerTask::Listening, ServerEvent::Reported(None)) => (
            ServerTask::Returned,
            ServerAction::Return(Ok(())),
        ),
        _ => (task, ServerAction::Ignore),
    }
}

impl ServerTask {
    /// A task that starts by binding the address.
    pub fn new() -> (r: Self)
        ensures
            r == ServerTask::Binding,
    {
        ServerTask::Binding
    }

    /// Takes an event.
    pub fn listen(&mut self, event: ServerEvent) -> (r: ServerAction)
        ensures
            (*final(self), r) == server_next(*old(self), event),
    {
        match (*self, event) {
            (ServerTask::Binding, ServerEvent::Bound(Ok(()))) => {
                *self = ServerTask::Listening;
                ServerAction::Listen
            },
            (ServerTask::Binding, ServerEvent::Bound(Err(err))) => {
                *self = ServerTask::Returned;
                ServerAction::Return(Err(err))
            },
            (ServerTask::Listening, ServerEvent::Reported(Some(err))) => {
                *self = ServerTask::Returned;
                ServerAction::Terminate(err)
            },
            (ServerTask::Listening, ServerEvent::Reported(None)) => {
                *self = ServerTask::Returned;
                ServerAction::Return(Ok(()))
            },
            _ => ServerAction::Ignore,
        }
    }
}

/// What the task that accepts connections does next. `T` stands for a connection.
#[derive(Debug)]
pub enum AcceptAction<T> {
    /// Handle the connection in a task of its own and accept the next one.
    Spawn(T),
    /// Report the error and accept no more connections.
    Report(ServerError),
}

/// Takes what accepting a connection came to.
pub fn accepted<T>(connection: Result<T, ServerError>) -> (r: AcceptAction<T>)
    ensures
        match connection {
            Ok(stream) => r == AcceptAction::Spawn(stream),
            Err(err) => r == AcceptAction::<T>::Report(err),
        },
{
    match connection {
        Ok(stream) => AcceptAction::Spawn(stream),
        Err(err) => AcceptAction::Report(err),
    }
}

/// The error of a connection that ends the server, if it has one: a connection that the host
/// closed, or whose host is gone, ends only itself.
pub open spec fn fatal_error(result: Result<(), ServerError>) -> Option<ServerError> {
    match result {
        Ok(()) => None,
        Err(ServerError::CloseWebsocket) => None,
        Err(ServerError::Transport(err)) if peer_is_gone(err) => None,
        Err(err) => Some(err),
    }
}

/// Takes the result of a connection; the result is the error to report.
pub fn handle_connection(result: Result<(), ServerError>) -> (r: Option<ServerError>)
    ensures
        r == fatal_error(result),
{
    match result {
        Ok(()) => None,
        Err(ServerError::CloseWebsocket) => None,
        Err(ServerError::Transport(err)) => {
            if is_peer_gone(&err) {
                None
            } else {
                Some(ServerError::Transport(err))
            }
        },
        Err(err) => Some(err),
    }
}

/// The error of `String::from_utf8`.
#[verifier::external_type_specification]
#[verifier::external_body]
pub struct ExFromUtf8Error(std::string::FromUtf8Error);

/// The bytes that a `FromUtf8Error` holds, which are no UTF-8 encoding: those that
/// `FromUtf8Error::as_bytes` returns.
pub uninterp spec fn attempted_bytes(err: std::string::FromUtf8Error) -> Seq<u8>;

/// Calls `String::from_utf8`, which makes a text of its UTF-8 encoding and fails if and only if
/// the bytes are none. The error holds the bytes.
#[verifier::external_body]
fn utf8_text(bytes: Vec<u8>) -> (r: Result<String, std::string::FromUtf8Error>)
    ensures
        r is Ok <==> valid_utf8(bytes@),
        r matches Ok(text) ==> encode_utf8(text@) == bytes@,
        r matches Err(err) ==> attempted_bytes(err) == bytes@,
{
    String::from_utf8(bytes)
}

/// Why a message holds no command.
pub enum CommandFault {
    /// These bytes are no text.
    NoText(Seq<u8>),
    /// The message closes the connection.
    Closed,
    /// The message is of another kind.
    WrongMessage,
}

impl CommandFault {
    /// Whether `err` reports this fault.
    pub open spec fn reported_by(self, err: ServerError) -> bool {
        match self {
            CommandFault::NoText(bytes) => err matches ServerError::Utf8Error(reason)
                && attempted_bytes(reason) == bytes,
            CommandFault::Closed => err == ServerError::CloseWebsocket,
            CommandFault::WrongMessage => err == ServerError::ReadCommand,
        }
    }
}

/// Why a message holds no command, where it holds none.
pub open spec fn command_fault(msg: Message) -> Option<CommandFault> {
    match msg {
        Message::Binary(bytes) => if valid_utf8(bytes@) {
            None
        } else {
            Some(CommandFault::NoText(bytes@))
        },
        Message::Close(_) => Some(CommandFault::Closed),
        _ => Some(CommandFault::WrongMessage),
    }
}

/// Reads the command in a message: a binary message holds it in UTF-8.
pub fn read_command(msg: Message) -> (r: Result<String, ServerError>)
    ensures
        match command_fault(msg) {
            None => r matches Ok(cmd) && encode_utf8(cmd@) == msg.data(),
            Some(fault) => r matches Err(err) && fault.reported_by(err),
        },
{
    match msg {
        Message::Binary(bytes) => match utf8_text(bytes) {
            Ok(cmd) => Ok(cmd),
            Err(err) => Err(ServerError::Utf8Error(err)),
        },
        Message::Close(_) => Err(ServerError::CloseWebsocket),
        _ => Err(ServerError::ReadCommand),
    }
}

/// The text that a host is answered: the output of its command, or the error.
pub open spec fn answer(executed: Result<String, ShellError>) -> Seq<char> {
    match executed {
        Ok(out) => out@,
        Err(err) => "Shell error: "@ + err.text() + "\n"@,
    }
}

/// Writes the text that a host is answered.
pub fn answer_text(executed: Result<String, ShellError>) -> (r: String)
    ensures
        r@ == answer(executed),
{
    match executed {
        Ok(out) => out,
        Err(err) => "Shell error: ".to_owned().concat(err.message().as_str()).concat("\n"),
    }
}

/// Serves one host: it executes its commands one after the other.
#[derive(Clone, Copy, Debug, PartialEq, Eq, Structural)]
pub enum ServerConnection {
    /// Waits for the WebSocket handshake.
    Accepting,
    /// Waits for a command.
    Receiving,
    /// Waits until the command is executed.
    Executing,
    /// Waits until the answer is sent.
    Sending,
    /// Waits until the connection is closed.
    Closing,
    /// Is done.
    Returned,
}

/// What a [`ServerConnection`] is told.
#[derive(Debug)]
pub enum ServerConnectionEvent {
    /// The outcome of the WebSocket handshake.
    Accepted(Result<(), TransportError>),
    /// The next message, an error in its place, or the end of the messages.
    Received(Option<Result<Message, TransportError>>),
    /// The output of the command, or why it was not executed.
    Executed(Result<String, ShellError>),
    /// The outcome of [`ServerConnectionAction::Send`].
    Sent(Result<(), TransportError>),
    /// The outcome of [`ServerConnectionAction::Close`].
    Closed(Result<(), TransportError>),
}

/// What a [`ServerConnection`] asks for.
#[derive(Debug)]
pub enum ServerConnectionAction {
    /// Wait for the next message.
    Receive,
    /// Execute a command.
    Execute(String),
    /// Send a message.
    Send(Message),
    /// Close the connection.
    Close,
    /// End with this result.
    Return(Result<(), ServerError>),
    /// Go on waiting: the event was not the one that is waited for.
    Ignore,
}

/// The content of a [`ServerConnectionAction`].
pub enum ServerRequest {
    /// Wait for the next message.
    Receive,
    /// Execute the command with this UTF-8 encoding.
    Execute(Seq<u8>),
    /// Send a binary message with this content.
    SendBinary(Seq<u8>),
    /// Send this message, which is not a binary one.
    SendOther(Message),
    /// Close the connection.
    Close,
    /// End with the error for bytes that are no text.
    ReturnNoText(Seq<u8>),
    /// End with this result, which is any other one.
    Return(Result<(), ServerError>),
    /// Go on waiting.
    Ignore,
}

impl View for ServerConnectionAction {
    type V = ServerRequest;

    open spec fn view(&self) -> ServerRequest {
        match self {
            ServerConnectionAction::Receive => ServerRequest::Receive,
            ServerConnectionAction::Execute(cmd) => ServerRequest::Execute(encode_utf8(cmd@)),
            ServerConnectionAction::Send(Message::Binary(data)) => ServerRequest::SendBinary(data@),
            ServerConnectionAction::Send(msg) => ServerRequest::SendOther(*msg),
            ServerConnectionAction::Close => ServerRequest::Close,
            ServerConnectionAction::Return(Err(ServerError::Utf8Error(err))) =>
                ServerRequest::ReturnNoText(attempted_bytes(*err)),
            ServerConnectionAction::Return(res) => ServerRequest::Return(*res),
            ServerConnectionAction::Ignore => ServerRequest::Ignore,
        }
    }
}

/// The result of an operation on the connection.
pub open spec fn transported(result: Result<(), TransportError>) -> Result<(), ServerError> {
    match result {
        Ok(()) => Ok(()),
        Err(err) => Err(ServerError::Transport(err)),
    }
}

/// How a [`ServerConnection`] goes on: its next state, and what it asks for.
pub open spec fn server_connection_next(
    task: ServerConnection,
    event: ServerConnectionEvent,
) -> (ServerConnection, ServerRequest) {
    match (task, event) {
        (ServerConnection::Accepting, ServerConnectionEvent::Accepted(Ok(()))) => (
            ServerConnection::Receiving,
            ServerRequest::Receive,
        ),
        (ServerConnection::Accepting, ServerConnectionEvent::Accepted(Err(_))) => (
            ServerConnection::Returned,
            ServerRequest::Return(Err(ServerError::WebSocketHandshake)),
        ),
        (ServerConnection::Receiving, ServerConnectionEvent::Received(None)) => (
            ServerConnection::Closing,
            ServerRequest::Close,
        ),
        (ServerConnection::Receiving, ServerConnectionEvent::Received(Some(Err(err)))) => (
            ServerConnection::Returned,
            ServerRequest::Return(Err(ServerError::Transport(err))),
        ),
        (ServerConnection::Receiving, ServerConnectionEvent::Received(Some(Ok(msg)))) =>
        match command_fault(msg) {
            None => (ServerConnection::Executing, ServerRequest::Execute(msg.data())),
            Some(CommandFault::NoText(bytes)) => (
                ServerConnection::Returned,
                ServerRequest::ReturnNoText(bytes),
            ),
            Some(CommandFault::Closed) => (
                ServerConnection::Returned,
                ServerRequest::Return(Err(ServerError::CloseWebsocket)),
            ),
            Some(CommandFault::WrongMessage) => (
                ServerConnection::Returned,
                ServerRequest::Return(Err(ServerError::ReadCommand)),
            ),
        },
        (ServerConnection::Executing, ServerConnectionEvent::Executed(executed)) => (
            ServerConnection::Sending,
            ServerRequest::SendBinary(encode_utf8(answer(executed))),
        ),
        (ServerConnection::Sending, ServerConnectionEvent::Sent(Ok(()))) => (
            ServerConnection::Receiving,
            ServerRequest::Receive,
        ),
        (ServerConnection::Sending, ServerConnectionEvent::Sent(Err(err))) => (
            ServerConnection::Returned,
            ServerRequest::Return(Err(ServerError::Transport(err))),
        ),
        (ServerConnection::Closing, ServerConnectionEvent::Closed(res)) => (
            ServerConnection::Returned,
            ServerRequest::Return(transported(res)),
        ),
        _ => (task, ServerRequest::Ignore),
    }
}

impl ServerConnection {
    /// A connection that starts with the WebSocket handshake.
    pub fn new() -> (r: Self)
        ensures
            r == ServerConnection::Accepting,
    {
        ServerConnection::Accepting
    }

    /// Takes an event.
    pub fn impl_handle_connection(&mut self, event: ServerConnectionEvent) -> (r:
        ServerConnectionAction)
        ensures
            (*final(self), r@) == server_connection_next(*old(self), event),
    {
        match (*self, event) {
            (ServerConnection::Accepting, ServerConnectionEvent::Accepted(Ok(()))) => {
                *self = ServerConnection::Receiving;
                ServerConnectionAction::Receive
            },
            (ServerConnection::Accepting, ServerConnectionEvent::Accepted(Err(_))) => {
                *self = ServerConnection::Returned;
                ServerConnectionAction::Return(Err(ServerError::WebSocketHandshake))
            },
            (ServerConnection::Receiving, ServerConnectionEvent::Received(None)) => {
                *self = ServerConnection::Closing;
                ServerConnectionAction::Close
            },
            (ServerConnection::Receiving, ServerConnectionEvent::Received(Some(Err(err)))) => {
                *self = ServerConnection::Returned;
                ServerConnectionAction::Return(Err(ServerError::Transport(err)))
            },
            (ServerConnection::Receiving, ServerConnectionEvent::Received(Some(Ok(msg)))) => {
                match read_command(msg) {
                    Ok(cmd) => {
                        *self = ServerConnection::Executing;
                        ServerConnectionAction::Execute(cmd)
                    },
                    Err(err) => {
                        *self = ServerConnection::Returned;
                        ServerConnectionAction::Return(Err(err))
                    },
                }
            },
            (ServerConnection::Executing, ServerConnectionEvent::Executed(executed)) => {
                *self = ServerConnection::Sending;
                let text = answer_text(executed);
                ServerConnectionAction::Send(Message::Binary(text.as_str().as_bytes_vec()))
            },
            (ServerConnection::Sending, ServerConnectionEvent::Sent(Ok(()))) => {
                *self = ServerConnection::Receiving;
                ServerConnectionAction::Receive
            },
            (ServerConnection::Sending, ServerConnectionEvent::Sent(Err(err))) => {
                *self = ServerConnection::Returned;
                ServerConnectionAction::Return(Err(ServerError::Transport(err)))
            },
            (ServerConnection::Closing, ServerConnectionEvent::Closed(Ok(()))) => {
                *self = ServerConnection::Returned;
                ServerConnectionAction::Return(Ok(()))
            },
            (ServerConnection::Closing, ServerConnectionEvent::Closed(Err(err))) => {
                *self = ServerConnection::Returned;
                ServerConnectionAction::Return(Err(ServerError::Transport(err)))
            },
            _ => ServerConnectionAction::Ignore,
        }
    }
}

/// The text for a file that cannot be read holds the whole path.
pub proof fn law_server_error_texts(err: IoError, file: String)
    ensures
        (ServerError::ReadFile { err, file }).text() == "Failed to read "@ + file@
            + " from file"@,
{
}

/// What a server does with what it is told: it accepts connections exactly when the address is
/// bound, and ends with the first error that is reported.
pub proof fn law_server_ends_with_the_first_error(
    task: ServerTask,
    event: ServerEvent,
    err: ServerError,
)
    ensures
        ({
            let (next, action) = server_next(task, event);
            &&& action is Listen <==> task == ServerTask::Binding && (
            event matches ServerEvent::Bound(Ok(_)))
            &&& action == ServerAction::Terminate(err) <==> task == ServerTask::Listening && event
                == ServerEvent::Reported(Some(err))
            &&& (action matches ServerAction::Return(Ok(_))) <==> task == ServerTask::Listening
                && event == ServerEvent::Reported(None)
            &&& action == ServerAction::Return(Err(err)) <==> task == ServerTask::Binding && event
                == ServerEvent::Bound(Err(err))
            &&& next == match action {
                ServerAction::Listen => ServerTask::Listening,
                ServerAction::Terminate(_) => ServerTask::Returned,
                ServerAction::Return(_) => ServerTask::Returned,
                ServerAction::Ignore => task,
            }
        }),
{
}

/// Every error of a connection ends the server, except for a connection that the host closed and
/// for a host that is gone.
pub proof fn law_fatal_errors(result: Result<(), ServerError>, err: ServerError)
    ensures
        fatal_error(result) == Some(err) <==> result == Err::<(), ServerError>(err) && !(err
            is CloseWebsocket) && !(err matches ServerError::Transport(e) && (e
            == TransportError::ResetWithoutClosingHandshake || (e matches TransportError::Io(io)
            && io.kind is UnexpectedEof))),
{
}

/// Every binary message that is a text in UTF-8 holds a command, whatever the text; any other
/// binary message is reported with its bytes, a close message as the end of the connection, and
/// any other message as no command.
pub proof fn law_which_messages_hold_commands(msg: Message, bytes: Seq<u8>, err: ServerError)
    ensures
        command_fault(msg) is None <==> msg is Binary && valid_utf8(msg.data()),
        command_fault(msg) == Some(CommandFault::NoText(bytes)) <==> msg is Binary && !valid_utf8(
            msg.data(),
        ) && bytes == msg.data(),
        command_fault(msg) == Some(CommandFault::Closed) <==> msg is Close,
        command_fault(msg) == Some(CommandFault::WrongMessage) <==> !(msg is Binary) && !(msg
            is Close),
        CommandFault::NoText(bytes).reported_by(err) <==> (err matches ServerError::Utf8Error(e)
            && attempted_bytes(e) == bytes),
        CommandFault::Closed.reported_by(err) <==> err == ServerError::CloseWebsocket,
        CommandFault::WrongMessage.reported_by(err) <==> err == ServerError::ReadCommand,
{
}

/// A host is answered with all of the output of its command, or with the text of the error.
pub proof fn law_answers(out: String, err: ShellError)
    ensures
        answer(Ok(out)) == out@,
        answer(Err(err)) == "Shell error: "@ + err.text() + "\n"@,
{
}

/// What an action asks for is what the action holds, all of it.
pub proof fn law_server_requests(
    action: ServerConnectionAction,
    bytes: Seq<u8>,
    res: Result<(), ServerError>,
)
    ensures
        action@ == ServerRequest::Execute(bytes) <==> (
        action matches ServerConnectionAction::Execute(cmd) && encode_utf8(cmd@) == bytes),
        action@ == ServerRequest::SendBinary(bytes) <==> (
        action matches ServerConnectionAction::Send(Message::Binary(data)) && data@ == bytes),
        action@ is SendOther <==> (action matches ServerConnectionAction::Send(msg) && !(msg
            is Binary)),
        action@ == ServerRequest::ReturnNoText(bytes) <==> (
        action matches ServerConnectionAction::Return(Err(ServerError::Utf8Error(e)))
            && attempted_bytes(e) == bytes),
        action@ == ServerRequest::Return(res) <==> action == ServerConnectionAction::Return(res)
            && !(res matches Err(ServerError::Utf8Error(_))),
        action@ is Receive <==> action is Receive,
        action@ is Close <==> action is Close,
        action@ is Ignore <==> action is Ignore,
{
}

/// What the server of a host does with what it is told. It executes exactly the commands that it
/// receives, and answers each of them with exactly its answer; it ends with the errors that it is
/// told, with that of a message that holds no command, and with no others.
pub proof fn law_host_is_served(
    task: ServerConnection,
    event: ServerConnectionEvent,
    bytes: Seq<u8>,
    err: ServerError,
)
    ensures
        ({
            let (next, request) = server_connection_next(task, event);
            let receiving = task == ServerConnection::Receiving;
            &&& request == ServerRequest::Execute(bytes) <==> receiving && (
            event matches ServerConnectionEvent::Received(Some(Ok(msg))) && msg is Binary
                && valid_utf8(msg.data()) && bytes == msg.data())
            &&& request == ServerRequest::SendBinary(bytes) <==> task == ServerConnection::Executing
                && (event matches ServerConnectionEvent::Executed(executed) && bytes == encode_utf8(
                match executed {
                    Ok(out) => out@,
                    Err(e) => "Shell error: "@ + e.text() + "\n"@,
                },
            ))
            &&& !(request is SendOther)
            &&& request is Receive <==> {
                ||| task == ServerConnection::Accepting && (
                event matches ServerConnectionEvent::Accepted(Ok(_)))
                ||| task == ServerConnection::Sending && (event matches ServerConnectionEvent::Sent(
                    Ok(_),
                ))
            }
            &&& request is Close <==> receiving && event == ServerConnectionEvent::Received(None)
            &&& request == ServerRequest::ReturnNoText(bytes) <==> receiving && (
            event matches ServerConnectionEvent::Received(Some(Ok(msg))) && msg is Binary
                && !valid_utf8(msg.data()) && bytes == msg.data())
            &&& (request matches ServerRequest::Return(Ok(_))) <==> task
                == ServerConnection::Closing && (event matches ServerConnectionEvent::Closed(Ok(_)))
            &&& request == ServerRequest::Return(Err(err)) <==> {
                ||| task == ServerConnection::Accepting && (
                event matches ServerConnectionEvent::Accepted(Err(_)) && err
                    == ServerError::WebSocketHandshake)
                ||| receiving && (event matches ServerConnectionEvent::Received(Some(Err(e))) && err
                    == ServerError::Transport(e))
                ||| receiving && (event matches ServerConnectionEvent::Received(Some(Ok(msg)))
                    && msg is Close && err == ServerError::CloseWebsocket)
                ||| receiving && (event matches ServerConnectionEvent::Received(Some(Ok(msg)))
                    && !(msg is Close) && !(msg is Binary) && err == ServerError::ReadCommand)
                ||| task == ServerConnection::Sending && (event matches ServerConnectionEvent::Sent(
                    Err(e),
                ) && err == ServerError::Transport(e))
                ||| task == ServerConnection::Closing && (
                event matches ServerConnectionEvent::Closed(Err(e)) && err
                    == ServerError::Transport(e))
            }
            &&& next == match request {
                ServerRequest::Receive => ServerConnection::Receiving,
                ServerRequest::Execute(_) => ServerConnection::Executing,
                ServerRequest::SendBinary(_) => ServerConnection::Sending,
                ServerRequest::SendOther(_) => ServerConnection::Sending,
                ServerRequest::Close => ServerConnection::Closing,
                ServerRequest::ReturnNoText(_) => ServerConnection::Returned,
                ServerRequest::Return(_) => ServerConnection::Returned,
                ServerRequest::Ignore => task,
            }
        }),
{
}

/// Apart from the errors whose text names something, the text of an error depends on its kind
/// alone.
pub proof fn law_fixed_server_error_texts(err: ServerError)
    ensures
        err is Bind ==> err.text() == "Failed to bind"@,
        err is AcceptConnection ==> err.text() == "Failed to accept a new connection"@,
        err is PeerAddr ==> err.text() == "Connected streams should have a peer address"@,
        err is WebSocketHandshake ==> err.text() == "Error during the websocket handshake occurred"@,
        err is ReadCommand ==> err.text() == "Error while reading the shell command from websocket"@,
        err is Utf8Error ==> err.text() == "Error marshaling to UTF8"@,
        err is Transport ==> err.text() == "Trasport error from Tungstenite"@,
        err is ShellError ==> err.text() == "Error while precessing the shell command"@,
        err is CloseWebsocket ==> err.text() == "Close websocket connection"@,
        err is RustTls ==> err.text() == "Error while establishing a TLS connection"@,
{
}

} // verus!
