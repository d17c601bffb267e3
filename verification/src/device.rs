//! Device.

use vstd::prelude::*;

use crate::address::{AddrParseError, IpAddr};
use crate::astarte;
use crate::astarte::{
    address_text, told_host, told_url, url_scheme, AstarteMap, AstarteValue, DeviceConfig,
    HandleAstarteConnection, HostUrl, Scheme,
};
use crate::protocol::{DeviceMsg, HostMsg, Message, Reply};
use crate::shell::ShellError;
use crate::text::same_text;
use crate::tls;
use crate::transport::{CodecError, IoError, TaskError, TransportError};

verus! {

/// How many bytes of the output of a command are sent at once at most.
pub const OUTPUT_CAPACITY: usize = 1024;

/// Device errors.
#[derive(Debug)]
pub enum DeviceError {
    /// Error of the connection.
    Transport(TransportError),
    /// Error while trying to connect with the host.
    WebSocketConnect(TransportError),
    /// Wrong scheme received.
    WrongScheme(String),
    /// Error while reading the output of the process that executes a command.
    ChildStdout(IoError),
    /// Error while sending a URL across tasks; holds the URL.
    ChannelUrl(HostUrl),
    /// Error while sending a message of the host across tasks; holds the message.
    ChannelMsg(HostMsg),
    /// Error while joining a task.
    Join(TaskError),
    /// Error of the communication with Astarte.
    Astarte {
        /// The reason.
        err: astarte::Error,
        /// What the device was doing.
        msg: String,
    },
    /// Shell error.
    Shell(ShellError),
    /// Wrong WebSocket message type.
    WrongWsMessage(Message),
    /// A message could not be decoded.
    Deserialize(CodecError),
    /// A message could not be encoded.
    Serialize(CodecError),
    /// TLS error.
    Tls(tls::Error),
}

impl DeviceError {
    /// The text that describes this error.
    pub open spec fn text(self) -> Seq<char> {
        match self {
            DeviceError::Transport(_) => "Trasport error from Tungstenite."@,
            DeviceError::WebSocketConnect(_) => "Error while trying to connect with the host."@,
            DeviceError::WrongScheme(scheme) => "Wrong scheme, "@ + scheme@ + "."@,
            DeviceError::ChildStdout(_) => "Error while reading from child process's stdout."@,
            DeviceError::ChannelUrl(_) => "Error while sending an URL across tasks."@,
            DeviceError::ChannelMsg(_) => "Error while sending HostMsg over channel."@,
            DeviceError::Join(_) => "Error while joining a tokio task."@,
            DeviceError::Astarte { err, msg } => "Astarte error, "@ + msg@ + "."@,
            DeviceError::Shell(_) => "Shell error."@,
            DeviceError::WrongWsMessage(_) => "Wrong WebSocket message type."@,
            DeviceError::Deserialize(_) => "Couldn't deserialize from BSON."@,
            DeviceError::Serialize(_) => "Couldn't serialize to BSON."@,
            DeviceError::Tls(_) => "Wrong item."@,
        }
    }

    /// Describes the error.
    pub fn message(&self) -> (r: String)
        ensures
            r@ == self.text(),
    {
        match self {
            DeviceError::Transport(_) => "Trasport error from Tungstenite.".to_owned(),
            DeviceError::WebSocketConnect(_) => {
                "Error while trying to connect with the host.".to_owned()
            },
            DeviceError::WrongScheme(scheme) => {
                "Wrong scheme, ".to_owned().concat(scheme.as_str()).concat(".")
            },
            DeviceError::ChildStdout(_) => {
                "Error while reading from child process's stdout.".to_owned()
            },
            DeviceError::ChannelUrl(_) => "Error while sending an URL across tasks.".to_owned(),
            DeviceError::ChannelMsg(_) => "Error while sending HostMsg over channel.".to_owned(),
            DeviceError::Join(_) => "Error while joining a tokio task.".to_owned(),
            DeviceError::Astarte { err: _, msg } => {
                "Astarte error, ".to_owned().concat(msg.as_str()).concat(".")
            },
            DeviceError::Shell(_) => "Shell error.".to_owned(),
            DeviceError::WrongWsMessage(_) => "Wrong WebSocket message type.".to_owned(),
            DeviceError::Deserialize(_) => "Couldn't deserialize from BSON.".to_owned(),
            DeviceError::Serialize(_) => "Couldn't serialize to BSON.".to_owned(),
            DeviceError::Tls(_) => "Wrong item.".to_owned(),
        }
    }
}

/// A device: its connection with Astarte, and the file with the certificates that it trusts. `A`
/// stands for the connection, `P` for a path.
#[derive(Clone, Debug)]
pub struct Device<A, P> {
    /// The connection with Astarte.
    pub astarte_device: A,
    /// The file with the CA certificates for connections over TLS.
    pub ca_cert_file: Option<P>,
}

impl<A, P> Device<A, P> {
    /// The configuration that a device is created with, or why there is none.
    pub fn configured(cfg: Result<DeviceConfig, astarte::Error>) -> (r: Result<
        DeviceConfig,
        DeviceError,
    >)
        ensures
            match cfg {
                Ok(cfg) => r == Ok::<DeviceConfig, DeviceError>(cfg),
                Err(err) => r matches Err(DeviceError::Astarte { err: e, msg }) && e == err && msg@
                    == "wrong device config"@,
            },
    {
        match cfg {
            Ok(cfg) => Ok(cfg),
            Err(err) => Err(DeviceError::Astarte { err, msg: "wrong device config".to_owned() }),
        }
    }

    /// The device, once it is connected with Astarte. It trusts no certificates of its own.
    pub fn new(astarte_device: Result<A, astarte::Error>) -> (r: Result<Self, DeviceError>)
        ensures
            match astarte_device {
                Ok(a) => r matches Ok(device) && device.astarte_device == a
                    && device.ca_cert_file is None,
                Err(err) => r matches Err(DeviceError::Astarte { err: e, msg }) && e == err && msg@
                    == "failed to create the astarte device"@,
            },
    {
        match astarte_device {
            Ok(astarte_device) => Ok(Device { astarte_device, ca_cert_file: None }),
            Err(err) => Err(
                DeviceError::Astarte { err, msg: "failed to create the astarte device".to_owned() },
            ),
        }
    }

    /// Provides the CA certificates for connections over TLS.
    pub fn with_tls(&mut self, ca_cert_file: Option<P>)
        requires
            ca_cert_file is Some,
        ensures
            final(self).ca_cert_file == ca_cert_file,
            final(self).astarte_device == old(self).astarte_device,
    {
        self.ca_cert_file = ca_cert_file;
    }

    /// The result of a device, once all its connections are over, given how the task that handles
    /// the Astarte events ended.
    pub fn start(astarte_task: TaskEnd) -> (r: Result<(), DeviceError>)
        ensures
            match astarte_task {
                TaskEnd::Finished(res) => r == res,
                TaskEnd::Failed(err) => r == Err::<(), DeviceError>(DeviceError::Join(err)),
            },
    {
        match astarte_task {
            TaskEnd::Finished(res) => res,
            TaskEnd::Failed(err) => Err(DeviceError::Join(err)),
        }
    }
}

/// How a connection with a host is opened.
#[derive(Clone, Copy, Debug, PartialEq, Eq, Structural)]
pub enum WsRoute {
    /// Over TLS.
    Tls,
    /// Over plain TCP.
    Plain,
}

/// How the connection for a scheme is opened; without TLS, `wss` is refused as any other scheme.
pub open spec fn ws_route(scheme: Seq<char>, tls_enabled: bool) -> Option<WsRoute> {
    if scheme == "wss"@ && tls_enabled {
        Some(WsRoute::Tls)
    } else if scheme == "ws"@ {
        Some(WsRoute::Plain)
    } else {
        None
    }
}

/// Decides how the connection with a host is opened.
pub fn create_ws_stream(url: &HostUrl, tls_enabled: bool) -> (r: Result<WsRoute, DeviceError>)
    ensures
        match ws_route(url_scheme(url@), tls_enabled) {
            Some(route) => r == Ok::<WsRoute, DeviceError>(route),
            None => r matches Err(DeviceError::WrongScheme(scheme)) && scheme@ == url_scheme(url@),
        },
{
    let scheme = url.scheme();
    if tls_enabled && same_text(scheme, "wss") {
        Ok(WsRoute::Tls)
    } else if same_text(scheme, "ws") {
        Ok(WsRoute::Plain)
    } else {
        Err(DeviceError::WrongScheme(scheme.to_owned()))
    }
}

/// A device with TLS enabled opens a connection with every host that it is told: over TLS where
/// the scheme is `wss`, else over plain TCP.
pub proof fn law_told_hosts_can_be_reached(
    map: Map<Seq<char>, AstarteValue>,
    parsed: Result<IpAddr, AddrParseError>,
    href: Seq<char>,
)
    requires
        told_host(map, parsed) matches Ok(data) && url_scheme(href) == data.scheme.text(),
    ensures
        ws_route(url_scheme(href), true) == Some(
            if told_host(map, parsed)->Ok_0.scheme == Scheme::WsSecure {
                WsRoute::Tls
            } else {
                WsRoute::Plain
            },
        ),
{
    reveal_strlit("ws");
    reveal_strlit("wss");
    assert("ws"@.len() != "wss"@.len());
}

/// An event of Astarte.
pub enum AstarteEvent {
    /// An object, with the path that it was sent to.
    Object {
        /// The path.
        path: String,
        /// The entries of the object.
        map: AstarteMap,
    },
    /// Data that is not an object.
    Individual,
    /// The connection with Astarte is interrupted.
    ConnectionError,
    /// Any other error, with its description.
    Failed(String),
}

/// What the task that handles the Astarte events does next.
#[derive(Debug)]
pub enum AstarteAction {
    /// Wait for the next event.
    Wait,
    /// Have a connection opened.
    SendUrl(HostUrl),
    /// End with this error: no more connections are opened.
    Return(DeviceError),
}

/// Whether `action` ends the task, with the message `text` and an error that `err` accepts.
pub open spec fn fails_with(
    action: AstarteAction,
    text: Seq<char>,
    err: spec_fn(astarte::Error) -> bool,
) -> bool {
    action matches AstarteAction::Return(DeviceError::Astarte { err: e, msg }) && msg@ == text
        && err(e)
}

/// The text of an event that has to be parsed as an IP address before the event is handled.
pub fn event_address(event: &AstarteEvent) -> (r: Option<String>)
    ensures
        match *event {
            AstarteEvent::Object { path, map } => match r {
                Some(text) => astarte::address_entry(map@) == Some(AstarteValue::Text(text@))
                    && !astarte::is_local_name(text@),
                None => !(astarte::address_entry(map@) matches Some(AstarteValue::Text(text))
                    && !astarte::is_local_name(text)),
            },
            _ => r is None,
        },
{
    match event {
        AstarteEvent::Object { path: _, map } => address_text(map),
        _ => None,
    }
}

/// Handles an Astarte event, where `parsed` is what the text of [`event_address`] parses to. An
/// object for the path `/rshell` tells the host to connect with; an interrupted connection is
/// waited for; anything else is an error.
pub fn handle_astarte_events(
    event: AstarteEvent,
    parsed: Result<IpAddr, AddrParseError>,
) -> (r: AstarteAction)
    ensures
        match event {
            AstarteEvent::Object { path, map } => if path@ == "/rshell"@ {
                match told_url(map@, parsed) {
                    Ok(href) => r matches AstarteAction::SendUrl(url) && url@ == href
                        && url_scheme(href) == told_host(map@, parsed)->Ok_0.scheme.text(),
                    Err(fault) => fails_with(
                        r,
                        "failed to retrieve the url"@,
                        |err: astarte::Error| fault.reported_by(err),
                    ),
                }
            } else {
                fails_with(
                    r,
                    "received wrong astarte type"@,
                    |err: astarte::Error| err == astarte::Error::AstarteWrongAggregation,
                )
            },
            AstarteEvent::Individual => fails_with(
                r,
                "received wrong astarte type"@,
                |err: astarte::Error| err == astarte::Error::AstarteWrongAggregation,
            ),
            AstarteEvent::ConnectionError => r == AstarteAction::Wait,
            AstarteEvent::Failed(detail) => fails_with(
                r,
                "failed to handle astarte event"@,
                |err: astarte::Error| err == astarte::Error::AstarteHandleEvent(detail),
            ),
        },
{
    match event {
        AstarteEvent::Object { path, map } => {
            if same_text(path.as_str(), "/rshell") {
                let handle = HandleAstarteConnection;
                match handle.retrieve_url(&map, parsed) {
                    Ok(url) => AstarteAction::SendUrl(url),
                    Err(err) => AstarteAction::Return(
                        DeviceError::Astarte { err, msg: "failed to retrieve the url".to_owned() },
                    ),
                }
            } else {
                AstarteAction::Return(
                    DeviceError::Astarte {
                        err: astarte::Error::AstarteWrongAggregation,
                        msg: "received wrong astarte type".to_owned(),
                    },
                )
            }
        },
        AstarteEvent::Individual => AstarteAction::Return(
            DeviceError::Astarte {
                err: astarte::Error::AstarteWrongAggregation,
                msg: "received wrong astarte type".to_owned(),
            },
        ),
        AstarteEvent::ConnectionError => AstarteAction::Wait,
        AstarteEvent::Failed(detail) => AstarteAction::Return(
            DeviceError::Astarte {
                err: astarte::Error::AstarteHandleEvent(detail),
                msg: "failed to handle astarte event".to_owned(),
            },
        ),
    }
}

/// Goes on after [`AstarteAction::SendUrl`]: a URL that was not taken is handed back.
pub fn url_sent(taken: Result<(), HostUrl>) -> (r: AstarteAction)
    ensures
        r == match taken {
            Ok(()) => AstarteAction::Wait,
            Err(url) => AstarteAction::Return(DeviceError::ChannelUrl(url)),
        },
{
    match taken {
        Ok(()) => AstarteAction::Wait,
        Err(url) => AstarteAction::Return(DeviceError::ChannelUrl(url)),
    }
}

/// Opens a connection for every URL that arrives; once no more arrive, it waits until all the
/// connections are over.
#[derive(Clone, Copy, Debug, PartialEq, Eq, Structural)]
pub enum ConnectionSet {
    /// Waits for a URL.
    Receiving,
    /// Waits for a connection to end.
    Joining,
    /// Is done.
    Returned,
}

/// What a [`ConnectionSet`] is told.
#[derive(Debug)]
pub enum ConnectionSetEvent {
    /// The next URL, or the end of the URLs.
    Url(Option<HostUrl>),
    /// How a connection ended, or that none is left.
    Joined(Option<TaskEnd>),
}

/// What a [`ConnectionSet`] asks for.
#[derive(Debug)]
pub enum ConnectionSetAction {
    /// Open a connection, then wait for the next URL.
    Spawn(HostUrl),
    /// Wait for the next connection to end.
    JoinNext,
    /// All connections are over.
    Return,
    /// Go on waiting: the event was not the one that is waited for.
    Ignore,
}

/// How a [`ConnectionSet`] goes on: its next state, and what it asks for. How a connection ends
/// makes no difference to the others.
pub open spec fn connection_set_next(set: ConnectionSet, event: ConnectionSetEvent) -> (
    ConnectionSet,
    ConnectionSetAction,
) {
    match (set, event) {
        (ConnectionSet::Receiving, ConnectionSetEvent::Url(Some(url))) => (
            ConnectionSet::Receiving,
            ConnectionSetAction::Spawn(url),
        ),
        (ConnectionSet::Receiving, ConnectionSetEvent::Url(None)) => (
            ConnectionSet::Joining,
            ConnectionSetAction::JoinNext,
        ),
        (ConnectionSet::Joining, ConnectionSetEvent::Joined(Some(_))) => (
            ConnectionSet::Joining,
            ConnectionSetAction::JoinNext,
        ),
        (ConnectionSet::Joining, ConnectionSetEvent::Joined(None)) => (
            ConnectionSet::Returned,
            ConnectionSetAction::Return,
        ),
        _ => (set, ConnectionSetAction::Ignore),
    }
}

/// How a connection ends makes no difference to the other connections of a device.
pub proof fn law_connections_are_independent(set: ConnectionSet, one: TaskEnd, other: TaskEnd)
    ensures
        connection_set_next(set, ConnectionSetEvent::Joined(Some(one))) == connection_set_next(
            set,
            ConnectionSetEvent::Joined(Some(other)),
        ),
{
}

impl ConnectionSet {
    /// A set that starts by waiting for a URL.
    pub fn new() -> (r: Self)
        ensures
            r == ConnectionSet::Receiving,
    {
        ConnectionSet::Receiving
    }

    /// Takes an event.
    pub fn handle_connections(&mut self, event: ConnectionSetEvent) -> (r: ConnectionSetAction)
        ensures
            (*final(self), r) == connection_set_next(*old(self), event),
    {
        match (*self, event) {
            (ConnectionSet::Receiving, ConnectionSetEvent::Url(Some(url))) => {
                ConnectionSetAction::Spawn(url)
            },
            (ConnectionSet::Receiving, ConnectionSetEvent::Url(None)) => {
                *self = ConnectionSet::Joining;
                ConnectionSetAction::JoinNext
            },
            (ConnectionSet::Joining, ConnectionSetEvent::Joined(Some(_))) => {
                ConnectionSetAction::JoinNext
            },
            (ConnectionSet::Joining, ConnectionSetEvent::Joined(None)) => {
                *self = ConnectionSet::Returned;
                ConnectionSetAction::Return
            },
            _ => ConnectionSetAction::Ignore,
        }
    }
}

/// Receives the messages of a host: it interrupts the current command where a CTRL C arrives and
/// passes every other message on to the [`MessageTask`].
#[derive(Clone, Copy, Debug, PartialEq, Eq, Structural)]
pub enum ConnectionTask {
    /// Waits for a message of the host.
    Receiving,
    /// Waits until the current command is interrupted.
    Interrupting,
    /// Waits until the message task has been passed a message.
    Queueing,
    /// Waits until the connection is closed.
    Closing,
    /// Waits for the message task to end.
    Joining,
    /// Is done.
    Returned,
}

/// How the message task ended.
#[derive(Debug)]
pub enum TaskEnd {
    /// With a result of its own.
    Finished(Result<(), DeviceError>),
    /// Without one.
    Failed(TaskError),
}

/// What a [`ConnectionTask`] is told.
#[derive(Debug)]
pub enum ConnectionEvent {
    /// The next message of the host, an error in its place, or the end of the messages.
    Received(Option<Result<HostMsg, DeviceError>>),
    /// The outcome of [`ConnectionAction::Interrupt`].
    Interrupted(Result<(), ShellError>),
    /// The outcome of [`ConnectionAction::Queue`]: a message that was not taken is handed back.
    Queued(Result<(), HostMsg>),
    /// The outcome of [`ConnectionAction::Close`].
    Closed(Result<(), DeviceError>),
    /// How the message task ended.
    Joined(TaskEnd),
}

/// What a [`ConnectionTask`] asks for.
#[derive(Debug)]
pub enum ConnectionAction {
    /// Wait for the next message of the host.
    Receive,
    /// Interrupt the current command.
    Interrupt,
    /// Pass a message on to the message task.
    Queue(HostMsg),
    /// Send a close message and close the connection: see [`CloseConnection`].
    Close,
    /// Abort the message task, then wait for it.
    AbortAndJoin,
    /// Wait for the message task.
    Join,
    /// End with this result.
    Return(Result<(), DeviceError>),
    /// Go on waiting: the event was not the one that is waited for.
    Ignore,
}

/// How a [`ConnectionTask`] goes on: its next state, what it asks for, and the new value of the
/// flag that tells the message task to stop sending the output of the current command.
pub open spec fn connection_next(task: ConnectionTask, event: ConnectionEvent, stop: bool) -> (
    ConnectionTask,
    ConnectionAction,
    bool,
) {
    match (task, event) {
        (ConnectionTask::Receiving, ConnectionEvent::Received(None)) => (
            ConnectionTask::Joining,
            ConnectionAction::Join,
            stop,
        ),
        (ConnectionTask::Receiving, ConnectionEvent::Received(Some(Err(err)))) => (
            ConnectionTask::Returned,
            ConnectionAction::Return(Err(err)),
            stop,
        ),
        (ConnectionTask::Receiving, ConnectionEvent::Received(Some(Ok(HostMsg::Ctrlc)))) => (
            ConnectionTask::Interrupting,
            ConnectionAction::Interrupt,
            stop,
        ),
        (ConnectionTask::Receiving, ConnectionEvent::Received(Some(Ok(msg)))) => (
            ConnectionTask::Queueing,
            ConnectionAction::Queue(msg),
            false,
        ),
        (ConnectionTask::Interrupting, ConnectionEvent::Interrupted(Ok(()))) => (
            ConnectionTask::Receiving,
            ConnectionAction::Receive,
            true,
        ),
        (ConnectionTask::Interrupting, ConnectionEvent::Interrupted(Err(_))) => (
            ConnectionTask::Closing,
            ConnectionAction::Close,
            stop,
        ),
        (ConnectionTask::Queueing, ConnectionEvent::Queued(Ok(()))) => (
            ConnectionTask::Receiving,
            ConnectionAction::Receive,
            stop,
        ),
        (ConnectionTask::Queueing, ConnectionEvent::Queued(Err(msg))) => (
            ConnectionTask::Returned,
            ConnectionAction::Return(Err(DeviceError::ChannelMsg(msg))),
            stop,
        ),
        (ConnectionTask::Closing, ConnectionEvent::Closed(Ok(()))) => (
            ConnectionTask::Joining,
            ConnectionAction::AbortAndJoin,
            stop,
        ),
        (ConnectionTask::Closing, ConnectionEvent::Closed(Err(err))) => (
            ConnectionTask::Returned,
            ConnectionAction::Return(Err(err)),
            stop,
        ),
        (ConnectionTask::Joining, ConnectionEvent::Joined(TaskEnd::Finished(Err(err)))) => (
            ConnectionTask::Returned,
            ConnectionAction::Return(Err(err)),
            stop,
        ),
        (ConnectionTask::Joining, ConnectionEvent::Joined(_)) => (
            ConnectionTask::Returned,
            ConnectionAction::Return(Ok(())),
            stop,
        ),
        _ => (task, ConnectionAction::Ignore, stop),
    }
}

impl ConnectionTask {
    /// A task that starts by waiting for a message.
    pub fn new() -> (r: Self)
        ensures
            r == ConnectionTask::Receiving,
    {
        ConnectionTask::Receiving
    }

    /// Takes an event, with the current value of the stop flag; the result holds what to do and
    /// the new value of the flag.
    pub fn handle_connection(&mut self, event: ConnectionEvent, stop: bool) -> (r: (
        ConnectionAction,
        bool,
    ))
        ensures
            (*final(self), r.0, r.1) == connection_next(*old(self), event, stop),
    {
        match (*self, event) {
            (ConnectionTask::Receiving, ConnectionEvent::Received(None)) => {
                *self = ConnectionTask::Joining;
                (ConnectionAction::Join, stop)
            },
            (ConnectionTask::Receiving, ConnectionEvent::Received(Some(Err(err)))) => {
                *self = ConnectionTask::Returned;
                (ConnectionAction::Return(Err(err)), stop)
            },
            (ConnectionTask::Receiving, ConnectionEvent::Received(Some(Ok(HostMsg::Ctrlc)))) => {
                *self = ConnectionTask::Interrupting;
                (ConnectionAction::Interrupt, stop)
            },
            (ConnectionTask::Receiving, ConnectionEvent::Received(Some(Ok(msg)))) => {
                *self = ConnectionTask::Queueing;
                (ConnectionAction::Queue(msg), false)
            },
            (ConnectionTask::Interrupting, ConnectionEvent::Interrupted(Ok(()))) => {
                *self = ConnectionTask::Receiving;
                (ConnectionAction::Receive, true)
            },
            (ConnectionTask::Interrupting, ConnectionEvent::Interrupted(Err(_))) => {
                *self = ConnectionTask::Closing;
                (ConnectionAction::Close, stop)
            },
            (ConnectionTask::Queueing, ConnectionEvent::Queued(Ok(()))) => {
                *self = ConnectionTask::Receiving;
                (ConnectionAction::Receive, stop)
            },
            (ConnectionTask::Queueing, ConnectionEvent::Queued(Err(msg))) => {
                *self = ConnectionTask::Returned;
                (ConnectionAction::Return(Err(DeviceError::ChannelMsg(msg))), stop)
            },
            (ConnectionTask::Closing, ConnectionEvent::Closed(Ok(()))) => {
                *self = ConnectionTask::Joining;
                (ConnectionAction::AbortAndJoin, stop)
            },
            (ConnectionTask::Closing, ConnectionEvent::Closed(Err(err))) => {
                *self = ConnectionTask::Returned;
                (ConnectionAction::Return(Err(err)), stop)
            },
            (ConnectionTask::Joining, ConnectionEvent::Joined(TaskEnd::Finished(Err(err)))) => {
                *self = ConnectionTask::Returned;
                (ConnectionAction::Return(Err(err)), stop)
            },
            (ConnectionTask::Joining, ConnectionEvent::Joined(_)) => {
                *self = ConnectionTask::Returned;
                (ConnectionAction::Return(Ok(())), stop)
            },
            _ => (ConnectionAction::Ignore, stop),
        }
    }
}

/// Closes a connection: first a close message is sent, then the connection is closed.
#[derive(Clone, Copy, Debug, PartialEq, Eq, Structural)]
pub enum CloseConnection {
    /// Has not begun.
    Starting,
    /// Waits until the close message is sent.
    Sending,
    /// Waits until the connection is closed.
    Closing,
    /// Is done.
    Returned,
}

/// What a [`CloseConnection`] is told.
#[derive(Debug)]
pub enum CloseConnectionEvent {
    /// The connection is to be closed.
    Start,
    /// The outcome of [`CloseConnectionAction::Send`].
    Sent(Result<(), TransportError>),
    /// The outcome of [`CloseConnectionAction::Close`].
    Closed(Result<(), TransportError>),
}

/// What a [`CloseConnection`] asks for.
#[derive(Debug)]
pub enum CloseConnectionAction {
    /// Send a message to the host.
    Send(Message),
    /// Close the connection.
    Close,
    /// End with this result.
    Return(Result<(), DeviceError>),
    /// Go on waiting: the event was not the one that is waited for.
    Ignore,
}

/// How a [`CloseConnection`] goes on: its next state, and what it asks for.
pub open spec fn close_connection_next(state: CloseConnection, event: CloseConnectionEvent) -> (
    CloseConnection,
    CloseConnectionAction,
) {
    match (state, event) {
        (CloseConnection::Starting, CloseConnectionEvent::Start) => (
            CloseConnection::Sending,
            CloseConnectionAction::Send(Message::Close(None)),
        ),
        (CloseConnection::Sending, CloseConnectionEvent::Sent(Ok(()))) => (
            CloseConnection::Closing,
            CloseConnectionAction::Close,
        ),
        (CloseConnection::Closing, CloseConnectionEvent::Closed(Ok(()))) => (
            CloseConnection::Returned,
            CloseConnectionAction::Return(Ok(())),
        ),
        (CloseConnection::Sending, CloseConnectionEvent::Sent(Err(err))) => (
            CloseConnection::Returned,
            CloseConnectionAction::Return(Err(DeviceError::Transport(err))),
        ),
        (CloseConnection::Closing, CloseConnectionEvent::Closed(Err(err))) => (
            CloseConnection::Returned,
            CloseConnectionAction::Return(Err(DeviceError::Transport(err))),
        ),
        _ => (state, CloseConnectionAction::Ignore),
    }
}

impl CloseConnection {
    /// A close that has not begun.
    pub fn new() -> (r: Self)
        ensures
            r == CloseConnection::Starting,
    {
        CloseConnection::Starting
    }

    /// Takes an event.
    pub fn close_connection(&mut self, event: CloseConnectionEvent) -> (r: CloseConnectionAction)
        ensures
            (*final(self), r) == close_connection_next(*old(self), event),
    {
        match (*self, event) {
            (CloseConnection::Starting, CloseConnectionEvent::Start) => {
                *self = CloseConnection::Sending;
                CloseConnectionAction::Send(Message::Close(None))
            },
            (CloseConnection::Sending, CloseConnectionEvent::Sent(Ok(()))) => {
                *self = CloseConnection::Closing;
                CloseConnectionAction::Close
            },
            (CloseConnection::Closing, CloseConnectionEvent::Closed(Ok(()))) => {
                *self = CloseConnection::Returned;
                CloseConnectionAction::Return(Ok(()))
            },
            (CloseConnection::Sending, CloseConnectionEvent::Sent(Err(err))) => {
                *self = CloseConnection::Returned;
                CloseConnectionAction::Return(Err(DeviceError::Transport(err)))
            },
            (CloseConnection::Closing, CloseConnectionEvent::Closed(Err(err))) => {
                *self = CloseConnection::Returned;
                CloseConnectionAction::Return(Err(DeviceError::Transport(err)))
            },
            _ => CloseConnectionAction::Ignore,
        }
    }
}

/// The host is told before a connection is closed: a close is asked for only once the close
/// message is sent, and a close message that is not sent ends the matter.
pub proof fn law_close_message_comes_first(state: CloseConnection, event: CloseConnectionEvent)
    ensures
        close_connection_next(state, event).1 is Close ==> state == CloseConnection::Sending
            && (event matches CloseConnectionEvent::Sent(Ok(_))),
        close_connection_next(state, event).0 == CloseConnection::Sending && state
            != CloseConnection::Sending ==> close_connection_next(state, event).1
            == CloseConnectionAction::Send(Message::Close(None)),
        state == CloseConnection::Sending ==> (event matches CloseConnectionEvent::Sent(Err(err))
            ==> close_connection_next(state, event).1 == CloseConnectionAction::Return(
            Err(DeviceError::Transport(err)),
        )),
{
}

/// Executes the commands of a host, one after the other, and answers each of them.
#[derive(Clone, Copy, Debug, PartialEq, Eq, Structural)]
pub enum MessageTask {
    /// Waits for a message that is passed on to it.
    Receiving,
    /// Waits until the connection is closed.
    Closing,
    /// Waits until a command is started.
    Executing,
    /// Waits until the error of a command is sent.
    SendingError,
    /// Waits for output of the current command.
    Streaming,
    /// Waits until output is sent.
    SendingOutput,
    /// Waits until the process of the command is forgotten.
    Emptying,
    /// Waits until the end of the output is sent.
    SendingEof,
    /// Is done.
    Returned,
}

/// What is read from the output of a command.
#[derive(Debug)]
pub enum OutputEvent {
    /// A piece of output.
    Chunk(Vec<u8>),
    /// The output is complete.
    Finished,
    /// The stop flag was found set.
    Stopped,
    /// The output cannot be read.
    Failed(IoError),
}

/// What a [`MessageTask`] is told.
#[derive(Debug)]
pub enum MessageEvent {
    /// The next message, or the end of the messages.
    Received(Option<HostMsg>),
    /// The outcome of [`MessageAction::Close`].
    Closed(Result<(), DeviceError>),
    /// The outcome of [`MessageAction::Execute`].
    Executed(Result<(), ShellError>),
    /// The outcome of [`MessageAction::ReadOutput`].
    Output(OutputEvent),
    /// The process of the command is forgotten.
    Emptied,
    /// The outcome of [`MessageAction::Send`].
    Sent(Result<(), DeviceError>),
}

/// What a [`MessageTask`] asks for.
#[derive(Debug)]
pub enum MessageAction {
    /// Wait for the next message.
    Receive,
    /// Close the connection.
    Close,
    /// Start a command.
    Execute(String),
    /// Read at most [`OUTPUT_CAPACITY`] bytes from the output of the command, unless
    /// [`poll_stop`] says to stop.
    ReadOutput,
    /// Forget the process of the command.
    Empty,
    /// Send a message to the host.
    Send(DeviceMsg),
    /// End with this result.
    Return(Result<(), DeviceError>),
    /// Go on waiting: the event was not the one that is waited for.
    Ignore,
}

/// The content of a [`MessageAction`].
pub enum MessageRequest {
    /// Wait for the next message.
    Receive,
    /// Close the connection.
    Close,
    /// Start a command.
    Execute(Seq<char>),
    /// Read from the output of the command.
    ReadOutput,
    /// Forget the process of the command.
    Empty,
    /// Send a message to the host.
    Send(Reply),
    /// End with this result.
    Return(Result<(), DeviceError>),
    /// Go on waiting.
    Ignore,
}

impl View for MessageAction {
    type V = MessageRequest;

    open spec fn view(&self) -> MessageRequest {
        match self {
            MessageAction::Receive => MessageRequest::Receive,
            MessageAction::Close => MessageRequest::Close,
            MessageAction::Execute(cmd) => MessageRequest::Execute(cmd@),
            MessageAction::ReadOutput => MessageRequest::ReadOutput,
            MessageAction::Empty => MessageRequest::Empty,
            MessageAction::Send(msg) => MessageRequest::Send(msg@),
            MessageAction::Return(res) => MessageRequest::Return(*res),
            MessageAction::Ignore => MessageRequest::Ignore,
        }
    }
}

/// What a sending [`MessageTask`] does next: it goes on unless the message was not sent.
pub open spec fn after_sending(
    sent: Result<(), DeviceError>,
    next: MessageTask,
    request: MessageRequest,
) -> (MessageTask, MessageRequest) {
    match sent {
        Ok(()) => (next, request),
        Err(err) => (MessageTask::Returned, MessageRequest::Return(Err(err))),
    }
}

/// How a [`MessageTask`] goes on: its next state, and what it asks for.
pub open spec fn message_next(task: MessageTask, event: MessageEvent) -> (
    MessageTask,
    MessageRequest,
) {
    match (task, event) {
        (MessageTask::Receiving, MessageEvent::Received(Some(HostMsg::Command { cmd }))) => (
            MessageTask::Executing,
            MessageRequest::Execute(cmd@),
        ),
        (MessageTask::Receiving, MessageEvent::Received(Some(HostMsg::Exit))) => (
            MessageTask::Closing,
            MessageRequest::Close,
        ),
        (MessageTask::Receiving, MessageEvent::Received(None)) => (
            MessageTask::Returned,
            MessageRequest::Return(Ok(())),
        ),
        (MessageTask::Closing, MessageEvent::Closed(res)) => (
            MessageTask::Returned,
            MessageRequest::Return(res),
        ),
        (MessageTask::Executing, MessageEvent::Executed(Ok(()))) => (
            MessageTask::Streaming,
            MessageRequest::ReadOutput,
        ),
        (MessageTask::Executing, MessageEvent::Executed(Err(err))) => (
            MessageTask::SendingError,
            MessageRequest::Send(Reply::Failure(err.text())),
        ),
        (MessageTask::Streaming, MessageEvent::Output(OutputEvent::Chunk(buf))) => (
            MessageTask::SendingOutput,
            MessageRequest::Send(Reply::Output(buf@)),
        ),
        (MessageTask::Streaming, MessageEvent::Output(OutputEvent::Failed(err))) => (
            MessageTask::Returned,
            MessageRequest::Return(Err(DeviceError::ChildStdout(err))),
        ),
        (MessageTask::Streaming, MessageEvent::Output(_)) => (
            MessageTask::Emptying,
            MessageRequest::Empty,
        ),
        (MessageTask::Emptying, MessageEvent::Emptied) => (
            MessageTask::SendingEof,
            MessageRequest::Send(Reply::Eof),
        ),
        (MessageTask::SendingOutput, MessageEvent::Sent(sent)) => after_sending(
            sent,
            MessageTask::Streaming,
            MessageRequest::ReadOutput,
        ),
        (MessageTask::SendingError, MessageEvent::Sent(sent)) => after_sending(
            sent,
            MessageTask::Receiving,
            MessageRequest::Receive,
        ),
        (MessageTask::SendingEof, MessageEvent::Sent(sent)) => after_sending(
            sent,
            MessageTask::Receiving,
            MessageRequest::Receive,
        ),
        _ => (task, MessageRequest::Ignore),
    }
}

impl MessageTask {
    /// A task that starts by waiting for a message.
    pub fn new() -> (r: Self)
        ensures
            r == MessageTask::Receiving,
    {
        MessageTask::Receiving
    }

    /// Takes an event. The message of a CTRL C is left to the [`ConnectionTask`].
    pub fn handle_host_msgs(&mut self, event: MessageEvent) -> (r: MessageAction)
        requires
            !(event matches MessageEvent::Received(Some(msg)) && msg == HostMsg::Ctrlc),
        ensures
            (*final(self), r@) == message_next(*old(self), event),
    {
        match (*self, event) {
            (MessageTask::Receiving, MessageEvent::Received(Some(HostMsg::Command { cmd }))) => {
                *self = MessageTask::Executing;
                MessageAction::Execute(cmd)
            },
            (MessageTask::Receiving, MessageEvent::Received(Some(HostMsg::Exit))) => {
                *self = MessageTask::Closing;
                MessageAction::Close
            },
            (MessageTask::Receiving, MessageEvent::Received(None)) => {
                *self = MessageTask::Returned;
                MessageAction::Return(Ok(()))
            },
            (MessageTask::Closing, MessageEvent::Closed(res)) => {
                *self = MessageTask::Returned;
                MessageAction::Return(res)
            },
            (MessageTask::Executing, MessageEvent::Executed(Ok(()))) => {
                *self = MessageTask::Streaming;
                MessageAction::ReadOutput
            },
            (MessageTask::Executing, MessageEvent::Executed(Err(err))) => {
                *self = MessageTask::SendingError;
                MessageAction::Send(DeviceMsg::Failure(err.message()))
            },
            (MessageTask::Streaming, MessageEvent::Output(OutputEvent::Chunk(buf))) => {
                *self = MessageTask::SendingOutput;
                MessageAction::Send(DeviceMsg::Output(buf))
            },
            (MessageTask::Streaming, MessageEvent::Output(OutputEvent::Failed(err))) => {
                *self = MessageTask::Returned;
                MessageAction::Return(Err(DeviceError::ChildStdout(err)))
            },
            (MessageTask::Streaming, MessageEvent::Output(_)) => {
                *self = MessageTask::Emptying;
                MessageAction::Empty
            },
            (MessageTask::Emptying, MessageEvent::Emptied) => {
                *self = MessageTask::SendingEof;
                MessageAction::Send(DeviceMsg::Eof)
            },
            (MessageTask::SendingOutput, MessageEvent::Sent(Ok(()))) => {
                *self = MessageTask::Streaming;
                MessageAction::ReadOutput
            },
            (MessageTask::SendingError, MessageEvent::Sent(Ok(()))) => {
                *self = MessageTask::Receiving;
                MessageAction::Receive
            },
            (MessageTask::SendingEof, MessageEvent::Sent(Ok(()))) => {
                *self = MessageTask::Receiving;
                MessageAction::Receive
            },
            (
                MessageTask::SendingOutput
                | MessageTask::SendingError
                | MessageTask::SendingEof,
                MessageEvent::Sent(Err(err)),
            ) => {
                *self = MessageTask::Returned;
                MessageAction::Return(Err(err))
            },
            _ => MessageAction::Ignore,
        }
    }
}

/// Reads the stop flag before output is read: the result says whether to stop, and the new value
/// of the flag, which is used up by stopping.
pub fn poll_stop(stop: bool) -> (r: (bool, bool))
    ensures
        r.0 == stop,
        !r.1,
{
    if stop {
        (true, false)
    } else {
        (false, false)
    }
}

/// A connection goes over TLS if and only if the scheme is `wss` and TLS is enabled, and over
/// plain TCP if and only if the scheme is `ws`.
pub proof fn law_ws_route(scheme: Seq<char>, tls_enabled: bool)
    ensures
        ws_route(scheme, tls_enabled) == Some(WsRoute::Tls) <==> scheme == "wss"@ && tls_enabled,
        ws_route(scheme, tls_enabled) == Some(WsRoute::Plain) <==> scheme == "ws"@,
{
    reveal_strlit("ws");
    reveal_strlit("wss");
    assert("ws"@.len() != "wss"@.len());
}

/// The task that handles the Astarte events fails with a message and an error if and only if it
/// ends with these.
pub proof fn law_astarte_failures(
    action: AstarteAction,
    text: Seq<char>,
    accepts: spec_fn(astarte::Error) -> bool,
    err: astarte::Error,
    msg: String,
)
    ensures
        fails_with(AstarteAction::Return(DeviceError::Astarte { err, msg }), text, accepts) <==> msg@
            == text && accepts(err),
        fails_with(action, text, accepts) ==> (action matches AstarteAction::Return(
            DeviceError::Astarte { err: e, msg: m },
        ) && m@ == text && accepts(e)),
{
}

/// The texts that hold a part of the error hold all of it.
pub proof fn law_device_error_texts(scheme: String, msg: String, err: astarte::Error)
    ensures
        DeviceError::WrongScheme(scheme).text() == "Wrong scheme, "@ + scheme@ + "."@,
        (DeviceError::Astarte { err, msg }).text() == "Astarte error, "@ + msg@ + "."@,
{
}

/// Every URL that arrives is connected with, and nothing else is; after the last one, every
/// connection is waited for, and the set is done only when none is left.
pub proof fn law_every_url_is_connected_with(
    set: ConnectionSet,
    event: ConnectionSetEvent,
    url: HostUrl,
)
    ensures
        ({
            let (next, action) = connection_set_next(set, event);
            &&& action == ConnectionSetAction::Spawn(url) <==> set == ConnectionSet::Receiving
                && event == ConnectionSetEvent::Url(Some(url))
            &&& action is JoinNext <==> {
                ||| set == ConnectionSet::Receiving && event == ConnectionSetEvent::Url(None)
                ||| set == ConnectionSet::Joining && (event matches ConnectionSetEvent::Joined(
                    Some(_),
                ))
            }
            &&& action is Return <==> set == ConnectionSet::Joining && event
                == ConnectionSetEvent::Joined(None)
            &&& next == match action {
                ConnectionSetAction::Spawn(_) => ConnectionSet::Receiving,
                ConnectionSetAction::JoinNext => ConnectionSet::Joining,
                ConnectionSetAction::Return => ConnectionSet::Returned,
                ConnectionSetAction::Ignore => set,
            }
        }),
{
}

/// What a connection does with what it is told. Every message other than a CTRL C is passed on
/// unchanged, and only these are; a CTRL C interrupts; the connection is closed exactly where the
/// interrupt fails; and it ends with the errors that it is told, and with no others.
pub proof fn law_connection_passes_everything_on(
    task: ConnectionTask,
    event: ConnectionEvent,
    stop: bool,
    msg: HostMsg,
    err: DeviceError,
)
    ensures
        ({
            let (next, action, new_stop) = connection_next(task, event, stop);
            &&& action == ConnectionAction::Queue(msg) <==> task == ConnectionTask::Receiving
                && event == ConnectionEvent::Received(Some(Ok(msg))) && msg != HostMsg::Ctrlc
            &&& action is Interrupt <==> task == ConnectionTask::Receiving && (
            event matches ConnectionEvent::Received(Some(Ok(m))) && m == HostMsg::Ctrlc)
            &&& action is Receive <==> {
                ||| task == ConnectionTask::Interrupting && (
                event matches ConnectionEvent::Interrupted(Ok(_)))
                ||| task == ConnectionTask::Queueing && (event matches ConnectionEvent::Queued(
                    Ok(_),
                ))
            }
            &&& action is Close <==> task == ConnectionTask::Interrupting && (
            event matches ConnectionEvent::Interrupted(Err(_)))
            &&& action is AbortAndJoin <==> task == ConnectionTask::Closing && (
            event matches ConnectionEvent::Closed(Ok(_)))
            &&& action is Join <==> task == ConnectionTask::Receiving && event
                == ConnectionEvent::Received(None)
            &&& action == ConnectionAction::Return(Err(err)) <==> {
                ||| task == ConnectionTask::Receiving && event == ConnectionEvent::Received(
                    Some(Err(err)),
                )
                ||| task == ConnectionTask::Queueing && (event matches ConnectionEvent::Queued(
                    Err(m),
                ) && err == DeviceError::ChannelMsg(m))
                ||| task == ConnectionTask::Closing && event == ConnectionEvent::Closed(Err(err))
                ||| task == ConnectionTask::Joining && event == ConnectionEvent::Joined(
                    TaskEnd::Finished(Err(err)),
                )
            }
            &&& (action matches ConnectionAction::Return(Ok(_))) <==> task
                == ConnectionTask::Joining && event is Joined && !(
            event matches ConnectionEvent::Joined(TaskEnd::Finished(Err(_))))
            &&& next == match action {
                ConnectionAction::Receive => ConnectionTask::Receiving,
                ConnectionAction::Interrupt => ConnectionTask::Interrupting,
                ConnectionAction::Queue(_) => ConnectionTask::Queueing,
                ConnectionAction::Close => ConnectionTask::Closing,
                ConnectionAction::AbortAndJoin => ConnectionTask::Joining,
                ConnectionAction::Join => ConnectionTask::Joining,
                ConnectionAction::Return(_) => ConnectionTask::Returned,
                ConnectionAction::Ignore => task,
            }
            &&& action is Queue ==> !new_stop
            &&& action is Receive && event is Interrupted ==> new_stop
            &&& !(action is Queue) && !(action is Receive && event is Interrupted) ==> new_stop
                == stop
        }),
{
}

/// What a close does with what it is told: it sends the close message, closes the connection, and
/// ends with the first error of the two.
pub proof fn law_close_connection(
    state: CloseConnection,
    event: CloseConnectionEvent,
    msg: Message,
    err: DeviceError,
)
    ensures
        ({
            let (next, action) = close_connection_next(state, event);
            &&& action == CloseConnectionAction::Send(msg) <==> state == CloseConnection::Starting
                && event is Start && msg == Message::Close(None)
            &&& action is Close <==> state == CloseConnection::Sending && (
            event matches CloseConnectionEvent::Sent(Ok(_)))
            &&& (action matches CloseConnectionAction::Return(Ok(_))) <==> state
                == CloseConnection::Closing && (event matches CloseConnectionEvent::Closed(Ok(_)))
            &&& action == CloseConnectionAction::Return(Err(err)) <==> {
                ||| state == CloseConnection::Sending && (event matches CloseConnectionEvent::Sent(
                    Err(e),
                ) && err == DeviceError::Transport(e))
                ||| state == CloseConnection::Closing && (
                event matches CloseConnectionEvent::Closed(Err(e)) && err
                    == DeviceError::Transport(e))
            }
            &&& next == match action {
                CloseConnectionAction::Send(_) => CloseConnection::Sending,
                CloseConnectionAction::Close => CloseConnection::Closing,
                CloseConnectionAction::Return(_) => CloseConnection::Returned,
                CloseConnectionAction::Ignore => state,
            }
        }),
{
}

/// What an action asks for is what the action holds, all of it.
pub proof fn law_message_requests(action: MessageAction, cmd: Seq<char>, reply: Reply)
    ensures
        action@ == MessageRequest::Execute(cmd) <==> (action matches MessageAction::Execute(c) && c@
            == cmd),
        action@ == MessageRequest::Send(reply) <==> (action matches MessageAction::Send(m) && m@
            == reply),
        action matches MessageAction::Return(res) ==> action@ == MessageRequest::Return(res),
        action@ is Return <==> action is Return,
        action@ is Receive <==> action is Receive,
        action@ is Close <==> action is Close,
        action@ is ReadOutput <==> action is ReadOutput,
        action@ is Empty <==> action is Empty,
        action@ is Ignore <==> action is Ignore,
{
}

/// What a task does with what it is told. It executes exactly the commands that it receives,
/// character for character; it sends exactly the output that it reads, byte for byte, and one end
/// of the output once the output has ended and the process is forgotten; a command that is not
/// executed is answered with the text of its error; and the task ends with the errors that it is
/// told, and with no others.
pub proof fn law_commands_are_executed_as_they_are(
    task: MessageTask,
    event: MessageEvent,
    cmd: Seq<char>,
    out: Seq<u8>,
    err: DeviceError,
)
    ensures
        ({
            let (next, request) = message_next(task, event);
            &&& request == MessageRequest::Execute(cmd) <==> task == MessageTask::Receiving && (
            event matches MessageEvent::Received(Some(HostMsg::Command { cmd: c })) && c@ == cmd)
            &&& request is Close <==> task == MessageTask::Receiving && (
            event matches MessageEvent::Received(Some(m)) && m == HostMsg::Exit)
            &&& request is Receive <==> (task == MessageTask::SendingError || task
                == MessageTask::SendingEof) && (event matches MessageEvent::Sent(Ok(_)))
            &&& request is ReadOutput <==> {
                ||| task == MessageTask::Executing && (event matches MessageEvent::Executed(Ok(_)))
                ||| task == MessageTask::SendingOutput && (event matches MessageEvent::Sent(Ok(_)))
            }
            &&& request is Empty <==> task == MessageTask::Streaming && (
            event matches MessageEvent::Output(o) && (o is Finished || o is Stopped))
            &&& request == MessageRequest::Send(Reply::Output(out)) <==> task
                == MessageTask::Streaming && (event matches MessageEvent::Output(
                OutputEvent::Chunk(buf),
            ) && buf@ == out)
            &&& request == MessageRequest::Send(Reply::Eof) <==> task == MessageTask::Emptying
                && event is Emptied
            &&& request == MessageRequest::Send(Reply::Failure(cmd)) <==> task
                == MessageTask::Executing && (event matches MessageEvent::Executed(Err(e))
                && e.text() == cmd)
            &&& (request matches MessageRequest::Return(Ok(_))) <==> {
                ||| task == MessageTask::Receiving && event == MessageEvent::Received(None)
                ||| task == MessageTask::Closing && (event matches MessageEvent::Closed(Ok(_)))
            }
            &&& request == MessageRequest::Return(Err(err)) <==> {
                ||| task == MessageTask::Closing && event == MessageEvent::Closed(Err(err))
                ||| task == MessageTask::Streaming && (event matches MessageEvent::Output(
                    OutputEvent::Failed(e),
                ) && err == DeviceError::ChildStdout(e))
                ||| (task == MessageTask::SendingOutput || task == MessageTask::SendingError || task
                    == MessageTask::SendingEof) && event == MessageEvent::Sent(Err(err))
            }
            &&& next == match request {
                MessageRequest::Receive => MessageTask::Receiving,
                MessageRequest::Close => MessageTask::Closing,
                MessageRequest::Execute(_) => MessageTask::Executing,
                MessageRequest::ReadOutput => MessageTask::Streaming,
                MessageRequest::Empty => MessageTask::Emptying,
                MessageRequest::Send(Reply::Output(_)) => MessageTask::SendingOutput,
                MessageRequest::Send(Reply::Eof) => MessageTask::SendingEof,
                MessageRequest::Send(Reply::Failure(_)) => MessageTask::SendingError,
                MessageRequest::Return(_) => MessageTask::Returned,
                MessageRequest::Ignore => task,
            }
        }),
{
}

/// Apart from the errors whose text names something, the text of an error depends on its kind
/// alone.
pub proof fn law_fixed_device_error_texts(err: DeviceError)
    ensures
        err is Transport ==> err.text() == "Trasport error from Tungstenite."@,
        err is WebSocketConnect ==> err.text() == "Error while trying to connect with the host."@,
        err is ChildStdout ==> err.text() == "Error while reading from child process's stdout."@,
        err is ChannelUrl ==> err.text() == "Error while sending an URL across tasks."@,
        err is ChannelMsg ==> err.text() == "Error while sending HostMsg over channel."@,
        err is Join ==> err.text() == "Error while joining a tokio task."@,
        err is Shell ==> err.text() == "Shell error."@,
        err is WrongWsMessage ==> err.text() == "Wrong WebSocket message type."@,
        err is Deserialize ==> err.text() == "Couldn't deserialize from BSON."@,
        err is Serialize ==> err.text() == "Couldn't serialize to BSON."@,
        err is Tls ==> err.text() == "Wrong item."@,
{
}

} // verus!
