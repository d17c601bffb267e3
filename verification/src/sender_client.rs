//! A client that sends the commands that are typed in to a listening device and prints what comes
//! back.

use vstd::prelude::*;

use crate::astarte::HostUrl;
use crate::protocol::Message;
use crate::transport::{IoError, TransportError};

verus! {

/// Client errors.
#[derive(Clone, Debug, PartialEq, Eq)]
pub enum SenderClientError {
    /// Error while trying to connect with the server.
    WebSocketConnect(TransportError),
    /// Error while reading from stdin.
    IORead(IoError),
    /// Error while writing to stdout.
    IOWrite {
        /// The reason.
        err: IoError,
    },
    /// Error while passing on the output of a command; holds the message.
    Channel(Message),
    /// Error of the connection while reading the output of a command.
    TungsteniteReadData {
        /// The reason.
        err: TransportError,
    },
    /// The server disconnected.
    Disconnected,
}

impl SenderClientError {
    /// The text that describes this error.
    pub open spec fn text(self) -> Seq<char> {
        match self {
            SenderClientError::WebSocketConnect(_) => "Error while trying to connect with server"@,
            SenderClientError::IORead(_) => "IO error occurred while reading from stdin"@,
            SenderClientError::IOWrite { err } => "IO error occurred while writing to stdout"@,
            SenderClientError::Channel(_) =>
                "Error while trying to send the output of a command to the main task"@,
            SenderClientError::TungsteniteReadData { err } =>
                "Error from Tungstenite while reading command"@,
            SenderClientError::Disconnected => "Server disconnected"@,
        }
    }

    /// Describes the error.
    pub fn message(&self) -> (r: String)
        ensures
            r@ == self.text(),
    {
        match self {
            SenderClientError::WebSocketConnect(_) => {
                "Error while trying to connect with server".to_owned()
            },
            SenderClientError::IORead(_) => "IO error occurred while reading from stdin".to_owned(),
            SenderClientError::IOWrite { err: _ } => {
                "IO error occurred while writing to stdout".to_owned()
            },
            SenderClientError::Channel(_) => {
                "Error while trying to send the output of a command to the main task".to_owned()
            },
            SenderClientError::TungsteniteReadData { err: _ } => {
                "Error from Tungstenite while reading command".to_owned()
            },
            SenderClientError::Disconnected => "Server disconnected".to_owned(),
        }
    }
}

/// A client of the server at a URL.
#[derive(Clone, Debug, PartialEq, Eq)]
pub struct SenderClient {
    /// Where the server listens.
    pub listener_url: HostUrl,
}

impl SenderClient {
    /// A client of the server at `listener_url`.
    pub fn new(listener_url: HostUrl) -> (r: Self)
        ensures
            r.listener_url == listener_url,
    {
        SenderClient { listener_url }
    }
}

/// Runs a client: it lets its tasks work until one of them reports, then closes.
#[derive(Debug)]
pub enum ClientTask {
    /// Waits for the connection.
    Connecting,
    /// Waits for a report of the tasks.
    Running,
    /// Waits until the client is closed; holds the report.
    Closing(Result<(), SenderClientError>),
    /// Is done.
    Returned,
}

/// What a [`ClientTask`] is told.
#[derive(Debug)]
pub enum ClientEvent {
    /// The outcome of connecting with the server.
    Connected(Result<(), TransportError>),
    /// The report of a task.
    Reported(Result<(), SenderClientError>),
    /// The outcome of [`ClientAction::Close`].
    Closed(Result<(), SenderClientError>),
}

/// What a [`ClientTask`] asks for.
#[derive(Debug)]
pub enum ClientAction {
    /// Start the tasks and wait for a report.
    Supervise,
    /// Close the client: see [`ClientClose`].
    Close,
    /// End with this result.
    Return(Result<(), SenderClientError>),
    /// Go on waiting: the event was not the one that is waited for.
    Ignore,
}

/// How a [`ClientTask`] goes on: its next state, and what it asks for. The result is the report,
/// unless the client could not be closed.
pub open spec fn client_next(task: ClientTask, event: ClientEvent) -> (ClientTask, ClientAction) {
    match (task, event) {
        (ClientTask::Connecting, ClientEvent::Connected(Ok(()))) => (
            ClientTask::Running,
            ClientAction::Supervise,
        ),
        (ClientTask::Connecting, ClientEvent::Connected(Err(err))) => (
            ClientTask::Returned,
            ClientAction::Return(Err(SenderClientError::WebSocketConnect(err))),
        ),
        (ClientTask::Running, ClientEvent::Reported(report)) => (
            ClientTask::Closing(report),
            ClientAction::Close,
        ),
        (ClientTask::Closing(report), ClientEvent::Closed(Ok(()))) => (
            ClientTask::Returned,
            ClientAction::Return(report),
        ),
        (ClientTask::Closing(_), ClientEvent::Closed(Err(err))) => (
            ClientTask::Returned,
            ClientAction::Return(Err(err)),
        ),
        _ => (task, ClientAction::Ignore),
    }
}

impl ClientTask {
    /// A task that starts by connecting with the server.
    pub fn new() -> (r: Self)
        ensures
            r == ClientTask::Connecting,
    {
        ClientTask::Connecting
    }

    /// Takes an event.
    pub fn connect(self, event: ClientEvent) -> (r: (ClientTask, ClientAction))
        ensures
            r == client_next(self, event),
    {
        match (self, event) {
            (ClientTask::Connecting, ClientEvent::Connected(Ok(()))) => (
                ClientTask::Running,
                ClientAction::Supervise,
            ),
            (ClientTask::Connecting, ClientEvent::Connected(Err(err))) => (
                ClientTask::Returned,
                ClientAction::Return(Err(SenderClientError::WebSocketConnect(err))),
            ),
            (ClientTask::Running, ClientEvent::Reported(report)) => (
                ClientTask::Closing(report),
                ClientAction::Close,
            ),
            (ClientTask::Closing(report), ClientEvent::Closed(Ok(()))) => (
                ClientTask::Returned,
                ClientAction::Return(report),
            ),
            (ClientTask::Closing(_), ClientEvent::Closed(Err(err))) => (
                ClientTask::Returned,
                ClientAction::Return(Err(err)),
            ),
            (task, _) => (task, ClientAction::Ignore),
        }
    }
}

/// Closes a client: once its tasks are over, the output that is still waiting is written.
#[derive(Clone, Copy, Debug, PartialEq, Eq, Structural)]
pub enum ClientClose {
    /// Waits until the tasks are over.
    Joining,
    /// Takes the output that is waiting.
    Draining,
    /// Waits until output is written.
    Writing,
    /// Is done.
    Returned,
}

/// What a [`ClientClose`] is told.
#[derive(Debug)]
pub enum CloseEvent {
    /// The tasks are over.
    Joined,
    /// The next message that is waiting, or that there is none.
    Waiting(Option<Message>),
    /// The outcome of [`CloseAction::Write`].
    Written(Result<(), IoError>),
}

/// What a [`ClientClose`] asks for.
#[derive(Debug)]
pub enum CloseAction {
    /// Take the next message that is waiting.
    Take,
    /// Write output to stdout.
    Write(Vec<u8>),
    /// End with this result.
    Return(Result<(), SenderClientError>),
    /// Go on waiting: the event was not the one that is waited for.
    Ignore,
}

/// The content of a [`CloseAction`].
pub enum CloseRequest {
    /// Take the next message that is waiting.
    Take,
    /// Write output to stdout.
    Write(Seq<u8>),
    /// End with this result.
    Return(Result<(), SenderClientError>),
    /// Go on waiting.
    Ignore,
}

impl View for CloseAction {
    type V = CloseRequest;

    open spec fn view(&self) -> CloseRequest {
        match self {
            CloseAction::Take => CloseRequest::Take,
            CloseAction::Write(out) => CloseRequest::Write(out@),
            CloseAction::Return(res) => CloseRequest::Return(*res),
            CloseAction::Ignore => CloseRequest::Ignore,
        }
    }
}

/// How a [`ClientClose`] goes on: its next state, and what it asks for.
pub open spec fn close_next(state: ClientClose, event: CloseEvent) -> (ClientClose, CloseRequest) {
    match (state, event) {
        (ClientClose::Joining, CloseEvent::Joined) => (ClientClose::Draining, CloseRequest::Take),
        (ClientClose::Draining, CloseEvent::Waiting(Some(msg))) => (
            ClientClose::Writing,
            CloseRequest::Write(msg.data()),
        ),
        (ClientClose::Draining, CloseEvent::Waiting(None)) => (
            ClientClose::Returned,
            CloseRequest::Return(Ok(())),
        ),
        (ClientClose::Writing, CloseEvent::Written(Ok(()))) => (
            ClientClose::Draining,
            CloseRequest::Take,
        ),
        (ClientClose::Writing, CloseEvent::Written(Err(err))) => (
            ClientClose::Returned,
            CloseRequest::Return(Err(SenderClientError::IOWrite { err })),
        ),
        _ => (state, CloseRequest::Ignore),
    }
}

impl ClientClose {
    /// A close that starts with the tasks, which have been aborted.
    pub fn new() -> (r: Self)
        ensures
            r == ClientClose::Joining,
    {
        ClientClose::Joining
    }

    /// Takes an event.
    pub fn close(&mut self, event: CloseEvent) -> (r: CloseAction)
        ensures
            (*final(self), r@) == close_next(*old(self), event),
    {
        match (*self, event) {
            (ClientClose::Joining, CloseEvent::Joined) => {
                *self = ClientClose::Draining;
                CloseAction::Take
            },
            (ClientClose::Draining, CloseEvent::Waiting(Some(msg))) => {
                *self = ClientClose::Writing;
                CloseAction::Write(msg.into_data())
            },
            (ClientClose::Draining, CloseEvent::Waiting(None)) => {
                *self = ClientClose::Returned;
                CloseAction::Return(Ok(()))
            },
            (ClientClose::Writing, CloseEvent::Written(Ok(()))) => {
                *self = ClientClose::Draining;
                CloseAction::Take
            },
            (ClientClose::Writing, CloseEvent::Written(Err(err))) => {
                *self = ClientClose::Returned;
                CloseAction::Return(Err(SenderClientError::IOWrite { err }))
            },
            _ => CloseAction::Ignore,
        }
    }
}

/// Passes on the messages of the server.
#[derive(Clone, Copy, Debug, PartialEq, Eq, Structural)]
pub enum ReadTask {
    /// Waits for a message.
    Receiving,
    /// Waits until a message is passed on.
    Passing,
    /// Is done.
    Returned,
}

/// What a [`ReadTask`] is told.
#[derive(Debug)]
pub enum ReadEvent {
    /// The next message, an error in its place, or the end of the messages.
    Received(Option<Result<Message, TransportError>>),
    /// The outcome of [`ReadAction::Pass`]: a message that was not taken is handed back.
    Passed(Result<(), Message>),
}

/// What a [`ReadTask`] asks for.
#[derive(Debug)]
pub enum ReadAction {
    /// Wait for the next message.
    Receive,
    /// Pass a message on.
    Pass(Message),
    /// Report an error, then end.
    Report(SenderClientError),
    /// End.
    Return,
    /// Go on waiting: the event was not the one that is waited for.
    Ignore,
}

/// How a [`ReadTask`] goes on: its next state, and what it asks for.
pub open spec fn read_next(task: ReadTask, event: ReadEvent) -> (ReadTask, ReadAction) {
    match (task, event) {
        (ReadTask::Receiving, ReadEvent::Received(None)) => (
            ReadTask::Returned,
            ReadAction::Return,
        ),
        (ReadTask::Receiving, ReadEvent::Received(Some(Ok(msg)))) => (
            ReadTask::Passing,
            ReadAction::Pass(msg),
        ),
        (ReadTask::Receiving, ReadEvent::Received(Some(Err(err)))) => (
            ReadTask::Returned,
            ReadAction::Report(SenderClientError::TungsteniteReadData { err }),
        ),
        (ReadTask::Passing, ReadEvent::Passed(Ok(()))) => (
            ReadTask::Receiving,
            ReadAction::Receive,
        ),
        (ReadTask::Passing, ReadEvent::Passed(Err(msg))) => (
            ReadTask::Returned,
            ReadAction::Report(SenderClientError::Channel(msg)),
        ),
        _ => (task, ReadAction::Ignore),
    }
}

impl ReadTask {
    /// A task that starts by waiting for a message.
    pub fn new() -> (r: Self)
        ensures
            r == ReadTask::Receiving,
    {
        ReadTask::Receiving
    }

    /// Takes an event.
    pub fn handle_read(&mut self, event: ReadEvent) -> (r: ReadAction)
        ensures
            (*final(self), r) == read_next(*old(self), event),
    {
        match (*self, event) {
            (ReadTask::Receiving, ReadEvent::Received(None)) => {
                *self = ReadTask::Returned;
                ReadAction::Return
            },
            (ReadTask::Receiving, ReadEvent::Received(Some(Ok(msg)))) => {
                *self = ReadTask::Passing;
                ReadAction::Pass(msg)
            },
            (ReadTask::Receiving, ReadEvent::Received(Some(Err(err)))) => {
                *self = ReadTask::Returned;
                ReadAction::Report(SenderClientError::TungsteniteReadData { err })
            },
            (ReadTask::Passing, ReadEvent::Passed(Ok(()))) => {
                *self = ReadTask::Receiving;
                ReadAction::Receive
            },
            (ReadTask::Passing, ReadEvent::Passed(Err(msg))) => {
                *self = ReadTask::Returned;
                ReadAction::Report(SenderClientError::Channel(msg))
            },
            _ => ReadAction::Ignore,
        }
    }
}

/// Goes round between the terminal and the server.
#[derive(Clone, Copy, Debug, PartialEq, Eq, Structural)]
pub enum ReadWriteLoop {
    /// Reads a line from stdin.
    ReadStdin,
    /// Sends the line to the server.
    SendToServer,
    /// Writes the output that has arrived to stdout.
    WriteStdout,
}

impl ReadWriteLoop {
    /// The step that comes after this one.
    pub open spec fn following(self) -> ReadWriteLoop {
        match self {
            ReadWriteLoop::ReadStdin => ReadWriteLoop::SendToServer,
            ReadWriteLoop::SendToServer => ReadWriteLoop::WriteStdout,
            ReadWriteLoop::WriteStdout => ReadWriteLoop::ReadStdin,
        }
    }

    /// Takes the outcome of the current step: the loop goes on with the next step and ends with
    /// the first error.
    pub fn read_write(&mut self, done: Result<(), SenderClientError>) -> (r: Result<
        (),
        SenderClientError,
    >)
        ensures
            r == done,
            *final(self) == if done is Ok {
                old(self).following()
            } else {
                *old(self)
            },
    {
        if done.is_ok() {
            *self = match *self {
                ReadWriteLoop::ReadStdin => ReadWriteLoop::SendToServer,
                ReadWriteLoop::SendToServer => ReadWriteLoop::WriteStdout,
                ReadWriteLoop::WriteStdout => ReadWriteLoop::ReadStdin,
            };
        }
        done
    }
}

/// What a client does with what it is told: it ends with the report of its tasks, whatever that
/// is, unless it cannot connect or cannot be closed.
pub proof fn law_client_ends_with_the_report(
    task: ClientTask,
    event: ClientEvent,
    res: Result<(), SenderClientError>,
)
    ensures
        ({
            let (next, action) = client_next(task, event);
            &&& action is Supervise <==> task is Connecting && (
            event matches ClientEvent::Connected(Ok(_)))
            &&& action is Close <==> task is Running && event is Reported
            &&& action is Close ==> (event matches ClientEvent::Reported(report) && next
                == ClientTask::Closing(report))
            &&& action == ClientAction::Return(res) <==> {
                ||| task is Connecting && (event matches ClientEvent::Connected(Err(e)) && res
                    == Err::<(), SenderClientError>(SenderClientError::WebSocketConnect(e)))
                ||| task == ClientTask::Closing(res) && (event matches ClientEvent::Closed(Ok(_)))
                ||| task is Closing && (event matches ClientEvent::Closed(Err(e)) && res == Err::<
                    (),
                    SenderClientError,
                >(e))
            }
            &&& action is Supervise ==> next is Running
            &&& action is Return ==> next is Returned
            &&& action is Ignore ==> next == task
        }),
{
}

/// What an action asks for is what the action holds, all of it.
pub proof fn law_close_requests(
    action: CloseAction,
    out: Seq<u8>,
    res: Result<(), SenderClientError>,
)
    ensures
        action@ == CloseRequest::Write(out) <==> (action matches CloseAction::Write(o) && o@
            == out),
        action@ == CloseRequest::Return(res) <==> action == CloseAction::Return(res),
        action@ is Take <==> action is Take,
        action@ is Ignore <==> action is Ignore,
{
}

/// What the close of a client does with what it is told: every message that waits is written, all
/// of its data, until none waits or a write fails.
pub proof fn law_every_waiting_message_is_written(
    state: ClientClose,
    event: CloseEvent,
    out: Seq<u8>,
    err: SenderClientError,
)
    ensures
        ({
            let (next, request) = close_next(state, event);
            &&& request is Take <==> {
                ||| state == ClientClose::Joining && event is Joined
                ||| state == ClientClose::Writing && (event matches CloseEvent::Written(Ok(_)))
            }
            &&& request == CloseRequest::Write(out) <==> state == ClientClose::Draining && (
            event matches CloseEvent::Waiting(Some(msg)) && msg.data() == out)
            &&& (request matches CloseRequest::Return(Ok(_))) <==> state == ClientClose::Draining
                && event == CloseEvent::Waiting(None)
            &&& request == CloseRequest::Return(Err(err)) <==> state == ClientClose::Writing && (
            event matches CloseEvent::Written(Err(e)) && err == (SenderClientError::IOWrite {
                err: e,
            }))
            &&& next == match request {
                CloseRequest::Take => ClientClose::Draining,
                CloseRequest::Write(_) => ClientClose::Writing,
                CloseRequest::Return(_) => ClientClose::Returned,
                CloseRequest::Ignore => state,
            }
        }),
{
}

/// Every message of the server is passed on as it is, and only these are; an error of the
/// connection and a message that is not taken are reported.
pub proof fn law_every_message_is_passed_on(
    task: ReadTask,
    event: ReadEvent,
    msg: Message,
    err: SenderClientError,
)
    ensures
        ({
            let (next, action) = read_next(task, event);
            &&& action == ReadAction::Pass(msg) <==> task == ReadTask::Receiving && event
                == ReadEvent::Received(Some(Ok(msg)))
            &&& action is Receive <==> task == ReadTask::Passing && (
            event matches ReadEvent::Passed(Ok(_)))
            &&& action is Return <==> task == ReadTask::Receiving && event == ReadEvent::Received(
                None,
            )
            &&& action == ReadAction::Report(err) <==> {
                ||| task == ReadTask::Receiving && (event matches ReadEvent::Received(Some(Err(e)))
                    && err == (SenderClientError::TungsteniteReadData { err: e }))
                ||| task == ReadTask::Passing && (event matches ReadEvent::Passed(Err(m)) && err
                    == SenderClientError::Channel(m))
            }
            &&& next == match action {
                ReadAction::Receive => ReadTask::Receiving,
                ReadAction::Pass(_) => ReadTask::Passing,
                ReadAction::Report(_) => ReadTask::Returned,
                ReadAction::Return => ReadTask::Returned,
                ReadAction::Ignore => task,
            }
        }),
{
}

/// A line is read, then sent, then what has arrived is written, and then it starts again.
pub proof fn law_client_goes_round(state: ReadWriteLoop)
    ensures
        ReadWriteLoop::ReadStdin.following() == ReadWriteLoop::SendToServer,
        ReadWriteLoop::SendToServer.following() == ReadWriteLoop::WriteStdout,
        state.following().following().following() == state,
{
}

/// The text of an error depends on its kind alone.
pub proof fn law_client_error_texts(err: SenderClientError)
    ensures
        err is WebSocketConnect ==> err.text() == "Error while trying to connect with server"@,
        err is IORead ==> err.text() == "IO error occurred while reading from stdin"@,
        err is IOWrite ==> err.text() == "IO error occurred while writing to stdout"@,
        err is Channel ==> err.text() == "Error while trying to send the output of a command to the main task"@,
        err is TungsteniteReadData ==> err.text() == "Error from Tungstenite while reading command"@,
        err is Disconnected ==> err.text() == "Server disconnected"@,
{
}

} // verus!
