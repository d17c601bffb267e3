use rust_remote_shell::astarte::HostUrl;
use rust_remote_shell::device_server::{
    accepted, answer_text, handle_connection, read_command, AcceptAction, Server, ServerAction,
    ServerConnection, ServerConnectionAction, ServerConnectionEvent, ServerError, ServerEvent,
    ServerTask, TcpConnector, MAX_ERRORS_TO_HANDLE,
};
use rust_remote_shell::protocol::Message;
use rust_remote_shell::sender_client::{
    ClientAction, ClientClose, ClientEvent, ClientTask, CloseAction, CloseEvent, ReadAction,
    ReadEvent, ReadTask, ReadWriteLoop, SenderClient, SenderClientError,
};
use rust_remote_shell::shell::ShellError;
use rust_remote_shell::transport::{IoError, IoErrorKind, TransportError};

fn io_error(kind: IoErrorKind) -> IoError {
    IoError { kind, detail: "io".to_string() }
}

fn no_text() -> std::string::FromUtf8Error {
    String::from_utf8(vec![0x80]).unwrap_err()
}

fn broken() -> TransportError {
    TransportError::Other("broken".to_string())
}

#[test]
fn a_server_binds_and_connects() {
    assert_eq!(MAX_ERRORS_TO_HANDLE, 10);
    assert!(matches!(TcpConnector::bind(Ok(1u8)), Ok(1)));
    let err = io_error(IoErrorKind::Other);
    assert!(matches!(TcpConnector::bind::<u8>(Err(err.clone())), Err(ServerError::Bind(_))));
    assert!(matches!(TcpConnector::connect(Ok(2u8)), Ok(2)));
    assert!(matches!(
        TcpConnector::connect::<u8>(Err(err)),
        Err(ServerError::AcceptConnection { .. })
    ));
    let server = Server::new("127.0.0.1:1".to_string());
    assert_eq!(server.connector, TcpConnector);
    let server = server.with_tls(Ok("config".to_string())).unwrap();
    assert_eq!(server.addr, "127.0.0.1:1");
    assert_eq!(server.connector, "config");
}

#[test]
fn a_server_ends_with_the_first_error() {
    let mut task = ServerTask::new();
    let action = task.listen(ServerEvent::Bound(Ok(())));
    assert!(matches!(action, ServerAction::Listen));
    let action = task.listen(ServerEvent::Reported(Some(ServerError::ReadCommand)));
    assert!(matches!(action, ServerAction::Terminate(ServerError::ReadCommand)));
    let action = task.listen(ServerEvent::Reported(None));
    assert!(matches!(action, ServerAction::Ignore));
    let mut task = ServerTask::Listening;
    let action = task.listen(ServerEvent::Reported(None));
    assert!(matches!(action, ServerAction::Return(Ok(()))));
    let mut task = ServerTask::new();
    let err = ServerError::Bind(io_error(IoErrorKind::Other));
    let action = task.listen(ServerEvent::Bound(Err(err)));
    assert!(matches!(action, ServerAction::Return(Err(ServerError::Bind(_)))));
}

#[test]
fn connections_are_accepted_until_one_fails() {
    assert!(matches!(accepted(Ok(3u8)), AcceptAction::Spawn(3)));
    assert!(matches!(
        accepted::<u8>(Err(ServerError::PeerAddr)),
        AcceptAction::Report(ServerError::PeerAddr)
    ));
}

#[test]
fn a_closed_connection_ends_only_itself() {
    assert!(handle_connection(Ok(())).is_none());
    assert!(handle_connection(Err(ServerError::CloseWebsocket)).is_none());
    let gone = TransportError::ResetWithoutClosingHandshake;
    assert!(handle_connection(Err(ServerError::Transport(gone))).is_none());
    let gone = TransportError::Io(io_error(IoErrorKind::UnexpectedEof));
    assert!(handle_connection(Err(ServerError::Transport(gone))).is_none());
    assert!(matches!(
        handle_connection(Err(ServerError::Transport(broken()))),
        Some(ServerError::Transport(_))
    ));
    assert!(matches!(
        handle_connection(Err(ServerError::Utf8Error(no_text()))),
        Some(ServerError::Utf8Error(err)) if err == no_text()
    ));
}

#[test]
fn commands_are_read_from_binary_messages() {
    let msg = Message::Binary("h\u{e9}\u{1f600}".as_bytes().to_vec());
    assert_eq!(read_command(msg).unwrap(), "h\u{e9}\u{1f600}");
    assert_eq!(read_command(Message::Binary(vec![])).unwrap(), "");
    for bytes in [vec![0xff], vec![0xc0, 0x80], vec![0xe2, 0x82], vec![0xed, 0xa0, 0x80]] {
        assert!(matches!(
            read_command(Message::Binary(bytes.clone())),
            Err(ServerError::Utf8Error(err)) if err.as_bytes() == bytes
        ));
    }
    assert!(matches!(read_command(Message::Close(None)), Err(ServerError::CloseWebsocket)));
    assert!(matches!(
        read_command(Message::Text("ls".to_string())),
        Err(ServerError::ReadCommand)
    ));
}

#[test]
fn answers_hold_the_output_or_the_error() {
    assert_eq!(answer_text(Ok("out\n".to_string())), "out\n");
    assert_eq!(
        answer_text(Err(ShellError::MalformedInput)),
        "Shell error: Malformed input.\n"
    );
}

#[test]
fn a_host_is_served() {
    let mut task = ServerConnection::new();
    let action = task.impl_handle_connection(ServerConnectionEvent::Accepted(Ok(())));
    assert!(matches!(action, ServerConnectionAction::Receive));
    let msg = Message::Binary(b"ls".to_vec());
    let action = task.impl_handle_connection(ServerConnectionEvent::Received(Some(Ok(msg))));
    assert!(matches!(action, ServerConnectionAction::Execute(cmd) if cmd == "ls"));
    let event = ServerConnectionEvent::Executed(Ok("a\u{e9}".to_string()));
    let action = task.impl_handle_connection(event);
    assert!(matches!(
        action,
        ServerConnectionAction::Send(Message::Binary(data)) if data == vec![0x61, 0xc3, 0xa9]
    ));
    let action = task.impl_handle_connection(ServerConnectionEvent::Sent(Ok(())));
    assert!(matches!(action, ServerConnectionAction::Receive));
    let action = task.impl_handle_connection(ServerConnectionEvent::Received(None));
    assert!(matches!(action, ServerConnectionAction::Close));
    let action = task.impl_handle_connection(ServerConnectionEvent::Closed(Ok(())));
    assert!(matches!(action, ServerConnectionAction::Return(Ok(()))));
    assert_eq!(task, ServerConnection::Returned);
}

#[test]
fn failures_of_a_served_host_are_reported() {
    let mut task = ServerConnection::new();
    let action = task.impl_handle_connection(ServerConnectionEvent::Accepted(Err(broken())));
    assert!(matches!(
        action,
        ServerConnectionAction::Return(Err(ServerError::WebSocketHandshake))
    ));
    let mut task = ServerConnection::Receiving;
    let event = ServerConnectionEvent::Received(Some(Err(broken())));
    assert!(matches!(
        task.impl_handle_connection(event),
        ServerConnectionAction::Return(Err(ServerError::Transport(_)))
    ));
    let mut task = ServerConnection::Receiving;
    let event = ServerConnectionEvent::Received(Some(Ok(Message::Binary(vec![0x80]))));
    assert!(matches!(
        task.impl_handle_connection(event),
        ServerConnectionAction::Return(Err(ServerError::Utf8Error(_)))
    ));
    let mut task = ServerConnection::Sending;
    assert!(matches!(
        task.impl_handle_connection(ServerConnectionEvent::Sent(Err(broken()))),
        ServerConnectionAction::Return(Err(ServerError::Transport(_)))
    ));
    let mut task = ServerConnection::Closing;
    assert!(matches!(
        task.impl_handle_connection(ServerConnectionEvent::Closed(Err(broken()))),
        ServerConnectionAction::Return(Err(ServerError::Transport(_)))
    ));
}

#[test]
fn server_errors_have_their_texts() {
    let err = ServerError::ReadFile {
        err: io_error(IoErrorKind::Other),
        file: "cert.pem".to_string(),
    };
    assert_eq!(err.message(), "Failed to read cert.pem from file");
    assert_eq!(ServerError::Utf8Error(no_text()).message(), "Error marshaling to UTF8");
    assert_eq!(
        ServerError::ShellError(ShellError::NoCommand).message(),
        "Error while precessing the shell command"
    );
}

#[test]
fn a_client_ends_with_the_report_of_its_tasks() {
    let client = SenderClient::new(HostUrl { href: "ws://localhost:1/".to_string() });
    assert_eq!(client.listener_url.scheme(), "ws");
    let (task, action) = ClientTask::new().connect(ClientEvent::Connected(Ok(())));
    assert!(matches!(action, ClientAction::Supervise));
    let (task, action) = task.connect(ClientEvent::Closed(Ok(())));
    assert!(matches!(action, ClientAction::Ignore));
    let report = Err(SenderClientError::Disconnected);
    let (task, action) = task.connect(ClientEvent::Reported(report));
    assert!(matches!(action, ClientAction::Close));
    let (_, action) = task.connect(ClientEvent::Closed(Ok(())));
    assert!(matches!(action, ClientAction::Return(Err(SenderClientError::Disconnected))));

    let (_, action) = ClientTask::Closing(Ok(())).connect(ClientEvent::Closed(Ok(())));
    assert!(matches!(action, ClientAction::Return(Ok(()))));
    let (_, action) =
        ClientTask::Closing(Ok(())).connect(ClientEvent::Closed(Err(SenderClientError::Disconnected)));
    assert!(matches!(action, ClientAction::Return(Err(SenderClientError::Disconnected))));
    let (_, action) = ClientTask::new().connect(ClientEvent::Connected(Err(broken())));
    assert!(matches!(action, ClientAction::Return(Err(SenderClientError::WebSocketConnect(_)))));
}

#[test]
fn waiting_output_is_written_at_the_end() {
    let mut state = ClientClose::new();
    assert!(matches!(state.close(CloseEvent::Joined), CloseAction::Take));
    let msg = Message::Text("rest".to_string());
    let action = state.close(CloseEvent::Waiting(Some(msg)));
    assert!(matches!(action, CloseAction::Write(out) if out == b"rest".to_vec()));
    assert!(matches!(state.close(CloseEvent::Written(Ok(()))), CloseAction::Take));
    assert!(matches!(state.close(CloseEvent::Waiting(None)), CloseAction::Return(Ok(()))));
    let mut state = ClientClose::Writing;
    let action = state.close(CloseEvent::Written(Err(io_error(IoErrorKind::Other))));
    assert!(matches!(action, CloseAction::Return(Err(SenderClientError::IOWrite { .. }))));
}

#[test]
fn messages_of_the_server_are_passed_on() {
    let mut task = ReadTask::new();
    let msg = Message::Binary(vec![1]);
    let action = task.handle_read(ReadEvent::Received(Some(Ok(msg.clone()))));
    assert!(matches!(action, ReadAction::Pass(m) if m == msg));
    assert!(matches!(task.handle_read(ReadEvent::Passed(Ok(()))), ReadAction::Receive));
    assert!(matches!(task.handle_read(ReadEvent::Received(None)), ReadAction::Return));
    let mut task = ReadTask::Passing;
    assert!(matches!(
        task.handle_read(ReadEvent::Passed(Err(msg.clone()))),
        ReadAction::Report(SenderClientError::Channel(m)) if m == msg
    ));
    let mut task = ReadTask::new();
    assert!(matches!(
        task.handle_read(ReadEvent::Received(Some(Err(broken())))),
        ReadAction::Report(SenderClientError::TungsteniteReadData { .. })
    ));
}

#[test]
fn a_client_goes_round() {
    let mut state = ReadWriteLoop::ReadStdin;
    assert_eq!(state.read_write(Ok(())), Ok(()));
    assert_eq!(state, ReadWriteLoop::SendToServer);
    assert_eq!(state.read_write(Ok(())), Ok(()));
    assert_eq!(state, ReadWriteLoop::WriteStdout);
    let err = SenderClientError::IORead(io_error(IoErrorKind::Other));
    assert_eq!(state.read_write(Err(err.clone())), Err(err));
    assert_eq!(state, ReadWriteLoop::WriteStdout);
    assert_eq!(state.read_write(Ok(())), Ok(()));
    assert_eq!(state, ReadWriteLoop::ReadStdin);
}

#[test]
fn client_errors_have_their_texts() {
    assert_eq!(SenderClientError::Disconnected.message(), "Server disconnected");
    assert_eq!(
        SenderClientError::Channel(Message::Ping(vec![])).message(),
        "Error while trying to send the output of a command to the main task"
    );
}
