use rust_remote_shell::astarte::{DeviceConfig, Error, HostUrl};
use rust_remote_shell::device::{
    poll_stop, CloseConnection, CloseConnectionAction, CloseConnectionEvent, ConnectionAction, ConnectionEvent, ConnectionSet, ConnectionSetAction,
    ConnectionSetEvent, ConnectionTask, Device, DeviceError, MessageAction, MessageEvent,
    MessageTask, OutputEvent, TaskEnd, OUTPUT_CAPACITY,
};
use rust_remote_shell::protocol::{DeviceMsg, HostMsg, Message};
use rust_remote_shell::shell::ShellError;
use rust_remote_shell::transport::{
    CodecError, IoError, IoErrorKind, TaskError, TransportError,
};

fn io_error() -> IoError {
    IoError { kind: IoErrorKind::Other, detail: "broken pipe".to_string() }
}

fn url() -> HostUrl {
    HostUrl { href: "ws://10.0.0.1:1/".to_string() }
}

fn lost() -> TransportError {
    TransportError::ResetWithoutClosingHandshake
}

fn command(cmd: &str) -> HostMsg {
    HostMsg::Command { cmd: cmd.to_string() }
}

fn received(msg: HostMsg) -> ConnectionEvent {
    ConnectionEvent::Received(Some(Ok(msg)))
}

#[test]
fn a_device_is_created() {
    let device: Device<u8, String> = Device::new(Ok(9)).unwrap();
    assert_eq!(device.astarte_device, 9);
    assert_eq!(device.ca_cert_file, None);
    let res: Result<Device<u8, String>, DeviceError> =
        Device::new(Err(Error::AstarteCreateDevice("x".to_string())));
    match res {
        Err(DeviceError::Astarte { err: Error::AstarteCreateDevice(_), msg }) => {
            assert_eq!(msg, "failed to create the astarte device");
        }
        other => panic!("unexpected {:?}", other),
    }
    match Device::<u8, String>::configured(Err(Error::Serde)) {
        Err(DeviceError::Astarte { err: Error::Serde, msg }) => {
            assert_eq!(msg, "wrong device config");
        }
        other => panic!("unexpected {:?}", other),
    }
    let cfg = DeviceConfig {
        realm: "r".to_string(),
        device_id: "d".to_string(),
        credentials_secret: "c".to_string(),
        pairing_url: "p".to_string(),
    };
    assert_eq!(Device::<u8, String>::configured(Ok(cfg.clone())).unwrap(), cfg);
}

#[test]
fn a_device_gets_its_certificates() {
    let mut device: Device<u8, String> = Device::new(Ok(1)).unwrap();
    device.with_tls(Some("ca.pem".to_string()));
    assert_eq!(device.ca_cert_file.as_deref(), Some("ca.pem"));
    assert_eq!(device.astarte_device, 1);
}

#[test]
fn a_device_ends_with_its_astarte_task() {
    assert!(Device::<u8, u8>::start(TaskEnd::Finished(Ok(()))).is_ok());
    assert!(matches!(
        Device::<u8, u8>::start(TaskEnd::Finished(Err(DeviceError::ChannelUrl(url())))),
        Err(DeviceError::ChannelUrl(u)) if u == url()
    ));
    assert!(matches!(
        Device::<u8, u8>::start(TaskEnd::Failed(TaskError::Panicked("oops".to_string()))),
        Err(DeviceError::Join(TaskError::Panicked(_)))
    ));
}

#[test]
fn connections_are_opened_and_waited_for() {
    let mut set = ConnectionSet::new();
    let action = set.handle_connections(ConnectionSetEvent::Url(Some(url())));
    assert!(matches!(action, ConnectionSetAction::Spawn(u) if u == url()));
    let action = set.handle_connections(ConnectionSetEvent::Joined(None));
    assert!(matches!(action, ConnectionSetAction::Ignore));
    let action = set.handle_connections(ConnectionSetEvent::Url(None));
    assert!(matches!(action, ConnectionSetAction::JoinNext));
    // the way in which a connection ends makes no difference
    for end in [
        TaskEnd::Finished(Ok(())),
        TaskEnd::Finished(Err(DeviceError::ChannelMsg(HostMsg::Exit))),
        TaskEnd::Failed(TaskError::Cancelled),
    ] {
        let action = set.handle_connections(ConnectionSetEvent::Joined(Some(end)));
        assert!(matches!(action, ConnectionSetAction::JoinNext));
        assert_eq!(set, ConnectionSet::Joining);
    }
    let action = set.handle_connections(ConnectionSetEvent::Joined(None));
    assert!(matches!(action, ConnectionSetAction::Return));
    assert_eq!(set, ConnectionSet::Returned);
}

#[test]
fn messages_are_passed_on_and_clear_the_flag() {
    let mut task = ConnectionTask::new();
    let (action, stop) = task.handle_connection(received(command("ls")), true);
    assert!(matches!(action, ConnectionAction::Queue(msg) if msg == command("ls")));
    assert!(!stop);
    let (action, stop) = task.handle_connection(ConnectionEvent::Queued(Ok(())), stop);
    assert!(matches!(action, ConnectionAction::Receive));
    assert!(!stop);
    let (action, _) = task.handle_connection(received(HostMsg::Exit), stop);
    assert!(matches!(action, ConnectionAction::Queue(HostMsg::Exit)));
    let (action, _) = task.handle_connection(ConnectionEvent::Queued(Err(HostMsg::Exit)), stop);
    assert!(matches!(
        action,
        ConnectionAction::Return(Err(DeviceError::ChannelMsg(HostMsg::Exit)))
    ));
    assert_eq!(task, ConnectionTask::Returned);
}

#[test]
fn ctrl_c_sets_the_flag_where_a_command_runs() {
    let mut task = ConnectionTask::new();
    let (action, stop) = task.handle_connection(received(HostMsg::Ctrlc), false);
    assert!(matches!(action, ConnectionAction::Interrupt));
    assert!(!stop);
    let (action, stop) = task.handle_connection(ConnectionEvent::Interrupted(Ok(())), stop);
    assert!(matches!(action, ConnectionAction::Receive));
    assert!(stop);
}

#[test]
fn ctrl_c_without_a_command_closes() {
    for err in [ShellError::NoCommand, ShellError::KillChild(io_error())] {
        let mut task = ConnectionTask::new();
        task.handle_connection(received(HostMsg::Ctrlc), false);
        let (action, stop) =
            task.handle_connection(ConnectionEvent::Interrupted(Err(err)), false);
        assert!(matches!(action, ConnectionAction::Close));
        assert!(!stop);
        let (action, _) = task.handle_connection(ConnectionEvent::Closed(Ok(())), false);
        assert!(matches!(action, ConnectionAction::AbortAndJoin));
        let joined = ConnectionEvent::Joined(TaskEnd::Failed(TaskError::Cancelled));
        let (action, _) = task.handle_connection(joined, false);
        assert!(matches!(action, ConnectionAction::Return(Ok(()))));
    }
}

#[test]
fn a_close_message_comes_before_the_close() {
    let mut state = CloseConnection::new();
    let action = state.close_connection(CloseConnectionEvent::Closed(Ok(())));
    assert!(matches!(action, CloseConnectionAction::Ignore));
    let action = state.close_connection(CloseConnectionEvent::Start);
    assert!(matches!(action, CloseConnectionAction::Send(Message::Close(None))));
    let action = state.close_connection(CloseConnectionEvent::Sent(Ok(())));
    assert!(matches!(action, CloseConnectionAction::Close));
    let action = state.close_connection(CloseConnectionEvent::Closed(Ok(())));
    assert!(matches!(action, CloseConnectionAction::Return(Ok(()))));

    let mut state = CloseConnection::Sending;
    let action = state.close_connection(CloseConnectionEvent::Sent(Err(lost())));
    assert!(matches!(
        action,
        CloseConnectionAction::Return(Err(DeviceError::Transport(err))) if err == lost()
    ));
    assert_eq!(state, CloseConnection::Returned);
    let mut state = CloseConnection::Closing;
    let action = state.close_connection(CloseConnectionEvent::Closed(Err(lost())));
    assert!(matches!(
        action,
        CloseConnectionAction::Return(Err(DeviceError::Transport(err))) if err == lost()
    ));
}

#[test]
fn output_is_sent_in_pieces() {
    assert_eq!(OUTPUT_CAPACITY, 1024);
}

#[test]
fn a_connection_that_cannot_be_closed_fails() {
    let mut task = ConnectionTask::Closing;
    let event = ConnectionEvent::Closed(Err(DeviceError::Transport(lost())));
    let (action, _) = task.handle_connection(event, false);
    assert!(matches!(action, ConnectionAction::Return(Err(DeviceError::Transport(_)))));
}

#[test]
fn a_connection_ends_with_its_messages() {
    let mut task = ConnectionTask::new();
    let (action, _) = task.handle_connection(ConnectionEvent::Received(None), false);
    assert!(matches!(action, ConnectionAction::Join));
    let end = TaskEnd::Finished(Err(DeviceError::ChildStdout(io_error())));
    let (action, _) = task.handle_connection(ConnectionEvent::Joined(end), false);
    assert!(matches!(action, ConnectionAction::Return(Err(DeviceError::ChildStdout(_)))));

    let mut task = ConnectionTask::Joining;
    let end = TaskEnd::Failed(TaskError::Panicked("p".to_string()));
    let (action, _) = task.handle_connection(ConnectionEvent::Joined(end), false);
    assert!(matches!(action, ConnectionAction::Return(Ok(()))));

    let mut task = ConnectionTask::new();
    let err = DeviceError::WrongWsMessage(Message::Ping(vec![]));
    let (action, stop) = task.handle_connection(ConnectionEvent::Received(Some(Err(err))), true);
    assert!(matches!(action, ConnectionAction::Return(Err(DeviceError::WrongWsMessage(_)))));
    assert!(stop);
}

#[test]
fn what_is_not_waited_for_is_ignored() {
    let mut task = ConnectionTask::new();
    let (action, stop) = task.handle_connection(ConnectionEvent::Queued(Ok(())), true);
    assert!(matches!(action, ConnectionAction::Ignore));
    assert!(stop);
    assert_eq!(task, ConnectionTask::Receiving);
    let mut task = MessageTask::new();
    assert!(matches!(task.handle_host_msgs(MessageEvent::Emptied), MessageAction::Ignore));
    assert_eq!(task, MessageTask::Receiving);
}

fn sent(action: MessageAction) -> DeviceMsg {
    match action {
        MessageAction::Send(msg) => msg,
        other => panic!("unexpected {:?}", other),
    }
}

#[test]
fn an_executed_command_is_answered() {
    let mut task = MessageTask::new();
    let action = task.handle_host_msgs(MessageEvent::Received(Some(command("cat f"))));
    assert!(matches!(action, MessageAction::Execute(cmd) if cmd == "cat f"));
    let action = task.handle_host_msgs(MessageEvent::Executed(Ok(())));
    assert!(matches!(action, MessageAction::ReadOutput));
    let mut msgs = Vec::new();
    for chunk in [vec![1u8, 2], vec![], vec![3]] {
        let event = MessageEvent::Output(OutputEvent::Chunk(chunk));
        msgs.push(sent(task.handle_host_msgs(event)));
        let action = task.handle_host_msgs(MessageEvent::Sent(Ok(())));
        assert!(matches!(action, MessageAction::ReadOutput));
    }
    let action = task.handle_host_msgs(MessageEvent::Output(OutputEvent::Finished));
    assert!(matches!(action, MessageAction::Empty));
    msgs.push(sent(task.handle_host_msgs(MessageEvent::Emptied)));
    let action = task.handle_host_msgs(MessageEvent::Sent(Ok(())));
    assert!(matches!(action, MessageAction::Receive));
    assert_eq!(task, MessageTask::Receiving);
    assert_eq!(
        msgs,
        vec![
            DeviceMsg::Output(vec![1, 2]),
            DeviceMsg::Output(vec![]),
            DeviceMsg::Output(vec![3]),
            DeviceMsg::Eof,
        ]
    );
}

#[test]
fn an_interrupted_command_is_answered_with_the_end() {
    let mut task = MessageTask::Streaming;
    let action = task.handle_host_msgs(MessageEvent::Output(OutputEvent::Stopped));
    assert!(matches!(action, MessageAction::Empty));
    assert_eq!(sent(task.handle_host_msgs(MessageEvent::Emptied)), DeviceMsg::Eof);
}

#[test]
fn a_refused_command_is_answered_with_the_error() {
    let mut task = MessageTask::Executing;
    let event = MessageEvent::Executed(Err(ShellError::EmptyCommand));
    let msg = sent(task.handle_host_msgs(event));
    assert_eq!(msg, DeviceMsg::Failure("Empty command.".to_string()));
    let action = task.handle_host_msgs(MessageEvent::Sent(Ok(())));
    assert!(matches!(action, MessageAction::Receive));
    assert_eq!(task, MessageTask::Receiving);
}

#[test]
fn the_message_task_ends() {
    let mut task = MessageTask::new();
    let action = task.handle_host_msgs(MessageEvent::Received(None));
    assert!(matches!(action, MessageAction::Return(Ok(()))));

    let mut task = MessageTask::new();
    let action = task.handle_host_msgs(MessageEvent::Received(Some(HostMsg::Exit)));
    assert!(matches!(action, MessageAction::Close));
    let action = task.handle_host_msgs(MessageEvent::Closed(Ok(())));
    assert!(matches!(action, MessageAction::Return(Ok(()))));

    let mut task = MessageTask::Streaming;
    let action = task.handle_host_msgs(MessageEvent::Output(OutputEvent::Failed(io_error())));
    assert!(
        matches!(action, MessageAction::Return(Err(DeviceError::ChildStdout(e))) if e == io_error())
    );

    for state in [MessageTask::SendingOutput, MessageTask::SendingError, MessageTask::SendingEof] {
        let mut task = state;
        let err = DeviceError::Serialize(CodecError { detail: "x".to_string() });
        let action = task.handle_host_msgs(MessageEvent::Sent(Err(err)));
        assert!(matches!(action, MessageAction::Return(Err(DeviceError::Serialize(_)))));
        assert_eq!(task, MessageTask::Returned);
    }
}

#[test]
fn the_stop_flag_is_used_up() {
    assert_eq!(poll_stop(true), (true, false));
    assert_eq!(poll_stop(false), (false, false));
}

#[test]
fn device_errors_have_their_texts() {
    let texts = [
        (DeviceError::Transport(lost()), "Trasport error from Tungstenite."),
        (DeviceError::WebSocketConnect(lost()), "Error while trying to connect with the host."),
        (DeviceError::WrongScheme("ftp".to_string()), "Wrong scheme, ftp."),
        (
            DeviceError::ChildStdout(io_error()),
            "Error while reading from child process's stdout.",
        ),
        (DeviceError::ChannelUrl(url()), "Error while sending an URL across tasks."),
        (DeviceError::ChannelMsg(HostMsg::Exit), "Error while sending HostMsg over channel."),
        (DeviceError::Join(TaskError::Cancelled), "Error while joining a tokio task."),
        (
            DeviceError::Astarte { err: Error::Serde, msg: "wrong device config".to_string() },
            "Astarte error, wrong device config.",
        ),
        (DeviceError::Shell(ShellError::NoCommand), "Shell error."),
        (DeviceError::WrongWsMessage(Message::Ping(vec![])), "Wrong WebSocket message type."),
    ];
    for (err, text) in texts {
        assert_eq!(err.message(), text);
    }
}
