use rust_remote_shell::command::{
    CommandAction, CommandEvent, CommandService, MessageStep,
};
use rust_remote_shell::host::{
    ctrl_c_handler, Host, HostError, HostLayer, HostService, ListenAction, ListenEvent, ListenLoop, ListenStack,
    StdinAction, StdinEvent, StdinReader,
};
use rust_remote_shell::io_handler::IoHandler;
use rust_remote_shell::protocol::{DeviceMsg, HostMsg, Message};
use rust_remote_shell::service;
use rust_remote_shell::tls;
use rust_remote_shell::transport::{
    CodecError, IoError, IoErrorKind, Poll, SendError, TransportError,
};
use rust_remote_shell::websocket::{TcpAccept, WebSocketLayer, WebSocketService, WebSocketStep};

fn io_error(kind: IoErrorKind) -> IoError {
    IoError { kind, detail: "io".to_string() }
}

fn broken() -> TransportError {
    TransportError::Other("broken".to_string())
}

fn codec_error() -> CodecError {
    CodecError { detail: "codec".to_string() }
}

#[test]
fn closing_errors_are_handled() {
    let gone = [
        HostError::WebSocketConnect(TransportError::ResetWithoutClosingHandshake),
        HostError::WebSocketConnect(TransportError::Io(io_error(IoErrorKind::UnexpectedEof))),
        HostError::TungsteniteReadData(broken()),
        HostError::Exit,
    ];
    for err in gone {
        assert!(matches!(err.handle_close(), Err(HostError::Exit)));
    }
    let err = HostError::WebSocketConnect(TransportError::Io(io_error(IoErrorKind::Other)));
    assert!(matches!(err.handle_close(), Err(HostError::WebSocketConnect(TransportError::Io(_)))));
    let err = HostError::Tls(tls::Error::AcceptTls(io_error(IoErrorKind::Other)));
    assert_eq!(
        err.handle_close().unwrap(),
        "Connection discarded due to tls error: Error while accepting a TLS connection."
    );
    let err = HostError::Tls(tls::Error::WrongItem);
    assert!(matches!(err.handle_close(), Err(HostError::Tls(tls::Error::WrongItem))));
    assert!(matches!(HostError::UnexpectedEof.handle_close(), Err(HostError::UnexpectedEof)));
}

#[test]
fn a_host_is_bound() {
    let host: Host<u8, String> = Host::bind(Ok(4)).unwrap();
    assert_eq!(host.listener, 4);
    assert!(matches!(host.listen_result(), ListenStack::Plain));
    let host = host.with_tls(Ok("acceptor".to_string())).unwrap();
    assert_eq!(host.listener, 4);
    assert!(matches!(host.listen_result(), ListenStack::Tls(a) if a == "acceptor"));
    assert!(matches!(
        host.with_tls(Err(HostError::Tls(tls::Error::WrongItem))),
        Err(HostError::Tls(tls::Error::WrongItem))
    ));
    let res: Result<Host<u8, String>, HostError> = Host::bind(Err(io_error(IoErrorKind::Other)));
    assert!(matches!(res, Err(HostError::Bind(_))));
}

#[test]
fn connections_become_message_handlers() {
    let handler = HostService::<u8, u8>::call(Ok("ws".to_string())).unwrap();
    assert_eq!(handler.ws_stream, "ws");
    assert!(!handler.is_terminated());
    let res = HostService::<u8, u8>::call::<String>(Err(HostError::UnexpectedEof));
    assert!(matches!(res, Err(HostError::UnexpectedEof)));
    let service = HostLayer { ctrl_c: "notify".to_string() }.layer(3u8);
    assert_eq!(service.service, 3);
    assert_eq!(service.ctrl_c, "notify");
}

#[test]
fn tcp_connections_are_accepted() {
    assert!(matches!(TcpAccept::poll::<u8>(Poll::Pending), Poll::Pending));
    assert!(matches!(TcpAccept::poll(Poll::Ready(Ok(8u8))), Poll::Ready(Ok(8))));
    let res = TcpAccept::poll::<u8>(Poll::Ready(Err(io_error(IoErrorKind::Other))));
    assert!(matches!(res, Poll::Ready(Err(HostError::Listen(_)))));
}

#[test]
fn websocket_connections_are_made() {
    assert_eq!(WebSocketLayer.layer(6u8).service, 6);
    let step: WebSocketStep<u8, u16> = WebSocketService::<u8>::connected(Ok(1));
    assert!(matches!(step, WebSocketStep::Handshake(1)));
    let step: WebSocketStep<u8, u16> =
        WebSocketService::<u8>::connected(Err(HostError::UnexpectedEof));
    assert!(matches!(step, WebSocketStep::Return(Err(HostError::UnexpectedEof))));
    let step: WebSocketStep<u8, u16> = WebSocketService::<u8>::upgraded(Ok(2));
    assert!(matches!(step, WebSocketStep::Return(Ok(2))));
    let step: WebSocketStep<u8, u16> = WebSocketService::<u8>::upgraded(Err(broken()));
    assert!(matches!(step, WebSocketStep::Return(Err(HostError::WebSocketConnect(_)))));
}

#[test]
fn a_ready_service_is_taken() {
    let mut service = service::WebSocketLayer.layer(vec![1u8, 2]);
    assert_eq!(service.call(), vec![1, 2]);
    assert_eq!(service.service, vec![1, 2]);
}

#[test]
fn a_host_listens_for_devices() {
    let mut state = ListenLoop::new();
    let action = state.listen_loop(ListenEvent::Line(Some("early".to_string())));
    assert!(matches!(action, ListenAction::Ignore));
    let action = state.listen_loop(ListenEvent::Connected(Ok(())));
    assert!(matches!(action, ListenAction::AwaitCommand));
    let action = state.listen_loop(ListenEvent::Line(None));
    assert!(matches!(action, ListenAction::AwaitCommand));
    let action = state.listen_loop(ListenEvent::Line(Some("ls\n".to_string())));
    assert!(matches!(action, ListenAction::Run(cmd) if cmd == "ls\n"));
    let action = state.listen_loop(ListenEvent::Ran(Ok(())));
    assert!(matches!(action, ListenAction::AwaitCommand));
    // CTRL D closes the connection and not the host
    let action = state.listen_loop(ListenEvent::Line(Some(String::new())));
    assert!(matches!(action, ListenAction::Close));
    let action = state.listen_loop(ListenEvent::Closed(Ok(())));
    assert!(matches!(action, ListenAction::StopReadingAndAccept));
    state.listen_loop(ListenEvent::Connected(Ok(())));
    let action = state.listen_loop(ListenEvent::CtrlC);
    assert!(matches!(action, ListenAction::Close));
    state.listen_loop(ListenEvent::Closed(Ok(())));
    let action = state.listen_loop(ListenEvent::CtrlC);
    assert!(matches!(action, ListenAction::ExitProcess));
    assert_eq!(state, ListenLoop::Exited);
}

#[test]
fn a_host_ends_only_with_an_error() {
    let mut state = ListenLoop::Accepting;
    let action = state.listen_loop(ListenEvent::Connected(Err(HostError::UnexpectedEof)));
    assert!(matches!(action, ListenAction::Return(HostError::UnexpectedEof)));
    let mut state = ListenLoop::Closing;
    let action = state.listen_loop(ListenEvent::Closed(Err(HostError::TungsteniteClose(broken()))));
    assert!(matches!(action, ListenAction::Return(HostError::TungsteniteClose(_))));
    let mut state = ListenLoop::RunningCommand;
    let action = state.listen_loop(ListenEvent::Ran(Err(HostError::UnexpectedEof)));
    assert!(matches!(action, ListenAction::Return(HostError::UnexpectedEof)));
    assert_eq!(state, ListenLoop::Returned);
}

#[test]
fn a_lost_device_is_replaced() {
    let errors = [
        HostError::TungsteniteReadData(broken()),
        HostError::WebSocketConnect(TransportError::ResetWithoutClosingHandshake),
    ];
    for err in errors {
        let mut state = ListenLoop::RunningCommand;
        let ran = CommandService::handle_command(Err(err));
        assert!(matches!(state.listen_loop(ListenEvent::Ran(ran)), ListenAction::Accept));
        assert_eq!(state, ListenLoop::Accepting);
    }
}

#[test]
fn exit_waits_for_the_next_device() {
    let (mut service, action) = CommandService::call(" exit\n".to_string());
    assert!(matches!(action, CommandAction::Close));
    let result = match service.impl_handle_command(CommandEvent::Closed(Ok(()))) {
        CommandAction::Return(result) => result,
        other => panic!("unexpected {:?}", other),
    };
    assert!(matches!(result, Err(HostError::Exit)));
    let mut state = ListenLoop::RunningCommand;
    let ran = CommandService::handle_command(result);
    assert!(matches!(state.listen_loop(ListenEvent::Ran(ran)), ListenAction::Accept));
}

#[test]
fn an_exit_that_cannot_close_fails() {
    let mut service = CommandService::Closing;
    let event = CommandEvent::Closed(Err(HostError::WebSocketConnect(broken())));
    assert!(matches!(
        service.impl_handle_command(event),
        CommandAction::Return(Err(HostError::WebSocketConnect(_)))
    ));
}

#[test]
fn results_of_commands_reach_the_host() {
    assert!(CommandService::handle_command(Ok(())).is_ok());
    let err = HostError::Tls(tls::Error::AcceptTls(io_error(IoErrorKind::Other)));
    assert!(CommandService::handle_command(Err(err)).is_ok());
    assert!(matches!(
        CommandService::handle_command(Err(HostError::UnexpectedEof)),
        Err(HostError::UnexpectedEof)
    ));
}

fn msg(msg: DeviceMsg) -> CommandEvent {
    CommandEvent::Received(Some(Ok(msg)))
}

#[test]
fn the_output_of_a_command_is_shown() {
    let (mut service, action) = CommandService::call("ls\n".to_string());
    assert!(
        matches!(action, CommandAction::Send(m) if m == HostMsg::Command { cmd: "ls\n".to_string() })
    );
    let action = service.impl_handle_command(CommandEvent::Sent(Ok(())));
    assert!(matches!(action, CommandAction::Wait));
    let mut shown: Vec<Vec<u8>> = Vec::new();
    for chunk in [vec![97u8], vec![98, 10]] {
        match service.impl_handle_command(msg(DeviceMsg::Output(chunk))) {
            CommandAction::Write(out) => shown.push(out),
            other => panic!("unexpected {:?}", other),
        }
        let action = service.impl_handle_command(CommandEvent::Written(Ok(())));
        assert!(matches!(action, CommandAction::Wait));
    }
    let action = service.impl_handle_command(msg(DeviceMsg::Eof));
    assert!(matches!(action, CommandAction::Return(Ok(()))));
    assert_eq!(shown, vec![vec![97], vec![98, 10]]);
    assert_eq!(service, CommandService::Returned);
}

#[test]
fn a_refused_command_ends() {
    let mut service = CommandService::Waiting;
    let action = service.impl_handle_command(msg(DeviceMsg::Failure("no".to_string())));
    assert!(matches!(action, CommandAction::Return(Ok(()))));
}

#[test]
fn ctrl_c_shows_the_rest_of_the_output() {
    let mut service = CommandService::Waiting;
    let action = service.impl_handle_command(CommandEvent::CtrlC);
    assert!(matches!(action, CommandAction::Send(HostMsg::Ctrlc)));
    // a CTRL C that is not sent is only noted
    let event = CommandEvent::Sent(Err(SendError::Transport(broken())));
    assert!(matches!(service.impl_handle_command(event), CommandAction::Drain));
    let action = service.impl_handle_command(msg(DeviceMsg::Output(vec![1])));
    assert!(matches!(action, CommandAction::Write(out) if out == vec![1]));
    let action = service.impl_handle_command(CommandEvent::Written(Ok(())));
    assert!(matches!(action, CommandAction::Drain));
    let action = service.impl_handle_command(CommandEvent::Received(None));
    assert!(matches!(action, CommandAction::Return(Ok(()))));

    let mut service = CommandService::Interrupting;
    let event = CommandEvent::Sent(Err(SendError::Encode(codec_error())));
    assert!(matches!(
        service.impl_handle_command(event),
        CommandAction::Return(Err(HostError::Serialize(_)))
    ));
}

#[test]
fn failures_of_a_command_are_reported() {
    let mut service = CommandService::Sending;
    let event = CommandEvent::Sent(Err(SendError::Transport(broken())));
    assert!(matches!(
        service.impl_handle_command(event),
        CommandAction::Return(Err(HostError::TungsteniteReadData(_)))
    ));
    let mut service = CommandService::Sending;
    let event = CommandEvent::Sent(Err(SendError::Encode(codec_error())));
    assert!(matches!(
        service.impl_handle_command(event),
        CommandAction::Return(Err(HostError::Serialize(_)))
    ));
    let mut service = CommandService::Waiting;
    assert!(matches!(
        service.impl_handle_command(CommandEvent::Received(None)),
        CommandAction::Return(Err(HostError::UnexpectedEof))
    ));
    for state in [CommandService::Waiting, CommandService::Draining] {
        let mut service = state;
        let event = CommandEvent::Received(Some(Err(HostError::Deserialize(codec_error()))));
        assert!(matches!(
            service.impl_handle_command(event),
            CommandAction::Return(Err(HostError::Deserialize(_)))
        ));
    }
    for state in [CommandService::Writing, CommandService::WritingRest] {
        let mut service = state;
        let event = CommandEvent::Written(Err(io_error(IoErrorKind::Other)));
        assert!(matches!(
            service.impl_handle_command(event),
            CommandAction::Return(Err(HostError::IOWrite(_)))
        ));
    }
    let mut service = CommandService::Draining;
    assert!(matches!(service.impl_handle_command(CommandEvent::CtrlC), CommandAction::Ignore));
}

#[test]
fn messages_are_told_apart() {
    assert!(matches!(
        CommandService::handle_incoming_msg(Some(Ok(DeviceMsg::Output(vec![4])))),
        Ok(MessageStep::Write(out)) if out == vec![4]
    ));
    assert!(matches!(
        CommandService::handle_incoming_msg(Some(Ok(DeviceMsg::Eof))),
        Ok(MessageStep::Stop)
    ));
    assert!(matches!(
        CommandService::handle_incoming_msg(None),
        Err(HostError::UnexpectedEof)
    ));
    assert!(matches!(
        CommandService::handle_msg_variants(Err(HostError::Exit)),
        Err(HostError::Exit)
    ));
}

#[test]
fn only_a_signal_is_a_ctrl_c() {
    assert!(ctrl_c_handler(Ok(())));
    assert!(!ctrl_c_handler(Err(io_error(IoErrorKind::Other))));
}

#[test]
fn lines_are_read_and_passed_on() {
    let mut reader = StdinReader::new();
    let action = reader.stdin_handler(StdinEvent::Read(Ok("ls\n".to_string())));
    assert!(matches!(action, StdinAction::Pass(line) if line == "ls\n"));
    let action = reader.stdin_handler(StdinEvent::Passed(Ok(())));
    assert!(matches!(action, StdinAction::Read));
    let action = reader.stdin_handler(StdinEvent::Passed(Ok(())));
    assert!(matches!(action, StdinAction::Ignore));
    reader.stdin_handler(StdinEvent::Read(Ok(String::new())));
    let action = reader.stdin_handler(StdinEvent::Passed(Err("ls".to_string())));
    assert!(matches!(action, StdinAction::Return(HostError::ChannelCmd(line)) if line == "ls"));
    let mut reader = StdinReader::new();
    let action = reader.stdin_handler(StdinEvent::Read(Err(io_error(IoErrorKind::Other))));
    assert!(matches!(action, StdinAction::Return(HostError::IORead(_))));
}

#[test]
fn the_last_line_is_held() {
    let mut io = IoHandler::default();
    assert_eq!(io.buf(), "");
    let line = io.read_stdin("ls -l\n".to_string(), Ok(())).unwrap();
    assert_eq!(line.as_deref(), Some("ls -l\n"));
    assert_eq!(io.buf(), "ls -l\n");
    assert_eq!(io.read_stdin("exit\n".to_string(), Ok(())).unwrap(), None);
    assert_eq!(io.buf(), "exit\n");
    let res = io.read_stdin("exit".to_string(), Err(io_error(IoErrorKind::Other)));
    assert!(matches!(res, Err(HostError::IORead(_))));
    // what was read before the failure is held
    assert_eq!(io.buf(), "exit");
    assert!(IoHandler::write_stdout(Ok(()), Ok(())).is_ok());
    let err = || Err(io_error(IoErrorKind::Other));
    assert!(matches!(IoHandler::write_stdout(err(), Ok(())), Err(HostError::IOWrite(_))));
    assert!(matches!(IoHandler::write_stdout(Ok(()), err()), Err(HostError::IOWrite(_))));
}

#[test]
fn host_errors_have_their_texts() {
    let io = || io_error(IoErrorKind::Other);
    let texts = [
        (HostError::WebSocketConnect(broken()), "Error while trying to connect with a device."),
        (HostError::IORead(io()), "IO error occurred while reading from stdin."),
        (HostError::IOWrite(io()), "IO error occurred while writing to stdout."),
        (HostError::Bind(io()), "Failed to bind."),
        (HostError::Listen(io()), "Failed to accept a new connection."),
        (
            HostError::ChannelMsg(Message::Ping(vec![])),
            "Error while trying to send the output of a command to the task responsible for handling it.",
        ),
        (
            HostError::ChannelCmd("ls".to_string()),
            "Error while trying to send the command to the task responsible for handling it.",
        ),
        (
            HostError::TungsteniteReadData(broken()),
            "Error from Tungstenite while reading command.",
        ),
        (
            HostError::TungsteniteClose(broken()),
            "Error from Tungstenite while closing websocket connection",
        ),
        (HostError::Deserialize(codec_error()), "Couldn't deserialize from BSON."),
        (HostError::Serialize(codec_error()), "Couldn't serialize to BSON."),
        (HostError::UnexpectedEof, "Unexpected EoF."),
        (HostError::Exit, "Exit command"),
        (HostError::Tls(tls::Error::WrongItem), "Wrong item."),
    ];
    for (err, text) in texts {
        assert_eq!(err.message(), text);
    }
}
