use rust_remote_shell::device::DeviceError;
use rust_remote_shell::host::HostError;
use rust_remote_shell::protocol::{CloseFrame, DeviceMsg, HostMsg, Incoming, Message};
use rust_remote_shell::stream::{MessageHandler, Polled};
use rust_remote_shell::transport::{
    is_peer_gone, CodecError, IoError, IoErrorKind, Poll, TransportError,
};

fn close_frame() -> CloseFrame {
    CloseFrame { code: 1000, reason: "bye".to_string() }
}

fn codec_error() -> CodecError {
    CodecError { detail: "no document".to_string() }
}

#[test]
fn a_device_reads_the_messages_of_a_host() {
    assert!(matches!(
        HostMsg::try_from(Message::Close(None)),
        Incoming::Done(Ok(HostMsg::Exit))
    ));
    assert!(matches!(
        HostMsg::try_from(Message::Close(Some(close_frame()))),
        Incoming::Done(Ok(HostMsg::Exit))
    ));
    assert!(matches!(
        HostMsg::try_from(Message::Binary(vec![5, 6])),
        Incoming::Decode(bytes) if bytes == vec![5, 6]
    ));
    for msg in [
        Message::Text("ls".to_string()),
        Message::Ping(vec![]),
        Message::Pong(vec![1]),
        Message::Frame(vec![2]),
    ] {
        assert!(matches!(
            HostMsg::try_from(msg.clone()),
            Incoming::Done(Err(DeviceError::WrongWsMessage(m))) if m == msg
        ));
    }
}

#[test]
fn a_host_reads_the_messages_of_a_device() {
    assert!(matches!(
        DeviceMsg::try_from(Message::Close(None)),
        Incoming::Done(Ok(DeviceMsg::Eof))
    ));
    assert!(matches!(
        DeviceMsg::try_from(Message::Binary(vec![])),
        Incoming::Decode(bytes) if bytes.is_empty()
    ));
    assert!(matches!(
        DeviceMsg::try_from(Message::Ping(vec![3])),
        Incoming::Done(Err(HostError::WrongWsMessage(Message::Ping(data)))) if data == vec![3]
    ));
}

#[test]
fn frames_are_transparent() {
    let bytes = vec![0u8, 255, 7];
    let msg = HostMsg::into_message(Ok(bytes.clone())).unwrap();
    assert!(matches!(HostMsg::try_from(msg), Incoming::Decode(b) if b == bytes));
    let msg = DeviceMsg::into_message(Ok(bytes.clone())).unwrap();
    assert!(matches!(DeviceMsg::try_from(msg), Incoming::Decode(b) if b == bytes));
}

#[test]
fn codec_errors_are_reported() {
    assert!(matches!(
        HostMsg::into_message(Err(codec_error())),
        Err(HostError::Serialize(e)) if e == codec_error()
    ));
    assert!(matches!(
        DeviceMsg::into_message(Err(codec_error())),
        Err(DeviceError::Serialize(e)) if e == codec_error()
    ));
    assert!(matches!(
        HostMsg::from_decoded(Err(codec_error())),
        Err(DeviceError::Deserialize(e)) if e == codec_error()
    ));
    assert!(matches!(
        DeviceMsg::from_decoded(Err(codec_error())),
        Err(HostError::Deserialize(e)) if e == codec_error()
    ));
    assert!(matches!(HostMsg::from_decoded(Ok(HostMsg::Ctrlc)), Ok(HostMsg::Ctrlc)));
    assert!(matches!(DeviceMsg::from_decoded(Ok(DeviceMsg::Eof)), Ok(DeviceMsg::Eof)));
}

#[test]
fn messages_carry_data() {
    assert_eq!(Message::Text("h\u{e9}".to_string()).into_data(), vec![0x68, 0xc3, 0xa9]);
    assert_eq!(Message::Binary(vec![1]).into_data(), vec![1]);
    assert_eq!(Message::Ping(vec![2]).into_data(), vec![2]);
    assert_eq!(Message::Pong(vec![3]).into_data(), vec![3]);
    assert_eq!(Message::Frame(vec![4]).into_data(), vec![4]);
    assert!(Message::Close(None).into_data().is_empty());
    assert_eq!(Message::Close(Some(close_frame())).into_data(), b"bye".to_vec());
}

#[test]
fn a_peer_is_gone_by_reset_or_by_end() {
    assert!(is_peer_gone(&TransportError::ResetWithoutClosingHandshake));
    let err = |kind| TransportError::Io(IoError { kind, detail: "x".to_string() });
    assert!(is_peer_gone(&err(IoErrorKind::UnexpectedEof)));
    assert!(!is_peer_gone(&err(IoErrorKind::Other)));
    assert!(!is_peer_gone(&TransportError::Other("utf-8".to_string())));
}

#[test]
fn the_stream_of_messages_remembers_its_end() {
    let mut handler = MessageHandler::new("connection".to_string());
    assert!(!handler.is_terminated());
    assert!(matches!(handler.poll_next(Poll::Pending), Poll::Pending));
    assert!(!handler.is_terminated());

    let polled = Polled { item: Some(Ok(Message::Binary(vec![1, 2]))), terminated: false };
    assert!(matches!(
        handler.poll_next(Poll::Ready(polled)),
        Poll::Ready(Some(Incoming::Decode(bytes))) if bytes == vec![1, 2]
    ));

    let err = TransportError::Other("capacity".to_string());
    let polled = Polled { item: Some(Err(err.clone())), terminated: true };
    assert!(matches!(
        handler.poll_next(Poll::Ready(polled)),
        Poll::Ready(Some(Incoming::Done(Err(HostError::WebSocketConnect(e))))) if e == err
    ));
    assert!(handler.is_terminated());
    assert!(handler.clone().is_terminated());
    assert_eq!(handler.clone().ws_stream, "connection");

    assert!(matches!(handler.poll_next(Poll::Pending), Poll::Pending));
    assert!(handler.is_terminated());

    let polled = Polled { item: None, terminated: true };
    assert!(matches!(handler.poll_next(Poll::Ready(polled)), Poll::Ready(None)));
}
