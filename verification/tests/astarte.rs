use rust_remote_shell::address::{AddrParseError, IpAddr};
use rust_remote_shell::astarte::{
    address_text, AstarteMap, AstarteType, DataAggObject, DeviceConfig, Error,
    HandleAstarteConnection, HostUrl, Scheme, UrlParseError,
};
use rust_remote_shell::device::{
    create_ws_stream, event_address, handle_astarte_events, url_sent, AstarteAction, AstarteEvent,
    DeviceError, WsRoute,
};
use rust_remote_shell::transport::{IoError, IoErrorKind};

fn no_address() -> Result<IpAddr, AddrParseError> {
    Err(AddrParseError { detail: "invalid IP address syntax".to_string() })
}

fn text(s: &str) -> AstarteType {
    AstarteType::String(s.to_string())
}

fn object(entries: Vec<(&str, AstarteType)>) -> AstarteMap {
    let mut map = AstarteMap::new();
    for (key, value) in entries {
        map.insert(key.to_string(), value);
    }
    map
}

fn told(scheme: &str, host: &str, port: i32) -> AstarteMap {
    object(vec![
        ("scheme", text(scheme)),
        ("host", text(host)),
        ("port", AstarteType::Integer(port)),
    ])
}

#[test]
fn the_machine_itself_goes_by_a_name() {
    let map = told("ws", "127.0.0.1", 8080);
    assert_eq!(address_text(&map), Some("127.0.0.1".to_string()));
    let url =
        HandleAstarteConnection.retrieve_url(&map, Ok(IpAddr::V4(127, 0, 0, 1))).unwrap();
    assert_eq!(url.href, "ws://localhost.local:8080/");
    assert_eq!(url.scheme(), "ws");
}

#[test]
fn local_names_need_no_parsing() {
    for name in ["localhost", "localhost.local"] {
        let map = told("wss", name, 9000);
        assert_eq!(address_text(&map), None);
        let url = HandleAstarteConnection.retrieve_url(&map, no_address()).unwrap();
        assert_eq!(url.href, "wss://localhost.local:9000/");
    }
}

#[test]
fn the_default_port_is_left_out_of_the_url() {
    let map = told("ws", "10.0.0.200", 80);
    let url =
        HandleAstarteConnection.retrieve_url(&map, Ok(IpAddr::V4(10, 0, 0, 200))).unwrap();
    assert_eq!(url.href, "ws://10.0.0.200/");
}

#[test]
fn the_address_may_stand_under_ip() {
    let map = object(vec![
        ("scheme", text("ws")),
        ("ip", text("192.168.1.2")),
        ("port", AstarteType::Integer(1)),
    ]);
    assert_eq!(address_text(&map), Some("192.168.1.2".to_string()));
    let data =
        HandleAstarteConnection.retrieve_host(&map, Ok(IpAddr::V4(192, 168, 1, 2))).unwrap();
    assert_eq!(data, DataAggObject { scheme: Scheme::Ws, ip: IpAddr::V4(192, 168, 1, 2), port: 1 });
}

#[test]
fn host_goes_before_ip() {
    let map = object(vec![("host", text("1.2.3.4")), ("ip", text("5.6.7.8"))]);
    assert_eq!(address_text(&map), Some("1.2.3.4".to_string()));
}

#[test]
fn missing_entries_are_reported_in_order() {
    let handle = HandleAstarteConnection;
    let missing = |map: AstarteMap| match handle.retrieve_url(&map, no_address()) {
        Err(Error::MissingUrlInfo(msg)) => msg,
        other => panic!("unexpected {:?}", other),
    };
    assert_eq!(missing(AstarteMap::new()), "Missing scheme");
    assert_eq!(missing(object(vec![("scheme", AstarteType::Other)])), "Missing IP address");
    assert_eq!(
        missing(object(vec![("scheme", text("ws")), ("host", text("localhost"))])),
        "Missing port value"
    );
}

#[test]
fn wrong_entries_are_reported() {
    let handle = HandleAstarteConnection;
    let map = object(vec![
        ("scheme", text("ws")),
        ("host", AstarteType::Integer(1)),
        ("port", AstarteType::Integer(1)),
    ]);
    assert!(matches!(handle.retrieve_url(&map, no_address()), Err(Error::AstarteWrongType)));
    let map = told("http", "nonsense", -1);
    assert!(
        matches!(handle.retrieve_url(&map, no_address()), Err(Error::ParseScheme(s)) if s == "http")
    );
    let map = told("ws", "nonsense", -1);
    assert!(matches!(handle.retrieve_url(&map, no_address()), Err(Error::ParseAddr(err)) if Err(err.clone()) == no_address()));
    for port in [-1, 65536, i32::MAX] {
        let map = told("ws", "localhost", port);
        assert!(matches!(handle.retrieve_url(&map, no_address()), Err(Error::ParsePort(_))));
    }
    assert!(handle.retrieve_url(&told("ws", "localhost", 65535), no_address()).is_ok());
    assert!(handle.retrieve_url(&told("ws", "localhost", 0), no_address()).is_ok());
}

#[test]
fn a_text_that_is_no_url_is_refused() {
    let map = told("ws", "::1", 8080);
    let ip = IpAddr::V6([0, 0, 0, 0, 0, 0, 0, 1]);
    let res = HandleAstarteConnection.retrieve_url(&map, Ok(ip));
    assert!(matches!(res, Err(Error::Parse(UrlParseError::EmptyHost))));
    let map = told("ws", "fe80::1", 8080);
    let ip = IpAddr::V6([0xfe80, 0, 0, 0, 0, 0, 0, 1]);
    let res = HandleAstarteConnection.retrieve_url(&map, Ok(ip));
    assert!(matches!(res, Err(Error::Parse(UrlParseError::InvalidPort))));
}

#[test]
fn an_aggregate_tells_its_host_again() {
    let data = DataAggObject { scheme: Scheme::WsSecure, ip: IpAddr::V4(8, 8, 4, 4), port: 443 };
    let map = data.clone().astarte_aggregate();
    assert_eq!(map.get("scheme"), Some(&text("wss")));
    assert_eq!(map.get("ip"), Some(&text("8.8.4.4")));
    assert_eq!(map.get("port"), Some(&AstarteType::Integer(443)));
    assert_eq!(map.get("host"), None);
    assert_eq!(
        HandleAstarteConnection.retrieve_host(&map, Ok(IpAddr::V4(8, 8, 4, 4))).unwrap(),
        data
    );
}

#[test]
fn an_aggregate_tells_the_url_of_its_host() {
    let hosts = [
        IpAddr::V4(127, 0, 0, 1),
        IpAddr::V4(8, 8, 4, 4),
        IpAddr::V6([0, 0, 0, 0, 0, 0, 0, 1]),
        IpAddr::V6([0xfe80, 0, 0, 0, 0, 0, 0, 1]),
    ];
    for ip in hosts {
        let data = DataAggObject { scheme: Scheme::Ws, ip, port: 8080 };
        let map = data.astarte_aggregate();
        assert_eq!(address_text(&map), Some(ip.display()));
        let told = HandleAstarteConnection.retrieve_url(&map, Ok(ip));
        match (told, data.try_into_url()) {
            (Ok(told), Ok(url)) => assert_eq!(told, url),
            (Err(Error::Parse(told)), Err(Error::Parse(err))) => assert_eq!(told, err),
            other => panic!("unexpected {:?}", other),
        }
    }
}

#[test]
fn addresses_are_written_in_their_shortest_form() {
    let texts = [
        ([0, 0, 0, 0, 0, 0, 0, 0], "::"),
        ([0, 0, 0, 0, 0, 0, 0, 1], "::1"),
        ([0xfe80, 0, 0, 0, 0, 0, 0, 0], "fe80::"),
        ([0x2001, 0xdb8, 0, 0, 8, 0x800, 0x200c, 0x417a], "2001:db8::8:800:200c:417a"),
        ([1, 0, 0, 2, 0, 0, 0, 3], "1:0:0:2::3"),
        ([1, 0, 0, 2, 3, 0, 0, 4], "1::2:3:0:0:4"),
        ([1, 0, 2, 3, 4, 5, 6, 0xabcd], "1:0:2:3:4:5:6:abcd"),
        ([0, 0, 0, 0, 0, 0xffff, 0x102, 0xff00], "::ffff:1.2.255.0"),
        ([0, 0, 0, 0, 1, 0xffff, 0x102, 0xff00], "::1:ffff:102:ff00"),
    ];
    for (segments, text) in texts {
        assert_eq!(IpAddr::V6(segments).display(), text);
        // the text is read back as the address, and written in the same way by others
        match url::Host::parse(&format!("[{}]", text)) {
            Ok(url::Host::Ipv6(ip)) => {
                assert_eq!(ip.segments(), segments);
                assert_eq!(ip.to_string(), text);
            }
            other => panic!("unexpected {:?}", other),
        }
    }
}

#[test]
fn url_texts_are_built_from_their_parts() {
    let data = DataAggObject { scheme: Scheme::Ws, ip: IpAddr::V4(0, 10, 255, 1), port: 0 };
    assert_eq!(data.to_url_text(), "ws://0.10.255.1:0");
    let ip = IpAddr::V6([0xfe80, 0, 0, 0, 0, 0, 0, 1]);
    let data = DataAggObject { scheme: Scheme::WsSecure, ip, port: 5 };
    assert_eq!(data.to_url_text(), "wss://fe80::1:5");
}

#[test]
fn schemes_are_read_and_written() {
    assert_eq!(Scheme::try_from("ws").unwrap(), Scheme::Ws);
    assert_eq!(Scheme::try_from("wss").unwrap(), Scheme::WsSecure);
    assert!(Scheme::try_from("WS").is_err());
    assert_eq!(Scheme::WsSecure.as_str(), "wss");
}

#[test]
fn the_configuration_is_read() {
    let handle = HandleAstarteConnection;
    let cfg = DeviceConfig {
        realm: "test".to_string(),
        device_id: "id".to_string(),
        credentials_secret: "c".to_string(),
        pairing_url: "http://localhost".to_string(),
    };
    assert_eq!(handle.read_device_config(Ok(Some(cfg.clone()))).unwrap(), cfg);
    assert!(matches!(handle.read_device_config(Ok(None)), Err(Error::Serde)));
    let err = IoError { kind: IoErrorKind::Other, detail: "denied".to_string() };
    assert!(
        matches!(handle.read_device_config(Err(err.clone())), Err(Error::ReadFile(e)) if e == err)
    );
}

#[test]
fn told_hosts_can_be_reached() {
    let url = HandleAstarteConnection.retrieve_url(&told("wss", "localhost", 1), no_address()).unwrap();
    assert_eq!(create_ws_stream(&url, true).unwrap(), WsRoute::Tls);
    assert!(
        matches!(create_ws_stream(&url, false), Err(DeviceError::WrongScheme(s)) if s == "wss")
    );
    let url = HandleAstarteConnection.retrieve_url(&told("ws", "localhost", 1), no_address()).unwrap();
    assert_eq!(create_ws_stream(&url, true).unwrap(), WsRoute::Plain);
    assert_eq!(create_ws_stream(&url, false).unwrap(), WsRoute::Plain);
    let url = HostUrl { href: "http://a:1/".to_string() };
    assert!(
        matches!(create_ws_stream(&url, true), Err(DeviceError::WrongScheme(s)) if s == "http")
    );
}

fn astarte_failure(action: AstarteAction) -> (Error, String) {
    match action {
        AstarteAction::Return(DeviceError::Astarte { err, msg }) => (err, msg),
        other => panic!("unexpected {:?}", other),
    }
}

#[test]
fn objects_for_the_shell_open_connections() {
    let event = AstarteEvent::Object {
        path: "/rshell".to_string(),
        map: told("ws", "10.1.2.3", 8080),
    };
    assert_eq!(event_address(&event), Some("10.1.2.3".to_string()));
    match handle_astarte_events(event, Ok(IpAddr::V4(10, 1, 2, 3))) {
        AstarteAction::SendUrl(url) => assert_eq!(url.href, "ws://10.1.2.3:8080/"),
        other => panic!("unexpected {:?}", other),
    }
    assert!(matches!(url_sent(Ok(())), AstarteAction::Wait));
    let url = HostUrl { href: "ws://10.1.2.3:8080/".to_string() };
    assert!(matches!(
        url_sent(Err(url.clone())),
        AstarteAction::Return(DeviceError::ChannelUrl(u)) if u == url
    ));
}

#[test]
fn other_events_of_astarte_are_handled() {
    let event = AstarteEvent::Object { path: "/rshell".to_string(), map: AstarteMap::new() };
    let (err, msg) = astarte_failure(handle_astarte_events(event, no_address()));
    assert!(matches!(err, Error::MissingUrlInfo(_)));
    assert_eq!(msg, "failed to retrieve the url");

    let event = AstarteEvent::Object {
        path: "/other".to_string(),
        map: told("ws", "localhost", 8080),
    };
    let (err, msg) = astarte_failure(handle_astarte_events(event, no_address()));
    assert!(matches!(err, Error::AstarteWrongAggregation));
    assert_eq!(msg, "received wrong astarte type");

    assert_eq!(event_address(&AstarteEvent::Individual), None);
    let (err, _) = astarte_failure(handle_astarte_events(AstarteEvent::Individual, no_address()));
    assert!(matches!(err, Error::AstarteWrongAggregation));

    assert!(matches!(
        handle_astarte_events(AstarteEvent::ConnectionError, no_address()),
        AstarteAction::Wait
    ));

    let event = AstarteEvent::Failed("broken".to_string());
    let (err, msg) = astarte_failure(handle_astarte_events(event, no_address()));
    assert!(matches!(err, Error::AstarteHandleEvent(d) if d == "broken"));
    assert_eq!(msg, "failed to handle astarte event");
}

#[test]
fn astarte_errors_have_their_texts() {
    assert_eq!(Error::ParseScheme("ftp".to_string()).message(), "Wrong scheme, ftp");
    assert_eq!(Error::MissingUrlInfo("x".to_string()).message(), "Missing url information");
    assert_eq!(Error::ParseAddr(no_address().unwrap_err()).message(), "Error while parsing the ip address");
    let err = u16::try_from(-1i32).unwrap_err();
    assert_eq!(Error::ParsePort(err).message(), "Error while parsing the port number");
    assert_eq!(Error::Serde.message(), "Error while serializing/deserializing with serde");
}
