//! What Astarte tells the device: the host to connect with.
//!
//! Astarte sends an aggregate with the connection scheme, the address of the host and its port.
//! The address stands under `host`; where there is no such entry, it is read from `ip`.

use vstd::hash_map::StringHashMap;
use vstd::prelude::*;

use crate::address::{
    law_ipv4_text_tells_the_octets, lemma_address_start, AddrParseError, IpAddr,
};
use crate::text::{
    decimal, decimal_text, law_decimal_is_read_back, lemma_split_is_unique, same_text,
};
use crate::transport::IoError;

verus! {

/// Errors of the communication with Astarte.
#[derive(Debug)]
pub enum Error {
    /// The Astarte interfaces could not be loaded.
    AstarteInterface(String),
    /// The Astarte device could not be created.
    AstarteCreateDevice(String),
    /// An Astarte event could not be handled.
    AstarteHandleEvent(String),
    /// Data that is not an object was received.
    AstarteWrongAggregation,
    /// An entry of the object has the wrong type.
    AstarteWrongType,
    /// A file could not be read.
    ReadFile(IoError),
    /// The configuration could not be deserialized.
    Serde,
    /// The URL of the host could not be parsed.
    Parse(UrlParseError),
    /// The scheme is neither `ws` nor `wss`.
    ParseScheme(String),
    /// The IP address could not be parsed.
    ParseAddr(AddrParseError),
    /// The port number does not fit.
    ParsePort(std::num::TryFromIntError),
    /// The object lacks an entry.
    MissingUrlInfo(String),
}

impl Error {
    /// The text that describes this error.
    pub open spec fn text(self) -> Seq<char> {
        match self {
            Error::AstarteInterface(_) => "Error while loading the Astarte Interfaces"@,
            Error::AstarteCreateDevice(_) => "Error while creating an Astarte device"@,
            Error::AstarteHandleEvent(_) => "Error while handling Astarte events"@,
            Error::AstarteWrongAggregation => "Received Individual aggregation data type"@,
            Error::AstarteWrongType => "Received wrong astarte type"@,
            Error::ReadFile(_) => "Error while reading a file"@,
            Error::Serde => "Error while serializing/deserializing with serde"@,
            Error::Parse(_) => "Error while parsing url"@,
            Error::ParseScheme(scheme) => "Wrong scheme, "@ + scheme@,
            Error::ParseAddr(_) => "Error while parsing the ip address"@,
            Error::ParsePort(_) => "Error while parsing the port number"@,
            Error::MissingUrlInfo(_) => "Missing url information"@,
        }
    }

    /// Describes the error.
    pub fn message(&self) -> (r: String)
        ensures
            r@ == self.text(),
    {
        match self {
            Error::AstarteInterface(_) => "Error while loading the Astarte Interfaces".to_owned(),
            Error::AstarteCreateDevice(_) => "Error while creating an Astarte device".to_owned(),
            Error::AstarteHandleEvent(_) => "Error while handling Astarte events".to_owned(),
            Error::AstarteWrongAggregation => "Received Individual aggregation data type".to_owned(),
            Error::AstarteWrongType => "Received wrong astarte type".to_owned(),
            Error::ReadFile(_) => "Error while reading a file".to_owned(),
            Error::Serde => "Error while serializing/deserializing with serde".to_owned(),
            Error::Parse(_) => "Error while parsing url".to_owned(),
            Error::ParseScheme(scheme) => "Wrong scheme, ".to_owned().concat(scheme.as_str()),
            Error::ParseAddr(_) => "Error while parsing the ip address".to_owned(),
            Error::ParsePort(_) => "Error while parsing the port number".to_owned(),
            Error::MissingUrlInfo(_) => "Missing url information".to_owned(),
        }
    }
}

/// What the device needs to register with Astarte.
#[derive(Clone, Debug, PartialEq, Eq)]
pub struct DeviceConfig {
    /// The Astarte realm.
    pub realm: String,
    /// The identifier of the device.
    pub device_id: String,
    /// The secret that the device authenticates with.
    pub credentials_secret: String,
    /// Where the device pairs with Astarte.
    pub pairing_url: String,
}

/// The scheme of a WebSocket connection.
#[derive(Clone, Copy, Debug, PartialEq, Eq, Structural)]
pub enum Scheme {
    /// A plain connection.
    Ws,
    /// A connection over TLS.
    WsSecure,
}

impl Scheme {
    /// The scheme as it is written in a URL.
    pub open spec fn text(self) -> Seq<char> {
        match self {
            Scheme::Ws => "ws"@,
            Scheme::WsSecure => "wss"@,
        }
    }

    /// Writes the scheme.
    pub fn as_str(&self) -> (r: &'static str)
        ensures
            r@ == self.text(),
    {
        match self {
            Scheme::Ws => "ws",
            Scheme::WsSecure => "wss",
        }
    }

    /// Reads a scheme.
    pub fn try_from(value: &str) -> (r: Result<Scheme, Error>)
        ensures
            match r {
                Ok(scheme) => value@ == scheme.text(),
                Err(Error::ParseScheme(text)) => text@ == value@ && value@ != "ws"@ && value@
                    != "wss"@,
                Err(_) => false,
            },
    {
        if same_text(value, "ws") {
            Ok(Scheme::Ws)
        } else if same_text(value, "wss") {
            Ok(Scheme::WsSecure)
        } else {
            Err(Error::ParseScheme(value.to_owned()))
        }
    }
}

/// A value that Astarte sends, as far as it is read.
#[derive(Clone, Debug, PartialEq, Eq)]
pub enum AstarteType {
    /// A text.
    String(String),
    /// A 32 bit integer.
    Integer(i32),
    /// A value of any other type.
    Other,
}

/// The content of an [`AstarteType`].
pub enum AstarteValue {
    /// A text.
    Text(Seq<char>),
    /// An integer.
    Integer(int),
    /// A value of any other type.
    Other,
}

impl View for AstarteType {
    type V = AstarteValue;

    open spec fn view(&self) -> AstarteValue {
        match self {
            AstarteType::String(text) => AstarteValue::Text(text@),
            AstarteType::Integer(n) => AstarteValue::Integer(*n as int),
            AstarteType::Other => AstarteValue::Other,
        }
    }
}

/// The entries of an object that Astarte sends.
pub struct AstarteMap {
    entries: StringHashMap<AstarteType>,
}

impl View for AstarteMap {
    type V = Map<Seq<char>, AstarteValue>;

    closed spec fn view(&self) -> Map<Seq<char>, AstarteValue> {
        self.entries@.map_values(|v: AstarteType| v@)
    }
}

impl AstarteMap {
    /// A map without entries.
    pub fn new() -> (r: Self)
        ensures
            r@ == Map::<Seq<char>, AstarteValue>::empty(),
    {
        let r = AstarteMap { entries: StringHashMap::new() };
        assert(r@ =~= Map::<Seq<char>, AstarteValue>::empty());
        r
    }

    /// Sets the entry `key`.
    pub fn insert(&mut self, key: String, value: AstarteType)
        ensures
            final(self)@ == old(self)@.insert(key@, value@),
    {
        self.entries.insert(key, value);
        assert(self@ =~= old(self)@.insert(key@, value@));
    }

    /// The entry `key`.
    pub fn get(&self, key: &str) -> (r: Option<&AstarteType>)
        ensures
            match r {
                Some(value) => self@.contains_key(key@) && value@ == self@[key@],
                None => !self@.contains_key(key@),
            },
    {
        self.entries.get(key)
    }
}

/// The URL of a host, by its serialization.
#[derive(Clone, Debug, PartialEq, Eq)]
pub struct HostUrl {
    /// The serialization of the URL.
    pub href: String,
}

impl View for HostUrl {
    type V = Seq<char>;

    open spec fn view(&self) -> Seq<char> {
        self.href@
    }
}

/// The scheme of a serialized URL: what stands before its first colon.
pub open spec fn url_scheme(href: Seq<char>) -> Seq<char>
    decreases href.len(),
{
    if href.len() == 0 || href[0] == ':' {
        Seq::empty()
    } else {
        seq![href[0]] + url_scheme(href.skip(1))
    }
}

proof fn lemma_url_scheme(href: Seq<char>, n: int)
    requires
        0 <= n <= href.len(),
        forall|i: int| 0 <= i < n ==> href[i] != ':',
        n == href.len() || href[n] == ':',
    ensures
        url_scheme(href) == href.take(n),
    decreases n,
{
    if n > 0 {
        lemma_url_scheme(href.skip(1), n - 1);
        assert(href.take(n) =~= seq![href[0]] + href.skip(1).take(n - 1));
    } else {
        assert(href.take(0) =~= Seq::<char>::empty());
    }
}

impl HostUrl {
    /// The scheme of the URL.
    pub fn scheme(&self) -> (r: &str)
        ensures
            r@ == url_scheme(self@),
    {
        let n: usize = self.href.as_str().unicode_len();
        let mut i: usize = 0;
        while i < n && self.href.as_str().get_char(i) != ':'
            invariant
                i <= n,
                n == self.href@.len(),
                forall|k: int| 0 <= k < i ==> self.href@[k] != ':',
            decreases n - i,
        {
            i = i + 1;
        }
        proof {
            lemma_url_scheme(self.href@, i as int);
        }
        assert(self.href@.subrange(0, i as int) =~= self.href@.take(i as int));
        self.href.as_str().substring_char(0, i)
    }
}

/// Why a text is no URL.
#[derive(Clone, Copy, Debug, PartialEq, Eq, Structural)]
pub enum UrlParseError {
    /// The host is empty.
    EmptyHost,
    /// The international domain name is invalid.
    IdnaError,
    /// The port number is invalid.
    InvalidPort,
    /// The IPv4 address is invalid.
    InvalidIpv4Address,
    /// The IPv6 address is invalid.
    InvalidIpv6Address,
    /// A character of the domain is invalid.
    InvalidDomainCharacter,
    /// The URL is relative, and there is no base.
    RelativeUrlWithoutBase,
    /// The URL is relative to a base that cannot be one.
    RelativeUrlWithCannotBeABaseBase,
    /// The URL cannot have a host.
    SetHostOnCannotBeABaseUrl,
    /// The URL is too long.
    Overflow,
    /// Any other reason.
    Other,
}

/// What `url::Url::parse` makes of a text: the serialization of the URL, or the error.
pub uninterp spec fn parsed_url(input: Seq<char>) -> Result<Seq<char>, UrlParseError>;

/// The content of the result of parsing a URL.
pub open spec fn url_content(result: Result<String, UrlParseError>) -> Result<
    Seq<char>,
    UrlParseError,
> {
    match result {
        Ok(href) => Ok(href@),
        Err(err) => Err(err),
    }
}

/// Calls `url::Url::parse` and serializes the URL. The result depends on the text alone and is
/// named by `parsed_url`. A text that starts with `ws://` or `wss://` keeps that start.
#[verifier::external_body]
fn parse_url(input: &str) -> (r: Result<String, UrlParseError>)
    ensures
        url_content(r) == parsed_url(input@),
        r matches Ok(href) ==> "ws://"@.is_prefix_of(input@) ==> "ws://"@.is_prefix_of(href@),
        r matches Ok(href) ==> "wss://"@.is_prefix_of(input@) ==> "wss://"@.is_prefix_of(href@),
{
    url::Url::parse(input).map(String::from).map_err(|err| match err {
        url::ParseError::EmptyHost => UrlParseError::EmptyHost,
        url::ParseError::IdnaError => UrlParseError::IdnaError,
        url::ParseError::InvalidPort => UrlParseError::InvalidPort,
        url::ParseError::InvalidIpv4Address => UrlParseError::InvalidIpv4Address,
        url::ParseError::InvalidIpv6Address => UrlParseError::InvalidIpv6Address,
        url::ParseError::InvalidDomainCharacter => UrlParseError::InvalidDomainCharacter,
        url::ParseError::RelativeUrlWithoutBase => UrlParseError::RelativeUrlWithoutBase,
        url::ParseError::RelativeUrlWithCannotBeABaseBase => UrlParseError::RelativeUrlWithCannotBeABaseBase,
        url::ParseError::SetHostOnCannotBeABaseUrl => UrlParseError::SetHostOnCannotBeABaseUrl,
        url::ParseError::Overflow => UrlParseError::Overflow,
        _ => UrlParseError::Other,
    })
}

/// The host that a device is told to connect with.
#[derive(Clone, Copy, Debug, PartialEq, Eq)]
pub struct DataAggObject {
    /// The scheme of the connection.
    pub scheme: Scheme,
    /// The address of the host.
    pub ip: IpAddr,
    /// The port of the host.
    pub port: u16,
}

impl DataAggObject {
    /// The name of the host in a URL: the machine itself goes by `localhost.local`.
    pub open spec fn host_name(self) -> Seq<char> {
        if self.ip.is_localhost() {
            "localhost.local"@
        } else {
            self.ip.text()
        }
    }

    /// The URL of the host, before it is parsed.
    pub open spec fn url_text(self) -> Seq<char> {
        self.scheme.text() + "://"@ + self.host_name() + ":"@ + decimal(self.port as nat)
    }

    /// Writes the URL of the host.
    pub fn to_url_text(&self) -> (r: String)
        ensures
            r@ == self.url_text(),
    {
        let host = match &self.ip {
            IpAddr::V4(127, 0, 0, 1) => "localhost.local".to_owned(),
            ip => ip.display(),
        };
        let mut s = self.scheme.as_str().to_owned();
        s.append("://");
        s.append(host.as_str());
        s.append(":");
        s.append(decimal_text(self.port as u32).as_str());
        s
    }

    /// The object as Astarte transmits it.
    pub fn astarte_aggregate(self) -> (r: AstarteMap)
        ensures
            r@ == aggregate(self),
    {
        let mut hm = AstarteMap::new();
        hm.insert("scheme".to_owned(), AstarteType::String(self.scheme.as_str().to_owned()));
        hm.insert("ip".to_owned(), AstarteType::String(self.ip.display()));
        hm.insert("port".to_owned(), AstarteType::Integer(self.port as i32));
        hm
    }

    /// The URL of the host.
    pub fn try_into_url(self) -> (r: Result<HostUrl, Error>)
        ensures
            match host_url(self) {
                Ok(href) => r matches Ok(url) && url@ == href && url_scheme(href)
                    == self.scheme.text(),
                Err(fault) => r matches Err(err) && fault.reported_by(err),
            },
    {
        let text = self.to_url_text();
        match parse_url(text.as_str()) {
            Ok(href) => {
                proof {
                    reveal_strlit("ws");
                    reveal_strlit("wss");
                    reveal_strlit("://");
                    reveal_strlit("ws://");
                    reveal_strlit("wss://");
                    let full = self.scheme.text() + "://"@;
                    assert(full =~= "ws://"@ || full =~= "wss://"@);
                    assert(full.is_prefix_of(text@));
                    assert(full.is_prefix_of(href@));
                    let n = self.scheme.text().len() as int;
                    assert(href@.take(full.len() as int) =~= full);
                    assert forall|i: int| 0 <= i < n implies href@[i] != ':' by {
                        assert(href@[i] == full[i]);
                    }
                    assert(href@[n] == full[n]);
                    lemma_url_scheme(href@, n);
                    assert(href@.take(n) =~= self.scheme.text());
                }
                Ok(HostUrl { href })
            },
            Err(err) => Err(Error::Parse(err)),
        }
    }
}

/// The entry that holds the address of the host.
pub open spec fn address_entry(map: Map<Seq<char>, AstarteValue>) -> Option<AstarteValue> {
    if map.contains_key("host"@) {
        Some(map["host"@])
    } else if map.contains_key("ip"@) {
        Some(map["ip"@])
    } else {
        None
    }
}

/// Whether a text is a name of the machine itself.
pub open spec fn is_local_name(text: Seq<char>) -> bool {
    text == "localhost"@ || text == "localhost.local"@
}

/// Why an object does not tell the host to connect with.
pub enum UrlFault {
    /// An entry is missing, with the message for it.
    Missing(Seq<char>),
    /// An entry has the wrong type.
    WrongType,
    /// The text is no scheme.
    Scheme(Seq<char>),
    /// The address is none, with the reason.
    Address(AddrParseError),
    /// The port is out of range.
    Port,
    /// The host makes no URL, with the reason.
    Url(UrlParseError),
}

impl UrlFault {
    /// Whether `err` reports this fault.
    pub open spec fn reported_by(self, err: Error) -> bool {
        match self {
            UrlFault::Missing(text) => err matches Error::MissingUrlInfo(message) && message@
                == text,
            UrlFault::WrongType => err == Error::AstarteWrongType,
            UrlFault::Scheme(text) => err matches Error::ParseScheme(scheme) && scheme@ == text,
            UrlFault::Address(reason) => err == Error::ParseAddr(reason),
            UrlFault::Port => err is ParsePort,
            UrlFault::Url(reason) => err == Error::Parse(reason),
        }
    }
}

/// The URL of a host, or why there is none.
pub open spec fn host_url(data: DataAggObject) -> Result<Seq<char>, UrlFault> {
    match parsed_url(data.url_text()) {
        Ok(href) => Ok(href),
        Err(reason) => Err(UrlFault::Url(reason)),
    }
}

/// The host that an object tells, where `parsed` is what its address parses to. A name of the
/// machine itself is not parsed.
pub open spec fn told_host(
    map: Map<Seq<char>, AstarteValue>,
    parsed: Result<IpAddr, AddrParseError>,
) -> Result<DataAggObject, UrlFault> {
    if !map.contains_key("scheme"@) {
        Err(UrlFault::Missing("Missing scheme"@))
    } else if address_entry(map) is None {
        Err(UrlFault::Missing("Missing IP address"@))
    } else if !map.contains_key("port"@) {
        Err(UrlFault::Missing("Missing port value"@))
    } else {
        match (map["scheme"@], address_entry(map)->0, map["port"@]) {
            (AstarteValue::Text(scheme), AstarteValue::Text(ip), AstarteValue::Integer(port)) => {
                if scheme != "ws"@ && scheme != "wss"@ {
                    Err(UrlFault::Scheme(scheme))
                } else if !is_local_name(ip) && parsed is Err {
                    Err(UrlFault::Address(parsed->Err_0))
                } else if !(0 <= port <= u16::MAX) {
                    Err(UrlFault::Port)
                } else {
                    Ok(
                        DataAggObject {
                            scheme: if scheme == "ws"@ {
                                Scheme::Ws
                            } else {
                                Scheme::WsSecure
                            },
                            ip: if is_local_name(ip) {
                                IpAddr::V4(127, 0, 0, 1)
                            } else {
                                parsed->Ok_0
                            },
                            port: port as u16,
                        },
                    )
                }
            },
            _ => Err(UrlFault::WrongType),
        }
    }
}

/// The URL that an object tells, with `parsed` as in [`told_host`].
pub open spec fn told_url(
    map: Map<Seq<char>, AstarteValue>,
    parsed: Result<IpAddr, AddrParseError>,
) -> Result<Seq<char>, UrlFault> {
    match told_host(map, parsed) {
        Ok(data) => host_url(data),
        Err(fault) => Err(fault),
    }
}

fn address_of(map: &AstarteMap) -> (r: Option<&AstarteType>)
    ensures
        match r {
            Some(value) => address_entry(map@) == Some(value@),
            None => address_entry(map@) is None,
        },
{
    match map.get("host") {
        Some(value) => Some(value),
        None => map.get("ip"),
    }
}

/// The text in an object that has to be parsed as an IP address: its address entry, unless that
/// is no text or a name of the machine itself.
pub fn address_text(map: &AstarteMap) -> (r: Option<String>)
    ensures
        match r {
            Some(text) => address_entry(map@) == Some(AstarteValue::Text(text@)) && !is_local_name(
                text@,
            ),
            None => !(address_entry(map@) matches Some(AstarteValue::Text(text)) && !is_local_name(
                text,
            )),
        },
{
    match address_of(map) {
        Some(AstarteType::String(text)) => {
            if same_text(text.as_str(), "localhost") || same_text(text.as_str(), "localhost.local") {
                None
            } else {
                Some(text.clone())
            }
        },
        _ => None,
    }
}

/// Reads what Astarte hands to the device.
pub struct HandleAstarteConnection;

impl HandleAstarteConnection {
    /// The configuration of the device, given what its file holds: nothing readable, something
    /// that is no configuration, or the configuration.
    pub fn read_device_config(&self, file: Result<Option<DeviceConfig>, IoError>) -> (r: Result<
        DeviceConfig,
        Error,
    >)
        ensures
            match file {
                Ok(Some(cfg)) => r == Ok::<DeviceConfig, Error>(cfg),
                Ok(None) => r == Err::<DeviceConfig, Error>(Error::Serde),
                Err(err) => r == Err::<DeviceConfig, Error>(Error::ReadFile(err)),
            },
    {
        match file {
            Ok(Some(cfg)) => Ok(cfg),
            Ok(None) => Err(Error::Serde),
            Err(err) => Err(Error::ReadFile(err)),
        }
    }

    /// The host that an object tells. `parsed` is what the text of [`address_text`] parses to as
    /// an IP address; where there is no such text, `parsed` makes no difference.
    pub fn retrieve_host(
        &self,
        map: &AstarteMap,
        parsed: Result<IpAddr, AddrParseError>,
    ) -> (r: Result<DataAggObject, Error>)
        ensures
            match told_host(map@, parsed) {
                Ok(data) => r == Ok::<DataAggObject, Error>(data),
                Err(fault) => r matches Err(err) && fault.reported_by(err),
            },
    {
        let scheme = match map.get("scheme") {
            Some(scheme) => scheme,
            None => return Err(Error::MissingUrlInfo("Missing scheme".to_owned())),
        };
        let ip = match address_of(map) {
            Some(ip) => ip,
            None => return Err(Error::MissingUrlInfo("Missing IP address".to_owned())),
        };
        let port = match map.get("port") {
            Some(port) => port,
            None => return Err(Error::MissingUrlInfo("Missing port value".to_owned())),
        };
        match (scheme, ip, port) {
            (AstarteType::String(scheme), AstarteType::String(ip), AstarteType::Integer(port)) => {
                let scheme = match Scheme::try_from(scheme.as_str()) {
                    Ok(scheme) => scheme,
                    Err(err) => return Err(err),
                };
                proof {
                    reveal_strlit("ws");
                    reveal_strlit("wss");
                    assert("ws"@.len() != "wss"@.len());
                }
                let ip = if same_text(ip.as_str(), "localhost") || same_text(
                    ip.as_str(),
                    "localhost.local",
                ) {
                    IpAddr::V4(127, 0, 0, 1)
                } else {
                    match parsed {
                        Ok(ip) => ip,
                        Err(err) => return Err(Error::ParseAddr(err)),
                    }
                };
                match u16::try_from(*port) {
                    Ok(port) => Ok(DataAggObject { scheme, ip, port }),
                    Err(err) => Err(Error::ParsePort(err)),
                }
            },
            _ => Err(Error::AstarteWrongType),
        }
    }

    /// The URL of the host that an object tells, with `parsed` as in
    /// [`HandleAstarteConnection::retrieve_host`].
    pub fn retrieve_url(
        &self,
        map: &AstarteMap,
        parsed: Result<IpAddr, AddrParseError>,
    ) -> (r: Result<HostUrl, Error>)
        ensures
            match told_url(map@, parsed) {
                Ok(href) => r matches Ok(url) && url@ == href && url_scheme(href) == told_host(
                    map@,
                    parsed,
                )->Ok_0.scheme.text(),
                Err(fault) => r matches Err(err) && fault.reported_by(err),
            },
    {
        match self.retrieve_host(map, parsed) {
            Ok(data) => data.try_into_url(),
            Err(err) => Err(err),
        }
    }
}

/// The entries of the object that a host is transmitted as.
pub open spec fn aggregate(data: DataAggObject) -> Map<Seq<char>, AstarteValue> {
    map![
        "scheme"@ => AstarteValue::Text(data.scheme.text()),
        "ip"@ => AstarteValue::Text(data.ip.text()),
        "port"@ => AstarteValue::Integer(data.port as int),
    ]
}

/// An object carries all of the host that it was made of, whatever host that is: where the address
/// in it parses to the address of the host, it tells that host, and what it tells as a URL is the
/// URL of the host, or why there is none.
pub proof fn law_aggregate_tells_the_host(data: DataAggObject)
    ensures
        told_host(aggregate(data), Ok(data.ip)) == Ok::<DataAggObject, UrlFault>(data),
        told_url(aggregate(data), Ok(data.ip)) == host_url(data),
{
    reveal_strlit("scheme");
    reveal_strlit("ip");
    reveal_strlit("port");
    reveal_strlit("host");
    reveal_strlit("ws");
    reveal_strlit("wss");
    reveal_strlit("localhost");
    reveal_strlit("localhost.local");
    assert("scheme"@.len() == 6 && "ip"@.len() == 2 && "port"@.len() == 4 && "host"@.len() == 4);
    assert("host"@[0] == 'h' && "port"@[0] == 'p');
    assert("ws"@.len() == 2 && "wss"@.len() == 3);
    lemma_address_start(data.ip);
    assert("localhost"@[0] == 'l' && "localhost.local"@[0] == 'l');
}

/// The URL of a host is made of its scheme, its address and its port, whatever these are: the
/// address as it is written, unless it is 127.0.0.1, which goes by the name `localhost.local`.
pub proof fn law_url_text(data: DataAggObject)
    ensures
        data.url_text() == (if data.scheme == Scheme::Ws {
            "ws"@
        } else {
            "wss"@
        }) + "://"@ + (if data.ip == IpAddr::V4(127, 0, 0, 1) {
            "localhost.local"@
        } else {
            data.ip.text()
        }) + ":"@ + decimal(data.port as nat),
{
}

/// The name that an IPv4 host goes by in a URL holds no colon, and tells the host.
proof fn lemma_ipv4_host_name(data: DataAggObject, other: DataAggObject)
    requires
        data.ip is V4,
        other.ip is V4,
    ensures
        !data.host_name().contains(':'),
        data.host_name() == other.host_name() ==> data.ip == other.ip,
{
    reveal_strlit("localhost.local");
    assert("localhost.local"@ =~= seq![
        'l', 'o', 'c', 'a', 'l', 'h', 'o', 's', 't', '.', 'l', 'o', 'c', 'a', 'l',
    ]);
    lemma_address_start(data.ip);
    lemma_address_start(other.ip);
    if let (IpAddr::V4(a, b, c, d), IpAddr::V4(e, f, g, h)) = (data.ip, other.ip) {
        law_ipv4_text_tells_the_octets(
            a as nat,
            b as nat,
            c as nat,
            d as nat,
            e as nat,
            f as nat,
            g as nat,
            h as nat,
        );
    }
    assert("localhost.local"@[0] == 'l');
}

proof fn lemma_url_text_parts(data: DataAggObject)
    ensures
        data.url_text() == data.scheme.text() + seq![':'] + ((seq!['/', '/'] + data.host_name())
            + seq![':'] + decimal(data.port as nat)),
        !data.scheme.text().contains(':'),
{
    reveal_strlit("ws");
    reveal_strlit("wss");
    reveal_strlit("://");
    reveal_strlit(":");
    assert("ws"@ =~= seq!['w', 's']);
    assert("wss"@ =~= seq!['w', 's', 's']);
    assert("://"@ =~= seq![':'] + seq!['/', '/']);
    assert(":"@ =~= seq![':']);
    assert(data.url_text() =~= data.scheme.text() + seq![':'] + ((seq!['/', '/'] + data.host_name())
        + seq![':'] + decimal(data.port as nat)));
}

proof fn lemma_slashes(host: Seq<char>)
    requires
        !host.contains(':'),
    ensures
        !(seq!['/', '/'] + host).contains(':'),
        (seq!['/', '/'] + host).skip(2) == host,
{
    let s = seq!['/', '/'] + host;
    assert forall|i: int| 0 <= i < s.len() implies #[trigger] s[i] != ':' by {
        if i >= 2 {
            assert(s[i] == host[i - 2]);
            assert(host.contains(host[i - 2]));
        }
    }
    assert(s.skip(2) =~= host);
}

/// The URL of an IPv4 host tells the host: two such hosts with the same URL have the same scheme,
/// the same address and the same port.
pub proof fn law_url_text_tells_the_host(data: DataAggObject, other: DataAggObject)
    requires
        data.ip is V4,
        other.ip is V4,
        data.url_text() == other.url_text(),
    ensures
        data.scheme == other.scheme,
        data.ip == other.ip,
        data.port == other.port,
{
    lemma_url_text_parts(data);
    lemma_url_text_parts(other);
    lemma_ipv4_host_name(data, other);
    lemma_ipv4_host_name(other, data);
    lemma_slashes(data.host_name());
    lemma_slashes(other.host_name());
    let (h1, h2) = (seq!['/', '/'] + data.host_name(), seq!['/', '/'] + other.host_name());
    let (p1, p2) = (decimal(data.port as nat), decimal(other.port as nat));
    lemma_split_is_unique(
        data.scheme.text(),
        h1 + seq![':'] + p1,
        other.scheme.text(),
        h2 + seq![':'] + p2,
        ':',
    );
    lemma_split_is_unique(h1, p1, h2, p2, ':');
    law_decimal_is_read_back(data.port as nat);
    law_decimal_is_read_back(other.port as nat);
    reveal_strlit("ws");
    reveal_strlit("wss");
    assert("ws"@.len() != "wss"@.len());
}

/// The scheme of a URL is all that stands before its first colon, and the whole text where there
/// is none.
pub proof fn law_url_scheme(scheme: Seq<char>, rest: Seq<char>)
    requires
        !scheme.contains(':'),
    ensures
        url_scheme(scheme + seq![':'] + rest) == scheme,
        url_scheme(scheme) == scheme,
{
    let href = scheme + seq![':'] + rest;
    assert forall|i: int| 0 <= i < scheme.len() implies #[trigger] href[i] != ':' by {
        assert(href[i] == scheme[i]);
        assert(scheme.contains(scheme[i]));
    }
    lemma_url_scheme(href, scheme.len() as int);
    assert(href.take(scheme.len() as int) =~= scheme);
    assert forall|i: int| 0 <= i < scheme.len() implies #[trigger] scheme[i] != ':' by {
        assert(scheme.contains(scheme[i]));
    }
    lemma_url_scheme(scheme, scheme.len() as int);
    assert(scheme.take(scheme.len() as int) =~= scheme);
}

/// The two schemes are written as `ws` and `wss`.
pub proof fn law_scheme_texts()
    ensures
        Scheme::Ws.text() == seq!['w', 's'],
        Scheme::WsSecure.text() == seq!['w', 's', 's'],
{
    reveal_strlit("ws");
    reveal_strlit("wss");
    assert("ws"@ =~= seq!['w', 's']);
    assert("wss"@ =~= seq!['w', 's', 's']);
}

/// The values that Astarte sends keep their content.
pub proof fn law_astarte_values(text: String, n: i32)
    ensures
        AstarteType::String(text)@ == AstarteValue::Text(text@),
        AstarteType::Integer(n)@ == AstarteValue::Integer(n as int),
        AstarteType::Other@ == AstarteValue::Other,
{
}

/// An object tells the host that its entries name, whatever else it holds. The scheme and the port
/// are those of the entries; the address stands under `host`, or under `ip` where there is no
/// `host`. The names of the machine itself are its address, and any other address is the one that
/// it parses to, or an error where it does not parse.
pub proof fn law_object_tells_its_host(
    map: Map<Seq<char>, AstarteValue>,
    scheme: Scheme,
    address: Seq<char>,
    port: u16,
    parsed: Result<IpAddr, AddrParseError>,
)
    requires
        map.contains_key("scheme"@),
        map["scheme"@] == AstarteValue::Text(
            if scheme == Scheme::Ws {
                "ws"@
            } else {
                "wss"@
            },
        ),
        map.contains_key("host"@) || map.contains_key("ip"@),
        map.contains_key("host"@) ==> map["host"@] == AstarteValue::Text(address),
        !map.contains_key("host"@) ==> map["ip"@] == AstarteValue::Text(address),
        map.contains_key("port"@),
        map["port"@] == AstarteValue::Integer(port as int),
    ensures
        address == "localhost"@ || address == "localhost.local"@ ==> told_host(map, parsed) == Ok::<
            DataAggObject,
            UrlFault,
        >(DataAggObject { scheme, ip: IpAddr::V4(127, 0, 0, 1), port }),
        address != "localhost"@ && address != "localhost.local"@ ==> told_host(map, parsed) == (
        match parsed {
            Ok(ip) => Ok::<DataAggObject, UrlFault>(DataAggObject { scheme, ip, port }),
            Err(err) => Err(UrlFault::Address(err)),
        }),
{
    reveal_strlit("ws");
    reveal_strlit("wss");
    assert("ws"@.len() != "wss"@.len());
}

/// When an object tells no host. The entries have to be there, in the order scheme, address, port;
/// they have to be a text, a text and an integer; then the scheme has to be `ws` or `wss`, the
/// address has to parse, and the port has to be a port, and the first of these that fails is the
/// fault.
pub proof fn law_object_faults(
    map: Map<Seq<char>, AstarteValue>,
    parsed: Result<IpAddr, AddrParseError>,
    text: Seq<char>,
    reason: AddrParseError,
)
    ensures
        ({
            let told = told_host(map, parsed);
            let address = if map.contains_key("host"@) {
                map["host"@]
            } else {
                map["ip"@]
            };
            let has_address = map.contains_key("host"@) || map.contains_key("ip"@);
            let complete = map.contains_key("scheme"@) && has_address && map.contains_key("port"@);
            let typed = map["scheme"@] is Text && address is Text && map["port"@] is Integer;
            let scheme = map["scheme"@]->Text_0;
            let known = scheme == "ws"@ || scheme == "wss"@;
            let local = address->Text_0 == "localhost"@ || address->Text_0 == "localhost.local"@;
            let port = map["port"@]->Integer_0;
            &&& !map.contains_key("scheme"@) ==> told == Err::<DataAggObject, UrlFault>(
                UrlFault::Missing("Missing scheme"@),
            )
            &&& map.contains_key("scheme"@) && !has_address ==> told == Err::<
                DataAggObject,
                UrlFault,
            >(UrlFault::Missing("Missing IP address"@))
            &&& map.contains_key("scheme"@) && has_address && !map.contains_key("port"@) ==> told
                == Err::<DataAggObject, UrlFault>(UrlFault::Missing("Missing port value"@))
            &&& told == Err::<DataAggObject, UrlFault>(UrlFault::WrongType) <==> complete && !typed
            &&& told == Err::<DataAggObject, UrlFault>(UrlFault::Scheme(text)) <==> complete
                && typed && !known && text == scheme
            &&& told == Err::<DataAggObject, UrlFault>(UrlFault::Address(reason)) <==> complete
                && typed && known && !local && parsed == Err::<IpAddr, AddrParseError>(reason)
            &&& told == Err::<DataAggObject, UrlFault>(UrlFault::Port) <==> complete && typed
                && known && (local || parsed is Ok) && !(0 <= port < 0x10000)
            &&& told is Ok <==> complete && typed && known && (local || parsed is Ok) && 0 <= port
                < 0x10000
        }),
{
}

/// The address of an object is its entry `host`, and its entry `ip` only where there is no `host`.
pub proof fn law_host_goes_before_ip(map: Map<Seq<char>, AstarteValue>, text: Seq<char>)
    ensures
        map.contains_key("host"@) ==> address_entry(map) == Some(map["host"@]),
        !map.contains_key("host"@) && map.contains_key("ip"@) ==> address_entry(map) == Some(
            map["ip"@],
        ),
        !map.contains_key("host"@) && !map.contains_key("ip"@) ==> address_entry(map) is None,
        is_local_name(text) <==> text == "localhost"@ || text == "localhost.local"@,
{
}

/// A fault is reported by the error of its kind, with what the fault is about.
pub proof fn law_faults_are_reported(fault: UrlFault, err: Error)
    requires
        fault.reported_by(err),
    ensures
        match fault {
            UrlFault::Missing(text) => err matches Error::MissingUrlInfo(message) && message@
                == text,
            UrlFault::WrongType => err is AstarteWrongType,
            UrlFault::Scheme(text) => err matches Error::ParseScheme(scheme) && scheme@ == text,
            UrlFault::Address(reason) => err matches Error::ParseAddr(r) && r == reason,
            UrlFault::Port => err is ParsePort,
            UrlFault::Url(reason) => err matches Error::Parse(r) && r == reason,
        },
{
}

/// What an object tells as a URL is what parsing the text for its host gives, or the fault of the
/// object.
pub proof fn law_told_url(
    map: Map<Seq<char>, AstarteValue>,
    parsed: Result<IpAddr, AddrParseError>,
    data: DataAggObject,
)
    ensures
        told_host(map, parsed) == Ok::<DataAggObject, UrlFault>(data) ==> (match parsed_url(
            data.url_text(),
        ) {
            Ok(href) => told_url(map, parsed) == Ok::<Seq<char>, UrlFault>(href),
            Err(reason) => told_url(map, parsed) == Err::<Seq<char>, UrlFault>(
                UrlFault::Url(reason),
            ),
        }),
        told_host(map, parsed) is Err ==> told_url(map, parsed) is Err && told_url(
            map,
            parsed,
        )->Err_0 == told_host(map, parsed)->Err_0,
        parsed_url(data.url_text()) matches Ok(href) ==> host_url(data) == Ok::<
            Seq<char>,
            UrlFault,
        >(href),
        parsed_url(data.url_text()) matches Err(reason) ==> host_url(data) == Err::<
            Seq<char>,
            UrlFault,
        >(UrlFault::Url(reason)),
{
}

/// The text for a wrong scheme ends with the whole scheme.
pub proof fn law_scheme_error_text(scheme: String)
    ensures
        Error::ParseScheme(scheme).text() == "Wrong scheme, "@ + scheme@,
{
}

/// A host is transmitted under the keys `scheme`, `ip` and `port`, and under no other key.
pub proof fn law_aggregate_entries(data: DataAggObject, key: Seq<char>)
    ensures
        aggregate(data).contains_key(key) <==> key == "scheme"@ || key == "ip"@ || key == "port"@,
        aggregate(data)["scheme"@] == AstarteValue::Text(
            if data.scheme == Scheme::Ws {
                "ws"@
            } else {
                "wss"@
            },
        ),
        aggregate(data)["ip"@] == AstarteValue::Text(data.ip.text()),
        aggregate(data)["port"@] == AstarteValue::Integer(data.port as int),
{
    reveal_strlit("scheme");
    reveal_strlit("ip");
    reveal_strlit("port");
    assert("scheme"@.len() == 6 && "ip"@.len() == 2 && "port"@.len() == 4);
}

/// Apart from the errors whose text names something, the text of an error depends on its kind
/// alone.
pub proof fn law_fixed_astarte_error_texts(err: Error)
    ensures
        err is AstarteInterface ==> err.text() == "Error while loading the Astarte Interfaces"@,
        err is AstarteCreateDevice ==> err.text() == "Error while creating an Astarte device"@,
        err is AstarteHandleEvent ==> err.text() == "Error while handling Astarte events"@,
        err is AstarteWrongAggregation ==> err.text() == "Received Individual aggregation data type"@,
        err is AstarteWrongType ==> err.text() == "Received wrong astarte type"@,
        err is ReadFile ==> err.text() == "Error while reading a file"@,
        err is Serde ==> err.text() == "Error while serializing/deserializing with serde"@,
        err is Parse ==> err.text() == "Error while parsing url"@,
        err is ParseAddr ==> err.text() == "Error while parsing the ip address"@,
        err is ParsePort ==> err.text() == "Error while parsing the port number"@,
        err is MissingUrlInfo ==> err.text() == "Missing url information"@,
{
}

} // verus!
