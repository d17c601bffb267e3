//! TLS on top of the communication between a device and a host.
//!
//! [`acceptor`] and [`host_tls_config`] make the TLS configuration of a host from its certificate
//! and its private key; [`device_tls_config`] makes that of a device from the certificates that
//! it trusts. [`TlsAccept`] accepts a TLS connection on top of a TCP connection.

use tokio_rustls::rustls::Error as RustlsError;
use tokio_rustls::webpki::Error as WebpkiError;
use vstd::prelude::*;

use crate::device::DeviceError;
use crate::host::HostError;
use crate::transport::{IoError, Poll};

verus! {

/// The error of `rustls`.
#[verifier::external_type_specification]
#[verifier::external_body]
pub struct ExRustlsError(RustlsError);

/// The error of `webpki`.
#[verifier::external_type_specification]
#[verifier::external_body]
pub struct ExWebpkiError(WebpkiError);

/// The error that `rustls_pemfile` reports.
#[verifier::external_type_specification]
#[verifier::external_body]
pub struct ExIoError(std::io::Error);

/// TLS errors.
#[derive(Debug)]
pub enum Error {
    /// A file holds something else than the certificate or the private key that is expected.
    WrongItem,
    /// Error while establishing a TLS connection.
    RustTls(RustlsError),
    /// Error while accepting a TLS connection.
    AcceptTls(IoError),
    /// Error while reading from file.
    ReadFile(std::io::Error),
    /// Failed to add CA cert to the root certs.
    RootCert(WebpkiError),
}

impl Error {
    /// The text that describes this error.
    pub open spec fn text(self) -> Seq<char> {
        match self {
            Error::WrongItem => "Wrong item."@,
            Error::RustTls(_) => "Error while establishing a TLS connection."@,
            Error::AcceptTls(_) => "Error while accepting a TLS connection."@,
            Error::ReadFile(_) => "Error while reading from file."@,
            Error::RootCert(_) => "Failed to add CA cert to the root certs."@,
        }
    }

    /// Describes the error.
    pub fn message(&self) -> (r: String)
        ensures
            r@ == self.text(),
    {
        match self {
            Error::WrongItem => "Wrong item.".to_owned(),
            Error::RustTls(_) => "Error while establishing a TLS connection.".to_owned(),
            Error::AcceptTls(_) => "Error while accepting a TLS connection.".to_owned(),
            Error::ReadFile(_) => "Error while reading from file.".to_owned(),
            Error::RootCert(_) => "Failed to add CA cert to the root certs.".to_owned(),
        }
    }
}

/// A section of a PEM file.
#[derive(Clone, Debug, PartialEq, Eq)]
pub enum PemItem {
    /// An X.509 certificate.
    X509Certificate(Vec<u8>),
    /// A PKCS#1 private key.
    RSAKey(Vec<u8>),
    /// A PKCS#8 private key.
    PKCS8Key(Vec<u8>),
    /// A SEC1 private key.
    ECKey(Vec<u8>),
    /// A certificate revocation list.
    Crl(Vec<u8>),
    /// A section of any other kind.
    Unknown,
}

/// The content of a [`PemItem`].
pub enum PemSection {
    /// An X.509 certificate.
    X509Certificate(Seq<u8>),
    /// A PKCS#1 private key.
    RSAKey(Seq<u8>),
    /// A PKCS#8 private key.
    PKCS8Key(Seq<u8>),
    /// A SEC1 private key.
    ECKey(Seq<u8>),
    /// A certificate revocation list.
    Crl(Seq<u8>),
    /// A section of any other kind.
    Unknown,
}

impl View for PemItem {
    type V = PemSection;

    open spec fn view(&self) -> PemSection {
        match self {
            PemItem::X509Certificate(der) => PemSection::X509Certificate(der@),
            PemItem::RSAKey(der) => PemSection::RSAKey(der@),
            PemItem::PKCS8Key(der) => PemSection::PKCS8Key(der@),
            PemItem::ECKey(der) => PemSection::ECKey(der@),
            PemItem::Crl(der) => PemSection::Crl(der@),
            PemItem::Unknown => PemSection::Unknown,
        }
    }
}

/// The contents of a list of items.
pub open spec fn sections(items: Seq<PemItem>) -> Seq<PemSection> {
    Seq::new(items.len(), |i: int| items[i]@)
}

/// The first section that `rustls_pemfile::read_one` finds in a file, if there is one, or `None`
/// where the file is malformed before the end of that section.
pub uninterp spec fn first_pem_section(pem: Seq<u8>) -> Option<Option<PemSection>>;

/// The sections that `rustls_pemfile::read_all` finds in a file, or `None` where the file is
/// malformed.
pub uninterp spec fn pem_sections(pem: Seq<u8>) -> Option<Seq<PemSection>>;

/// Calls `rustls_pemfile::read_one` on the bytes of a file. The result depends on the bytes alone
/// and is named by `first_pem_section`.
#[verifier::external_body]
fn read_one(pem: &[u8]) -> (r: Result<Option<PemItem>, std::io::Error>)
    ensures
        r matches Ok(None) ==> first_pem_section(pem@) == Some(None::<PemSection>),
        r matches Ok(Some(item)) ==> first_pem_section(pem@) == Some(Some(item@)),
        r is Err ==> first_pem_section(pem@) is None,
{
    let mut reader: &[u8] = pem;
    let item = rustls_pemfile::read_one(&mut reader)?;
    Ok(item.map(|item| match item {
        rustls_pemfile::Item::X509Certificate(der) => PemItem::X509Certificate(der),
        rustls_pemfile::Item::RSAKey(der) => PemItem::RSAKey(der),
        rustls_pemfile::Item::PKCS8Key(der) => PemItem::PKCS8Key(der),
        rustls_pemfile::Item::ECKey(der) => PemItem::ECKey(der),
        rustls_pemfile::Item::Crl(der) => PemItem::Crl(der),
        _ => PemItem::Unknown,
    }))
}

/// Calls `rustls_pemfile::read_all` on the bytes of a file. The result depends on the bytes alone
/// and is named by `pem_sections`.
#[verifier::external_body]
fn read_all(pem: &[u8]) -> (r: Result<Vec<PemItem>, std::io::Error>)
    ensures
        r matches Ok(items) ==> pem_sections(pem@) == Some(sections(items@)),
        r is Err ==> pem_sections(pem@) is None,
{
    let mut reader: &[u8] = pem;
    let items = rustls_pemfile::read_all(&mut reader)?;
    Ok(items.into_iter().map(|item| match item {
        rustls_pemfile::Item::X509Certificate(der) => PemItem::X509Certificate(der),
        rustls_pemfile::Item::RSAKey(der) => PemItem::RSAKey(der),
        rustls_pemfile::Item::PKCS8Key(der) => PemItem::PKCS8Key(der),
        rustls_pemfile::Item::ECKey(der) => PemItem::ECKey(der),
        rustls_pemfile::Item::Crl(der) => PemItem::Crl(der),
        _ => PemItem::Unknown,
    }).collect())
}

/// What a device needs of a CA certificate: its subject, its public key, and the names that it is
/// constrained to.
pub struct TrustAnchor {
    /// The subject.
    pub subject: Seq<u8>,
    /// The public key.
    pub spki: Seq<u8>,
    /// The name constraints.
    pub name_constraints: Option<Seq<u8>>,
}

/// A list of trust anchors.
#[verifier::external_type_specification]
#[verifier::external_body]
pub struct ExRootCertStore(tokio_rustls::rustls::RootCertStore);

/// The TLS configuration of a device.
#[verifier::external_type_specification]
#[verifier::external_body]
pub struct ExClientConfig(tokio_rustls::rustls::ClientConfig);

/// The TLS configuration of a host.
#[verifier::external_type_specification]
#[verifier::external_body]
pub struct ExServerConfig(tokio_rustls::rustls::ServerConfig);

/// The anchors that a `RootCertStore` holds, in order.
pub uninterp spec fn stored_anchors(store: tokio_rustls::rustls::RootCertStore) -> Seq<TrustAnchor>;

/// The anchor that `RootCertStore::add` makes of a certificate, or `None` where it refuses the
/// certificate.
pub uninterp spec fn trust_anchor(der: Seq<u8>) -> Option<TrustAnchor>;

/// The anchors that a store holds once `RootCertStore::add_server_trust_anchors` has added those
/// that the `webpki_roots` crate comes with, given the anchors that it held before.
pub uninterp spec fn with_server_roots(anchors: Seq<TrustAnchor>) -> Seq<TrustAnchor>;

/// The anchors that a `ClientConfig` holds, to verify the certificate of a host against.
pub uninterp spec fn config_anchors(config: tokio_rustls::rustls::ClientConfig) -> Seq<
    TrustAnchor,
>;

/// Whether a private key is an RSA, ECDSA or Ed25519 key in an encoding that
/// `ConfigBuilder::with_single_cert` reads.
pub uninterp spec fn private_key_supported(key: Seq<u8>) -> bool;

/// Whether `ConfigBuilder::with_single_cert` reads a private key as an RSA or as an Ed25519 key,
/// for which it needs the bytes of the key alone.
pub uninterp spec fn rsa_or_ed25519_key(key: Seq<u8>) -> bool;

/// Whether `key` is the private key that a `ServerConfig` holds, to sign with.
pub uninterp spec fn signs_with(config: tokio_rustls::rustls::ServerConfig, key: Seq<u8>) -> bool;

/// The certificate chain that a `ServerConfig` holds, to present to a device.
pub uninterp spec fn config_chain(config: tokio_rustls::rustls::ServerConfig) -> Seq<Seq<u8>>;

/// Calls `RootCertStore::empty`, which makes a store without anchors.
#[verifier::external_body]
fn empty_store() -> (r: tokio_rustls::rustls::RootCertStore)
    ensures
        stored_anchors(r) == Seq::<TrustAnchor>::empty(),
{
    tokio_rustls::rustls::RootCertStore::empty()
}

/// Calls `RootCertStore::add`, which appends the anchor of a certificate, or leaves the store as
/// it is and returns an error. Which of the two depends on the certificate alone and is named by
/// `trust_anchor`.
#[verifier::external_body]
fn add_certificate(store: &mut tokio_rustls::rustls::RootCertStore, der: Vec<u8>) -> (r: Result<
    (),
    WebpkiError,
>)
    ensures
        r is Ok <==> trust_anchor(der@) is Some,
        r is Ok ==> stored_anchors(*final(store)) == stored_anchors(*old(store)).push(
            trust_anchor(der@)->0,
        ),
        r is Err ==> stored_anchors(*final(store)) == stored_anchors(*old(store)),
{
    store.add(&tokio_rustls::rustls::Certificate(der))
}

/// Calls `RootCertStore::add_server_trust_anchors` with the anchors of
/// `webpki_roots::TLS_SERVER_ROOTS`. The result is named by `with_server_roots`. The anchors are
/// appended to those in the store, and are the same whatever the store holds: what is appended is
/// what an empty store would hold.
#[verifier::external_body]
fn add_server_roots(store: &mut tokio_rustls::rustls::RootCertStore)
    ensures
        stored_anchors(*final(store)) == with_server_roots(stored_anchors(*old(store))),
        stored_anchors(*final(store)) == stored_anchors(*old(store)) + with_server_roots(
            Seq::empty(),
        ),
{
    store.add_server_trust_anchors(webpki_roots::TLS_SERVER_ROOTS.0.iter().map(|ta| {
        tokio_rustls::rustls::OwnedTrustAnchor::from_subject_spki_name_constraints(
            ta.subject,
            ta.spki,
            ta.name_constraints,
        )
    }));
}

/// Calls `ClientConfig::builder`, with the safe defaults, the given anchors and no certificate of
/// its own: the configuration holds these anchors and verifies a host against them.
#[verifier::external_body]
fn client_config(store: tokio_rustls::rustls::RootCertStore) -> (r:
    tokio_rustls::rustls::ClientConfig)
    ensures
        config_anchors(r) == stored_anchors(store),
{
    tokio_rustls::rustls::ClientConfig::builder()
        .with_safe_defaults()
        .with_root_certificates(store)
        .with_no_client_auth()
}

/// Calls `ServerConfig::builder`, with the safe defaults, no client authentication, and
/// `with_single_cert`. The configuration holds the certificate, which is not looked into, and the
/// private key, which it signs with. A key that cannot be read is refused, and an RSA or Ed25519
/// key that can be read is accepted. An ECDSA key is also refused where the system hands out no
/// random numbers, so nothing is said of when such a key is accepted.
#[verifier::external_body]
fn server_config(cert: Vec<u8>, privkey: Vec<u8>) -> (r: Result<
    tokio_rustls::rustls::ServerConfig,
    RustlsError,
>)
    ensures
        r is Ok ==> private_key_supported(privkey@),
        rsa_or_ed25519_key(privkey@) ==> r is Ok,
        r matches Ok(config) ==> config_chain(config) == seq![cert@],
        r matches Ok(config) ==> signs_with(config, privkey@),
{
    tokio_rustls::rustls::ServerConfig::builder()
        .with_safe_defaults()
        .with_no_client_auth()
        .with_single_cert(
            vec![tokio_rustls::rustls::Certificate(cert)],
            tokio_rustls::rustls::PrivateKey(privkey),
        )
}

/// The TLS configuration of a host, given what building it came to.
pub fn built_config(built: Result<tokio_rustls::rustls::ServerConfig, RustlsError>) -> (r: Result<
    tokio_rustls::rustls::ServerConfig,
    HostError,
>)
    ensures
        match built {
            Ok(config) => r == Ok::<tokio_rustls::rustls::ServerConfig, HostError>(config),
            Err(err) => r == Err::<tokio_rustls::rustls::ServerConfig, HostError>(
                HostError::Tls(Error::RustTls(err)),
            ),
        },
{
    match built {
        Ok(config) => Ok(config),
        Err(err) => Err(HostError::Tls(Error::RustTls(err))),
    }
}

/// Whether `r` is what a certificate and a private key come to: a configuration that presents the
/// certificate and signs with the key, or the error for a key that is not accepted. Which of the
/// two is left open for an ECDSA key that can be read.
pub open spec fn configured(
    r: Result<tokio_rustls::rustls::ServerConfig, HostError>,
    cert: Seq<u8>,
    key: Seq<u8>,
) -> bool {
    match r {
        Ok(config) => {
            &&& config_chain(config) == seq![cert]
            &&& signs_with(config, key)
            &&& private_key_supported(key)
        },
        Err(err) => !rsa_or_ed25519_key(key) && err matches HostError::Tls(Error::RustTls(_)),
    }
}

/// The TLS configuration of a host with the given certificate and private key.
pub fn host_tls_config(cert: Vec<u8>, privkey: Vec<u8>) -> (r: Result<
    tokio_rustls::rustls::ServerConfig,
    HostError,
>)
    ensures
        configured(r, cert@, privkey@),
{
    built_config(server_config(cert, privkey))
}

/// The first item of a PEM file, given its bytes.
pub fn retrieve_item(pem: &[u8]) -> (r: Result<Option<PemItem>, std::io::Error>)
    ensures
        match first_pem_section(pem@) {
            Some(Some(section)) => r matches Ok(Some(item)) && item@ == section,
            Some(None) => r matches Ok(None),
            None => r is Err,
        },
{
    read_one(pem)
}

/// What the file of a certificate or of a private key comes to.
pub enum FilePart {
    /// The file holds what it should.
    Found(Seq<u8>),
    /// The file cannot be read.
    Unreadable,
    /// The file holds something else.
    Wrong,
}

/// What the first section of a certificate file comes to.
pub open spec fn certificate_section(section: Option<Option<PemSection>>) -> FilePart {
    match section {
        None => FilePart::Unreadable,
        Some(Some(PemSection::X509Certificate(der))) => FilePart::Found(der),
        Some(_) => FilePart::Wrong,
    }
}

/// What the first section of a private key file comes to.
pub open spec fn key_section(section: Option<Option<PemSection>>) -> FilePart {
    match section {
        None => FilePart::Unreadable,
        Some(Some(PemSection::PKCS8Key(der))) => FilePart::Found(der),
        Some(_) => FilePart::Wrong,
    }
}

/// The first section of a file that was read, or `None` where it was not.
pub open spec fn read_section(read: Result<Vec<u8>, std::io::Error>) -> Option<Option<PemSection>> {
    match read {
        Ok(pem) => first_pem_section(pem@),
        Err(_) => None,
    }
}

/// Whether `err` is the error for a file that does not hold what it should; where the file could
/// not be read, the reason is that of `read`.
pub open spec fn file_error(
    err: HostError,
    part: FilePart,
    file: String,
    read: Result<Vec<u8>, std::io::Error>,
) -> bool {
    match part {
        FilePart::Found(_) => false,
        FilePart::Unreadable => err matches HostError::ReadFile { err: reason, file: f } && f
            == file && (read matches Err(e) ==> e == reason),
        FilePart::Wrong => err == HostError::Tls(Error::WrongItem),
    }
}

/// Takes a certificate out of a PEM item.
pub fn certificate_item(item: Option<PemItem>) -> (r: Option<Vec<u8>>)
    ensures
        match item {
            Some(PemItem::X509Certificate(der)) => r == Some(der),
            _ => r is None,
        },
{
    match item {
        Some(PemItem::X509Certificate(der)) => Some(der),
        _ => None,
    }
}

/// Takes a PKCS#8 private key out of a PEM item.
pub fn private_key_item(item: Option<PemItem>) -> (r: Option<Vec<u8>>)
    ensures
        match item {
            Some(PemItem::PKCS8Key(der)) => r == Some(der),
            _ => r is None,
        },
{
    match item {
        Some(PemItem::PKCS8Key(der)) => Some(der),
        _ => None,
    }
}

/// The certificate in a file, given what was read from it.
pub fn host_certificate(file: String, read: Result<Vec<u8>, std::io::Error>) -> (r: Result<
    Vec<u8>,
    HostError,
>)
    ensures
        match certificate_section(read_section(read)) {
            FilePart::Found(der) => r matches Ok(cert) && cert@ == der,
            part => r matches Err(err) && file_error(err, part, file, read),
        },
        match read {
            Ok(pem) => match first_pem_section(pem@) {
                Some(Some(PemSection::X509Certificate(der))) => r matches Ok(cert) && cert@ == der,
                Some(_) => r == Err::<Vec<u8>, HostError>(HostError::Tls(Error::WrongItem)),
                None => r matches Err(HostError::ReadFile { err: _, file: f }) && f == file,
            },
            Err(err) => r == Err::<Vec<u8>, HostError>(HostError::ReadFile { err, file }),
        },
{
    let pem = match read {
        Ok(pem) => pem,
        Err(err) => return Err(HostError::ReadFile { err, file }),
    };
    let item = match retrieve_item(pem.as_slice()) {
        Ok(item) => item,
        Err(err) => return Err(HostError::ReadFile { err, file }),
    };
    match certificate_item(item) {
        Some(cert) => Ok(cert),
        None => Err(HostError::Tls(Error::WrongItem)),
    }
}

/// The private key in a file, given what was read from it.
pub fn host_private_key(file: String, read: Result<Vec<u8>, std::io::Error>) -> (r: Result<
    Vec<u8>,
    HostError,
>)
    ensures
        match key_section(read_section(read)) {
            FilePart::Found(der) => r matches Ok(key) && key@ == der,
            part => r matches Err(err) && file_error(err, part, file, read),
        },
        match read {
            Ok(pem) => match first_pem_section(pem@) {
                Some(Some(PemSection::PKCS8Key(der))) => r matches Ok(key) && key@ == der,
                Some(_) => r == Err::<Vec<u8>, HostError>(HostError::Tls(Error::WrongItem)),
                None => r matches Err(HostError::ReadFile { err: _, file: f }) && f == file,
            },
            Err(err) => r == Err::<Vec<u8>, HostError>(HostError::ReadFile { err, file }),
        },
{
    let pem = match read {
        Ok(pem) => pem,
        Err(err) => return Err(HostError::ReadFile { err, file }),
    };
    let item = match retrieve_item(pem.as_slice()) {
        Ok(item) => item,
        Err(err) => return Err(HostError::ReadFile { err, file }),
    };
    match private_key_item(item) {
        Some(key) => Ok(key),
        None => Err(HostError::Tls(Error::WrongItem)),
    }
}

/// The TLS configuration of a host, given what was read from the files of its certificate and of
/// its private key. The certificate is looked at first.
pub fn acceptor(
    host_cert_file: String,
    cert: Result<Vec<u8>, std::io::Error>,
    privkey_file: String,
    privkey: Result<Vec<u8>, std::io::Error>,
) -> (r: Result<tokio_rustls::rustls::ServerConfig, HostError>)
    ensures
        match certificate_section(read_section(cert)) {
            FilePart::Found(chain) => match key_section(read_section(privkey)) {
                FilePart::Found(key) => configured(r, chain, key),
                part => r matches Err(err) && file_error(err, part, privkey_file, privkey),
            },
            part => r matches Err(err) && file_error(err, part, host_cert_file, cert),
        },
        match (cert, privkey) {
            (Ok(cert_pem), Ok(key_pem)) => match (
                first_pem_section(cert_pem@),
                first_pem_section(key_pem@),
            ) {
                (
                    Some(Some(PemSection::X509Certificate(chain))),
                    Some(Some(PemSection::PKCS8Key(key))),
                ) => match r {
                    Ok(config) => config_chain(config) == seq![chain] && signs_with(config, key)
                        && private_key_supported(key),
                    Err(err) => !rsa_or_ed25519_key(key) && (err matches HostError::Tls(
                        Error::RustTls(_),
                    )),
                },
                _ => r matches Err(err) && !(err matches HostError::Tls(Error::RustTls(_))),
            },
            _ => r matches Err(err) && !(err matches HostError::Tls(Error::RustTls(_))),
        },
{
    let cert = match host_certificate(host_cert_file, cert) {
        Ok(cert) => cert,
        Err(err) => return Err(err),
    };
    let privkey = match host_private_key(privkey_file, privkey) {
        Ok(privkey) => privkey,
        Err(err) => return Err(err),
    };
    host_tls_config(cert, privkey)
}

/// Why the sections of a file are not the certificates to trust.
pub enum AnchorFault {
    /// A section is no certificate.
    WrongItem,
    /// A certificate is refused.
    RootCert,
}

impl AnchorFault {
    /// Whether `err` reports this fault.
    pub open spec fn reported_by(self, err: DeviceError) -> bool {
        match self {
            AnchorFault::WrongItem => err == DeviceError::Tls(Error::WrongItem),
            AnchorFault::RootCert => err matches DeviceError::Tls(Error::RootCert(_)),
        }
    }
}

/// The anchors of the certificates in a file, in order, or the first fault that is met.
pub open spec fn file_anchors(sections: Seq<PemSection>) -> Result<Seq<TrustAnchor>, AnchorFault>
    decreases sections.len(),
{
    if sections.len() == 0 {
        Ok(Seq::empty())
    } else {
        match file_anchors(sections.drop_last()) {
            Err(fault) => Err(fault),
            Ok(anchors) => match sections.last() {
                PemSection::X509Certificate(der) => match trust_anchor(der) {
                    Some(anchor) => Ok(anchors.push(anchor)),
                    None => Err(AnchorFault::RootCert),
                },
                _ => Err(AnchorFault::WrongItem),
            },
        }
    }
}

/// A file is accepted if and only if every section of it is a certificate that makes an anchor;
/// then each of its certificates is trusted, in the order of the file.
pub proof fn law_every_certificate_is_trusted(sections: Seq<PemSection>)
    ensures
        file_anchors(sections) is Ok <==> forall|i: int|
            0 <= i < sections.len() ==> (#[trigger] sections[i] matches PemSection::X509Certificate(
                der,
            ) && trust_anchor(der) is Some),
        file_anchors(sections) matches Ok(anchors) ==> anchors.len() == sections.len() && forall|
            i: int,
        |
            0 <= i < sections.len() ==> (#[trigger] sections[i] matches PemSection::X509Certificate(
                der,
            ) && trust_anchor(der) == Some(anchors[i])),
    decreases sections.len(),
{
    if sections.len() > 0 {
        let before = sections.drop_last();
        law_every_certificate_is_trusted(before);
        assert forall|i: int| 0 <= i < before.len() implies before[i] == #[trigger] sections[i] by {}
        let n = sections.len() - 1;
        assert(sections[n] == sections.last());
        if let Ok(anchors) = file_anchors(sections) {
            let old_anchors = file_anchors(before)->Ok_0;
            assert forall|i: int| 0 <= i < sections.len() implies (
            #[trigger] sections[i] matches PemSection::X509Certificate(der) && trust_anchor(der)
                == Some(anchors[i])) by {
                if i < n {
                    assert(before[i] == sections[i]);
                }
            }
        } else if file_anchors(before) is Err {
            let j = choose|j: int|
                0 <= j < before.len() && !(#[trigger] before[j] matches PemSection::X509Certificate(
                    der,
                ) && trust_anchor(der) is Some);
            assert(sections[j] == before[j]);
        }
    }
}

proof fn lemma_file_anchors_fault(sections: Seq<PemSection>, n: int)
    requires
        0 <= n <= sections.len(),
        file_anchors(sections.take(n)) is Err,
    ensures
        file_anchors(sections) == file_anchors(sections.take(n)),
    decreases sections.len(),
{
    if n < sections.len() {
        assert(sections.drop_last().take(n) =~= sections.take(n));
        lemma_file_anchors_fault(sections.drop_last(), n);
    } else {
        assert(sections.take(n) =~= sections);
    }
}

/// The anchors to trust, given the items of the file that names them: every item has to be a
/// certificate.
pub fn root_certificates(items: Vec<PemItem>) -> (r: Result<
    tokio_rustls::rustls::RootCertStore,
    DeviceError,
>)
    ensures
        match file_anchors(sections(items@)) {
            Ok(anchors) => r matches Ok(store) && stored_anchors(store) == anchors,
            Err(fault) => r matches Err(err) && fault.reported_by(err),
        },
{
    let mut store = empty_store();
    let ghost all = sections(items@);
    let mut i: usize = 0;
    assert(all.take(0) =~= Seq::empty());
    while i < items.len()
        invariant
            i <= items@.len(),
            all == sections(items@),
            file_anchors(all.take(i as int)) == Ok::<Seq<TrustAnchor>, AnchorFault>(
                stored_anchors(store),
            ),
        decreases items@.len() - i,
    {
        proof {
            let next = all.take(i + 1);
            assert(next.drop_last() =~= all.take(i as int));
            assert(next.last() == items@[i as int]@);
        }
        match &items[i] {
            PemItem::X509Certificate(der) => {
                let cert: Vec<u8> = der.clone();
                assert(cert@ =~= der@);
                match add_certificate(&mut store, cert) {
                    Ok(()) => {},
                    Err(err) => {
                        proof {
                            lemma_file_anchors_fault(all, i + 1);
                        }
                        return Err(DeviceError::Tls(Error::RootCert(err)));
                    },
                }
            },
            _ => {
                proof {
                    lemma_file_anchors_fault(all, i + 1);
                }
                return Err(DeviceError::Tls(Error::WrongItem));
            },
        }
        i = i + 1;
    }
    assert(all.take(i as int) =~= all);
    Ok(store)
}

/// The anchors of the file that names the certificates to trust, or `None` where the file is
/// malformed.
pub open spec fn named_anchors(sections: Option<Seq<PemSection>>) -> Option<
    Result<Seq<TrustAnchor>, AnchorFault>,
> {
    match sections {
        Some(sections) => Some(file_anchors(sections)),
        None => None,
    }
}

/// The TLS configuration of a device, given what was read from the file with the CA certificates
/// that it trusts, where there is one. It also trusts the common certification authorities, which
/// are the same with and without a file.
pub fn device_tls_config(ca_cert: Option<Result<Vec<u8>, std::io::Error>>) -> (r: Result<
    tokio_rustls::rustls::ClientConfig,
    DeviceError,
>)
    ensures
        match ca_cert {
            None => r matches Ok(config) && config_anchors(config) == with_server_roots(
                Seq::empty(),
            ),
            Some(Err(err)) => r == Err::<tokio_rustls::rustls::ClientConfig, DeviceError>(
                DeviceError::Tls(Error::ReadFile(err)),
            ),
            Some(Ok(pem)) => match named_anchors(pem_sections(pem@)) {
                None => r matches Err(DeviceError::Tls(Error::ReadFile(_))),
                Some(Err(fault)) => r matches Err(err) && fault.reported_by(err),
                Some(Ok(anchors)) => r matches Ok(config) && config_anchors(config) == anchors
                    + with_server_roots(Seq::empty()),
            },
        },
{
    let mut store = match ca_cert {
        None => empty_store(),
        Some(Err(err)) => return Err(DeviceError::Tls(Error::ReadFile(err))),
        Some(Ok(pem)) => {
            let items = match read_all(pem.as_slice()) {
                Ok(items) => items,
                Err(err) => return Err(DeviceError::Tls(Error::ReadFile(err))),
            };
            match root_certificates(items) {
                Ok(store) => store,
                Err(err) => return Err(err),
            }
        },
    };
    add_server_roots(&mut store);
    Ok(client_config(store))
}

/// Accepts a TLS connection: first the TCP connection, then TLS on top of it.
#[derive(Clone, Copy, Debug, PartialEq, Eq, Structural)]
pub enum TlsAccept {
    /// Waits for a TCP connection.
    Tcp,
    /// Waits for the TLS handshake.
    Tls,
}

/// What a [`TlsAccept`] is told.
#[derive(Debug)]
pub enum TlsAcceptEvent {
    /// What is known of the TCP connection.
    Tcp(Poll<Result<(), HostError>>),
    /// What is known of the TLS handshake.
    Tls(Poll<Result<(), IoError>>),
}

/// What a [`TlsAccept`] asks for.
#[derive(Debug)]
pub enum TlsAcceptAction {
    /// Start the TLS handshake on the TCP connection and poll it.
    StartTls,
    /// The connection is there, is an error, or is not there yet.
    Yield(Poll<Result<(), HostError>>),
    /// Go on waiting: the event was not the one that is waited for.
    Ignore,
}

/// How a [`TlsAccept`] goes on: its next state, and what it asks for.
pub open spec fn tls_accept_next(state: TlsAccept, event: TlsAcceptEvent) -> (
    TlsAccept,
    TlsAcceptAction,
) {
    match (state, event) {
        (TlsAccept::Tcp, TlsAcceptEvent::Tcp(Poll::Ready(Ok(())))) => (
            TlsAccept::Tls,
            TlsAcceptAction::StartTls,
        ),
        (TlsAccept::Tcp, TlsAcceptEvent::Tcp(poll)) => (state, TlsAcceptAction::Yield(poll)),
        (TlsAccept::Tls, TlsAcceptEvent::Tls(Poll::Pending)) => (
            state,
            TlsAcceptAction::Yield(Poll::Pending),
        ),
        (TlsAccept::Tls, TlsAcceptEvent::Tls(Poll::Ready(Ok(())))) => (
            state,
            TlsAcceptAction::Yield(Poll::Ready(Ok(()))),
        ),
        (TlsAccept::Tls, TlsAcceptEvent::Tls(Poll::Ready(Err(err)))) => (
            state,
            TlsAcceptAction::Yield(Poll::Ready(Err(HostError::Tls(Error::AcceptTls(err))))),
        ),
        _ => (state, TlsAcceptAction::Ignore),
    }
}

impl TlsAccept {
    /// An accept that starts with the TCP connection.
    pub fn new() -> (r: Self)
        ensures
            r == TlsAccept::Tcp,
    {
        TlsAccept::Tcp
    }

    /// Takes an event.
    pub fn poll(&mut self, event: TlsAcceptEvent) -> (r: TlsAcceptAction)
        ensures
            (*final(self), r) == tls_accept_next(*old(self), event),
    {
        match (*self, event) {
            (TlsAccept::Tcp, TlsAcceptEvent::Tcp(Poll::Ready(Ok(())))) => {
                *self = TlsAccept::Tls;
                TlsAcceptAction::StartTls
            },
            (TlsAccept::Tcp, TlsAcceptEvent::Tcp(poll)) => TlsAcceptAction::Yield(poll),
            (TlsAccept::Tls, TlsAcceptEvent::Tls(Poll::Pending)) => {
                TlsAcceptAction::Yield(Poll::Pending)
            },
            (TlsAccept::Tls, TlsAcceptEvent::Tls(Poll::Ready(Ok(())))) => {
                TlsAcceptAction::Yield(Poll::Ready(Ok(())))
            },
            (TlsAccept::Tls, TlsAcceptEvent::Tls(Poll::Ready(Err(err)))) => {
                TlsAcceptAction::Yield(Poll::Ready(Err(HostError::Tls(Error::AcceptTls(err)))))
            },
            _ => TlsAcceptAction::Ignore,
        }
    }
}

/// A service that adds TLS to the connections of another service.
#[derive(Clone, Debug)]
pub struct TlsService<S, A> {
    /// The service that makes the connections.
    pub service: S,
    /// What accepts TLS on a connection.
    pub acceptor: A,
}

/// The layer that adds a [`TlsService`].
#[derive(Clone, Debug)]
pub struct TlsLayer<A> {
    /// What accepts TLS on a connection.
    pub acceptor: A,
}

impl<A> TlsLayer<A> {
    /// The layer that accepts TLS with `acceptor`.
    #[must_use]
    pub fn new(acceptor: A) -> (r: Self)
        ensures
            r.acceptor == acceptor,
    {
        TlsLayer { acceptor }
    }
}

impl<A: Clone> TlsLayer<A> {
    /// Puts TLS on top of `inner`, with a clone of the acceptor.
    pub fn layer<S>(&self, inner: S) -> (r: TlsService<S, A>)
        ensures
            r.service == inner,
            cloned(self.acceptor, r.acceptor),
    {
        TlsService { service: inner, acceptor: self.acceptor.clone() }
    }
}

/// The content of an item is all of the item.
pub proof fn law_pem_item_content(item: PemItem, der: Seq<u8>)
    ensures
        item@ == PemSection::X509Certificate(der) <==> (item matches PemItem::X509Certificate(d)
            && d@ == der),
        item@ == PemSection::RSAKey(der) <==> (item matches PemItem::RSAKey(d) && d@ == der),
        item@ == PemSection::PKCS8Key(der) <==> (item matches PemItem::PKCS8Key(d) && d@ == der),
        item@ == PemSection::ECKey(der) <==> (item matches PemItem::ECKey(d) && d@ == der),
        item@ == PemSection::Crl(der) <==> (item matches PemItem::Crl(d) && d@ == der),
        item@ is Unknown <==> item is Unknown,
{
}

/// The sections of a list of items are those of its elements, in order and in number.
pub proof fn law_sections(items: Seq<PemItem>, i: int)
    requires
        0 <= i < items.len(),
    ensures
        sections(items).len() == items.len(),
        sections(items)[i] == items[i]@,
{
}

/// Every certificate is accepted as a certificate, and every PKCS#8 key as a private key, whatever
/// it holds and however long it is: a file is wrong if and only if its first section is absent or
/// of another kind, and it is unreadable if and only if it has no readable first section.
pub proof fn law_first_section_decides(first: Option<Option<PemSection>>, der: Seq<u8>)
    ensures
        certificate_section(first) == FilePart::Found(der) <==> first == Some(
            Some(PemSection::X509Certificate(der)),
        ),
        certificate_section(first) is Wrong <==> (first matches Some(section) && !(
        section matches Some(PemSection::X509Certificate(_)))),
        certificate_section(first) is Unreadable <==> first is None,
        key_section(first) == FilePart::Found(der) <==> first == Some(
            Some(PemSection::PKCS8Key(der)),
        ),
        key_section(first) is Wrong <==> (first matches Some(section) && !(section matches Some(
            PemSection::PKCS8Key(_),
        ))),
        key_section(first) is Unreadable <==> first is None,
{
}

/// The first section of a file is that of the bytes that were read, all of them.
pub proof fn law_read_section(pem: Vec<u8>, err: std::io::Error)
    ensures
        read_section(Ok(pem)) == first_pem_section(pem@),
        read_section(Err(err)) is None,
{
}

/// A file that holds what it should is no error; one that cannot be read is reported with its whole
/// path, and with the reason where there is one; any other one is the wrong item.
pub proof fn law_file_errors(
    err: HostError,
    der: Seq<u8>,
    file: String,
    read: Result<Vec<u8>, std::io::Error>,
)
    ensures
        !file_error(err, FilePart::Found(der), file, read),
        file_error(err, FilePart::Wrong, file, read) <==> err == HostError::Tls(Error::WrongItem),
        file_error(err, FilePart::Unreadable, file, read) <==> (err matches HostError::ReadFile {
            err: reason,
            file: f,
        } && f == file && (read matches Err(e) ==> e == reason)),
{
}

/// What a certificate and a private key come to: a configuration presents this certificate, alone,
/// and signs with this key; a key that cannot be read makes none, and one that is read without
/// random numbers always makes one.
pub proof fn law_configuration_of_a_host(
    r: Result<tokio_rustls::rustls::ServerConfig, HostError>,
    cert: Seq<u8>,
    key: Seq<u8>,
)
    requires
        configured(r, cert, key),
    ensures
        r matches Ok(config) ==> config_chain(config) == seq![cert] && signs_with(config, key),
        !private_key_supported(key) ==> r is Err,
        rsa_or_ed25519_key(key) ==> r is Ok,
        r matches Err(err) ==> (err matches HostError::Tls(Error::RustTls(_))),
{
}

/// The first section of a file that is no certificate, or whose certificate is refused, decides
/// what is reported, whatever follows it.
pub proof fn law_first_fault_is_reported(sections: Seq<PemSection>, n: int, err: DeviceError)
    requires
        0 <= n < sections.len(),
        forall|i: int|
            0 <= i < n ==> (#[trigger] sections[i] matches PemSection::X509Certificate(der)
                && trust_anchor(der) is Some),
        !(sections[n] matches PemSection::X509Certificate(der) && trust_anchor(der) is Some),
    ensures
        file_anchors(sections) matches Err(fault) && (fault.reported_by(err) <==> (if sections[n]
            is X509Certificate {
            err matches DeviceError::Tls(Error::RootCert(_))
        } else {
            err == DeviceError::Tls(Error::WrongItem)
        })),
{
    let front = sections.take(n);
    law_every_certificate_is_trusted(front);
    assert forall|i: int| 0 <= i < front.len() implies front[i] == #[trigger] sections[i] by {}
    assert forall|i: int| 0 <= i < front.len() implies (
    #[trigger] front[i] matches PemSection::X509Certificate(der) && trust_anchor(der) is Some) by {
        assert(front[i] == sections[i]);
    }
    let next = sections.take(n + 1);
    assert(next.drop_last() =~= front);
    assert(next.last() == sections[n]);
    lemma_file_anchors_fault(sections, n + 1);
}

/// A file that is malformed names no certificates to trust, and any other one names those of its
/// sections.
pub proof fn law_named_anchors(sections: Seq<PemSection>)
    ensures
        named_anchors(None) is None,
        named_anchors(Some(sections)) == Some(file_anchors(sections)),
{
}

/// What a TLS connection does with what it is told: the handshake starts exactly when the TCP
/// connection is there, the connection is there exactly when the handshake is done, and an error
/// of either is the error of the connection.
pub proof fn law_tls_comes_after_tcp(state: TlsAccept, event: TlsAcceptEvent, err: HostError)
    ensures
        ({
            let (next, action) = tls_accept_next(state, event);
            &&& action is StartTls <==> state == TlsAccept::Tcp && (
            event matches TlsAcceptEvent::Tcp(Poll::Ready(Ok(_))))
            &&& (action matches TlsAcceptAction::Yield(Poll::Ready(Ok(_)))) <==> state
                == TlsAccept::Tls && (event matches TlsAcceptEvent::Tls(Poll::Ready(Ok(_))))
            &&& (action matches TlsAcceptAction::Yield(Poll::Pending)) <==> {
                ||| state == TlsAccept::Tcp && (event matches TlsAcceptEvent::Tcp(Poll::Pending))
                ||| state == TlsAccept::Tls && (event matches TlsAcceptEvent::Tls(Poll::Pending))
            }
            &&& action == TlsAcceptAction::Yield(Poll::Ready(Err(err))) <==> {
                ||| state == TlsAccept::Tcp && event == TlsAcceptEvent::Tcp(Poll::Ready(Err(err)))
                ||| state == TlsAccept::Tls && (event matches TlsAcceptEvent::Tls(
                    Poll::Ready(Err(e)),
                ) && err == HostError::Tls(Error::AcceptTls(e)))
            }
            &&& next == if action is StartTls {
                TlsAccept::Tls
            } else {
                state
            }
        }),
{
}

/// The text of an error depends on its kind alone.
pub proof fn law_tls_error_texts(err: Error)
    ensures
        err is WrongItem ==> err.text() == "Wrong item."@,
        err is RustTls ==> err.text() == "Error while establishing a TLS connection."@,
        err is AcceptTls ==> err.text() == "Error while accepting a TLS connection."@,
        err is ReadFile ==> err.text() == "Error while reading from file."@,
        err is RootCert ==> err.text() == "Failed to add CA cert to the root certs."@,
{
}

} // verus!
