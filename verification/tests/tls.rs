use rust_remote_shell::device::DeviceError;
use rust_remote_shell::host::HostError;
use rust_remote_shell::tls::{
    acceptor, built_config, certificate_item, device_tls_config, host_certificate, host_private_key,
    host_tls_config, private_key_item, retrieve_item, root_certificates, Error, PemItem, TlsAccept,
    TlsAcceptAction, TlsAcceptEvent, TlsLayer,
};
use rust_remote_shell::transport::{IoError, IoErrorKind, Poll};

fn tlv(tag: u8, content: &[u8]) -> Vec<u8> {
    assert!(content.len() < 128);
    let mut out = vec![tag, content.len() as u8];
    out.extend_from_slice(content);
    out
}

/// A version 1 certificate with the given content of its subject.
fn certificate(subject: &[u8]) -> Vec<u8> {
    let mut tbs = tlv(0x02, &[1]);
    tbs.extend(tlv(0x30, &[]));
    tbs.extend(tlv(0x30, &[]));
    tbs.extend(tlv(0x30, &[]));
    tbs.extend(tlv(0x30, subject));
    tbs.extend(tlv(0x30, &[5, 0]));
    let mut cert = tlv(0x30, &tbs);
    cert.extend(tlv(0x30, &[]));
    cert.extend(tlv(0x03, &[0]));
    tlv(0x30, &cert)
}

/// An Ed25519 private key in PKCS#8.
fn private_key() -> Vec<u8> {
    let mut key = tlv(0x02, &[0]);
    key.extend(tlv(0x30, &tlv(0x06, &[0x2b, 0x65, 0x70])));
    let seed: Vec<u8> = (0u8..32).collect();
    key.extend(tlv(0x04, &tlv(0x04, &seed)));
    tlv(0x30, &key)
}

fn base64(data: &[u8]) -> String {
    let alphabet = b"ABCDEFGHIJKLMNOPQRSTUVWXYZabcdefghijklmnopqrstuvwxyz0123456789+/";
    let mut out = String::new();
    for chunk in data.chunks(3) {
        let b = [chunk[0], *chunk.get(1).unwrap_or(&0), *chunk.get(2).unwrap_or(&0)];
        let n = ((b[0] as u32) << 16) | ((b[1] as u32) << 8) | b[2] as u32;
        for i in 0..4 {
            if i <= chunk.len() {
                out.push(alphabet[((n >> (18 - 6 * i)) & 63) as usize] as char);
            } else {
                out.push('=');
            }
        }
    }
    out
}

fn pem(label: &str, der: &[u8]) -> Vec<u8> {
    format!("-----BEGIN {}-----\n{}\n-----END {}-----\n", label, base64(der), label).into_bytes()
}

fn io_error() -> std::io::Error {
    std::io::Error::new(std::io::ErrorKind::NotFound, "missing")
}

#[test]
fn the_first_item_of_a_file_is_retrieved() {
    let mut file = b"junk\n".to_vec();
    file.extend(pem("CERTIFICATE", &[1, 2, 3]));
    file.extend(pem("PRIVATE KEY", &[4, 5]));
    assert_eq!(
        retrieve_item(&file).unwrap(),
        Some(PemItem::X509Certificate(vec![1, 2, 3]))
    );
    assert_eq!(
        retrieve_item(&pem("RSA PRIVATE KEY", &[9])).unwrap(),
        Some(PemItem::RSAKey(vec![9]))
    );
    assert_eq!(
        retrieve_item(&pem("EC PRIVATE KEY", &[9, 9])).unwrap(),
        Some(PemItem::ECKey(vec![9, 9]))
    );
    assert_eq!(retrieve_item(&pem("X509 CRL", &[8])).unwrap(), Some(PemItem::Crl(vec![8])));
    assert_eq!(retrieve_item(b"nothing here").unwrap(), None);
    assert!(retrieve_item(b"-----BEGIN CERTIFICATE-----\nAQID\n").is_err());
}

#[test]
fn items_are_told_apart() {
    assert_eq!(certificate_item(Some(PemItem::X509Certificate(vec![1]))), Some(vec![1]));
    assert_eq!(certificate_item(Some(PemItem::PKCS8Key(vec![1]))), None);
    assert_eq!(certificate_item(None), None);
    assert_eq!(private_key_item(Some(PemItem::PKCS8Key(vec![2]))), Some(vec![2]));
    assert_eq!(private_key_item(Some(PemItem::RSAKey(vec![2]))), None);
    assert_eq!(private_key_item(Some(PemItem::Unknown)), None);
}

#[test]
fn the_files_of_a_host_are_read() {
    let cert = host_certificate("c.pem".to_string(), Ok(pem("CERTIFICATE", &[7, 7])));
    assert_eq!(cert.unwrap(), vec![7, 7]);
    let key = host_private_key("k.pem".to_string(), Ok(pem("PRIVATE KEY", &[6])));
    assert_eq!(key.unwrap(), vec![6]);
    let err = host_certificate("c.pem".to_string(), Err(io_error())).unwrap_err();
    assert!(matches!(&err, HostError::ReadFile { file, .. } if file == "c.pem"));
    assert_eq!(err.message(), "Error while reading from file c.pem.");
    let err = host_private_key("k.pem".to_string(), Ok(b"-----BEGIN X\n".to_vec())).unwrap_err();
    assert!(matches!(&err, HostError::ReadFile { file, .. } if file == "k.pem"));
    let err = host_private_key("k.pem".to_string(), Ok(vec![])).unwrap_err();
    assert!(matches!(err, HostError::Tls(Error::WrongItem)));
}

#[test]
fn a_host_is_configured_with_its_key() {
    assert!(host_tls_config(certificate(&[]), private_key()).is_ok());
    // the certificate is not looked into
    assert!(host_tls_config(vec![1, 2, 3], private_key()).is_ok());
    assert!(matches!(
        host_tls_config(certificate(&[]), vec![1, 2, 3]),
        Err(HostError::Tls(Error::RustTls(_)))
    ));
}

#[test]
fn the_outcome_of_a_configuration_is_passed_on() {
    let config = host_tls_config(certificate(&[]), private_key()).unwrap();
    assert!(built_config(Ok(config)).is_ok());
    let err = tokio_rustls::rustls::Error::General("no key".to_string());
    assert!(matches!(
        built_config(Err(err)),
        Err(HostError::Tls(Error::RustTls(tokio_rustls::rustls::Error::General(text))))
            if text == "no key"
    ));
}

#[test]
fn an_acceptor_looks_at_the_certificate_first() {
    let (c, k) = ("c".to_string(), "k".to_string());
    let cert = pem("CERTIFICATE", &certificate(&[]));
    let key = pem("PRIVATE KEY", &private_key());
    assert!(acceptor(c.clone(), Ok(cert.clone()), k.clone(), Ok(key.clone())).is_ok());
    assert!(matches!(
        acceptor(c.clone(), Err(io_error()), k.clone(), Err(io_error())),
        Err(HostError::ReadFile { file, .. }) if file == "c"
    ));
    assert!(matches!(
        acceptor(c.clone(), Ok(key.clone()), k.clone(), Err(io_error())),
        Err(HostError::Tls(Error::WrongItem))
    ));
    assert!(matches!(
        acceptor(c.clone(), Ok(cert.clone()), k.clone(), Err(io_error())),
        Err(HostError::ReadFile { file, .. }) if file == "k"
    ));
    assert!(matches!(
        acceptor(c.clone(), Ok(cert.clone()), k.clone(), Ok(cert.clone())),
        Err(HostError::Tls(Error::WrongItem))
    ));
    assert!(matches!(
        acceptor(c, Ok(cert), k, Ok(pem("PRIVATE KEY", &[0]))),
        Err(HostError::Tls(Error::RustTls(_)))
    ));
}

#[test]
fn every_certificate_of_a_file_is_trusted() {
    let items = vec![
        PemItem::X509Certificate(certificate(&[0x31, 0])),
        PemItem::X509Certificate(certificate(&[])),
    ];
    let store = root_certificates(items).unwrap();
    assert_eq!(store.roots.len(), 2);
    let subject = store.roots[0].subject().as_ref().to_vec();
    assert!(subject.ends_with(&[0x31, 0]));
    assert!(root_certificates(vec![]).unwrap().roots.is_empty());
}

#[test]
fn the_first_fault_of_a_file_is_reported() {
    let good = PemItem::X509Certificate(certificate(&[]));
    let bad = PemItem::X509Certificate(vec![1]);
    let key = PemItem::PKCS8Key(private_key());
    assert!(matches!(
        root_certificates(vec![good.clone(), bad.clone(), key.clone()]),
        Err(DeviceError::Tls(Error::RootCert(_)))
    ));
    assert!(matches!(
        root_certificates(vec![key, bad, good]),
        Err(DeviceError::Tls(Error::WrongItem))
    ));
}

#[test]
fn a_device_is_configured() {
    assert!(device_tls_config(None).is_ok());
    let mut file = pem("CERTIFICATE", &certificate(&[]));
    assert!(device_tls_config(Some(Ok(file.clone()))).is_ok());
    assert!(matches!(
        device_tls_config(Some(Err(io_error()))),
        Err(DeviceError::Tls(Error::ReadFile(_)))
    ));
    assert!(matches!(
        device_tls_config(Some(Ok(pem("CERTIFICATE", &[1, 2])))),
        Err(DeviceError::Tls(Error::RootCert(_)))
    ));
    assert!(matches!(
        device_tls_config(Some(Ok(pem("PRIVATE KEY", &private_key())))),
        Err(DeviceError::Tls(Error::WrongItem))
    ));
    file.extend_from_slice(b"-----BEGIN CERTIFICATE-----\n");
    assert!(matches!(
        device_tls_config(Some(Ok(file))),
        Err(DeviceError::Tls(Error::ReadFile(_)))
    ));
}

#[test]
fn tls_is_accepted_on_top_of_tcp() {
    let mut accept = TlsAccept::new();
    let action = accept.poll(TlsAcceptEvent::Tcp(Poll::Pending));
    assert!(matches!(action, TlsAcceptAction::Yield(Poll::Pending)));
    let action = accept.poll(TlsAcceptEvent::Tls(Poll::Ready(Ok(()))));
    assert!(matches!(action, TlsAcceptAction::Ignore));
    let action = accept.poll(TlsAcceptEvent::Tcp(Poll::Ready(Ok(()))));
    assert!(matches!(action, TlsAcceptAction::StartTls));
    let action = accept.poll(TlsAcceptEvent::Tls(Poll::Pending));
    assert!(matches!(action, TlsAcceptAction::Yield(Poll::Pending)));
    let err = IoError { kind: IoErrorKind::Other, detail: "alert".to_string() };
    let action = accept.poll(TlsAcceptEvent::Tls(Poll::Ready(Err(err))));
    assert!(matches!(
        action,
        TlsAcceptAction::Yield(Poll::Ready(Err(HostError::Tls(Error::AcceptTls(_)))))
    ));
    let action = accept.poll(TlsAcceptEvent::Tls(Poll::Ready(Ok(()))));
    assert!(matches!(action, TlsAcceptAction::Yield(Poll::Ready(Ok(())))));
}

#[test]
fn a_failed_tcp_accept_is_passed_on() {
    let mut accept = TlsAccept::new();
    let err = HostError::UnexpectedEof;
    let action = accept.poll(TlsAcceptEvent::Tcp(Poll::Ready(Err(err))));
    assert!(matches!(
        action,
        TlsAcceptAction::Yield(Poll::Ready(Err(HostError::UnexpectedEof)))
    ));
    assert_eq!(accept, TlsAccept::Tcp);
}

#[test]
fn the_tls_layer_clones_its_acceptor() {
    let layer = TlsLayer::new("acceptor".to_string());
    let service = layer.layer(5u8);
    assert_eq!(service.service, 5);
    assert_eq!(service.acceptor, "acceptor");
}

#[test]
fn tls_errors_have_their_texts() {
    assert_eq!(Error::WrongItem.message(), "Wrong item.");
    assert_eq!(Error::ReadFile(io_error()).message(), "Error while reading from file.");
}
