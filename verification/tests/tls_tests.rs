use base64::Engine;
use host_proxy::tls::{
    certified_from, certify, load_cert_chain, load_certified_key, load_private_key,
    CertifiedMaterial, HostCertResolver, TlsError,
};

const TWO_CERTS: &str = "-----BEGIN CERTIFICATE-----\nAQID\n-----END CERTIFICATE-----\n\
-----BEGIN CERTIFICATE-----\nBAUG\nBwg=\n-----END CERTIFICATE-----\n";

const ED25519_DER: [u8; 48] = [
    0x30, 0x2e, 0x02, 0x01, 0x00, 0x30, 0x05, 0x06, 0x03, 0x2b, 0x65, 0x70, 0x04, 0x22, 0x04, 0x20,
    0xd4, 0xee, 0x72, 0xdb, 0xf9, 0x13, 0x58, 0x4a, 0xd5, 0xb6, 0xd8, 0xf1, 0xf7, 0x69, 0xf8, 0xad,
    0x3a, 0xfe, 0x7c, 0x28, 0xcb, 0xf1, 0xd4, 0xfb, 0xe0, 0x97, 0xa8, 0x8f, 0x44, 0x75, 0x58, 0x42,
];

/// The first line of a section of the given kind.
fn begin(kind: &str) -> String {
    format!("-----BEGIN {}-----\n", kind)
}

/// A whole section of the given kind around a base64 body.
fn section(kind: &str, body: &str) -> String {
    format!("{}{}\n-----END {}-----\n", begin(kind), body, kind)
}

const PKCS8: &str = "PRIVATE KEY";
const PKCS1: &str = "RSA PRIVATE KEY";
const SEC1: &str = "EC PRIVATE KEY";

/// The key file of the Ed25519 test key, written out from its DER bytes.
fn ed25519_key_file() -> String {
    section(PKCS8, &base64::engine::general_purpose::STANDARD.encode(ED25519_DER))
}

#[test]
fn cert_chain_is_read_in_file_order() {
    assert_eq!(
        load_cert_chain(TWO_CERTS.as_bytes()),
        Ok(vec![vec![1u8, 2, 3], vec![4u8, 5, 6, 7, 8]])
    );
}

#[test]
fn cert_chain_passes_over_other_sections() {
    let pem = format!("{}{}junk\n", ed25519_key_file(), TWO_CERTS);
    assert_eq!(
        load_cert_chain(pem.as_bytes()),
        Ok(vec![vec![1u8, 2, 3], vec![4u8, 5, 6, 7, 8]])
    );
}

#[test]
fn empty_cert_chain_is_refused() {
    assert_eq!(load_cert_chain(b""), Err(TlsError::EmptyCertificateChain));
    assert_eq!(load_cert_chain(b"no pem here\n"), Err(TlsError::EmptyCertificateChain));
    assert_eq!(load_cert_chain(ed25519_key_file().as_bytes()), Err(TlsError::EmptyCertificateChain));
}

#[test]
fn malformed_cert_pem_is_refused() {
    assert_eq!(
        load_cert_chain(b"-----BEGIN CERTIFICATE-----\n!!!!\n-----END CERTIFICATE-----\n"),
        Err(TlsError::MalformedCertificatePem)
    );
    assert_eq!(
        load_cert_chain(b"-----BEGIN CERTIFICATE-----\nAQID\n"),
        Err(TlsError::MalformedCertificatePem)
    );
}

#[test]
fn first_private_key_of_any_kind_wins() {
    let pkcs8 = section(PKCS8, "AQID");
    assert_eq!(load_private_key(pkcs8.as_bytes()), Ok(vec![1u8, 2, 3]));
    let rsa_first = format!(
        "{}{}{}",
        section("CERTIFICATE", "CQk="),
        section(PKCS1, "BAUG"),
        section(PKCS8, "AQID")
    );
    assert_eq!(load_private_key(rsa_first.as_bytes()), Ok(vec![4u8, 5, 6]));
    let ec = format!("{}{}", section("X509 CRL", "CQk="), section(SEC1, "BwgJ"));
    assert_eq!(load_private_key(ec.as_bytes()), Ok(vec![7u8, 8, 9]));
}

#[test]
fn what_follows_the_key_is_not_read() {
    let pem = format!("{}{}", section(PKCS8, "AQID"), section("CERTIFICATE", "!!!!"));
    assert_eq!(load_private_key(pem.as_bytes()), Ok(vec![1u8, 2, 3]));
}

#[test]
fn key_file_without_key_is_refused() {
    assert_eq!(load_private_key(b""), Err(TlsError::NoPrivateKeyFound));
    assert_eq!(load_private_key(TWO_CERTS.as_bytes()), Err(TlsError::NoPrivateKeyFound));
}

#[test]
fn malformed_key_pem_is_refused() {
    let bad_first = format!("{}{}", section("CERTIFICATE", "!!!!"), section(PKCS8, "AQID"));
    assert_eq!(load_private_key(bad_first.as_bytes()), Err(TlsError::MalformedKeyPem));
    let no_end = format!("{}AQID\n", begin(PKCS8));
    assert_eq!(load_private_key(no_end.as_bytes()), Err(TlsError::MalformedKeyPem));
}

#[test]
fn real_key_is_read_as_der() {
    assert_eq!(load_private_key(ed25519_key_file().as_bytes()), Ok(ED25519_DER.to_vec()));
}

#[test]
fn supported_key_is_certified() {
    let chain = vec![vec![1u8, 2, 3]];
    assert_eq!(
        certify(chain.clone(), ED25519_DER.to_vec()),
        Ok(CertifiedMaterial { chain, key: ED25519_DER.to_vec() })
    );
}

#[test]
fn unsupported_key_is_refused() {
    assert_eq!(certify(vec![vec![1u8]], vec![1u8, 2, 3]), Err(TlsError::UnsupportedPrivateKey));
    assert_eq!(certify(vec![vec![1u8]], Vec::new()), Err(TlsError::UnsupportedPrivateKey));
}

#[test]
fn certified_from_follows_the_check() {
    let ok: Result<(), &str> = Ok(());
    assert_eq!(
        certified_from(vec![vec![9u8]], vec![8u8], ok),
        Ok(CertifiedMaterial { chain: vec![vec![9u8]], key: vec![8u8] })
    );
    let refused: Result<(), &str> = Err("no");
    assert_eq!(
        certified_from(vec![vec![9u8]], vec![8u8], refused),
        Err(TlsError::UnsupportedPrivateKey)
    );
}

#[test]
fn certified_key_loads_from_both_files() {
    assert_eq!(
        load_certified_key(TWO_CERTS.as_bytes(), ed25519_key_file().as_bytes()),
        Ok(CertifiedMaterial {
            chain: vec![vec![1u8, 2, 3], vec![4u8, 5, 6, 7, 8]],
            key: ED25519_DER.to_vec(),
        })
    );
}

#[test]
fn certified_key_reports_the_first_failure() {
    let bad_key = section(PKCS8, "AQID");
    assert_eq!(
        load_certified_key(b"", b""),
        Err(TlsError::EmptyCertificateChain)
    );
    assert_eq!(
        load_certified_key(b"-----BEGIN CERTIFICATE-----\n!\n", ed25519_key_file().as_bytes()),
        Err(TlsError::MalformedCertificatePem)
    );
    assert_eq!(
        load_certified_key(TWO_CERTS.as_bytes(), b""),
        Err(TlsError::NoPrivateKeyFound)
    );
    assert_eq!(
        load_certified_key(TWO_CERTS.as_bytes(), begin(PKCS8).as_bytes()),
        Err(TlsError::MalformedKeyPem)
    );
    assert_eq!(
        load_certified_key(TWO_CERTS.as_bytes(), bad_key.as_bytes()),
        Err(TlsError::UnsupportedPrivateKey)
    );
}

#[test]
fn tls_error_messages() {
    assert_eq!(TlsError::EmptyCertificateChain.message(), "Empty certificate chain");
    assert_eq!(TlsError::NoPrivateKeyFound.message(), "No private key found");
    assert_eq!(TlsError::UnsupportedPrivateKey.message(), "Unsupported private key type");
    assert_eq!(TlsError::MalformedCertificatePem.message(), "Malformed certificate file");
    assert_eq!(TlsError::MalformedKeyPem.message(), "Malformed private key file");
}

#[test]
fn sni_dispatch() {
    let r = HostCertResolver::new(
        "default",
        vec![("a.local".to_string(), "cert-a"), ("b.local".to_string(), "cert-b")],
    );
    assert_eq!(*r.resolve(Some("b.local")), "cert-b");
    assert_eq!(*r.resolve(Some("a.local")), "cert-a");
    assert_eq!(*r.resolve(Some("c.local")), "default");
    assert_eq!(*r.resolve(None), "default");
    assert_eq!(*r.default_key(), "default");
}

#[test]
fn resolver_lowers_the_server_name_and_matches_exactly() {
    let r = HostCertResolver::new(
        0u8,
        vec![("a.local".to_string(), 1u8), ("Upper.local".to_string(), 2u8)],
    );
    assert_eq!(*r.resolve(Some("A.LOCAL")), 1);
    assert_eq!(*r.resolve(Some("upper.local")), 0);
    assert_eq!(*r.resolve(Some("Upper.local")), 0);
    assert_eq!(*r.resolve(Some("x.a.local")), 0);
    assert_eq!(*r.resolve(Some("")), 0);
}

#[test]
fn resolver_takes_the_last_of_a_repeated_name() {
    let r = HostCertResolver::new(
        0u8,
        vec![("a.local".to_string(), 1u8), ("a.local".to_string(), 2u8)],
    );
    assert_eq!(*r.resolve(Some("a.local")), 2);
}

#[test]
fn build_keeps_loaded_hosts_and_default() {
    let default_cert: Result<&str, TlsError> = Ok("default");
    let r = HostCertResolver::build(
        default_cert,
        vec![
            ("A.local".to_string(), Some("cert-a")),
            ("b.local".to_string(), None),
            ("c.local".to_string(), Some("cert-c")),
        ],
    )
    .unwrap();
    assert_eq!(*r.resolve(Some("a.local")), "cert-a");
    assert_eq!(*r.resolve(Some("b.local")), "default");
    assert_eq!(*r.resolve(Some("c.local")), "cert-c");
    assert_eq!(*r.resolve(None), "default");
}

#[test]
fn build_promotes_a_host_certificate_when_the_default_fails() {
    let r = HostCertResolver::build(
        Err(TlsError::EmptyCertificateChain),
        vec![
            ("a.local".to_string(), None),
            ("b.local".to_string(), Some("cert-b")),
            ("c.local".to_string(), Some("cert-c")),
        ],
    )
    .unwrap();
    assert_eq!(*r.default_key(), "cert-b");
    assert_eq!(*r.resolve(Some("z.local")), "cert-b");
    assert_eq!(*r.resolve(Some("c.local")), "cert-c");
    assert_eq!(*r.resolve(None), "cert-b");
}

#[test]
fn build_fails_when_nothing_loaded() {
    let none: Vec<(String, Option<u8>)> = vec![("a.local".to_string(), None)];
    assert_eq!(
        HostCertResolver::build(Err(TlsError::NoPrivateKeyFound), none).err(),
        Some(TlsError::NoPrivateKeyFound)
    );
    let empty: Vec<(String, Option<u8>)> = Vec::new();
    assert_eq!(
        HostCertResolver::build(Err(TlsError::MalformedKeyPem), empty).err(),
        Some(TlsError::MalformedKeyPem)
    );
}

fn certificates_by_sections(mut text: &[u8]) -> Option<Vec<Vec<u8>>> {
    let mut found = Vec::new();
    loop {
        match rustls_pemfile::read_one(&mut text) {
            Err(_) => return None,
            Ok(None) => return Some(found),
            Ok(Some(rustls_pemfile::Item::X509Certificate(der))) => found.push(der),
            Ok(Some(_)) => {}
        }
    }
}

#[test]
fn cert_chain_is_what_reading_section_by_section_gives() {
    let key_file = ed25519_key_file();
    let mixed = format!("{}junk\n{}\n{}", TWO_CERTS, key_file, TWO_CERTS);
    let broken_late = format!("{}-----BEGIN CERTIFICATE-----\n!!\n-----END CERTIFICATE-----\n", TWO_CERTS);
    let texts: Vec<&[u8]> = vec![
        b"",
        b"\n\n",
        TWO_CERTS.as_bytes(),
        key_file.as_bytes(),
        mixed.as_bytes(),
        broken_late.as_bytes(),
        b"-----BEGIN CERTIFICATE-----\nAQID\n",
        b"-----BEGIN CERTIFICATE-----\r\nAQID\r\n-----END CERTIFICATE-----\r\n",
    ];
    for text in texts {
        let expected = match certificates_by_sections(text) {
            None => Err(TlsError::MalformedCertificatePem),
            Some(certs) if certs.is_empty() => Err(TlsError::EmptyCertificateChain),
            Some(certs) => Ok(certs),
        };
        assert_eq!(load_cert_chain(text), expected);
    }
}
