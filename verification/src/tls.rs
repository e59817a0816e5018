//! TLS material: reading certificate chains and private keys out of PEM
//! text, and choosing the certificate for a server name.

use crate::assoc::{as_map, find_last, lemma_as_map_push, named};
use crate::text::lower;
use rustls::sign::{any_supported_type, SignError};
use rustls::PrivateKey;
use rustls_pemfile::Item;
use vstd::prelude::*;

verus! {

/// One recognised section of a PEM file, with its DER content.
#[derive(Debug, PartialEq, Eq)]
pub enum PemItem {
    /// `CERTIFICATE`
    X509Certificate(Vec<u8>),
    /// `RSA PRIVATE KEY` (PKCS#1)
    RsaKey(Vec<u8>),
    /// `PRIVATE KEY` (PKCS#8)
    Pkcs8Key(Vec<u8>),
    /// `EC PRIVATE KEY` (SEC1)
    EcKey(Vec<u8>),
    /// `X509 CRL`
    Crl(Vec<u8>),
    /// A section of a kind that this library has no name for.
    Other,
}

/// The mathematical content of a [`PemItem`].
pub enum PemItemView {
    X509Certificate(Seq<u8>),
    RsaKey(Seq<u8>),
    Pkcs8Key(Seq<u8>),
    EcKey(Seq<u8>),
    Crl(Seq<u8>),
    Other,
}

impl View for PemItem {
    type V = PemItemView;

    open spec fn view(&self) -> PemItemView {
        match self {
            PemItem::X509Certificate(d) => PemItemView::X509Certificate(d@),
            PemItem::RsaKey(d) => PemItemView::RsaKey(d@),
            PemItem::Pkcs8Key(d) => PemItemView::Pkcs8Key(d@),
            PemItem::EcKey(d) => PemItemView::EcKey(d@),
            PemItem::Crl(d) => PemItemView::Crl(d@),
            PemItem::Other => PemItemView::Other,
        }
    }
}

/// What reading one section off the front of PEM text gives.
pub enum PemRead {
    /// The text is malformed.
    Malformed,
    /// No section is left.
    End,
    /// The next recognised section.
    Section(PemItemView),
}

/// An I/O error of std, as the PEM reader reports malformed text.
#[verifier::external_type_specification]
#[verifier::external_body]
pub struct ExIoError(std::io::Error);

/// The error with which `rustls` refuses a private key.
#[verifier::external_type_specification]
#[verifier::external_body]
pub struct ExSignError(SignError);

/// What `rustls_pemfile::read_one` reads off the front of `pem`, and the
/// text that it leaves unread.
pub uninterp spec fn pem_first_section(pem: Seq<u8>) -> (PemRead, Seq<u8>);

/// The DER contents of all `CERTIFICATE` sections of `pem`, in order:
/// sections are read off one after the other to the end of the text, and
/// those of other kinds are passed over. `None` where the text is malformed
/// at any place.
pub open spec fn pem_certificates(pem: Seq<u8>) -> Option<Seq<Seq<u8>>>
    decreases pem.len(),
{
    let (read, rest) = pem_first_section(pem);
    match read {
        PemRead::Malformed => None,
        PemRead::End => Some(Seq::empty()),
        PemRead::Section(item) => if rest.len() < pem.len() {
            match (item, pem_certificates(rest)) {
                (_, None) => None,
                (PemItemView::X509Certificate(der), Some(more)) => Some(seq![der] + more),
                (_, Some(more)) => Some(more),
            }
        } else {
            None
        },
    }
}

/// The content of a list of DER blocks.
pub open spec fn blocks_of(v: Seq<Vec<u8>>) -> Seq<Seq<u8>> {
    Seq::new(v.len(), |i: int| v[i]@)
}

/// `rustls_pemfile::certs` on PEM text held in memory: it reads sections
/// with `read_one` to the end of the text and hands out the DER contents of
/// the certificate sections, or the reader's error on malformed text.
#[verifier::external_body]
fn pem_certs(pem: &[u8]) -> (r: Result<Vec<Vec<u8>>, std::io::Error>)
    ensures
        match r {
            Ok(certs) => pem_certificates(pem@) == Some(blocks_of(certs@)),
            Err(_) => pem_certificates(pem@) is None,
        },
{
    let mut reader = pem;
    rustls_pemfile::certs(&mut reader)
}

/// `rustls_pemfile::read_one` on PEM text held in memory: the next
/// recognised section with the text left behind it, `None` at the end of
/// the text, or the reader's error on malformed text. The outcome is taken
/// to be a function of the text alone. The reader only moves forward, and
/// it has read at least the section's first line when it returns one.
#[verifier::external_body]
fn pem_read_one<'a>(pem: &'a [u8]) -> (r: (Result<Option<PemItem>, std::io::Error>, &'a [u8]))
    ensures
        r.1@ == pem_first_section(pem@).1,
        r.1@.len() <= pem@.len(),
        match r.0 {
            Ok(Some(item)) => pem_first_section(pem@).0 == PemRead::Section(item@) && r.1@.len()
                < pem@.len(),
            Ok(None) => pem_first_section(pem@).0 == PemRead::End,
            Err(_) => pem_first_section(pem@).0 == PemRead::Malformed,
        },
{
    let mut reader = pem;
    let item = rustls_pemfile::read_one(&mut reader).map(|section| section.map(|item| match item {
        Item::X509Certificate(der) => PemItem::X509Certificate(der),
        Item::RSAKey(der) => PemItem::RsaKey(der),
        Item::PKCS8Key(der) => PemItem::Pkcs8Key(der),
        Item::ECKey(der) => PemItem::EcKey(der),
        Item::Crl(der) => PemItem::Crl(der),
        _ => PemItem::Other,
    }));
    (item, reader)
}

/// `rustls::sign::any_supported_type` on a DER private key: whether some
/// supported key type takes it. Nothing is promised of the outcome: for
/// some key types it also depends on the system's random number generator.
#[verifier::external_body]
fn check_private_key(der: &[u8]) -> (r: Result<(), SignError>) {
    any_supported_type(&PrivateKey(der.to_vec())).map(|_| ())
}

/// Why TLS material could not be loaded.
#[derive(Clone, Copy, Debug, PartialEq, Eq, Structural)]
pub enum TlsError {
    /// The certificate file is not well-formed PEM.
    MalformedCertificatePem,
    /// The certificate file holds no certificate.
    EmptyCertificateChain,
    /// The key file is not well-formed PEM.
    MalformedKeyPem,
    /// The key file holds no private key of a recognised kind.
    NoPrivateKeyFound,
    /// No supported key type takes the private key.
    UnsupportedPrivateKey,
}

impl TlsError {
    /// The diagnostic shown for this error.
    pub fn message(&self) -> (r: &'static str)
        ensures
            r@ == match *self {
                TlsError::MalformedCertificatePem => "Malformed certificate file"@,
                TlsError::EmptyCertificateChain => "Empty certificate chain"@,
                TlsError::MalformedKeyPem => "Malformed private key file"@,
                TlsError::NoPrivateKeyFound => "No private key found"@,
                TlsError::UnsupportedPrivateKey => "Unsupported private key type"@,
            },
    {
        match self {
            TlsError::MalformedCertificatePem => "Malformed certificate file",
            TlsError::EmptyCertificateChain => "Empty certificate chain",
            TlsError::MalformedKeyPem => "Malformed private key file",
            TlsError::NoPrivateKeyFound => "No private key found",
            TlsError::UnsupportedPrivateKey => "Unsupported private key type",
        }
    }
}

/// The certificate chain of a certificate file: its certificates in file
/// order, leaf first. A file without a certificate is refused.
pub open spec fn cert_chain_of(pem: Seq<u8>) -> Result<Seq<Seq<u8>>, TlsError> {
    match pem_certificates(pem) {
        None => Err(TlsError::MalformedCertificatePem),
        Some(certs) => if certs.len() == 0 {
            Err(TlsError::EmptyCertificateChain)
        } else {
            Ok(certs)
        },
    }
}

/// The private key of a key file: the content of the first section that is
/// a PKCS#8, PKCS#1 RSA or SEC1 EC key. Sections of other kinds in front of
/// it are passed over; what follows it is not read.
pub open spec fn private_key_of(pem: Seq<u8>) -> Result<Seq<u8>, TlsError>
    decreases pem.len(),
{
    let (read, rest) = pem_first_section(pem);
    match read {
        PemRead::Malformed => Err(TlsError::MalformedKeyPem),
        PemRead::End => Err(TlsError::NoPrivateKeyFound),
        PemRead::Section(PemItemView::Pkcs8Key(der)) => Ok(der),
        PemRead::Section(PemItemView::RsaKey(der)) => Ok(der),
        PemRead::Section(PemItemView::EcKey(der)) => Ok(der),
        PemRead::Section(_) => if rest.len() < pem.len() {
            private_key_of(rest)
        } else {
            Err(TlsError::NoPrivateKeyFound)
        },
    }
}

/// The view of a loaded chain or key.
pub open spec fn chain_result(r: Result<Vec<Vec<u8>>, TlsError>) -> Result<Seq<Seq<u8>>, TlsError> {
    match r {
        Ok(c) => Ok(blocks_of(c@)),
        Err(e) => Err(e),
    }
}

/// The view of a loaded key.
pub open spec fn key_result(r: Result<Vec<u8>, TlsError>) -> Result<Seq<u8>, TlsError> {
    match r {
        Ok(k) => Ok(k@),
        Err(e) => Err(e),
    }
}

/// Reads the certificate chain out of the text of a certificate file.
pub fn load_cert_chain(pem: &[u8]) -> (r: Result<Vec<Vec<u8>>, TlsError>)
    ensures
        chain_result(r) == cert_chain_of(pem@),
{
    match pem_certs(pem) {
        Err(_) => Err(TlsError::MalformedCertificatePem),
        Ok(certs) => {
            if certs.len() == 0 {
                Err(TlsError::EmptyCertificateChain)
            } else {
                Ok(certs)
            }
        },
    }
}

/// Reads the private key out of the text of a key file.
pub fn load_private_key(pem: &[u8]) -> (r: Result<Vec<u8>, TlsError>)
    ensures
        key_result(r) == private_key_of(pem@),
{
    let mut rest: &[u8] = pem;
    loop
        invariant
            private_key_of(pem@) == private_key_of(rest@),
        decreases rest@.len(),
    {
        let (item, next) = pem_read_one(rest);
        match item {
            Err(_) => {
                return Err(TlsError::MalformedKeyPem);
            },
            Ok(None) => {
                return Err(TlsError::NoPrivateKeyFound);
            },
            Ok(Some(PemItem::Pkcs8Key(der))) => {
                return Ok(der);
            },
            Ok(Some(PemItem::RsaKey(der))) => {
                return Ok(der);
            },
            Ok(Some(PemItem::EcKey(der))) => {
                return Ok(der);
            },
            Ok(Some(_)) => {
                rest = next;
            },
        }
    }
}

/// A certificate chain with the private key that belongs to it, both as
/// DER: what a TLS acceptor is given to present a certificate.
#[derive(Debug, PartialEq, Eq)]
pub struct CertifiedMaterial {
    /// The certificates, leaf first.
    pub chain: Vec<Vec<u8>>,
    /// The private key.
    pub key: Vec<u8>,
}

/// Puts a chain and a key together, given the outcome of the check of the
/// key: a key that was refused makes `UnsupportedPrivateKey`.
pub fn certified_from<E>(chain: Vec<Vec<u8>>, key: Vec<u8>, checked: Result<(), E>) -> (r: Result<
    CertifiedMaterial,
    TlsError,
>)
    ensures
        match r {
            Ok(m) => checked is Ok && m.chain == chain && m.key == key,
            Err(e) => checked is Err && e == TlsError::UnsupportedPrivateKey,
        },
{
    match checked {
        Ok(()) => Ok(CertifiedMaterial { chain, key }),
        Err(_) => Err(TlsError::UnsupportedPrivateKey),
    }
}

/// Checks that a supported key type takes `key` and puts it together with
/// `chain`. Whether the key is taken is for `rustls` to say: the result is
/// either the two as given or `UnsupportedPrivateKey`.
pub fn certify(chain: Vec<Vec<u8>>, key: Vec<u8>) -> (r: Result<CertifiedMaterial, TlsError>)
    ensures
        match r {
            Ok(m) => m.chain == chain && m.key == key,
            Err(e) => e == TlsError::UnsupportedPrivateKey,
        },
{
    let checked = check_private_key(key.as_slice());
    certified_from(chain, key, checked)
}

/// Loads a certificate with its key from the texts of the two files. The
/// chain is read first, then the key; the first failure is the error.
/// Where both are read, the result is theirs, or `UnsupportedPrivateKey`
/// where `rustls` refuses the key.
pub fn load_certified_key(cert_pem: &[u8], key_pem: &[u8]) -> (r: Result<
    CertifiedMaterial,
    TlsError,
>)
    ensures
        match (cert_chain_of(cert_pem@), private_key_of(key_pem@)) {
            (Err(e), _) => r == Err::<CertifiedMaterial, TlsError>(e),
            (Ok(_), Err(e)) => r == Err::<CertifiedMaterial, TlsError>(e),
            (Ok(chain), Ok(key)) => match r {
                Ok(m) => blocks_of(m.chain@) == chain && m.key@ == key,
                Err(e) => e == TlsError::UnsupportedPrivateKey,
            },
        },
{
    let chain = match load_cert_chain(cert_pem) {
        Ok(chain) => chain,
        Err(e) => {
            return Err(e);
        },
    };
    let key = match load_private_key(key_pem) {
        Ok(key) => key,
        Err(e) => {
            return Err(e);
        },
    };
    certify(chain, key)
}

/// The state of a resolver as mathematics: the certificate of each host
/// name that has one of its own, and the default certificate.
pub struct ResolverView<K> {
    pub host_map: Map<Seq<char>, K>,
    pub default_key: K,
}

impl<K> ResolverView<K> {
    /// The certificate for a client that asks for `server_name`: that of
    /// the name in lower case if it has one of its own, else the default.
    /// Names match exactly or not at all.
    pub open spec fn resolve(self, server_name: Option<Seq<char>>) -> K {
        match server_name {
            Some(name) => if self.host_map.contains_key(lower(name)) {
                self.host_map[lower(name)]
            } else {
                self.default_key
            },
            None => self.default_key,
        }
    }
}

/// Chooses the certificate to present for a server name. `K` is whatever
/// stands for a certificate with its key.
#[derive(Debug)]
pub struct HostCertResolver<K> {
    own_default: Option<K>,
    promoted: usize,
    hosts: Vec<(String, K)>,
}

impl<K> View for HostCertResolver<K> {
    type V = ResolverView<K>;

    closed spec fn view(&self) -> ResolverView<K> {
        ResolverView {
            host_map: as_map(named(self.hosts@)),
            default_key: match self.own_default {
                Some(k) => k,
                None => self.hosts@[self.promoted as int].1,
            },
        }
    }
}

/// The hosts whose certificate was loaded, each under its name in lower case.
pub open spec fn loaded_hosts<K>(hosts: Seq<(Seq<char>, Option<K>)>) -> Seq<(Seq<char>, K)>
    decreases hosts.len(),
{
    if hosts.len() == 0 {
        Seq::empty()
    } else {
        match hosts.last().1 {
            Some(k) => loaded_hosts(hosts.drop_last()).push((lower(hosts.last().0), k)),
            None => loaded_hosts(hosts.drop_last()),
        }
    }
}

/// Each host whose certificate was loaded puts it under its name in lower
/// case, in place of what an earlier host put there; a host without a
/// loaded certificate changes nothing.
pub proof fn lemma_loaded_hosts_push<K>(
    hosts: Seq<(Seq<char>, Option<K>)>,
    name: Seq<char>,
    cert: Option<K>,
)
    ensures
        as_map(loaded_hosts(hosts.push((name, cert)))) == match cert {
            Some(k) => as_map(loaded_hosts(hosts)).insert(lower(name), k),
            None => as_map(loaded_hosts(hosts)),
        },
{
    let longer = hosts.push((name, cert));
    assert(longer.drop_last() =~= hosts);
    match cert {
        Some(k) => {
            lemma_as_map_push(loaded_hosts(hosts), lower(name), k);
        },
        None => {},
    }
}

/// The mathematical content of the hosts handed to `build`.
pub open spec fn offered<K>(v: Seq<(String, Option<K>)>) -> Seq<(Seq<char>, Option<K>)> {
    Seq::new(v.len(), |i: int| (v[i].0@, v[i].1))
}

impl<K> HostCertResolver<K> {
    /// Holds of every resolver: it has a default of its own, or one of its
    /// hosts' certificates stands in for it.
    #[verifier::type_invariant]
    pub open spec fn inv(&self) -> bool {
        self.has_default()
    }

    /// Whether the default certificate is there.
    pub closed spec fn has_default(&self) -> bool {
        self.own_default is None ==> self.promoted < self.hosts@.len()
    }

    /// A resolver with a default certificate and the certificates of the
    /// hosts that have one of their own. A name given twice counts as
    /// given last.
    pub fn new(default_cert: K, host_map: Vec<(String, K)>) -> (r: Self)
        ensures
            r@.default_key == default_cert,
            r@.host_map == as_map(named(host_map@)),
    {
        HostCertResolver { own_default: Some(default_cert), promoted: 0, hosts: host_map }
    }

    /// Builds the resolver from what could be loaded. `default_cert` is the
    /// default certificate or the error of loading it; each host comes with
    /// its certificate, or `None` where loading failed: such a host has no
    /// certificate of its own. Where the default failed, the certificate of
    /// the first host that has one stands in for it; where no host has one
    /// either, the build fails with the default's error.
    pub fn build<E>(default_cert: Result<K, E>, hosts: Vec<(String, Option<K>)>) -> (r: Result<
        Self,
        E,
    >)
        ensures
            match r {
                Ok(resolver) => {
                    &&& resolver@.host_map == as_map(loaded_hosts(offered(hosts@)))
                    &&& match default_cert {
                        Ok(k) => resolver@.default_key == k,
                        Err(_) => loaded_hosts(offered(hosts@)).len() > 0 && resolver@.default_key
                            == loaded_hosts(offered(hosts@))[0].1,
                    }
                },
                Err(e) => default_cert == Err::<K, E>(e) && loaded_hosts(offered(hosts@)).len()
                    == 0,
            },
    {
        let ghost given = hosts@;
        let ghost all = offered(given);
        let mut loaded: Vec<(String, K)> = Vec::new();
        for entry in it: hosts.into_iter()
            invariant
                it.seq() == given,
                all == offered(given),
                named(loaded@) == loaded_hosts(all.take(it.index() as int)),
        {
            let ghost upto = all.take(it.index() as int + 1);
            assert(upto.drop_last() =~= all.take(it.index() as int));
            let (name, cert) = entry;
            match cert {
                Some(k) => {
                    let key = name.as_str().to_ascii_lowercase();
                    loaded.push((key, k));
                },
                None => {},
            }
        }
        assert(all.take(given.len() as int) =~= all);
        match default_cert {
            Ok(k) => Ok(HostCertResolver { own_default: Some(k), promoted: 0, hosts: loaded }),
            Err(e) => {
                if loaded.len() > 0 {
                    Ok(HostCertResolver { own_default: None, promoted: 0, hosts: loaded })
                } else {
                    Err(e)
                }
            },
        }
    }

    /// The certificate to present to a client that asks for `server_name`
    /// (`None`: the client named no server).
    pub fn resolve(&self, server_name: Option<&str>) -> (r: &K)
        ensures
            *r == self@.resolve(
                match server_name {
                    Some(n) => Some(n@),
                    None => None,
                },
            ),
    {
        proof {
            use_type_invariant(self);
        }
        match server_name {
            Some(name) => {
                let wanted = name.to_ascii_lowercase();
                match find_last(&self.hosts, wanted.as_str()) {
                    Some(i) => &self.hosts[i].1,
                    None => self.default_key(),
                }
            },
            None => self.default_key(),
        }
    }

    /// The default certificate.
    pub fn default_key(&self) -> (r: &K)
        ensures
            *r == self@.default_key,
    {
        proof {
            use_type_invariant(self);
        }
        match &self.own_default {
            Some(k) => k,
            None => &self.hosts[self.promoted].1,
        }
    }
}

} // verus!
