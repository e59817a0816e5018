//! The configuration snapshot: its data, its defaults and its validation.

use crate::hosts::{
    clone_opt_text, lower_names, opt_text, Host, HostSeq, HostTable, HostView,
};
use crate::text::is_lower;
use vstd::prelude::*;

verus! {

/// What a reload announces to the HTTPS supervisor.
#[derive(Clone, Copy, Debug, PartialEq, Eq, Structural)]
pub enum TlsReloadSignal {
    /// A new snapshot was published.
    ConfigChanged,
    /// A watched certificate or key file changed on disk.
    TlsArtifactChanged,
}

/// The protocols an upstream may be configured with.
pub open spec fn supported_protocol(p: Seq<char>) -> bool {
    p == "http"@ || p == "https"@ || p == "ws"@ || p == "wss"@
}

/// Why a configuration is refused.
#[derive(Debug, PartialEq, Eq)]
pub enum ConfigError {
    /// A host names a protocol other than `http`, `https`, `ws` or `wss`.
    UnsupportedProtocol { protocol: String },
}

impl ConfigError {
    /// The diagnostic shown for this error.
    pub fn message(&self) -> (r: String)
        ensures
            r@ == "protocol only support 'http', 'https', 'ws', 'wss'"@,
    {
        String::from_str("protocol only support 'http', 'https', 'ws', 'wss'")
    }
}

/// Accepts exactly the four supported protocol names; any other value is
/// refused, and the error carries the value.
pub fn protocol_check(value: &str) -> (r: Result<(), ConfigError>)
    ensures
        r is Ok <==> supported_protocol(value@),
        r matches Err(e) ==> e matches ConfigError::UnsupportedProtocol { protocol }
            && protocol@ == value@,
{
    if *value == *"http" || *value == *"https" || *value == *"ws" || *value == *"wss" {
        Ok(())
    } else {
        Err(ConfigError::UnsupportedProtocol { protocol: String::from_str(value) })
    }
}

impl Host {
    /// A host is valid when its protocol is a supported one.
    pub open spec fn is_valid(&self) -> bool {
        supported_protocol(self.protocol@)
    }

    /// Checks the host's protocol.
    pub fn validate(&self) -> (r: Result<(), ConfigError>)
        ensures
            r is Ok <==> self.is_valid(),
            r matches Err(e) ==> e matches ConfigError::UnsupportedProtocol { protocol }
                && protocol@ == self.protocol@,
    {
        protocol_check(self.protocol.as_str())
    }
}

/// The HTTP port used when the configuration names none.
pub const DEFAULT_HTTP_PORT: u16 = 80;

/// The HTTPS port used when the configuration names none.
pub const DEFAULT_HTTPS_PORT: u16 = 443;

/// The certificate path used when the configuration names none.
pub const DEFAULT_CERT_PATH: &'static str = "./ssl/certificate.crt";

/// The private key path used when the configuration names none.
pub const DEFAULT_KEY_PATH: &'static str = "./ssl/private.pem";

/// A configuration snapshot. Absent settings stand for their defaults.
#[derive(Debug, PartialEq, Eq)]
pub struct Config {
    pub port: Option<u16>,
    pub ssl: Option<bool>,
    pub ssl_port: Option<u16>,
    pub ssl_key_file: Option<String>,
    pub ssl_cert_file: Option<String>,
    pub hosts: HostTable,
}

/// The mathematical content of a [`Config`].
pub struct ConfigView {
    pub port: Option<u16>,
    pub ssl: Option<bool>,
    pub ssl_port: Option<u16>,
    pub ssl_key_file: Option<Seq<char>>,
    pub ssl_cert_file: Option<Seq<char>>,
    pub hosts: HostSeq,
}

impl View for Config {
    type V = ConfigView;

    open spec fn view(&self) -> ConfigView {
        ConfigView {
            port: self.port,
            ssl: self.ssl,
            ssl_port: self.ssl_port,
            ssl_key_file: opt_text(self.ssl_key_file),
            ssl_cert_file: opt_text(self.ssl_cert_file),
            hosts: self.hosts@,
        }
    }
}

impl ConfigView {
    /// The port of the plain HTTP listener.
    pub open spec fn http_port(self) -> u16 {
        match self.port {
            Some(p) => p,
            None => DEFAULT_HTTP_PORT,
        }
    }

    /// The port of the HTTPS listener.
    pub open spec fn https_port(self) -> u16 {
        match self.ssl_port {
            Some(p) => p,
            None => DEFAULT_HTTPS_PORT,
        }
    }

    /// Whether HTTPS is switched on.
    pub open spec fn https_enabled(self) -> bool {
        match self.ssl {
            Some(b) => b,
            None => false,
        }
    }

    /// The path of the default certificate chain.
    pub open spec fn cert_path(self) -> Seq<char> {
        match self.ssl_cert_file {
            Some(p) => p,
            None => DEFAULT_CERT_PATH@,
        }
    }

    /// The path of the default private key.
    pub open spec fn key_path(self) -> Seq<char> {
        match self.ssl_key_file {
            Some(p) => p,
            None => DEFAULT_KEY_PATH@,
        }
    }
}

impl Config {
    /// The port of the plain HTTP listener: the configured one, else 80.
    pub fn resolved_http_port(&self) -> (r: u16)
        ensures
            r == self@.http_port(),
    {
        match self.port {
            Some(p) => p,
            None => DEFAULT_HTTP_PORT,
        }
    }

    /// The port of the HTTPS listener: the configured one, else 443.
    pub fn resolved_ssl_port(&self) -> (r: u16)
        ensures
            r == self@.https_port(),
    {
        match self.ssl_port {
            Some(p) => p,
            None => DEFAULT_HTTPS_PORT,
        }
    }

    /// The path of the default certificate chain: the configured one, else
    /// `./ssl/certificate.crt`.
    pub fn resolved_ssl_cert_path(&self) -> (r: String)
        ensures
            r@ == self@.cert_path(),
    {
        match &self.ssl_cert_file {
            Some(p) => p.clone(),
            None => String::from_str(DEFAULT_CERT_PATH),
        }
    }

    /// The path of the default private key: the configured one, else
    /// `./ssl/private.pem`.
    pub fn resolved_ssl_key_path(&self) -> (r: String)
        ensures
            r@ == self@.key_path(),
    {
        match &self.ssl_key_file {
            Some(p) => p.clone(),
            None => String::from_str(DEFAULT_KEY_PATH),
        }
    }

    /// Whether HTTPS is switched on; it is off unless the configuration
    /// switches it on.
    pub fn ssl_enabled(&self) -> (r: bool)
        ensures
            r == self@.https_enabled(),
    {
        match self.ssl {
            Some(b) => b,
            None => false,
        }
    }
}

/// Name, certificate path and key path of a per-host override.
pub type TlsEntry = (Seq<char>, Seq<char>, Seq<char>);

/// The override that a table entry asks for: it takes a `tls` section that
/// names both a certificate and a key.
pub open spec fn tls_entry(e: (Seq<char>, HostView)) -> Option<TlsEntry> {
    match e.1.tls {
        Some(t) => match (t.cert_file, t.key_file) {
            (Some(c), Some(k)) => Some((e.0, c, k)),
            _ => None,
        },
        None => None,
    }
}

/// The overrides of all hosts, in table order.
pub open spec fn tls_entries(hosts: HostSeq) -> Seq<TlsEntry>
    decreases hosts.len(),
{
    if hosts.len() == 0 {
        Seq::empty()
    } else {
        match tls_entry(hosts.last()) {
            Some(t) => tls_entries(hosts.drop_last()).push(t),
            None => tls_entries(hosts.drop_last()),
        }
    }
}

/// The overrides of a table with lower-case names carry lower-case names.
pub proof fn lemma_tls_entries_lower(hosts: HostSeq)
    requires
        lower_names(hosts),
    ensures
        forall|i: int|
            0 <= i < tls_entries(hosts).len() ==> is_lower((#[trigger] tls_entries(hosts)[i]).0),
    decreases hosts.len(),
{
    if hosts.len() > 0 {
        let front = hosts.drop_last();
        let before = tls_entries(front);
        assert(lower_names(front));
        lemma_tls_entries_lower(front);
        // The overrides of `hosts` are those of `front`, and that of the
        // last host if it asks for one.
        assert forall|i: int| 0 <= i < tls_entries(hosts).len() implies is_lower(
            (#[trigger] tls_entries(hosts)[i]).0,
        ) by {
            if i < before.len() {
                assert(tls_entries(hosts)[i] == before[i]);
            }
        }
    }
}

/// Certificate and key path of each override, in order.
pub open spec fn entry_paths(entries: Seq<TlsEntry>) -> Seq<Seq<char>>
    decreases entries.len(),
{
    if entries.len() == 0 {
        Seq::empty()
    } else {
        entry_paths(entries.drop_last()).push(entries.last().1).push(entries.last().2)
    }
}

/// `s` without repetitions: of equal items the first stays.
pub open spec fn dedup(s: Seq<Seq<char>>) -> Seq<Seq<char>>
    decreases s.len(),
{
    if s.len() == 0 {
        Seq::empty()
    } else if dedup(s.drop_last()).contains(s.last()) {
        dedup(s.drop_last())
    } else {
        dedup(s.drop_last()).push(s.last())
    }
}

/// `dedup` keeps exactly the items of its argument, each once.
pub proof fn lemma_dedup(s: Seq<Seq<char>>)
    ensures
        dedup(s).no_duplicates(),
        forall|p: Seq<char>| dedup(s).contains(p) <==> s.contains(p),
    decreases s.len(),
{
    if s.len() > 0 {
        let front = s.drop_last();
        let d = dedup(front);
        lemma_dedup(front);
        assert forall|p: Seq<char>| dedup(s).contains(p) <==> s.contains(p) by {
            if s.contains(p) {
                let i = choose|i: int| 0 <= i < s.len() && s[i] == p;
                if i < front.len() {
                    assert(front[i] == p);
                    assert(front.contains(p));
                    if !d.contains(s.last()) {
                        let j = choose|j: int| 0 <= j < d.len() && d[j] == p;
                        assert(d.push(s.last())[j] == p);
                    }
                } else {
                    if !d.contains(s.last()) {
                        assert(d.push(s.last())[d.len() as int] == p);
                    }
                }
            }
            if dedup(s).contains(p) {
                let j = choose|j: int| 0 <= j < dedup(s).len() && dedup(s)[j] == p;
                if j < d.len() {
                    assert(d[j] == p);
                    assert(front.contains(p));
                    let i = choose|i: int| 0 <= i < front.len() && front[i] == p;
                    assert(s[i] == p);
                } else {
                    assert(s.last() == p);
                }
            }
        }
    }
}

impl ConfigView {
    /// Every certificate and key path the snapshot refers to: the default
    /// pair first, then each override's pair.
    pub open spec fn tls_paths(self) -> Seq<Seq<char>> {
        seq![self.cert_path(), self.key_path()] + entry_paths(tls_entries(self.hosts))
    }

    /// Whether every host names a supported protocol.
    pub open spec fn is_valid(self) -> bool {
        forall|i: int|
            0 <= i < self.hosts.len() ==> supported_protocol((#[trigger] self.hosts[i]).1.protocol)
    }

    /// Whether `protocol` is what the first host with an unsupported
    /// protocol, in table order, is configured with.
    pub open spec fn first_unsupported(self, protocol: Seq<char>) -> bool {
        exists|i: int|
            0 <= i < self.hosts.len() && protocol == (#[trigger] self.hosts[i]).1.protocol
                && !supported_protocol(protocol) && forall|j: int|
                0 <= j < i ==> supported_protocol((#[trigger] self.hosts[j]).1.protocol)
    }
}

/// The views of a list of overrides.
pub open spec fn entries_of(v: Seq<(String, String, String)>) -> Seq<TlsEntry> {
    Seq::new(v.len(), |i: int| (v[i].0@, v[i].1@, v[i].2@))
}

/// The views of a list of texts.
pub open spec fn texts_of(v: Seq<String>) -> Seq<Seq<char>> {
    Seq::new(v.len(), |i: int| v[i]@)
}

fn contains_text(list: &Vec<String>, item: &String) -> (r: bool)
    ensures
        r == texts_of(list@).contains(item@),
{
    let mut i: usize = 0;
    while i < list.len()
        invariant
            i <= list@.len(),
            forall|j: int| 0 <= j < i ==> (#[trigger] texts_of(list@)[j]) != item@,
        decreases list@.len() - i,
    {
        if *list[i].as_str() == *item.as_str() {
            assert(texts_of(list@)[i as int] == item@);
            return true;
        }
        i += 1;
    }
    false
}

fn push_unique(list: &mut Vec<String>, item: String, Ghost(seen): Ghost<Seq<Seq<char>>>)
    requires
        texts_of(old(list)@) == dedup(seen),
    ensures
        texts_of(final(list)@) == dedup(seen.push(item@)),
{
    assert(seen.push(item@).drop_last() =~= seen);
    if !contains_text(list, &item) {
        list.push(item);
    }
}

impl Config {
    /// The per-host certificate overrides: for each host whose `tls` section
    /// names both files, its name with the two paths, in table order.
    pub fn host_tls_entries(&self) -> (r: Vec<(String, String, String)>)
        ensures
            entries_of(r@) == tls_entries(self@.hosts),
            forall|i: int| 0 <= i < r@.len() ==> is_lower((#[trigger] r@[i]).0@),
    {
        proof {
            use_type_invariant(&self.hosts);
            lemma_tls_entries_lower(self@.hosts);
        }
        let mut out: Vec<(String, String, String)> = Vec::new();
        let n = self.hosts.len();
        let mut i: usize = 0;
        while i < n
            invariant
                i <= n,
                n == self@.hosts.len(),
                entries_of(out@) == tls_entries(self@.hosts.take(i as int)),
            decreases n - i,
        {
            let ghost upto = self@.hosts.take(i as int + 1);
            assert(upto.drop_last() =~= self@.hosts.take(i as int));
            match self.hosts.entry(i) {
                Some((name, host)) => {
                    match &host.tls {
                        Some(tls) => {
                            match (&tls.cert_file, &tls.key_file) {
                                (Some(cert), Some(key)) => {
                                    out.push((name.clone(), cert.clone(), key.clone()));
                                },
                                _ => {},
                            }
                        },
                        None => {},
                    }
                },
                None => {},
            }
            i += 1;
        }
        assert(self@.hosts.take(n as int) =~= self@.hosts);
        assert forall|i: int| 0 <= i < out@.len() implies is_lower((#[trigger] out@[i]).0@) by {
            assert(entries_of(out@)[i].0 == out@[i].0@);
        }
        out
    }

    /// The TLS files to watch: every path of `tls_paths`, each once, in the
    /// order of first mention.
    pub fn collect_tls_file_paths(&self) -> (r: Vec<String>)
        ensures
            texts_of(r@) == dedup(self@.tls_paths()),
    {
        let mut unique: Vec<String> = Vec::new();
        let ghost mut seen: Seq<Seq<char>> = Seq::empty();
        assert(texts_of(unique@) =~= dedup(seen));
        push_unique(&mut unique, self.resolved_ssl_cert_path(), Ghost(seen));
        proof {
            seen = seen.push(self@.cert_path());
        }
        push_unique(&mut unique, self.resolved_ssl_key_path(), Ghost(seen));
        proof {
            seen = seen.push(self@.key_path());
        }
        let entries = self.host_tls_entries();
        let ghost all = entries_of(entries@);
        let mut i: usize = 0;
        while i < entries.len()
            invariant
                i <= entries@.len(),
                all == entries_of(entries@),
                texts_of(unique@) == dedup(seen),
                seen == seq![self@.cert_path(), self@.key_path()] + entry_paths(
                    all.take(i as int),
                ),
            decreases entries@.len() - i,
        {
            let ghost upto = all.take(i as int + 1);
            assert(upto.drop_last() =~= all.take(i as int));
            let cert = entries[i].1.clone();
            let key = entries[i].2.clone();
            push_unique(&mut unique, cert, Ghost(seen));
            proof {
                seen = seen.push(all[i as int].1);
            }
            push_unique(&mut unique, key, Ghost(seen));
            proof {
                seen = seen.push(all[i as int].2);
            }
            i += 1;
        }
        assert(all.take(entries@.len() as int) =~= all);
        unique
    }

    /// Checks every host. The error is that of the first host, in table
    /// order, whose protocol is not supported.
    pub fn validate(&self) -> (r: Result<(), ConfigError>)
        ensures
            r is Ok <==> self@.is_valid(),
            r matches Err(e) ==> e matches ConfigError::UnsupportedProtocol { protocol }
                && self@.first_unsupported(protocol@),
    {
        let n = self.hosts.len();
        let mut i: usize = 0;
        while i < n
            invariant
                i <= n,
                n == self@.hosts.len(),
                forall|j: int|
                    0 <= j < i ==> supported_protocol((#[trigger] self@.hosts[j]).1.protocol),
            decreases n - i,
        {
            match self.hosts.entry(i) {
                Some((_, host)) => {
                    match host.validate() {
                        Ok(()) => {},
                        Err(e) => {
                            return Err(e);
                        },
                    }
                },
                None => {},
            }
            i += 1;
        }
        Ok(())
    }
}


/// The snapshot that stands in when no configuration could be read.
pub open spec fn default_view() -> ConfigView {
    ConfigView {
        port: Some(DEFAULT_HTTP_PORT),
        ssl: Some(false),
        ssl_port: Some(DEFAULT_HTTPS_PORT),
        ssl_key_file: Some(DEFAULT_KEY_PATH@),
        ssl_cert_file: Some(DEFAULT_CERT_PATH@),
        hosts: Seq::empty(),
    }
}

impl Default for Config {
    fn default() -> (r: Self)
        ensures
            r@ == default_view(),
    {
        Config {
            port: Some(DEFAULT_HTTP_PORT),
            ssl: Some(false),
            ssl_port: Some(DEFAULT_HTTPS_PORT),
            ssl_key_file: Some(String::from_str(DEFAULT_KEY_PATH)),
            ssl_cert_file: Some(String::from_str(DEFAULT_CERT_PATH)),
            hosts: HostTable::new(),
        }
    }
}

impl Clone for Config {
    fn clone(&self) -> (r: Self)
        ensures
            r@ == self@,
    {
        Config {
            port: self.port,
            ssl: self.ssl,
            ssl_port: self.ssl_port,
            ssl_key_file: clone_opt_text(&self.ssl_key_file),
            ssl_cert_file: clone_opt_text(&self.ssl_cert_file),
            hosts: self.hosts.clone(),
        }
    }
}

/// What loading yields for what was read: the defaults where nothing could
/// be read or parsed, else the parsed snapshot if it is valid.
pub open spec fn loaded(parsed: Option<ConfigView>) -> Option<ConfigView> {
    match parsed {
        None => Some(default_view()),
        Some(c) => if c.is_valid() {
            Some(c)
        } else {
            None
        },
    }
}

/// Turns the outcome of reading and parsing the configuration file into a
/// snapshot. `None` stands for a file that could not be read or parsed: the
/// defaults are loaded. A parsed configuration is checked and handed on
/// unchanged, or refused with the error of `validate`.
pub fn snapshot_from(parsed: Option<Config>) -> (r: Result<Config, ConfigError>)
    ensures
        match r {
            Ok(c) => loaded(opt_config_view(parsed)) == Some(c@) && c@.is_valid(),
            Err(ConfigError::UnsupportedProtocol { protocol }) => {
                &&& loaded(opt_config_view(parsed)) is None
                &&& parsed matches Some(p)
                &&& p@.first_unsupported(protocol@)
            },
        },
{
    match parsed {
        None => {
            let c = Config::default();
            Ok(c)
        },
        Some(c) => match c.validate() {
            Ok(()) => Ok(c),
            Err(e) => Err(e),
        },
    }
}

/// The view of an optional configuration.
pub open spec fn opt_config_view(o: Option<Config>) -> Option<ConfigView> {
    match o {
        Some(c) => Some(c@),
        None => None,
    }
}

/// The defaults: port 80, HTTPS off on port 443, no hosts; and they are valid.
pub proof fn lemma_defaults()
    ensures
        default_view().http_port() == 80,
        default_view().https_port() == 443,
        !default_view().https_enabled(),
        default_view().hosts.len() == 0,
        default_view().is_valid(),
        loaded(None) == Some(default_view()),
{
}

} // verus!
