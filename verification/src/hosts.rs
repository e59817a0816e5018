//! Upstream hosts and the table that maps host names to them.

use crate::text::{is_lower, lemma_lower_idempotent, lower};
use vstd::prelude::*;

verus! {

/// The view of an optional text.
pub open spec fn opt_text(o: Option<String>) -> Option<Seq<char>> {
    match o {
        Some(s) => Some(s@),
        None => None,
    }
}

/// Copies an optional text.
pub fn clone_opt_text(o: &Option<String>) -> (r: Option<String>)
    ensures
        r == *o,
{
    match o {
        Some(s) => Some(s.clone()),
        None => None,
    }
}

/// Per-host certificate override for TLS termination.
#[derive(Debug, PartialEq, Eq)]
pub struct HostTls {
    pub cert_file: Option<String>,
    pub key_file: Option<String>,
}

/// The mathematical content of a [`HostTls`].
pub struct HostTlsView {
    pub cert_file: Option<Seq<char>>,
    pub key_file: Option<Seq<char>>,
}

impl View for HostTls {
    type V = HostTlsView;

    open spec fn view(&self) -> HostTlsView {
        HostTlsView { cert_file: opt_text(self.cert_file), key_file: opt_text(self.key_file) }
    }
}

impl Clone for HostTls {
    fn clone(&self) -> (r: Self)
        ensures
            r == *self,
    {
        HostTls {
            cert_file: clone_opt_text(&self.cert_file),
            key_file: clone_opt_text(&self.key_file),
        }
    }
}

/// One upstream origin, as configured under a host name.
#[derive(Debug, PartialEq, Eq)]
pub struct Host {
    pub ip: String,
    pub port: u16,
    pub protocol: String,
    pub tls: Option<HostTls>,
}

/// The mathematical content of a [`Host`].
pub struct HostView {
    pub ip: Seq<char>,
    pub port: u16,
    pub protocol: Seq<char>,
    pub tls: Option<HostTlsView>,
}

impl View for Host {
    type V = HostView;

    open spec fn view(&self) -> HostView {
        HostView {
            ip: self.ip@,
            port: self.port,
            protocol: self.protocol@,
            tls: match self.tls {
                Some(t) => Some(t@),
                None => None,
            },
        }
    }
}

impl Clone for Host {
    fn clone(&self) -> (r: Self)
        ensures
            r == *self,
    {
        Host {
            ip: self.ip.clone(),
            port: self.port,
            protocol: self.protocol.clone(),
            tls: match &self.tls {
                Some(t) => Some(t.clone()),
                None => None,
            },
        }
    }
}

/// The entries of a host table as mathematics: name and host, in table order.
pub type HostSeq = Seq<(Seq<char>, HostView)>;

/// Whether some entry of `hosts` carries `name`.
pub open spec fn has_host(hosts: HostSeq, name: Seq<char>) -> bool {
    exists|i: int| 0 <= i < hosts.len() && (#[trigger] hosts[i]).0 == name
}

/// The position of the entry that carries `name` (meaningful when there is one).
pub open spec fn host_index(hosts: HostSeq, name: Seq<char>) -> int {
    choose|i: int| 0 <= i < hosts.len() && (#[trigger] hosts[i]).0 == name
}

/// The host configured under `name`, if any. The match is exact.
pub open spec fn lookup(hosts: HostSeq, name: Seq<char>) -> Option<HostView> {
    if has_host(hosts, name) {
        Some(hosts[host_index(hosts, name)].1)
    } else {
        None
    }
}

/// The entries read as a mapping from name to host.
pub open spec fn as_mapping(hosts: HostSeq) -> Map<Seq<char>, HostView> {
    Map::new(|name: Seq<char>| has_host(hosts, name), |name: Seq<char>| lookup(hosts, name)->0)
}

/// No two entries carry the same name.
pub open spec fn distinct_names(hosts: HostSeq) -> bool {
    forall|i: int, j: int|
        0 <= i < hosts.len() && 0 <= j < hosts.len() && i != j ==> (#[trigger] hosts[i]).0
            != (#[trigger] hosts[j]).0
}

/// Every name is in lower case.
pub open spec fn lower_names(hosts: HostSeq) -> bool {
    forall|i: int| 0 <= i < hosts.len() ==> is_lower((#[trigger] hosts[i]).0)
}

/// What a host table holds at all times: lower-case names, each at most once.
pub open spec fn well_formed(hosts: HostSeq) -> bool {
    distinct_names(hosts) && lower_names(hosts)
}

/// `hosts` after `host` was put under `name`: an entry of that name is
/// replaced where it stands, a new name goes to the end.
pub open spec fn put(hosts: HostSeq, name: Seq<char>, host: HostView) -> HostSeq {
    if has_host(hosts, name) {
        hosts.update(host_index(hosts, name), (name, host))
    } else {
        hosts.push((name, host))
    }
}

/// Putting keeps a table well formed, makes the name resolve to the new
/// host, and leaves every other name as it was.
pub proof fn lemma_put(hosts: HostSeq, name: Seq<char>, host: HostView)
    requires
        well_formed(hosts),
        is_lower(name),
    ensures
        well_formed(put(hosts, name, host)),
        lookup(put(hosts, name, host), name) == Some(host),
        forall|other: Seq<char>|
            other != name ==> lookup(put(hosts, name, host), other) == lookup(hosts, other),
        as_mapping(put(hosts, name, host)) == as_mapping(hosts).insert(name, host),
{
    let after = put(hosts, name, host);
    // The place of the new entry: that of the entry it replaces, or the end.
    let k = if has_host(hosts, name) {
        host_index(hosts, name)
    } else {
        hosts.len() as int
    };
    assert(after[k] == (name, host));
    // Every other place holds what it held.
    assert forall|i: int| 0 <= i < hosts.len() && i != k implies #[trigger] after[i] == hosts[i] by {}
    assert(distinct_names(after));
    assert(lower_names(after));
    assert forall|other: Seq<char>| other != name implies lookup(after, other) == lookup(
        hosts,
        other,
    ) by {
        if has_host(hosts, other) {
            let m = host_index(hosts, other);
            assert(after[m] == hosts[m]);
        }
    }
    assert forall|other: Seq<char>| has_host(after, other) <==> (other == name || has_host(
        hosts,
        other,
    )) by {
        if other != name {
            assert(lookup(after, other) == lookup(hosts, other));
        }
    }
    assert(as_mapping(after) =~= as_mapping(hosts).insert(name, host));
}

/// The configured hosts: a mapping from lower-case host name to upstream,
/// which remembers the order in which the names were first put.
#[derive(Debug, PartialEq, Eq)]
pub struct HostTable {
    entries: Vec<(String, Host)>,
}

/// The mathematical content of stored entries.
pub open spec fn entries_view(entries: Seq<(String, Host)>) -> HostSeq {
    Seq::new(entries.len(), |i: int| (entries[i].0@, entries[i].1@))
}

impl View for HostTable {
    type V = HostSeq;

    closed spec fn view(&self) -> HostSeq {
        entries_view(self.entries@)
    }
}

impl HostTable {
    /// Holds of every table: the names are in lower case and none occurs twice.
    #[verifier::type_invariant]
    pub open spec fn inv(&self) -> bool {
        well_formed(self@)
    }

    /// The table read as a mapping from name to host.
    pub open spec fn map(&self) -> Map<Seq<char>, HostView> {
        as_mapping(self@)
    }

    /// A table without hosts.
    pub fn new() -> (r: Self)
        ensures
            r@ == HostSeq::empty(),
    {
        let entries: Vec<(String, Host)> = Vec::new();
        HostTable { entries }
    }

    /// The number of hosts.
    pub fn len(&self) -> (r: usize)
        ensures
            r == self@.len(),
    {
        self.entries.len()
    }

    /// The place of the entry that carries exactly `name`.
    fn position(&self, name: &str) -> (r: Option<usize>)
        ensures
            match r {
                Some(i) => i < self@.len() && self@[i as int].0 == name@ && has_host(
                    self@,
                    name@,
                ) && host_index(self@, name@) == i,
                None => !has_host(self@, name@),
            },
    {
        proof {
            use_type_invariant(self);
        }
        let mut i: usize = 0;
        while i < self.entries.len()
            invariant
                i <= self.entries@.len(),
                self@.len() == self.entries@.len(),
                well_formed(self@),
                forall|j: int| 0 <= j < i ==> (#[trigger] self@[j]).0 != name@,
            decreases self.entries@.len() - i,
        {
            if *self.entries[i].0.as_str() == *name {
                assert(self@[i as int].0 == name@);
                return Some(i);
            }
            i += 1;
        }
        None
    }

    /// The host configured under exactly `name`.
    pub fn get(&self, name: &str) -> (r: Option<&Host>)
        ensures
            match r {
                Some(h) => lookup(self@, name@) == Some(h@),
                None => lookup(self@, name@) is None,
            },
            r is Some <==> self.map().contains_key(name@),
            r matches Some(h) ==> self.map()[name@] == h@,
    {
        match self.position(name) {
            Some(i) => Some(&self.entries[i].1),
            None => None,
        }
    }

    /// The entry at position `i`, in the order in which names were first put.
    pub fn entry(&self, i: usize) -> (r: Option<(&String, &Host)>)
        ensures
            match r {
                Some((name, host)) => i < self@.len() && self@[i as int] == (name@, host@),
                None => i >= self@.len(),
            },
    {
        if i < self.entries.len() {
            Some((&self.entries[i].0, &self.entries[i].1))
        } else {
            None
        }
    }

    /// Puts `host` under the lower-case form of `name`, in place of the host
    /// that stood there if there was one.
    pub fn insert(&mut self, name: &str, host: Host)
        ensures
            final(self)@ == put(old(self)@, lower(name@), host@),
            final(self).map() == old(self).map().insert(lower(name@), host@),
    {
        proof {
            use_type_invariant(&*self);
        }
        let key = name.to_ascii_lowercase();
        proof {
            lemma_lower_idempotent(name@);
            lemma_put(self@, key@, host@);
        }
        let ghost before = self@;
        let found = self.position(key.as_str());
        let mut taken = HostTable::new();
        core::mem::swap(self, &mut taken);
        let HostTable { entries } = taken;
        let mut entries = entries;
        match found {
            Some(i) => {
                entries.set(i, (key, host));
            },
            None => {
                entries.push((key, host));
            },
        }
        assert(entries_view(entries@) =~= put(before, lower(name@), host@));
        *self = HostTable { entries };
    }
}

impl Clone for HostTable {
    fn clone(&self) -> (r: Self)
        ensures
            r@ == self@,
    {
        proof {
            use_type_invariant(self);
        }
        let mut entries: Vec<(String, Host)> = Vec::new();
        let mut i: usize = 0;
        while i < self.entries.len()
            invariant
                i <= self.entries@.len(),
                entries@.len() == i,
                forall|j: int| 0 <= j < i ==> entries@[j] == self.entries@[j],
            decreases self.entries@.len() - i,
        {
            entries.push((self.entries[i].0.clone(), self.entries[i].1.clone()));
            i += 1;
        }
        assert(entries_view(entries@) =~= self@);
        HostTable { entries }
    }
}

} // verus!
