//! The TLS signature of a snapshot: what the HTTPS listener binds to.

use crate::config::{entries_of, tls_entries, tls_entry, Config, ConfigView, TlsEntry};
use crate::hosts::HostSeq;
use vstd::prelude::*;

verus! {

/// Everything of a snapshot that the HTTPS listener depends on: its port,
/// the default certificate and key paths, and the per-host overrides.
#[derive(Debug)]
pub struct TlsSignature {
    pub https_port: u16,
    pub default_cert_path: String,
    pub default_key_path: String,
    pub host_entries: Vec<(String, String, String)>,
}

/// The mathematical content of a [`TlsSignature`]. The overrides form a set:
/// their order does not matter.
pub struct TlsSignatureView {
    pub https_port: u16,
    pub default_cert_path: Seq<char>,
    pub default_key_path: Seq<char>,
    pub host_entries: Set<TlsEntry>,
}

impl View for TlsSignature {
    type V = TlsSignatureView;

    open spec fn view(&self) -> TlsSignatureView {
        TlsSignatureView {
            https_port: self.https_port,
            default_cert_path: self.default_cert_path@,
            default_key_path: self.default_key_path@,
            host_entries: entries_of(self.host_entries@).to_set(),
        }
    }
}

/// The signature of a snapshot.
pub open spec fn signature_of(c: ConfigView) -> TlsSignatureView {
    TlsSignatureView {
        https_port: c.https_port(),
        default_cert_path: c.cert_path(),
        default_key_path: c.key_path(),
        host_entries: tls_entries(c.hosts).to_set(),
    }
}

fn same_entry(a: &(String, String, String), b: &(String, String, String)) -> (r: bool)
    ensures
        r == ((a.0@, a.1@, a.2@) == (b.0@, b.1@, b.2@)),
{
    a.0 == b.0 && a.1 == b.1 && a.2 == b.2
}

fn has_entry(list: &Vec<(String, String, String)>, e: &(String, String, String)) -> (r: bool)
    ensures
        r == entries_of(list@).contains((e.0@, e.1@, e.2@)),
{
    let mut i: usize = 0;
    while i < list.len()
        invariant
            i <= list@.len(),
            forall|j: int| 0 <= j < i ==> (#[trigger] entries_of(list@)[j]) != (e.0@, e.1@, e.2@),
        decreases list@.len() - i,
    {
        if same_entry(&list[i], e) {
            assert(entries_of(list@)[i as int] == (e.0@, e.1@, e.2@));
            return true;
        }
        i += 1;
    }
    false
}

fn all_within(a: &Vec<(String, String, String)>, b: &Vec<(String, String, String)>) -> (r: bool)
    ensures
        r == entries_of(a@).to_set().subset_of(entries_of(b@).to_set()),
{
    let mut i: usize = 0;
    while i < a.len()
        invariant
            i <= a@.len(),
            forall|j: int|
                0 <= j < i ==> entries_of(b@).contains(#[trigger] entries_of(a@)[j]),
        decreases a@.len() - i,
    {
        if !has_entry(b, &a[i]) {
            proof {
                let e = entries_of(a@)[i as int];
                assert(entries_of(a@).to_set().contains(e));
                assert(!entries_of(b@).to_set().contains(e));
            }
            return false;
        }
        i += 1;
    }
    proof {
        assert forall|e: TlsEntry| entries_of(a@).to_set().contains(e) implies entries_of(
            b@,
        ).to_set().contains(e) by {
            let j = choose|j: int| 0 <= j < entries_of(a@).len() && entries_of(a@)[j] == e;
            assert(entries_of(b@).contains(entries_of(a@)[j]));
        }
    }
    true
}

impl TlsSignature {
    /// Whether two signatures stand for the same listener: the same port,
    /// the same default paths and the same set of overrides.
    pub fn same_as(&self, other: &TlsSignature) -> (r: bool)
        ensures
            r == (self@ == other@),
    {
        let r = self.https_port == other.https_port && self.default_cert_path
            == other.default_cert_path && self.default_key_path == other.default_key_path
            && all_within(&self.host_entries, &other.host_entries) && all_within(
            &other.host_entries,
            &self.host_entries,
        );
        proof {
            if r {
                assert(self@.host_entries =~= other@.host_entries);
            }
        }
        r
    }
}

impl Clone for TlsSignature {
    fn clone(&self) -> (r: Self)
        ensures
            r@ == self@,
    {
        let mut host_entries: Vec<(String, String, String)> = Vec::new();
        let mut i: usize = 0;
        while i < self.host_entries.len()
            invariant
                i <= self.host_entries@.len(),
                host_entries@.len() == i,
                forall|j: int| 0 <= j < i ==> host_entries@[j] == self.host_entries@[j],
            decreases self.host_entries@.len() - i,
        {
            let e = &self.host_entries[i];
            host_entries.push((e.0.clone(), e.1.clone(), e.2.clone()));
            i += 1;
        }
        assert(host_entries@ =~= self.host_entries@);
        TlsSignature {
            https_port: self.https_port,
            default_cert_path: self.default_cert_path.clone(),
            default_key_path: self.default_key_path.clone(),
            host_entries,
        }
    }
}

impl Config {
    /// The TLS signature of this snapshot.
    pub fn tls_signature(&self) -> (r: TlsSignature)
        ensures
            r@ == signature_of(self@),
    {
        TlsSignature {
            https_port: self.resolved_ssl_port(),
            default_cert_path: self.resolved_ssl_cert_path(),
            default_key_path: self.resolved_ssl_key_path(),
            host_entries: self.host_tls_entries(),
        }
    }
}

/// Whether some host of `hosts` asks for the override `e`.
pub open spec fn asks_for(hosts: HostSeq, e: TlsEntry) -> bool {
    exists|i: int| 0 <= i < hosts.len() && tls_entry(#[trigger] hosts[i]) == Some(e)
}

/// The overrides of a table are those that its hosts ask for.
pub proof fn lemma_tls_entries_are_asked_for(hosts: HostSeq, e: TlsEntry)
    ensures
        tls_entries(hosts).contains(e) <==> asks_for(hosts, e),
    decreases hosts.len(),
{
    if hosts.len() > 0 {
        let front = hosts.drop_last();
        let all = tls_entries(hosts);
        let before = tls_entries(front);
        lemma_tls_entries_are_asked_for(front, e);
        if asks_for(hosts, e) {
            let i = choose|i: int| 0 <= i < hosts.len() && tls_entry(#[trigger] hosts[i]) == Some(e);
            if i < front.len() {
                assert(tls_entry(front[i]) == Some(e));
                assert(before.contains(e));
                let j = choose|j: int| 0 <= j < before.len() && before[j] == e;
                assert(all[j] == e);
            } else {
                assert(all[all.len() - 1] == e);
            }
        }
        if all.contains(e) {
            let j = choose|j: int| 0 <= j < all.len() && all[j] == e;
            if j < before.len() {
                assert(before.contains(e));
                let i = choose|i: int|
                    0 <= i < front.len() && tls_entry(#[trigger] front[i]) == Some(e);
                assert(tls_entry(hosts[i]) == Some(e));
            } else {
                assert(tls_entry(hosts.last()) == Some(e));
            }
        }
    }
}

/// The signature holds what the listener binds to and nothing else:
/// snapshots with the same HTTPS port, the same default paths and hosts that
/// ask for the same overrides have the same signature, whatever the order of
/// their hosts, their upstreams and their plain HTTP port.
pub proof fn lemma_signature_ignores_the_rest(a: ConfigView, b: ConfigView)
    requires
        a.https_port() == b.https_port(),
        a.cert_path() == b.cert_path(),
        a.key_path() == b.key_path(),
        forall|e: TlsEntry| asks_for(a.hosts, e) <==> asks_for(b.hosts, e),
    ensures
        signature_of(a) == signature_of(b),
{
    assert forall|e: TlsEntry|
        tls_entries(a.hosts).to_set().contains(e) <==> tls_entries(b.hosts).to_set().contains(
            e,
        ) by {
        lemma_tls_entries_are_asked_for(a.hosts, e);
        lemma_tls_entries_are_asked_for(b.hosts, e);
    }
    assert(tls_entries(a.hosts).to_set() =~= tls_entries(b.hosts).to_set());
}

} // verus!
