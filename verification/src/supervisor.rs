//! The HTTPS supervisor: the one place that decides when the HTTPS listener
//! is started, restarted or stopped.

use crate::config::{Config, ConfigView, TlsReloadSignal};
use crate::signature::{signature_of, TlsSignature, TlsSignatureView};
use vstd::prelude::*;

verus! {

/// What the supervisor asks of the task that runs the listener.
#[derive(Clone, Copy, Debug, PartialEq, Eq, Structural)]
pub enum SupervisorAction {
    /// Leave things as they are.
    Keep,
    /// Start a child; none is running.
    Spawn,
    /// Abort the running child and start a new one.
    Restart,
    /// Abort the running child and start none.
    Stop,
}

/// The supervisor's state as mathematics.
pub struct SupervisorView {
    /// The running child, known by its number, if one is held.
    pub child: Option<u64>,
    /// The number of the child started last.
    pub started: u64,
    /// The signature the running child was started with.
    pub last_signature: Option<TlsSignatureView>,
}

/// The number after `n`; numbers wrap round at the end of their range.
pub open spec fn next_number(n: u64) -> u64 {
    if n == u64::MAX {
        0
    } else {
        (n + 1) as u64
    }
}

impl SupervisorView {
    /// A signature is recorded exactly while a child is held, and a held
    /// child is the one started last.
    pub open spec fn well_formed(self) -> bool {
        &&& self.child is Some <==> self.last_signature is Some
        &&& self.child is Some ==> self.child == Some(self.started)
    }

    /// The state before the first cycle.
    pub open spec fn initial() -> SupervisorView {
        SupervisorView { child: None, started: 0, last_signature: None }
    }

    /// The state after a new child was started with `signature`.
    pub open spec fn with_new_child(self, signature: TlsSignatureView) -> SupervisorView {
        SupervisorView {
            child: Some(next_number(self.started)),
            started: next_number(self.started),
            last_signature: Some(signature),
        }
    }

    /// The state after the child was given up.
    pub open spec fn without_child(self) -> SupervisorView {
        SupervisorView { child: None, started: self.started, last_signature: None }
    }

    /// The action of one cycle. With TLS on: start a child if none is held;
    /// replace it if a TLS file changed or the signature differs from the
    /// recorded one; else keep it. With TLS off: stop a held child.
    pub open spec fn action(
        self,
        signal: TlsReloadSignal,
        ssl_enabled: bool,
        signature: TlsSignatureView,
    ) -> SupervisorAction {
        if ssl_enabled {
            if self.child is None {
                SupervisorAction::Spawn
            } else if signal == TlsReloadSignal::TlsArtifactChanged || self.last_signature
                != Some(signature) {
                SupervisorAction::Restart
            } else {
                SupervisorAction::Keep
            }
        } else {
            if self.child is Some {
                SupervisorAction::Stop
            } else {
                SupervisorAction::Keep
            }
        }
    }

    /// The state after one cycle.
    pub open spec fn after(
        self,
        signal: TlsReloadSignal,
        ssl_enabled: bool,
        signature: TlsSignatureView,
    ) -> SupervisorView {
        match self.action(signal, ssl_enabled, signature) {
            SupervisorAction::Keep => self,
            SupervisorAction::Spawn => self.with_new_child(signature),
            SupervisorAction::Restart => self.with_new_child(signature),
            SupervisorAction::Stop => self.without_child(),
        }
    }
}

/// The state of the HTTPS supervisor: whether it holds a child, and with
/// which signature the child was started.
#[derive(Debug)]
pub struct Supervisor {
    child: Option<u64>,
    started: u64,
    last_signature: Option<TlsSignature>,
}

impl View for Supervisor {
    type V = SupervisorView;

    closed spec fn view(&self) -> SupervisorView {
        SupervisorView {
            child: self.child,
            started: self.started,
            last_signature: match self.last_signature {
                Some(s) => Some(s@),
                None => None,
            },
        }
    }
}

impl Supervisor {
    /// Holds of every supervisor: a signature is recorded exactly while a
    /// child is held, and a held child is the one started last.
    #[verifier::type_invariant]
    pub open spec fn inv(&self) -> bool {
        self@.well_formed()
    }

    /// A supervisor that holds no child.
    pub fn new() -> (r: Self)
        ensures
            r@ == SupervisorView::initial(),
    {
        Supervisor { child: None, started: 0, last_signature: None }
    }

    /// The number of the child that is held, if one is.
    pub fn child(&self) -> (r: Option<u64>)
        ensures
            r == self@.child,
    {
        self.child
    }

    /// Whether a signature is recorded that stands for the same listener as
    /// `signature`.
    pub fn has_signature(&self, signature: &TlsSignature) -> (r: bool)
        ensures
            r == (self@.last_signature == Some(signature@)),
    {
        match &self.last_signature {
            Some(s) => s.same_as(signature),
            None => false,
        }
    }

    /// Runs one cycle: given the signal that woke the supervisor and what
    /// the current snapshot says, decides what happens to the child and
    /// records it.
    pub fn on_signal(
        &mut self,
        signal: TlsReloadSignal,
        ssl_enabled: bool,
        signature: TlsSignature,
    ) -> (r: SupervisorAction)
        ensures
            r == old(self)@.action(signal, ssl_enabled, signature@),
            final(self)@ == old(self)@.after(signal, ssl_enabled, signature@),
    {
        proof {
            use_type_invariant(&*self);
        }
        let held = self.child.is_some();
        if ssl_enabled {
            let force = match signal {
                TlsReloadSignal::TlsArtifactChanged => true,
                TlsReloadSignal::ConfigChanged => false,
            };
            if !held || force || !self.has_signature(&signature) {
                let number = self.started.wrapping_add(1);
                *self = Supervisor {
                    child: Some(number),
                    started: number,
                    last_signature: Some(signature),
                };
                if held {
                    SupervisorAction::Restart
                } else {
                    SupervisorAction::Spawn
                }
            } else {
                SupervisorAction::Keep
            }
        } else if held {
            *self = Supervisor { child: None, started: self.started, last_signature: None };
            SupervisorAction::Stop
        } else {
            SupervisorAction::Keep
        }
    }

    /// Runs one cycle on the current snapshot: TLS is on if the snapshot
    /// switches it on, and the signature is the snapshot's.
    pub fn cycle(&mut self, signal: TlsReloadSignal, snapshot: &Config) -> (r: SupervisorAction)
        ensures
            r == old(self)@.action(signal, snapshot@.https_enabled(), signature_of(snapshot@)),
            final(self)@ == old(self)@.after(
                signal,
                snapshot@.https_enabled(),
                signature_of(snapshot@),
            ),
    {
        self.on_signal(signal, snapshot.ssl_enabled(), snapshot.tls_signature())
    }

    /// The signal source is gone: gives up the child. Returns whether a
    /// child was held and has to be aborted.
    pub fn on_source_dropped(&mut self) -> (r: bool)
        ensures
            r == old(self)@.child is Some,
            final(self)@ == old(self)@.without_child(),
    {
        let held = self.child.is_some();
        *self = Supervisor { child: None, started: self.started, last_signature: None };
        held
    }
}

/// A cycle keeps the state well formed.
pub proof fn lemma_cycle_keeps_well_formed(
    state: SupervisorView,
    signal: TlsReloadSignal,
    ssl_enabled: bool,
    signature: TlsSignatureView,
)
    requires
        state.well_formed(),
    ensures
        state.after(signal, ssl_enabled, signature).well_formed(),
{
}

/// Snapshots with the same signature that agree on whether TLS is on are
/// interchangeable: a cycle on either does the same and leaves the same
/// state.
pub proof fn lemma_equal_signatures_are_interchangeable(
    state: SupervisorView,
    signal: TlsReloadSignal,
    a: ConfigView,
    b: ConfigView,
)
    requires
        signature_of(a) == signature_of(b),
        a.https_enabled() == b.https_enabled(),
    ensures
        state.action(signal, a.https_enabled(), signature_of(a)) == state.action(
            signal,
            b.https_enabled(),
            signature_of(b),
        ),
        state.after(signal, a.https_enabled(), signature_of(a)) == state.after(
            signal,
            b.https_enabled(),
            signature_of(b),
        ),
{
}

/// A cycle settles the state: a second cycle on the same snapshot, woken by
/// `ConfigChanged`, asks nothing of the listener task. Signals that were
/// coalesced into one are therefore not missed.
pub proof fn lemma_config_cycle_is_idempotent(
    state: SupervisorView,
    signal: TlsReloadSignal,
    ssl_enabled: bool,
    signature: TlsSignatureView,
)
    requires
        state.well_formed(),
    ensures
        ({
            let settled = state.after(signal, ssl_enabled, signature);
            &&& settled.action(TlsReloadSignal::ConfigChanged, ssl_enabled, signature)
                == SupervisorAction::Keep
            &&& settled.after(TlsReloadSignal::ConfigChanged, ssl_enabled, signature) == settled
        }),
{
}

/// With TLS on, an unchanged signature and the signal `ConfigChanged`, a
/// cycle leaves the child alone: the same child is held afterwards and
/// nothing is asked of the listener task.
pub proof fn lemma_unchanged_signature_keeps_child(
    state: SupervisorView,
    signature: TlsSignatureView,
)
    requires
        state.well_formed(),
        state.last_signature == Some(signature),
    ensures
        state.action(TlsReloadSignal::ConfigChanged, true, signature) == SupervisorAction::Keep,
        state.after(TlsReloadSignal::ConfigChanged, true, signature) == state,
{
}

/// With TLS on and the signal `TlsArtifactChanged`, a cycle always starts a
/// new child: the child held afterwards is not the child held before.
pub proof fn lemma_artifact_change_replaces_child(
    state: SupervisorView,
    signature: TlsSignatureView,
)
    requires
        state.well_formed(),
    ensures
        ({
            let action = state.action(TlsReloadSignal::TlsArtifactChanged, true, signature);
            action == SupervisorAction::Spawn || action == SupervisorAction::Restart
        }),
        state.after(TlsReloadSignal::TlsArtifactChanged, true, signature).child is Some,
        state.after(TlsReloadSignal::TlsArtifactChanged, true, signature).child != state.child,
{
}

} // verus!
