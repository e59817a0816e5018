//! The shared configuration cell: the one slot that holds the current
//! snapshot. Whoever shares it between tasks puts a lock around it; the
//! cell itself sees to it that only validated snapshots get in.

use crate::config::{
    loaded, opt_config_view, snapshot_from, Config, ConfigError, ConfigView, TlsReloadSignal,
};
use vstd::prelude::*;

verus! {

/// What a cell holds after `candidate` was offered to it: the candidate if
/// it is valid, else what the cell held.
pub open spec fn after_offer(held: ConfigView, candidate: ConfigView) -> ConfigView {
    if candidate.is_valid() {
        candidate
    } else {
        held
    }
}

/// What a cell holds after a reload from what was read of the file.
pub open spec fn after_reload(held: ConfigView, parsed: Option<ConfigView>) -> ConfigView {
    match loaded(parsed) {
        Some(c) => c,
        None => held,
    }
}

/// A cell that holds a valid snapshot holds a valid snapshot after any
/// offer and after any reload: what is published validates.
pub proof fn lemma_published_is_valid(
    held: ConfigView,
    candidate: ConfigView,
    parsed: Option<ConfigView>,
)
    requires
        held.is_valid(),
    ensures
        after_offer(held, candidate).is_valid(),
        after_reload(held, parsed).is_valid(),
{
}

/// After an offer or a reload a reader sees the old snapshot, whole, or the
/// new one, whole: nothing in between.
pub proof fn lemma_old_or_new(held: ConfigView, candidate: ConfigView, parsed: Option<ConfigView>)
    ensures
        after_offer(held, candidate) == held || after_offer(held, candidate) == candidate,
        after_reload(held, parsed) == held || loaded(parsed) == Some(after_reload(held, parsed)),
{
}

/// The slot that holds the current snapshot.
#[derive(Debug)]
pub struct ConfigCell {
    current: Config,
}

impl View for ConfigCell {
    type V = ConfigView;

    closed spec fn view(&self) -> ConfigView {
        self.current@
    }
}

impl ConfigCell {
    /// Holds of every cell: its snapshot is valid.
    #[verifier::type_invariant]
    pub open spec fn inv(&self) -> bool {
        self@.is_valid()
    }

    /// A cell that holds `initial`, if `initial` is valid. An invalid
    /// snapshot is refused with the error of its validation.
    pub fn new(initial: Config) -> (r: Result<Self, ConfigError>)
        ensures
            match r {
                Ok(cell) => initial@.is_valid() && cell@ == initial@,
                Err(ConfigError::UnsupportedProtocol { protocol }) => !initial@.is_valid()
                    && initial@.first_unsupported(protocol@),
            },
    {
        match initial.validate() {
            Ok(()) => Ok(ConfigCell { current: initial }),
            Err(e) => Err(e),
        }
    }

    /// The current snapshot.
    pub fn snapshot(&self) -> (r: &Config)
        ensures
            r@ == self@,
            r@.is_valid(),
    {
        proof {
            use_type_invariant(self);
        }
        &self.current
    }

    /// A copy of the current snapshot, whole.
    pub fn read(&self) -> (r: Config)
        ensures
            r@ == self@,
            r@.is_valid(),
    {
        proof {
            use_type_invariant(self);
        }
        self.current.clone()
    }

    /// Publishes `candidate` if it is valid: the cell then holds it, whole,
    /// and the answer is the signal to send. An invalid candidate is
    /// refused and the cell keeps the snapshot it had.
    pub fn replace(&mut self, candidate: Config) -> (r: Result<TlsReloadSignal, ConfigError>)
        ensures
            final(self)@ == after_offer(old(self)@, candidate@),
            final(self)@.is_valid(),
            match r {
                Ok(signal) => signal == TlsReloadSignal::ConfigChanged && candidate@.is_valid(),
                Err(ConfigError::UnsupportedProtocol { protocol }) => !candidate@.is_valid()
                    && candidate@.first_unsupported(protocol@),
            },
    {
        proof {
            use_type_invariant(&*self);
        }
        match candidate.validate() {
            Ok(()) => {
                *self = ConfigCell { current: candidate };
                Ok(TlsReloadSignal::ConfigChanged)
            },
            Err(e) => Err(e),
        }
    }

    /// Reloads from what was read of the configuration file (`None`: it
    /// could not be read or parsed, and the defaults are loaded). The cell
    /// afterwards holds what loading yields, or, where loading refuses the
    /// parsed configuration, the snapshot it had.
    pub fn reload(&mut self, parsed: Option<Config>) -> (r: Result<TlsReloadSignal, ConfigError>)
        ensures
            final(self)@ == after_reload(old(self)@, opt_config_view(parsed)),
            final(self)@.is_valid(),
            match r {
                Ok(signal) => signal == TlsReloadSignal::ConfigChanged && loaded(
                    opt_config_view(parsed),
                ) is Some,
                Err(ConfigError::UnsupportedProtocol { protocol }) => {
                    &&& loaded(opt_config_view(parsed)) is None
                    &&& parsed matches Some(p)
                    &&& p@.first_unsupported(protocol@)
                },
            },
    {
        proof {
            use_type_invariant(&*self);
        }
        match snapshot_from(parsed) {
            Ok(c) => {
                *self = ConfigCell { current: c };
                Ok(TlsReloadSignal::ConfigChanged)
            },
            Err(e) => Err(e),
        }
    }
}

} // verus!
