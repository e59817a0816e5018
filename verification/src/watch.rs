//! The file-watch rules: when a look at the modification times calls for a
//! reload of the configuration, and when for a restart of the listener.

use crate::assoc::{as_map, find_last, named, names};
use vstd::prelude::*;

verus! {

/// A file's modification time, as a distance from the Unix epoch.
#[derive(Clone, Copy, Debug, PartialEq, Eq, Structural)]
pub struct Mtime {
    /// Whether the time lies before the epoch.
    pub before_epoch: bool,
    /// Whole seconds of the distance.
    pub secs: u64,
    /// The nanoseconds beyond the whole seconds.
    pub nanos: u32,
}

/// Whether two looks at a file gave the same answer.
pub fn same_mtime(a: Option<Mtime>, b: Option<Mtime>) -> (r: bool)
    ensures
        r == (a == b),
{
    match (a, b) {
        (Some(x), Some(y)) => x.before_epoch == y.before_epoch && x.secs == y.secs && x.nanos
            == y.nanos,
        (None, None) => true,
        _ => false,
    }
}

/// Whether a look at the configuration file calls for a reload: the file
/// has a modification time, and it is not the one remembered.
pub open spec fn calls_for_reload(last: Option<Mtime>, current: Option<Mtime>) -> bool {
    current is Some && last != current
}

/// What is remembered after a look: the time seen, if one was seen.
pub open spec fn remembered(last: Option<Mtime>, current: Option<Mtime>) -> Option<Mtime> {
    if current is Some {
        current
    } else {
        last
    }
}

/// The watcher of the configuration file: it remembers the modification
/// time it saw last.
#[derive(Clone, Copy, Debug, PartialEq, Eq)]
pub struct ConfigWatch {
    pub last_modified: Option<Mtime>,
}

impl ConfigWatch {
    /// A watcher that has seen `initial`.
    pub fn new(initial: Option<Mtime>) -> (r: Self)
        ensures
            r.last_modified == initial,
    {
        ConfigWatch { last_modified: initial }
    }

    /// One tick: takes the file's current modification time (`None` where
    /// it cannot be had) and says whether to reload. The time is remembered
    /// whether or not the reload succeeds.
    pub fn tick(&mut self, current: Option<Mtime>) -> (reload: bool)
        ensures
            reload == calls_for_reload(old(self).last_modified, current),
            final(self).last_modified == remembered(old(self).last_modified, current),
    {
        match current {
            None => false,
            Some(_) => {
                let reload = !same_mtime(self.last_modified, current);
                self.last_modified = current;
                reload
            },
        }
    }
}

/// A look that sees what the look before it saw calls for no reload.
pub proof fn lemma_same_time_no_reload(last: Option<Mtime>, current: Option<Mtime>)
    ensures
        !calls_for_reload(remembered(last, current), current),
{
}

/// What one look at the TLS files saw: each path with its modification
/// time, `None` where it could not be had. A path sighted more than once
/// counts as sighted last.
pub type Sightings = Seq<(Seq<char>, Option<Mtime>)>;

/// The state of the TLS file watcher as mathematics.
pub struct ArtifactWatchView {
    /// Whether a first look has been taken.
    pub primed: bool,
    /// What the last look saw.
    pub last_state: Map<Seq<char>, Option<Mtime>>,
}

impl ArtifactWatchView {
    /// Whether a look that sees `seen` is to be announced: a first look was
    /// taken before, and what is seen now differs from what was seen then,
    /// in a path's time, in a path that is new, or in a path that is gone.
    pub open spec fn announces(self, seen: Sightings) -> bool {
        self.primed && self.last_state != as_map(seen)
    }

    /// The state after a look that sees `seen`.
    pub open spec fn after(self, seen: Sightings) -> ArtifactWatchView {
        ArtifactWatchView { primed: true, last_state: as_map(seen) }
    }
}

/// The watcher of the TLS files: it remembers what its last look saw.
#[derive(Debug)]
pub struct ArtifactWatch {
    primed: bool,
    last_state: Vec<(String, Option<Mtime>)>,
}

impl View for ArtifactWatch {
    type V = ArtifactWatchView;

    closed spec fn view(&self) -> ArtifactWatchView {
        ArtifactWatchView {
            primed: self.primed,
            last_state: as_map(named(self.last_state@)),
        }
    }
}

impl ArtifactWatch {
    /// A watcher that has not looked yet.
    pub fn new() -> (r: Self)
        ensures
            !r@.primed,
            r@.last_state == Map::<Seq<char>, Option<Mtime>>::empty(),
    {
        let r = ArtifactWatch { primed: false, last_state: Vec::new() };
        assert(r@.last_state =~= Map::<Seq<char>, Option<Mtime>>::empty());
        r
    }

    /// Whether a first look has been taken.
    pub fn is_primed(&self) -> (r: bool)
        ensures
            r == self@.primed,
    {
        self.primed
    }

    /// One tick: takes what this look saw, remembers it, and says whether a
    /// `TlsArtifactChanged` signal is to be sent. The first look only
    /// records.
    pub fn tick(&mut self, observed: Vec<(String, Option<Mtime>)>) -> (notify: bool)
        ensures
            notify == old(self)@.announces(named(observed@)),
            final(self)@ == old(self)@.after(named(observed@)),
    {
        let ghost then = named(self.last_state@);
        let ghost now = named(observed@);
        let ghost before = as_map(then);
        let ghost after = as_map(now);
        let mut same = true;
        let mut i: usize = 0;
        while i < observed.len()
            invariant
                i <= observed@.len(),
                then == named(self.last_state@),
                now == named(observed@),
                before == as_map(then),
                after == as_map(now),
                same <==> forall|k: int|
                    0 <= k < i ==> before.contains_key((#[trigger] now[k]).0) && before[now[k].0]
                        == after[now[k].0],
            decreases observed@.len() - i,
        {
            let path = &observed[i].0;
            assert(now[i as int].0 == path@);
            let agrees = match (
                find_last(&observed, path.as_str()),
                find_last(&self.last_state, path.as_str()),
            ) {
                (Some(n), Some(t)) => same_mtime(self.last_state[t].1, observed[n].1),
                _ => false,
            };
            proof {
                assert(names(now, path@));
                assert(agrees == (before.contains_key(path@) && before[path@] == after[path@]));
            }
            if !agrees {
                same = false;
            }
            i += 1;
        }
        let mut j: usize = 0;
        let mut kept = true;
        while j < self.last_state.len()
            invariant
                j <= self.last_state@.len(),
                then == named(self.last_state@),
                now == named(observed@),
                after == as_map(now),
                kept <==> forall|k: int|
                    0 <= k < j ==> after.contains_key((#[trigger] then[k]).0),
            decreases self.last_state@.len() - j,
        {
            assert(then[j as int].0 == self.last_state@[j as int].0@);
            if find_last(&observed, self.last_state[j].0.as_str()).is_none() {
                kept = false;
            }
            j += 1;
        }
        proof {
            if same && kept {
                assert forall|p: Seq<char>| before.contains_key(p) <==> after.contains_key(p) by {
                    if before.contains_key(p) {
                        let k = choose|k: int| 0 <= k < then.len() && (#[trigger] then[k]).0 == p;
                        assert(after.contains_key(then[k].0));
                    }
                    if after.contains_key(p) {
                        let k = choose|k: int| 0 <= k < now.len() && (#[trigger] now[k]).0 == p;
                        assert(before.contains_key(now[k].0));
                    }
                }
                assert forall|p: Seq<char>| before.contains_key(p) implies before[p]
                    == after[p] by {
                    let k = choose|k: int| 0 <= k < now.len() && (#[trigger] now[k]).0 == p;
                    assert(before[now[k].0] == after[now[k].0]);
                }
                assert(before =~= after);
            }
            if before == after {
                assert forall|k: int| 0 <= k < now.len() implies before.contains_key(
                    (#[trigger] now[k]).0,
                ) && before[now[k].0] == after[now[k].0] by {
                    assert(names(now, now[k].0));
                }
                assert forall|k: int| 0 <= k < then.len() implies after.contains_key(
                    (#[trigger] then[k]).0,
                ) by {
                    assert(names(then, then[k].0));
                }
            }
        }
        let notify = self.primed && !(same && kept);
        self.primed = true;
        self.last_state = observed;
        notify
    }
}

/// Two looks in a row that see the same paths with the same times: the
/// second is not announced.
pub proof fn lemma_same_sightings_no_signal(
    state: ArtifactWatchView,
    first: Sightings,
    second: Sightings,
)
    requires
        as_map(first) == as_map(second),
    ensures
        !state.after(first).announces(second),
{
}

/// The first look is never announced.
pub proof fn lemma_first_look_is_silent(state: ArtifactWatchView, seen: Sightings)
    requires
        !state.primed,
    ensures
        !state.announces(seen),
        state.after(seen).primed,
{
}

} // verus!
