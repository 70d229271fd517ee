//! When to ask the platform again: a per-category refresh gate, and the
//! cache of the latest snapshot that it guards.
//!
//! Instants are nanoseconds on a monotonic clock.

use vstd::prelude::*;

verus! {

/// The refresh interval of the fast categories: one second.
pub const INTERVAL: u64 = 1_000_000_000;

/// Decides whether a category is stale.
#[derive(Debug, Clone, Copy, PartialEq, Eq, Structural)]
pub struct RefreshGate {
    pub last_fetched_at: Option<u64>,
    pub interval: u64,
}

impl RefreshGate {
    /// A gate that has never let a fetch through.
    pub open spec fn unused(interval: u64) -> RefreshGate {
        RefreshGate { last_fetched_at: None, interval }
    }

    /// A gate that has never let a fetch through.
    pub fn new(interval: u64) -> (gate: RefreshGate)
        ensures
            gate == RefreshGate::unused(interval),
    {
        RefreshGate { last_fetched_at: None, interval }
    }

    /// A fetch is due at `now`: there has been none yet, or more than the
    /// interval has passed since the last one.
    pub open spec fn is_due(self, now: u64) -> bool {
        match self.last_fetched_at {
            None => true,
            Some(last) => now - last > self.interval,
        }
    }

    /// This gate once a fetch has passed it at `now`.
    pub open spec fn marked(self, now: u64) -> RefreshGate {
        RefreshGate { last_fetched_at: Some(now), interval: self.interval }
    }

    /// Whether a fetch is due at `now`.
    pub fn due(&self, now: u64) -> (due: bool)
        ensures
            due == self.is_due(now),
    {
        match self.last_fetched_at {
            None => true,
            Some(last) => now > last && now - last > self.interval,
        }
    }

    /// Lets a fetch through if one is due, and remembers when.
    pub fn pass(&mut self, now: u64) -> (due: bool)
        ensures
            due == old(self).is_due(now),
            *final(self) == if due {
                old(self).marked(now)
            } else {
                *old(self)
            },
    {
        let due = self.due(now);
        if due {
            self.last_fetched_at = Some(now);
        }
        due
    }
}

/// The most recent result of one category, with a refresh gate that decides
/// when it is fetched again. A result of `None` is a category that the
/// platform does not support, or a probe that failed.
pub struct SnapshotCache<T> {
    pub gate: RefreshGate,
    pub value: Option<T>,
}

impl<T> SnapshotCache<T> {
    /// An empty cache: the first `get` fetches.
    pub fn new(interval: u64) -> (cache: SnapshotCache<T>)
        ensures
            cache.gate == RefreshGate::unused(interval),
            cache.value is None,
            forall|now: u64| cache.gate.is_due(now),
    {
        SnapshotCache { gate: RefreshGate::new(interval), value: None }
    }

    /// The cache after a `get` at `now` whose probe, if it is asked,
    /// answers `probed`.
    pub open spec fn after_get(self, now: u64, probed: Option<T>) -> SnapshotCache<T> {
        if self.gate.is_due(now) {
            SnapshotCache { gate: self.gate.marked(now), value: probed }
        } else {
            self
        }
    }

    /// The latest value, fetched anew when it is stale. The probe is asked
    /// only when a fetch is due; what it answers is stored with the time
    /// and returned. Otherwise the cached value is returned and nothing
    /// changes.
    pub fn get<F: FnOnce() -> Option<T>>(&mut self, now: u64, probe: F) -> (value: &Option<T>)
        requires
            old(self).gate.is_due(now) ==> probe.requires(()),
        ensures
            *value == final(self).value,
            !old(self).gate.is_due(now) ==> *final(self) == *old(self),
            old(self).gate.is_due(now) ==> probe.ensures((), final(self).value) && final(self).gate
                == old(self).gate.marked(now),
            *final(self) == old(self).after_get(now, final(self).value),
    {
        if self.gate.pass(now) {
            self.value = probe();
        }
        &self.value
    }

    /// Whether the next `get` at `now` would ask the probe.
    pub fn is_stale(&self, now: u64) -> (stale: bool)
        ensures
            stale == self.gate.is_due(now),
    {
        self.gate.due(now)
    }

    /// Stores what a probe answered at `now`, if a fetch was due then;
    /// says whether it was.
    pub fn store(&mut self, now: u64, probed: Option<T>) -> (stored: bool)
        ensures
            stored == old(self).gate.is_due(now),
            *final(self) == old(self).after_get(now, probed),
    {
        if self.gate.pass(now) {
            self.value = probed;
            true
        } else {
            false
        }
    }

    /// The cached value, without fetching.
    pub fn latest(&self) -> (value: &Option<T>)
        ensures
            *value == self.value,
    {
        &self.value
    }
}

/// Right after a fetch nothing is due until more than the interval has
/// passed.
pub proof fn lemma_fresh_within_interval(gate: RefreshGate, fetched_at: u64, now: u64)
    requires
        now - fetched_at <= gate.interval,
    ensures
        !gate.marked(fetched_at).is_due(now),
{
}

/// Two `get` calls within the refresh interval return the same cached
/// value, whatever their probes would have answered, and leave the cache
/// as it was.
pub proof fn lemma_get_is_debounced<T>(
    cache: SnapshotCache<T>,
    first: u64,
    second: u64,
    first_probed: Option<T>,
    second_probed: Option<T>,
)
    requires
        !cache.gate.is_due(first),
        !cache.gate.is_due(second),
    ensures
        cache.after_get(first, first_probed) == cache,
        cache.after_get(first, first_probed).after_get(second, second_probed) == cache,
        cache.after_get(first, first_probed).value == cache.after_get(first, first_probed).after_get(
            second,
            second_probed,
        ).value,
{
}

/// A `get` that follows a fetch by no more than the interval returns what
/// that fetch stored.
pub proof fn lemma_get_after_fetch<T>(
    cache: SnapshotCache<T>,
    fetched_at: u64,
    now: u64,
    fetched: Option<T>,
    probed: Option<T>,
)
    requires
        cache.gate.is_due(fetched_at),
        now - fetched_at <= cache.gate.interval,
    ensures
        cache.after_get(fetched_at, fetched).value == fetched,
        cache.after_get(fetched_at, fetched).after_get(now, probed) == cache.after_get(
            fetched_at,
            fetched,
        ),
{
}

/// The time of the last fetch never goes back.
pub proof fn lemma_fetch_times_ascend<T>(cache: SnapshotCache<T>, now: u64, probed: Option<T>)
    ensures
        match (cache.gate.last_fetched_at, cache.after_get(now, probed).gate.last_fetched_at) {
            (Some(earlier), Some(later)) => earlier <= later,
            (Some(_), None) => false,
            (None, _) => true,
        },
{
}

} // verus!
