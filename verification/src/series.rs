//! Time series for the charts: samples of a metric over elapsed time,
//! thinned to one per refresh interval, and the scale of the memory axis.
//!
//! Elapsed time is in nanoseconds since the dashboard was entered.

use vstd::prelude::*;
use crate::info::CpuInfo;

verus! {

/// One point of a chart line. The value is whatever the chart plots; the
/// recorder only stores it.
#[derive(Debug, Clone, Copy, PartialEq)]
pub struct Sample<V> {
    pub elapsed: u64,
    pub value: V,
}

/// Each sample is later than the one before it.
pub open spec fn ascending<V>(samples: Seq<Sample<V>>) -> bool {
    forall|i: int, j: int|
        #![trigger samples[i], samples[j]]
        0 <= i < j < samples.len() ==> samples[i].elapsed < samples[j].elapsed
}

/// A sample taken at `elapsed` is recorded: it is the first of its
/// series, or more than `interval` has passed since the last recorded one.
pub open spec fn accepts<V>(samples: Seq<Sample<V>>, elapsed: u64, interval: u64) -> bool {
    samples.len() == 0 || elapsed - samples.last().elapsed > interval
}

/// The samples after an attempt to record one more.
pub open spec fn recorded<V>(samples: Seq<Sample<V>>, elapsed: u64, value: V, interval: u64) -> Seq<
    Sample<V>,
> {
    if accepts(samples, elapsed, interval) {
        samples.push(Sample { elapsed, value })
    } else {
        samples
    }
}

/// An append-only sequence of samples in ascending time.
pub struct Series<V> {
    samples: Vec<Sample<V>>,
}

impl<V> View for Series<V> {
    type V = Seq<Sample<V>>;

    closed spec fn view(&self) -> Seq<Sample<V>> {
        self.samples@
    }
}

impl<V> Series<V> {
    /// The samples are in ascending time. Every series that `new` and
    /// `record` produce is so.
    pub open spec fn wf(&self) -> bool {
        ascending(self@)
    }

    /// An empty series.
    pub fn new() -> (series: Series<V>)
        ensures
            series@ == Seq::<Sample<V>>::empty(),
            series.wf(),
    {
        Series { samples: Vec::new() }
    }

    /// Appends the sample if it is the first or comes more than
    /// `interval` after the last recorded one; drops it otherwise.
    pub fn record(&mut self, elapsed: u64, value: V, interval: u64) -> (taken: bool)
        requires
            old(self).wf(),
        ensures
            taken == accepts(old(self)@, elapsed, interval),
            final(self)@ == recorded(old(self)@, elapsed, value, interval),
            final(self).wf(),
    {
        let n = self.samples.len();
        let taken = if n == 0 {
            true
        } else {
            let last = self.samples[n - 1].elapsed;
            elapsed > last && elapsed - last > interval
        };
        if taken {
            let ghost before = self.samples@;
            self.samples.push(Sample { elapsed, value });
            assert forall|i: int, j: int|
                #![trigger self.samples@[i], self.samples@[j]]
                0 <= i < j < self.samples@.len() implies self.samples@[i].elapsed
                < self.samples@[j].elapsed by {
                if j < n {
                    assert(before[i].elapsed < before[j].elapsed);
                } else if i < n - 1 {
                    assert(before[i].elapsed < before[n - 1].elapsed);
                }
            }
        }
        taken
    }

    /// The recorded samples, oldest first.
    pub fn samples(&self) -> (samples: &Vec<Sample<V>>)
        ensures
            samples@ == self@,
    {
        &self.samples
    }

    /// Number of recorded samples.
    pub fn len(&self) -> (n: usize)
        ensures
            n == self@.len(),
    {
        self.samples.len()
    }
}

/// The identity of a chart line. A CPU core is known by its model and
/// manufacturer, not by its position in the list of cores, which may
/// change from one probe to the next.
#[derive(Debug)]
pub struct MetricKey {
    pub model: String,
    pub manufacturer: String,
}

impl View for MetricKey {
    type V = (Seq<char>, Seq<char>);

    open spec fn view(&self) -> (Seq<char>, Seq<char>) {
        (self.model@, self.manufacturer@)
    }
}

impl Clone for MetricKey {
    fn clone(&self) -> (copy: Self)
        ensures
            copy == *self,
    {
        MetricKey { model: self.model.clone(), manufacturer: self.manufacturer.clone() }
    }
}

impl MetricKey {
    pub fn new(model: String, manufacturer: String) -> (key: MetricKey)
        ensures
            key@ == (model@, manufacturer@),
    {
        MetricKey { model, manufacturer }
    }

    /// The key of a CPU core.
    pub fn of_core(core: &CpuInfo) -> (key: MetricKey)
        ensures
            key@ == (core.model@, core.manufacturer@),
    {
        MetricKey { model: core.model.clone(), manufacturer: core.manufacturer.clone() }
    }

    /// Whether two keys name the same line.
    pub fn same(&self, other: &MetricKey) -> (same: bool)
        ensures
            same == (self@ == other@),
    {
        self.model == other.model && self.manufacturer == other.manufacturer
    }
}

/// The series of every metric, each thinned to one sample per interval.
pub struct Recorder<V> {
    interval: u64,
    keys: Vec<MetricKey>,
    lines: Vec<Series<V>>,
}

impl<V> Recorder<V> {
    /// The thinning interval.
    pub closed spec fn interval(&self) -> u64 {
        self.interval
    }

    spec fn distinct(&self) -> bool {
        &&& self.keys@.len() == self.lines@.len()
        &&& forall|i: int, j: int|
            #![trigger self.keys@[i], self.keys@[j]]
            0 <= i < j < self.keys@.len() ==> self.keys@[i]@ != self.keys@[j]@
    }

    /// There is one series per key, no key occurs twice, and every series
    /// holds a sample and is in ascending time. Every recorder that `new`
    /// and `record` produce is so.
    pub closed spec fn wf(&self) -> bool {
        &&& self.distinct()
        &&& forall|i: int|
            0 <= i < self.lines@.len() ==> (#[trigger] self.lines@[i]).wf() && self.lines@[i]@.len()
                > 0
    }

    spec fn holds(&self, key: (Seq<char>, Seq<char>), i: int) -> bool {
        0 <= i < self.keys@.len() && self.keys@[i]@ == key
    }

    /// The samples recorded for `key`; none for a key never recorded.
    pub closed spec fn series_of(&self, key: (Seq<char>, Seq<char>)) -> Seq<Sample<V>> {
        if exists|i: int| self.holds(key, i) {
            self.lines@[choose|i: int| self.holds(key, i)]@
        } else {
            Seq::empty()
        }
    }

    proof fn lemma_series_at(&self, key: (Seq<char>, Seq<char>), i: int)
        requires
            self.distinct(),
            self.holds(key, i),
        ensures
            self.series_of(key) == self.lines@[i]@,
    {
        let chosen = choose|c: int| self.holds(key, c);
        assert(self.holds(key, chosen));
        if chosen < i {
            assert(self.keys@[chosen]@ != self.keys@[i]@);
        } else if chosen > i {
            assert(self.keys@[i]@ != self.keys@[chosen]@);
        }
    }

    /// A recorder without any series.
    pub fn new(interval: u64) -> (recorder: Recorder<V>)
        ensures
            recorder.wf(),
            recorder.interval() == interval,
            forall|key: (Seq<char>, Seq<char>)|
                #[trigger] recorder.series_of(key) == Seq::<Sample<V>>::empty(),
    {
        let recorder = Recorder { interval, keys: Vec::new(), lines: Vec::new() };
        assert forall|key: (Seq<char>, Seq<char>)| #[trigger]
            recorder.series_of(key) == Seq::<Sample<V>>::empty() by {
            assert forall|i: int| !recorder.holds(key, i) by {}
        }
        recorder
    }

    fn find(&self, key: &MetricKey) -> (found: Option<usize>)
        requires
            self.wf(),
        ensures
            match found {
                Some(i) => self.holds(key@, i as int) && self.series_of(key@) == self.lines@[i as int]@,
                None => (forall|i: int| !self.holds(key@, i)) && self.series_of(key@) == Seq::<
                    Sample<V>,
                >::empty(),
            },
    {
        let mut i: usize = 0;
        while i < self.keys.len()
            invariant
                self.wf(),
                i <= self.keys@.len(),
                forall|t: int| 0 <= t < i ==> !self.holds(key@, t),
            decreases self.keys@.len() - i,
        {
            if self.keys[i].same(key) {
                proof {
                    self.lemma_series_at(key@, i as int);
                }
                return Some(i);
            }
            i += 1;
        }
        assert forall|t: int| !self.holds(key@, t) by {}
        None
    }

    /// Records a sample for `key`: appends it if the series of the key is
    /// empty or more than the interval has passed since its last recorded
    /// sample, and drops it otherwise. No other series changes.
    pub fn record(&mut self, key: &MetricKey, elapsed: u64, value: V) -> (taken: bool)
        requires
            old(self).wf(),
        ensures
            final(self).wf(),
            final(self).interval() == old(self).interval(),
            taken == accepts(old(self).series_of(key@), elapsed, old(self).interval()),
            final(self).series_of(key@) == recorded(
                old(self).series_of(key@),
                elapsed,
                value,
                old(self).interval(),
            ),
            forall|other: (Seq<char>, Seq<char>)|
                other != key@ ==> #[trigger] final(self).series_of(other) == old(self).series_of(
                    other,
                ),
    {
        let found = self.find(key);
        let interval = self.interval;
        let ghost before = *self;
        match found {
            Some(i) => {
                let taken = self.lines[i].record(elapsed, value, interval);
                proof {
                    assert(self.keys@ == before.keys@);
                    assert(self.lines@.len() == before.lines@.len());
                    assert forall|t: int| 0 <= t < self.lines@.len() && t != i implies self.lines@[t]
                        == before.lines@[t] by {}
                    assert(self.distinct());
                    assert forall|t: int| 0 <= t < self.lines@.len() implies (
                    #[trigger] self.lines@[t]).wf() && self.lines@[t]@.len() > 0 by {
                        if t != i {
                            assert(before.lines@[t].wf());
                        }
                    }
                    self.lemma_series_at(key@, i as int);
                    assert forall|other: (Seq<char>, Seq<char>)| other != key@ implies #[trigger]
                        self.series_of(other) == before.series_of(other) by {
                        if exists|t: int| before.holds(other, t) {
                            let t = choose|t: int| before.holds(other, t);
                            assert(before.holds(other, t));
                            assert(self.holds(other, t));
                            before.lemma_series_at(other, t);
                            self.lemma_series_at(other, t);
                        } else {
                            assert forall|t: int| !self.holds(other, t) by {
                                assert(!before.holds(other, t));
                            }
                        }
                    }
                }
                taken
            },
            None => {
                let mut line: Series<V> = Series::new();
                let taken = line.record(elapsed, value, interval);
                self.keys.push(key.clone());
                self.lines.push(line);
                proof {
                    let n = before.keys@.len() as int;
                    assert(self.keys@[n]@ == key@);
                    assert forall|a: int, b: int|
                        #![trigger self.keys@[a], self.keys@[b]]
                        0 <= a < b < self.keys@.len() implies self.keys@[a]@ != self.keys@[b]@ by {
                        if b == n {
                            assert(!before.holds(key@, a));
                            assert(self.keys@[a] == before.keys@[a]);
                        } else {
                            assert(before.keys@[a]@ != before.keys@[b]@);
                        }
                    }
                    assert(self.distinct());
                    assert forall|t: int| 0 <= t < self.lines@.len() implies (
                    #[trigger] self.lines@[t]).wf() && self.lines@[t]@.len() > 0 by {
                        if t < n {
                            assert(before.lines@[t].wf());
                        }
                    }
                    assert(self.holds(key@, n));
                    self.lemma_series_at(key@, n);
                    assert forall|other: (Seq<char>, Seq<char>)| other != key@ implies #[trigger]
                        self.series_of(other) == before.series_of(other) by {
                        if exists|t: int| before.holds(other, t) {
                            let t = choose|t: int| before.holds(other, t);
                            assert(before.holds(other, t));
                            assert(self.keys@[t] == before.keys@[t]);
                            assert(self.holds(other, t));
                            before.lemma_series_at(other, t);
                            self.lemma_series_at(other, t);
                        } else {
                            assert forall|t: int| !self.holds(other, t) by {
                                if 0 <= t < n {
                                    assert(!before.holds(other, t));
                                    assert(self.keys@[t] == before.keys@[t]);
                                }
                            }
                        }
                    }
                }
                taken
            },
        }
    }

    /// The series of `key`, if anything has been recorded for it.
    pub fn series(&self, key: &MetricKey) -> (series: Option<&Series<V>>)
        requires
            self.wf(),
        ensures
            match series {
                Some(line) => line@ == self.series_of(key@) && line.wf() && line@.len() > 0,
                None => self.series_of(key@) == Seq::<Sample<V>>::empty(),
            },
    {
        match self.find(key) {
            Some(i) => Some(&self.lines[i]),
            None => None,
        }
    }

    /// The keys that have a series, in the order of their first sample.
    pub fn keys(&self) -> (keys: &Vec<MetricKey>)
        requires
            self.wf(),
        ensures
            forall|key: (Seq<char>, Seq<char>)|
                (exists|i: int| 0 <= i < keys@.len() && #[trigger] keys@[i]@ == key) <==> (
                #[trigger] self.series_of(key)).len() > 0,
            forall|i: int, j: int|
                #![trigger keys@[i], keys@[j]]
                0 <= i < j < keys@.len() ==> keys@[i]@ != keys@[j]@,
    {
        proof {
            assert forall|key: (Seq<char>, Seq<char>)|
                (exists|i: int| 0 <= i < self.keys@.len() && #[trigger] self.keys@[i]@ == key) <==> (
                #[trigger] self.series_of(key)).len() > 0 by {
                if exists|i: int| 0 <= i < self.keys@.len() && #[trigger] self.keys@[i]@ == key {
                    let i = choose|i: int| 0 <= i < self.keys@.len() && #[trigger] self.keys@[i]@ == key;
                    assert(self.holds(key, i));
                    self.lemma_series_at(key, i);
                    assert(self.lines@[i].wf());
                }
                if self.series_of(key).len() > 0 {
                    let i = choose|i: int| self.holds(key, i);
                    assert(self.holds(key, i));
                    assert(self.keys@[i]@ == key);
                }
            }
        }
        &self.keys
    }

    /// Whether nothing has been recorded yet.
    pub fn is_empty(&self) -> (empty: bool)
        requires
            self.wf(),
        ensures
            empty == (forall|key: (Seq<char>, Seq<char>)|
                (#[trigger] self.series_of(key)).len() == 0),
    {
        proof {
            if self.keys@.len() == 0 {
                assert forall|key: (Seq<char>, Seq<char>)| (#[trigger] self.series_of(key)).len()
                    == 0 by {
                    assert forall|i: int| !self.holds(key, i) by {}
                }
            } else {
                let key = self.keys@[0]@;
                assert(self.holds(key, 0));
                self.lemma_series_at(key, 0);
                assert(self.lines@[0].wf());
                assert(self.series_of(key).len() > 0);
            }
        }
        self.keys.len() == 0
    }
}

/// The scale of a memory axis: the total divided by a thousand, rounding
/// down, as often as it takes to drop below a thousand.
pub open spec fn axis_scale_of(total: nat) -> nat
    decreases total,
{
    if total < 1000 {
        total
    } else {
        axis_scale_of(total / 1000)
    }
}

/// A scale is below a thousand, and is zero only for a total of zero.
pub proof fn lemma_axis_scale_bounds(total: nat)
    ensures
        axis_scale_of(total) < 1000,
        axis_scale_of(total) == 0 <==> total == 0,
    decreases total,
{
    if total >= 1000 {
        lemma_axis_scale_bounds(total / 1000);
    }
}

/// Derives the scale of a memory axis from the total capacity in bytes.
pub fn axis_scale(total: u64) -> (scale: u64)
    ensures
        scale == axis_scale_of(total as nat),
        scale < 1000,
{
    let mut value = total;
    while value >= 1000
        invariant
            axis_scale_of(value as nat) == axis_scale_of(total as nat),
        decreases value,
    {
        value = value / 1000;
    }
    value
}

} // verus!
