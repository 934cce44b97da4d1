use vstd::prelude::*;
use vstd::multiset::Multiset;

use crate::classify::{Verdict, count_passes, count_fails, lemma_counts_sum};
use crate::error::InquisitorError;

verus! {

/// Highest latency, in microseconds, that a run's histogram tracks.
pub const MAX_TRACKED_LATENCY_US: u64 = 1_000_000_000_000;

/// Significant decimal digits that a run's histogram keeps.
pub const LATENCY_SIGFIG: u8 = 3;

/// A histogram of latencies in microseconds, kept by `hdrhistogram`: counts
/// per bucket at a fixed number of significant digits, with the exact least
/// and greatest values recorded.
#[verifier::external_body]
pub struct LatencyHistogram {
    pub histogram: hdrhistogram::Histogram<u64>,
}

#[verifier::external_type_specification]
#[verifier::external_body]
pub struct ExCreationError(hdrhistogram::CreationError);

#[verifier::external_type_specification]
#[verifier::external_body]
pub struct ExRecordError(hdrhistogram::RecordError);

/// The values passed to a histogram's `record` and accepted, since it was
/// built: a record of the values given, not of what its buckets store.
pub uninterp spec fn recorded_latencies(h: LatencyHistogram) -> Multiset<u64>;

/// The highest value that a histogram tracks.
pub uninterp spec fn trackable_limit(h: LatencyHistogram) -> u64;

/// The number of significant decimal digits a histogram was built with.
pub uninterp spec fn significant_digits(h: LatencyHistogram) -> u8;

/// Relies on `Histogram::new_with_max`: with a lowest value of 1 it fails only
/// where `high < 2` or `sigfig > 5`; a new histogram holds no values, tracks
/// values up to `high`, and keeps `sigfig` significant digits.
#[verifier::external_body]
fn new_histogram(high: u64, sigfig: u8) -> (r: Result<
    LatencyHistogram,
    hdrhistogram::CreationError,
>)
    ensures
        2 <= high && sigfig <= 5 ==> r is Ok,
        r matches Ok(h) ==> recorded_latencies(h) =~= Multiset::empty() && trackable_limit(h)
            == high && significant_digits(h) == sigfig,
{
    match hdrhistogram::Histogram::<u64>::new_with_max(high, sigfig) {
        Ok(histogram) => Ok(LatencyHistogram { histogram }),
        Err(e) => Err(e),
    }
}

/// Relies on `Histogram::record`: a value up to the highest trackable one is
/// always recorded; a failed recording leaves the histogram as it was; the
/// highest trackable value never shrinks; the significant digits stay.
#[verifier::external_body]
fn histogram_record(h: &mut LatencyHistogram, value: u64) -> (r: Result<
    (),
    hdrhistogram::RecordError,
>)
    ensures
        value <= trackable_limit(*old(h)) ==> r is Ok,
        r is Ok ==> recorded_latencies(*final(h)) =~= recorded_latencies(*old(h)).insert(value),
        r is Ok ==> trackable_limit(*final(h)) >= trackable_limit(*old(h)),
        r is Ok ==> significant_digits(*final(h)) == significant_digits(*old(h)),
        r is Err ==> *final(h) == *old(h),
{
    h.histogram.record(value)
}

/// Relies on `Histogram::min`: 0 where 0 was recorded, and otherwise the
/// lowest value equivalent to the least recorded value. So no recorded value
/// is below it, and at 3 significant digits (buckets of width `2^k` starting
/// at or above `1024 * 2^k`) some recorded value, the least, is within
/// `r / 1024` above it.
#[verifier::external_body]
fn histogram_min(h: &LatencyHistogram) -> (r: u64)
    ensures
        forall|v: u64| #[trigger] recorded_latencies(*h).contains(v) ==> r <= v,
        significant_digits(*h) == 3 && recorded_latencies(*h).len() > 0 ==> !(forall|v: u64|
            #[trigger] recorded_latencies(*h).contains(v) ==> r + r / 1024 < v),
{
    h.histogram.min()
}

/// Relies on `Histogram::max`: the highest value equivalent to the greatest
/// recorded value (0 where only 0 was recorded). So no recorded value is above
/// it, and at 3 significant digits some recorded value `v`, the greatest, is
/// at most `v / 1024` below it.
#[verifier::external_body]
fn histogram_max(h: &LatencyHistogram) -> (r: u64)
    ensures
        forall|v: u64| #[trigger] recorded_latencies(*h).contains(v) ==> v <= r,
        significant_digits(*h) == 3 && recorded_latencies(*h).len() > 0 ==> !(forall|v: u64|
            #[trigger] recorded_latencies(*h).contains(v) ==> v + v / 1024 < r),
{
    h.histogram.max()
}

/// The shared state of a run: how many requests passed and failed, and the
/// latency of each, in microseconds.
pub struct Metrics {
    passes: usize,
    errors: usize,
    latencies: LatencyHistogram,
    outcomes: Ghost<Seq<Verdict>>,
}

impl Metrics {
    /// The verdicts recorded so far, in order.
    pub closed spec fn outcomes(&self) -> Seq<Verdict> {
        self.outcomes@
    }

    /// The latencies recorded so far.
    pub closed spec fn samples(&self) -> Multiset<u64> {
        recorded_latencies(self.latencies)
    }

    /// The highest latency that can still be recorded.
    pub closed spec fn limit(&self) -> u64 {
        trackable_limit(self.latencies)
    }

    /// Well-formedness: the counters agree with the recorded verdicts, and each
    /// verdict has its latency sample.
    pub closed spec fn wf(&self) -> bool {
        &&& self.passes == count_passes(self.outcomes@)
        &&& self.errors == count_fails(self.outcomes@)
        &&& self.outcomes@.len() <= usize::MAX
        &&& recorded_latencies(self.latencies).len() == self.outcomes@.len()
        &&& trackable_limit(self.latencies) >= MAX_TRACKED_LATENCY_US
        &&& significant_digits(self.latencies) == LATENCY_SIGFIG
    }

    /// Empty metrics, with a histogram that tracks latencies up to
    /// `MAX_TRACKED_LATENCY_US`.
    pub fn new() -> (r: Result<Metrics, InquisitorError>)
        ensures
            r is Ok,
            r matches Ok(m) ==> m.wf() && m.outcomes() == Seq::<Verdict>::empty() && m.samples()
                =~= Multiset::<u64>::empty() && m.limit() == MAX_TRACKED_LATENCY_US,
            r matches Err(e) ==> e == InquisitorError::HistogramCreation,
    {
        match new_histogram(MAX_TRACKED_LATENCY_US, LATENCY_SIGFIG) {
            Ok(h) => {
                proof {
                    assert(count_passes(Seq::<Verdict>::empty()) == 0);
                    assert(count_fails(Seq::<Verdict>::empty()) == 0);
                }
                Ok(Metrics { passes: 0, errors: 0, latencies: h, outcomes: Ghost(Seq::empty()) })
            },
            Err(_) => Err(InquisitorError::HistogramCreation),
        }
    }

    /// The number of passes.
    pub fn passes(&self) -> (r: usize)
        requires
            self.wf(),
        ensures
            r == count_passes(self.outcomes()),
    {
        self.passes
    }

    /// The number of failures.
    pub fn errors(&self) -> (r: usize)
        requires
            self.wf(),
        ensures
            r == count_fails(self.outcomes()),
    {
        self.errors
    }

    /// The number of requests recorded, passes and failures together.
    pub fn total(&self) -> (r: usize)
        requires
            self.wf(),
        ensures
            r == self.outcomes().len(),
            r == self.samples().len(),
    {
        proof {
            lemma_counts_sum(self.outcomes@);
        }
        self.passes + self.errors
    }

    /// Records one request: its latency and its verdict. Fails, changing
    /// nothing, where the latency exceeds `MAX_TRACKED_LATENCY_US`, or else where
    /// the count of requests is already `usize::MAX`.
    pub fn record(&mut self, latency_us: u64, verdict: Verdict) -> (r: Result<(), InquisitorError>)
        requires
            old(self).wf(),
        ensures
            final(self).wf(),
            r is Ok ==> final(self).outcomes() == old(self).outcomes().push(verdict)
                && final(self).samples() =~= old(self).samples().insert(latency_us),
            r is Err ==> final(self).outcomes() == old(self).outcomes() && final(self).samples()
                == old(self).samples(),
            r == Err::<(), InquisitorError>(InquisitorError::LatencyOutOfRange)
                <==> latency_us > MAX_TRACKED_LATENCY_US,
            r == Err::<(), InquisitorError>(InquisitorError::CounterOverflow)
                <==> latency_us <= MAX_TRACKED_LATENCY_US && old(self).outcomes().len() == usize::MAX,
            r is Ok <==> latency_us <= MAX_TRACKED_LATENCY_US && old(self).outcomes().len()
                < usize::MAX,
    {
        if latency_us > MAX_TRACKED_LATENCY_US {
            return Err(InquisitorError::LatencyOutOfRange);
        }
        proof {
            lemma_counts_sum(self.outcomes@);
        }
        if self.passes + self.errors == usize::MAX {
            return Err(InquisitorError::CounterOverflow);
        }
        match histogram_record(&mut self.latencies, latency_us) {
            Ok(()) => {},
            Err(_) => {
                // Unreachable: the latency is within the histogram's limit.
                return Err(InquisitorError::LatencyOutOfRange);
            },
        }
        let ghost prev = self.outcomes@;
        proof {
            assert(prev.push(verdict).drop_last() == prev);
        }
        match verdict {
            Verdict::Pass => {
                self.passes = self.passes + 1;
            },
            Verdict::Fail => {
                self.errors = self.errors + 1;
            },
        }
        self.outcomes = Ghost(prev.push(verdict));
        Ok(())
    }

    /// The lowest and highest recorded latencies, as the histogram reports
    /// them at its resolution: every recorded latency lies between the two, the
    /// least recorded latency is within `r.0 / 1024` above `r.0`, and the
    /// greatest, `v`, is within `v / 1024` below `r.1`.
    pub fn latency_bounds(&self) -> (r: (u64, u64))
        requires
            self.wf(),
        ensures
            forall|v: u64| #[trigger]
                self.samples().contains(v) ==> r.0 <= v && v <= r.1,
            self.samples().len() > 0 ==> exists|v: u64| #[trigger]
                self.samples().contains(v) && r.0 <= v && v <= r.0 + r.0 / 1024,
            self.samples().len() > 0 ==> exists|v: u64| #[trigger]
                self.samples().contains(v) && v <= r.1 && r.1 <= v + v / 1024,
    {
        (histogram_min(&self.latencies), histogram_max(&self.latencies))
    }

    /// The latency histogram, for its summary statistics.
    pub fn latencies(&self) -> (r: &LatencyHistogram)
        requires
            self.wf(),
        ensures
            recorded_latencies(*r) == self.samples(),
    {
        &self.latencies
    }
}

} // verus!
