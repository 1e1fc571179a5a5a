//! Latency metrics: one histogram per measured interval and the number of
//! batches recorded.

use hdrhistogram::{CreationError, Histogram, RecordError};
use std::time::Duration;
use vstd::multiset::Multiset;
use vstd::prelude::*;

verus! {

/// An `hdrhistogram::Histogram<u64>` of latency samples in microseconds,
/// created by `histogram_new` and changed only by `histogram_record`; its
/// contents are described by the `histogram_*` functions below. The
/// program reads quantiles from the public field.
#[verifier::external_body]
pub struct SampleHistogram {
    /// The underlying histogram, for reading quantiles.
    pub histogram: Histogram<u64>,
}

#[verifier::external_type_specification]
#[verifier::external_body]
pub struct ExCreationError(CreationError);

#[verifier::external_type_specification]
#[verifier::external_body]
pub struct ExRecordError(RecordError);

/// The samples a histogram holds, each at the histogram's resolution: a
/// sample stands as the lowest value of its bucket.
pub uninterp spec fn histogram_samples(h: SampleHistogram) -> Multiset<u64>;

/// The lowest value that the histogram counts together with `value`
/// (`Histogram::lowest_equivalent`).
pub uninterp spec fn histogram_lowest_equivalent(h: SampleHistogram, value: u64) -> u64;

/// Whether the histogram grows its range to fit each value it records.
pub uninterp spec fn histogram_auto_resize(h: SampleHistogram) -> bool;

/// Whether the histogram already has a bucket for `value`, so that it can
/// count `value` without growing (`Histogram::record` finds the bucket's
/// counter).
pub uninterp spec fn histogram_holds(h: SampleHistogram, value: u64) -> bool;

/// The significant decimal digits the histogram was made with
/// (`Histogram::sigfig`).
pub uninterp spec fn histogram_sigfig(h: SampleHistogram) -> u8;

/// Below this value a histogram made by `Histogram::new(sigfig)` (lowest
/// discernible value 1) counts every value in a bucket of its own: the
/// power of two at or above `2 * 10^sigfig`.
pub open spec fn exact_limit(sigfig: u8) -> u64 {
    if sigfig == 0 {
        2
    } else if sigfig == 1 {
        32
    } else if sigfig == 2 {
        256
    } else if sigfig == 3 {
        2048
    } else if sigfig == 4 {
        32768
    } else {
        262144
    }
}

/// The histogram's resolution and settings are those of `before`.
pub open spec fn same_resolution(before: SampleHistogram, after: SampleHistogram) -> bool {
    &&& histogram_auto_resize(after) == histogram_auto_resize(before)
    &&& histogram_sigfig(after) == histogram_sigfig(before)
    &&& forall|v: u64|
        #[trigger] histogram_lowest_equivalent(after, v) == histogram_lowest_equivalent(before, v)
}

/// The whole microseconds in a duration (`Duration::as_micros`).
pub uninterp spec fn duration_micros(d: Duration) -> u128;

/// `Histogram::<u64>::new`: builds an auto-resizing histogram with lowest
/// discernible value 1 and `sigfig` significant digits. The source fails
/// only on a `sigfig` above 5; the new histogram holds no samples, keeps
/// `sigfig` digits, and counts each value below `exact_limit(sigfig)` on
/// its own (bucket 0 holds one value per sub-bucket).
#[verifier::external_body]
fn histogram_new(sigfig: u8) -> (r: Result<SampleHistogram, CreationError>)
    ensures
        r is Ok <==> sigfig <= 5,
        r matches Ok(h) ==> {
            &&& histogram_samples(h) =~= Multiset::empty()
            &&& histogram_auto_resize(h)
            &&& histogram_sigfig(h) == sigfig
            &&& forall|v: u64| v < exact_limit(sigfig) ==> #[trigger] histogram_lowest_equivalent(h, v) == v
        },
{
    Histogram::<u64>::new(sigfig).map(|histogram| SampleHistogram { histogram })
}

/// `Histogram::record`: adds one sample of `value`, counted in the bucket
/// whose lowest value is `lowest_equivalent(value)`. It succeeds exactly when
/// the histogram already has that bucket or grows to fit it (an
/// auto-resizing histogram always does); a failed call leaves the histogram
/// as it was. Growing only adds buckets: the settings and the
/// value-to-bucket mapping stay. A bucket's count saturates at `u64::MAX`,
/// so the sample is stated only while fewer samples than that are held.
#[verifier::external_body]
fn histogram_record(h: &mut SampleHistogram, value: u64) -> (r: Result<(), RecordError>)
    ensures
        same_resolution(*old(h), *final(h)),
        r is Ok <==> histogram_auto_resize(*old(h)) || histogram_holds(*old(h), value),
        r is Err ==> *final(h) == *old(h),
        r is Ok && histogram_samples(*old(h)).len() < u64::MAX ==> histogram_samples(*final(h))
            == histogram_samples(*old(h)).insert(histogram_lowest_equivalent(*old(h), value)),
{
    h.histogram.record(value)
}

/// `Duration::as_micros`: the whole microseconds the duration holds.
#[verifier::external_body]
fn duration_as_micros(d: &Duration) -> (micros: u128)
    ensures
        micros == duration_micros(*d),
{
    d.as_micros()
}

/// Significant decimal digits each histogram keeps.
pub const SIGNIFICANT_DIGITS: u8 = 3;

/// `micros` clamped to the largest `u64`.
pub open spec fn saturate_micros(micros: u128) -> u64 {
    if micros > u64::MAX as u128 {
        u64::MAX
    } else {
        micros as u64
    }
}

/// The microseconds in `d`, clamped to the largest `u64`.
pub open spec fn duration_sample(d: Duration) -> u64 {
    saturate_micros(duration_micros(d))
}

/// A histogram holds `count` samples and keeps growing to fit new ones.
pub open spec fn tracks(h: SampleHistogram, count: u64) -> bool {
    &&& histogram_samples(h).len() == count
    &&& histogram_auto_resize(h)
}

/// `h` after one more sample of `value` than `before`.
pub open spec fn recorded_one(before: SampleHistogram, after: SampleHistogram, value: u64) -> bool {
    histogram_samples(after) == histogram_samples(before).insert(
        histogram_lowest_equivalent(before, value),
    )
}

/// Whether recording `value` into `h` succeeds: `h` grows, or already has
/// the value's bucket.
pub open spec fn accepts(h: SampleHistogram, value: u64) -> bool {
    histogram_auto_resize(h) || histogram_holds(h, value)
}

/// What recording `value` into `before` gives: the resolution stays; a
/// histogram that accepts the value gains the sample (stated while fewer
/// than `u64::MAX` samples are held), and any other stays as it was.
pub open spec fn record_outcome(before: SampleHistogram, after: SampleHistogram, value: u64) -> bool {
    &&& same_resolution(before, after)
    &&& accepts(before, value) && histogram_samples(before).len() < u64::MAX ==> recorded_one(
        before,
        after,
        value,
    )
    &&& !accepts(before, value) ==> after == before
}

/// Clamps a microsecond count to the largest `u64`.
pub fn micros_saturating(micros: u128) -> (m: u64)
    ensures
        m == saturate_micros(micros),
{
    if micros > u64::MAX as u128 {
        u64::MAX
    } else {
        micros as u64
    }
}

/// Latency histograms of the batches the pipeline completed.
pub struct Metrics {
    /// Time a worker waited for its next batch.
    pub schedule_delay: SampleHistogram,
    /// Time a worker spent on jitter and batch execution.
    pub execute: SampleHistogram,
    /// Time from production of a batch to its completion.
    pub end_to_end: SampleHistogram,
    /// Number of batches recorded.
    pub count: u64,
}

/// A histogram fresh from `Histogram::new(SIGNIFICANT_DIGITS)`: it keeps
/// that many digits and counts each value below `exact_limit` on its own.
pub open spec fn made_with_precision(h: SampleHistogram) -> bool {
    &&& histogram_sigfig(h) == SIGNIFICANT_DIGITS
    &&& forall|v: u64|
        v < exact_limit(SIGNIFICANT_DIGITS) ==> #[trigger] histogram_lowest_equivalent(h, v) == v
}

/// `after` is `before` with one more batch recorded, whose intervals in
/// microseconds are `schedule_delay`, `execute` and `end_to_end`: the count
/// grows by one, each histogram that accepts its sample gains it and any
/// other stays as it was, and metrics whose histograms held one sample per
/// batch still do.
pub open spec fn recorded_batch(
    before: Metrics,
    after: Metrics,
    schedule_delay: u64,
    execute: u64,
    end_to_end: u64,
) -> bool {
    &&& after.count == before.count + 1
    &&& record_outcome(before.schedule_delay, after.schedule_delay, schedule_delay)
    &&& record_outcome(before.execute, after.execute, execute)
    &&& record_outcome(before.end_to_end, after.end_to_end, end_to_end)
    &&& before.wf() ==> {
        &&& after.wf()
        &&& recorded_one(before.schedule_delay, after.schedule_delay, schedule_delay)
        &&& recorded_one(before.execute, after.execute, execute)
        &&& recorded_one(before.end_to_end, after.end_to_end, end_to_end)
    }
}

impl Metrics {
    /// Each histogram holds one sample per recorded batch and keeps growing
    /// to fit new ones.
    pub open spec fn wf(&self) -> bool {
        &&& tracks(self.schedule_delay, self.count)
        &&& tracks(self.execute, self.count)
        &&& tracks(self.end_to_end, self.count)
    }

    fn new_histogram() -> (h: SampleHistogram)
        ensures
            tracks(h, 0),
            made_with_precision(h),
    {
        histogram_new(SIGNIFICANT_DIGITS).unwrap()
    }

    /// Empty metrics: no batch recorded, each histogram keeping
    /// `SIGNIFICANT_DIGITS` significant digits.
    pub fn new() -> (m: Self)
        ensures
            m.wf(),
            m.count == 0,
            made_with_precision(m.schedule_delay),
            made_with_precision(m.execute),
            made_with_precision(m.end_to_end),
    {
        Metrics {
            schedule_delay: Self::new_histogram(),
            execute: Self::new_histogram(),
            end_to_end: Self::new_histogram(),
            count: 0,
        }
    }

    /// Records one batch whose intervals are given in microseconds. A
    /// histogram that cannot take its sample is left as it was; the batch is
    /// counted either way.
    pub fn record_micros(&mut self, schedule_delay: u64, execute: u64, end_to_end: u64)
        requires
            old(self).count < u64::MAX,
        ensures
            recorded_batch(*old(self), *final(self), schedule_delay, execute, end_to_end),
    {
        let _ = histogram_record(&mut self.schedule_delay, schedule_delay);
        let _ = histogram_record(&mut self.execute, execute);
        let _ = histogram_record(&mut self.end_to_end, end_to_end);
        self.count = self.count + 1;
    }

    /// Records one batch: each interval in whole microseconds, clamped to
    /// the largest `u64`.
    pub fn record(&mut self, schedule_delay: Duration, execute: Duration, end_to_end: Duration)
        requires
            old(self).count < u64::MAX,
        ensures
            recorded_batch(
                *old(self),
                *final(self),
                duration_sample(schedule_delay),
                duration_sample(execute),
                duration_sample(end_to_end),
            ),
    {
        let sd = micros_saturating(duration_as_micros(&schedule_delay));
        let ex = micros_saturating(duration_as_micros(&execute));
        let e2e = micros_saturating(duration_as_micros(&end_to_end));
        self.record_micros(sd, ex, e2e);
    }
}

} // verus!
