use vstd::prelude::*;

verus! {

/// Samples earlier than this many seconds into the activity are warm-up
/// and never scored.
pub const WARM_UP_LIMIT: i16 = 900;

/// End (exclusive) of the first scored segment, in seconds.
pub const FIRST_SEGMENT_LIMIT: i16 = 2700;

/// End (exclusive) of the second scored segment, in seconds.
pub const LAST_SEGMENT_LIMIT: i16 = 4500;

#[derive(Clone, Copy, PartialEq, Eq, Structural, Debug)]
pub enum HeartRateDriftError {
    NotEnoughSamples,
}

/// One heart-rate reading, paired with its offset in seconds from the start
/// of the activity.
#[derive(Clone, Copy, PartialEq, Eq, Structural, Debug)]
pub struct HeartRateAtTime {
    pub heart_rate: i16,
    pub time: i16,
}

/// The exact aggregates of the two scored segments.  The drift percentage is
/// the rational number `drift_numerator(..) / drift_denominator(..)` over
/// these four components; the components are returned exactly so that no
/// rounding is baked into the library.
#[derive(Clone, Copy, PartialEq, Eq, Structural, Debug)]
pub struct DriftComponents {
    pub first_sum: i128,
    pub first_count: usize,
    pub second_sum: i128,
    pub second_count: usize,
}

pub open spec fn in_first_segment(s: HeartRateAtTime) -> bool {
    WARM_UP_LIMIT <= s.time < FIRST_SEGMENT_LIMIT
}

pub open spec fn in_second_segment(s: HeartRateAtTime) -> bool {
    FIRST_SEGMENT_LIMIT <= s.time < LAST_SEGMENT_LIMIT
}

/// The subsequence of samples falling in the first scored segment, in order.
pub open spec fn first_segment_of(s: Seq<HeartRateAtTime>) -> Seq<HeartRateAtTime>
    decreases s.len(),
{
    if s.len() == 0 {
        Seq::empty()
    } else if in_first_segment(s.last()) {
        first_segment_of(s.drop_last()).push(s.last())
    } else {
        first_segment_of(s.drop_last())
    }
}

/// The subsequence of samples falling in the second scored segment, in order.
pub open spec fn second_segment_of(s: Seq<HeartRateAtTime>) -> Seq<HeartRateAtTime>
    decreases s.len(),
{
    if s.len() == 0 {
        Seq::empty()
    } else if in_second_segment(s.last()) {
        second_segment_of(s.drop_last()).push(s.last())
    } else {
        second_segment_of(s.drop_last())
    }
}

pub open spec fn sum_rates(s: Seq<HeartRateAtTime>) -> int
    decreases s.len(),
{
    if s.len() == 0 {
        0
    } else {
        sum_rates(s.drop_last()) + s.last().heart_rate
    }
}

/// What the drift computation returns on a sample sequence: an error when a
/// scored segment is empty, otherwise the sum and count of each segment.
pub open spec fn spec_drift(s: Seq<HeartRateAtTime>) -> Result<(int, int, int, int), HeartRateDriftError> {
    let first = first_segment_of(s);
    let second = second_segment_of(s);
    if first.len() == 0 || second.len() == 0 {
        Err(HeartRateDriftError::NotEnoughSamples)
    } else {
        Ok((sum_rates(first), first.len() as int, sum_rates(second), second.len() as int))
    }
}

/// Numerator of the drift percentage `(mean2 - mean1) / mean1 * 100` written
/// as a single rational over the segment aggregates.
pub open spec fn drift_numerator(first_sum: int, first_count: int, second_sum: int, second_count: int) -> int {
    100 * (second_sum * first_count - first_sum * second_count)
}

/// Denominator of the drift percentage as a rational over the aggregates.
pub open spec fn drift_denominator(first_sum: int, second_count: int) -> int {
    first_sum * second_count
}

/// The exec result agrees with `spec_drift` on the given sample sequence.
pub open spec fn drift_result_matches(r: Result<DriftComponents, HeartRateDriftError>, s: Seq<HeartRateAtTime>) -> bool {
    match spec_drift(s) {
        Err(e) => r == Err::<DriftComponents, HeartRateDriftError>(e),
        Ok(t) => match r {
            Ok(d) => d.first_sum == t.0 && d.first_count == t.1 && d.second_sum == t.2
                && d.second_count == t.3,
            Err(_) => false,
        },
    }
}

/// Positional pairing of rates and times; the shorter sequence governs.
pub open spec fn combined(rates: Seq<i16>, times: Seq<i16>) -> Seq<HeartRateAtTime> {
    let n = if rates.len() <= times.len() { rates.len() } else { times.len() };
    Seq::new(n, |i: int| HeartRateAtTime { heart_rate: rates[i], time: times[i] })
}

/// Pairs rates and times by position.  The two sequences are expected to have
/// equal length; if they differ the shorter length governs.
pub fn combine_hr_with_time(heart_rates: &Vec<i16>, times: &Vec<i16>) -> (r: Vec<HeartRateAtTime>)
    ensures
        r@ == combined(heart_rates@, times@),
{
    let n: usize = if heart_rates.len() <= times.len() { heart_rates.len() } else { times.len() };
    let mut out: Vec<HeartRateAtTime> = Vec::new();
    let mut i: usize = 0;
    while i < n
        invariant
            i <= n,
            n == combined(heart_rates@, times@).len(),
            n <= heart_rates@.len() && n <= times@.len(),
            out@.len() == i as int,
            forall|j: int| 0 <= j < i as int ==> out@[j] == combined(heart_rates@, times@)[j],
        decreases n - i,
    {
        out.push(HeartRateAtTime { heart_rate: heart_rates[i], time: times[i] });
        i = i + 1;
    }
    proof {
        assert(out@ =~= combined(heart_rates@, times@));
    }
    out
}

fn collect_first_segment(samples: &Vec<HeartRateAtTime>) -> (r: Vec<HeartRateAtTime>)
    ensures
        r@ == first_segment_of(samples@),
{
    let mut out: Vec<HeartRateAtTime> = Vec::new();
    let mut i: usize = 0;
    while i < samples.len()
        invariant
            i <= samples@.len(),
            out@ == first_segment_of(samples@.take(i as int)),
        decreases samples@.len() - i,
    {
        let s = samples[i];
        proof {
            assert(samples@.take(i + 1).drop_last() =~= samples@.take(i as int));
            assert(samples@.take(i + 1).last() == samples@[i as int]);
        }
        if s.time >= WARM_UP_LIMIT && s.time < FIRST_SEGMENT_LIMIT {
            out.push(s);
        }
        i = i + 1;
    }
    proof {
        assert(samples@.take(samples@.len() as int) =~= samples@);
    }
    out
}

fn collect_second_segment(samples: &Vec<HeartRateAtTime>) -> (r: Vec<HeartRateAtTime>)
    ensures
        r@ == second_segment_of(samples@),
{
    let mut out: Vec<HeartRateAtTime> = Vec::new();
    let mut i: usize = 0;
    while i < samples.len()
        invariant
            i <= samples@.len(),
            out@ == second_segment_of(samples@.take(i as int)),
        decreases samples@.len() - i,
    {
        let s = samples[i];
        proof {
            assert(samples@.take(i + 1).drop_last() =~= samples@.take(i as int));
            assert(samples@.take(i + 1).last() == samples@[i as int]);
        }
        if s.time >= FIRST_SEGMENT_LIMIT && s.time < LAST_SEGMENT_LIMIT {
            out.push(s);
        }
        i = i + 1;
    }
    proof {
        assert(samples@.take(samples@.len() as int) =~= samples@);
    }
    out
}

fn sum_heart_rates(seg: &Vec<HeartRateAtTime>) -> (r: i128)
    ensures
        r == sum_rates(seg@),
{
    let mut total: i128 = 0;
    let mut i: usize = 0;
    while i < seg.len()
        invariant
            i <= seg@.len(),
            total == sum_rates(seg@.take(i as int)),
            -32768 * (i as int) <= total <= 32767 * (i as int),
        decreases seg@.len() - i,
    {
        proof {
            assert(seg@.take(i + 1).drop_last() =~= seg@.take(i as int));
            assert(seg@.take(i + 1).last() == seg@[i as int]);
        }
        total = total + seg[i].heart_rate as i128;
        i = i + 1;
    }
    proof {
        assert(seg@.take(seg@.len() as int) =~= seg@);
    }
    total
}

/// Computes the exact segment aggregates of the drift calculation: the warm-up
/// window is discarded, each scored segment must hold at least one sample, and
/// the sum and count of each segment are returned exactly.
pub fn heart_rate_drift(samples: &Vec<HeartRateAtTime>) -> (r: Result<DriftComponents, HeartRateDriftError>)
    ensures
        drift_result_matches(r, samples@),
{
    let first = collect_first_segment(samples);
    let second = collect_second_segment(samples);
    if first.len() == 0 || second.len() == 0 {
        Err(HeartRateDriftError::NotEnoughSamples)
    } else {
        let first_sum = sum_heart_rates(&first);
        let second_sum = sum_heart_rates(&second);
        Ok(DriftComponents {
            first_sum,
            first_count: first.len(),
            second_sum,
            second_count: second.len(),
        })
    }
}

proof fn lemma_segments_empty_when_warm_up_only(s: Seq<HeartRateAtTime>)
    requires
        forall|i: int| 0 <= i < s.len() ==> s[i].time < WARM_UP_LIMIT,
    ensures
        first_segment_of(s).len() == 0,
        second_segment_of(s).len() == 0,
    decreases s.len(),
{
    if s.len() > 0 {
        assert(s[s.len() - 1].time < WARM_UP_LIMIT);
        assert(forall|i: int| 0 <= i < s.drop_last().len() ==> s.drop_last()[i] == s[i]);
        lemma_segments_empty_when_warm_up_only(s.drop_last());
    }
}

/// Law: for rates and times of equal length, if every sample lies in the
/// warm-up window, the drift computation fails with `NotEnoughSamples`.
pub proof fn lemma_warm_up_only_is_not_enough(rates: Seq<i16>, times: Seq<i16>)
    requires
        rates.len() == times.len(),
        forall|i: int| 0 <= i < times.len() ==> times[i] < WARM_UP_LIMIT,
    ensures
        spec_drift(combined(rates, times)) == Err::<(int, int, int, int), HeartRateDriftError>(
            HeartRateDriftError::NotEnoughSamples,
        ),
{
    let s = combined(rates, times);
    assert(forall|i: int| 0 <= i < s.len() ==> s[i].time < WARM_UP_LIMIT);
    lemma_segments_empty_when_warm_up_only(s);
}

/// Law: with exactly one sample in each scored segment, the drift rational is
/// exactly `(r2 - r1) / r1 * 100`: its numerator is `100 * (r2 - r1)` and its
/// denominator is `r1`.
pub proof fn lemma_single_sample_segments_exact(s: Seq<HeartRateAtTime>)
    requires
        first_segment_of(s).len() == 1,
        second_segment_of(s).len() == 1,
    ensures
        ({
            let r1 = first_segment_of(s)[0].heart_rate as int;
            let r2 = second_segment_of(s)[0].heart_rate as int;
            spec_drift(s) == Ok::<(int, int, int, int), HeartRateDriftError>((r1, 1, r2, 1))
                && drift_numerator(r1, 1, r2, 1) == 100 * (r2 - r1)
                && drift_denominator(r1, 1) == r1
        }),
{
    let first = first_segment_of(s);
    let second = second_segment_of(s);
    assert(first.drop_last().len() == 0);
    assert(second.drop_last().len() == 0);
    assert(sum_rates(first.drop_last()) == 0);
    assert(sum_rates(second.drop_last()) == 0);
    assert(sum_rates(first) == first[0].heart_rate as int);
    assert(sum_rates(second) == second[0].heart_rate as int);
}

/// Law: the drift computation is a pure function of the sample sequence;
/// equal inputs give equal outcomes.
pub proof fn lemma_drift_deterministic(s1: Seq<HeartRateAtTime>, s2: Seq<HeartRateAtTime>)
    requires
        s1 == s2,
    ensures
        spec_drift(s1) == spec_drift(s2),
{
}

} // verus!
