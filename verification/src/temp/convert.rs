//! Raw converter readings: their mean, and the band in which they are converted.
use vstd::prelude::*;

verus! {

/// The sum of the samples.
pub open spec fn sample_sum(samples: Seq<i16>) -> int
    decreases samples.len(),
{
    if samples.len() == 0 {
        0
    } else {
        sample_sum(samples.drop_last()) + samples.last()
    }
}

/// `total` divided by `count`, rounded toward zero.
pub open spec fn toward_zero(total: int, count: int) -> int {
    if total >= 0 {
        total / count
    } else {
        -((-total) / count)
    }
}

/// The mean of the samples, rounded toward zero; none for no samples.
pub open spec fn mean(samples: Seq<i16>) -> Option<int> {
    if samples.len() == 0 {
        None
    } else {
        Some(toward_zero(sample_sum(samples), samples.len() as int))
    }
}

proof fn lemma_sum_range(samples: Seq<i16>)
    ensures
        -32768 * samples.len() <= sample_sum(samples) <= 32767 * samples.len(),
    decreases samples.len(),
{
    if samples.len() > 0 {
        lemma_sum_range(samples.drop_last());
    }
}

proof fn lemma_mean_range(total: int, count: int)
    requires
        count > 0,
        -32768 * count <= total <= 32767 * count,
    ensures
        -32768 <= toward_zero(total, count) <= 32767,
{
    if total >= 0 {
        assert(0 <= total / count <= 32767) by (nonlinear_arith)
            requires
                count > 0,
                0 <= total <= 32767 * count,
        ;
    } else {
        let up = -total;
        assert(0 <= up / count <= 32768) by (nonlinear_arith)
            requires
                count > 0,
                0 <= up <= 32768 * count,
        ;
    }
}

/// The mean of the samples, rounded toward zero, or `None` for no samples.
#[must_use]
pub fn average_raw(samples: &[i16]) -> (average: Option<i16>)
    ensures
        match average {
            Some(raw) => mean(samples@) == Some(raw as int),
            None => mean(samples@) is None,
        },
{
    let n: usize = samples.len();
    if n == 0 {
        return None;
    }
    let mut total: i128 = 0;
    let mut i: usize = 0;
    while i < n
        invariant
            i <= n,
            n == samples@.len(),
            total == sample_sum(samples@.take(i as int)),
            -32768 * i <= total <= 32767 * i,
        decreases n - i,
    {
        total = total + samples[i] as i128;
        assert(samples@.take(i + 1).drop_last() == samples@.take(i as int));
        i = i + 1;
    }
    assert(samples@.take(n as int) == samples@);
    proof {
        lemma_sum_range(samples@);
        lemma_mean_range(total as int, n as int);
    }
    let count: u128 = n as u128;
    if total >= 0 {
        let quotient: u128 = (total as u128) / count;
        Some(quotient as i16)
    } else {
        let quotient: u128 = ((-total) as u128) / count;
        let magnitude: i32 = quotient as i32;
        Some((-magnitude) as i16)
    }
}

/// The mean lies between the smallest and the largest sample.
pub proof fn law_mean_within_samples(samples: Seq<i16>, low: i16, high: i16)
    requires
        samples.len() > 0,
        forall|i: int| 0 <= i < samples.len() ==> low <= #[trigger] samples[i] <= high,
    ensures
        mean(samples) matches Some(average) && low <= average <= high,
{
    lemma_sum_bounds(samples, low, high);
    let total = sample_sum(samples);
    let count = samples.len() as int;
    if total >= 0 {
        assert(low <= total / count <= high) by (nonlinear_arith)
            requires
                count > 0,
                low * count <= total <= high * count,
                total >= 0,
        ;
    } else {
        let up = -total;
        assert(low <= -(up / count) <= high) by (nonlinear_arith)
            requires
                count > 0,
                low * count <= -up <= high * count,
                up > 0,
        ;
    }
}

proof fn lemma_sum_bounds(samples: Seq<i16>, low: i16, high: i16)
    requires
        forall|i: int| 0 <= i < samples.len() ==> low <= #[trigger] samples[i] <= high,
    ensures
        low * samples.len() <= sample_sum(samples) <= high * samples.len(),
    decreases samples.len(),
{
    if samples.len() > 0 {
        let rest = samples.drop_last();
        assert forall|i: int| 0 <= i < rest.len() implies low <= #[trigger] rest[i] <= high by {
            assert(rest[i] == samples[i]);
        }
        lemma_sum_bounds(rest, low, high);
        assert(low <= samples[samples.len() - 1] <= high);
        let n = rest.len() as int;
        assert(low * (n + 1) == low * n + low && high * (n + 1) == high * n + high)
            by (nonlinear_arith);
    }
}

/// Whether a raw reading is converted: it lies in the configured band.
#[must_use]
pub fn raw_in_band(raw: i16, raw_min: i16, raw_max: i16) -> (within: bool)
    ensures
        within == (raw_min <= raw <= raw_max),
{
    raw_min <= raw && raw <= raw_max
}

/// The sum of samples is what they add up to, in whatever parts they are added.
pub proof fn law_sums(first: Seq<i16>, second: Seq<i16>, sample: i16)
    ensures
        sample_sum(Seq::<i16>::empty()) == 0,
        sample_sum(seq![sample]) == sample,
        sample_sum(first + second) == sample_sum(first) + sample_sum(second),
    decreases second.len(),
{
    assert(seq![sample].drop_last() =~= Seq::<i16>::empty());
    if second.len() > 0 {
        law_sums(first, second.drop_last(), sample);
        assert((first + second).drop_last() =~= first + second.drop_last());
    } else {
        assert(first + second =~= first);
    }
}

/// The mean times the number of samples is their sum, but for less than one sample's worth that is
/// rounded off toward zero. There is none for no samples.
pub proof fn law_mean_of_samples(samples: Seq<i16>)
    ensures
        samples.len() == 0 ==> mean(samples) is None,
        samples.len() > 0 ==> (mean(samples) matches Some(average) && ({
            let n = samples.len() as int;
            let total = sample_sum(samples);
            &&& total >= 0 ==> average >= 0 && average * n <= total < (average + 1) * n
            &&& total <= 0 ==> average <= 0 && (average - 1) * n < total <= average * n
        })),
{
    if samples.len() > 0 {
        let n = samples.len() as int;
        let total = sample_sum(samples);
        if total >= 0 {
            let average = total / n;
            assert(average >= 0 && average * n <= total < (average + 1) * n) by (nonlinear_arith)
                requires
                    n > 0,
                    total >= 0,
                    average == total / n,
            ;
            if total == 0 {
                assert(average == 0) by (nonlinear_arith)
                    requires
                        n > 0,
                        average == 0int / n,
                ;
                assert((0 - 1) * n < 0) by (nonlinear_arith)
                    requires
                        n > 0,
                ;
            }
        } else {
            let up = -total;
            let size = up / n;
            assert(size >= 0 && (-size - 1) * n < -up <= -size * n) by (nonlinear_arith)
                requires
                    n > 0,
                    up >= 0,
                    size == up / n,
            ;
        }
    }
}

} // verus!
