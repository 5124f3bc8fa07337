//! Minimum, truncated average and maximum of a run of latencies, and the count
//! of lost probes in it.

use vstd::prelude::*;

verus! {

/// The latency, in milliseconds, that stands for "no reply within the timeout".
pub const LOSS_SENTINEL_MS: u16 = 5000;

/// The least value of a non-empty sequence.
pub open spec fn min_of(values: Seq<u16>) -> u16
    decreases values.len(),
{
    if values.len() <= 1 {
        if values.len() == 1 {
            values[0]
        } else {
            0
        }
    } else {
        let rest = min_of(values.drop_last());
        if values.last() < rest {
            values.last()
        } else {
            rest
        }
    }
}

/// The greatest value of a non-empty sequence.
pub open spec fn max_of(values: Seq<u16>) -> u16
    decreases values.len(),
{
    if values.len() <= 1 {
        if values.len() == 1 {
            values[0]
        } else {
            0
        }
    } else {
        let rest = max_of(values.drop_last());
        if values.last() > rest {
            values.last()
        } else {
            rest
        }
    }
}

/// The sum of a sequence.
pub open spec fn sum_of(values: Seq<u16>) -> nat
    decreases values.len(),
{
    if values.len() == 0 {
        0
    } else {
        sum_of(values.drop_last()) + values.last() as nat
    }
}

/// The average of a non-empty sequence, rounded towards zero.
pub open spec fn avg_of(values: Seq<u16>) -> u16 {
    if values.len() == 0 {
        0
    } else {
        (sum_of(values) / values.len()) as u16
    }
}

/// How many values of a sequence equal the loss sentinel.
pub open spec fn lost_in(values: Seq<u16>) -> nat
    decreases values.len(),
{
    if values.len() == 0 {
        0
    } else {
        lost_in(values.drop_last()) + if values.last() == LOSS_SENTINEL_MS {
            1nat
        } else {
            0nat
        }
    }
}

/// Minimum, truncated average and maximum of one window of latencies.
#[derive(Clone, Copy, Debug, PartialEq, Eq, Structural)]
pub struct SampledPoint {
    pub min_ms: u16,
    pub avg_ms: u16,
    pub max_ms: u16,
}

/// The point that sums up a non-empty run of latencies.
pub open spec fn summary_of(values: Seq<u16>) -> SampledPoint {
    SampledPoint { min_ms: min_of(values), avg_ms: avg_of(values), max_ms: max_of(values) }
}

/// The minimum of a non-empty sequence is one of its values and no value is
/// below it.
pub proof fn lemma_min_of_is_least(values: Seq<u16>)
    requires
        values.len() > 0,
    ensures
        exists|i: int| 0 <= i < values.len() && values[i] == min_of(values),
        forall|i: int| 0 <= i < values.len() ==> min_of(values) <= values[i],
    decreases values.len(),
{
    if values.len() == 1 {
        assert(values[0] == min_of(values));
    } else {
        let front = values.drop_last();
        lemma_min_of_is_least(front);
        let w = choose|i: int| 0 <= i < front.len() && front[i] == min_of(front);
        if values.last() < min_of(front) {
            assert(values[values.len() - 1] == min_of(values));
        } else {
            assert(values[w] == min_of(values));
        }
        assert forall|i: int| 0 <= i < values.len() implies min_of(values) <= values[i] by {
            if i < front.len() {
                assert(front[i] == values[i]);
            }
        }
    }
}

/// The maximum of a non-empty sequence is one of its values and no value is
/// above it.
pub proof fn lemma_max_of_is_greatest(values: Seq<u16>)
    requires
        values.len() > 0,
    ensures
        exists|i: int| 0 <= i < values.len() && values[i] == max_of(values),
        forall|i: int| 0 <= i < values.len() ==> max_of(values) >= values[i],
    decreases values.len(),
{
    if values.len() == 1 {
        assert(values[0] == max_of(values));
    } else {
        let front = values.drop_last();
        lemma_max_of_is_greatest(front);
        let w = choose|i: int| 0 <= i < front.len() && front[i] == max_of(front);
        if values.last() > max_of(front) {
            assert(values[values.len() - 1] == max_of(values));
        } else {
            assert(values[w] == max_of(values));
        }
        assert forall|i: int| 0 <= i < values.len() implies max_of(values) >= values[i] by {
            if i < front.len() {
                assert(front[i] == values[i]);
            }
        }
    }
}

/// A sum of 16-bit values is at most 0xFFFF times their number.
pub proof fn lemma_sum_of_bound(values: Seq<u16>)
    ensures
        sum_of(values) <= 0xFFFF * values.len(),
    decreases values.len(),
{
    if values.len() > 0 {
        lemma_sum_of_bound(values.drop_last());
    }
}

/// The average of a non-empty sequence lies between its minimum and its
/// maximum.
pub proof fn lemma_avg_between(values: Seq<u16>)
    requires
        values.len() > 0,
    ensures
        min_of(values) <= avg_of(values) <= max_of(values),
{
    lemma_sum_between(values);
    lemma_sum_of_bound(values);
    let n = values.len() as int;
    let s = sum_of(values) as int;
    let lo = min_of(values) as int;
    let hi = max_of(values) as int;
    assert(lo <= s / n <= hi) by (nonlinear_arith)
        requires
            n > 0,
            lo * n <= s <= hi * n,
    ;
}

/// The sum of a sequence lies between its length times its minimum and its
/// length times its maximum.
pub proof fn lemma_sum_between(values: Seq<u16>)
    requires
        values.len() > 0,
    ensures
        min_of(values) * values.len() <= sum_of(values) <= max_of(values) * values.len(),
    decreases values.len(),
{
    if values.len() == 1 {
        assert(sum_of(values.drop_last()) == 0);
    } else {
        let front = values.drop_last();
        lemma_sum_between(front);
        let n = front.len() as int;
        let lo = min_of(values) as int;
        let hi = max_of(values) as int;
        let flo = min_of(front) as int;
        let fhi = max_of(front) as int;
        assert(lo * (n + 1) <= flo * n + values.last()) by (nonlinear_arith)
            requires
                lo <= flo,
                lo <= values.last(),
                n >= 0,
        ;
        assert(fhi * n + values.last() <= hi * (n + 1)) by (nonlinear_arith)
            requires
                fhi <= hi,
                values.last() <= hi,
                n >= 0,
        ;
    }
}

/// No more values are lost than there are values.
pub proof fn lemma_lost_in_bound(values: Seq<u16>)
    ensures
        lost_in(values) <= values.len(),
    decreases values.len(),
{
    if values.len() > 0 {
        lemma_lost_in_bound(values.drop_last());
    }
}

/// Counts the lost probes among the latest ones of a diagnostic run: the
/// values that equal the loss sentinel, counted modulo 256.
pub fn packet_received(packet: &Vec<u16>) -> (lost: u8)
    ensures
        lost == lost_in(packet@) % 256,
{
    let mut lost: u8 = 0;
    let mut i: usize = 0;
    while i < packet.len()
        invariant
            i <= packet@.len(),
            lost == lost_in(packet@.subrange(0, i as int)) % 256,
        decreases packet@.len() - i,
    {
        assert(packet@.subrange(0, i + 1).drop_last() =~= packet@.subrange(0, i as int));
        if packet[i] == LOSS_SENTINEL_MS {
            lost = lost.wrapping_add(1);
        }
        i = i + 1;
    }
    assert(packet@.subrange(0, i as int) =~= packet@);
    lost
}

/// The status level of an average latency in milliseconds.
pub open spec fn latency_level_of(average_ms: u64) -> u8 {
    if average_ms >= 130 {
        2
    } else if average_ms >= 59 {
        1
    } else {
        0
    }
}

/// Classifies an average latency: 0 is fine (under 59 ms), 1 is a warning
/// (59 to 129 ms), 2 is critical (130 ms and more).
pub fn packet_latency(latency_moy_sampled: &u64) -> (level: u8)
    ensures
        level == latency_level_of(*latency_moy_sampled),
{
    if *latency_moy_sampled >= 130 {
        2
    } else if *latency_moy_sampled >= 59 {
        1
    } else {
        0
    }
}

} // verus!
