//! The sampling engine: raw samples are reduced five by five to
//! pre-aggregates, and the pre-aggregates are bucketed into a bounded series
//! whose resolution follows the age of the session.

use vstd::prelude::*;
use crate::series::{avg_of, max_of, min_of, summary_of, SampledPoint, LOSS_SENTINEL_MS};

verus! {

/// How many raw samples make one pre-aggregate.
pub const BATCH: usize = 5;

/// One probe attempt: its number, its latency in milliseconds (5000 stands
/// for a lost probe) and the time of its arrival in seconds.
#[derive(Clone, Copy, Debug, PartialEq, Eq, Structural)]
pub struct RawSample {
    pub sequence: u32,
    pub latency_ms: u16,
    pub arrival_time: u64,
}

/// Minimum, truncated average and maximum of five consecutive raw samples,
/// tagged with the arrival time of the first of them.
#[derive(Clone, Copy, Debug, PartialEq, Eq, Structural)]
pub struct PreAggregate {
    pub min_ms: u16,
    pub avg_ms: u16,
    pub max_ms: u16,
    pub window_start_time: u64,
}

/// Which of the three values of a point or pre-aggregate is meant.
#[derive(Clone, Copy, Debug, PartialEq, Eq, Structural)]
pub enum Trend {
    Min,
    Avg,
    Max,
}

/// The width of a sampling window, in seconds, for a session that has run for
/// `elapsed` seconds.
pub open spec fn scale_for(elapsed: nat) -> u16 {
    if elapsed <= 300 {
        5
    } else if elapsed <= 1800 {
        15
    } else if elapsed <= 3600 {
        30
    } else if elapsed <= 7200 {
        60
    } else if elapsed <= 14400 {
        120
    } else if elapsed <= 28800 {
        240
    } else if elapsed <= 57600 {
        480
    } else if elapsed <= 115200 {
        960
    } else if elapsed <= 230400 {
        1920
    } else if elapsed <= 460800 {
        3840
    } else if elapsed <= 921600 {
        7680
    } else {
        15360
    }
}

/// A longer session never has a finer scale.
pub proof fn lemma_scale_monotonic(earlier: nat, later: nat)
    requires
        earlier <= later,
    ensures
        scale_for(earlier) <= scale_for(later),
{
}

/// Every scale is one of the twelve steps of the ladder.
pub proof fn lemma_scale_on_ladder(elapsed: nat)
    ensures
        on_ladder(scale_for(elapsed)),
{
}

/// Whether `scale` is a step of the ladder.
pub open spec fn on_ladder(scale: u16) -> bool {
    scale == 5 || scale == 15 || scale == 30 || scale == 60 || scale == 120 || scale == 240
        || scale == 480 || scale == 960 || scale == 1920 || scale == 3840 || scale == 7680
        || scale == 15360
}

/// Selects the width of the sampling window for a session that has run for
/// `elapsed` seconds.
pub fn select_scale(elapsed: u64) -> (scale: u16)
    ensures
        scale == scale_for(elapsed as nat),
{
    if elapsed <= 300 {
        5
    } else if elapsed <= 1800 {
        15
    } else if elapsed <= 3600 {
        30
    } else if elapsed <= 7200 {
        60
    } else if elapsed <= 14400 {
        120
    } else if elapsed <= 28800 {
        240
    } else if elapsed <= 57600 {
        480
    } else if elapsed <= 115200 {
        960
    } else if elapsed <= 230400 {
        1920
    } else if elapsed <= 460800 {
        3840
    } else if elapsed <= 921600 {
        7680
    } else {
        15360
    }
}

/// The latency recorded for a probe that took `elapsed_ms` milliseconds:
/// from 5000 ms on it is the loss sentinel.
pub open spec fn clamped_latency(elapsed_ms: u64) -> u16 {
    if elapsed_ms >= 5000 {
        LOSS_SENTINEL_MS
    } else {
        elapsed_ms as u16
    }
}

/// Clamps the duration of a probe to the loss sentinel.
pub fn clamp_latency(elapsed_ms: u64) -> (latency_ms: u16)
    ensures
        latency_ms == clamped_latency(elapsed_ms),
        latency_ms <= LOSS_SENTINEL_MS,
{
    if elapsed_ms >= 5000 {
        LOSS_SENTINEL_MS
    } else {
        elapsed_ms as u16
    }
}

/// The latencies of a run of raw samples.
pub open spec fn latencies(raw: Seq<RawSample>) -> Seq<u16> {
    Seq::new(raw.len(), |i: int| raw[i].latency_ms)
}

/// The arrival times of a run of raw samples.
pub open spec fn arrival_times(raw: Seq<RawSample>) -> Seq<u64> {
    Seq::new(raw.len(), |i: int| raw[i].arrival_time)
}

/// One of the three columns of a run of pre-aggregates.
pub open spec fn pre_column(pre: Seq<PreAggregate>, trend: Trend) -> Seq<u16> {
    Seq::new(
        pre.len(),
        |i: int|
            match trend {
                Trend::Min => pre[i].min_ms,
                Trend::Avg => pre[i].avg_ms,
                Trend::Max => pre[i].max_ms,
            },
    )
}

/// The tag times of a run of pre-aggregates.
pub open spec fn pre_times(pre: Seq<PreAggregate>) -> Seq<u64> {
    Seq::new(pre.len(), |i: int| pre[i].window_start_time)
}

/// One of the three columns of a sampled series.
pub open spec fn point_column(points: Seq<SampledPoint>, trend: Trend) -> Seq<u64> {
    Seq::new(
        points.len(),
        |i: int|
            match trend {
                Trend::Min => points[i].min_ms as u64,
                Trend::Avg => points[i].avg_ms as u64,
                Trend::Max => points[i].max_ms as u64,
            },
    )
}

/// Seconds between the first raw sample and the last one.
pub open spec fn elapsed_of(raw: Seq<RawSample>) -> nat {
    if raw.len() == 0 {
        0
    } else {
        (raw.last().arrival_time - raw[0].arrival_time) as nat
    }
}

/// The pre-aggregate of the `k`-th batch of five raw samples.
pub open spec fn pre_aggregate_at(raw: Seq<RawSample>, k: int) -> PreAggregate {
    let batch = latencies(raw).subrange(5 * k, 5 * k + 5);
    PreAggregate {
        min_ms: min_of(batch),
        avg_ms: avg_of(batch),
        max_ms: max_of(batch),
        window_start_time: raw[5 * k].arrival_time,
    }
}

/// The pre-aggregates of a raw history: one for each full batch of five; a
/// remainder of fewer than five samples gives none.
pub open spec fn pre_aggregates_of(raw: Seq<RawSample>) -> Seq<PreAggregate> {
    Seq::new((raw.len() / 5) as nat, |k: int| pre_aggregate_at(raw, k))
}

/// The series rebuilt from a raw history at `scale`: one point for every
/// `scale` consecutive raw samples; a final partial batch gives none.
pub open spec fn rebuilt(raw: Seq<RawSample>, scale: u16) -> Seq<SampledPoint> {
    if scale == 0 {
        Seq::empty()
    } else {
        Seq::new(
            (raw.len() / scale as nat) as nat,
            |k: int| summary_of(latencies(raw).subrange(k * scale, k * scale + scale)),
        )
    }
}

/// Whether a pre-aggregate tagged `time` falls in the window of width `scale`
/// that starts at `start`, both ends included.
pub open spec fn in_window(start: u64, scale: u16, time: u64) -> bool {
    start <= time <= start + scale
}

/// The index of the first pre-aggregate at or after `i` that falls outside the
/// window opened by the pre-aggregate at `start`.
pub open spec fn window_end_from(pre: Seq<PreAggregate>, start: int, i: int, scale: u16) -> int
    decreases pre.len() - i,
{
    if 0 <= start < pre.len() && start < i < pre.len() && in_window(
        pre[start].window_start_time,
        scale,
        pre[i].window_start_time,
    ) {
        window_end_from(pre, start, i + 1, scale)
    } else {
        i
    }
}

/// The index just past the window opened by the pre-aggregate at `start`.
pub open spec fn window_end(pre: Seq<PreAggregate>, start: int, scale: u16) -> int {
    window_end_from(pre, start, start + 1, scale)
}

/// The point of the pre-aggregates from `from` up to `to`: the least of their
/// minima, the truncated average of their averages, the greatest of their
/// maxima.
pub open spec fn window_point(pre: Seq<PreAggregate>, from: int, to: int) -> SampledPoint {
    SampledPoint {
        min_ms: min_of(pre_column(pre, Trend::Min).subrange(from, to)),
        avg_ms: avg_of(pre_column(pre, Trend::Avg).subrange(from, to)),
        max_ms: max_of(pre_column(pre, Trend::Max).subrange(from, to)),
    }
}

/// The points of the windows that cover the pre-aggregates from `cursor` on,
/// one window after the other.
pub open spec fn windows_from(pre: Seq<PreAggregate>, cursor: int, scale: u16) -> Seq<
    SampledPoint,
>
    decreases pre.len() - cursor,
{
    let end = window_end(pre, cursor, scale);
    if 0 <= cursor < end <= pre.len() {
        seq![window_point(pre, cursor, end)] + windows_from(pre, end, scale)
    } else {
        Seq::empty()
    }
}

/// The scan for the end of a window never moves backwards and stays within
/// the pre-aggregates.
pub proof fn lemma_window_end_from_range(pre: Seq<PreAggregate>, start: int, i: int, scale: u16)
    requires
        0 <= start < i <= pre.len(),
    ensures
        i <= window_end_from(pre, start, i, scale) <= pre.len(),
    decreases pre.len() - i,
{
    if i < pre.len() && in_window(pre[start].window_start_time, scale, pre[i].window_start_time) {
        lemma_window_end_from_range(pre, start, i + 1, scale);
    }
}

/// No window is empty: it holds at least the pre-aggregate that opens it, and
/// it ends within the pre-aggregates.
pub proof fn lemma_window_end_range(pre: Seq<PreAggregate>, start: int, scale: u16)
    requires
        0 <= start < pre.len(),
    ensures
        start < window_end(pre, start, scale) <= pre.len(),
{
    lemma_window_end_from_range(pre, start, start + 1, scale);
}

/// Bucketing gives at least one point where a pre-aggregate is left past the
/// cursor, never more points than pre-aggregates are left, and none where none
/// is left.
pub proof fn lemma_windows_from_len(pre: Seq<PreAggregate>, cursor: int, scale: u16)
    requires
        0 <= cursor,
    ensures
        cursor >= pre.len() ==> windows_from(pre, cursor, scale).len() == 0,
        cursor < pre.len() ==> 1 <= windows_from(pre, cursor, scale).len() <= pre.len() - cursor,
    decreases pre.len() - cursor,
{
    if cursor < pre.len() {
        lemma_window_end_range(pre, cursor, scale);
        lemma_windows_from_len(pre, window_end(pre, cursor, scale), scale);
    }
}

/// Every pre-aggregate of a window falls within the scale of the one that
/// opens it.
pub proof fn lemma_window_holds_its_scale(pre: Seq<PreAggregate>, start: int, scale: u16, i: int)
    requires
        0 <= start < pre.len(),
        start <= i < window_end(pre, start, scale),
    ensures
        in_window(pre[start].window_start_time, scale, pre[i].window_start_time),
{
    if i > start {
        lemma_scan_holds_its_scale(pre, start, start + 1, scale, i);
    }
}

/// Every pre-aggregate that the scan for the end of a window passes falls
/// within the scale of the one that opens the window.
pub proof fn lemma_scan_holds_its_scale(
    pre: Seq<PreAggregate>,
    start: int,
    from: int,
    scale: u16,
    i: int,
)
    requires
        0 <= start < from <= i < window_end_from(pre, start, from, scale),
        from <= pre.len(),
    ensures
        in_window(pre[start].window_start_time, scale, pre[i].window_start_time),
    decreases pre.len() - from,
{
    if i > from {
        lemma_scan_holds_its_scale(pre, start, from + 1, scale, i);
    }
}

} // verus!
