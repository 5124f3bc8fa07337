//! The state of the sampling engine and the operations that grow it.

use vstd::prelude::*;
use crate::series::{
    avg_of, lemma_lost_in_bound, lemma_sum_of_bound, lost_in, max_of, min_of, sum_of, summary_of,
    SampledPoint, LOSS_SENTINEL_MS,
};
use crate::sampling::{
    arrival_times, clamp_latency, clamped_latency, elapsed_of, latencies, lemma_scale_monotonic,
    lemma_windows_from_len, on_ladder, point_column, pre_aggregate_at, pre_aggregates_of, pre_column, pre_times, rebuilt,
    scale_for, select_scale, window_end, window_end_from, window_point, windows_from,
    PreAggregate, RawSample, Trend,
};

verus! {

/// Sums up the latencies of the raw samples from `from` up to `to`.
pub fn summarize_raw(raw: &Vec<RawSample>, from: usize, to: usize) -> (point: SampledPoint)
    requires
        from < to <= raw@.len(),
    ensures
        point == summary_of(latencies(raw@).subrange(from as int, to as int)),
{
    let ghost column = latencies(raw@);
    let first: u16 = raw[from].latency_ms;
    let mut lowest: u16 = first;
    let mut highest: u16 = first;
    let mut sum: u128 = first as u128;
    let mut i: usize = from + 1;
    proof {
        let one = column.subrange(from as int, from + 1);
        assert(one[0] == first);
        assert(sum_of(one.drop_last()) == 0);
    }
    while i < to
        invariant
            from < i <= to <= raw@.len(),
            column == latencies(raw@),
            lowest == min_of(column.subrange(from as int, i as int)),
            highest == max_of(column.subrange(from as int, i as int)),
            sum == sum_of(column.subrange(from as int, i as int)),
        decreases to - i,
    {
        let value: u16 = raw[i].latency_ms;
        proof {
            let grown = column.subrange(from as int, i + 1);
            assert(grown.drop_last() =~= column.subrange(from as int, i as int));
            assert(grown.last() == value);
            lemma_sum_of_bound(grown.drop_last());
        }
        if value < lowest {
            lowest = value;
        }
        if value > highest {
            highest = value;
        }
        sum = sum + value as u128;
        i = i + 1;
    }
    let count: u128 = (to - from) as u128;
    proof {
        let run = column.subrange(from as int, to as int);
        lemma_sum_of_bound(run);
        assert(sum / count <= 0xFFFF) by (nonlinear_arith)
            requires
                count > 0,
                sum <= 0xFFFF * count,
        ;
    }
    SampledPoint { min_ms: lowest, avg_ms: (sum / count) as u16, max_ms: highest }
}

/// Sums up the pre-aggregates from `from` up to `to`: the least minimum, the
/// truncated average of the averages, the greatest maximum.
pub fn summarize_window(pre: &Vec<PreAggregate>, from: usize, to: usize) -> (point: SampledPoint)
    requires
        from < to <= pre@.len(),
    ensures
        point == window_point(pre@, from as int, to as int),
{
    let ghost minima = pre_column(pre@, Trend::Min);
    let ghost averages = pre_column(pre@, Trend::Avg);
    let ghost maxima = pre_column(pre@, Trend::Max);
    let mut lowest: u16 = pre[from].min_ms;
    let mut highest: u16 = pre[from].max_ms;
    let mut sum: u128 = pre[from].avg_ms as u128;
    let mut i: usize = from + 1;
    proof {
        assert(minima.subrange(from as int, from + 1)[0] == lowest);
        assert(maxima.subrange(from as int, from + 1)[0] == highest);
        let one = averages.subrange(from as int, from + 1);
        assert(one[0] == sum);
        assert(sum_of(one.drop_last()) == 0);
    }
    while i < to
        invariant
            from < i <= to <= pre@.len(),
            minima == pre_column(pre@, Trend::Min),
            averages == pre_column(pre@, Trend::Avg),
            maxima == pre_column(pre@, Trend::Max),
            lowest == min_of(minima.subrange(from as int, i as int)),
            highest == max_of(maxima.subrange(from as int, i as int)),
            sum == sum_of(averages.subrange(from as int, i as int)),
        decreases to - i,
    {
        let entry: PreAggregate = pre[i];
        proof {
            assert(minima.subrange(from as int, i + 1).drop_last() =~= minima.subrange(
                from as int,
                i as int,
            ));
            assert(maxima.subrange(from as int, i + 1).drop_last() =~= maxima.subrange(
                from as int,
                i as int,
            ));
            let grown = averages.subrange(from as int, i + 1);
            assert(grown.drop_last() =~= averages.subrange(from as int, i as int));
            assert(minima.subrange(from as int, i + 1).last() == entry.min_ms);
            assert(maxima.subrange(from as int, i + 1).last() == entry.max_ms);
            assert(grown.last() == entry.avg_ms);
            lemma_sum_of_bound(grown.drop_last());
        }
        if entry.min_ms < lowest {
            lowest = entry.min_ms;
        }
        if entry.max_ms > highest {
            highest = entry.max_ms;
        }
        sum = sum + entry.avg_ms as u128;
        i = i + 1;
    }
    let count: u128 = (to - from) as u128;
    proof {
        let run = averages.subrange(from as int, to as int);
        lemma_sum_of_bound(run);
        assert(sum / count <= 0xFFFF) by (nonlinear_arith)
            requires
                count > 0,
                sum <= 0xFFFF * count,
        ;
    }
    SampledPoint { min_ms: lowest, avg_ms: (sum / count) as u16, max_ms: highest }
}

/// Finds the index just past the window that the pre-aggregate at `start`
/// opens.
pub fn find_window_end(pre: &Vec<PreAggregate>, start: usize, scale: u16) -> (end: usize)
    requires
        start < pre@.len(),
    ensures
        end == window_end(pre@, start as int, scale),
        start < end <= pre@.len(),
{
    let total: usize = pre.len();
    let opened: u64 = pre[start].window_start_time;
    let mut i: usize = start + 1;
    while i < total && pre[i].window_start_time >= opened && pre[i].window_start_time - opened
        <= scale as u64
        invariant
            start < i <= pre@.len(),
            total == pre@.len(),
            opened == pre@[start as int].window_start_time,
            window_end_from(pre@, start as int, i as int, scale) == window_end(
                pre@,
                start as int,
                scale,
            ),
        decreases pre@.len() - i,
    {
        i = i + 1;
    }
    i
}

/// Rebuilds a sampled series from a raw history: one point for every `scale`
/// consecutive raw samples, the final partial batch dropped.
pub fn rebuild(raw: &Vec<RawSample>, scale: u16) -> (points: Vec<SampledPoint>)
    requires
        scale > 0,
    ensures
        points@ == rebuilt(raw@, scale),
        points@.len() == raw@.len() / scale as nat,
{
    let width: usize = scale as usize;
    let count: usize = raw.len() / width;
    let mut points: Vec<SampledPoint> = Vec::new();
    let mut k: usize = 0;
    let mut start: usize = 0;
    while k < count
        invariant
            width == scale,
            width > 0,
            count == raw@.len() / width as nat,
            raw@.len() <= usize::MAX,
            k <= count,
            start == k * width,
            points@.len() == k,
            forall|j: int|
                0 <= j < k ==> points@[j] == summary_of(
                    latencies(raw@).subrange(j * scale, j * scale + scale),
                ),
        decreases count - k,
    {
        assert((k + 1) * width <= raw@.len()) by (nonlinear_arith)
            requires
                k < count,
                count == raw@.len() / width as nat,
                width > 0,
        ;
        assert((k + 1) * width == k * width + width) by (nonlinear_arith);
        let point: SampledPoint = summarize_raw(raw, start, start + width);
        points.push(point);
        start = start + width;
        k = k + 1;
    }
    assert(points@ =~= rebuilt(raw@, scale));
    points
}

/// Whether a raw history is one that probes can have produced: numbered from
/// zero, no latency above the loss sentinel, arrival times in order.
pub open spec fn history_ok(raw: Seq<RawSample>) -> bool {
    &&& raw.len() <= u32::MAX
    &&& forall|i: int| 0 <= i < raw.len() ==> (#[trigger] raw[i]).sequence == i
    &&& forall|i: int| 0 <= i < raw.len() ==> (#[trigger] raw[i]).latency_ms <= LOSS_SENTINEL_MS
    &&& forall|i: int, j: int|
        0 <= i <= j < raw.len() ==> (#[trigger] raw[i]).arrival_time <= (
        #[trigger] raw[j]).arrival_time
}

/// The scale after an update: that of the elapsed time, once there is a sample.
pub open spec fn next_scale(raw: Seq<RawSample>, current: u16) -> u16 {
    if raw.len() == 0 {
        current
    } else {
        scale_for(elapsed_of(raw))
    }
}

/// Summary of a whole session.
#[derive(Clone, Copy, Debug, PartialEq, Eq, Structural)]
pub struct Statistics {
    pub transmitted: usize,
    pub received: usize,
    pub lost: usize,
    pub min_ms: u16,
    pub avg_ms: u16,
    pub max_ms: u16,
}

/// The raw history of a session with its pre-aggregates, its sampled series,
/// the window cursor and the current scale.
pub struct SamplingEngine {
    raw: Vec<RawSample>,
    pre: Vec<PreAggregate>,
    sampled: Vec<SampledPoint>,
    window_cursor: usize,
    scale: u16,
}

impl SamplingEngine {
    /// The raw samples, oldest first.
    pub closed spec fn raw_view(&self) -> Seq<RawSample> {
        self.raw@
    }

    /// The pre-aggregates made so far.
    pub closed spec fn pre_view(&self) -> Seq<PreAggregate> {
        self.pre@
    }

    /// The sampled series.
    pub closed spec fn sampled_view(&self) -> Seq<SampledPoint> {
        self.sampled@
    }

    /// The index of the first pre-aggregate that no window holds yet.
    pub closed spec fn cursor_view(&self) -> int {
        self.window_cursor as int
    }

    /// The current scale.
    pub closed spec fn scale_view(&self) -> u16 {
        self.scale
    }

    /// The invariant of the engine: every pre-aggregate is that of its batch
    /// of five raw samples, the window cursor lies within the pre-aggregates,
    /// and the scale is a step of the ladder that the elapsed time has reached.
    pub open spec fn wf(&self) -> bool {
        &&& history_ok(self.raw_view())
        &&& 5 * self.pre_view().len() <= self.raw_view().len()
        &&& forall|k: int|
            0 <= k < self.pre_view().len() ==> #[trigger] self.pre_view()[k] == pre_aggregate_at(
                self.raw_view(),
                k,
            )
        &&& 0 <= self.cursor_view() <= self.pre_view().len()
        &&& on_ladder(self.scale_view())
        &&& self.scale_view() <= scale_for(elapsed_of(self.raw_view()))
    }

    /// Whether `after` is this engine with one more raw sample and nothing
    /// else changed.
    pub open spec fn recorded_to(&self, after: &SamplingEngine, sample: RawSample) -> bool {
        &&& after.raw_view() == self.raw_view().push(sample)
        &&& after.pre_view() == self.pre_view()
        &&& after.sampled_view() == self.sampled_view()
        &&& after.cursor_view() == self.cursor_view()
        &&& after.scale_view() == self.scale_view()
    }

    /// Whether `after` is this engine after one sampling update.
    pub open spec fn updated_to(&self, after: &SamplingEngine) -> bool {
        &&& after.raw_view() == self.raw_view()
        &&& after.pre_view() == pre_aggregates_of(self.raw_view())
        &&& after.scale_view() == next_scale(self.raw_view(), self.scale_view())
        &&& after.cursor_view() == after.pre_view().len()
        &&& after.sampled_view() == if after.scale_view() == self.scale_view() {
            self.sampled_view() + windows_from(
                after.pre_view(),
                self.cursor_view(),
                self.scale_view(),
            )
        } else {
            rebuilt(self.raw_view(), after.scale_view())
        }
    }

    /// Whether `after` is this engine after `sample` was recorded and the
    /// sampling then updated.
    pub open spec fn observed_to(&self, after: &SamplingEngine, sample: RawSample) -> bool {
        let raw = self.raw_view().push(sample);
        &&& after.raw_view() == raw
        &&& after.pre_view() == pre_aggregates_of(raw)
        &&& after.scale_view() == scale_for(elapsed_of(raw))
        &&& after.cursor_view() == after.pre_view().len()
        &&& after.sampled_view() == if after.scale_view() == self.scale_view() {
            self.sampled_view() + windows_from(
                after.pre_view(),
                self.cursor_view(),
                self.scale_view(),
            )
        } else {
            rebuilt(raw, after.scale_view())
        }
    }

    /// Whether `after` is this engine with its sampled series rebuilt from the
    /// raw history at the current scale.
    pub open spec fn resampled_to(&self, after: &SamplingEngine) -> bool {
        &&& after.raw_view() == self.raw_view()
        &&& after.pre_view() == self.pre_view()
        &&& after.scale_view() == self.scale_view()
        &&& after.cursor_view() == self.pre_view().len()
        &&& after.sampled_view() == rebuilt(self.raw_view(), self.scale_view())
    }

    /// An engine without samples, at the finest scale.
    pub fn new() -> (engine: SamplingEngine)
        ensures
            engine.wf(),
            engine.raw_view() == Seq::<RawSample>::empty(),
            engine.pre_view() == Seq::<PreAggregate>::empty(),
            engine.sampled_view() == Seq::<SampledPoint>::empty(),
            engine.cursor_view() == 0,
            engine.scale_view() == 5,
    {
        SamplingEngine {
            raw: Vec::new(),
            pre: Vec::new(),
            sampled: Vec::new(),
            window_cursor: 0,
            scale: 5,
        }
    }

    /// Whether a sample that arrives at `arrival_time` can be recorded: the
    /// sequence counter has room and time has not gone backwards.
    pub fn can_record(&self, arrival_time: u64) -> (ok: bool)
        ensures
            ok == (self.raw_view().len() < u32::MAX && (self.raw_view().len() > 0
                ==> self.raw_view().last().arrival_time <= arrival_time)),
    {
        let total: usize = self.raw.len();
        if total >= 0xFFFF_FFFF {
            false
        } else if total == 0 {
            true
        } else {
            self.raw[total - 1].arrival_time <= arrival_time
        }
    }

    /// Appends the raw sample of one probe attempt that took `elapsed_ms`
    /// milliseconds and ended at `arrival_time`. A duration of 5000 ms or more
    /// is recorded as the loss sentinel.
    pub fn record(&mut self, elapsed_ms: u64, arrival_time: u64) -> (sample: RawSample)
        requires
            old(self).wf(),
            old(self).raw_view().len() < u32::MAX,
            old(self).raw_view().len() > 0 ==> old(self).raw_view().last().arrival_time
                <= arrival_time,
        ensures
            final(self).wf(),
            sample == (RawSample {
                sequence: old(self).raw_view().len() as u32,
                latency_ms: clamped_latency(elapsed_ms),
                arrival_time,
            }),
            old(self).recorded_to(final(self), sample),
    {
        let ghost before = self.raw@;
        let sample = RawSample {
            sequence: self.raw.len() as u32,
            latency_ms: clamp_latency(elapsed_ms),
            arrival_time,
        };
        self.raw.push(sample);
        proof {
            let after = self.raw@;
            assert forall|k: int| 0 <= k < self.pre@.len() implies #[trigger] self.pre@[k]
                == pre_aggregate_at(after, k) by {
                assert(latencies(after).subrange(5 * k, 5 * k + 5) =~= latencies(before).subrange(
                    5 * k,
                    5 * k + 5,
                ));
            }
            assert forall|i: int, j: int| 0 <= i <= j < after.len() implies (#[trigger] after[i])
                .arrival_time <= (#[trigger] after[j]).arrival_time by {
                if j == before.len() && i < j {
                    assert(before[i].arrival_time <= before.last().arrival_time);
                }
            }
            if before.len() > 0 {
                assert(before[0].arrival_time <= before.last().arrival_time);
            }
            lemma_scale_monotonic(elapsed_of(before), elapsed_of(after));
        }
        sample
    }

    /// Runs the two stages of sampling on the history as it stands. Every full
    /// batch of five raw samples that has no pre-aggregate yet gets one. Then
    /// the scale is selected; while it stays, the pre-aggregates past the
    /// window cursor are bucketed window by window and the points appended;
    /// when it changes, the series is rebuilt from the whole raw history.
    pub fn update(&mut self)
        requires
            old(self).wf(),
        ensures
            final(self).wf(),
            old(self).updated_to(final(self)),
            final(self).pre_view().len() == old(self).raw_view().len() / 5,
            final(self).scale_view() >= old(self).scale_view(),
            final(self).scale_view() != old(self).scale_view() ==> final(self).sampled_view().len()
                == old(self).raw_view().len() / final(self).scale_view() as nat,
            final(self).scale_view() == old(self).scale_view() ==> final(self).sampled_view().len()
                + old(self).cursor_view() <= old(self).sampled_view().len()
                + final(self).pre_view().len(),
    {
        let ghost raw0 = self.raw@;
        let ghost sampled0 = self.sampled@;
        let ghost cursor0 = self.window_cursor as int;
        let ghost scale0 = self.scale;
        let total: usize = self.raw.len();
        while total - self.pre.len() * 5 >= 5
            invariant
                self.raw@ == raw0,
                self.sampled@ == sampled0,
                self.window_cursor == cursor0,
                self.scale == scale0,
                total == raw0.len(),
                5 * self.pre@.len() <= raw0.len(),
                cursor0 <= self.pre@.len(),
                forall|k: int|
                    0 <= k < self.pre@.len() ==> #[trigger] self.pre@[k] == pre_aggregate_at(
                        raw0,
                        k,
                    ),
            decreases raw0.len() - 5 * self.pre@.len(),
        {
            let start: usize = self.pre.len() * 5;
            let point: SampledPoint = summarize_raw(&self.raw, start, start + 5);
            let entry = PreAggregate {
                min_ms: point.min_ms,
                avg_ms: point.avg_ms,
                max_ms: point.max_ms,
                window_start_time: self.raw[start].arrival_time,
            };
            self.pre.push(entry);
        }
        assert(self.pre@ =~= pre_aggregates_of(raw0));
        proof {
            lemma_windows_from_len(self.pre@, cursor0, scale0);
        }
        if total == 0 {
            assert(sampled0 + windows_from(self.pre@, cursor0, scale0) =~= sampled0);
            return ;
        }
        assert(raw0[0].arrival_time <= raw0.last().arrival_time);
        let elapsed: u64 = self.raw[total - 1].arrival_time - self.raw[0].arrival_time;
        let scale: u16 = select_scale(elapsed);
        if scale == self.scale {
            while self.window_cursor < self.pre.len()
                invariant
                    self.raw@ == raw0,
                    self.scale == scale0,
                    self.pre@ == pre_aggregates_of(raw0),
                    cursor0 <= self.window_cursor <= self.pre@.len(),
                    sampled0 + windows_from(self.pre@, cursor0, scale0) == self.sampled@
                        + windows_from(self.pre@, self.window_cursor as int, scale0),
                decreases self.pre@.len() - self.window_cursor,
            {
                let end: usize = find_window_end(&self.pre, self.window_cursor, self.scale);
                let point: SampledPoint = summarize_window(&self.pre, self.window_cursor, end);
                proof {
                    let rest = windows_from(self.pre@, end as int, scale0);
                    assert(self.sampled@.push(point) + rest =~= self.sampled@ + (seq![point]
                        + rest));
                }
                self.sampled.push(point);
                self.window_cursor = end;
            }
            assert(self.sampled@ + windows_from(self.pre@, self.window_cursor as int, scale0)
                =~= self.sampled@);
        } else {
            self.scale = scale;
            self.sampled = rebuild(&self.raw, scale);
            self.window_cursor = self.pre.len();
        }
    }

    /// Records the raw sample of one probe attempt and runs the sampling update
    /// on it.
    pub fn observe(&mut self, elapsed_ms: u64, arrival_time: u64) -> (sample: RawSample)
        requires
            old(self).wf(),
            old(self).raw_view().len() < u32::MAX,
            old(self).raw_view().len() > 0 ==> old(self).raw_view().last().arrival_time
                <= arrival_time,
        ensures
            final(self).wf(),
            sample == (RawSample {
                sequence: old(self).raw_view().len() as u32,
                latency_ms: clamped_latency(elapsed_ms),
                arrival_time,
            }),
            old(self).observed_to(final(self), sample),
            final(self).pre_view().len() == (old(self).raw_view().len() + 1) / 5,
            final(self).scale_view() >= old(self).scale_view(),
    {
        let sample: RawSample = self.record(elapsed_ms, arrival_time);
        self.update();
        sample
    }

    /// Discards the sampled series and rebuilds it from the whole raw history
    /// at the current scale.
    pub fn resample(&mut self)
        requires
            old(self).wf(),
        ensures
            final(self).wf(),
            old(self).resampled_to(final(self)),
            final(self).sampled_view().len() == old(self).raw_view().len()
                / old(self).scale_view() as nat,
    {
        self.sampled = rebuild(&self.raw, self.scale);
        self.window_cursor = self.pre.len();
    }
}

/// Rebuilding the series twice at the same scale gives the series of the
/// first rebuild.
pub proof fn lemma_resample_idempotent(
    start: SamplingEngine,
    once: SamplingEngine,
    twice: SamplingEngine,
)
    requires
        start.resampled_to(&once),
        once.resampled_to(&twice),
    ensures
        twice.sampled_view() == once.sampled_view(),
        twice.raw_view() == once.raw_view(),
        twice.pre_view() == once.pre_view(),
        twice.cursor_view() == once.cursor_view(),
        twice.scale_view() == once.scale_view(),
{
}

/// A rebuilt series has one point for every full run of `scale` raw samples.
pub proof fn lemma_rebuilt_len(raw: Seq<RawSample>, scale: u16)
    requires
        scale > 0,
    ensures
        rebuilt(raw, scale).len() == raw.len() / scale as nat,
{
}

/// A history of `n` raw samples has `n / 5` pre-aggregates: the samples past
/// the last full batch of five give none.
pub proof fn lemma_pre_aggregate_count(raw: Seq<RawSample>)
    ensures
        pre_aggregates_of(raw).len() == raw.len() / 5,
        pre_aggregates_of(raw) == pre_aggregates_of(raw.subrange(0, 5 * (raw.len() as int / 5))),
{
    let whole = raw.subrange(0, 5 * (raw.len() as int / 5));
    assert forall|k: int| 0 <= k < raw.len() / 5 implies pre_aggregate_at(raw, k)
        == pre_aggregate_at(whole, k) by {
        assert(latencies(raw).subrange(5 * k, 5 * k + 5) =~= latencies(whole).subrange(
            5 * k,
            5 * k + 5,
        ));
    }
    assert(pre_aggregates_of(raw) =~= pre_aggregates_of(whole));
}

/// The summary of a non-empty raw history: how many probes were sent, how
/// many were lost, and the minimum, truncated average and maximum latency.
pub open spec fn statistics_of(raw: Seq<RawSample>) -> Statistics {
    Statistics {
        transmitted: raw.len() as usize,
        received: (raw.len() - lost_in(latencies(raw))) as usize,
        lost: lost_in(latencies(raw)) as usize,
        min_ms: min_of(latencies(raw)),
        avg_ms: avg_of(latencies(raw)),
        max_ms: max_of(latencies(raw)),
    }
}

/// The share of lost probes in ten-thousandths of all probes sent, rounded
/// down: 833 stands for 8.33 %.
pub open spec fn loss_share_of(summary: Statistics) -> nat {
    if summary.transmitted == 0 {
        0
    } else {
        (summary.lost as nat * 10000) / (summary.transmitted as nat)
    }
}

/// Gives the share of lost probes in ten-thousandths of all probes sent,
/// rounded down.
pub fn loss_share(summary: &Statistics) -> (share: u64)
    requires
        summary.lost <= summary.transmitted,
    ensures
        share == loss_share_of(*summary),
        share <= 10000,
{
    if summary.transmitted == 0 {
        0
    } else {
        let lost: u128 = summary.lost as u128;
        let transmitted: u128 = summary.transmitted as u128;
        assert((lost * 10000) as int / transmitted as int <= 10000) by (nonlinear_arith)
            requires
                0 <= lost <= transmitted,
                transmitted > 0,
        ;
        (lost * 10000 / transmitted) as u64
    }
}

impl SamplingEngine {
    /// The raw samples, oldest first.
    pub fn raw_samples(&self) -> (raw: &Vec<RawSample>)
        ensures
            raw@ == self.raw_view(),
    {
        &self.raw
    }

    /// The pre-aggregates made so far.
    pub fn pre_aggregates(&self) -> (pre: &Vec<PreAggregate>)
        ensures
            pre@ == self.pre_view(),
    {
        &self.pre
    }

    /// The sampled series.
    pub fn sampled_points(&self) -> (points: &Vec<SampledPoint>)
        ensures
            points@ == self.sampled_view(),
    {
        &self.sampled
    }

    /// The current scale, in seconds.
    pub fn scale(&self) -> (scale: u16)
        ensures
            scale == self.scale_view(),
    {
        self.scale
    }

    /// The index of the first pre-aggregate that no window holds yet.
    pub fn window_cursor(&self) -> (cursor: usize)
        ensures
            cursor == self.cursor_view(),
    {
        self.window_cursor
    }

    /// Seconds between the first raw sample and the last one.
    pub fn elapsed_time(&self) -> (elapsed: u64)
        requires
            self.wf(),
        ensures
            elapsed == elapsed_of(self.raw_view()),
    {
        let total: usize = self.raw.len();
        if total == 0 {
            0
        } else {
            assert(self.raw@[0].arrival_time <= self.raw@.last().arrival_time);
            self.raw[total - 1].arrival_time - self.raw[0].arrival_time
        }
    }

    /// The latency of every raw sample, oldest first.
    pub fn data(&self) -> (column: Vec<u16>)
        ensures
            column@ == latencies(self.raw_view()),
    {
        let mut column: Vec<u16> = Vec::new();
        let mut i: usize = 0;
        while i < self.raw.len()
            invariant
                i <= self.raw@.len(),
                column@.len() == i,
                forall|k: int| 0 <= k < i ==> column@[k] == self.raw@[k].latency_ms,
            decreases self.raw@.len() - i,
        {
            column.push(self.raw[i].latency_ms);
            i = i + 1;
        }
        assert(column@ =~= latencies(self.raw@));
        column
    }

    /// The arrival time of every raw sample, oldest first.
    pub fn sys_time(&self) -> (column: Vec<u64>)
        ensures
            column@ == arrival_times(self.raw_view()),
    {
        let mut column: Vec<u64> = Vec::new();
        let mut i: usize = 0;
        while i < self.raw.len()
            invariant
                i <= self.raw@.len(),
                column@.len() == i,
                forall|k: int| 0 <= k < i ==> column@[k] == self.raw@[k].arrival_time,
            decreases self.raw@.len() - i,
        {
            column.push(self.raw[i].arrival_time);
            i = i + 1;
        }
        assert(column@ =~= arrival_times(self.raw@));
        column
    }

    /// The tag time of every pre-aggregate.
    pub fn latency_time(&self) -> (column: Vec<u64>)
        ensures
            column@ == pre_times(self.pre_view()),
    {
        let mut column: Vec<u64> = Vec::new();
        let mut i: usize = 0;
        while i < self.pre.len()
            invariant
                i <= self.pre@.len(),
                column@.len() == i,
                forall|k: int| 0 <= k < i ==> column@[k] == self.pre@[k].window_start_time,
            decreases self.pre@.len() - i,
        {
            column.push(self.pre[i].window_start_time);
            i = i + 1;
        }
        assert(column@ =~= pre_times(self.pre@));
        column
    }

    /// One of the three columns of the pre-aggregates.
    pub fn pre_aggregate_column(&self, trend: Trend) -> (column: Vec<u16>)
        ensures
            column@ == pre_column(self.pre_view(), trend),
    {
        let mut column: Vec<u16> = Vec::new();
        let mut i: usize = 0;
        while i < self.pre.len()
            invariant
                i <= self.pre@.len(),
                column@.len() == i,
                forall|k: int| 0 <= k < i ==> column@[k] == pre_column(self.pre@, trend)[k],
            decreases self.pre@.len() - i,
        {
            let entry: PreAggregate = self.pre[i];
            let value: u16 = match trend {
                Trend::Min => entry.min_ms,
                Trend::Avg => entry.avg_ms,
                Trend::Max => entry.max_ms,
            };
            column.push(value);
            i = i + 1;
        }
        assert(column@ =~= pre_column(self.pre@, trend));
        column
    }

    /// One of the three columns of the sampled series.
    pub fn sampled_column(&self, trend: Trend) -> (column: Vec<u64>)
        ensures
            column@ == point_column(self.sampled_view(), trend),
    {
        let mut column: Vec<u64> = Vec::new();
        let mut i: usize = 0;
        while i < self.sampled.len()
            invariant
                i <= self.sampled@.len(),
                column@.len() == i,
                forall|k: int| 0 <= k < i ==> column@[k] == point_column(self.sampled@, trend)[k],
            decreases self.sampled@.len() - i,
        {
            let point: SampledPoint = self.sampled[i];
            let value: u64 = match trend {
                Trend::Min => point.min_ms as u64,
                Trend::Avg => point.avg_ms as u64,
                Trend::Max => point.max_ms as u64,
            };
            column.push(value);
            i = i + 1;
        }
        assert(column@ =~= point_column(self.sampled@, trend));
        column
    }

    /// The average of the latest sampled point, if there is one.
    pub fn last_average(&self) -> (average: Option<u64>)
        ensures
            average == if self.sampled_view().len() == 0 {
                None
            } else {
                Some(self.sampled_view().last().avg_ms as u64)
            },
    {
        let count: usize = self.sampled.len();
        if count == 0 {
            None
        } else {
            Some(self.sampled[count - 1].avg_ms as u64)
        }
    }

    /// How many raw samples carry the loss sentinel.
    pub fn loss_count(&self) -> (lost: usize)
        ensures
            lost == lost_in(latencies(self.raw_view())),
    {
        let ghost column = latencies(self.raw@);
        let mut lost: usize = 0;
        let mut i: usize = 0;
        while i < self.raw.len()
            invariant
                i <= self.raw@.len(),
                column == latencies(self.raw@),
                lost == lost_in(column.subrange(0, i as int)),
                lost <= i,
            decreases self.raw@.len() - i,
        {
            assert(column.subrange(0, i + 1).drop_last() =~= column.subrange(0, i as int));
            if self.raw[i].latency_ms == LOSS_SENTINEL_MS {
                lost = lost + 1;
            }
            i = i + 1;
        }
        assert(column.subrange(0, i as int) =~= column);
        lost
    }

    /// The summary of the session: probes sent, received and lost, and the
    /// minimum, truncated average and maximum latency over all raw samples.
    pub fn statistics(&self) -> (summary: Statistics)
        requires
            self.raw_view().len() > 0,
        ensures
            summary == statistics_of(self.raw_view()),
            summary.received + summary.lost == summary.transmitted,
    {
        let total: usize = self.raw.len();
        let lost: usize = self.loss_count();
        let point: SampledPoint = summarize_raw(&self.raw, 0, total);
        proof {
            lemma_lost_in_bound(latencies(self.raw@));
            assert(latencies(self.raw@).subrange(0, total as int) =~= latencies(self.raw@));
        }
        Statistics {
            transmitted: total,
            received: total - lost,
            lost,
            min_ms: point.min_ms,
            avg_ms: point.avg_ms,
            max_ms: point.max_ms,
        }
    }
}

} // verus!
