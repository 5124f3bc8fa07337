//! The arithmetic of the bar graph: how high each bar stands, what the marks
//! of the scale read, and which view a key selects.

use vstd::prelude::*;
use crate::sampling::Trend;

verus! {

/// The greatest value of a series; zero for an empty one.
pub open spec fn top_of(data: Seq<u64>) -> u64
    decreases data.len(),
{
    if data.len() == 0 {
        0
    } else {
        let rest = top_of(data.drop_last());
        if data.last() > rest {
            data.last()
        } else {
            rest
        }
    }
}

/// The range that the graph spans: the greatest value, and at least one.
pub open spec fn range_of(data: Seq<u64>) -> u64 {
    if top_of(data) < 1 {
        1
    } else {
        top_of(data)
    }
}

/// The height of the bar of `value` in a graph of `graph_height` rows that
/// spans `range`: its share of the rows, rounded down, and at least one row.
pub open spec fn bar_height_of(value: u64, range: u64, graph_height: u16) -> nat {
    if range == 0 || (value as nat * graph_height as nat) / (range as nat) == 0 {
        1
    } else {
        (value as nat * graph_height as nat) / (range as nat)
    }
}

/// The value that the `i`-th mark of the scale reads, counted from the
/// bottom.
pub open spec fn scale_mark_of(range: u64, graph_height: u16, i: nat) -> nat {
    if graph_height == 0 {
        0
    } else {
        (range as nat * i) / (graph_height as nat)
    }
}

/// No value of a series is above its greatest value.
pub proof fn lemma_top_of_is_greatest(data: Seq<u64>, i: int)
    requires
        0 <= i < data.len(),
    ensures
        data[i] <= top_of(data),
    decreases data.len(),
{
    if i < data.len() - 1 {
        lemma_top_of_is_greatest(data.drop_last(), i);
    }
}

/// Finds the range that the graph of a series spans.
pub fn graph_range(data: &Vec<u64>) -> (range: u64)
    ensures
        range == range_of(data@),
{
    let mut top: u64 = 0;
    let mut i: usize = 0;
    while i < data.len()
        invariant
            i <= data@.len(),
            top == top_of(data@.subrange(0, i as int)),
        decreases data@.len() - i,
    {
        assert(data@.subrange(0, i + 1).drop_last() =~= data@.subrange(0, i as int));
        if data[i] > top {
            top = data[i];
        }
        i = i + 1;
    }
    assert(data@.subrange(0, i as int) =~= data@);
    if top < 1 {
        1
    } else {
        top
    }
}

/// Gives the height of every bar of a series in a graph of `graph_height`
/// rows. No bar is higher than the graph, and none but in a graph without rows
/// is lower than one row.
pub fn bar_heights(data: &Vec<u64>, graph_height: u16) -> (heights: Vec<u64>)
    ensures
        heights@.len() == data@.len(),
        forall|i: int|
            0 <= i < data@.len() ==> #[trigger] heights@[i] == bar_height_of(
                data@[i],
                range_of(data@),
                graph_height,
            ),
        forall|i: int|
            0 <= i < data@.len() && graph_height >= 1 ==> 1 <= #[trigger] heights@[i]
                <= graph_height,
{
    let range: u64 = graph_range(data);
    let mut heights: Vec<u64> = Vec::new();
    let mut i: usize = 0;
    while i < data.len()
        invariant
            i <= data@.len(),
            range == range_of(data@),
            range >= 1,
            heights@.len() == i,
            forall|k: int|
                0 <= k < i ==> #[trigger] heights@[k] == bar_height_of(
                    data@[k],
                    range,
                    graph_height,
                ),
            forall|k: int|
                0 <= k < i && graph_height >= 1 ==> 1 <= #[trigger] heights@[k] <= graph_height,
        decreases data@.len() - i,
    {
        let value: u64 = data[i];
        proof {
            lemma_top_of_is_greatest(data@, i as int);
            let v = value as int;
            let h = graph_height as int;
            let r = range as int;
            assert(0 <= v * h <= 0xFFFF_FFFF_FFFF_FFFF * 0xFFFF) by (nonlinear_arith)
                requires
                    0 <= v <= 0xFFFF_FFFF_FFFF_FFFF,
                    0 <= h <= 0xFFFF,
            ;
            assert((v * h) / r <= h) by (nonlinear_arith)
                requires
                    0 <= v <= r,
                    r >= 1,
                    h >= 0,
            ;
        }
        let share: u128 = (value as u128 * graph_height as u128) / range as u128;
        let height: u64 = if share == 0 {
            1
        } else {
            share as u64
        };
        heights.push(height);
        i = i + 1;
    }
    heights
}

/// Gives the values that the marks of the scale read, from the top mark down
/// to zero: one mark for each row and one more.
pub fn scale_marks(range: u64, graph_height: u16) -> (marks: Vec<u64>)
    requires
        graph_height >= 1,
    ensures
        marks@.len() == graph_height + 1,
        forall|i: int|
            0 <= i <= graph_height ==> #[trigger] marks@[i] == scale_mark_of(
                range,
                graph_height,
                (graph_height - i) as nat,
            ),
{
    let mut marks: Vec<u64> = Vec::new();
    let mut i: u32 = 0;
    let rows: u32 = graph_height as u32;
    while i <= rows
        invariant
            rows == graph_height,
            rows >= 1,
            i <= rows + 1,
            marks@.len() == i,
            forall|k: int|
                0 <= k < i ==> #[trigger] marks@[k] == scale_mark_of(
                    range,
                    graph_height,
                    (graph_height - k) as nat,
                ),
        decreases rows + 1 - i,
    {
        let step: u32 = rows - i;
        proof {
            let r = range as int;
            let s = step as int;
            let h = rows as int;
            assert(0 <= r * s <= 0xFFFF_FFFF_FFFF_FFFF * 0xFFFF) by (nonlinear_arith)
                requires
                    0 <= r <= 0xFFFF_FFFF_FFFF_FFFF,
                    0 <= s <= 0xFFFF,
            ;
            assert((r * s) / h <= r) by (nonlinear_arith)
                requires
                    0 <= s <= h,
                    h >= 1,
                    r >= 0,
            ;
        }
        let mark: u128 = (range as u128 * step as u128) / rows as u128;
        marks.push(mark as u64);
        i = i + 1;
    }
    marks
}

/// What a key does in the graph viewer.
#[derive(Clone, Copy, Debug, PartialEq, Eq, Structural)]
pub enum ViewerStep {
    /// Leave the viewer.
    Quit,
    /// Show the given series.
    Show(Trend),
}

/// What a key does in a viewer that shows `current`: `q` leaves, `a` shows the
/// minima, `m` the averages, `i` the maxima, any other key changes nothing.
pub open spec fn viewer_step_of(key: char, current: Trend) -> ViewerStep {
    if key == 'q' {
        ViewerStep::Quit
    } else if key == 'a' {
        ViewerStep::Show(Trend::Min)
    } else if key == 'm' {
        ViewerStep::Show(Trend::Avg)
    } else if key == 'i' {
        ViewerStep::Show(Trend::Max)
    } else {
        ViewerStep::Show(current)
    }
}

/// Reads a key in the graph viewer.
pub fn viewer_step(key: char, current: Trend) -> (step: ViewerStep)
    ensures
        step == viewer_step_of(key, current),
{
    if key == 'q' {
        ViewerStep::Quit
    } else if key == 'a' {
        ViewerStep::Show(Trend::Min)
    } else if key == 'm' {
        ViewerStep::Show(Trend::Avg)
    } else if key == 'i' {
        ViewerStep::Show(Trend::Max)
    } else {
        ViewerStep::Show(current)
    }
}

} // verus!
