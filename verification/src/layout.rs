//! Column width arithmetic: effective widths, drag notifications, the
//! caller-side resize protocol, and the trailing filler that enforces a
//! minimum total table width.

use vstd::prelude::*;

verus! {

/// The width a column occupies on screen: its committed width plus any
/// in-flight resize delta, floored to the minimum column width.
pub open spec fn effective_width_spec(width: int, offset: int, min_column_width: int) -> int {
    if width + offset >= min_column_width {
        width + offset
    } else {
        min_column_width
    }
}

/// A column's sizing state, as the caller stores it: the committed width and
/// the transient delta of an in-flight drag (`None` when no drag is active
/// for the column).
#[derive(Clone, Copy, Debug, PartialEq, Eq)]
pub struct ColumnSizing {
    pub width: i32,
    pub resize_offset: Option<i32>,
}

/// The in-flight delta of a column, or zero when none is active.
pub open spec fn offset_or_zero(c: ColumnSizing) -> int {
    match c.resize_offset {
        Some(o) => o as int,
        None => 0,
    }
}

/// The effective width of a stored column.
pub open spec fn column_effective_width(c: ColumnSizing, min_column_width: int) -> int {
    effective_width_spec(c.width as int, offset_or_zero(c), min_column_width)
}

/// Clamped width of one column: `max(width + offset, min_column_width)`.
pub fn effective_width(width: i32, offset: i32, min_column_width: i32) -> (r: i64)
    ensures
        r == effective_width_spec(width as int, offset as int, min_column_width as int),
{
    let sum: i64 = width as i64 + offset as i64;
    let floor: i64 = min_column_width as i64;
    if sum >= floor {
        sum
    } else {
        floor
    }
}

/// The effective width is exactly the clamped sum and never drops below the
/// configured floor, and widening the drag never narrows the column.
pub proof fn lemma_effective_width_monotonic(width: int, d1: int, d2: int, min_column_width: int)
    requires
        d1 <= d2,
    ensures
        effective_width_spec(width, d1, min_column_width)
            <= effective_width_spec(width, d2, min_column_width),
        effective_width_spec(width, d1, min_column_width) >= min_column_width,
{
}

/// What a drag notification carries for a column: the difference between the
/// clamped new width and the committed width. It is relative to the committed
/// width, never to the previous notification.
pub open spec fn resize_delta_spec(old_width: int, drag_delta: int, min_column_width: int) -> int {
    effective_width_spec(old_width, drag_delta, min_column_width) - old_width
}

/// The delta reported outward while a divider is dragged: the column's new
/// absolute width is re-derived from the committed width and clamped, so
/// repeated notifications replace one another instead of accumulating.
pub fn resize_notification(old_width: i32, drag_delta: i64, min_column_width: i32) -> (r: i64)
    ensures
        r == resize_delta_spec(old_width as int, drag_delta as int, min_column_width as int),
{
    let sum: i128 = old_width as i128 + drag_delta as i128;
    let floor: i128 = min_column_width as i128;
    let new_width: i128 = if sum >= floor {
        sum
    } else {
        floor
    };
    (new_width - old_width as i128) as i64
}

/// Sum of the effective widths of all columns.
pub open spec fn total_effective_width_spec(columns: Seq<ColumnSizing>, min_column_width: int) -> int
    decreases columns.len(),
{
    if columns.len() == 0 {
        0
    } else {
        total_effective_width_spec(columns.drop_last(), min_column_width)
            + column_effective_width(columns.last(), min_column_width)
    }
}

/// One column contributes at most `2^32` pixels in magnitude to the total.
proof fn lemma_column_effective_width_bound(c: ColumnSizing, min_column_width: int)
    requires
        i32::MIN <= min_column_width <= i32::MAX,
    ensures
        -0x1_0000_0000 <= column_effective_width(c, min_column_width) <= 0x1_0000_0000,
{
}

/// Total width occupied by the columns of the table.
pub fn total_effective_width(columns: &Vec<ColumnSizing>, min_column_width: i32) -> (r: i64)
    requires
        i64::MIN <= total_effective_width_spec(columns@, min_column_width as int) <= i64::MAX,
    ensures
        r == total_effective_width_spec(columns@, min_column_width as int),
{
    let ghost mcw = min_column_width as int;
    let mut acc: i128 = 0;
    let n = columns.len();
    for i in 0..n
        invariant
            n == columns@.len(),
            acc == total_effective_width_spec(columns@.take(i as int), mcw),
            -(i as int) * 0x1_0000_0000 <= acc <= (i as int) * 0x1_0000_0000,
            mcw == min_column_width as int,
    {
        let c = columns[i];
        proof {
            lemma_column_effective_width_bound(c, mcw);
            assert(columns@.take(i + 1 as int).drop_last() =~= columns@.take(i as int));
            assert(columns@.take(i + 1 as int).last() == columns@[i as int]);
        }
        let w = effective_width(c.width, match c.resize_offset { Some(o) => o, None => 0 }, min_column_width);
        acc = acc + w as i128;
    }
    proof {
        assert(columns@.take(n as int) =~= columns@);
    }
    acc as i64
}

/// The width of the trailing filler cell: whatever is missing between the
/// columns' total width and the configured minimum, and zero when the columns
/// already reach it.
pub open spec fn filler_width_spec(total_width: int, min_width: int) -> int {
    if min_width - total_width > 0 {
        min_width - total_width
    } else {
        0
    }
}

/// Width of the filler appended after the last column.
pub fn filler_width(total_width: i64, min_width: i32) -> (r: u64)
    ensures
        r == filler_width_spec(total_width as int, min_width as int),
{
    let remaining: i128 = min_width as i128 - total_width as i128;
    if remaining > 0 {
        remaining as u64
    } else {
        0
    }
}

/// With the filler appended, the table always renders at exactly
/// `max(total_width, min_width)` pixels.
pub proof fn lemma_rendered_width(total_width: int, min_width: int)
    ensures
        total_width + filler_width_spec(total_width, min_width) == if total_width >= min_width {
            total_width
        } else {
            min_width
        },
{
}

/// The trailing filler makes up exactly what the columns' effective widths —
/// in-flight drag deltas included — leave missing below the configured
/// minimum: with effective widths summing to `W` and minimum `M`, the filler
/// is exactly `max(0, M - W)`, a filler cell is present exactly when
/// `M - W > 0`, and the rendered total is `max(W, M)`.
pub proof fn lemma_filler_covers_shortfall(
    columns: Seq<ColumnSizing>,
    min_column_width: int,
    min_width: int,
)
    ensures
        ({
            let total = total_effective_width_spec(columns, min_column_width);
            let filler = filler_width_spec(total, min_width);
            &&& filler == if min_width - total > 0 {
                min_width - total
            } else {
                0
            }
            &&& filler > 0 <==> min_width - total > 0
            &&& total + filler == if total >= min_width {
                total
            } else {
                min_width
            }
        }),
{
}

/// A column after a finished drag: the last-seen delta folded into the
/// committed width, the transient offset cleared.
pub open spec fn committed_column(c: ColumnSizing) -> ColumnSizing {
    match c.resize_offset {
        Some(o) => ColumnSizing { width: (c.width + o) as i32, resize_offset: None },
        None => c,
    }
}

/// Records an in-flight drag delta on the column at `index`, as the caller
/// does on each drag notification; an out-of-range index changes nothing.
pub fn apply_resize_offset(columns: &mut Vec<ColumnSizing>, index: usize, offset: i32)
    ensures
        final(columns)@.len() == old(columns)@.len(),
        index < old(columns)@.len() ==> final(columns)@ == old(columns)@.update(
            index as int,
            ColumnSizing { width: old(columns)@[index as int].width, resize_offset: Some(offset) },
        ),
        index >= old(columns)@.len() ==> final(columns)@ == old(columns)@,
{
    if index < columns.len() {
        let width = columns[index].width;
        columns.set(index, ColumnSizing { width, resize_offset: Some(offset) });
    }
}

/// Commits every in-flight drag: each transient offset is added to its
/// column's stored width and cleared, as the caller does on the release
/// notification.
pub fn commit_resize(columns: &mut Vec<ColumnSizing>)
    requires
        forall|i: int| 0 <= i < old(columns)@.len()
            ==> i32::MIN <= #[trigger] old(columns)@[i].width + offset_or_zero(old(columns)@[i])
                <= i32::MAX,
    ensures
        final(columns)@.len() == old(columns)@.len(),
        forall|i: int| 0 <= i < final(columns)@.len()
            ==> final(columns)@[i] == committed_column(old(columns)@[i]),
{
    let n = columns.len();
    for i in 0..n
        invariant
            n == columns@.len(),
            columns@.len() == old(columns)@.len(),
            forall|j: int| 0 <= j < i ==> columns@[j] == committed_column(old(columns)@[j]),
            forall|j: int| i <= j < n ==> columns@[j] == old(columns)@[j],
            forall|j: int| 0 <= j < old(columns)@.len()
                ==> i32::MIN <= #[trigger] old(columns)@[j].width + offset_or_zero(old(columns)@[j])
                    <= i32::MAX,
    {
        let c = columns[i];
        match c.resize_offset {
            Some(o) => {
                columns.set(i, ColumnSizing { width: c.width + o, resize_offset: None });
            },
            None => {},
        }
    }
}

} // verus!
