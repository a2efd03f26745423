//! The table composer: configuration of a table render pass and the pure
//! plan it composes — effective column widths, the trailing filler enforcing
//! the minimum total width, and the horizontal scroll-sync payload.

use vstd::prelude::*;
use crate::layout::ColumnSizing;
use crate::layout::column_effective_width;
use crate::layout::effective_width;
use crate::layout::filler_width;
use crate::layout::filler_width_spec;
use crate::layout::total_effective_width;
use crate::layout::total_effective_width_spec;

verus! {

/// The identity of a scrollable region, assigned by the caller, who uses it
/// to issue programmatic scroll commands against that region.
#[derive(Clone, Copy, Debug, PartialEq, Eq, Structural)]
pub struct ScrollableId(pub u64);

/// Padding around the content of one cell, in pixels.
#[derive(Clone, Copy, Debug, PartialEq, Eq, Structural)]
pub struct Padding {
    pub top: i32,
    pub right: i32,
    pub bottom: i32,
    pub left: i32,
}

impl Padding {
    /// The same padding on all four sides.
    pub fn uniform(value: i32) -> (p: Padding)
        ensures
            p == (Padding { top: value, right: value, bottom: value, left: value }),
    {
        Padding { top: value, right: value, bottom: value, left: value }
    }
}

/// An absolute scroll position of a scrollable region.
#[derive(Clone, Copy, Debug, PartialEq, Eq, Structural)]
pub struct ScrollOffset {
    pub x: i64,
    pub y: i64,
}

/// The payload of the scroll-sync notification sent after every body scroll:
/// the body's new horizontal offset, with the vertical component zeroed —
/// header and footer never scroll vertically, so only x is propagated.
pub fn sync_payload(offset: ScrollOffset) -> (r: ScrollOffset)
    ensures
        r.x == offset.x,
        r.y == 0,
{
    ScrollOffset { x: offset.x, y: 0 }
}

/// Configuration of one table render pass, immutable during the pass.
#[derive(Clone, Copy, Debug, PartialEq, Eq)]
pub struct Table {
    /// Identity of the header scroll region.
    pub header: ScrollableId,
    /// Identity of the body scroll region.
    pub body: ScrollableId,
    /// Identity of the footer scroll region; `None` leaves the footer out.
    pub footer: Option<ScrollableId>,
    /// Whether interactive column resizing is wired up (the caller supplied
    /// resize callbacks): dividers are placed between columns instead of
    /// fixed spacers.
    pub resize_enabled: bool,
    /// Minimum total width of the table, enforced by a trailing filler.
    pub min_width: i32,
    /// Minimum width a column can have or be resized to.
    pub min_column_width: i32,
    /// Thickness of the divider handle (or of the spacer replacing it).
    pub divider_width: i32,
    /// Padding inside each cell.
    pub cell_padding: Padding,
}

/// A new table over the given header and body scroll regions, with the
/// default configuration: no footer, no resizing, no minimum total width, a
/// minimum column width of 4, dividers 2 pixels thick and 4 pixels of cell
/// padding.
pub fn table(header: ScrollableId, body: ScrollableId) -> (t: Table)
    ensures
        t.header == header,
        t.body == body,
        t.footer is None,
        !t.resize_enabled,
        t.min_width == 0,
        t.min_column_width == 4,
        t.divider_width == 2,
        t.cell_padding == (Padding { top: 4, right: 4, bottom: 4, left: 4 }),
{
    Table {
        header,
        body,
        footer: None,
        resize_enabled: false,
        min_width: 0,
        min_column_width: 4,
        divider_width: 2,
        cell_padding: Padding::uniform(4),
    }
}

impl Table {
    /// Enables the resizing interaction: columns get draggable dividers, and
    /// the caller receives a drag notification per move and a release
    /// notification when the drag ends.
    pub fn on_column_resize(self) -> (t: Table)
        ensures
            t == (Table { resize_enabled: true, ..self }),
    {
        Table { resize_enabled: true, ..self }
    }

    /// Shows the footer, rendered into the scroll region named here.
    pub fn footer(self, footer: ScrollableId) -> (t: Table)
        ensures
            t == (Table { footer: Some(footer), ..self }),
    {
        Table { footer: Some(footer), ..self }
    }

    /// Sets the minimum total width of the table.
    pub fn min_width(self, min_width: i32) -> (t: Table)
        ensures
            t == (Table { min_width, ..self }),
    {
        Table { min_width, ..self }
    }

    /// Sets the minimum width a column can be resized to.
    pub fn min_column_width(self, min_column_width: i32) -> (t: Table)
        ensures
            t == (Table { min_column_width, ..self }),
    {
        Table { min_column_width, ..self }
    }

    /// Sets the thickness of the column dividers.
    pub fn divider_width(self, divider_width: i32) -> (t: Table)
        ensures
            t == (Table { divider_width, ..self }),
    {
        Table { divider_width, ..self }
    }

    /// Sets the padding used inside each cell.
    pub fn cell_padding(self, cell_padding: Padding) -> (t: Table)
        ensures
            t == (Table { cell_padding, ..self }),
    {
        Table { cell_padding, ..self }
    }
}

/// The plan of one render pass: the widths every region lays its cells out
/// with. Header and footer cells end in a divider when resizing is enabled
/// and in a fixed spacer otherwise; body cells always end in a spacer; the
/// filler, when present, is appended after the last column of every region.
#[derive(Clone, Debug, PartialEq, Eq)]
pub struct TablePlan {
    /// Effective width of each column, in column order.
    pub column_widths: Vec<i64>,
    /// Sum of the effective widths.
    pub total_width: i64,
    /// Width of the trailing filler cell; `None` when the columns already
    /// reach the configured minimum and no filler is rendered.
    pub filler_width: Option<u64>,
    /// Number of body rows.
    pub row_count: usize,
    /// Whether header and footer cells carry dividers.
    pub resize_enabled: bool,
    /// Identity of the header scroll region.
    pub header: ScrollableId,
    /// Identity of the body scroll region.
    pub body: ScrollableId,
    /// Identity of the footer scroll region, when the footer is shown.
    pub footer: Option<ScrollableId>,
}

/// Composes the plan of one render pass from the table configuration and the
/// columns' sizing state.
pub fn compose(t: &Table, columns: &Vec<ColumnSizing>, row_count: usize) -> (r: TablePlan)
    requires
        i64::MIN <= total_effective_width_spec(columns@, t.min_column_width as int) <= i64::MAX,
    ensures
        r.column_widths@.len() == columns@.len(),
        forall|i: int| 0 <= i < columns@.len() ==> r.column_widths@[i]
            == column_effective_width(columns@[i], t.min_column_width as int),
        r.total_width == total_effective_width_spec(columns@, t.min_column_width as int),
        r.filler_width == ({
            let f = filler_width_spec(r.total_width as int, t.min_width as int);
            if f > 0 {
                Some(f as u64)
            } else {
                None::<u64>
            }
        }),
        r.row_count == row_count,
        r.resize_enabled == t.resize_enabled,
        r.header == t.header,
        r.body == t.body,
        r.footer == t.footer,
{
    let n = columns.len();
    let mut column_widths: Vec<i64> = Vec::new();
    for i in 0..n
        invariant
            n == columns@.len(),
            column_widths@.len() == i,
            forall|j: int| 0 <= j < i ==> column_widths@[j]
                == column_effective_width(columns@[j], t.min_column_width as int),
    {
        let c = columns[i];
        let w = effective_width(
            c.width,
            match c.resize_offset { Some(o) => o, None => 0 },
            t.min_column_width,
        );
        column_widths.push(w);
    }
    let total_width = total_effective_width(columns, t.min_column_width);
    let filler = filler_width(total_width, t.min_width);
    TablePlan {
        column_widths,
        total_width,
        filler_width: if filler > 0 {
            Some(filler)
        } else {
            None
        },
        row_count,
        resize_enabled: t.resize_enabled,
        header: t.header,
        body: t.body,
        footer: t.footer,
    }
}

} // verus!
