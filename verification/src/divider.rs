//! The divider: a draggable strip along the trailing edge of a column that
//! translates pointer gestures into width-resize notifications.
//!
//! The widget's interaction state lives here as a small state machine: every
//! pointer event first refreshes the hover flag from the current pointer
//! position, then may start a drag (press on the handle), emit a drag delta
//! (move while dragging) or end the drag (release). Events the divider does
//! not consume are forwarded to its child by the GUI shell.

use vstd::prelude::*;
use crate::geometry::Point;
use crate::geometry::Rect;

verus! {

/// Extra pixels on each side of the handle strip that still count as
/// hovering it, so the handle is easier to grab than its visual width.
pub const HOVER_MARGIN: i32 = 5;

/// Interaction state of one divider instance. `drag_origin` is `Some`
/// exactly between a press inside the handle's hover region and the matching
/// release; the hover flag is recomputed on every event.
#[derive(Clone, Copy, Debug, PartialEq, Eq)]
pub struct DividerState {
    pub drag_origin: Option<Point>,
    pub is_divider_hovered: bool,
}

/// The pointer events the divider distinguishes. Everything else (other
/// buttons, keyboard, window events) falls under `Other` and is passed on
/// untouched.
#[derive(Clone, Copy, Debug, PartialEq, Eq)]
pub enum DividerEvent {
    LeftPressed,
    LeftReleased,
    CursorMoved,
    Other,
}

/// What the divider reports outward: the horizontal offset of the pointer
/// from the drag origin, or the end of a drag.
#[derive(Clone, Copy, Debug, PartialEq, Eq)]
pub enum DividerNotice {
    Drag(i64),
    Release,
}

/// The result of handling one event: an optional notification for the
/// caller, and whether the event was consumed (a consumed event is not
/// delivered to the wrapped content).
#[derive(Clone, Copy, Debug, PartialEq, Eq)]
pub struct EventOutcome {
    pub notice: Option<DividerNotice>,
    pub captured: bool,
}

/// Leading edge of the handle strip: the divider occupies the last
/// `divider_width` pixels of the widget's bounds.
pub open spec fn divider_edge(bounds: Rect, divider_width: int) -> int {
    bounds.x + bounds.width - divider_width
}

/// Whether `p` lies in the handle's hover region: the handle strip widened
/// by `HOVER_MARGIN` pixels on both sides, full height.
pub open spec fn hover_contains(bounds: Rect, divider_width: int, p: Point) -> bool {
    &&& divider_edge(bounds, divider_width) - HOVER_MARGIN <= p.x
    &&& p.x < divider_edge(bounds, divider_width) + divider_width + HOVER_MARGIN
    &&& bounds.y <= p.y < bounds.y + bounds.height
}

/// Whether an (optional) pointer position lies in the hover region.
pub open spec fn cursor_over_hover(bounds: Rect, divider_width: int, cursor: Option<Point>) -> bool {
    match cursor {
        Some(p) => hover_contains(bounds, divider_width, p),
        None => false,
    }
}

/// Whether `p` hovers the wrapped content: the widget's bounds with the
/// leading `HOVER_MARGIN` pixels inset (though never past `HOVER_MARGIN`
/// pixels before the trailing edge), so content hover never competes with
/// the previous column's divider. The trailing edge is not moved: the inset
/// is on the leading edge only.
pub open spec fn content_contains(bounds: Rect, p: Point) -> bool {
    let inset = if bounds.x + HOVER_MARGIN <= bounds.x + bounds.width - HOVER_MARGIN {
        bounds.x + HOVER_MARGIN
    } else {
        bounds.x + bounds.width - HOVER_MARGIN
    };
    &&& inset <= p.x < bounds.x + bounds.width
    &&& bounds.y <= p.y < bounds.y + bounds.height
}

/// Whether an (optional) pointer position hovers the wrapped content.
pub open spec fn cursor_over_content(bounds: Rect, cursor: Option<Point>) -> bool {
    match cursor {
        Some(p) => content_contains(bounds, p),
        None => false,
    }
}

/// The divider's transition function: one pointer event takes the state to a
/// new state, an optional notification and a consumption flag. The hover
/// flag of the new state always reflects the current pointer position,
/// whether or not the event is consumed.
pub open spec fn divider_step(
    s: DividerState,
    bounds: Rect,
    divider_width: int,
    cursor: Option<Point>,
    event: DividerEvent,
) -> (DividerState, Option<DividerNotice>, bool) {
    let hovered = cursor_over_hover(bounds, divider_width, cursor);
    match event {
        DividerEvent::LeftPressed => {
            if hovered {
                (
                    DividerState { drag_origin: cursor, is_divider_hovered: hovered },
                    None,
                    true,
                )
            } else {
                (
                    DividerState { drag_origin: s.drag_origin, is_divider_hovered: hovered },
                    None,
                    false,
                )
            }
        },
        DividerEvent::LeftReleased => {
            if s.drag_origin is Some {
                (
                    DividerState { drag_origin: None, is_divider_hovered: hovered },
                    Some(DividerNotice::Release),
                    true,
                )
            } else {
                (
                    DividerState { drag_origin: None, is_divider_hovered: hovered },
                    None,
                    false,
                )
            }
        },
        DividerEvent::CursorMoved => {
            match (cursor, s.drag_origin) {
                (Some(p), Some(o)) => (
                    DividerState { drag_origin: s.drag_origin, is_divider_hovered: hovered },
                    Some(DividerNotice::Drag((p.x - o.x) as i64)),
                    true,
                ),
                _ => (
                    DividerState { drag_origin: s.drag_origin, is_divider_hovered: hovered },
                    None,
                    false,
                ),
            }
        },
        DividerEvent::Other => (
            DividerState { drag_origin: s.drag_origin, is_divider_hovered: hovered },
            None,
            false,
        ),
    }
}

/// Whether `p` lies in the handle's hover region.
pub fn is_over_hover_region(bounds: Rect, divider_width: i32, p: Point) -> (b: bool)
    ensures
        b == hover_contains(bounds, divider_width as int, p),
{
    let edge: i64 = bounds.x as i64 + bounds.width as i64 - divider_width as i64;
    let px = p.x as i64;
    let py = p.y as i64;
    edge - HOVER_MARGIN as i64 <= px && px < edge + divider_width as i64 + HOVER_MARGIN as i64
        && bounds.y as i64 <= py && py < bounds.y as i64 + bounds.height as i64
}

/// Whether the pointer hovers the wrapped content (the leading
/// `HOVER_MARGIN` pixels are ignored, to leave them to the divider on the
/// left).
pub fn is_content_hovered(bounds: Rect, cursor: Option<Point>) -> (b: bool)
    ensures
        b == cursor_over_content(bounds, cursor),
{
    match cursor {
        Some(p) => {
            let lead: i64 = bounds.x as i64 + HOVER_MARGIN as i64;
            let cap: i64 = bounds.x as i64 + bounds.width as i64 - HOVER_MARGIN as i64;
            let inset: i64 = if lead <= cap {
                lead
            } else {
                cap
            };
            let px = p.x as i64;
            let py = p.y as i64;
            inset <= px && px < bounds.x as i64 + bounds.width as i64 && bounds.y as i64 <= py
                && py < bounds.y as i64 + bounds.height as i64
        },
        None => false,
    }
}

impl DividerState {
    /// The state of a divider that has never been interacted with.
    pub fn new() -> (s: DividerState)
        ensures
            s == (DividerState { drag_origin: None::<Point>, is_divider_hovered: false }),
    {
        DividerState { drag_origin: None, is_divider_hovered: false }
    }

    /// Handles one pointer event, exactly as `divider_step` describes:
    /// refresh the hover flag, then start a drag on a press over the handle,
    /// report the horizontal offset from the origin on a move while
    /// dragging, or end the drag on a release.
    pub fn on_event(
        &mut self,
        bounds: Rect,
        divider_width: i32,
        cursor: Option<Point>,
        event: DividerEvent,
    ) -> (r: EventOutcome)
        ensures
            ({
                let (s2, notice, captured) = divider_step(
                    *old(self),
                    bounds,
                    divider_width as int,
                    cursor,
                    event,
                );
                &&& *final(self) == s2
                &&& r.notice == notice
                &&& r.captured == captured
            }),
            final(self).is_divider_hovered == cursor_over_hover(
                bounds,
                divider_width as int,
                cursor,
            ),
    {
        let hovered = match cursor {
            Some(p) => is_over_hover_region(bounds, divider_width, p),
            None => false,
        };
        self.is_divider_hovered = hovered;
        match event {
            DividerEvent::LeftPressed => {
                if hovered {
                    self.drag_origin = cursor;
                    EventOutcome { notice: None, captured: true }
                } else {
                    EventOutcome { notice: None, captured: false }
                }
            },
            DividerEvent::LeftReleased => {
                let was_dragging = self.drag_origin.is_some();
                self.drag_origin = None;
                if was_dragging {
                    EventOutcome { notice: Some(DividerNotice::Release), captured: true }
                } else {
                    EventOutcome { notice: None, captured: false }
                }
            },
            DividerEvent::CursorMoved => {
                match (cursor, self.drag_origin) {
                    (Some(p), Some(o)) => {
                        let delta: i64 = p.x as i64 - o.x as i64;
                        EventOutcome { notice: Some(DividerNotice::Drag(delta)), captured: true }
                    },
                    _ => EventOutcome { notice: None, captured: false },
                }
            },
            DividerEvent::Other => EventOutcome { notice: None, captured: false },
        }
    }

    /// Whether the pointer should show the horizontal-resize cursor: while
    /// hovering the handle or dragging it; otherwise the wrapped content's
    /// own cursor report stands.
    pub fn wants_resize_cursor(&self) -> (b: bool)
        ensures
            b == (self.drag_origin is Some || self.is_divider_hovered),
    {
        self.drag_origin.is_some() || self.is_divider_hovered
    }

    /// Whether the handle should be painted at all: when the content is
    /// hovered, the handle is hovered, or a drag is active.
    pub fn should_draw_handle(&self, bounds: Rect, cursor: Option<Point>) -> (b: bool)
        ensures
            b == (cursor_over_content(bounds, cursor) || self.is_divider_hovered
                || self.drag_origin is Some),
    {
        is_content_hovered(bounds, cursor) || self.is_divider_hovered
            || self.drag_origin.is_some()
    }

    /// Whether the handle is painted with its emphasized appearance: while
    /// hovered or dragged (content hover alone shows the plain appearance).
    pub fn handle_highlighted(&self) -> (b: bool)
        ensures
            b == (self.is_divider_hovered || self.drag_origin is Some),
    {
        self.is_divider_hovered || self.drag_origin.is_some()
    }
}

/// A drag is active exactly between a press inside the handle's hover region
/// and the matching release: a step leaves the origin set when the event is
/// such a press (the origin is that pointer position), keeps whatever origin
/// was set on any event but a release, and clears it on a release. Note the
/// flip side: when a release is never delivered (say, after a focus change),
/// the origin stays latched until the next press/release pair on this
/// divider — no other event clears it.
pub proof fn lemma_drag_lifecycle(
    s: DividerState,
    bounds: Rect,
    divider_width: int,
    cursor: Option<Point>,
    event: DividerEvent,
)
    ensures
        divider_step(s, bounds, divider_width, cursor, event).0.drag_origin == (
        if event == DividerEvent::LeftPressed && cursor_over_hover(bounds, divider_width, cursor) {
            cursor
        } else if event == DividerEvent::LeftReleased {
            None::<Point>
        } else {
            s.drag_origin
        }),
{
}

/// Hover is refreshed before any consumption decision: after any event, the
/// hover flag reflects the current event's pointer position, also when the
/// event is not consumed.
pub proof fn lemma_hover_reflects_current_event(
    s: DividerState,
    bounds: Rect,
    divider_width: int,
    cursor: Option<Point>,
    event: DividerEvent,
)
    ensures
        divider_step(s, bounds, divider_width, cursor, event).0.is_divider_hovered
            == cursor_over_hover(bounds, divider_width, cursor),
{
}

/// Drag notifications are idempotent replacements, not accumulated deltas:
/// two consecutive move events while dragging each report their own
/// pointer's offset from the unchanged origin, independent of the earlier
/// notification.
pub proof fn lemma_drag_notice_idempotent(
    s: DividerState,
    bounds: Rect,
    divider_width: int,
    o: Point,
    p1: Point,
    p2: Point,
)
    requires
        s.drag_origin == Some(o),
    ensures
        ({
            let (s1, n1, c1) = divider_step(
                s,
                bounds,
                divider_width,
                Some(p1),
                DividerEvent::CursorMoved,
            );
            let (s2, n2, c2) = divider_step(
                s1,
                bounds,
                divider_width,
                Some(p2),
                DividerEvent::CursorMoved,
            );
            &&& n1 == Some(DividerNotice::Drag((p1.x - o.x) as i64))
            &&& n2 == Some(DividerNotice::Drag((p2.x - o.x) as i64))
            &&& s1.drag_origin == Some(o)
            &&& s2.drag_origin == Some(o)
        }),
{
}

} // verus!
