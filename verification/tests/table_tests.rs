//! The table composer: configuration defaults, the composed plan, the
//! scroll-sync payload, and the end-to-end resize scenarios.

use iced_table::divider::{DividerEvent, DividerNotice, DividerState};
use iced_table::geometry::{Point, Rect};
use iced_table::layout::{
    apply_resize_offset, commit_resize, resize_notification, ColumnSizing,
};
use iced_table::table::{compose, sync_payload, table, Padding, ScrollOffset, ScrollableId, Table};

fn sample_columns() -> Vec<ColumnSizing> {
    [60, 100, 155, 400, 100]
        .iter()
        .map(|&width| ColumnSizing { width, resize_offset: None })
        .collect()
}

fn sample_table() -> Table {
    table(ScrollableId(1), ScrollableId(2))
}

#[test]
fn table_defaults() {
    let t = sample_table();
    assert_eq!(t.header, ScrollableId(1));
    assert_eq!(t.body, ScrollableId(2));
    assert_eq!(t.footer, None);
    assert!(!t.resize_enabled);
    assert_eq!(t.min_width, 0);
    assert_eq!(t.min_column_width, 4);
    assert_eq!(t.divider_width, 2);
    assert_eq!(t.cell_padding, Padding { top: 4, right: 4, bottom: 4, left: 4 });
}

#[test]
fn builders_set_their_fields() {
    let t = sample_table()
        .on_column_resize()
        .footer(ScrollableId(3))
        .min_width(1000)
        .min_column_width(8)
        .divider_width(3)
        .cell_padding(Padding::uniform(6));
    assert!(t.resize_enabled);
    assert_eq!(t.footer, Some(ScrollableId(3)));
    assert_eq!(t.min_width, 1000);
    assert_eq!(t.min_column_width, 8);
    assert_eq!(t.divider_width, 3);
    assert_eq!(t.cell_padding, Padding::uniform(6));
    assert_eq!(t.header, ScrollableId(1));
    assert_eq!(t.body, ScrollableId(2));
}

#[test]
fn sync_payload_keeps_horizontal_and_zeroes_vertical() {
    // a body scroll to (37, 120) is reported as (37, 0): one notification,
    // vertical offset never propagated
    let notifications = vec![sync_payload(ScrollOffset { x: 37, y: 120 })];
    assert_eq!(notifications.len(), 1);
    assert_eq!(notifications[0], ScrollOffset { x: 37, y: 0 });
}

#[test]
fn scenario_plain_table_has_no_filler() {
    // five columns, no resize, min_width 0: total is the plain sum, no filler
    let plan = compose(&sample_table(), &sample_columns(), 50);
    assert_eq!(plan.column_widths, vec![60, 100, 155, 400, 100]);
    assert_eq!(plan.total_width, 815);
    assert_eq!(plan.filler_width, None);
    assert_eq!(plan.row_count, 50);
    assert!(!plan.resize_enabled);
    assert_eq!(plan.footer, None);
}

#[test]
fn scenario_drag_and_commit() {
    // resize enabled; divider 1 (column width 100) dragged from (50,10) to
    // (80,10): the notification carries (1, 30); the commit stores width 130
    let t = sample_table().on_column_resize();
    let mut columns = sample_columns();

    // divider 1's cell, positioned so its handle sits under (50, 10)
    let cell = Rect { x: 0, y: 0, width: 52, height: 20 };
    let mut divider = DividerState::new();
    let pressed =
        divider.on_event(cell, t.divider_width, Some(Point { x: 50, y: 10 }), DividerEvent::LeftPressed);
    assert!(pressed.captured);
    let moved =
        divider.on_event(cell, t.divider_width, Some(Point { x: 80, y: 10 }), DividerEvent::CursorMoved);
    let raw_delta = match moved.notice {
        Some(DividerNotice::Drag(d)) => d,
        other => panic!("expected a drag notice, got {other:?}"),
    };
    assert_eq!(raw_delta, 30);

    let reported = resize_notification(columns[1].width, raw_delta, t.min_column_width);
    assert_eq!(reported, 30);

    apply_resize_offset(&mut columns, 1, reported as i32);
    let released =
        divider.on_event(cell, t.divider_width, Some(Point { x: 80, y: 10 }), DividerEvent::LeftReleased);
    assert_eq!(released.notice, Some(DividerNotice::Release));
    commit_resize(&mut columns);
    assert_eq!(columns[1], ColumnSizing { width: 130, resize_offset: None });
}

#[test]
fn scenario_minimum_width_adds_filler() {
    // min_width 1000 against columns summing to 815: a 185-pixel filler
    let t = sample_table().min_width(1000);
    let plan = compose(&t, &sample_columns(), 50);
    assert_eq!(plan.total_width, 815);
    assert_eq!(plan.filler_width, Some(185));
    assert_eq!(plan.total_width + plan.filler_width.unwrap_or(0) as i64, 1000);
}

#[test]
fn scenario_shrink_below_minimum_column_width() {
    // dragging a width-100 column by -500 with min_column_width 4: the
    // effective width is 4, never negative
    let t = sample_table().on_column_resize();
    let mut columns = sample_columns();
    let reported = resize_notification(columns[1].width, -500, t.min_column_width);
    assert_eq!(reported, -96);
    apply_resize_offset(&mut columns, 1, reported as i32);
    let plan = compose(&t, &columns, 50);
    assert_eq!(plan.column_widths[1], 4);
    assert!(plan.column_widths.iter().all(|&w| w >= 4));
}

#[test]
fn compose_carries_configuration_through() {
    let t = sample_table().on_column_resize().footer(ScrollableId(3));
    let plan = compose(&t, &sample_columns(), 7);
    assert!(plan.resize_enabled);
    assert_eq!(plan.header, ScrollableId(1));
    assert_eq!(plan.body, ScrollableId(2));
    assert_eq!(plan.footer, Some(ScrollableId(3)));
    assert_eq!(plan.row_count, 7);
}

#[test]
fn compose_with_no_columns_is_all_filler() {
    let t = sample_table().min_width(300);
    let plan = compose(&t, &Vec::new(), 0);
    assert_eq!(plan.column_widths, Vec::<i64>::new());
    assert_eq!(plan.total_width, 0);
    assert_eq!(plan.filler_width, Some(300));
}

#[test]
fn compose_applies_in_flight_offsets() {
    let mut columns = sample_columns();
    apply_resize_offset(&mut columns, 1, 30);
    let plan = compose(&sample_table(), &columns, 50);
    assert_eq!(plan.column_widths, vec![60, 130, 155, 400, 100]);
    assert_eq!(plan.total_width, 845);
}

#[test]
fn filler_exactly_at_minimum_is_absent() {
    let t = sample_table().min_width(815);
    let plan = compose(&t, &sample_columns(), 1);
    assert_eq!(plan.filler_width, None);
}
