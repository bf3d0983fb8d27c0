use klog::ScrollUnit;
use klog::ViewportState;
use klog::PAGE_LINES;

fn fresh(n: usize) -> ViewportState {
    let mut v = ViewportState::new();
    v.set_content_length(n);
    v
}

fn in_range(v: &ViewportState) {
    let bound = if v.content_length == 0 { 1 } else { v.content_length };
    assert!(v.vertical_offset < bound);
}

#[test]
fn page_is_twenty_lines() {
    assert_eq!(PAGE_LINES, 20);
}

#[test]
fn fresh_thirty_line_buffer_scenario() {
    let mut v = fresh(30);
    v.reset_to_end();
    assert_eq!(v.vertical_offset, 29);
    v.scroll_by(1, ScrollUnit::Line);
    assert_eq!(v.vertical_offset, 29);
}

#[test]
fn downward_scroll_stops_before_end() {
    let mut v = fresh(50);
    v.scroll_by(1, ScrollUnit::Page);
    assert_eq!(v.vertical_offset, 20);
    v.scroll_by(1, ScrollUnit::Page);
    assert_eq!(v.vertical_offset, 40);
    v.scroll_by(1, ScrollUnit::Page);
    assert_eq!(v.vertical_offset, 40);
    v.scroll_by(9, ScrollUnit::Line);
    assert_eq!(v.vertical_offset, 49);
    v.scroll_by(1, ScrollUnit::Line);
    assert_eq!(v.vertical_offset, 49);
}

#[test]
fn upward_scroll_saturates_at_zero() {
    let mut v = fresh(30);
    v.scroll_by(5, ScrollUnit::Line);
    assert_eq!(v.vertical_offset, 5);
    v.scroll_by(-1, ScrollUnit::Page);
    assert_eq!(v.vertical_offset, 0);
    v.scroll_by(-3, ScrollUnit::Line);
    assert_eq!(v.vertical_offset, 0);
}

#[test]
fn reset_to_end_is_idempotent() {
    let mut v = fresh(12);
    v.reset_to_end();
    let once = v;
    v.reset_to_end();
    assert_eq!(v, once);
}

#[test]
fn reset_to_start_returns_to_line_zero() {
    let mut v = fresh(12);
    v.reset_to_end();
    v.reset_to_start();
    assert_eq!(v.vertical_offset, 0);
}

#[test]
fn empty_content_pins_offset_to_zero() {
    let mut v = fresh(0);
    v.reset_to_end();
    assert_eq!(v.vertical_offset, 0);
    v.scroll_by(1, ScrollUnit::Line);
    assert_eq!(v.vertical_offset, 0);
    v.scroll_by(-1, ScrollUnit::Page);
    assert_eq!(v.vertical_offset, 0);
}

#[test]
fn shrinking_content_clamps_offset() {
    let mut v = fresh(30);
    v.reset_to_end();
    assert_eq!(v.vertical_offset, 29);
    v.set_content_length(10);
    assert_eq!(v.vertical_offset, 9);
    v.set_content_length(0);
    assert_eq!(v.vertical_offset, 0);
}

#[test]
fn offset_stays_in_range_under_any_operations() {
    let mut v = ViewportState::new();
    in_range(&v);
    let lengths = [0usize, 1, 7, 30, 100];
    let deltas = [-25isize, -3, -1, 0, 1, 3, 25, isize::MAX, isize::MIN];
    for &n in &lengths {
        v.set_content_length(n);
        in_range(&v);
        v.reset_to_end();
        in_range(&v);
        for &d in &deltas {
            v.scroll_by(d, ScrollUnit::Line);
            in_range(&v);
            v.scroll_by(d, ScrollUnit::Page);
            in_range(&v);
        }
        v.reset_to_start();
        in_range(&v);
    }
}

#[test]
fn extreme_deltas_behave_like_saturating_moves() {
    let mut v = fresh(10);
    v.scroll_by(isize::MAX, ScrollUnit::Page);
    assert_eq!(v.vertical_offset, 0);
    v.scroll_by(3, ScrollUnit::Line);
    v.scroll_by(isize::MIN, ScrollUnit::Line);
    assert_eq!(v.vertical_offset, 0);
}
