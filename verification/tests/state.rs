use boomer::geometry::Point;
use boomer::state::{
    TransformState, OFFSET_LIMIT, SCALE_DELTA, SCALE_MAX, SCALE_MIN, SCALE_ONE,
};

#[test]
fn new_state_has_the_defaults() {
    let state = TransformState::new();
    assert_eq!(state.scale(), 10);
    assert_eq!(state.offset(), Point { x: 0, y: 0 });
    assert_eq!(state.pointer_position(), Point { x: 0, y: 0 });
    assert!(!state.highlight_active());
    assert_eq!(state.drag_anchor(), None);
    assert_eq!(TransformState::default(), state);
}

#[test]
fn scale_constants_are_tenths() {
    assert_eq!(SCALE_ONE, 10);
    assert_eq!(SCALE_DELTA, 1);
    assert_eq!(SCALE_MIN, SCALE_DELTA);
    assert_eq!(SCALE_MAX, 30);
    assert_eq!(OFFSET_LIMIT, 1i64 << 62);
}

#[test]
fn set_scale_keeps_the_scale_in_range() {
    let mut state = TransformState::new();
    state.set_scale(0);
    assert_eq!(state.scale(), 1);
    state.set_scale(255);
    assert_eq!(state.scale(), 30);
    state.set_scale(31);
    assert_eq!(state.scale(), 30);
    state.set_scale(17);
    assert_eq!(state.scale(), 17);
    state.set_scale(1);
    assert_eq!(state.scale(), 1);
    state.set_scale(30);
    assert_eq!(state.scale(), 30);
}

#[test]
fn set_offset_keeps_the_pan_within_the_limit() {
    let mut state = TransformState::new();
    state.set_offset(Point { x: i64::MAX, y: i64::MIN });
    assert_eq!(state.offset(), Point { x: OFFSET_LIMIT, y: -OFFSET_LIMIT });
    state.set_offset(Point { x: -OFFSET_LIMIT, y: OFFSET_LIMIT });
    assert_eq!(state.offset(), Point { x: -OFFSET_LIMIT, y: OFFSET_LIMIT });
    state.set_offset(Point { x: -3, y: 4 });
    assert_eq!(state.offset(), Point { x: -3, y: 4 });
}

#[test]
fn setters_change_one_field_each() {
    let mut state = TransformState::new();
    state.set_pointer_position(Point { x: 12, y: -34 });
    assert_eq!(state.pointer_position(), Point { x: 12, y: -34 });
    state.set_highlight_active(true);
    assert!(state.highlight_active());
    state.set_drag_anchor(Some(Point { x: 5, y: 6 }));
    assert_eq!(state.drag_anchor(), Some(Point { x: 5, y: 6 }));
    state.set_drag_anchor(None);
    assert_eq!(state.drag_anchor(), None);
    assert_eq!(state.scale(), 10);
    assert_eq!(state.offset(), Point { x: 0, y: 0 });
    assert_eq!(state.pointer_position(), Point { x: 12, y: -34 });
    assert!(state.highlight_active());
}
