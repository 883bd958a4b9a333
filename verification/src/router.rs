//! The input router: what each input event does to the view state, and
//! whether the host has to render or quit afterwards.

use vstd::prelude::*;
use vstd::math::{max, min};
use crate::geometry::{Point, Vector};
use crate::state::{
    clamp_offset, StateModel, TransformState, OFFSET_LIMIT, SCALE_DELTA, SCALE_MAX, SCALE_MIN,
};

verus! {

/// Hardware keycode of the key that ends the session.
pub const QUIT_KEY: u16 = 9;

/// Hardware keycode of the key that shows the spotlight while it is held.
pub const HIGHLIGHT_KEY: u16 = 50;

/// Number of the primary pointer button, the one that drags.
pub const PRIMARY_BUTTON: u32 = 1;

/// Direction of a scroll event.
#[derive(Clone, Copy, Debug, PartialEq, Eq)]
pub enum ScrollDirection {
    Up,
    Down,
    Left,
    Right,
    Smooth,
}

/// One input event, as the host delivers it.
#[derive(Clone, Copy, Debug, PartialEq, Eq)]
pub enum Event {
    /// A key went down; the value is its hardware keycode.
    KeyPress(u16),
    /// A key went up; the value is its hardware keycode.
    KeyRelease(u16),
    /// The scroll wheel turned one step.
    Scroll(ScrollDirection),
    /// The pointer moved to the given position.
    Motion(Point),
    /// A pointer button went down; the value is its number.
    ButtonPress(u32),
    /// A pointer button went up; the value is its number.
    ButtonRelease(u32),
}

/// What the host has to do after an event.
#[derive(Clone, Copy, Debug, PartialEq, Eq)]
pub enum Action {
    /// Nothing: what is on screen is still right.
    Idle,
    /// Render a new frame from the current state.
    Render,
    /// End the session. No event is to be handled after this one.
    Quit,
}

/// The pan after the pointer moved from `anchor` to `position` during a
/// drag: the image follows the hand, so the pan moves against the pointer,
/// and stops at `OFFSET_LIMIT`.
pub open spec fn dragged(offset: Vector, anchor: Vector, position: Vector) -> Vector {
    Vector {
        x: clamp_offset(offset.x + anchor.x - position.x),
        y: clamp_offset(offset.y + anchor.y - position.y),
    }
}

/// The state after `event` was handled in state `s`.
///
/// The highlight key switches the spotlight on when it goes down and off
/// when it goes up. A scroll step up or down changes the scale by
/// `SCALE_DELTA`, within the range from `SCALE_MIN` to `SCALE_MAX`. The
/// primary button begins a drag at the pointer when it goes down, unless one
/// is in progress, and ends it when it goes up. A pointer motion records the
/// new position and, during a drag, moves the pan by the way from the drag
/// anchor to the new position, which becomes the new anchor. Every other
/// event leaves the state as it is.
pub open spec fn step(s: StateModel, event: Event) -> StateModel {
    match event {
        Event::KeyPress(key) => if key == HIGHLIGHT_KEY {
            StateModel { highlight_active: true, ..s }
        } else {
            s
        },
        Event::KeyRelease(key) => if key == HIGHLIGHT_KEY {
            StateModel { highlight_active: false, ..s }
        } else {
            s
        },
        Event::Scroll(ScrollDirection::Up) => StateModel {
            scale: min(s.scale + SCALE_DELTA, SCALE_MAX as int),
            ..s
        },
        Event::Scroll(ScrollDirection::Down) => StateModel {
            scale: max(s.scale - SCALE_DELTA, SCALE_MIN as int),
            ..s
        },
        Event::Scroll(_) => s,
        Event::Motion(position) => match s.drag_anchor {
            Some(anchor) => StateModel {
                pointer_position: position@,
                offset: dragged(s.offset, anchor, position@),
                drag_anchor: Some(position@),
                ..s
            },
            None => StateModel { pointer_position: position@, ..s },
        },
        Event::ButtonPress(button) => if button == PRIMARY_BUTTON && s.drag_anchor is None {
            StateModel { drag_anchor: Some(s.pointer_position), ..s }
        } else {
            s
        },
        Event::ButtonRelease(button) => if button == PRIMARY_BUTTON {
            StateModel { drag_anchor: None, ..s }
        } else {
            s
        },
    }
}

/// What the host has to do after `event` was handled in state `s`.
///
/// The quit key ends the session. A frame is requested when the spotlight
/// is switched, when the scale is stepped, and on a pointer motion that
/// moves the spotlight or changes the pan.
pub open spec fn action_of(s: StateModel, event: Event) -> Action {
    match event {
        Event::KeyPress(key) => if key == QUIT_KEY {
            Action::Quit
        } else if key == HIGHLIGHT_KEY {
            Action::Render
        } else {
            Action::Idle
        },
        Event::KeyRelease(key) => if key == HIGHLIGHT_KEY {
            Action::Render
        } else {
            Action::Idle
        },
        Event::Scroll(ScrollDirection::Up) => Action::Render,
        Event::Scroll(ScrollDirection::Down) => Action::Render,
        Event::Scroll(_) => Action::Idle,
        Event::Motion(_) => if s.highlight_active || step(s, event).offset != s.offset {
            Action::Render
        } else {
            Action::Idle
        },
        Event::ButtonPress(_) => Action::Idle,
        Event::ButtonRelease(_) => Action::Idle,
    }
}

/// One coordinate of the pan after a drag step from `anchor` to `position`.
fn drag_coordinate(offset: i64, anchor: i64, position: i64) -> (r: i64)
    ensures
        r == clamp_offset(offset + anchor - position),
{
    let moved: i128 = offset as i128 + anchor as i128 - position as i128;
    if moved < -(OFFSET_LIMIT as i128) {
        -OFFSET_LIMIT
    } else if moved > OFFSET_LIMIT as i128 {
        OFFSET_LIMIT
    } else {
        moved as i64
    }
}

/// Handles one input event: applies its effect to `state` and says what the
/// host has to do next.
pub fn handle_event(state: &mut TransformState, event: Event) -> (action: Action)
    ensures
        final(state)@ == step(old(state)@, event),
        action == action_of(old(state)@, event),
        final(state)@.valid(),
{
    proof {
        use_type_invariant(&*state);
    }
    match event {
        Event::KeyPress(key) => {
            if key == QUIT_KEY {
                Action::Quit
            } else if key == HIGHLIGHT_KEY {
                state.set_highlight_active(true);
                Action::Render
            } else {
                Action::Idle
            }
        },
        Event::KeyRelease(key) => {
            if key == HIGHLIGHT_KEY {
                state.set_highlight_active(false);
                Action::Render
            } else {
                Action::Idle
            }
        },
        Event::Scroll(direction) => {
            let scale: u8 = state.scale();
            match direction {
                ScrollDirection::Up => {
                    state.set_scale(scale + SCALE_DELTA);
                    Action::Render
                },
                ScrollDirection::Down => {
                    state.set_scale(scale - SCALE_DELTA);
                    Action::Render
                },
                _ => Action::Idle,
            }
        },
        Event::Motion(position) => {
            let highlight: bool = state.highlight_active();
            let before: Point = state.offset();
            state.set_pointer_position(position);
            match state.drag_anchor() {
                Some(anchor) => {
                    let after = Point {
                        x: drag_coordinate(before.x, anchor.x, position.x),
                        y: drag_coordinate(before.y, anchor.y, position.y),
                    };
                    state.set_offset(after);
                    state.set_drag_anchor(Some(position));
                    if highlight || after.x != before.x || after.y != before.y {
                        Action::Render
                    } else {
                        Action::Idle
                    }
                },
                None => {
                    if highlight {
                        Action::Render
                    } else {
                        Action::Idle
                    }
                },
            }
        },
        Event::ButtonPress(button) => {
            if button == PRIMARY_BUTTON {
                let position: Point = state.pointer_position();
                match state.drag_anchor() {
                    Some(_) => {},
                    None => {
                        state.set_drag_anchor(Some(position));
                    },
                }
            }
            Action::Idle
        },
        Event::ButtonRelease(button) => {
            if button == PRIMARY_BUTTON {
                state.set_drag_anchor(None);
            }
            Action::Idle
        },
    }
}

} // verus!
