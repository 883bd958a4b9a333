//! Whole sessions: what sequences of input events do to the view state.

use vstd::prelude::*;
use vstd::math::{max, min};
use crate::geometry::{Point, Vector};
use crate::image::Size;
use crate::render::frame_of;
use crate::router::{
    action_of, step, Action, Event, ScrollDirection, HIGHLIGHT_KEY, PRIMARY_BUTTON, QUIT_KEY,
};
use crate::state::{StateModel, OFFSET_LIMIT, SCALE_DELTA, SCALE_MAX, SCALE_MIN};

verus! {

/// The state after `events` were handled one after the other, in the order
/// of the sequence, starting in state `s`.
pub open spec fn run(s: StateModel, events: Seq<Event>) -> StateModel
    decreases events.len(),
{
    if events.len() == 0 {
        s
    } else {
        step(run(s, events.drop_last()), events.last())
    }
}

/// The sequence that holds `event` `n` times.
pub open spec fn repeated(event: Event, n: nat) -> Seq<Event> {
    Seq::new(n, |i: int| event)
}

/// The motion events that lead the pointer along `path`.
pub open spec fn motions(path: Seq<Point>) -> Seq<Event> {
    Seq::new(path.len(), |i: int| Event::Motion(path[i]))
}

/// A whole drag: the primary button goes down, the pointer moves along
/// `path`, the button goes up.
pub open spec fn drag_gesture(path: Seq<Point>) -> Seq<Event> {
    seq![Event::ButtonPress(PRIMARY_BUTTON)] + motions(path) + seq![
        Event::ButtonRelease(PRIMARY_BUTTON),
    ]
}

/// Where the pointer is after it moved along `path` from `start`.
pub open spec fn end_of(start: Vector, path: Seq<Point>) -> Vector {
    if path.len() == 0 {
        start
    } else {
        path.last()@
    }
}

/// Whether a drag along `path` that begins in state `s` keeps the pan
/// within `OFFSET_LIMIT` at every point of the path.
pub open spec fn drag_within_limit(s: StateModel, path: Seq<Point>) -> bool {
    forall|i: int|
        0 <= i < path.len() ==> {
            let p = #[trigger] path[i];
            &&& -OFFSET_LIMIT <= s.offset.x + s.pointer_position.x - p@.x <= OFFSET_LIMIT
            &&& -OFFSET_LIMIT <= s.offset.y + s.pointer_position.y - p@.y <= OFFSET_LIMIT
        }
}

/// Handling an event in a valid state gives a valid state: no event takes
/// the scale out of the range from `SCALE_MIN` to `SCALE_MAX`.
pub proof fn step_keeps_valid(s: StateModel, event: Event)
    requires
        s.valid(),
    ensures
        step(s, event).valid(),
{
}

/// Handling any sequence of events in a valid state gives a valid state.
pub proof fn run_keeps_valid(s: StateModel, events: Seq<Event>)
    requires
        s.valid(),
    ensures
        run(s, events).valid(),
    decreases events.len(),
{
    if events.len() > 0 {
        run_keeps_valid(s, events.drop_last());
        step_keeps_valid(run(s, events.drop_last()), events.last());
    }
}

/// Handling `a` and then `b` is handling `a + b`.
pub proof fn run_concat(s: StateModel, a: Seq<Event>, b: Seq<Event>)
    ensures
        run(s, a + b) == run(run(s, a), b),
    decreases b.len(),
{
    if b.len() == 0 {
        assert(a + b =~= a);
    } else {
        assert((a + b).drop_last() =~= a + b.drop_last());
        assert((a + b).last() == b.last());
        run_concat(s, a, b.drop_last());
    }
}

/// Whether the primary button is down after `events`, where `held` says
/// whether it was down before them.
pub open spec fn button_held(held: bool, events: Seq<Event>) -> bool
    decreases events.len(),
{
    if events.len() == 0 {
        held
    } else {
        match events.last() {
            Event::ButtonPress(button) if button == PRIMARY_BUTTON => true,
            Event::ButtonRelease(button) if button == PRIMARY_BUTTON => false,
            _ => button_held(held, events.drop_last()),
        }
    }
}

/// Whether the highlight key is down after `events`, where `held` says
/// whether it was down before them.
pub open spec fn highlight_key_held(held: bool, events: Seq<Event>) -> bool
    decreases events.len(),
{
    if events.len() == 0 {
        held
    } else {
        match events.last() {
            Event::KeyPress(key) if key == HIGHLIGHT_KEY => true,
            Event::KeyRelease(key) if key == HIGHLIGHT_KEY => false,
            _ => highlight_key_held(held, events.drop_last()),
        }
    }
}

/// A drag is in progress exactly while the primary button is down: where
/// the state has a drag anchor if and only if the button is down, it is so
/// again after any sequence of events.
pub proof fn drag_anchor_tracks_button(s: StateModel, events: Seq<Event>)
    ensures
        run(s, events).drag_anchor is Some <==> button_held(s.drag_anchor is Some, events),
    decreases events.len(),
{
    if events.len() > 0 {
        drag_anchor_tracks_button(s, events.drop_last());
    }
}

/// The spotlight is shown exactly while the highlight key is down: where
/// the state shows it if and only if the key is down, it is so again after
/// any sequence of events.
pub proof fn highlight_tracks_key(s: StateModel, events: Seq<Event>)
    ensures
        run(s, events).highlight_active == highlight_key_held(s.highlight_active, events),
    decreases events.len(),
{
    if events.len() > 0 {
        highlight_tracks_key(s, events.drop_last());
    }
}

/// Scrolling up `n` times adds `n` steps to the scale until `SCALE_MAX` is
/// reached, and leaves it there: the scale never exceeds `SCALE_MAX`, and
/// equals it once enough steps were made. Nothing else changes.
pub proof fn scroll_up_saturates(s: StateModel, n: nat)
    requires
        s.valid(),
    ensures
        run(s, repeated(Event::Scroll(ScrollDirection::Up), n)) == (StateModel {
            scale: min(s.scale + n * SCALE_DELTA, SCALE_MAX as int),
            ..s
        }),
        run(s, repeated(Event::Scroll(ScrollDirection::Up), n)).scale <= SCALE_MAX,
        n * SCALE_DELTA >= SCALE_MAX - s.scale ==> run(
            s,
            repeated(Event::Scroll(ScrollDirection::Up), n),
        ).scale == SCALE_MAX,
    decreases n,
{
    let up = Event::Scroll(ScrollDirection::Up);
    if n > 0 {
        let shorter = (n - 1) as nat;
        assert(repeated(up, n).drop_last() =~= repeated(up, shorter));
        scroll_up_saturates(s, shorter);
    }
}

/// Scrolling down `n` times takes `n` steps from the scale until
/// `SCALE_MIN` is reached, and leaves it there: the scale never drops below
/// `SCALE_MIN`, never reaches zero, and equals `SCALE_MIN` once enough steps
/// were made. Nothing else changes.
pub proof fn scroll_down_saturates(s: StateModel, n: nat)
    requires
        s.valid(),
    ensures
        run(s, repeated(Event::Scroll(ScrollDirection::Down), n)) == (StateModel {
            scale: max(s.scale - n * SCALE_DELTA, SCALE_MIN as int),
            ..s
        }),
        run(s, repeated(Event::Scroll(ScrollDirection::Down), n)).scale >= SCALE_MIN,
        run(s, repeated(Event::Scroll(ScrollDirection::Down), n)).scale > 0,
        n * SCALE_DELTA >= s.scale - SCALE_MIN ==> run(
            s,
            repeated(Event::Scroll(ScrollDirection::Down), n),
        ).scale == SCALE_MIN,
    decreases n,
{
    let down = Event::Scroll(ScrollDirection::Down);
    if n > 0 {
        let shorter = (n - 1) as nat;
        assert(repeated(down, n).drop_last() =~= repeated(down, shorter));
        scroll_down_saturates(s, shorter);
    }
}

/// A frame is requested whenever the picture changes: an event after which
/// the host stays idle, or quits, leaves the frame as it was, whatever the
/// image and the size of its scaled copy.
pub proof fn frame_changes_only_on_render(
    s: StateModel,
    event: Event,
    source: Size,
    scaled: Option<Size>,
)
    ensures
        action_of(s, event) != Action::Render ==> frame_of(source, scaled, step(s, event))
            == frame_of(source, scaled, s),
{
}

/// The quit key ends the session in every state, and changes nothing.
pub proof fn quit_key_ends_the_session(s: StateModel)
    ensures
        action_of(s, Event::KeyPress(QUIT_KEY)) == Action::Quit,
        step(s, Event::KeyPress(QUIT_KEY)) == s,
{
}

/// Releasing the highlight key while the spotlight is off changes nothing.
pub proof fn highlight_release_is_idempotent(s: StateModel)
    requires
        !s.highlight_active,
    ensures
        step(s, Event::KeyRelease(HIGHLIGHT_KEY)) == s,
{
}

/// While a drag is in progress, moving the pointer along `path` moves the
/// pan against the pointer by the whole way, as long as the pan stays
/// within `OFFSET_LIMIT`.
proof fn lemma_motions_pan(s: StateModel, path: Seq<Point>)
    requires
        s.valid(),
        s.drag_anchor == Some(s.pointer_position),
        drag_within_limit(s, path),
    ensures
        run(s, motions(path)) == (StateModel {
            pointer_position: end_of(s.pointer_position, path),
            offset: Vector {
                x: s.offset.x + s.pointer_position.x - end_of(s.pointer_position, path).x,
                y: s.offset.y + s.pointer_position.y - end_of(s.pointer_position, path).y,
            },
            drag_anchor: Some(end_of(s.pointer_position, path)),
            ..s
        }),
    decreases path.len(),
{
    if path.len() > 0 {
        let shorter = path.drop_last();
        assert(motions(path).drop_last() =~= motions(shorter));
        assert(motions(path).last() == Event::Motion(path.last()));
        assert forall|i: int| 0 <= i < shorter.len() implies {
            let p = #[trigger] shorter[i];
            &&& -OFFSET_LIMIT <= s.offset.x + s.pointer_position.x - p@.x <= OFFSET_LIMIT
            &&& -OFFSET_LIMIT <= s.offset.y + s.pointer_position.y - p@.y <= OFFSET_LIMIT
        } by {
            assert(shorter[i] == path[i]);
        }
        lemma_motions_pan(s, shorter);
        let p = path[path.len() - 1];
        assert(p == path.last());
    }
}

/// A drag moves the pan by exactly the opposite of the way the pointer went:
/// after the button went down in a state without a drag, the pointer moved
/// along `path` and the button went up, the pan has changed by the start of
/// the way minus its end, no drag is in progress, and only the pointer
/// position has changed besides. This holds as long as the pan stays within
/// `OFFSET_LIMIT` on the way.
pub proof fn drag_round_trip(s: StateModel, path: Seq<Point>)
    requires
        s.valid(),
        s.drag_anchor is None,
        drag_within_limit(s, path),
    ensures
        run(s, drag_gesture(path)) == (StateModel {
            pointer_position: end_of(s.pointer_position, path),
            offset: Vector {
                x: s.offset.x - (end_of(s.pointer_position, path).x - s.pointer_position.x),
                y: s.offset.y - (end_of(s.pointer_position, path).y - s.pointer_position.y),
            },
            drag_anchor: None,
            ..s
        }),
{
    let press = seq![Event::ButtonPress(PRIMARY_BUTTON)];
    let pressed = step(s, Event::ButtonPress(PRIMARY_BUTTON));
    assert(run(s, press) == pressed) by {
        assert(press.drop_last() =~= Seq::<Event>::empty());
        assert(run(s, press.drop_last()) == s);
    }
    run_concat(s, press, motions(path));
    lemma_motions_pan(pressed, path);
    let moved = run(pressed, motions(path));
    assert(run(s, press + motions(path)) == moved);
    assert(drag_gesture(path).drop_last() =~= press + motions(path));
    assert(drag_gesture(path).last() == Event::ButtonRelease(PRIMARY_BUTTON));
}

} // verus!
