//! The view state: zoom, pan, pointer, spotlight and drag tracking.

use vstd::prelude::*;
use crate::geometry::{clamp, view_of, Point, Vector};

verus! {

/// The zoom factor 1.0. The scale is counted in tenths.
pub const SCALE_ONE: u8 = 10;

/// Change of the scale by one scroll step: 0.1.
pub const SCALE_DELTA: u8 = 1;

/// Smallest scale: 0.1, one scroll step, so that the scale never reaches zero.
pub const SCALE_MIN: u8 = 1;

/// Largest scale: 3.0.
pub const SCALE_MAX: u8 = 30;

/// Largest magnitude of a pan coordinate, in coordinate units. Panning
/// stops at this distance from the centre in either direction.
pub const OFFSET_LIMIT: i64 = 0x4000_0000_0000_0000;

/// The view state as the contracts see it.
pub struct StateModel {
    /// Zoom factor in tenths.
    pub scale: int,
    /// Translation of the scaled image relative to the centred position.
    pub offset: Vector,
    /// Last observed pointer position.
    pub pointer_position: Vector,
    /// Whether the spotlight is shown.
    pub highlight_active: bool,
    /// Pointer position from which the next pan step is measured, while a
    /// drag is in progress.
    pub drag_anchor: Option<Vector>,
}

impl StateModel {
    /// The state in which a viewport is first shown: scale 1.0, no pan,
    /// pointer at the origin, no spotlight, no drag.
    pub open spec fn initial() -> StateModel {
        StateModel {
            scale: SCALE_ONE as int,
            offset: Vector { x: 0, y: 0 },
            pointer_position: Vector { x: 0, y: 0 },
            highlight_active: false,
            drag_anchor: None,
        }
    }

    /// What every state satisfies: the scale lies between `SCALE_MIN` and
    /// `SCALE_MAX`, and the pan lies within `OFFSET_LIMIT`.
    pub open spec fn valid(self) -> bool {
        &&& SCALE_MIN <= self.scale <= SCALE_MAX
        &&& -OFFSET_LIMIT <= self.offset.x <= OFFSET_LIMIT
        &&& -OFFSET_LIMIT <= self.offset.y <= OFFSET_LIMIT
    }
}

/// `v` limited to the range of a pan coordinate.
pub open spec fn clamp_offset(v: int) -> int {
    clamp(v, -OFFSET_LIMIT, OFFSET_LIMIT as int)
}

/// The view state of one running session.
#[derive(Clone, Copy, Debug, PartialEq, Eq)]
pub struct TransformState {
    scale: u8,
    offset: Point,
    pointer_position: Point,
    highlight_active: bool,
    drag_anchor: Option<Point>,
}

impl View for TransformState {
    type V = StateModel;

    closed spec fn view(&self) -> StateModel {
        StateModel {
            scale: self.scale as int,
            offset: self.offset@,
            pointer_position: self.pointer_position@,
            highlight_active: self.highlight_active,
            drag_anchor: view_of(self.drag_anchor),
        }
    }
}

impl TransformState {
    /// Every state that exists is valid.
    #[verifier::type_invariant]
    pub open spec fn well_formed(self) -> bool {
        self@.valid()
    }

    /// The state in which a viewport is first shown.
    pub fn new() -> (state: TransformState)
        ensures
            state@ == StateModel::initial(),
    {
        TransformState {
            scale: SCALE_ONE,
            offset: Point { x: 0, y: 0 },
            pointer_position: Point { x: 0, y: 0 },
            highlight_active: false,
            drag_anchor: None,
        }
    }

    /// The zoom factor, in tenths.
    pub fn scale(&self) -> (scale: u8)
        ensures
            scale == self@.scale,
            SCALE_MIN <= scale <= SCALE_MAX,
    {
        proof {
            use_type_invariant(self);
        }
        self.scale
    }

    /// The pan: translation of the scaled image relative to its centred
    /// position.
    pub fn offset(&self) -> (offset: Point)
        ensures
            offset@ == self@.offset,
            -OFFSET_LIMIT <= offset.x <= OFFSET_LIMIT,
            -OFFSET_LIMIT <= offset.y <= OFFSET_LIMIT,
    {
        proof {
            use_type_invariant(self);
        }
        self.offset
    }

    /// The last observed pointer position.
    pub fn pointer_position(&self) -> (position: Point)
        ensures
            position@ == self@.pointer_position,
    {
        self.pointer_position
    }

    /// Whether the spotlight is shown.
    pub fn highlight_active(&self) -> (active: bool)
        ensures
            active == self@.highlight_active,
    {
        self.highlight_active
    }

    /// The pointer position from which the next pan step is measured, or
    /// `None` when no drag is in progress.
    pub fn drag_anchor(&self) -> (anchor: Option<Point>)
        ensures
            view_of(anchor) == self@.drag_anchor,
    {
        self.drag_anchor
    }

    /// Sets the zoom factor to `scale` tenths, limited to the range from
    /// `SCALE_MIN` to `SCALE_MAX`.
    pub fn set_scale(&mut self, scale: u8)
        ensures
            final(self)@ == (StateModel {
                scale: clamp(scale as int, SCALE_MIN as int, SCALE_MAX as int),
                ..old(self)@
            }),
    {
        proof {
            use_type_invariant(&*self);
        }
        if scale < SCALE_MIN {
            self.scale = SCALE_MIN;
        } else if scale > SCALE_MAX {
            self.scale = SCALE_MAX;
        } else {
            self.scale = scale;
        }
    }

    /// Sets the pan to `offset`, each coordinate limited to `OFFSET_LIMIT`
    /// in magnitude.
    pub fn set_offset(&mut self, offset: Point)
        ensures
            final(self)@ == (StateModel {
                offset: Vector { x: clamp_offset(offset@.x), y: clamp_offset(offset@.y) },
                ..old(self)@
            }),
    {
        proof {
            use_type_invariant(&*self);
        }
        self.offset = Point { x: limit_offset(offset.x), y: limit_offset(offset.y) };
    }

    /// Records `position` as the last observed pointer position.
    pub fn set_pointer_position(&mut self, position: Point)
        ensures
            final(self)@ == (StateModel { pointer_position: position@, ..old(self)@ }),
    {
        proof {
            use_type_invariant(&*self);
        }
        self.pointer_position = position;
    }

    /// Shows or hides the spotlight.
    pub fn set_highlight_active(&mut self, active: bool)
        ensures
            final(self)@ == (StateModel { highlight_active: active, ..old(self)@ }),
    {
        proof {
            use_type_invariant(&*self);
        }
        self.highlight_active = active;
    }

    /// Sets or clears the drag anchor.
    pub fn set_drag_anchor(&mut self, anchor: Option<Point>)
        ensures
            final(self)@ == (StateModel { drag_anchor: view_of(anchor), ..old(self)@ }),
    {
        proof {
            use_type_invariant(&*self);
        }
        self.drag_anchor = anchor;
    }
}

/// One pan coordinate limited to `OFFSET_LIMIT` in magnitude.
fn limit_offset(v: i64) -> (r: i64)
    ensures
        r == clamp_offset(v as int),
{
    if v < -OFFSET_LIMIT {
        -OFFSET_LIMIT
    } else if v > OFFSET_LIMIT {
        OFFSET_LIMIT
    } else {
        v
    }
}

impl Default for TransformState {
    fn default() -> (state: TransformState)
        ensures
            state@ == StateModel::initial(),
    {
        TransformState::new()
    }
}

} // verus!
