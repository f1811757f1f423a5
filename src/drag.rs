use vstd::prelude::*;

verus! {

/// The axis along which a resize handle moves.
#[derive(Clone, Copy, Debug, PartialEq, Eq, Structural)]
pub enum Axis {
    Horizontal,
    Vertical,
}

/// The coordinate of a pointer at `(x, y)` along `axis`.
pub open spec fn coordinate(axis: Axis, x: int, y: int) -> int {
    match axis {
        Axis::Horizontal => x,
        Axis::Vertical => y,
    }
}

/// The drag state of one resize handle: idle, or dragging from an anchor
/// that each pointer move resets.
pub struct DragSession {
    active: bool,
    axis: Axis,
    anchor: i32,
}

impl DragSession {
    pub closed spec fn active_spec(&self) -> bool {
        self.active
    }

    pub closed spec fn axis_spec(&self) -> Axis {
        self.axis
    }

    pub closed spec fn anchor_spec(&self) -> int {
        self.anchor as int
    }

    /// An idle session for a handle that moves along `axis`.
    pub fn new(axis: Axis) -> (r: Self)
        ensures
            !r.active_spec(),
            r.axis_spec() == axis,
            r.anchor_spec() == 0,
    {
        DragSession { active: false, axis, anchor: 0 }
    }

    pub fn is_active(&self) -> (r: bool)
        ensures
            r == self.active_spec(),
    {
        self.active
    }

    pub fn axis(&self) -> (r: Axis)
        ensures
            r == self.axis_spec(),
    {
        self.axis
    }

    pub fn anchor(&self) -> (r: i32)
        ensures
            r == self.anchor_spec(),
    {
        self.anchor
    }

    /// Pointer pressed on the handle at `(x, y)`: the session starts dragging,
    /// anchored at the pointer's coordinate along the handle's axis.
    pub fn pointer_down(&mut self, x: i32, y: i32)
        ensures
            final(self).active_spec(),
            final(self).axis_spec() == old(self).axis_spec(),
            final(self).anchor_spec() == coordinate(old(self).axis_spec(), x as int, y as int),
    {
        self.active = true;
        self.anchor = match self.axis {
            Axis::Horizontal => x,
            Axis::Vertical => y,
        };
    }

    /// Pointer moved to `(x, y)` anywhere in the document. While dragging,
    /// returns the distance from the anchor along the axis and moves the
    /// anchor to the pointer; while idle, returns `None` and changes nothing.
    pub fn pointer_move(&mut self, x: i32, y: i32) -> (r: Option<i64>)
        ensures
            final(self).active_spec() == old(self).active_spec(),
            final(self).axis_spec() == old(self).axis_spec(),
            old(self).active_spec() ==> {
                let pos = coordinate(old(self).axis_spec(), x as int, y as int);
                &&& r.is_some()
                &&& r.unwrap() as int == pos - old(self).anchor_spec()
                &&& final(self).anchor_spec() == pos
            },
            !old(self).active_spec() ==> r.is_none() && final(self).anchor_spec()
                == old(self).anchor_spec(),
    {
        if self.active {
            let pos: i32 = match self.axis {
                Axis::Horizontal => x,
                Axis::Vertical => y,
            };
            let delta: i64 = pos as i64 - self.anchor as i64;
            self.anchor = pos;
            Some(delta)
        } else {
            None
        }
    }

    /// Pointer released anywhere, or the handle went away: the session ends.
    pub fn pointer_up(&mut self)
        ensures
            !final(self).active_spec(),
            final(self).axis_spec() == old(self).axis_spec(),
            final(self).anchor_spec() == old(self).anchor_spec(),
    {
        self.active = false;
    }
}

} // verus!
