use vstd::prelude::*;

verus! {

/// A cardinal direction of the body frame: a unit force along X, Y or Z, or
/// a unit torque about one of them.
#[derive(Debug, Clone, Copy, PartialEq, Eq, Hash, Structural)]
pub enum Axis {
    X,
    Y,
    Z,
    XRot,
    YRot,
    ZRot,
}

impl Axis {
    /// Row of the axis in a wrench: forces in rows 0 to 2, torques in rows 3
    /// to 5.
    pub open spec fn index_spec(self) -> nat {
        match self {
            Axis::X => 0,
            Axis::Y => 1,
            Axis::Z => 2,
            Axis::XRot => 3,
            Axis::YRot => 4,
            Axis::ZRot => 5,
        }
    }

    pub fn index(&self) -> (r: usize)
        ensures
            r == self.index_spec(),
    {
        match self {
            Axis::X => 0,
            Axis::Y => 1,
            Axis::Z => 2,
            Axis::XRot => 3,
            Axis::YRot => 4,
            Axis::ZRot => 5,
        }
    }

    /// Whether the axis is a force rather than a torque.
    pub fn is_linear(&self) -> (r: bool)
        ensures
            r == (self.index_spec() < 3),
    {
        matches!(self, Axis::X | Axis::Y | Axis::Z)
    }

    /// The six axes, in their fixed order.
    pub fn all() -> (r: Vec<Axis>)
        ensures
            r@ == seq![Axis::X, Axis::Y, Axis::Z, Axis::XRot, Axis::YRot, Axis::ZRot],
            forall|i: int| 0 <= i < 6 ==> (#[trigger] r@[i]).index_spec() == i,
    {
        vec![Axis::X, Axis::Y, Axis::Z, Axis::XRot, Axis::YRot, Axis::ZRot]
    }
}

} // verus!
