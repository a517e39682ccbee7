use vstd::prelude::*;

verus! {

/// Spin sense of a propeller. It decides the sign of the reaction torque.
#[derive(Debug, Clone, Copy, PartialEq, Eq, Hash, Structural)]
pub enum Direction {
    Clockwise,
    CounterClockwise,
}

impl Direction {
    pub open spec fn sign_spec(self) -> int {
        match self {
            Direction::Clockwise => 1,
            Direction::CounterClockwise => -1,
        }
    }

    pub open spec fn flipped(self) -> Direction {
        match self {
            Direction::Clockwise => Direction::CounterClockwise,
            Direction::CounterClockwise => Direction::Clockwise,
        }
    }

    /// The factor on the torque column: `+1` clockwise, `-1` counter-clockwise.
    pub fn sign(&self) -> (r: i8)
        ensures
            r as int == self.sign_spec(),
    {
        match self {
            Direction::Clockwise => 1,
            Direction::CounterClockwise => -1,
        }
    }

    pub fn flip(&self) -> (r: Direction)
        ensures
            r == self.flipped(),
    {
        match self {
            Direction::Clockwise => Direction::CounterClockwise,
            Direction::CounterClockwise => Direction::Clockwise,
        }
    }
}

/// A mirror plane of the body frame. Reflecting across a plane negates the
/// coordinate normal to it.
#[derive(Debug, Clone, Copy, PartialEq, Eq, Hash, Structural)]
pub enum Reflection {
    /// Negates z.
    ReflectXY,
    /// Negates x.
    ReflectYZ,
    /// Negates y.
    ReflectXZ,
}

/// The eight thrusters of the symmetric box layout, one in each octant.
/// +X is right, +Y forwards, +Z up.
#[derive(Debug, Clone, Copy, PartialEq, Eq, Hash, Structural)]
pub enum MotorId {
    FrontLeftBottom,
    FrontLeftTop,
    FrontRightBottom,
    FrontRightTop,
    BackLeftBottom,
    BackLeftTop,
    BackRightBottom,
    BackRightTop,
}

/// Whether `s` is a sign, `1` or `-1`.
pub open spec fn is_sign(s: int) -> bool {
    s == 1 || s == -1
}

/// The signs of a point's coordinates after mirroring it across `r`.
pub open spec fn mirrored(o: (int, int, int), r: Reflection) -> (int, int, int) {
    match r {
        Reflection::ReflectXY => (o.0, o.1, -o.2),
        Reflection::ReflectYZ => (-o.0, o.1, o.2),
        Reflection::ReflectXZ => (o.0, -o.1, o.2),
    }
}

impl MotorId {
    /// The signs of the motor's x, y and z coordinates.
    pub open spec fn octant_spec(self) -> (int, int, int) {
        match self {
            MotorId::FrontLeftBottom => (-1, 1, -1),
            MotorId::FrontLeftTop => (-1, 1, 1),
            MotorId::FrontRightBottom => (1, 1, -1),
            MotorId::FrontRightTop => (1, 1, 1),
            MotorId::BackLeftBottom => (-1, -1, -1),
            MotorId::BackLeftTop => (-1, -1, 1),
            MotorId::BackRightBottom => (1, -1, -1),
            MotorId::BackRightTop => (1, -1, 1),
        }
    }

    /// The number of mirror reflections that carry the front-right-top motor
    /// to this one: the number of negative coordinates.
    pub open spec fn reflections(self) -> nat {
        let (x, y, z) = self.octant_spec();
        (if x < 0 { 1nat } else { 0nat }) + (if y < 0 { 1nat } else { 0nat }) + (if z < 0 {
            1nat
        } else {
            0nat
        })
    }

    /// The spin of the motor in a layout whose front-right-top motor spins
    /// `seed`: it changes with every reflection.
    pub open spec fn spin_from_spec(self, seed: Direction) -> Direction {
        if self.reflections() % 2 == 0 {
            seed
        } else {
            seed.flipped()
        }
    }

    /// The wired spin of each motor on the vehicle.
    pub open spec fn direction_spec(self) -> Direction {
        match self {
            MotorId::FrontLeftBottom => Direction::CounterClockwise,
            MotorId::FrontLeftTop => Direction::Clockwise,
            MotorId::FrontRightBottom => Direction::Clockwise,
            MotorId::FrontRightTop => Direction::CounterClockwise,
            MotorId::BackLeftBottom => Direction::Clockwise,
            MotorId::BackLeftTop => Direction::CounterClockwise,
            MotorId::BackRightBottom => Direction::CounterClockwise,
            MotorId::BackRightTop => Direction::Clockwise,
        }
    }

    /// The motor in the mirror image of this one's octant.
    pub open spec fn reflected(self, r: Reflection) -> MotorId {
        choose|m: MotorId| m.octant_spec() == mirrored(self.octant_spec(), r)
    }

    pub fn octant(&self) -> (r: (i8, i8, i8))
        ensures
            (r.0 as int, r.1 as int, r.2 as int) == self.octant_spec(),
    {
        match self {
            MotorId::FrontLeftBottom => (-1, 1, -1),
            MotorId::FrontLeftTop => (-1, 1, 1),
            MotorId::FrontRightBottom => (1, 1, -1),
            MotorId::FrontRightTop => (1, 1, 1),
            MotorId::BackLeftBottom => (-1, -1, -1),
            MotorId::BackLeftTop => (-1, -1, 1),
            MotorId::BackRightBottom => (1, -1, -1),
            MotorId::BackRightTop => (1, -1, 1),
        }
    }

    /// The motor in the octant with the given coordinate signs; `None` when
    /// one of them is not `1` or `-1`.
    pub fn from_octant(x: i8, y: i8, z: i8) -> (r: Option<MotorId>)
        ensures
            r matches Some(m) ==> m.octant_spec() == (x as int, y as int, z as int),
            r is None <==> !(is_sign(x as int) && is_sign(y as int) && is_sign(z as int)),
    {
        if !(x == 1 || x == -1) || !(y == 1 || y == -1) || !(z == 1 || z == -1) {
            return None;
        }
        if y == 1 {
            if x == -1 {
                if z == -1 {
                    Some(MotorId::FrontLeftBottom)
                } else {
                    Some(MotorId::FrontLeftTop)
                }
            } else {
                if z == -1 {
                    Some(MotorId::FrontRightBottom)
                } else {
                    Some(MotorId::FrontRightTop)
                }
            }
        } else {
            if x == -1 {
                if z == -1 {
                    Some(MotorId::BackLeftBottom)
                } else {
                    Some(MotorId::BackLeftTop)
                }
            } else {
                if z == -1 {
                    Some(MotorId::BackRightBottom)
                } else {
                    Some(MotorId::BackRightTop)
                }
            }
        }
    }

    /// The motor mirrored across the plane `r`.
    pub fn reflect(&self, r: Reflection) -> (m: MotorId)
        ensures
            m == self.reflected(r),
    {
        let (x, y, z) = self.octant();
        let o = match r {
            Reflection::ReflectXY => (x, y, -z),
            Reflection::ReflectYZ => (-x, y, z),
            Reflection::ReflectXZ => (x, -y, z),
        };
        assert((o.0 as int, o.1 as int, o.2 as int) == mirrored(self.octant_spec(), r));
        let m = MotorId::from_octant(o.0, o.1, o.2).unwrap();
        proof {
            lemma_octant_injective(m);
        }
        m
    }

    /// The spin of this motor when the front-right-top motor spins `seed`.
    pub fn spin_from(&self, seed: Direction) -> (r: Direction)
        ensures
            r == self.spin_from_spec(seed),
    {
        let (x, y, z) = self.octant();
        let negatives: u8 = (if x < 0 { 1u8 } else { 0u8 }) + (if y < 0 { 1u8 } else { 0u8 }) + (if z
            < 0 {
            1u8
        } else {
            0u8
        });
        if negatives % 2 == 0 {
            seed
        } else {
            seed.flip()
        }
    }

    /// The wired spin of the motor.
    pub fn direction(&self) -> (r: Direction)
        ensures
            r == self.direction_spec(),
    {
        match self {
            MotorId::FrontLeftBottom => Direction::CounterClockwise,
            MotorId::FrontLeftTop => Direction::Clockwise,
            MotorId::FrontRightBottom => Direction::Clockwise,
            MotorId::FrontRightTop => Direction::CounterClockwise,
            MotorId::BackLeftBottom => Direction::Clockwise,
            MotorId::BackLeftTop => Direction::CounterClockwise,
            MotorId::BackRightBottom => Direction::CounterClockwise,
            MotorId::BackRightTop => Direction::Clockwise,
        }
    }

    /// The eight motors, in the order in which the layout lists them.
    pub fn all() -> (r: Vec<MotorId>)
        ensures
            r@ == seq![
                MotorId::FrontLeftBottom,
                MotorId::FrontLeftTop,
                MotorId::FrontRightBottom,
                MotorId::FrontRightTop,
                MotorId::BackLeftBottom,
                MotorId::BackLeftTop,
                MotorId::BackRightBottom,
                MotorId::BackRightTop,
            ],
    {
        vec![
            MotorId::FrontLeftBottom,
            MotorId::FrontLeftTop,
            MotorId::FrontRightBottom,
            MotorId::FrontRightTop,
            MotorId::BackLeftBottom,
            MotorId::BackLeftTop,
            MotorId::BackRightBottom,
            MotorId::BackRightTop,
        ]
    }
}

/// Distinct motors lie in distinct octants.
pub proof fn lemma_octant_injective(m: MotorId)
    ensures
        forall|n: MotorId| #[trigger] n.octant_spec() == m.octant_spec() ==> n == m,
        is_sign(m.octant_spec().0) && is_sign(m.octant_spec().1) && is_sign(m.octant_spec().2),
{
}

/// Every octant holds a motor.
pub proof fn lemma_octant_surjective(x: int, y: int, z: int)
    requires
        is_sign(x) && is_sign(y) && is_sign(z),
    ensures
        exists|m: MotorId| #[trigger] m.octant_spec() == (x, y, z),
{
    if y == 1 {
        if x == -1 {
            if z == -1 {
                assert(MotorId::FrontLeftBottom.octant_spec() == (x, y, z));
            } else {
                assert(MotorId::FrontLeftTop.octant_spec() == (x, y, z));
            }
        } else {
            if z == -1 {
                assert(MotorId::FrontRightBottom.octant_spec() == (x, y, z));
            } else {
                assert(MotorId::FrontRightTop.octant_spec() == (x, y, z));
            }
        }
    } else {
        if x == -1 {
            if z == -1 {
                assert(MotorId::BackLeftBottom.octant_spec() == (x, y, z));
            } else {
                assert(MotorId::BackLeftTop.octant_spec() == (x, y, z));
            }
        } else {
            if z == -1 {
                assert(MotorId::BackRightBottom.octant_spec() == (x, y, z));
            } else {
                assert(MotorId::BackRightTop.octant_spec() == (x, y, z));
            }
        }
    }
}

/// Mirroring a motor across a plane negates exactly the coordinate normal to
/// the plane, and mirroring twice across the same plane gives the motor back.
pub proof fn lemma_reflect_involution(m: MotorId, r: Reflection)
    ensures
        m.reflected(r).octant_spec() == mirrored(m.octant_spec(), r),
        m.reflected(r).reflected(r) == m,
{
    lemma_octant_injective(m);
    let o = mirrored(m.octant_spec(), r);
    lemma_octant_surjective(o.0, o.1, o.2);
    let n = m.reflected(r);
    lemma_octant_injective(n);
    let p = mirrored(n.octant_spec(), r);
    lemma_octant_surjective(p.0, p.1, p.2);
}

/// Each mirror reflection reverses the spin: in a layout generated from one
/// seed motor, spin alternates with the parity of the reflections.
pub proof fn lemma_reflect_flips_spin(m: MotorId, r: Reflection, seed: Direction)
    ensures
        m.reflected(r).spin_from_spec(seed) == m.spin_from_spec(seed).flipped(),
{
    lemma_reflect_involution(m, r);
}

/// The wired spins are those of the layout whose front-right-top motor spins
/// counter-clockwise.
pub proof fn lemma_direction_by_parity(m: MotorId)
    ensures
        m.direction_spec() == m.spin_from_spec(Direction::CounterClockwise),
{
}

} // verus!
