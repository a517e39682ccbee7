use vstd::prelude::*;

verus! {

/// Parameters per free motor: three of position, then three of orientation.
pub const PARAMETERS_PER_MOTOR: usize = 6;

/// Offset of the orientation within a motor's parameters.
pub const ORIENTATION_OFFSET: usize = 3;

/// Where a motor of a parameterised layout takes its position and
/// orientation from: a column of the parameter matrix, possibly mirrored
/// across the YZ plane.
#[derive(Debug, Clone, Copy, PartialEq, Eq, Structural)]
pub struct MotorSource {
    pub column: usize,
    pub mirrored: bool,
}

/// Flat offsets of the orientation of each of `columns` parameter columns.
pub open spec fn orientation_offsets_spec(columns: nat) -> Seq<usize> {
    Seq::new(columns, |c: int| (PARAMETERS_PER_MOTOR * c + ORIENTATION_OFFSET) as usize)
}

fn orientation_offsets_of(columns: usize) -> (r: Vec<usize>)
    requires
        columns * PARAMETERS_PER_MOTOR <= usize::MAX,
    ensures
        r@ == orientation_offsets_spec(columns as nat),
{
    let mut r: Vec<usize> = Vec::new();
    let mut c: usize = 0;
    while c < columns
        invariant
            c <= columns,
            columns * PARAMETERS_PER_MOTOR <= usize::MAX,
            r@ == orientation_offsets_spec(c as nat),
        decreases columns - c,
    {
        r.push(PARAMETERS_PER_MOTOR * c + ORIENTATION_OFFSET);
        c = c + 1;
        assert(r@ =~= orientation_offsets_spec(c as nat));
    }
    r
}

/// The eight-motor box layout with the seed motor's position and orientation
/// both free: one column of six parameters.
pub struct DynamicX3dOptimization;

impl DynamicX3dOptimization {
    pub fn dimensionality(&self) -> (r: usize)
        ensures
            r == PARAMETERS_PER_MOTOR,
    {
        PARAMETERS_PER_MOTOR
    }

    pub fn motor_count(&self) -> (r: usize)
        ensures
            r == 8,
    {
        8
    }

    pub fn orientation_offsets(&self) -> (r: Vec<usize>)
        ensures
            r@ == orientation_offsets_spec(1),
    {
        orientation_offsets_of(1)
    }
}

/// Motors in mirror pairs: the first `HALF_THRUSTER_COUNT` motors are free,
/// each in a column of its own, and the rest are their images across the YZ
/// plane.
pub struct SymerticalOptimization<const HALF_THRUSTER_COUNT: usize>;

impl<const HALF_THRUSTER_COUNT: usize> SymerticalOptimization<HALF_THRUSTER_COUNT> {
    pub fn dimensionality(&self) -> (r: usize)
        requires
            HALF_THRUSTER_COUNT * PARAMETERS_PER_MOTOR <= usize::MAX,
        ensures
            r == HALF_THRUSTER_COUNT * PARAMETERS_PER_MOTOR,
    {
        HALF_THRUSTER_COUNT * PARAMETERS_PER_MOTOR
    }

    pub fn motor_count(&self) -> (r: usize)
        requires
            HALF_THRUSTER_COUNT * 2 <= usize::MAX,
        ensures
            r == HALF_THRUSTER_COUNT * 2,
    {
        HALF_THRUSTER_COUNT * 2
    }

    /// Motor `motor` copies column `motor mod HALF_THRUSTER_COUNT`, mirrored
    /// when it lies in the second half.
    pub fn motor_source(&self, motor: usize) -> (r: MotorSource)
        requires
            motor < HALF_THRUSTER_COUNT * 2,
        ensures
            r.column == motor % HALF_THRUSTER_COUNT,
            r.mirrored == (motor >= HALF_THRUSTER_COUNT),
            r.column < HALF_THRUSTER_COUNT,
    {
        MotorSource { column: motor % HALF_THRUSTER_COUNT, mirrored: motor >= HALF_THRUSTER_COUNT }
    }

    pub fn orientation_offsets(&self) -> (r: Vec<usize>)
        requires
            HALF_THRUSTER_COUNT * PARAMETERS_PER_MOTOR <= usize::MAX,
        ensures
            r@ == orientation_offsets_spec(HALF_THRUSTER_COUNT as nat),
    {
        orientation_offsets_of(HALF_THRUSTER_COUNT)
    }
}

/// Every motor free, each in a column of its own.
pub struct FullOptimization<const THRUSTER_COUNT: usize>;

impl<const THRUSTER_COUNT: usize> FullOptimization<THRUSTER_COUNT> {
    pub fn dimensionality(&self) -> (r: usize)
        requires
            THRUSTER_COUNT * PARAMETERS_PER_MOTOR <= usize::MAX,
        ensures
            r == THRUSTER_COUNT * PARAMETERS_PER_MOTOR,
    {
        THRUSTER_COUNT * PARAMETERS_PER_MOTOR
    }

    pub fn motor_count(&self) -> (r: usize)
        ensures
            r == THRUSTER_COUNT,
    {
        THRUSTER_COUNT
    }

    /// Motor `motor` copies column `motor`, unmirrored.
    pub fn motor_source(&self, motor: usize) -> (r: MotorSource)
        requires
            motor < THRUSTER_COUNT,
        ensures
            r == (MotorSource { column: motor, mirrored: false }),
    {
        MotorSource { column: motor, mirrored: false }
    }

    pub fn orientation_offsets(&self) -> (r: Vec<usize>)
        requires
            THRUSTER_COUNT * PARAMETERS_PER_MOTOR <= usize::MAX,
        ensures
            r@ == orientation_offsets_spec(THRUSTER_COUNT as nat),
    {
        orientation_offsets_of(THRUSTER_COUNT)
    }
}

} // verus!
