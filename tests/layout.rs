use thruster_sim::axis::Axis;
use thruster_sim::motor_code::{Direction, MotorId, Reflection};
use thruster_sim::optimize::{
    DynamicX3dOptimization, FullOptimization, MotorSource, SymerticalOptimization,
};
use thruster_sim::table::{bracket, is_sorted, order_key, Neighbours};

#[test]
fn direction_signs() {
    assert_eq!(Direction::Clockwise.sign(), 1);
    assert_eq!(Direction::CounterClockwise.sign(), -1);
    assert_eq!(Direction::Clockwise.flip(), Direction::CounterClockwise);
}

#[test]
fn motor_octants_round_trip() {
    let all = MotorId::all();
    assert_eq!(all.len(), 8);
    for m in &all {
        let (x, y, z) = m.octant();
        assert_eq!(MotorId::from_octant(x, y, z), Some(*m));
    }
    assert_eq!(MotorId::FrontLeftBottom.octant(), (-1, 1, -1));
    assert_eq!(MotorId::BackRightTop.octant(), (1, -1, 1));
    assert_eq!(MotorId::from_octant(0, 1, 1), None);
    assert_eq!(MotorId::from_octant(1, 2, 1), None);
}

#[test]
fn reflections_mirror_motors() {
    let m = MotorId::FrontRightTop;
    assert_eq!(m.reflect(Reflection::ReflectYZ), MotorId::FrontLeftTop);
    assert_eq!(m.reflect(Reflection::ReflectXZ), MotorId::BackRightTop);
    assert_eq!(m.reflect(Reflection::ReflectXY), MotorId::FrontRightBottom);
    for m in MotorId::all() {
        for r in [Reflection::ReflectXY, Reflection::ReflectYZ, Reflection::ReflectXZ] {
            assert_eq!(m.reflect(r).reflect(r), m);
            assert_eq!(m.reflect(r).spin_from(Direction::Clockwise), m.spin_from(Direction::Clockwise).flip());
        }
    }
}

#[test]
fn wired_directions() {
    let expected = [
        Direction::CounterClockwise,
        Direction::Clockwise,
        Direction::Clockwise,
        Direction::CounterClockwise,
        Direction::Clockwise,
        Direction::CounterClockwise,
        Direction::CounterClockwise,
        Direction::Clockwise,
    ];
    for (m, d) in MotorId::all().into_iter().zip(expected) {
        assert_eq!(m.direction(), d);
        assert_eq!(m.spin_from(Direction::CounterClockwise), d);
    }
    assert_eq!(MotorId::FrontRightTop.spin_from(Direction::Clockwise), Direction::Clockwise);
    assert_eq!(MotorId::BackLeftBottom.spin_from(Direction::Clockwise), Direction::CounterClockwise);
}

#[test]
fn axes_in_fixed_order() {
    let all = Axis::all();
    assert_eq!(all, vec![Axis::X, Axis::Y, Axis::Z, Axis::XRot, Axis::YRot, Axis::ZRot]);
    for (i, a) in all.iter().enumerate() {
        assert_eq!(a.index(), i);
        assert_eq!(a.is_linear(), i < 3);
    }
}

#[test]
fn parameterisation_shapes() {
    assert_eq!(DynamicX3dOptimization.dimensionality(), 6);
    assert_eq!(DynamicX3dOptimization.motor_count(), 8);
    assert_eq!(DynamicX3dOptimization.orientation_offsets(), vec![3]);

    let sym = SymerticalOptimization::<3>;
    assert_eq!(sym.dimensionality(), 18);
    assert_eq!(sym.motor_count(), 6);
    assert_eq!(sym.motor_source(1), MotorSource { column: 1, mirrored: false });
    assert_eq!(sym.motor_source(4), MotorSource { column: 1, mirrored: true });
    assert_eq!(sym.orientation_offsets(), vec![3, 9, 15]);

    let full = FullOptimization::<4>;
    assert_eq!(full.dimensionality(), 24);
    assert_eq!(full.motor_count(), 4);
    assert_eq!(full.motor_source(3), MotorSource { column: 3, mirrored: false });
    assert_eq!(full.orientation_offsets(), vec![3, 9, 15, 21]);
}

#[test]
fn bracket_clamps_and_interpolates() {
    let keys = vec![-10, -3, 0, 0, 4, 9];
    assert!(is_sorted(&keys));
    assert_eq!(bracket(&keys, -20), Neighbours { low: 0, high: 0 });
    assert_eq!(bracket(&keys, -10), Neighbours { low: 0, high: 0 });
    assert_eq!(bracket(&keys, 9), Neighbours { low: 5, high: 5 });
    assert_eq!(bracket(&keys, 50), Neighbours { low: 5, high: 5 });
    assert_eq!(bracket(&keys, -5), Neighbours { low: 0, high: 1 });
    assert_eq!(bracket(&keys, 0), Neighbours { low: 3, high: 4 });
    assert_eq!(bracket(&keys, 5), Neighbours { low: 4, high: 5 });
    assert_eq!(bracket(&vec![7], 7), Neighbours { low: 0, high: 0 });
    assert!(!is_sorted(&vec![1, 0]));
    assert!(is_sorted(&vec![]));
}

#[test]
fn order_keys_of_floats() {
    assert_eq!(order_key(0.0f64.to_bits()), Some(0));
    assert_eq!(order_key((-0.0f64).to_bits()), Some(-1));
    assert_eq!(order_key(2.0f64.to_bits()), Some(0x4000_0000_0000_0000));
    assert_eq!(order_key(f64::NEG_INFINITY.to_bits()), Some(-0x7FF0_0000_0000_0000 - 1));
    assert_eq!(order_key(f64::NAN.to_bits()), None);
    let xs = [-3.5f64, -1.0, -0.0, 0.0, 1e-300, 0.25, 7.0];
    let keys: Vec<i64> = xs.iter().map(|x| order_key(x.to_bits()).unwrap()).collect();
    assert!(is_sorted(&keys));
    assert_eq!(bracket(&keys, order_key(0.1f64.to_bits()).unwrap()), Neighbours { low: 4, high: 5 });
}
