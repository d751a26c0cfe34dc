use cellsim::{add_ivec3, c32, CVec3, IVec3, PLOT_SIZE};

#[test]
fn test_add_c32() {
    assert!(c32::new(PLOT_SIZE as i32) + c32::new(1) == c32::new(0));

    assert!(CVec3::new(0, 0, 0) + IVec3::new(-1, -1, -1) == CVec3::new(PLOT_SIZE as u32, PLOT_SIZE as u32, PLOT_SIZE as u32));
    assert!(CVec3::new(20, 20, 20) + IVec3::new(-1, -1, -1) == CVec3::new(19, 19, 19));
}

#[test]
fn c32_wraps_exactly_for_far_values() {
    assert_eq!(c32::new(-1).i32(), 64);
    assert_eq!(c32::new(65).i32(), 0);
    assert_eq!(c32::new(-66).i32(), 64);
    assert_eq!(c32::new(1000).i32(), 1000 % 65);
    assert_eq!(c32::new(i32::MIN).i32(), (i32::MIN as i64).rem_euclid(65) as i32);
}

#[test]
fn c32_adds_integers_with_wraparound() {
    assert_eq!((c32::new(64) + 1i32).i32(), 0);
    assert_eq!((c32::new(0) + (-1i32)).i32(), 64);
    assert_eq!((c32::new(3) + i32::MAX).i32(), ((3i64 + i32::MAX as i64) % 65) as i32);
    assert_eq!((c32::new(10) + 60u32).i32(), 5);
    assert_eq!((c32::new(1) + u32::MAX).i32(), ((1u64 + u32::MAX as u64) % 65) as i32);
}

#[test]
fn cvec3_adds_component_wise() {
    let a = CVec3::new(1, 2, 3);
    let b = CVec3::new(64, 64, 10);
    let s = a + b;
    assert_eq!(s.x.i32(), 0);
    assert_eq!(s.y.i32(), 1);
    assert_eq!(s.z.i32(), 13);
}

#[test]
fn add_ivec3_sums_components() {
    let r = add_ivec3(IVec3::new(1, -2, 3), IVec3::new(10, 20, -30));
    assert_eq!(r, IVec3::new(11, 18, -27));
}
