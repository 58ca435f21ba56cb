use raytracer::util::random_int_range;

#[test]
fn random_int_range_stays_in_closed_range() {
    for _ in 0..1000 {
        let v = random_int_range(-3, 4);
        assert!(v >= -3 && v <= 4);
    }
}

#[test]
fn random_int_range_single_value() {
    for _ in 0..50 {
        assert_eq!(random_int_range(7, 7), 7);
    }
}

#[test]
fn random_int_range_reaches_both_ends() {
    let mut seen = [false; 3];
    for _ in 0..2000 {
        let v = random_int_range(0, 2);
        seen[v as usize] = true;
    }
    assert!(seen[0] && seen[1] && seen[2]);
}

#[test]
fn random_int_range_extreme_bounds() {
    for _ in 0..100 {
        let v = random_int_range(i32::MAX - 1, i32::MAX);
        assert!(v == i32::MAX - 1 || v == i32::MAX);
        let w = random_int_range(i32::MIN, i32::MIN + 1);
        assert!(w == i32::MIN || w == i32::MIN + 1);
    }
}
