use enki::math::{abs_diff_i32, div_i32, rem_i32, IVec2};

#[test]
fn add_is_componentwise() {
    let a = IVec2::new(1, 2);
    let b = IVec2::new(10, -20);
    assert_eq!(a + b, IVec2::new(11, -18));
    assert_eq!(a + &b, IVec2::new(11, -18));
    assert_eq!(&a + &b, IVec2::new(11, -18));
    assert_eq!(&a + b, IVec2::new(11, -18));
}

#[test]
fn scalar_operators() {
    let v = IVec2::new(7, -9);
    assert_eq!(v + 1, IVec2::new(8, -8));
    assert_eq!(v - 2, IVec2::new(5, -11));
    assert_eq!(v * 3, IVec2::new(21, -27));
    assert_eq!(v / 2, IVec2::new(3, -4));
    assert_eq!(v % 2, IVec2::new(1, -1));
    assert_eq!(10 - v, IVec2::new(3, 19));
    assert_eq!(2 * v, IVec2::new(14, -18));
    assert_eq!(100 / v, IVec2::new(14, -11));
    assert_eq!(100 % v, IVec2::new(2, 1));
    assert_eq!(&v * &3, IVec2::new(21, -27));
    assert_eq!(&5 + &v, IVec2::new(12, -4));
}

#[test]
fn vector_operators() {
    let a = IVec2::new(-7, 9);
    let b = IVec2::new(2, -4);
    assert_eq!(a - b, IVec2::new(-9, 13));
    assert_eq!(a * b, IVec2::new(-14, -36));
    assert_eq!(a / b, IVec2::new(-3, -2));
    assert_eq!(a % b, IVec2::new(-1, 1));
}

#[test]
fn division_truncates_toward_zero() {
    assert_eq!(div_i32(-7, 2), -3);
    assert_eq!(div_i32(7, -2), -3);
    assert_eq!(div_i32(-7, -2), 3);
    assert_eq!(div_i32(i32::MIN, 2), -1073741824);
    assert_eq!(rem_i32(-7, 2), -1);
    assert_eq!(rem_i32(7, -2), 1);
    assert_eq!(rem_i32(-7, -2), -1);
    assert_eq!(rem_i32(i32::MIN, -1 + 2), 0);
    for a in [-9, -1, 0, 5, 13] {
        for b in [-4, -1, 3, 7] {
            assert_eq!(div_i32(a, b), a / b);
            assert_eq!(rem_i32(a, b), a % b);
            assert_eq!(a, b * div_i32(a, b) + rem_i32(a, b));
        }
    }
}

#[test]
fn assign_methods() {
    let mut v = IVec2::new(3, 4);
    v.add_assign(IVec2::new(1, 1));
    assert_eq!(v, IVec2::new(4, 5));
    v.sub_assign_scalar(2);
    assert_eq!(v, IVec2::new(2, 3));
    v.mul_assign(IVec2::new(3, -1));
    assert_eq!(v, IVec2::new(6, -3));
    v.div_assign_scalar(2);
    assert_eq!(v, IVec2::new(3, -1));
    v.rem_assign(IVec2::new(2, 2));
    assert_eq!(v, IVec2::new(1, -1));
    v.add_assign_scalar(5);
    v.sub_assign(IVec2::new(1, 1));
    v.mul_assign_scalar(2);
    v.div_assign(IVec2::new(4, 3));
    v.rem_assign_scalar(3);
    assert_eq!(v, IVec2::new(2, 2));
}

#[test]
fn constants() {
    assert_eq!(IVec2::zero(), IVec2::new(0, 0));
    assert_eq!(IVec2::one(), IVec2::splat(1));
    assert_eq!(IVec2::neg_one(), IVec2::new(-1, -1));
    assert_eq!(IVec2::flip_x(), IVec2::new(-1, 1));
    assert_eq!(IVec2::flip_y(), IVec2::new(1, -1));
    assert_eq!(IVec2::unit_x(), IVec2::new(1, 0));
    assert_eq!(IVec2::unit_y(), IVec2::new(0, 1));
    assert_eq!(IVec2::neg_x(), IVec2::new(-1, 0));
    assert_eq!(IVec2::neg_y(), IVec2::new(0, -1));
    assert_eq!(IVec2::aligned_axes(), [IVec2::new(1, 0), IVec2::new(0, 1)]);
    assert_eq!(
        IVec2::axes(),
        [IVec2::new(1, 0), IVec2::new(0, 1), IVec2::new(-1, 0), IVec2::new(0, -1)]
    );
    assert_eq!(IVec2::default(), IVec2::zero());
}

#[test]
fn products_and_turns() {
    let a = IVec2::new(3, -4);
    let b = IVec2::new(2, 5);
    assert_eq!(a.dot(b), -14);
    assert_eq!(a.dot(b), b.dot(a));
    assert_eq!(a.det(b), 23);
    assert_eq!(a.det(b), -b.det(a));
    assert_eq!(a.det(a), 0);
    assert_eq!(a.perp(), IVec2::new(4, 3));
    assert_eq!(a.perp().perp(), IVec2::new(-3, 4));
    assert_eq!(a.dot(a.perp()), 0);
    assert_eq!(a.rotate(b), IVec2::new(26, 7));
    assert_eq!(a.rotate(IVec2::unit_x()), a);
    assert_eq!(a.rotate(IVec2::unit_y()), a.perp());
    assert_eq!(a.length_squared(), 25);
    assert_eq!(a.distance_squared(b), 82);
}

#[test]
fn rotation_is_complex_multiplication() {
    let a = IVec2::new(1, 2);
    let b = IVec2::new(3, -4);
    let c = IVec2::new(-2, 5);
    assert_eq!(a.rotate(b), IVec2::new(11, 2));
    assert_eq!(a.rotate(b), b.rotate(a));
    assert_eq!(a.rotate(b).rotate(c), a.rotate(b.rotate(c)));
    assert_eq!(a.rotate(b).length_squared(), a.length_squared() * b.length_squared());
    assert_eq!(a.det(b), a.perp().dot(b));
    assert_eq!(b.det(c), b.perp().dot(c));
}

#[test]
fn distances() {
    let a = IVec2::new(-3, 4);
    let b = IVec2::new(2, -8);
    assert_eq!(a.manhattan_distance(b), 17);
    assert_eq!(a.chebyshev_distance(b), 12);
    assert_eq!(b.manhattan_distance(a), 17);
    assert_eq!(a.manhattan_distance(a), 0);
    assert_eq!(abs_diff_i32(i32::MIN, i32::MAX), u32::MAX);
    let far = IVec2::new(i32::MIN, 0);
    assert_eq!(far.chebyshev_distance(IVec2::new(i32::MAX, 0)), u32::MAX);
}

#[test]
fn signs_and_magnitudes() {
    let v = IVec2::new(-5, 0);
    assert_eq!(v.abs(), IVec2::new(5, 0));
    assert_eq!(v.signum(), IVec2::new(-1, 0));
    assert_eq!(IVec2::new(9, -1).signum(), IVec2::new(1, -1));
    assert_eq!(IVec2::new(i32::MIN, 1).signum(), IVec2::new(-1, 1));
    assert_eq!(v.map(|c| c * 2 + 1), IVec2::new(-9, 1));
}

#[test]
fn conversions() {
    let v = IVec2::new(6, -2);
    assert_eq!(v.to_tuple(), (6, -2));
    assert_eq!(IVec2::from_tuple((6, -2)), v);
    assert_eq!(v.to_array(), [6, -2]);
    let t: (i32, i32) = v.into();
    assert_eq!(t, (6, -2));
    let a: [i32; 2] = v.into();
    assert_eq!(a, [6, -2]);
    assert_eq!(IVec2::from([6, -2]), v);
    assert_eq!(IVec2::from((6, -2)), v);
}

#[test]
fn display_and_debug_text() {
    assert_eq!(IVec2::new(3, -17).to_display_string(), "[3, -17]");
    assert_eq!(IVec2::new(0, 120).to_debug_string(), "IVec2(0, 120)");
    assert_eq!(
        IVec2::new(i32::MIN, i32::MAX).to_display_string(),
        "[-2147483648, 2147483647]"
    );
}

#[test]
fn sub_undoes_add() {
    let a = IVec2::new(12, -40);
    let b = IVec2::new(-7, 3);
    assert_eq!((a + b) - b, a);
}
