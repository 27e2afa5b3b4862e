use vstd::prelude::*;
use vstd::string::StringExecFns;

verus! {

/// Whether an integer fits in an `i32`.
pub open spec fn fits_i32(v: int) -> bool {
    i32::MIN <= v <= i32::MAX
}

/// Whether an integer fits in a `u32`.
pub open spec fn fits_u32(v: int) -> bool {
    0 <= v <= u32::MAX
}

/// The absolute value of an integer.
pub open spec fn int_abs(a: int) -> int {
    if a < 0 {
        -a
    } else {
        a
    }
}

/// Whether `a / b` and `a % b` are defined on `i32`: no division by zero and no
/// `i32::MIN / -1` overflow.
pub open spec fn divisible_i32(a: int, b: int) -> bool {
    b != 0 && !(a == i32::MIN && b == -1)
}

/// Quotient rounded toward zero, as Rust's integer `/` computes it.
pub open spec fn div_toward_zero(a: int, b: int) -> int {
    let q = int_abs(a) / int_abs(b);
    if (a < 0) == (b < 0) {
        q
    } else {
        -q
    }
}

/// Remainder with the sign of the dividend, as Rust's integer `%` computes it.
pub open spec fn rem_toward_zero(a: int, b: int) -> int {
    let m = int_abs(a) % int_abs(b);
    if a < 0 {
        -m
    } else {
        m
    }
}

/// The sign of an integer: `-1`, `0` or `1`.
pub open spec fn int_signum(a: int) -> int {
    if a < 0 {
        -1
    } else if a == 0 {
        0
    } else {
        1
    }
}

/// Integer division of two `i32`s, rounded toward zero.
pub fn div_i32(a: i32, b: i32) -> (r: i32)
    requires
        divisible_i32(a as int, b as int),
    ensures
        r == div_toward_zero(a as int, b as int),
{
    let ua: i64 = if a < 0 {
        -(a as i64)
    } else {
        a as i64
    };
    let ub: i64 = if b < 0 {
        -(b as i64)
    } else {
        b as i64
    };
    let q: i64 = ua / ub;
    assert(0 <= q <= ua) by (nonlinear_arith)
        requires
            q == ua / ub,
            ua >= 0,
            ub >= 1,
    ;
    assert(ub >= 2 ==> q <= ua / 2) by (nonlinear_arith)
        requires
            q == ua / ub,
            ua >= 0,
            ub >= 1,
    ;
    if (a < 0) == (b < 0) {
        q as i32
    } else {
        (-q) as i32
    }
}

/// Remainder of two `i32`s, with the sign of the dividend.
pub fn rem_i32(a: i32, b: i32) -> (r: i32)
    requires
        divisible_i32(a as int, b as int),
    ensures
        r == rem_toward_zero(a as int, b as int),
{
    let ua: i64 = if a < 0 {
        -(a as i64)
    } else {
        a as i64
    };
    let ub: i64 = if b < 0 {
        -(b as i64)
    } else {
        b as i64
    };
    let m: i64 = ua % ub;
    if a < 0 {
        (-m) as i32
    } else {
        m as i32
    }
}

/// The absolute value of an `i32` (undefined for `i32::MIN`, which has none).
pub fn abs_i32(a: i32) -> (r: i32)
    requires
        a != i32::MIN,
    ensures
        r == int_abs(a as int),
{
    if a < 0 {
        -a
    } else {
        a
    }
}

/// The sign of an `i32`.
pub fn signum_i32(a: i32) -> (r: i32)
    ensures
        r == int_signum(a as int),
{
    if a < 0 {
        -1
    } else if a == 0 {
        0
    } else {
        1
    }
}

/// The distance between two `i32`s, which always fits in a `u32`.
pub fn abs_diff_i32(a: i32, b: i32) -> (r: u32)
    ensures
        r == int_abs(a - b),
{
    if a >= b {
        ((a as i64) - (b as i64)) as u32
    } else {
        ((b as i64) - (a as i64)) as u32
    }
}

/// A two-dimensional vector of `i32` coordinates: a cell of the window grid,
/// a pixel position or a size.
#[derive(Clone, Copy, Debug, PartialEq, Eq, Hash, Structural)]
pub struct IVec2 {
    pub x: i32,
    pub y: i32,
}

/// The vector whose coordinates are the given integers, cast to `i32`.
pub open spec fn ivec(x: int, y: int) -> IVec2 {
    IVec2 { x: x as i32, y: y as i32 }
}

/// The dot product of two vectors, as an integer.
pub open spec fn spec_dot(a: IVec2, b: IVec2) -> int {
    a.x * b.x + a.y * b.y
}

/// The 2D cross product (determinant) of two vectors, as an integer.
pub open spec fn spec_det(a: IVec2, b: IVec2) -> int {
    a.x * b.y - a.y * b.x
}

/// `a` rotated and scaled by `b`: the product of the two as complex numbers.
pub open spec fn spec_rotate(a: IVec2, b: IVec2) -> IVec2 {
    ivec(a.x * b.x - a.y * b.y, a.y * b.x + a.x * b.y)
}

/// Whether every product and sum of `rotate` fits in an `i32`.
pub open spec fn rotate_fits(a: IVec2, b: IVec2) -> bool {
    &&& fits_i32(a.x * b.x)
    &&& fits_i32(a.y * b.y)
    &&& fits_i32(a.x * b.x - a.y * b.y)
    &&& fits_i32(a.y * b.x)
    &&& fits_i32(a.x * b.y)
    &&& fits_i32(a.y * b.x + a.x * b.y)
}

/// The Manhattan (taxicab) distance between two vectors.
pub open spec fn spec_manhattan(a: IVec2, b: IVec2) -> int {
    int_abs(a.x - b.x) + int_abs(a.y - b.y)
}

/// The Chebyshev (chessboard) distance between two vectors.
pub open spec fn spec_chebyshev(a: IVec2, b: IVec2) -> int {
    let dx = int_abs(a.x - b.x);
    let dy = int_abs(a.y - b.y);
    if dx >= dy {
        dx
    } else {
        dy
    }
}

impl IVec2 {
    /// A vector from its two coordinates.
    pub fn new(x: i32, y: i32) -> (v: IVec2)
        ensures
            v.x == x,
            v.y == y,
    {
        IVec2 { x, y }
    }

    /// A vector with both coordinates equal to `v`.
    pub fn splat(v: i32) -> (r: IVec2)
        ensures
            r.x == v,
            r.y == v,
    {
        IVec2 { x: v, y: v }
    }

    /// `(0, 0)`.
    pub fn zero() -> (r: IVec2)
        ensures
            r == ivec(0, 0),
    {
        IVec2::splat(0)
    }

    /// `(1, 1)`.
    pub fn one() -> (r: IVec2)
        ensures
            r == ivec(1, 1),
    {
        IVec2::splat(1)
    }

    /// `(-1, -1)`.
    pub fn neg_one() -> (r: IVec2)
        ensures
            r == ivec(-1, -1),
    {
        IVec2::splat(-1)
    }

    /// `(-1, 1)`: multiplying by it mirrors the x axis.
    pub fn flip_x() -> (r: IVec2)
        ensures
            r == ivec(-1, 1),
    {
        IVec2::new(-1, 1)
    }

    /// `(1, -1)`: multiplying by it mirrors the y axis.
    pub fn flip_y() -> (r: IVec2)
        ensures
            r == ivec(1, -1),
    {
        IVec2::new(1, -1)
    }

    /// The unit vector `(1, 0)`.
    pub fn unit_x() -> (r: IVec2)
        ensures
            r == ivec(1, 0),
    {
        IVec2::new(1, 0)
    }

    /// The unit vector `(0, 1)`.
    pub fn unit_y() -> (r: IVec2)
        ensures
            r == ivec(0, 1),
    {
        IVec2::new(0, 1)
    }

    /// The unit vector `(-1, 0)`.
    pub fn neg_x() -> (r: IVec2)
        ensures
            r == ivec(-1, 0),
    {
        IVec2::new(-1, 0)
    }

    /// The unit vector `(0, -1)`.
    pub fn neg_y() -> (r: IVec2)
        ensures
            r == ivec(0, -1),
    {
        IVec2::new(0, -1)
    }

    /// The two positive unit vectors, x first.
    pub fn aligned_axes() -> (r: [IVec2; 2])
        ensures
            r@ == seq![ivec(1, 0), ivec(0, 1)],
    {
        [IVec2::unit_x(), IVec2::unit_y()]
    }

    /// The four unit vectors, in the order `+x`, `+y`, `-x`, `-y`.
    pub fn axes() -> (r: [IVec2; 4])
        ensures
            r@ == seq![ivec(1, 0), ivec(0, 1), ivec(-1, 0), ivec(0, -1)],
    {
        [IVec2::unit_x(), IVec2::unit_y(), IVec2::neg_x(), IVec2::neg_y()]
    }

    /// Applies `f` to each coordinate.
    pub fn map<F>(self, f: F) -> (r: IVec2) where F: Fn(i32) -> i32
        requires
            f.requires((self.x,)),
            f.requires((self.y,)),
        ensures
            f.ensures((self.x,), r.x),
            f.ensures((self.y,), r.y),
    {
        IVec2::new(f(self.x), f(self.y))
    }

    /// The dot product.
    pub fn dot(self, rhs: IVec2) -> (r: i32)
        requires
            fits_i32(self.x * rhs.x),
            fits_i32(self.y * rhs.y),
            fits_i32(spec_dot(self, rhs)),
        ensures
            r == spec_dot(self, rhs),
    {
        (self.x * rhs.x) + (self.y * rhs.y)
    }

    /// The coordinate-wise absolute value.
    pub fn abs(self) -> (r: IVec2)
        requires
            self.x != i32::MIN,
            self.y != i32::MIN,
        ensures
            r == ivec(int_abs(self.x as int), int_abs(self.y as int)),
    {
        IVec2 { x: abs_i32(self.x), y: abs_i32(self.y) }
    }

    /// The coordinate-wise sign.
    pub fn signum(self) -> (r: IVec2)
        ensures
            r == ivec(int_signum(self.x as int), int_signum(self.y as int)),
    {
        IVec2 { x: signum_i32(self.x), y: signum_i32(self.y) }
    }

    /// The coordinates as a pair.
    pub fn to_tuple(self) -> (r: (i32, i32))
        ensures
            r == (self.x, self.y),
    {
        (self.x, self.y)
    }

    /// A vector from a pair of coordinates.
    pub fn from_tuple(val: (i32, i32)) -> (r: IVec2)
        ensures
            r.x == val.0,
            r.y == val.1,
    {
        IVec2 { x: val.0, y: val.1 }
    }

    /// The coordinates as an array `[x, y]`.
    pub fn to_array(self) -> (r: [i32; 2])
        ensures
            r@ == seq![self.x, self.y],
    {
        [self.x, self.y]
    }

    /// The squared length, `self · self`.
    pub fn length_squared(self) -> (r: i32)
        requires
            fits_i32(self.x * self.x),
            fits_i32(self.y * self.y),
            fits_i32(spec_dot(self, self)),
        ensures
            r == spec_dot(self, self),
    {
        self.dot(self)
    }

    /// The squared distance to `rhs`.
    pub fn distance_squared(self, rhs: IVec2) -> (r: i32)
        requires
            fits_i32(self.x - rhs.x),
            fits_i32(self.y - rhs.y),
            fits_i32((self.x - rhs.x) * (self.x - rhs.x)),
            fits_i32((self.y - rhs.y) * (self.y - rhs.y)),
            fits_i32((self.x - rhs.x) * (self.x - rhs.x) + (self.y - rhs.y) * (self.y - rhs.y)),
        ensures
            r == (self.x - rhs.x) * (self.x - rhs.x) + (self.y - rhs.y) * (self.y - rhs.y),
    {
        (self - rhs).length_squared()
    }

    /// The Manhattan distance to `rhs`.
    pub fn manhattan_distance(self, rhs: IVec2) -> (r: u32)
        requires
            fits_u32(spec_manhattan(self, rhs)),
        ensures
            r == spec_manhattan(self, rhs),
    {
        abs_diff_i32(self.x, rhs.x) + abs_diff_i32(self.y, rhs.y)
    }

    /// The Chebyshev distance to `rhs`.
    pub fn chebyshev_distance(self, rhs: IVec2) -> (r: u32)
        ensures
            r == spec_chebyshev(self, rhs),
    {
        let dx = abs_diff_i32(self.x, rhs.x);
        let dy = abs_diff_i32(self.y, rhs.y);
        if dx >= dy {
            dx
        } else {
            dy
        }
    }

    /// The vector rotated a quarter turn: `(-y, x)`.
    pub fn perp(self) -> (r: IVec2)
        requires
            self.y != i32::MIN,
        ensures
            r == ivec(-self.y, self.x as int),
    {
        IVec2 { x: -self.y, y: self.x }
    }

    /// The determinant `self.x * rhs.y - self.y * rhs.x`.
    pub fn det(self, rhs: IVec2) -> (r: i32)
        requires
            fits_i32(self.x * rhs.y),
            fits_i32(self.y * rhs.x),
            fits_i32(spec_det(self, rhs)),
        ensures
            r == spec_det(self, rhs),
    {
        (self.x * rhs.y) - (self.y * rhs.x)
    }

    /// `self` rotated and scaled by `rhs`, as complex multiplication.
    pub fn rotate(self, rhs: IVec2) -> (r: IVec2)
        requires
            rotate_fits(self, rhs),
        ensures
            r == spec_rotate(self, rhs),
    {
        IVec2 { x: self.x * rhs.x - self.y * rhs.y, y: self.y * rhs.x + self.x * rhs.y }
    }
}

// ---- Add ----
impl core::ops::Add<IVec2> for IVec2 {
    type Output = IVec2;

    fn add(self, rhs: IVec2) -> (r: IVec2) {
        IVec2 { x: self.x + rhs.x, y: self.y + rhs.y }
    }
}

impl vstd::std_specs::ops::AddSpecImpl<IVec2> for IVec2 {
    open spec fn obeys_add_spec() -> bool {
        true
    }

    open spec fn add_req(self, rhs: IVec2) -> bool {
        fits_i32(self.x + rhs.x) && fits_i32(self.y + rhs.y)
    }

    open spec fn add_spec(self, rhs: IVec2) -> IVec2 {
        IVec2 { x: (self.x + rhs.x) as i32, y: (self.y + rhs.y) as i32 }
    }
}

impl core::ops::Add<&IVec2> for IVec2 {
    type Output = IVec2;

    fn add(self, rhs: &IVec2) -> (r: IVec2) {
        <IVec2 as core::ops::Add<IVec2>>::add(self, *rhs)
    }
}

impl vstd::std_specs::ops::AddSpecImpl<&IVec2> for IVec2 {
    open spec fn obeys_add_spec() -> bool {
        true
    }

    open spec fn add_req(self, rhs: &IVec2) -> bool {
        fits_i32(self.x + rhs.x) && fits_i32(self.y + rhs.y)
    }

    open spec fn add_spec(self, rhs: &IVec2) -> IVec2 {
        IVec2 { x: (self.x + rhs.x) as i32, y: (self.y + rhs.y) as i32 }
    }
}

impl core::ops::Add<IVec2> for &IVec2 {
    type Output = IVec2;

    fn add(self, rhs: IVec2) -> (r: IVec2) {
        <IVec2 as core::ops::Add<IVec2>>::add(*self, rhs)
    }
}

impl vstd::std_specs::ops::AddSpecImpl<IVec2> for &IVec2 {
    open spec fn obeys_add_spec() -> bool {
        true
    }

    open spec fn add_req(self, rhs: IVec2) -> bool {
        fits_i32(self.x + rhs.x) && fits_i32(self.y + rhs.y)
    }

    open spec fn add_spec(self, rhs: IVec2) -> IVec2 {
        IVec2 { x: (self.x + rhs.x) as i32, y: (self.y + rhs.y) as i32 }
    }
}

impl core::ops::Add<&IVec2> for &IVec2 {
    type Output = IVec2;

    fn add(self, rhs: &IVec2) -> (r: IVec2) {
        <IVec2 as core::ops::Add<IVec2>>::add(*self, *rhs)
    }
}

impl vstd::std_specs::ops::AddSpecImpl<&IVec2> for &IVec2 {
    open spec fn obeys_add_spec() -> bool {
        true
    }

    open spec fn add_req(self, rhs: &IVec2) -> bool {
        fits_i32(self.x + rhs.x) && fits_i32(self.y + rhs.y)
    }

    open spec fn add_spec(self, rhs: &IVec2) -> IVec2 {
        IVec2 { x: (self.x + rhs.x) as i32, y: (self.y + rhs.y) as i32 }
    }
}

impl core::ops::Add<i32> for IVec2 {
    type Output = IVec2;

    fn add(self, rhs: i32) -> (r: IVec2) {
        IVec2 { x: self.x + rhs, y: self.y + rhs }
    }
}

impl vstd::std_specs::ops::AddSpecImpl<i32> for IVec2 {
    open spec fn obeys_add_spec() -> bool {
        true
    }

    open spec fn add_req(self, rhs: i32) -> bool {
        fits_i32(self.x + rhs) && fits_i32(self.y + rhs)
    }

    open spec fn add_spec(self, rhs: i32) -> IVec2 {
        IVec2 { x: (self.x + rhs) as i32, y: (self.y + rhs) as i32 }
    }
}

impl core::ops::Add<&i32> for IVec2 {
    type Output = IVec2;

    fn add(self, rhs: &i32) -> (r: IVec2) {
        <IVec2 as core::ops::Add<i32>>::add(self, *rhs)
    }
}

impl vstd::std_specs::ops::AddSpecImpl<&i32> for IVec2 {
    open spec fn obeys_add_spec() -> bool {
        true
    }

    open spec fn add_req(self, rhs: &i32) -> bool {
        fits_i32(self.x + *rhs) && fits_i32(self.y + *rhs)
    }

    open spec fn add_spec(self, rhs: &i32) -> IVec2 {
        IVec2 { x: (self.x + *rhs) as i32, y: (self.y + *rhs) as i32 }
    }
}

impl core::ops::Add<i32> for &IVec2 {
    type Output = IVec2;

    fn add(self, rhs: i32) -> (r: IVec2) {
        <IVec2 as core::ops::Add<i32>>::add(*self, rhs)
    }
}

impl vstd::std_specs::ops::AddSpecImpl<i32> for &IVec2 {
    open spec fn obeys_add_spec() -> bool {
        true
    }

    open spec fn add_req(self, rhs: i32) -> bool {
        fits_i32(self.x + rhs) && fits_i32(self.y + rhs)
    }

    open spec fn add_spec(self, rhs: i32) -> IVec2 {
        IVec2 { x: (self.x + rhs) as i32, y: (self.y + rhs) as i32 }
    }
}

impl core::ops::Add<&i32> for &IVec2 {
    type Output = IVec2;

    fn add(self, rhs: &i32) -> (r: IVec2) {
        <IVec2 as core::ops::Add<i32>>::add(*self, *rhs)
    }
}

impl vstd::std_specs::ops::AddSpecImpl<&i32> for &IVec2 {
    open spec fn obeys_add_spec() -> bool {
        true
    }

    open spec fn add_req(self, rhs: &i32) -> bool {
        fits_i32(self.x + *rhs) && fits_i32(self.y + *rhs)
    }

    open spec fn add_spec(self, rhs: &i32) -> IVec2 {
        IVec2 { x: (self.x + *rhs) as i32, y: (self.y + *rhs) as i32 }
    }
}

impl core::ops::Add<IVec2> for i32 {
    type Output = IVec2;

    fn add(self, rhs: IVec2) -> (r: IVec2) {
        IVec2 { x: self + rhs.x, y: self + rhs.y }
    }
}

impl vstd::std_specs::ops::AddSpecImpl<IVec2> for i32 {
    open spec fn obeys_add_spec() -> bool {
        true
    }

    open spec fn add_req(self, rhs: IVec2) -> bool {
        fits_i32(self + rhs.x) && fits_i32(self + rhs.y)
    }

    open spec fn add_spec(self, rhs: IVec2) -> IVec2 {
        IVec2 { x: (self + rhs.x) as i32, y: (self + rhs.y) as i32 }
    }
}

impl core::ops::Add<&IVec2> for i32 {
    type Output = IVec2;

    fn add(self, rhs: &IVec2) -> (r: IVec2) {
        <i32 as core::ops::Add<IVec2>>::add(self, *rhs)
    }
}

impl vstd::std_specs::ops::AddSpecImpl<&IVec2> for i32 {
    open spec fn obeys_add_spec() -> bool {
        true
    }

    open spec fn add_req(self, rhs: &IVec2) -> bool {
        fits_i32(self + rhs.x) && fits_i32(self + rhs.y)
    }

    open spec fn add_spec(self, rhs: &IVec2) -> IVec2 {
        IVec2 { x: (self + rhs.x) as i32, y: (self + rhs.y) as i32 }
    }
}

impl core::ops::Add<IVec2> for &i32 {
    type Output = IVec2;

    fn add(self, rhs: IVec2) -> (r: IVec2) {
        <i32 as core::ops::Add<IVec2>>::add(*self, rhs)
    }
}

impl vstd::std_specs::ops::AddSpecImpl<IVec2> for &i32 {
    open spec fn obeys_add_spec() -> bool {
        true
    }

    open spec fn add_req(self, rhs: IVec2) -> bool {
        fits_i32(*self + rhs.x) && fits_i32(*self + rhs.y)
    }

    open spec fn add_spec(self, rhs: IVec2) -> IVec2 {
        IVec2 { x: (*self + rhs.x) as i32, y: (*self + rhs.y) as i32 }
    }
}

impl core::ops::Add<&IVec2> for &i32 {
    type Output = IVec2;

    fn add(self, rhs: &IVec2) -> (r: IVec2) {
        <i32 as core::ops::Add<IVec2>>::add(*self, *rhs)
    }
}

impl vstd::std_specs::ops::AddSpecImpl<&IVec2> for &i32 {
    open spec fn obeys_add_spec() -> bool {
        true
    }

    open spec fn add_req(self, rhs: &IVec2) -> bool {
        fits_i32(*self + rhs.x) && fits_i32(*self + rhs.y)
    }

    open spec fn add_spec(self, rhs: &IVec2) -> IVec2 {
        IVec2 { x: (*self + rhs.x) as i32, y: (*self + rhs.y) as i32 }
    }
}

// ---- Sub ----
impl core::ops::Sub<IVec2> for IVec2 {
    type Output = IVec2;

    fn sub(self, rhs: IVec2) -> (r: IVec2) {
        IVec2 { x: self.x - rhs.x, y: self.y - rhs.y }
    }
}

impl vstd::std_specs::ops::SubSpecImpl<IVec2> for IVec2 {
    open spec fn obeys_sub_spec() -> bool {
        true
    }

    open spec fn sub_req(self, rhs: IVec2) -> bool {
        fits_i32(self.x - rhs.x) && fits_i32(self.y - rhs.y)
    }

    open spec fn sub_spec(self, rhs: IVec2) -> IVec2 {
        IVec2 { x: (self.x - rhs.x) as i32, y: (self.y - rhs.y) as i32 }
    }
}

impl core::ops::Sub<&IVec2> for IVec2 {
    type Output = IVec2;

    fn sub(self, rhs: &IVec2) -> (r: IVec2) {
        <IVec2 as core::ops::Sub<IVec2>>::sub(self, *rhs)
    }
}

impl vstd::std_specs::ops::SubSpecImpl<&IVec2> for IVec2 {
    open spec fn obeys_sub_spec() -> bool {
        true
    }

    open spec fn sub_req(self, rhs: &IVec2) -> bool {
        fits_i32(self.x - rhs.x) && fits_i32(self.y - rhs.y)
    }

    open spec fn sub_spec(self, rhs: &IVec2) -> IVec2 {
        IVec2 { x: (self.x - rhs.x) as i32, y: (self.y - rhs.y) as i32 }
    }
}

impl core::ops::Sub<IVec2> for &IVec2 {
    type Output = IVec2;

    fn sub(self, rhs: IVec2) -> (r: IVec2) {
        <IVec2 as core::ops::Sub<IVec2>>::sub(*self, rhs)
    }
}

impl vstd::std_specs::ops::SubSpecImpl<IVec2> for &IVec2 {
    open spec fn obeys_sub_spec() -> bool {
        true
    }

    open spec fn sub_req(self, rhs: IVec2) -> bool {
        fits_i32(self.x - rhs.x) && fits_i32(self.y - rhs.y)
    }

    open spec fn sub_spec(self, rhs: IVec2) -> IVec2 {
        IVec2 { x: (self.x - rhs.x) as i32, y: (self.y - rhs.y) as i32 }
    }
}

impl core::ops::Sub<&IVec2> for &IVec2 {
    type Output = IVec2;

    fn sub(self, rhs: &IVec2) -> (r: IVec2) {
        <IVec2 as core::ops::Sub<IVec2>>::sub(*self, *rhs)
    }
}

impl vstd::std_specs::ops::SubSpecImpl<&IVec2> for &IVec2 {
    open spec fn obeys_sub_spec() -> bool {
        true
    }

    open spec fn sub_req(self, rhs: &IVec2) -> bool {
        fits_i32(self.x - rhs.x) && fits_i32(self.y - rhs.y)
    }

    open spec fn sub_spec(self, rhs: &IVec2) -> IVec2 {
        IVec2 { x: (self.x - rhs.x) as i32, y: (self.y - rhs.y) as i32 }
    }
}

impl core::ops::Sub<i32> for IVec2 {
    type Output = IVec2;

    fn sub(self, rhs: i32) -> (r: IVec2) {
        IVec2 { x: self.x - rhs, y: self.y - rhs }
    }
}

impl vstd::std_specs::ops::SubSpecImpl<i32> for IVec2 {
    open spec fn obeys_sub_spec() -> bool {
        true
    }

    open spec fn sub_req(self, rhs: i32) -> bool {
        fits_i32(self.x - rhs) && fits_i32(self.y - rhs)
    }

    open spec fn sub_spec(self, rhs: i32) -> IVec2 {
        IVec2 { x: (self.x - rhs) as i32, y: (self.y - rhs) as i32 }
    }
}

impl core::ops::Sub<&i32> for IVec2 {
    type Output = IVec2;

    fn sub(self, rhs: &i32) -> (r: IVec2) {
        <IVec2 as core::ops::Sub<i32>>::sub(self, *rhs)
    }
}

impl vstd::std_specs::ops::SubSpecImpl<&i32> for IVec2 {
    open spec fn obeys_sub_spec() -> bool {
        true
    }

    open spec fn sub_req(self, rhs: &i32) -> bool {
        fits_i32(self.x - *rhs) && fits_i32(self.y - *rhs)
    }

    open spec fn sub_spec(self, rhs: &i32) -> IVec2 {
        IVec2 { x: (self.x - *rhs) as i32, y: (self.y - *rhs) as i32 }
    }
}

impl core::ops::Sub<i32> for &IVec2 {
    type Output = IVec2;

    fn sub(self, rhs: i32) -> (r: IVec2) {
        <IVec2 as core::ops::Sub<i32>>::sub(*self, rhs)
    }
}

impl vstd::std_specs::ops::SubSpecImpl<i32> for &IVec2 {
    open spec fn obeys_sub_spec() -> bool {
        true
    }

    open spec fn sub_req(self, rhs: i32) -> bool {
        fits_i32(self.x - rhs) && fits_i32(self.y - rhs)
    }

    open spec fn sub_spec(self, rhs: i32) -> IVec2 {
        IVec2 { x: (self.x - rhs) as i32, y: (self.y - rhs) as i32 }
    }
}

impl core::ops::Sub<&i32> for &IVec2 {
    type Output = IVec2;

    fn sub(self, rhs: &i32) -> (r: IVec2) {
        <IVec2 as core::ops::Sub<i32>>::sub(*self, *rhs)
    }
}

impl vstd::std_specs::ops::SubSpecImpl<&i32> for &IVec2 {
    open spec fn obeys_sub_spec() -> bool {
        true
    }

    open spec fn sub_req(self, rhs: &i32) -> bool {
        fits_i32(self.x - *rhs) && fits_i32(self.y - *rhs)
    }

    open spec fn sub_spec(self, rhs: &i32) -> IVec2 {
        IVec2 { x: (self.x - *rhs) as i32, y: (self.y - *rhs) as i32 }
    }
}

impl core::ops::Sub<IVec2> for i32 {
    type Output = IVec2;

    fn sub(self, rhs: IVec2) -> (r: IVec2) {
        IVec2 { x: self - rhs.x, y: self - rhs.y }
    }
}

impl vstd::std_specs::ops::SubSpecImpl<IVec2> for i32 {
    open spec fn obeys_sub_spec() -> bool {
        true
    }

    open spec fn sub_req(self, rhs: IVec2) -> bool {
        fits_i32(self - rhs.x) && fits_i32(self - rhs.y)
    }

    open spec fn sub_spec(self, rhs: IVec2) -> IVec2 {
        IVec2 { x: (self - rhs.x) as i32, y: (self - rhs.y) as i32 }
    }
}

impl core::ops::Sub<&IVec2> for i32 {
    type Output = IVec2;

    fn sub(self, rhs: &IVec2) -> (r: IVec2) {
        <i32 as core::ops::Sub<IVec2>>::sub(self, *rhs)
    }
}

impl vstd::std_specs::ops::SubSpecImpl<&IVec2> for i32 {
    open spec fn obeys_sub_spec() -> bool {
        true
    }

    open spec fn sub_req(self, rhs: &IVec2) -> bool {
        fits_i32(self - rhs.x) && fits_i32(self - rhs.y)
    }

    open spec fn sub_spec(self, rhs: &IVec2) -> IVec2 {
        IVec2 { x: (self - rhs.x) as i32, y: (self - rhs.y) as i32 }
    }
}

impl core::ops::Sub<IVec2> for &i32 {
    type Output = IVec2;

    fn sub(self, rhs: IVec2) -> (r: IVec2) {
        <i32 as core::ops::Sub<IVec2>>::sub(*self, rhs)
    }
}

impl vstd::std_specs::ops::SubSpecImpl<IVec2> for &i32 {
    open spec fn obeys_sub_spec() -> bool {
        true
    }

    open spec fn sub_req(self, rhs: IVec2) -> bool {
        fits_i32(*self - rhs.x) && fits_i32(*self - rhs.y)
    }

    open spec fn sub_spec(self, rhs: IVec2) -> IVec2 {
        IVec2 { x: (*self - rhs.x) as i32, y: (*self - rhs.y) as i32 }
    }
}

impl core::ops::Sub<&IVec2> for &i32 {
    type Output = IVec2;

    fn sub(self, rhs: &IVec2) -> (r: IVec2) {
        <i32 as core::ops::Sub<IVec2>>::sub(*self, *rhs)
    }
}

impl vstd::std_specs::ops::SubSpecImpl<&IVec2> for &i32 {
    open spec fn obeys_sub_spec() -> bool {
        true
    }

    open spec fn sub_req(self, rhs: &IVec2) -> bool {
        fits_i32(*self - rhs.x) && fits_i32(*self - rhs.y)
    }

    open spec fn sub_spec(self, rhs: &IVec2) -> IVec2 {
        IVec2 { x: (*self - rhs.x) as i32, y: (*self - rhs.y) as i32 }
    }
}

// ---- Mul ----
impl core::ops::Mul<IVec2> for IVec2 {
    type Output = IVec2;

    fn mul(self, rhs: IVec2) -> (r: IVec2) {
        IVec2 { x: self.x * rhs.x, y: self.y * rhs.y }
    }
}

impl vstd::std_specs::ops::MulSpecImpl<IVec2> for IVec2 {
    open spec fn obeys_mul_spec() -> bool {
        true
    }

    open spec fn mul_req(self, rhs: IVec2) -> bool {
        fits_i32(self.x * rhs.x) && fits_i32(self.y * rhs.y)
    }

    open spec fn mul_spec(self, rhs: IVec2) -> IVec2 {
        IVec2 { x: (self.x * rhs.x) as i32, y: (self.y * rhs.y) as i32 }
    }
}

impl core::ops::Mul<&IVec2> for IVec2 {
    type Output = IVec2;

    fn mul(self, rhs: &IVec2) -> (r: IVec2) {
        <IVec2 as core::ops::Mul<IVec2>>::mul(self, *rhs)
    }
}

impl vstd::std_specs::ops::MulSpecImpl<&IVec2> for IVec2 {
    open spec fn obeys_mul_spec() -> bool {
        true
    }

    open spec fn mul_req(self, rhs: &IVec2) -> bool {
        fits_i32(self.x * rhs.x) && fits_i32(self.y * rhs.y)
    }

    open spec fn mul_spec(self, rhs: &IVec2) -> IVec2 {
        IVec2 { x: (self.x * rhs.x) as i32, y: (self.y * rhs.y) as i32 }
    }
}

impl core::ops::Mul<IVec2> for &IVec2 {
    type Output = IVec2;

    fn mul(self, rhs: IVec2) -> (r: IVec2) {
        <IVec2 as core::ops::Mul<IVec2>>::mul(*self, rhs)
    }
}

impl vstd::std_specs::ops::MulSpecImpl<IVec2> for &IVec2 {
    open spec fn obeys_mul_spec() -> bool {
        true
    }

    open spec fn mul_req(self, rhs: IVec2) -> bool {
        fits_i32(self.x * rhs.x) && fits_i32(self.y * rhs.y)
    }

    open spec fn mul_spec(self, rhs: IVec2) -> IVec2 {
        IVec2 { x: (self.x * rhs.x) as i32, y: (self.y * rhs.y) as i32 }
    }
}

impl core::ops::Mul<&IVec2> for &IVec2 {
    type Output = IVec2;

    fn mul(self, rhs: &IVec2) -> (r: IVec2) {
        <IVec2 as core::ops::Mul<IVec2>>::mul(*self, *rhs)
    }
}

impl vstd::std_specs::ops::MulSpecImpl<&IVec2> for &IVec2 {
    open spec fn obeys_mul_spec() -> bool {
        true
    }

    open spec fn mul_req(self, rhs: &IVec2) -> bool {
        fits_i32(self.x * rhs.x) && fits_i32(self.y * rhs.y)
    }

    open spec fn mul_spec(self, rhs: &IVec2) -> IVec2 {
        IVec2 { x: (self.x * rhs.x) as i32, y: (self.y * rhs.y) as i32 }
    }
}

impl core::ops::Mul<i32> for IVec2 {
    type Output = IVec2;

    fn mul(self, rhs: i32) -> (r: IVec2) {
        IVec2 { x: self.x * rhs, y: self.y * rhs }
    }
}

impl vstd::std_specs::ops::MulSpecImpl<i32> for IVec2 {
    open spec fn obeys_mul_spec() -> bool {
        true
    }

    open spec fn mul_req(self, rhs: i32) -> bool {
        fits_i32(self.x * rhs) && fits_i32(self.y * rhs)
    }

    open spec fn mul_spec(self, rhs: i32) -> IVec2 {
        IVec2 { x: (self.x * rhs) as i32, y: (self.y * rhs) as i32 }
    }
}

impl core::ops::Mul<&i32> for IVec2 {
    type Output = IVec2;

    fn mul(self, rhs: &i32) -> (r: IVec2) {
        <IVec2 as core::ops::Mul<i32>>::mul(self, *rhs)
    }
}

impl vstd::std_specs::ops::MulSpecImpl<&i32> for IVec2 {
    open spec fn obeys_mul_spec() -> bool {
        true
    }

    open spec fn mul_req(self, rhs: &i32) -> bool {
        fits_i32(self.x * *rhs) && fits_i32(self.y * *rhs)
    }

    open spec fn mul_spec(self, rhs: &i32) -> IVec2 {
        IVec2 { x: (self.x * *rhs) as i32, y: (self.y * *rhs) as i32 }
    }
}

impl core::ops::Mul<i32> for &IVec2 {
    type Output = IVec2;

    fn mul(self, rhs: i32) -> (r: IVec2) {
        <IVec2 as core::ops::Mul<i32>>::mul(*self, rhs)
    }
}

impl vstd::std_specs::ops::MulSpecImpl<i32> for &IVec2 {
    open spec fn obeys_mul_spec() -> bool {
        true
    }

    open spec fn mul_req(self, rhs: i32) -> bool {
        fits_i32(self.x * rhs) && fits_i32(self.y * rhs)
    }

    open spec fn mul_spec(self, rhs: i32) -> IVec2 {
        IVec2 { x: (self.x * rhs) as i32, y: (self.y * rhs) as i32 }
    }
}

impl core::ops::Mul<&i32> for &IVec2 {
    type Output = IVec2;

    fn mul(self, rhs: &i32) -> (r: IVec2) {
        <IVec2 as core::ops::Mul<i32>>::mul(*self, *rhs)
    }
}

impl vstd::std_specs::ops::MulSpecImpl<&i32> for &IVec2 {
    open spec fn obeys_mul_spec() -> bool {
        true
    }

    open spec fn mul_req(self, rhs: &i32) -> bool {
        fits_i32(self.x * *rhs) && fits_i32(self.y * *rhs)
    }

    open spec fn mul_spec(self, rhs: &i32) -> IVec2 {
        IVec2 { x: (self.x * *rhs) as i32, y: (self.y * *rhs) as i32 }
    }
}

impl core::ops::Mul<IVec2> for i32 {
    type Output = IVec2;

    fn mul(self, rhs: IVec2) -> (r: IVec2) {
        IVec2 { x: self * rhs.x, y: self * rhs.y }
    }
}

impl vstd::std_specs::ops::MulSpecImpl<IVec2> for i32 {
    open spec fn obeys_mul_spec() -> bool {
        true
    }

    open spec fn mul_req(self, rhs: IVec2) -> bool {
        fits_i32(self * rhs.x) && fits_i32(self * rhs.y)
    }

    open spec fn mul_spec(self, rhs: IVec2) -> IVec2 {
        IVec2 { x: (self * rhs.x) as i32, y: (self * rhs.y) as i32 }
    }
}

impl core::ops::Mul<&IVec2> for i32 {
    type Output = IVec2;

    fn mul(self, rhs: &IVec2) -> (r: IVec2) {
        <i32 as core::ops::Mul<IVec2>>::mul(self, *rhs)
    }
}

impl vstd::std_specs::ops::MulSpecImpl<&IVec2> for i32 {
    open spec fn obeys_mul_spec() -> bool {
        true
    }

    open spec fn mul_req(self, rhs: &IVec2) -> bool {
        fits_i32(self * rhs.x) && fits_i32(self * rhs.y)
    }

    open spec fn mul_spec(self, rhs: &IVec2) -> IVec2 {
        IVec2 { x: (self * rhs.x) as i32, y: (self * rhs.y) as i32 }
    }
}

impl core::ops::Mul<IVec2> for &i32 {
    type Output = IVec2;

    fn mul(self, rhs: IVec2) -> (r: IVec2) {
        <i32 as core::ops::Mul<IVec2>>::mul(*self, rhs)
    }
}

impl vstd::std_specs::ops::MulSpecImpl<IVec2> for &i32 {
    open spec fn obeys_mul_spec() -> bool {
        true
    }

    open spec fn mul_req(self, rhs: IVec2) -> bool {
        fits_i32(*self * rhs.x) && fits_i32(*self * rhs.y)
    }

    open spec fn mul_spec(self, rhs: IVec2) -> IVec2 {
        IVec2 { x: (*self * rhs.x) as i32, y: (*self * rhs.y) as i32 }
    }
}

impl core::ops::Mul<&IVec2> for &i32 {
    type Output = IVec2;

    fn mul(self, rhs: &IVec2) -> (r: IVec2) {
        <i32 as core::ops::Mul<IVec2>>::mul(*self, *rhs)
    }
}

impl vstd::std_specs::ops::MulSpecImpl<&IVec2> for &i32 {
    open spec fn obeys_mul_spec() -> bool {
        true
    }

    open spec fn mul_req(self, rhs: &IVec2) -> bool {
        fits_i32(*self * rhs.x) && fits_i32(*self * rhs.y)
    }

    open spec fn mul_spec(self, rhs: &IVec2) -> IVec2 {
        IVec2 { x: (*self * rhs.x) as i32, y: (*self * rhs.y) as i32 }
    }
}

// ---- Div ----
impl core::ops::Div<IVec2> for IVec2 {
    type Output = IVec2;

    fn div(self, rhs: IVec2) -> (r: IVec2) {
        IVec2 { x: div_i32(self.x, rhs.x), y: div_i32(self.y, rhs.y) }
    }
}

impl vstd::std_specs::ops::DivSpecImpl<IVec2> for IVec2 {
    open spec fn obeys_div_spec() -> bool {
        true
    }

    open spec fn div_req(self, rhs: IVec2) -> bool {
        divisible_i32(self.x as int, rhs.x as int) && divisible_i32(self.y as int, rhs.y as int)
    }

    open spec fn div_spec(self, rhs: IVec2) -> IVec2 {
        IVec2 { x: div_toward_zero(self.x as int, rhs.x as int) as i32, y: div_toward_zero(self.y as int, rhs.y as int) as i32 }
    }
}

impl core::ops::Div<&IVec2> for IVec2 {
    type Output = IVec2;

    fn div(self, rhs: &IVec2) -> (r: IVec2) {
        <IVec2 as core::ops::Div<IVec2>>::div(self, *rhs)
    }
}

impl vstd::std_specs::ops::DivSpecImpl<&IVec2> for IVec2 {
    open spec fn obeys_div_spec() -> bool {
        true
    }

    open spec fn div_req(self, rhs: &IVec2) -> bool {
        divisible_i32(self.x as int, rhs.x as int) && divisible_i32(self.y as int, rhs.y as int)
    }

    open spec fn div_spec(self, rhs: &IVec2) -> IVec2 {
        IVec2 { x: div_toward_zero(self.x as int, rhs.x as int) as i32, y: div_toward_zero(self.y as int, rhs.y as int) as i32 }
    }
}

impl core::ops::Div<IVec2> for &IVec2 {
    type Output = IVec2;

    fn div(self, rhs: IVec2) -> (r: IVec2) {
        <IVec2 as core::ops::Div<IVec2>>::div(*self, rhs)
    }
}

impl vstd::std_specs::ops::DivSpecImpl<IVec2> for &IVec2 {
    open spec fn obeys_div_spec() -> bool {
        true
    }

    open spec fn div_req(self, rhs: IVec2) -> bool {
        divisible_i32(self.x as int, rhs.x as int) && divisible_i32(self.y as int, rhs.y as int)
    }

    open spec fn div_spec(self, rhs: IVec2) -> IVec2 {
        IVec2 { x: div_toward_zero(self.x as int, rhs.x as int) as i32, y: div_toward_zero(self.y as int, rhs.y as int) as i32 }
    }
}

impl core::ops::Div<&IVec2> for &IVec2 {
    type Output = IVec2;

    fn div(self, rhs: &IVec2) -> (r: IVec2) {
        <IVec2 as core::ops::Div<IVec2>>::div(*self, *rhs)
    }
}

impl vstd::std_specs::ops::DivSpecImpl<&IVec2> for &IVec2 {
    open spec fn obeys_div_spec() -> bool {
        true
    }

    open spec fn div_req(self, rhs: &IVec2) -> bool {
        divisible_i32(self.x as int, rhs.x as int) && divisible_i32(self.y as int, rhs.y as int)
    }

    open spec fn div_spec(self, rhs: &IVec2) -> IVec2 {
        IVec2 { x: div_toward_zero(self.x as int, rhs.x as int) as i32, y: div_toward_zero(self.y as int, rhs.y as int) as i32 }
    }
}

impl core::ops::Div<i32> for IVec2 {
    type Output = IVec2;

    fn div(self, rhs: i32) -> (r: IVec2) {
        IVec2 { x: div_i32(self.x, rhs), y: div_i32(self.y, rhs) }
    }
}

impl vstd::std_specs::ops::DivSpecImpl<i32> for IVec2 {
    open spec fn obeys_div_spec() -> bool {
        true
    }

    open spec fn div_req(self, rhs: i32) -> bool {
        divisible_i32(self.x as int, rhs as int) && divisible_i32(self.y as int, rhs as int)
    }

    open spec fn div_spec(self, rhs: i32) -> IVec2 {
        IVec2 { x: div_toward_zero(self.x as int, rhs as int) as i32, y: div_toward_zero(self.y as int, rhs as int) as i32 }
    }
}

impl core::ops::Div<&i32> for IVec2 {
    type Output = IVec2;

    fn div(self, rhs: &i32) -> (r: IVec2) {
        <IVec2 as core::ops::Div<i32>>::div(self, *rhs)
    }
}

impl vstd::std_specs::ops::DivSpecImpl<&i32> for IVec2 {
    open spec fn obeys_div_spec() -> bool {
        true
    }

    open spec fn div_req(self, rhs: &i32) -> bool {
        divisible_i32(self.x as int, *rhs as int) && divisible_i32(self.y as int, *rhs as int)
    }

    open spec fn div_spec(self, rhs: &i32) -> IVec2 {
        IVec2 { x: div_toward_zero(self.x as int, *rhs as int) as i32, y: div_toward_zero(self.y as int, *rhs as int) as i32 }
    }
}

impl core::ops::Div<i32> for &IVec2 {
    type Output = IVec2;

    fn div(self, rhs: i32) -> (r: IVec2) {
        <IVec2 as core::ops::Div<i32>>::div(*self, rhs)
    }
}

impl vstd::std_specs::ops::DivSpecImpl<i32> for &IVec2 {
    open spec fn obeys_div_spec() -> bool {
        true
    }

    open spec fn div_req(self, rhs: i32) -> bool {
        divisible_i32(self.x as int, rhs as int) && divisible_i32(self.y as int, rhs as int)
    }

    open spec fn div_spec(self, rhs: i32) -> IVec2 {
        IVec2 { x: div_toward_zero(self.x as int, rhs as int) as i32, y: div_toward_zero(self.y as int, rhs as int) as i32 }
    }
}

impl core::ops::Div<&i32> for &IVec2 {
    type Output = IVec2;

    fn div(self, rhs: &i32) -> (r: IVec2) {
        <IVec2 as core::ops::Div<i32>>::div(*self, *rhs)
    }
}

impl vstd::std_specs::ops::DivSpecImpl<&i32> for &IVec2 {
    open spec fn obeys_div_spec() -> bool {
        true
    }

    open spec fn div_req(self, rhs: &i32) -> bool {
        divisible_i32(self.x as int, *rhs as int) && divisible_i32(self.y as int, *rhs as int)
    }

    open spec fn div_spec(self, rhs: &i32) -> IVec2 {
        IVec2 { x: div_toward_zero(self.x as int, *rhs as int) as i32, y: div_toward_zero(self.y as int, *rhs as int) as i32 }
    }
}

impl core::ops::Div<IVec2> for i32 {
    type Output = IVec2;

    fn div(self, rhs: IVec2) -> (r: IVec2) {
        IVec2 { x: div_i32(self, rhs.x), y: div_i32(self, rhs.y) }
    }
}

impl vstd::std_specs::ops::DivSpecImpl<IVec2> for i32 {
    open spec fn obeys_div_spec() -> bool {
        true
    }

    open spec fn div_req(self, rhs: IVec2) -> bool {
        divisible_i32(self as int, rhs.x as int) && divisible_i32(self as int, rhs.y as int)
    }

    open spec fn div_spec(self, rhs: IVec2) -> IVec2 {
        IVec2 { x: div_toward_zero(self as int, rhs.x as int) as i32, y: div_toward_zero(self as int, rhs.y as int) as i32 }
    }
}

impl core::ops::Div<&IVec2> for i32 {
    type Output = IVec2;

    fn div(self, rhs: &IVec2) -> (r: IVec2) {
        <i32 as core::ops::Div<IVec2>>::div(self, *rhs)
    }
}

impl vstd::std_specs::ops::DivSpecImpl<&IVec2> for i32 {
    open spec fn obeys_div_spec() -> bool {
        true
    }

    open spec fn div_req(self, rhs: &IVec2) -> bool {
        divisible_i32(self as int, rhs.x as int) && divisible_i32(self as int, rhs.y as int)
    }

    open spec fn div_spec(self, rhs: &IVec2) -> IVec2 {
        IVec2 { x: div_toward_zero(self as int, rhs.x as int) as i32, y: div_toward_zero(self as int, rhs.y as int) as i32 }
    }
}

impl core::ops::Div<IVec2> for &i32 {
    type Output = IVec2;

    fn div(self, rhs: IVec2) -> (r: IVec2) {
        <i32 as core::ops::Div<IVec2>>::div(*self, rhs)
    }
}

impl vstd::std_specs::ops::DivSpecImpl<IVec2> for &i32 {
    open spec fn obeys_div_spec() -> bool {
        true
    }

    open spec fn div_req(self, rhs: IVec2) -> bool {
        divisible_i32(*self as int, rhs.x as int) && divisible_i32(*self as int, rhs.y as int)
    }

    open spec fn div_spec(self, rhs: IVec2) -> IVec2 {
        IVec2 { x: div_toward_zero(*self as int, rhs.x as int) as i32, y: div_toward_zero(*self as int, rhs.y as int) as i32 }
    }
}

impl core::ops::Div<&IVec2> for &i32 {
    type Output = IVec2;

    fn div(self, rhs: &IVec2) -> (r: IVec2) {
        <i32 as core::ops::Div<IVec2>>::div(*self, *rhs)
    }
}

impl vstd::std_specs::ops::DivSpecImpl<&IVec2> for &i32 {
    open spec fn obeys_div_spec() -> bool {
        true
    }

    open spec fn div_req(self, rhs: &IVec2) -> bool {
        divisible_i32(*self as int, rhs.x as int) && divisible_i32(*self as int, rhs.y as int)
    }

    open spec fn div_spec(self, rhs: &IVec2) -> IVec2 {
        IVec2 { x: div_toward_zero(*self as int, rhs.x as int) as i32, y: div_toward_zero(*self as int, rhs.y as int) as i32 }
    }
}

// ---- Rem ----
impl core::ops::Rem<IVec2> for IVec2 {
    type Output = IVec2;

    fn rem(self, rhs: IVec2) -> (r: IVec2) {
        IVec2 { x: rem_i32(self.x, rhs.x), y: rem_i32(self.y, rhs.y) }
    }
}

impl vstd::std_specs::ops::RemSpecImpl<IVec2> for IVec2 {
    open spec fn obeys_rem_spec() -> bool {
        true
    }

    open spec fn rem_req(self, rhs: IVec2) -> bool {
        divisible_i32(self.x as int, rhs.x as int) && divisible_i32(self.y as int, rhs.y as int)
    }

    open spec fn rem_spec(self, rhs: IVec2) -> IVec2 {
        IVec2 { x: rem_toward_zero(self.x as int, rhs.x as int) as i32, y: rem_toward_zero(self.y as int, rhs.y as int) as i32 }
    }
}

impl core::ops::Rem<&IVec2> for IVec2 {
    type Output = IVec2;

    fn rem(self, rhs: &IVec2) -> (r: IVec2) {
        <IVec2 as core::ops::Rem<IVec2>>::rem(self, *rhs)
    }
}

impl vstd::std_specs::ops::RemSpecImpl<&IVec2> for IVec2 {
    open spec fn obeys_rem_spec() -> bool {
        true
    }

    open spec fn rem_req(self, rhs: &IVec2) -> bool {
        divisible_i32(self.x as int, rhs.x as int) && divisible_i32(self.y as int, rhs.y as int)
    }

    open spec fn rem_spec(self, rhs: &IVec2) -> IVec2 {
        IVec2 { x: rem_toward_zero(self.x as int, rhs.x as int) as i32, y: rem_toward_zero(self.y as int, rhs.y as int) as i32 }
    }
}

impl core::ops::Rem<IVec2> for &IVec2 {
    type Output = IVec2;

    fn rem(self, rhs: IVec2) -> (r: IVec2) {
        <IVec2 as core::ops::Rem<IVec2>>::rem(*self, rhs)
    }
}

impl vstd::std_specs::ops::RemSpecImpl<IVec2> for &IVec2 {
    open spec fn obeys_rem_spec() -> bool {
        true
    }

    open spec fn rem_req(self, rhs: IVec2) -> bool {
        divisible_i32(self.x as int, rhs.x as int) && divisible_i32(self.y as int, rhs.y as int)
    }

    open spec fn rem_spec(self, rhs: IVec2) -> IVec2 {
        IVec2 { x: rem_toward_zero(self.x as int, rhs.x as int) as i32, y: rem_toward_zero(self.y as int, rhs.y as int) as i32 }
    }
}

impl core::ops::Rem<&IVec2> for &IVec2 {
    type Output = IVec2;

    fn rem(self, rhs: &IVec2) -> (r: IVec2) {
        <IVec2 as core::ops::Rem<IVec2>>::rem(*self, *rhs)
    }
}

impl vstd::std_specs::ops::RemSpecImpl<&IVec2> for &IVec2 {
    open spec fn obeys_rem_spec() -> bool {
        true
    }

    open spec fn rem_req(self, rhs: &IVec2) -> bool {
        divisible_i32(self.x as int, rhs.x as int) && divisible_i32(self.y as int, rhs.y as int)
    }

    open spec fn rem_spec(self, rhs: &IVec2) -> IVec2 {
        IVec2 { x: rem_toward_zero(self.x as int, rhs.x as int) as i32, y: rem_toward_zero(self.y as int, rhs.y as int) as i32 }
    }
}

impl core::ops::Rem<i32> for IVec2 {
    type Output = IVec2;

    fn rem(self, rhs: i32) -> (r: IVec2) {
        IVec2 { x: rem_i32(self.x, rhs), y: rem_i32(self.y, rhs) }
    }
}

impl vstd::std_specs::ops::RemSpecImpl<i32> for IVec2 {
    open spec fn obeys_rem_spec() -> bool {
        true
    }

    open spec fn rem_req(self, rhs: i32) -> bool {
        divisible_i32(self.x as int, rhs as int) && divisible_i32(self.y as int, rhs as int)
    }

    open spec fn rem_spec(self, rhs: i32) -> IVec2 {
        IVec2 { x: rem_toward_zero(self.x as int, rhs as int) as i32, y: rem_toward_zero(self.y as int, rhs as int) as i32 }
    }
}

impl core::ops::Rem<&i32> for IVec2 {
    type Output = IVec2;

    fn rem(self, rhs: &i32) -> (r: IVec2) {
        <IVec2 as core::ops::Rem<i32>>::rem(self, *rhs)
    }
}

impl vstd::std_specs::ops::RemSpecImpl<&i32> for IVec2 {
    open spec fn obeys_rem_spec() -> bool {
        true
    }

    open spec fn rem_req(self, rhs: &i32) -> bool {
        divisible_i32(self.x as int, *rhs as int) && divisible_i32(self.y as int, *rhs as int)
    }

    open spec fn rem_spec(self, rhs: &i32) -> IVec2 {
        IVec2 { x: rem_toward_zero(self.x as int, *rhs as int) as i32, y: rem_toward_zero(self.y as int, *rhs as int) as i32 }
    }
}

impl core::ops::Rem<i32> for &IVec2 {
    type Output = IVec2;

    fn rem(self, rhs: i32) -> (r: IVec2) {
        <IVec2 as core::ops::Rem<i32>>::rem(*self, rhs)
    }
}

impl vstd::std_specs::ops::RemSpecImpl<i32> for &IVec2 {
    open spec fn obeys_rem_spec() -> bool {
        true
    }

    open spec fn rem_req(self, rhs: i32) -> bool {
        divisible_i32(self.x as int, rhs as int) && divisible_i32(self.y as int, rhs as int)
    }

    open spec fn rem_spec(self, rhs: i32) -> IVec2 {
        IVec2 { x: rem_toward_zero(self.x as int, rhs as int) as i32, y: rem_toward_zero(self.y as int, rhs as int) as i32 }
    }
}

impl core::ops::Rem<&i32> for &IVec2 {
    type Output = IVec2;

    fn rem(self, rhs: &i32) -> (r: IVec2) {
        <IVec2 as core::ops::Rem<i32>>::rem(*self, *rhs)
    }
}

impl vstd::std_specs::ops::RemSpecImpl<&i32> for &IVec2 {
    open spec fn obeys_rem_spec() -> bool {
        true
    }

    open spec fn rem_req(self, rhs: &i32) -> bool {
        divisible_i32(self.x as int, *rhs as int) && divisible_i32(self.y as int, *rhs as int)
    }

    open spec fn rem_spec(self, rhs: &i32) -> IVec2 {
        IVec2 { x: rem_toward_zero(self.x as int, *rhs as int) as i32, y: rem_toward_zero(self.y as int, *rhs as int) as i32 }
    }
}

impl core::ops::Rem<IVec2> for i32 {
    type Output = IVec2;

    fn rem(self, rhs: IVec2) -> (r: IVec2) {
        IVec2 { x: rem_i32(self, rhs.x), y: rem_i32(self, rhs.y) }
    }
}

impl vstd::std_specs::ops::RemSpecImpl<IVec2> for i32 {
    open spec fn obeys_rem_spec() -> bool {
        true
    }

    open spec fn rem_req(self, rhs: IVec2) -> bool {
        divisible_i32(self as int, rhs.x as int) && divisible_i32(self as int, rhs.y as int)
    }

    open spec fn rem_spec(self, rhs: IVec2) -> IVec2 {
        IVec2 { x: rem_toward_zero(self as int, rhs.x as int) as i32, y: rem_toward_zero(self as int, rhs.y as int) as i32 }
    }
}

impl core::ops::Rem<&IVec2> for i32 {
    type Output = IVec2;

    fn rem(self, rhs: &IVec2) -> (r: IVec2) {
        <i32 as core::ops::Rem<IVec2>>::rem(self, *rhs)
    }
}

impl vstd::std_specs::ops::RemSpecImpl<&IVec2> for i32 {
    open spec fn obeys_rem_spec() -> bool {
        true
    }

    open spec fn rem_req(self, rhs: &IVec2) -> bool {
        divisible_i32(self as int, rhs.x as int) && divisible_i32(self as int, rhs.y as int)
    }

    open spec fn rem_spec(self, rhs: &IVec2) -> IVec2 {
        IVec2 { x: rem_toward_zero(self as int, rhs.x as int) as i32, y: rem_toward_zero(self as int, rhs.y as int) as i32 }
    }
}

impl core::ops::Rem<IVec2> for &i32 {
    type Output = IVec2;

    fn rem(self, rhs: IVec2) -> (r: IVec2) {
        <i32 as core::ops::Rem<IVec2>>::rem(*self, rhs)
    }
}

impl vstd::std_specs::ops::RemSpecImpl<IVec2> for &i32 {
    open spec fn obeys_rem_spec() -> bool {
        true
    }

    open spec fn rem_req(self, rhs: IVec2) -> bool {
        divisible_i32(*self as int, rhs.x as int) && divisible_i32(*self as int, rhs.y as int)
    }

    open spec fn rem_spec(self, rhs: IVec2) -> IVec2 {
        IVec2 { x: rem_toward_zero(*self as int, rhs.x as int) as i32, y: rem_toward_zero(*self as int, rhs.y as int) as i32 }
    }
}

impl core::ops::Rem<&IVec2> for &i32 {
    type Output = IVec2;

    fn rem(self, rhs: &IVec2) -> (r: IVec2) {
        <i32 as core::ops::Rem<IVec2>>::rem(*self, *rhs)
    }
}

impl vstd::std_specs::ops::RemSpecImpl<&IVec2> for &i32 {
    open spec fn obeys_rem_spec() -> bool {
        true
    }

    open spec fn rem_req(self, rhs: &IVec2) -> bool {
        divisible_i32(*self as int, rhs.x as int) && divisible_i32(*self as int, rhs.y as int)
    }

    open spec fn rem_spec(self, rhs: &IVec2) -> IVec2 {
        IVec2 { x: rem_toward_zero(*self as int, rhs.x as int) as i32, y: rem_toward_zero(*self as int, rhs.y as int) as i32 }
    }
}


impl IVec2 {
    /// In-place `add` of the coordinates of `rhs`, coordinate by coordinate.
    pub fn add_assign(&mut self, rhs: IVec2)
        requires
            fits_i32(old(self).x + rhs.x),
            fits_i32(old(self).y + rhs.y),
        ensures
            final(self).x == (old(self).x + rhs.x) as i32,
            final(self).y == (old(self).y + rhs.y) as i32,
    {
        *self = <IVec2 as core::ops::Add<IVec2>>::add(*self, rhs);
    }

    /// In-place `add` of `rhs`, coordinate by coordinate.
    pub fn add_assign_scalar(&mut self, rhs: i32)
        requires
            fits_i32(old(self).x + rhs),
            fits_i32(old(self).y + rhs),
        ensures
            final(self).x == (old(self).x + rhs) as i32,
            final(self).y == (old(self).y + rhs) as i32,
    {
        *self = <IVec2 as core::ops::Add<i32>>::add(*self, rhs);
    }

    /// In-place `sub` of the coordinates of `rhs`, coordinate by coordinate.
    pub fn sub_assign(&mut self, rhs: IVec2)
        requires
            fits_i32(old(self).x - rhs.x),
            fits_i32(old(self).y - rhs.y),
        ensures
            final(self).x == (old(self).x - rhs.x) as i32,
            final(self).y == (old(self).y - rhs.y) as i32,
    {
        *self = <IVec2 as core::ops::Sub<IVec2>>::sub(*self, rhs);
    }

    /// In-place `sub` of `rhs`, coordinate by coordinate.
    pub fn sub_assign_scalar(&mut self, rhs: i32)
        requires
            fits_i32(old(self).x - rhs),
            fits_i32(old(self).y - rhs),
        ensures
            final(self).x == (old(self).x - rhs) as i32,
            final(self).y == (old(self).y - rhs) as i32,
    {
        *self = <IVec2 as core::ops::Sub<i32>>::sub(*self, rhs);
    }

    /// In-place `mul` of the coordinates of `rhs`, coordinate by coordinate.
    pub fn mul_assign(&mut self, rhs: IVec2)
        requires
            fits_i32(old(self).x * rhs.x),
            fits_i32(old(self).y * rhs.y),
        ensures
            final(self).x == (old(self).x * rhs.x) as i32,
            final(self).y == (old(self).y * rhs.y) as i32,
    {
        *self = <IVec2 as core::ops::Mul<IVec2>>::mul(*self, rhs);
    }

    /// In-place `mul` of `rhs`, coordinate by coordinate.
    pub fn mul_assign_scalar(&mut self, rhs: i32)
        requires
            fits_i32(old(self).x * rhs),
            fits_i32(old(self).y * rhs),
        ensures
            final(self).x == (old(self).x * rhs) as i32,
            final(self).y == (old(self).y * rhs) as i32,
    {
        *self = <IVec2 as core::ops::Mul<i32>>::mul(*self, rhs);
    }

    /// In-place `div` of the coordinates of `rhs`, coordinate by coordinate.
    pub fn div_assign(&mut self, rhs: IVec2)
        requires
            divisible_i32(old(self).x as int, rhs.x as int),
            divisible_i32(old(self).y as int, rhs.y as int),
        ensures
            final(self).x == div_toward_zero(old(self).x as int, rhs.x as int) as i32,
            final(self).y == div_toward_zero(old(self).y as int, rhs.y as int) as i32,
    {
        *self = <IVec2 as core::ops::Div<IVec2>>::div(*self, rhs);
    }

    /// In-place `div` of `rhs`, coordinate by coordinate.
    pub fn div_assign_scalar(&mut self, rhs: i32)
        requires
            divisible_i32(old(self).x as int, rhs as int),
            divisible_i32(old(self).y as int, rhs as int),
        ensures
            final(self).x == div_toward_zero(old(self).x as int, rhs as int) as i32,
            final(self).y == div_toward_zero(old(self).y as int, rhs as int) as i32,
    {
        *self = <IVec2 as core::ops::Div<i32>>::div(*self, rhs);
    }

    /// In-place `rem` of the coordinates of `rhs`, coordinate by coordinate.
    pub fn rem_assign(&mut self, rhs: IVec2)
        requires
            divisible_i32(old(self).x as int, rhs.x as int),
            divisible_i32(old(self).y as int, rhs.y as int),
        ensures
            final(self).x == rem_toward_zero(old(self).x as int, rhs.x as int) as i32,
            final(self).y == rem_toward_zero(old(self).y as int, rhs.y as int) as i32,
    {
        *self = <IVec2 as core::ops::Rem<IVec2>>::rem(*self, rhs);
    }

    /// In-place `rem` of `rhs`, coordinate by coordinate.
    pub fn rem_assign_scalar(&mut self, rhs: i32)
        requires
            divisible_i32(old(self).x as int, rhs as int),
            divisible_i32(old(self).y as int, rhs as int),
        ensures
            final(self).x == rem_toward_zero(old(self).x as int, rhs as int) as i32,
            final(self).y == rem_toward_zero(old(self).y as int, rhs as int) as i32,
    {
        *self = <IVec2 as core::ops::Rem<i32>>::rem(*self, rhs);
    }

}

impl core::default::Default for IVec2 {
    /// `(0, 0)`.
    fn default() -> (r: IVec2)
        ensures
            r == ivec(0, 0),
    {
        IVec2::zero()
    }
}

impl core::convert::From<[i32; 2]> for IVec2 {
    fn from(a: [i32; 2]) -> (r: IVec2) {
        IVec2::new(a[0], a[1])
    }
}

impl vstd::std_specs::convert::FromSpecImpl<[i32; 2]> for IVec2 {
    open spec fn obeys_from_spec() -> bool {
        true
    }

    open spec fn from_spec(a: [i32; 2]) -> IVec2 {
        IVec2 { x: a@[0], y: a@[1] }
    }
}

impl core::convert::From<IVec2> for [i32; 2] {
    fn from(v: IVec2) -> (r: [i32; 2]) {
        v.to_array()
    }
}

impl vstd::std_specs::convert::FromSpecImpl<IVec2> for [i32; 2] {
    open spec fn obeys_from_spec() -> bool {
        true
    }

    open spec fn from_spec(v: IVec2) -> [i32; 2] {
        [v.x, v.y]
    }
}

impl core::convert::From<(i32, i32)> for IVec2 {
    fn from(t: (i32, i32)) -> (r: IVec2) {
        IVec2::new(t.0, t.1)
    }
}

impl vstd::std_specs::convert::FromSpecImpl<(i32, i32)> for IVec2 {
    open spec fn obeys_from_spec() -> bool {
        true
    }

    open spec fn from_spec(t: (i32, i32)) -> IVec2 {
        IVec2 { x: t.0, y: t.1 }
    }
}

impl core::convert::From<IVec2> for (i32, i32) {
    fn from(v: IVec2) -> (r: (i32, i32)) {
        v.to_tuple()
    }
}

impl vstd::std_specs::convert::FromSpecImpl<IVec2> for (i32, i32) {
    open spec fn obeys_from_spec() -> bool {
        true
    }

    open spec fn from_spec(v: IVec2) -> (i32, i32) {
        (v.x, v.y)
    }
}

/// Rust's integer division and remainder: `a == b * (a / b) + a % b`, the
/// remainder smaller than the divisor and never of the opposite sign to `a`.
pub proof fn lemma_div_rem(a: int, b: int)
    requires
        b != 0,
    ensures
        a == b * div_toward_zero(a, b) + rem_toward_zero(a, b),
        int_abs(rem_toward_zero(a, b)) < int_abs(b),
        a >= 0 ==> rem_toward_zero(a, b) >= 0,
        a < 0 ==> rem_toward_zero(a, b) <= 0,
{
    let ua = int_abs(a);
    let ub = int_abs(b);
    let q = ua / ub;
    let m = ua % ub;
    assert(ua == ub * q + m && 0 <= m < ub) by (nonlinear_arith)
        requires
            ub > 0,
            q == ua / ub,
            m == ua % ub,
    ;
    if a >= 0 && b > 0 {
    } else if a >= 0 && b < 0 {
        assert(b * (-q) == ub * q) by (nonlinear_arith)
            requires
                ub == -b,
        ;
    } else if a < 0 && b > 0 {
        assert(b * (-q) == -(ub * q)) by (nonlinear_arith)
            requires
                ub == b,
        ;
    } else {
        assert(b * q == -(ub * q)) by (nonlinear_arith)
            requires
                ub == -b,
        ;
    }
}

/// Subtracting what was added gives back the vector.
pub proof fn lemma_sub_undoes_add(a: IVec2, b: IVec2)
    requires
        fits_i32(a.x + b.x),
        fits_i32(a.y + b.y),
    ensures
        ivec((a.x + b.x) - b.x, (a.y + b.y) - b.y) == a,
{
}

/// The dot product is symmetric, and a vector is orthogonal to its quarter
/// turn.
pub proof fn lemma_dot_laws(a: IVec2, b: IVec2)
    ensures
        spec_dot(a, b) == spec_dot(b, a),
        spec_dot(a, ivec(-a.y, a.x as int)) == 0 || a.y == i32::MIN,
{
    assert(a.x * b.x == b.x * a.x) by (nonlinear_arith);
    assert(a.y * b.y == b.y * a.y) by (nonlinear_arith);
    if a.y != i32::MIN {
        assert(a.x * (-a.y) + a.y * a.x == 0) by (nonlinear_arith);
    }
}

/// Every form of `+` on vectors (vector or scalar on either side, each
/// by value or by reference) is the coordinate-wise sum, defined exactly
/// when both coordinates fit in an `i32`; a reference gives what its value
/// gives.
pub proof fn lemma_add_coordinatewise(a: IVec2, b: IVec2, s: i32)
    ensures
        <IVec2 as vstd::std_specs::ops::AddSpec<IVec2>>::obeys_add_spec(),
        <IVec2 as vstd::std_specs::ops::AddSpec<IVec2>>::add_req(a, b) <==> fits_i32(a.x + b.x) && fits_i32(a.y + b.y),
        <IVec2 as vstd::std_specs::ops::AddSpec<IVec2>>::add_req(a, b) ==> <IVec2 as vstd::std_specs::ops::AddSpec<IVec2>>::add_spec(a, b).x == a.x + b.x && <IVec2 as vstd::std_specs::ops::AddSpec<IVec2>>::add_spec(a, b).y == a.y + b.y,
        <IVec2 as vstd::std_specs::ops::AddSpec<&IVec2>>::obeys_add_spec(),
        <IVec2 as vstd::std_specs::ops::AddSpec<&IVec2>>::add_req(a, &b) <==> fits_i32(a.x + b.x) && fits_i32(a.y + b.y),
        <IVec2 as vstd::std_specs::ops::AddSpec<&IVec2>>::add_req(a, &b) ==> <IVec2 as vstd::std_specs::ops::AddSpec<&IVec2>>::add_spec(a, &b).x == a.x + b.x && <IVec2 as vstd::std_specs::ops::AddSpec<&IVec2>>::add_spec(a, &b).y == a.y + b.y,
        <&IVec2 as vstd::std_specs::ops::AddSpec<IVec2>>::obeys_add_spec(),
        <&IVec2 as vstd::std_specs::ops::AddSpec<IVec2>>::add_req(&a, b) <==> fits_i32(a.x + b.x) && fits_i32(a.y + b.y),
        <&IVec2 as vstd::std_specs::ops::AddSpec<IVec2>>::add_req(&a, b) ==> <&IVec2 as vstd::std_specs::ops::AddSpec<IVec2>>::add_spec(&a, b).x == a.x + b.x && <&IVec2 as vstd::std_specs::ops::AddSpec<IVec2>>::add_spec(&a, b).y == a.y + b.y,
        <&IVec2 as vstd::std_specs::ops::AddSpec<&IVec2>>::obeys_add_spec(),
        <&IVec2 as vstd::std_specs::ops::AddSpec<&IVec2>>::add_req(&a, &b) <==> fits_i32(a.x + b.x) && fits_i32(a.y + b.y),
        <&IVec2 as vstd::std_specs::ops::AddSpec<&IVec2>>::add_req(&a, &b) ==> <&IVec2 as vstd::std_specs::ops::AddSpec<&IVec2>>::add_spec(&a, &b).x == a.x + b.x && <&IVec2 as vstd::std_specs::ops::AddSpec<&IVec2>>::add_spec(&a, &b).y == a.y + b.y,
        <IVec2 as vstd::std_specs::ops::AddSpec<i32>>::obeys_add_spec(),
        <IVec2 as vstd::std_specs::ops::AddSpec<i32>>::add_req(a, s) <==> fits_i32(a.x + s) && fits_i32(a.y + s),
        <IVec2 as vstd::std_specs::ops::AddSpec<i32>>::add_req(a, s) ==> <IVec2 as vstd::std_specs::ops::AddSpec<i32>>::add_spec(a, s).x == a.x + s && <IVec2 as vstd::std_specs::ops::AddSpec<i32>>::add_spec(a, s).y == a.y + s,
        <IVec2 as vstd::std_specs::ops::AddSpec<&i32>>::obeys_add_spec(),
        <IVec2 as vstd::std_specs::ops::AddSpec<&i32>>::add_req(a, &s) <==> fits_i32(a.x + s) && fits_i32(a.y + s),
        <IVec2 as vstd::std_specs::ops::AddSpec<&i32>>::add_req(a, &s) ==> <IVec2 as vstd::std_specs::ops::AddSpec<&i32>>::add_spec(a, &s).x == a.x + s && <IVec2 as vstd::std_specs::ops::AddSpec<&i32>>::add_spec(a, &s).y == a.y + s,
        <&IVec2 as vstd::std_specs::ops::AddSpec<i32>>::obeys_add_spec(),
        <&IVec2 as vstd::std_specs::ops::AddSpec<i32>>::add_req(&a, s) <==> fits_i32(a.x + s) && fits_i32(a.y + s),
        <&IVec2 as vstd::std_specs::ops::AddSpec<i32>>::add_req(&a, s) ==> <&IVec2 as vstd::std_specs::ops::AddSpec<i32>>::add_spec(&a, s).x == a.x + s && <&IVec2 as vstd::std_specs::ops::AddSpec<i32>>::add_spec(&a, s).y == a.y + s,
        <&IVec2 as vstd::std_specs::ops::AddSpec<&i32>>::obeys_add_spec(),
        <&IVec2 as vstd::std_specs::ops::AddSpec<&i32>>::add_req(&a, &s) <==> fits_i32(a.x + s) && fits_i32(a.y + s),
        <&IVec2 as vstd::std_specs::ops::AddSpec<&i32>>::add_req(&a, &s) ==> <&IVec2 as vstd::std_specs::ops::AddSpec<&i32>>::add_spec(&a, &s).x == a.x + s && <&IVec2 as vstd::std_specs::ops::AddSpec<&i32>>::add_spec(&a, &s).y == a.y + s,
        <i32 as vstd::std_specs::ops::AddSpec<IVec2>>::obeys_add_spec(),
        <i32 as vstd::std_specs::ops::AddSpec<IVec2>>::add_req(s, b) <==> fits_i32(s + b.x) && fits_i32(s + b.y),
        <i32 as vstd::std_specs::ops::AddSpec<IVec2>>::add_req(s, b) ==> <i32 as vstd::std_specs::ops::AddSpec<IVec2>>::add_spec(s, b).x == s + b.x && <i32 as vstd::std_specs::ops::AddSpec<IVec2>>::add_spec(s, b).y == s + b.y,
        <i32 as vstd::std_specs::ops::AddSpec<&IVec2>>::obeys_add_spec(),
        <i32 as vstd::std_specs::ops::AddSpec<&IVec2>>::add_req(s, &b) <==> fits_i32(s + b.x) && fits_i32(s + b.y),
        <i32 as vstd::std_specs::ops::AddSpec<&IVec2>>::add_req(s, &b) ==> <i32 as vstd::std_specs::ops::AddSpec<&IVec2>>::add_spec(s, &b).x == s + b.x && <i32 as vstd::std_specs::ops::AddSpec<&IVec2>>::add_spec(s, &b).y == s + b.y,
        <&i32 as vstd::std_specs::ops::AddSpec<IVec2>>::obeys_add_spec(),
        <&i32 as vstd::std_specs::ops::AddSpec<IVec2>>::add_req(&s, b) <==> fits_i32(s + b.x) && fits_i32(s + b.y),
        <&i32 as vstd::std_specs::ops::AddSpec<IVec2>>::add_req(&s, b) ==> <&i32 as vstd::std_specs::ops::AddSpec<IVec2>>::add_spec(&s, b).x == s + b.x && <&i32 as vstd::std_specs::ops::AddSpec<IVec2>>::add_spec(&s, b).y == s + b.y,
        <&i32 as vstd::std_specs::ops::AddSpec<&IVec2>>::obeys_add_spec(),
        <&i32 as vstd::std_specs::ops::AddSpec<&IVec2>>::add_req(&s, &b) <==> fits_i32(s + b.x) && fits_i32(s + b.y),
        <&i32 as vstd::std_specs::ops::AddSpec<&IVec2>>::add_req(&s, &b) ==> <&i32 as vstd::std_specs::ops::AddSpec<&IVec2>>::add_spec(&s, &b).x == s + b.x && <&i32 as vstd::std_specs::ops::AddSpec<&IVec2>>::add_spec(&s, &b).y == s + b.y,
{
}

/// Every form of `-` on vectors (vector or scalar on either side, each
/// by value or by reference) is the coordinate-wise difference, defined exactly
/// when both coordinates fit in an `i32`; a reference gives what its value
/// gives.
pub proof fn lemma_sub_coordinatewise(a: IVec2, b: IVec2, s: i32)
    ensures
        <IVec2 as vstd::std_specs::ops::SubSpec<IVec2>>::obeys_sub_spec(),
        <IVec2 as vstd::std_specs::ops::SubSpec<IVec2>>::sub_req(a, b) <==> fits_i32(a.x - b.x) && fits_i32(a.y - b.y),
        <IVec2 as vstd::std_specs::ops::SubSpec<IVec2>>::sub_req(a, b) ==> <IVec2 as vstd::std_specs::ops::SubSpec<IVec2>>::sub_spec(a, b).x == a.x - b.x && <IVec2 as vstd::std_specs::ops::SubSpec<IVec2>>::sub_spec(a, b).y == a.y - b.y,
        <IVec2 as vstd::std_specs::ops::SubSpec<&IVec2>>::obeys_sub_spec(),
        <IVec2 as vstd::std_specs::ops::SubSpec<&IVec2>>::sub_req(a, &b) <==> fits_i32(a.x - b.x) && fits_i32(a.y - b.y),
        <IVec2 as vstd::std_specs::ops::SubSpec<&IVec2>>::sub_req(a, &b) ==> <IVec2 as vstd::std_specs::ops::SubSpec<&IVec2>>::sub_spec(a, &b).x == a.x - b.x && <IVec2 as vstd::std_specs::ops::SubSpec<&IVec2>>::sub_spec(a, &b).y == a.y - b.y,
        <&IVec2 as vstd::std_specs::ops::SubSpec<IVec2>>::obeys_sub_spec(),
        <&IVec2 as vstd::std_specs::ops::SubSpec<IVec2>>::sub_req(&a, b) <==> fits_i32(a.x - b.x) && fits_i32(a.y - b.y),
        <&IVec2 as vstd::std_specs::ops::SubSpec<IVec2>>::sub_req(&a, b) ==> <&IVec2 as vstd::std_specs::ops::SubSpec<IVec2>>::sub_spec(&a, b).x == a.x - b.x && <&IVec2 as vstd::std_specs::ops::SubSpec<IVec2>>::sub_spec(&a, b).y == a.y - b.y,
        <&IVec2 as vstd::std_specs::ops::SubSpec<&IVec2>>::obeys_sub_spec(),
        <&IVec2 as vstd::std_specs::ops::SubSpec<&IVec2>>::sub_req(&a, &b) <==> fits_i32(a.x - b.x) && fits_i32(a.y - b.y),
        <&IVec2 as vstd::std_specs::ops::SubSpec<&IVec2>>::sub_req(&a, &b) ==> <&IVec2 as vstd::std_specs::ops::SubSpec<&IVec2>>::sub_spec(&a, &b).x == a.x - b.x && <&IVec2 as vstd::std_specs::ops::SubSpec<&IVec2>>::sub_spec(&a, &b).y == a.y - b.y,
        <IVec2 as vstd::std_specs::ops::SubSpec<i32>>::obeys_sub_spec(),
        <IVec2 as vstd::std_specs::ops::SubSpec<i32>>::sub_req(a, s) <==> fits_i32(a.x - s) && fits_i32(a.y - s),
        <IVec2 as vstd::std_specs::ops::SubSpec<i32>>::sub_req(a, s) ==> <IVec2 as vstd::std_specs::ops::SubSpec<i32>>::sub_spec(a, s).x == a.x - s && <IVec2 as vstd::std_specs::ops::SubSpec<i32>>::sub_spec(a, s).y == a.y - s,
        <IVec2 as vstd::std_specs::ops::SubSpec<&i32>>::obeys_sub_spec(),
        <IVec2 as vstd::std_specs::ops::SubSpec<&i32>>::sub_req(a, &s) <==> fits_i32(a.x - s) && fits_i32(a.y - s),
        <IVec2 as vstd::std_specs::ops::SubSpec<&i32>>::sub_req(a, &s) ==> <IVec2 as vstd::std_specs::ops::SubSpec<&i32>>::sub_spec(a, &s).x == a.x - s && <IVec2 as vstd::std_specs::ops::SubSpec<&i32>>::sub_spec(a, &s).y == a.y - s,
        <&IVec2 as vstd::std_specs::ops::SubSpec<i32>>::obeys_sub_spec(),
        <&IVec2 as vstd::std_specs::ops::SubSpec<i32>>::sub_req(&a, s) <==> fits_i32(a.x - s) && fits_i32(a.y - s),
        <&IVec2 as vstd::std_specs::ops::SubSpec<i32>>::sub_req(&a, s) ==> <&IVec2 as vstd::std_specs::ops::SubSpec<i32>>::sub_spec(&a, s).x == a.x - s && <&IVec2 as vstd::std_specs::ops::SubSpec<i32>>::sub_spec(&a, s).y == a.y - s,
        <&IVec2 as vstd::std_specs::ops::SubSpec<&i32>>::obeys_sub_spec(),
        <&IVec2 as vstd::std_specs::ops::SubSpec<&i32>>::sub_req(&a, &s) <==> fits_i32(a.x - s) && fits_i32(a.y - s),
        <&IVec2 as vstd::std_specs::ops::SubSpec<&i32>>::sub_req(&a, &s) ==> <&IVec2 as vstd::std_specs::ops::SubSpec<&i32>>::sub_spec(&a, &s).x == a.x - s && <&IVec2 as vstd::std_specs::ops::SubSpec<&i32>>::sub_spec(&a, &s).y == a.y - s,
        <i32 as vstd::std_specs::ops::SubSpec<IVec2>>::obeys_sub_spec(),
        <i32 as vstd::std_specs::ops::SubSpec<IVec2>>::sub_req(s, b) <==> fits_i32(s - b.x) && fits_i32(s - b.y),
        <i32 as vstd::std_specs::ops::SubSpec<IVec2>>::sub_req(s, b) ==> <i32 as vstd::std_specs::ops::SubSpec<IVec2>>::sub_spec(s, b).x == s - b.x && <i32 as vstd::std_specs::ops::SubSpec<IVec2>>::sub_spec(s, b).y == s - b.y,
        <i32 as vstd::std_specs::ops::SubSpec<&IVec2>>::obeys_sub_spec(),
        <i32 as vstd::std_specs::ops::SubSpec<&IVec2>>::sub_req(s, &b) <==> fits_i32(s - b.x) && fits_i32(s - b.y),
        <i32 as vstd::std_specs::ops::SubSpec<&IVec2>>::sub_req(s, &b) ==> <i32 as vstd::std_specs::ops::SubSpec<&IVec2>>::sub_spec(s, &b).x == s - b.x && <i32 as vstd::std_specs::ops::SubSpec<&IVec2>>::sub_spec(s, &b).y == s - b.y,
        <&i32 as vstd::std_specs::ops::SubSpec<IVec2>>::obeys_sub_spec(),
        <&i32 as vstd::std_specs::ops::SubSpec<IVec2>>::sub_req(&s, b) <==> fits_i32(s - b.x) && fits_i32(s - b.y),
        <&i32 as vstd::std_specs::ops::SubSpec<IVec2>>::sub_req(&s, b) ==> <&i32 as vstd::std_specs::ops::SubSpec<IVec2>>::sub_spec(&s, b).x == s - b.x && <&i32 as vstd::std_specs::ops::SubSpec<IVec2>>::sub_spec(&s, b).y == s - b.y,
        <&i32 as vstd::std_specs::ops::SubSpec<&IVec2>>::obeys_sub_spec(),
        <&i32 as vstd::std_specs::ops::SubSpec<&IVec2>>::sub_req(&s, &b) <==> fits_i32(s - b.x) && fits_i32(s - b.y),
        <&i32 as vstd::std_specs::ops::SubSpec<&IVec2>>::sub_req(&s, &b) ==> <&i32 as vstd::std_specs::ops::SubSpec<&IVec2>>::sub_spec(&s, &b).x == s - b.x && <&i32 as vstd::std_specs::ops::SubSpec<&IVec2>>::sub_spec(&s, &b).y == s - b.y,
{
}

/// Every form of `*` on vectors (vector or scalar on either side, each
/// by value or by reference) is the coordinate-wise product, defined exactly
/// when both coordinates fit in an `i32`; a reference gives what its value
/// gives.
pub proof fn lemma_mul_coordinatewise(a: IVec2, b: IVec2, s: i32)
    ensures
        <IVec2 as vstd::std_specs::ops::MulSpec<IVec2>>::obeys_mul_spec(),
        <IVec2 as vstd::std_specs::ops::MulSpec<IVec2>>::mul_req(a, b) <==> fits_i32(a.x * b.x) && fits_i32(a.y * b.y),
        <IVec2 as vstd::std_specs::ops::MulSpec<IVec2>>::mul_req(a, b) ==> <IVec2 as vstd::std_specs::ops::MulSpec<IVec2>>::mul_spec(a, b).x == a.x * b.x && <IVec2 as vstd::std_specs::ops::MulSpec<IVec2>>::mul_spec(a, b).y == a.y * b.y,
        <IVec2 as vstd::std_specs::ops::MulSpec<&IVec2>>::obeys_mul_spec(),
        <IVec2 as vstd::std_specs::ops::MulSpec<&IVec2>>::mul_req(a, &b) <==> fits_i32(a.x * b.x) && fits_i32(a.y * b.y),
        <IVec2 as vstd::std_specs::ops::MulSpec<&IVec2>>::mul_req(a, &b) ==> <IVec2 as vstd::std_specs::ops::MulSpec<&IVec2>>::mul_spec(a, &b).x == a.x * b.x && <IVec2 as vstd::std_specs::ops::MulSpec<&IVec2>>::mul_spec(a, &b).y == a.y * b.y,
        <&IVec2 as vstd::std_specs::ops::MulSpec<IVec2>>::obeys_mul_spec(),
        <&IVec2 as vstd::std_specs::ops::MulSpec<IVec2>>::mul_req(&a, b) <==> fits_i32(a.x * b.x) && fits_i32(a.y * b.y),
        <&IVec2 as vstd::std_specs::ops::MulSpec<IVec2>>::mul_req(&a, b) ==> <&IVec2 as vstd::std_specs::ops::MulSpec<IVec2>>::mul_spec(&a, b).x == a.x * b.x && <&IVec2 as vstd::std_specs::ops::MulSpec<IVec2>>::mul_spec(&a, b).y == a.y * b.y,
        <&IVec2 as vstd::std_specs::ops::MulSpec<&IVec2>>::obeys_mul_spec(),
        <&IVec2 as vstd::std_specs::ops::MulSpec<&IVec2>>::mul_req(&a, &b) <==> fits_i32(a.x * b.x) && fits_i32(a.y * b.y),
        <&IVec2 as vstd::std_specs::ops::MulSpec<&IVec2>>::mul_req(&a, &b) ==> <&IVec2 as vstd::std_specs::ops::MulSpec<&IVec2>>::mul_spec(&a, &b).x == a.x * b.x && <&IVec2 as vstd::std_specs::ops::MulSpec<&IVec2>>::mul_spec(&a, &b).y == a.y * b.y,
        <IVec2 as vstd::std_specs::ops::MulSpec<i32>>::obeys_mul_spec(),
        <IVec2 as vstd::std_specs::ops::MulSpec<i32>>::mul_req(a, s) <==> fits_i32(a.x * s) && fits_i32(a.y * s),
        <IVec2 as vstd::std_specs::ops::MulSpec<i32>>::mul_req(a, s) ==> <IVec2 as vstd::std_specs::ops::MulSpec<i32>>::mul_spec(a, s).x == a.x * s && <IVec2 as vstd::std_specs::ops::MulSpec<i32>>::mul_spec(a, s).y == a.y * s,
        <IVec2 as vstd::std_specs::ops::MulSpec<&i32>>::obeys_mul_spec(),
        <IVec2 as vstd::std_specs::ops::MulSpec<&i32>>::mul_req(a, &s) <==> fits_i32(a.x * s) && fits_i32(a.y * s),
        <IVec2 as vstd::std_specs::ops::MulSpec<&i32>>::mul_req(a, &s) ==> <IVec2 as vstd::std_specs::ops::MulSpec<&i32>>::mul_spec(a, &s).x == a.x * s && <IVec2 as vstd::std_specs::ops::MulSpec<&i32>>::mul_spec(a, &s).y == a.y * s,
        <&IVec2 as vstd::std_specs::ops::MulSpec<i32>>::obeys_mul_spec(),
        <&IVec2 as vstd::std_specs::ops::MulSpec<i32>>::mul_req(&a, s) <==> fits_i32(a.x * s) && fits_i32(a.y * s),
        <&IVec2 as vstd::std_specs::ops::MulSpec<i32>>::mul_req(&a, s) ==> <&IVec2 as vstd::std_specs::ops::MulSpec<i32>>::mul_spec(&a, s).x == a.x * s && <&IVec2 as vstd::std_specs::ops::MulSpec<i32>>::mul_spec(&a, s).y == a.y * s,
        <&IVec2 as vstd::std_specs::ops::MulSpec<&i32>>::obeys_mul_spec(),
        <&IVec2 as vstd::std_specs::ops::MulSpec<&i32>>::mul_req(&a, &s) <==> fits_i32(a.x * s) && fits_i32(a.y * s),
        <&IVec2 as vstd::std_specs::ops::MulSpec<&i32>>::mul_req(&a, &s) ==> <&IVec2 as vstd::std_specs::ops::MulSpec<&i32>>::mul_spec(&a, &s).x == a.x * s && <&IVec2 as vstd::std_specs::ops::MulSpec<&i32>>::mul_spec(&a, &s).y == a.y * s,
        <i32 as vstd::std_specs::ops::MulSpec<IVec2>>::obeys_mul_spec(),
        <i32 as vstd::std_specs::ops::MulSpec<IVec2>>::mul_req(s, b) <==> fits_i32(s * b.x) && fits_i32(s * b.y),
        <i32 as vstd::std_specs::ops::MulSpec<IVec2>>::mul_req(s, b) ==> <i32 as vstd::std_specs::ops::MulSpec<IVec2>>::mul_spec(s, b).x == s * b.x && <i32 as vstd::std_specs::ops::MulSpec<IVec2>>::mul_spec(s, b).y == s * b.y,
        <i32 as vstd::std_specs::ops::MulSpec<&IVec2>>::obeys_mul_spec(),
        <i32 as vstd::std_specs::ops::MulSpec<&IVec2>>::mul_req(s, &b) <==> fits_i32(s * b.x) && fits_i32(s * b.y),
        <i32 as vstd::std_specs::ops::MulSpec<&IVec2>>::mul_req(s, &b) ==> <i32 as vstd::std_specs::ops::MulSpec<&IVec2>>::mul_spec(s, &b).x == s * b.x && <i32 as vstd::std_specs::ops::MulSpec<&IVec2>>::mul_spec(s, &b).y == s * b.y,
        <&i32 as vstd::std_specs::ops::MulSpec<IVec2>>::obeys_mul_spec(),
        <&i32 as vstd::std_specs::ops::MulSpec<IVec2>>::mul_req(&s, b) <==> fits_i32(s * b.x) && fits_i32(s * b.y),
        <&i32 as vstd::std_specs::ops::MulSpec<IVec2>>::mul_req(&s, b) ==> <&i32 as vstd::std_specs::ops::MulSpec<IVec2>>::mul_spec(&s, b).x == s * b.x && <&i32 as vstd::std_specs::ops::MulSpec<IVec2>>::mul_spec(&s, b).y == s * b.y,
        <&i32 as vstd::std_specs::ops::MulSpec<&IVec2>>::obeys_mul_spec(),
        <&i32 as vstd::std_specs::ops::MulSpec<&IVec2>>::mul_req(&s, &b) <==> fits_i32(s * b.x) && fits_i32(s * b.y),
        <&i32 as vstd::std_specs::ops::MulSpec<&IVec2>>::mul_req(&s, &b) ==> <&i32 as vstd::std_specs::ops::MulSpec<&IVec2>>::mul_spec(&s, &b).x == s * b.x && <&i32 as vstd::std_specs::ops::MulSpec<&IVec2>>::mul_spec(&s, &b).y == s * b.y,
{
}

/// Whether `q` and `r` are the quotient and remainder of `a` by `b` with
/// the quotient rounded toward zero: `a == b * q + r`, the remainder smaller
/// than the divisor and never of the opposite sign to `a`. These determine
/// `q` and `r`.
pub open spec fn truncated_division(a: int, b: int, q: int, r: int) -> bool {
    &&& a == b * q + r
    &&& int_abs(r) < int_abs(b)
    &&& (a >= 0 ==> r >= 0)
    &&& (a < 0 ==> r <= 0)
}

/// The quotient and remainder of two `i32`s fit in an `i32` whenever the
/// division itself is defined.
proof fn lemma_quotient_fits(a: int, b: int)
    requires
        fits_i32(a),
        fits_i32(b),
        divisible_i32(a, b),
    ensures
        fits_i32(div_toward_zero(a, b)),
        fits_i32(rem_toward_zero(a, b)),
{
    let ua = int_abs(a);
    let ub = int_abs(b);
    let q = ua / ub;
    let m = ua % ub;
    assert(0 <= q <= ua && (ub >= 2 ==> q <= ua / 2) && 0 <= m < ub && m <= ua) by (nonlinear_arith)
        requires
            ub >= 1,
            ua >= 0,
            q == ua / ub,
            m == ua % ub,
    ;
}

/// The quotient and remainder, as `i32`s, of one coordinate division.
proof fn lemma_truncated_i32(a: int, b: int)
    requires
        fits_i32(a),
        fits_i32(b),
        divisible_i32(a, b),
    ensures
        truncated_division(a, b, (div_toward_zero(a, b) as i32) as int, (rem_toward_zero(a, b) as i32) as int),
{
    lemma_quotient_fits(a, b);
    lemma_div_rem(a, b);
}

/// Every form of `/` and `%` on vectors (vector or scalar on either side,
/// each by value or by reference) divides coordinate by coordinate with the
/// quotient rounded toward zero, defined exactly when neither coordinate
/// divides by zero or overflows; a reference gives what its value gives.
pub proof fn lemma_div_rem_coordinatewise(a: IVec2, b: IVec2, s: i32)
    ensures
        <IVec2 as vstd::std_specs::ops::DivSpec<IVec2>>::obeys_div_spec() && <IVec2 as vstd::std_specs::ops::RemSpec<IVec2>>::obeys_rem_spec(),
        <IVec2 as vstd::std_specs::ops::DivSpec<IVec2>>::div_req(a, b) <==> divisible_i32(a.x as int, b.x as int) && divisible_i32(a.y as int, b.y as int),
        <IVec2 as vstd::std_specs::ops::RemSpec<IVec2>>::rem_req(a, b) <==> divisible_i32(a.x as int, b.x as int) && divisible_i32(a.y as int, b.y as int),
        <IVec2 as vstd::std_specs::ops::DivSpec<IVec2>>::div_req(a, b) ==> truncated_division(a.x as int, b.x as int, <IVec2 as vstd::std_specs::ops::DivSpec<IVec2>>::div_spec(a, b).x as int, <IVec2 as vstd::std_specs::ops::RemSpec<IVec2>>::rem_spec(a, b).x as int),
        <IVec2 as vstd::std_specs::ops::DivSpec<IVec2>>::div_req(a, b) ==> truncated_division(a.y as int, b.y as int, <IVec2 as vstd::std_specs::ops::DivSpec<IVec2>>::div_spec(a, b).y as int, <IVec2 as vstd::std_specs::ops::RemSpec<IVec2>>::rem_spec(a, b).y as int),
        <IVec2 as vstd::std_specs::ops::DivSpec<&IVec2>>::obeys_div_spec() && <IVec2 as vstd::std_specs::ops::RemSpec<&IVec2>>::obeys_rem_spec(),
        <IVec2 as vstd::std_specs::ops::DivSpec<&IVec2>>::div_req(a, &b) <==> divisible_i32(a.x as int, b.x as int) && divisible_i32(a.y as int, b.y as int),
        <IVec2 as vstd::std_specs::ops::RemSpec<&IVec2>>::rem_req(a, &b) <==> divisible_i32(a.x as int, b.x as int) && divisible_i32(a.y as int, b.y as int),
        <IVec2 as vstd::std_specs::ops::DivSpec<&IVec2>>::div_req(a, &b) ==> truncated_division(a.x as int, b.x as int, <IVec2 as vstd::std_specs::ops::DivSpec<&IVec2>>::div_spec(a, &b).x as int, <IVec2 as vstd::std_specs::ops::RemSpec<&IVec2>>::rem_spec(a, &b).x as int),
        <IVec2 as vstd::std_specs::ops::DivSpec<&IVec2>>::div_req(a, &b) ==> truncated_division(a.y as int, b.y as int, <IVec2 as vstd::std_specs::ops::DivSpec<&IVec2>>::div_spec(a, &b).y as int, <IVec2 as vstd::std_specs::ops::RemSpec<&IVec2>>::rem_spec(a, &b).y as int),
        <&IVec2 as vstd::std_specs::ops::DivSpec<IVec2>>::obeys_div_spec() && <&IVec2 as vstd::std_specs::ops::RemSpec<IVec2>>::obeys_rem_spec(),
        <&IVec2 as vstd::std_specs::ops::DivSpec<IVec2>>::div_req(&a, b) <==> divisible_i32(a.x as int, b.x as int) && divisible_i32(a.y as int, b.y as int),
        <&IVec2 as vstd::std_specs::ops::RemSpec<IVec2>>::rem_req(&a, b) <==> divisible_i32(a.x as int, b.x as int) && divisible_i32(a.y as int, b.y as int),
        <&IVec2 as vstd::std_specs::ops::DivSpec<IVec2>>::div_req(&a, b) ==> truncated_division(a.x as int, b.x as int, <&IVec2 as vstd::std_specs::ops::DivSpec<IVec2>>::div_spec(&a, b).x as int, <&IVec2 as vstd::std_specs::ops::RemSpec<IVec2>>::rem_spec(&a, b).x as int),
        <&IVec2 as vstd::std_specs::ops::DivSpec<IVec2>>::div_req(&a, b) ==> truncated_division(a.y as int, b.y as int, <&IVec2 as vstd::std_specs::ops::DivSpec<IVec2>>::div_spec(&a, b).y as int, <&IVec2 as vstd::std_specs::ops::RemSpec<IVec2>>::rem_spec(&a, b).y as int),
        <&IVec2 as vstd::std_specs::ops::DivSpec<&IVec2>>::obeys_div_spec() && <&IVec2 as vstd::std_specs::ops::RemSpec<&IVec2>>::obeys_rem_spec(),
        <&IVec2 as vstd::std_specs::ops::DivSpec<&IVec2>>::div_req(&a, &b) <==> divisible_i32(a.x as int, b.x as int) && divisible_i32(a.y as int, b.y as int),
        <&IVec2 as vstd::std_specs::ops::RemSpec<&IVec2>>::rem_req(&a, &b) <==> divisible_i32(a.x as int, b.x as int) && divisible_i32(a.y as int, b.y as int),
        <&IVec2 as vstd::std_specs::ops::DivSpec<&IVec2>>::div_req(&a, &b) ==> truncated_division(a.x as int, b.x as int, <&IVec2 as vstd::std_specs::ops::DivSpec<&IVec2>>::div_spec(&a, &b).x as int, <&IVec2 as vstd::std_specs::ops::RemSpec<&IVec2>>::rem_spec(&a, &b).x as int),
        <&IVec2 as vstd::std_specs::ops::DivSpec<&IVec2>>::div_req(&a, &b) ==> truncated_division(a.y as int, b.y as int, <&IVec2 as vstd::std_specs::ops::DivSpec<&IVec2>>::div_spec(&a, &b).y as int, <&IVec2 as vstd::std_specs::ops::RemSpec<&IVec2>>::rem_spec(&a, &b).y as int),
        <IVec2 as vstd::std_specs::ops::DivSpec<i32>>::obeys_div_spec() && <IVec2 as vstd::std_specs::ops::RemSpec<i32>>::obeys_rem_spec(),
        <IVec2 as vstd::std_specs::ops::DivSpec<i32>>::div_req(a, s) <==> divisible_i32(a.x as int, s as int) && divisible_i32(a.y as int, s as int),
        <IVec2 as vstd::std_specs::ops::RemSpec<i32>>::rem_req(a, s) <==> divisible_i32(a.x as int, s as int) && divisible_i32(a.y as int, s as int),
        <IVec2 as vstd::std_specs::ops::DivSpec<i32>>::div_req(a, s) ==> truncated_division(a.x as int, s as int, <IVec2 as vstd::std_specs::ops::DivSpec<i32>>::div_spec(a, s).x as int, <IVec2 as vstd::std_specs::ops::RemSpec<i32>>::rem_spec(a, s).x as int),
        <IVec2 as vstd::std_specs::ops::DivSpec<i32>>::div_req(a, s) ==> truncated_division(a.y as int, s as int, <IVec2 as vstd::std_specs::ops::DivSpec<i32>>::div_spec(a, s).y as int, <IVec2 as vstd::std_specs::ops::RemSpec<i32>>::rem_spec(a, s).y as int),
        <IVec2 as vstd::std_specs::ops::DivSpec<&i32>>::obeys_div_spec() && <IVec2 as vstd::std_specs::ops::RemSpec<&i32>>::obeys_rem_spec(),
        <IVec2 as vstd::std_specs::ops::DivSpec<&i32>>::div_req(a, &s) <==> divisible_i32(a.x as int, s as int) && divisible_i32(a.y as int, s as int),
        <IVec2 as vstd::std_specs::ops::RemSpec<&i32>>::rem_req(a, &s) <==> divisible_i32(a.x as int, s as int) && divisible_i32(a.y as int, s as int),
        <IVec2 as vstd::std_specs::ops::DivSpec<&i32>>::div_req(a, &s) ==> truncated_division(a.x as int, s as int, <IVec2 as vstd::std_specs::ops::DivSpec<&i32>>::div_spec(a, &s).x as int, <IVec2 as vstd::std_specs::ops::RemSpec<&i32>>::rem_spec(a, &s).x as int),
        <IVec2 as vstd::std_specs::ops::DivSpec<&i32>>::div_req(a, &s) ==> truncated_division(a.y as int, s as int, <IVec2 as vstd::std_specs::ops::DivSpec<&i32>>::div_spec(a, &s).y as int, <IVec2 as vstd::std_specs::ops::RemSpec<&i32>>::rem_spec(a, &s).y as int),
        <&IVec2 as vstd::std_specs::ops::DivSpec<i32>>::obeys_div_spec() && <&IVec2 as vstd::std_specs::ops::RemSpec<i32>>::obeys_rem_spec(),
        <&IVec2 as vstd::std_specs::ops::DivSpec<i32>>::div_req(&a, s) <==> divisible_i32(a.x as int, s as int) && divisible_i32(a.y as int, s as int),
        <&IVec2 as vstd::std_specs::ops::RemSpec<i32>>::rem_req(&a, s) <==> divisible_i32(a.x as int, s as int) && divisible_i32(a.y as int, s as int),
        <&IVec2 as vstd::std_specs::ops::DivSpec<i32>>::div_req(&a, s) ==> truncated_division(a.x as int, s as int, <&IVec2 as vstd::std_specs::ops::DivSpec<i32>>::div_spec(&a, s).x as int, <&IVec2 as vstd::std_specs::ops::RemSpec<i32>>::rem_spec(&a, s).x as int),
        <&IVec2 as vstd::std_specs::ops::DivSpec<i32>>::div_req(&a, s) ==> truncated_division(a.y as int, s as int, <&IVec2 as vstd::std_specs::ops::DivSpec<i32>>::div_spec(&a, s).y as int, <&IVec2 as vstd::std_specs::ops::RemSpec<i32>>::rem_spec(&a, s).y as int),
        <&IVec2 as vstd::std_specs::ops::DivSpec<&i32>>::obeys_div_spec() && <&IVec2 as vstd::std_specs::ops::RemSpec<&i32>>::obeys_rem_spec(),
        <&IVec2 as vstd::std_specs::ops::DivSpec<&i32>>::div_req(&a, &s) <==> divisible_i32(a.x as int, s as int) && divisible_i32(a.y as int, s as int),
        <&IVec2 as vstd::std_specs::ops::RemSpec<&i32>>::rem_req(&a, &s) <==> divisible_i32(a.x as int, s as int) && divisible_i32(a.y as int, s as int),
        <&IVec2 as vstd::std_specs::ops::DivSpec<&i32>>::div_req(&a, &s) ==> truncated_division(a.x as int, s as int, <&IVec2 as vstd::std_specs::ops::DivSpec<&i32>>::div_spec(&a, &s).x as int, <&IVec2 as vstd::std_specs::ops::RemSpec<&i32>>::rem_spec(&a, &s).x as int),
        <&IVec2 as vstd::std_specs::ops::DivSpec<&i32>>::div_req(&a, &s) ==> truncated_division(a.y as int, s as int, <&IVec2 as vstd::std_specs::ops::DivSpec<&i32>>::div_spec(&a, &s).y as int, <&IVec2 as vstd::std_specs::ops::RemSpec<&i32>>::rem_spec(&a, &s).y as int),
        <i32 as vstd::std_specs::ops::DivSpec<IVec2>>::obeys_div_spec() && <i32 as vstd::std_specs::ops::RemSpec<IVec2>>::obeys_rem_spec(),
        <i32 as vstd::std_specs::ops::DivSpec<IVec2>>::div_req(s, b) <==> divisible_i32(s as int, b.x as int) && divisible_i32(s as int, b.y as int),
        <i32 as vstd::std_specs::ops::RemSpec<IVec2>>::rem_req(s, b) <==> divisible_i32(s as int, b.x as int) && divisible_i32(s as int, b.y as int),
        <i32 as vstd::std_specs::ops::DivSpec<IVec2>>::div_req(s, b) ==> truncated_division(s as int, b.x as int, <i32 as vstd::std_specs::ops::DivSpec<IVec2>>::div_spec(s, b).x as int, <i32 as vstd::std_specs::ops::RemSpec<IVec2>>::rem_spec(s, b).x as int),
        <i32 as vstd::std_specs::ops::DivSpec<IVec2>>::div_req(s, b) ==> truncated_division(s as int, b.y as int, <i32 as vstd::std_specs::ops::DivSpec<IVec2>>::div_spec(s, b).y as int, <i32 as vstd::std_specs::ops::RemSpec<IVec2>>::rem_spec(s, b).y as int),
        <i32 as vstd::std_specs::ops::DivSpec<&IVec2>>::obeys_div_spec() && <i32 as vstd::std_specs::ops::RemSpec<&IVec2>>::obeys_rem_spec(),
        <i32 as vstd::std_specs::ops::DivSpec<&IVec2>>::div_req(s, &b) <==> divisible_i32(s as int, b.x as int) && divisible_i32(s as int, b.y as int),
        <i32 as vstd::std_specs::ops::RemSpec<&IVec2>>::rem_req(s, &b) <==> divisible_i32(s as int, b.x as int) && divisible_i32(s as int, b.y as int),
        <i32 as vstd::std_specs::ops::DivSpec<&IVec2>>::div_req(s, &b) ==> truncated_division(s as int, b.x as int, <i32 as vstd::std_specs::ops::DivSpec<&IVec2>>::div_spec(s, &b).x as int, <i32 as vstd::std_specs::ops::RemSpec<&IVec2>>::rem_spec(s, &b).x as int),
        <i32 as vstd::std_specs::ops::DivSpec<&IVec2>>::div_req(s, &b) ==> truncated_division(s as int, b.y as int, <i32 as vstd::std_specs::ops::DivSpec<&IVec2>>::div_spec(s, &b).y as int, <i32 as vstd::std_specs::ops::RemSpec<&IVec2>>::rem_spec(s, &b).y as int),
        <&i32 as vstd::std_specs::ops::DivSpec<IVec2>>::obeys_div_spec() && <&i32 as vstd::std_specs::ops::RemSpec<IVec2>>::obeys_rem_spec(),
        <&i32 as vstd::std_specs::ops::DivSpec<IVec2>>::div_req(&s, b) <==> divisible_i32(s as int, b.x as int) && divisible_i32(s as int, b.y as int),
        <&i32 as vstd::std_specs::ops::RemSpec<IVec2>>::rem_req(&s, b) <==> divisible_i32(s as int, b.x as int) && divisible_i32(s as int, b.y as int),
        <&i32 as vstd::std_specs::ops::DivSpec<IVec2>>::div_req(&s, b) ==> truncated_division(s as int, b.x as int, <&i32 as vstd::std_specs::ops::DivSpec<IVec2>>::div_spec(&s, b).x as int, <&i32 as vstd::std_specs::ops::RemSpec<IVec2>>::rem_spec(&s, b).x as int),
        <&i32 as vstd::std_specs::ops::DivSpec<IVec2>>::div_req(&s, b) ==> truncated_division(s as int, b.y as int, <&i32 as vstd::std_specs::ops::DivSpec<IVec2>>::div_spec(&s, b).y as int, <&i32 as vstd::std_specs::ops::RemSpec<IVec2>>::rem_spec(&s, b).y as int),
        <&i32 as vstd::std_specs::ops::DivSpec<&IVec2>>::obeys_div_spec() && <&i32 as vstd::std_specs::ops::RemSpec<&IVec2>>::obeys_rem_spec(),
        <&i32 as vstd::std_specs::ops::DivSpec<&IVec2>>::div_req(&s, &b) <==> divisible_i32(s as int, b.x as int) && divisible_i32(s as int, b.y as int),
        <&i32 as vstd::std_specs::ops::RemSpec<&IVec2>>::rem_req(&s, &b) <==> divisible_i32(s as int, b.x as int) && divisible_i32(s as int, b.y as int),
        <&i32 as vstd::std_specs::ops::DivSpec<&IVec2>>::div_req(&s, &b) ==> truncated_division(s as int, b.x as int, <&i32 as vstd::std_specs::ops::DivSpec<&IVec2>>::div_spec(&s, &b).x as int, <&i32 as vstd::std_specs::ops::RemSpec<&IVec2>>::rem_spec(&s, &b).x as int),
        <&i32 as vstd::std_specs::ops::DivSpec<&IVec2>>::div_req(&s, &b) ==> truncated_division(s as int, b.y as int, <&i32 as vstd::std_specs::ops::DivSpec<&IVec2>>::div_spec(&s, &b).y as int, <&i32 as vstd::std_specs::ops::RemSpec<&IVec2>>::rem_spec(&s, &b).y as int),
{
    if divisible_i32(a.x as int, b.x as int) {
        lemma_truncated_i32(a.x as int, b.x as int);
    }
    if divisible_i32(a.y as int, b.y as int) {
        lemma_truncated_i32(a.y as int, b.y as int);
    }
    if divisible_i32(a.x as int, s as int) {
        lemma_truncated_i32(a.x as int, s as int);
    }
    if divisible_i32(a.y as int, s as int) {
        lemma_truncated_i32(a.y as int, s as int);
    }
    if divisible_i32(s as int, b.x as int) {
        lemma_truncated_i32(s as int, b.x as int);
    }
    if divisible_i32(s as int, b.y as int) {
        lemma_truncated_i32(s as int, b.y as int);
    }
}

/// The determinant changes sign when its arguments swap, is zero for a
/// vector with itself, and is the dot product of the quarter turn of its
/// first argument with its second: `a.det(b) == a.perp().dot(b)`.
pub proof fn lemma_det_laws(a: IVec2, b: IVec2)
    ensures
        spec_det(a, b) == -spec_det(b, a),
        spec_det(a, a) == 0,
        a.y != i32::MIN ==> spec_det(a, b) == spec_dot(ivec(-a.y, a.x as int), b),
{
    assert(a.x * b.y == b.y * a.x) by (nonlinear_arith);
    assert(a.y * b.x == b.x * a.y) by (nonlinear_arith);
    assert(a.x * a.y == a.y * a.x) by (nonlinear_arith);
    if a.y != i32::MIN {
        let q = ivec(-a.y, a.x as int);
        assert(q.x == -a.y && q.y == a.x);
        assert(q.x * b.x == -(a.y * b.x) && q.y * b.y == a.x * b.y) by (nonlinear_arith)
            requires
                q.x == -a.y,
                q.y == a.x,
        ;
    }
}

/// Two quarter turns make a half turn.
pub proof fn lemma_perp_twice(v: IVec2)
    requires
        v.x != i32::MIN,
        v.y != i32::MIN,
    ensures
        ivec(-ivec(-v.y, v.x as int).y, ivec(-v.y, v.x as int).x as int) == ivec(-v.x, -v.y),
{
}

/// Rotating by `(1, 0)` changes nothing, and rotating by `(0, 1)` is a
/// quarter turn.
pub proof fn lemma_rotate_units(v: IVec2)
    ensures
        rotate_fits(v, ivec(1, 0)),
        spec_rotate(v, ivec(1, 0)) == v,
        v.y != i32::MIN ==> rotate_fits(v, ivec(0, 1)) && spec_rotate(v, ivec(0, 1)) == ivec(-v.y, v.x as int),
{
    let (x, y) = (v.x as int, v.y as int);
    let (one, zero) = (ivec(1, 0), ivec(0, 1));
    assert(one.x == 1 && one.y == 0 && zero.x == 0 && zero.y == 1);
    assert(x * one.x == x && y * one.y == 0 && y * one.x == y && x * one.y == 0) by (nonlinear_arith)
        requires
            one.x == 1,
            one.y == 0,
    ;
    assert(x * zero.x == 0 && y * zero.y == y && y * zero.x == 0 && x * zero.y == x) by (nonlinear_arith)
        requires
            zero.x == 0,
            zero.y == 1,
    ;
}

/// Expands the components of a product of three complex numbers both ways.
proof fn lemma_complex_assoc(ax: int, ay: int, bx: int, by: int, cx: int, cy: int)
    ensures
        (ax * bx - ay * by) * cx - (ay * bx + ax * by) * cy == ax * (bx * cx - by * cy) - ay * (by * cx + bx * cy),
        (ay * bx + ax * by) * cx + (ax * bx - ay * by) * cy == ay * (bx * cx - by * cy) + ax * (by * cx + bx * cy),
{
    assert((ax * bx - ay * by) * cx == ax * bx * cx - ay * by * cx) by (nonlinear_arith);
    assert((ay * bx + ax * by) * cy == ay * bx * cy + ax * by * cy) by (nonlinear_arith);
    assert(ax * (bx * cx - by * cy) == ax * bx * cx - ax * by * cy) by (nonlinear_arith);
    assert(ay * (by * cx + bx * cy) == ay * by * cx + ay * bx * cy) by (nonlinear_arith);
    assert((ay * bx + ax * by) * cx == ay * bx * cx + ax * by * cx) by (nonlinear_arith);
    assert((ax * bx - ay * by) * cy == ax * bx * cy - ay * by * cy) by (nonlinear_arith);
    assert(ay * (bx * cx - by * cy) == ay * bx * cx - ay * by * cy) by (nonlinear_arith);
    assert(ax * (by * cx + bx * cy) == ax * by * cx + ax * bx * cy) by (nonlinear_arith);
}

/// The squared length of a product of complex numbers is the product of
/// their squared lengths.
proof fn lemma_complex_norm(ax: int, ay: int, bx: int, by: int)
    ensures
        (ax * bx - ay * by) * (ax * bx - ay * by) + (ay * bx + ax * by) * (ay * bx + ax * by)
            == (ax * ax + ay * ay) * (bx * bx + by * by),
{
    let (m1, m2, m3, m4) = (ax * bx, ay * by, ay * bx, ax * by);
    let (a2, b2, c2, d2) = (ax * ax, ay * ay, bx * bx, by * by);
    assert((m1 - m2) * (m1 - m2) == m1 * m1 - 2 * (m1 * m2) + m2 * m2) by (nonlinear_arith);
    assert((m3 + m4) * (m3 + m4) == m3 * m3 + 2 * (m3 * m4) + m4 * m4) by (nonlinear_arith);
    assert(m1 * m2 == m3 * m4) by (nonlinear_arith)
        requires
            m1 == ax * bx,
            m2 == ay * by,
            m3 == ay * bx,
            m4 == ax * by,
    ;
    assert(m1 * m1 == a2 * c2) by (nonlinear_arith)
        requires
            m1 == ax * bx,
            a2 == ax * ax,
            c2 == bx * bx,
    ;
    assert(m2 * m2 == b2 * d2) by (nonlinear_arith)
        requires
            m2 == ay * by,
            b2 == ay * ay,
            d2 == by * by,
    ;
    assert(m3 * m3 == b2 * c2) by (nonlinear_arith)
        requires
            m3 == ay * bx,
            b2 == ay * ay,
            c2 == bx * bx,
    ;
    assert(m4 * m4 == a2 * d2) by (nonlinear_arith)
        requires
            m4 == ax * by,
            a2 == ax * ax,
            d2 == by * by,
    ;
    assert((a2 + b2) * (c2 + d2) == a2 * c2 + a2 * d2 + b2 * c2 + b2 * d2) by (nonlinear_arith);
}

/// Rotation is commutative, associative and multiplies squared lengths:
/// `a.rotate(b) == b.rotate(a)`, `a.rotate(b).rotate(c) ==
/// a.rotate(b.rotate(c))`, and `|a.rotate(b)|² == |a|² |b|²`, wherever the
/// rotations involved compute without overflow.
pub proof fn lemma_rotate_laws(a: IVec2, b: IVec2, c: IVec2)
    ensures
        rotate_fits(a, b) ==> rotate_fits(b, a) && spec_rotate(a, b) == spec_rotate(b, a),
        rotate_fits(a, b) && rotate_fits(spec_rotate(a, b), c) && rotate_fits(b, c) && rotate_fits(
            a,
            spec_rotate(b, c),
        ) ==> spec_rotate(spec_rotate(a, b), c) == spec_rotate(a, spec_rotate(b, c)),
        rotate_fits(a, b) ==> spec_dot(spec_rotate(a, b), spec_rotate(a, b)) == spec_dot(a, a) * spec_dot(b, b),
{
    let (ax, ay, bx, by, cx, cy) = (a.x as int, a.y as int, b.x as int, b.y as int, c.x as int, c.y as int);
    assert(ax * bx == bx * ax && ay * by == by * ay && ay * bx == bx * ay && ax * by == by * ax) by (nonlinear_arith);
    lemma_complex_assoc(ax, ay, bx, by, cx, cy);
    lemma_complex_norm(ax, ay, bx, by);
    if rotate_fits(a, b) {
        let ab = spec_rotate(a, b);
        assert(ab.x == ax * bx - ay * by && ab.y == ay * bx + ax * by);
        if rotate_fits(ab, c) && rotate_fits(b, c) && rotate_fits(a, spec_rotate(b, c)) {
            let bc = spec_rotate(b, c);
            assert(bc.x == bx * cx - by * cy && bc.y == by * cx + bx * cy);
        }
    }
}

/// The Chebyshev distance is at most the Manhattan distance and at least
/// half of it, and both are symmetric.
pub proof fn lemma_distance_laws(a: IVec2, b: IVec2)
    ensures
        spec_chebyshev(a, b) <= spec_manhattan(a, b) <= 2 * spec_chebyshev(a, b),
        spec_manhattan(a, b) == spec_manhattan(b, a),
        spec_chebyshev(a, b) == spec_chebyshev(b, a),
        spec_manhattan(a, b) == 0 <==> a == b,
{
}

/// The character of a decimal digit.
pub open spec fn digit_char(d: int) -> char {
    ('0' as int + d) as char
}

/// The decimal digits of a natural number, most significant first.
pub open spec fn decimal_text(n: nat) -> Seq<char>
    decreases n,
{
    if n < 10 {
        seq![digit_char(n as int)]
    } else {
        decimal_text(n / 10).push(digit_char((n % 10) as int))
    }
}

/// The text of an integer as Rust formats it: a `-` for negative values,
/// then the decimal digits of its magnitude.
pub open spec fn int_text(v: int) -> Seq<char> {
    if v < 0 {
        seq!['-'] + decimal_text((-v) as nat)
    } else {
        decimal_text(v as nat)
    }
}

/// The text of a decimal digit.
fn digit_str(d: u32) -> (r: &'static str)
    requires
        d < 10,
    ensures
        r@ == seq![digit_char(d as int)],
{
    proof {
        reveal_strlit("0");
        reveal_strlit("1");
        reveal_strlit("2");
        reveal_strlit("3");
        reveal_strlit("4");
        reveal_strlit("5");
        reveal_strlit("6");
        reveal_strlit("7");
        reveal_strlit("8");
        reveal_strlit("9");
    }
    match d {
        0 => "0",
        1 => "1",
        2 => "2",
        3 => "3",
        4 => "4",
        5 => "5",
        6 => "6",
        7 => "7",
        8 => "8",
        _ => "9",
    }
}

/// Appends the decimal digits of `n`.
fn push_decimal(out: &mut String, n: u32)
    ensures
        final(out)@ == old(out)@ + decimal_text(n as nat),
    decreases n,
{
    if n >= 10 {
        push_decimal(out, n / 10);
    }
    out.append(digit_str(n % 10));
    proof {
        if n >= 10 {
            assert(decimal_text(n as nat) == decimal_text((n / 10) as nat).push(digit_char((n % 10) as int)));
        }
    }
    assert(final(out)@ =~= old(out)@ + decimal_text(n as nat));
}

/// Appends the text of `v`.
fn push_i32(out: &mut String, v: i32)
    ensures
        final(out)@ == old(out)@ + int_text(v as int),
{
    if v < 0 {
        out.append("-");
        let magnitude: u32 = (-(v as i64)) as u32;
        proof {
            reveal_strlit("-");
        }
        push_decimal(out, magnitude);
        assert(final(out)@ =~= old(out)@ + int_text(v as int));
    } else {
        push_decimal(out, v as u32);
    }
}

impl IVec2 {
    /// The vector as `[x, y]`.
    pub fn to_display_string(&self) -> (r: String)
        ensures
            r@ == "["@ + int_text(self.x as int) + ", "@ + int_text(self.y as int) + "]"@,
    {
        let mut out = String::from_str("[");
        push_i32(&mut out, self.x);
        out.append(", ");
        push_i32(&mut out, self.y);
        out.append("]");
        out
    }

    /// The vector as `IVec2(x, y)`.
    pub fn to_debug_string(&self) -> (r: String)
        ensures
            r@ == "IVec2("@ + int_text(self.x as int) + ", "@ + int_text(self.y as int) + ")"@,
    {
        let mut out = String::from_str("IVec2(");
        push_i32(&mut out, self.x);
        out.append(", ");
        push_i32(&mut out, self.y);
        out.append(")");
        out
    }
}

} // verus!
