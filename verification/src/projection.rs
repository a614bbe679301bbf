//! Range-linear polar projection of a sighting onto the radar disc.
//!
//! A point is given by its great-circle distance from the reference location
//! and the direction in which it lies. The projector keeps the point if it is
//! within the displayed range and places it on the screen at a radius
//! proportional to its distance.

use vstd::prelude::*;

verus! {

/// Fixed-point value of `1.0` for the components of a [`Direction`].
pub const UNIT: i64 = 1_000_000;

/// Smallest zoom factor, in thousandths.
pub const MIN_SCALE: u32 = 100;

/// Largest zoom factor, in thousandths.
pub const MAX_SCALE: u32 = 5000;

/// A position on the screen, in thousandths of a pixel. `y` grows downwards.
#[derive(Clone, Copy, Debug, PartialEq, Eq, Structural)]
pub struct ScreenPoint {
    pub x: i64,
    pub y: i64,
}

/// An axis-aligned panel on the screen, in thousandths of a pixel.
#[derive(Clone, Copy, Debug, PartialEq, Eq, Structural)]
pub struct Rect {
    pub left: i32,
    pub top: i32,
    pub right: i32,
    pub bottom: i32,
}

impl Rect {
    /// Horizontal extent; zero for a panel whose right edge is not right of its left edge.
    pub open spec fn spec_width(&self) -> i64 {
        if self.right > self.left {
            (self.right - self.left) as i64
        } else {
            0
        }
    }

    /// Vertical extent; zero for a panel whose bottom edge is not below its top edge.
    pub open spec fn spec_height(&self) -> i64 {
        if self.bottom > self.top {
            (self.bottom - self.top) as i64
        } else {
            0
        }
    }

    /// The midpoint of the panel, each coordinate rounded towards negative infinity.
    pub open spec fn spec_center(&self) -> ScreenPoint {
        ScreenPoint {
            x: ((self.left + self.right) / 2) as i64,
            y: ((self.top + self.bottom) / 2) as i64,
        }
    }

    /// Radius of the radar disc that fits the panel: two fifths of the shorter side.
    pub open spec fn spec_disc_radius(&self) -> u32 {
        if self.spec_width() <= self.spec_height() {
            (self.spec_width() * 2 / 5) as u32
        } else {
            (self.spec_height() * 2 / 5) as u32
        }
    }

    #[verifier::when_used_as_spec(spec_width)]
    pub fn width(&self) -> (w: i64)
        ensures
            w == self.spec_width(),
            0 <= w <= u32::MAX,
    {
        if self.right > self.left {
            self.right as i64 - self.left as i64
        } else {
            0
        }
    }

    #[verifier::when_used_as_spec(spec_height)]
    pub fn height(&self) -> (h: i64)
        ensures
            h == self.spec_height(),
            0 <= h <= u32::MAX,
    {
        if self.bottom > self.top {
            self.bottom as i64 - self.top as i64
        } else {
            0
        }
    }

    #[verifier::when_used_as_spec(spec_center)]
    pub fn center(&self) -> (c: ScreenPoint)
        ensures
            c == self.spec_center(),
            i32::MIN <= c.x <= i32::MAX,
            i32::MIN <= c.y <= i32::MAX,
    {
        ScreenPoint {
            x: floor_half(self.left as i64 + self.right as i64),
            y: floor_half(self.top as i64 + self.bottom as i64),
        }
    }

    #[verifier::when_used_as_spec(spec_disc_radius)]
    pub fn disc_radius(&self) -> (r: u32)
        ensures
            r == self.spec_disc_radius(),
    {
        let w = self.width();
        let h = self.height();
        let side: i64 = if w <= h { w } else { h };
        (side * 2 / 5) as u32
    }
}

/// Half of `sum`, rounded towards negative infinity.
fn floor_half(sum: i64) -> (half: i64)
    requires
        2 * i32::MIN <= sum <= 2 * i32::MAX,
    ensures
        half == sum / 2,
        i32::MIN <= half <= i32::MAX,
{
    if sum >= 0 {
        sum / 2
    } else {
        -((1 - sum) / 2)
    }
}

/// `numerator / denominator` rounded towards zero, for a positive denominator.
pub open spec fn spec_div_towards_zero(numerator: int, denominator: int) -> int {
    if numerator >= 0 {
        numerator / denominator
    } else {
        -((-numerator) / denominator)
    }
}

/// A compass direction as a vector no longer than one: the sine and the
/// cosine of the bearing, measured clockwise from north, both in millionths.
#[derive(Clone, Copy, Debug, PartialEq, Eq)]
pub struct Direction {
    sin: i64,
    cos: i64,
}

impl Direction {
    #[verifier::type_invariant]
    pub closed spec fn inv(self) -> bool {
        Self::fits(self.sin as int, self.cos as int)
    }

    /// The sine of the bearing, in millionths: the eastward component.
    pub closed spec fn spec_sin(&self) -> i64 {
        self.sin
    }

    /// The cosine of the bearing, in millionths: the northward component.
    pub closed spec fn spec_cos(&self) -> i64 {
        self.cos
    }

    /// Whether a pair of components is no longer than one.
    pub open spec fn fits(sin: int, cos: int) -> bool {
        sin * sin + cos * cos <= UNIT * UNIT
    }

    /// What [`Direction::inv`] says, over the two components.
    pub proof fn lemma_inv_fits(self)
        ensures
            self.inv() == Self::fits(self.spec_sin() as int, self.spec_cos() as int),
    {
    }

    /// Build a direction from its sine and cosine in millionths. Succeeds
    /// exactly when the vector is no longer than one.
    pub fn new(sin: i64, cos: i64) -> (d: Option<Direction>)
        ensures
            d is Some == Self::fits(sin as int, cos as int),
            d is Some ==> d->0.spec_sin() == sin && d->0.spec_cos() == cos,
    {
        if sin < -UNIT || sin > UNIT || cos < -UNIT || cos > UNIT {
            proof {
                if sin < -UNIT || sin > UNIT {
                    lemma_long_component(sin as int, cos as int);
                } else {
                    lemma_long_component(cos as int, sin as int);
                }
            }
            return None;
        }
        assert(0 <= sin * sin <= UNIT * UNIT && 0 <= cos * cos <= UNIT * UNIT) by (nonlinear_arith)
            requires
                -UNIT <= sin <= UNIT,
                -UNIT <= cos <= UNIT,
        ;
        if sin * sin + cos * cos <= UNIT * UNIT {
            Some(Direction { sin, cos })
        } else {
            None
        }
    }

    /// Due north: bearing 0.
    pub fn north() -> (d: Direction)
        ensures
            d.spec_sin() == 0,
            d.spec_cos() == UNIT,
    {
        Direction { sin: 0, cos: UNIT }
    }

    /// Due east: bearing 90.
    pub fn east() -> (d: Direction)
        ensures
            d.spec_sin() == UNIT,
            d.spec_cos() == 0,
    {
        Direction { sin: UNIT, cos: 0 }
    }

    /// Due south: bearing 180.
    pub fn south() -> (d: Direction)
        ensures
            d.spec_sin() == 0,
            d.spec_cos() == -UNIT,
    {
        Direction { sin: 0, cos: -UNIT }
    }

    /// Due west: bearing 270.
    pub fn west() -> (d: Direction)
        ensures
            d.spec_sin() == -UNIT,
            d.spec_cos() == 0,
    {
        Direction { sin: -UNIT, cos: 0 }
    }

    #[verifier::when_used_as_spec(spec_sin)]
    pub fn sin(&self) -> (s: i64)
        ensures
            s == self.spec_sin(),
            -UNIT <= s <= UNIT,
    {
        proof {
            use_type_invariant(self);
            lemma_component_bound(self.sin as int, self.cos as int);
        }
        self.sin
    }

    #[verifier::when_used_as_spec(spec_cos)]
    pub fn cos(&self) -> (c: i64)
        ensures
            c == self.spec_cos(),
            -UNIT <= c <= UNIT,
    {
        proof {
            use_type_invariant(self);
            lemma_component_bound(self.cos as int, self.sin as int);
        }
        self.cos
    }

    /// Sine and cosine of the sum of two angles, by the addition theorems,
    /// each rounded towards zero.
    pub open spec fn spec_turned_pair(sin: int, cos: int, by_sin: int, by_cos: int) -> (int, int) {
        (
            spec_div_towards_zero(sin * by_cos + cos * by_sin, UNIT as int),
            spec_div_towards_zero(cos * by_cos - sin * by_sin, UNIT as int),
        )
    }

    /// Sine of the sum of two bearings.
    pub open spec fn spec_turned_sin(&self, by: &Direction) -> int {
        Self::spec_turned_pair(
            self.spec_sin() as int,
            self.spec_cos() as int,
            by.spec_sin() as int,
            by.spec_cos() as int,
        ).0
    }

    /// Cosine of the sum of two bearings.
    pub open spec fn spec_turned_cos(&self, by: &Direction) -> int {
        Self::spec_turned_pair(
            self.spec_sin() as int,
            self.spec_cos() as int,
            by.spec_sin() as int,
            by.spec_cos() as int,
        ).1
    }

    /// This direction turned clockwise by the bearing of `by`.
    pub fn turned(&self, by: &Direction) -> (d: Direction)
        ensures
            d.spec_sin() == self.spec_turned_sin(by),
            d.spec_cos() == self.spec_turned_cos(by),
    {
        let s1 = self.sin();
        let c1 = self.cos();
        let s2 = by.sin();
        let c2 = by.cos();
        proof {
            use_type_invariant(self);
            use_type_invariant(by);
            lemma_product_bound(s1 as int, c2 as int);
            lemma_product_bound(c1 as int, s2 as int);
            lemma_product_bound(c1 as int, c2 as int);
            lemma_product_bound(s1 as int, s2 as int);
            lemma_turn_fits(s1 as int, c1 as int, s2 as int, c2 as int);
        }
        let sin = div_towards_zero(s1 * c2 + c1 * s2, UNIT);
        let cos = div_towards_zero(c1 * c2 - s1 * s2, UNIT);
        Direction { sin, cos }
    }
}

/// `numerator / denominator` rounded towards zero.
pub(crate) fn div_towards_zero(numerator: i64, denominator: i64) -> (q: i64)
    requires
        denominator > 0,
    ensures
        q == spec_div_towards_zero(numerator as int, denominator as int),
{
    numerator / denominator
}

/// A quotient by a positive number is no larger than the number divided.
proof fn lemma_quotient_bound(n: int, d: int)
    by (nonlinear_arith)
    requires
        n >= 0,
        d > 0,
    ensures
        0 <= n / d <= n,
        (n / d) * d <= n,
{
}

/// A component beyond one makes the vector longer than one.
proof fn lemma_long_component(a: int, b: int)
    by (nonlinear_arith)
    requires
        a < -UNIT || a > UNIT,
    ensures
        a * a + b * b > UNIT * UNIT,
        b * b + a * a > UNIT * UNIT,
{
}

/// Each component of a vector no longer than one lies in `[-1, 1]`.
proof fn lemma_component_bound(a: int, b: int)
    by (nonlinear_arith)
    requires
        a * a + b * b <= UNIT * UNIT,
    ensures
        -UNIT <= a <= UNIT,
{
}

/// The product of two components lies in `[-1, 1]`, scaled by one.
proof fn lemma_product_bound(a: int, b: int)
    by (nonlinear_arith)
    requires
        -UNIT <= a <= UNIT,
        -UNIT <= b <= UNIT,
    ensures
        -UNIT * UNIT <= a * b <= UNIT * UNIT,
{
}

/// Rounding a quotient towards zero never lengthens it: `q * d` lies between
/// zero and `n`, so its square is at most the square of `n`.
pub(crate) proof fn lemma_rounded_square(n: int, d: int)
    requires
        d > 0,
    ensures
        ({
            let q = spec_div_towards_zero(n, d);
            q * q * (d * d) <= n * n
        }),
{
    let q = spec_div_towards_zero(n, d);
    let m = if n >= 0 { n } else { -n };
    let p = if n >= 0 { q } else { -q };
    lemma_quotient_bound(m, d);
    assert(p == m / d);
    assert(q * q == p * p) by (nonlinear_arith)
        requires
            p == q || p == -q,
    ;
    assert(n * n == m * m) by (nonlinear_arith)
        requires
            m == n || m == -n,
    ;
    assert(p * p * (d * d) <= m * m) by (nonlinear_arith)
        requires
            0 <= p * d <= m,
    ;
}

/// The product of two squares is the square of the product.
pub(crate) proof fn lemma_square_of_product(a: int, b: int)
    by (nonlinear_arith)
    ensures
        (a * b) * (a * b) == (a * a) * (b * b),
{
}

/// Brahmagupta's identity: the norm of a product is the product of the norms.
proof fn lemma_norm_of_product(s1: int, c1: int, s2: int, c2: int)
    ensures
        (s1 * c2 + c1 * s2) * (s1 * c2 + c1 * s2) + (c1 * c2 - s1 * s2) * (c1 * c2 - s1 * s2) == (s1
            * s1 + c1 * c1) * (s2 * s2 + c2 * c2),
{
    let a = s1 * c2;
    let b = c1 * s2;
    let c = c1 * c2;
    let d = s1 * s2;
    assert((a + b) * (a + b) == a * a + 2 * (a * b) + b * b) by (nonlinear_arith);
    assert((c - d) * (c - d) == c * c - 2 * (c * d) + d * d) by (nonlinear_arith);
    assert(a * b == c * d) by (nonlinear_arith)
        requires
            a == s1 * c2,
            b == c1 * s2,
            c == c1 * c2,
            d == s1 * s2,
    ;
    lemma_square_of_product(s1, c2);
    lemma_square_of_product(c1, s2);
    lemma_square_of_product(c1, c2);
    lemma_square_of_product(s1, s2);
    let p = s1 * s1;
    let q = c1 * c1;
    let r = s2 * s2;
    let t = c2 * c2;
    assert((p + q) * (r + t) == p * t + q * r + q * t + p * r) by (nonlinear_arith);
}

/// Turning one direction by another and rounding towards zero yields a
/// vector no longer than one.
proof fn lemma_turn_fits(s1: int, c1: int, s2: int, c2: int)
    requires
        Direction::fits(s1, c1),
        Direction::fits(s2, c2),
    ensures
        Direction::fits(
            spec_div_towards_zero(s1 * c2 + c1 * s2, UNIT as int),
            spec_div_towards_zero(c1 * c2 - s1 * s2, UNIT as int),
        ),
{
    let n1 = s1 * c2 + c1 * s2;
    let n2 = c1 * c2 - s1 * s2;
    let x = spec_div_towards_zero(n1, UNIT as int);
    let y = spec_div_towards_zero(n2, UNIT as int);
    let u2 = UNIT * UNIT;
    let norm1 = s1 * s1 + c1 * c1;
    let norm2 = s2 * s2 + c2 * c2;
    lemma_rounded_square(n1, UNIT as int);
    lemma_rounded_square(n2, UNIT as int);
    lemma_norm_of_product(s1, c1, s2, c2);
    assert(0 <= norm1 && 0 <= norm2) by (nonlinear_arith)
        requires
            norm1 == s1 * s1 + c1 * c1,
            norm2 == s2 * s2 + c2 * c2,
    ;
    assert(norm1 * norm2 <= u2 * u2) by (nonlinear_arith)
        requires
            0 <= norm1 <= u2,
            0 <= norm2 <= u2,
    ;
    assert(x * x + y * y <= u2) by (nonlinear_arith)
        requires
            x * x * u2 <= n1 * n1,
            y * y * u2 <= n2 * n2,
            n1 * n1 + n2 * n2 <= u2 * u2,
            u2 > 0,
    ;
}

/// Where a point lies as seen from the reference location: its great-circle
/// distance in metres and the direction of its initial bearing.
#[derive(Clone, Copy, Debug, PartialEq, Eq)]
pub struct Polar {
    pub distance: u32,
    pub bearing: Direction,
}

impl Polar {
    /// The reference location itself.
    pub fn origin() -> (p: Polar)
        ensures
            p.distance == 0,
            p.bearing.spec_sin() == 0,
            p.bearing.spec_cos() == UNIT,
    {
        Polar { distance: 0, bearing: Direction::north() }
    }
}

/// The geometry of one frame: the centre and radius of the radar disc on the
/// screen, the ground distance in metres that the radius stands for, and the
/// zoom factor in thousandths.
#[derive(Clone, Copy, Debug, PartialEq, Eq)]
pub struct RadarFrame {
    center: ScreenPoint,
    pixel_radius: u32,
    max_range: u32,
    scale: u32,
}

impl RadarFrame {
    #[verifier::type_invariant]
    pub closed spec fn inv(self) -> bool {
        &&& i32::MIN <= self.center.x <= i32::MAX
        &&& i32::MIN <= self.center.y <= i32::MAX
        &&& MIN_SCALE <= self.scale <= MAX_SCALE
    }

    pub closed spec fn spec_center(&self) -> ScreenPoint {
        self.center
    }

    pub closed spec fn spec_pixel_radius(&self) -> u32 {
        self.pixel_radius
    }

    pub closed spec fn spec_max_range(&self) -> u32 {
        self.max_range
    }

    pub closed spec fn spec_scale(&self) -> u32 {
        self.scale
    }

    /// What [`RadarFrame::inv`] says, over the accessors.
    pub proof fn lemma_inv_bounds(self)
        ensures
            self.inv() == {
                &&& i32::MIN <= self.spec_center().x <= i32::MAX
                &&& i32::MIN <= self.spec_center().y <= i32::MAX
                &&& MIN_SCALE <= self.spec_scale() <= MAX_SCALE
            },
    {
    }

    /// The frame for a panel: the disc is centred in the panel and its radius
    /// is two fifths of the panel's shorter side. `scale` is clamped into
    /// `[MIN_SCALE, MAX_SCALE]`.
    pub closed spec fn spec_new(panel: Rect, max_range: u32, scale: u32) -> RadarFrame {
        RadarFrame {
            center: panel.spec_center(),
            pixel_radius: panel.spec_disc_radius(),
            max_range,
            scale: spec_clamped_scale(scale),
        }
    }

    /// What [`RadarFrame::spec_new`] builds, over the accessors.
    pub proof fn lemma_spec_new(panel: Rect, max_range: u32, scale: u32)
        ensures
            Self::spec_new(panel, max_range, scale).inv(),
            Self::spec_new(panel, max_range, scale).spec_center() == panel.spec_center(),
            Self::spec_new(panel, max_range, scale).spec_pixel_radius()
                == panel.spec_disc_radius(),
            Self::spec_new(panel, max_range, scale).spec_max_range() == max_range,
            Self::spec_new(panel, max_range, scale).spec_scale() == spec_clamped_scale(scale),
    {
    }

    /// The frame for a panel: the disc is centred in the panel and its radius
    /// is two fifths of the panel's shorter side. `scale` is clamped into
    /// `[MIN_SCALE, MAX_SCALE]`.
    #[verifier::when_used_as_spec(spec_new)]
    pub fn new(panel: Rect, max_range: u32, scale: u32) -> (frame: RadarFrame)
        ensures
            frame == Self::spec_new(panel, max_range, scale),
            frame.spec_center() == panel.spec_center(),
            frame.spec_pixel_radius() == panel.spec_disc_radius(),
            frame.spec_max_range() == max_range,
            frame.spec_scale() == spec_clamped_scale(scale),
    {
        RadarFrame {
            center: panel.center(),
            pixel_radius: panel.disc_radius(),
            max_range,
            scale: clamped_scale(scale),
        }
    }

    /// Centre of the radar disc.
    #[verifier::when_used_as_spec(spec_center)]
    pub fn center(&self) -> (c: ScreenPoint)
        ensures
            c == self.spec_center(),
            i32::MIN <= c.x <= i32::MAX,
            i32::MIN <= c.y <= i32::MAX,
    {
        proof {
            use_type_invariant(self);
        }
        self.center
    }

    /// Radius of the radar disc at zoom 1:1, in thousandths of a pixel.
    #[verifier::when_used_as_spec(spec_pixel_radius)]
    pub fn pixel_radius(&self) -> (r: u32)
        ensures
            r == self.spec_pixel_radius(),
    {
        self.pixel_radius
    }

    /// Ground distance that the disc's radius stands for, in metres.
    #[verifier::when_used_as_spec(spec_max_range)]
    pub fn max_range(&self) -> (m: u32)
        ensures
            m == self.spec_max_range(),
    {
        self.max_range
    }

    /// Zoom factor in thousandths, within `[MIN_SCALE, MAX_SCALE]`.
    #[verifier::when_used_as_spec(spec_scale)]
    pub fn scale(&self) -> (s: u32)
        ensures
            s == self.spec_scale(),
            MIN_SCALE <= s <= MAX_SCALE,
    {
        proof {
            use_type_invariant(self);
        }
        self.scale
    }

    /// Screen distance from the centre at which a point `distance` metres
    /// away is drawn: `distance / max_range * pixel_radius * scale`, rounded
    /// down. With a maximum range of zero only the reference itself is in
    /// range, at radius zero.
    pub open spec fn spec_radial(&self, distance: int) -> int {
        if self.spec_max_range() == 0 {
            0
        } else {
            (distance * self.spec_pixel_radius() * self.spec_scale()) / (self.spec_max_range()
                * 1000)
        }
    }

    /// The screen position of `point`, or `None` if it lies beyond the
    /// maximum range: at radius `spec_radial` from the centre, at the point's
    /// bearing clockwise from straight up.
    pub open spec fn spec_project(&self, point: &Polar) -> Option<ScreenPoint> {
        if point.distance > self.spec_max_range() {
            None
        } else {
            let r = self.spec_radial(point.distance as int);
            Some(
                ScreenPoint {
                    x: (self.spec_center().x + spec_div_towards_zero(
                        r * point.bearing.spec_sin(),
                        UNIT as int,
                    )) as i64,
                    y: (self.spec_center().y - spec_div_towards_zero(
                        r * point.bearing.spec_cos(),
                        UNIT as int,
                    )) as i64,
                },
            )
        }
    }

    /// Screen distance from the centre for a point in range.
    fn radial(&self, distance: u32) -> (r: i64)
        requires
            distance <= self.spec_max_range(),
        ensures
            r == self.spec_radial(distance as int),
            0 <= r <= 5 * u32::MAX,
    {
        proof {
            use_type_invariant(self);
        }
        if self.max_range == 0 {
            return 0;
        }
        proof {
            lemma_radial_bound(
                distance as int,
                self.pixel_radius as int,
                self.scale as int,
                self.max_range as int,
            );
        }
        assert(self.pixel_radius * self.scale <= 5000 * u32::MAX) by (nonlinear_arith)
            requires
                self.pixel_radius <= u32::MAX,
                self.scale <= 5000,
        ;
        let reach: u64 = self.pixel_radius as u64 * self.scale as u64;
        assert(distance * reach <= u32::MAX * (5000 * u32::MAX)) by (nonlinear_arith)
            requires
                distance <= u32::MAX,
                reach <= 5000 * u32::MAX,
        ;
        assert(distance * self.pixel_radius * self.scale == distance * reach) by (nonlinear_arith)
            requires
                reach == self.pixel_radius * self.scale,
        ;
        let numerator: u128 = distance as u128 * reach as u128;
        let denominator: u128 = self.max_range as u128 * 1000;
        (numerator / denominator) as i64
    }

    /// Project a point onto the screen, or report that it is out of range.
    pub fn project(&self, point: &Polar) -> (p: Option<ScreenPoint>)
        ensures
            p == self.spec_project(point),
            p is Some ==> -5 * u32::MAX <= p->0.x - self.spec_center().x <= 5 * u32::MAX,
            p is Some ==> -5 * u32::MAX <= p->0.y - self.spec_center().y <= 5 * u32::MAX,
    {
        if point.distance > self.max_range {
            return None;
        }
        let r = self.radial(point.distance);
        let center = self.center();
        let dx = scaled(r, point.bearing.sin());
        let dy = scaled(r, point.bearing.cos());
        Some(ScreenPoint { x: center.x + dx, y: center.y - dy })
    }
}

/// `scale` clamped into `[MIN_SCALE, MAX_SCALE]`.
pub open spec fn spec_clamped_scale(scale: u32) -> u32 {
    if scale < MIN_SCALE {
        MIN_SCALE
    } else if scale > MAX_SCALE {
        MAX_SCALE
    } else {
        scale
    }
}

/// Clamp a zoom factor into `[MIN_SCALE, MAX_SCALE]`.
#[verifier::when_used_as_spec(spec_clamped_scale)]
pub fn clamped_scale(scale: u32) -> (s: u32)
    ensures
        s == spec_clamped_scale(scale),
        MIN_SCALE <= s <= MAX_SCALE,
{
    if scale < MIN_SCALE {
        MIN_SCALE
    } else if scale > MAX_SCALE {
        MAX_SCALE
    } else {
        scale
    }
}

/// `length` times a sine or cosine in millionths, rounded towards zero.
pub(crate) fn scaled(length: i64, component: i64) -> (r: i64)
    requires
        0 <= length <= 5 * u32::MAX,
        -UNIT <= component <= UNIT,
    ensures
        r == spec_div_towards_zero(length * component, UNIT as int),
        -length <= r <= length,
{
    proof {
        lemma_scaled_bound(length as int, component as int);
    }
    div_towards_zero(length * component, UNIT)
}

/// A length times a component in `[-1, 1]` is no longer than the length.
proof fn lemma_scaled_bound(length: int, component: int)
    requires
        0 <= length,
        -UNIT <= component <= UNIT,
    ensures
        -length * UNIT <= length * component <= length * UNIT,
        -length <= spec_div_towards_zero(length * component, UNIT as int) <= length,
{
    assert(-length * UNIT <= length * component <= length * UNIT) by (nonlinear_arith)
        requires
            0 <= length,
            -UNIT <= component <= UNIT,
    ;
    let n = length * component;
    if n >= 0 {
        assert(n / (UNIT as int) <= length);
    } else {
        assert((-n) / (UNIT as int) <= length);
    }
}

/// Within the maximum range the radial distance is at most the zoomed radius.
proof fn lemma_radial_bound(distance: int, radius: int, scale: int, max_range: int)
    by (nonlinear_arith)
    requires
        0 <= distance <= max_range,
        0 <= radius,
        0 <= scale,
        0 < max_range,
    ensures
        0 <= (distance * radius * scale) / (max_range * 1000),
        1000 * ((distance * radius * scale) / (max_range * 1000)) <= radius * scale,
{
}

/// A point is shown exactly when it is within the maximum range, whatever
/// the zoom factor: a point farther away than the maximum range is never
/// projected, and any other point always is.
pub proof fn lemma_range_decides_visibility(frame: RadarFrame, point: Polar)
    ensures
        point.distance > frame.spec_max_range() ==> frame.spec_project(&point) is None,
        point.distance <= frame.spec_max_range() ==> frame.spec_project(&point) is Some,
{
}

/// A point within the maximum range is projected no farther from the centre
/// than the zoomed radius of the disc, `pixel_radius * scale / 1000`.
pub proof fn lemma_projection_within_disc(frame: RadarFrame, point: Polar)
    requires
        frame.inv(),
        point.bearing.inv(),
        point.distance <= frame.spec_max_range(),
    ensures
        frame.spec_project(&point) is Some,
        ({
            let p = frame.spec_project(&point)->0;
            let dx = p.x - frame.spec_center().x;
            let dy = p.y - frame.spec_center().y;
            let reach = frame.spec_pixel_radius() * frame.spec_scale();
            1000 * 1000 * (dx * dx + dy * dy) <= reach * reach
        }),
{
    let r = frame.spec_radial(point.distance as int);
    let sin = point.bearing.spec_sin() as int;
    let cos = point.bearing.spec_cos() as int;
    let reach = frame.spec_pixel_radius() * frame.spec_scale();
    let ox = spec_div_towards_zero(r * sin, UNIT as int);
    let oy = spec_div_towards_zero(r * cos, UNIT as int);
    let u2 = UNIT * UNIT;
    if frame.spec_max_range() == 0 {
        assert(reach >= 0) by (nonlinear_arith)
            requires
                reach == frame.spec_pixel_radius() * frame.spec_scale(),
        ;
    } else {
        lemma_radial_bound(
            point.distance as int,
            frame.spec_pixel_radius() as int,
            frame.spec_scale() as int,
            frame.spec_max_range() as int,
        );
    }
    assert(0 <= 1000 * r <= reach);
    assert(reach <= u32::MAX * 5000) by (nonlinear_arith)
        requires
            reach == frame.spec_pixel_radius() * frame.spec_scale(),
            frame.spec_scale() <= 5000,
    ;
    lemma_component_bound(sin, cos);
    lemma_component_bound(cos, sin);
    lemma_scaled_bound(r, sin);
    lemma_scaled_bound(r, cos);
    let p = frame.spec_project(&point)->0;
    assert(p.x - frame.spec_center().x == ox);
    assert(p.y - frame.spec_center().y == -oy);
    lemma_rounded_square(r * sin, UNIT as int);
    lemma_rounded_square(r * cos, UNIT as int);
    lemma_square_of_product(r, sin);
    lemma_square_of_product(r, cos);
    assert(ox * ox + oy * oy <= r * r) by (nonlinear_arith)
        requires
            ox * ox * u2 <= (r * r) * (sin * sin),
            oy * oy * u2 <= (r * r) * (cos * cos),
            sin * sin + cos * cos <= u2,
            u2 > 0,
    ;
    assert((-oy) * (-oy) == oy * oy) by (nonlinear_arith);
    assert(1000 * 1000 * (r * r) <= reach * reach) by (nonlinear_arith)
        requires
            0 <= 1000 * r <= reach,
    ;
    let dx = p.x - frame.spec_center().x;
    let dy = p.y - frame.spec_center().y;
    assert(1000 * 1000 * (dx * dx + dy * dy) <= reach * reach) by (nonlinear_arith)
        requires
            dx == ox,
            dy == -oy,
            ox * ox + oy * oy <= r * r,
            1000 * 1000 * (r * r) <= reach * reach,
    ;
}

/// The reference location, at distance zero, is projected exactly onto the
/// centre of the disc, whatever bearing it is given.
pub proof fn lemma_reference_projects_to_center(frame: RadarFrame, bearing: Direction)
    ensures
        frame.spec_project(&Polar { distance: 0, bearing }) == Some(frame.spec_center()),
{
    let r = frame.spec_radial(0);
    assert(0 * frame.spec_pixel_radius() * frame.spec_scale() == 0) by (nonlinear_arith);
    assert(r == 0) by {
        if frame.spec_max_range() != 0 {
            assert(0int / (frame.spec_max_range() * 1000) == 0);
        }
    }
    assert(r * bearing.spec_sin() == 0) by (nonlinear_arith)
        requires
            r == 0,
    ;
    assert(r * bearing.spec_cos() == 0) by (nonlinear_arith)
        requires
            r == 0,
    ;
}

/// The projection is linear in range: a point twice as far away is drawn at
/// twice the radius, up to the one step lost to rounding.
pub proof fn lemma_radial_is_linear(frame: RadarFrame, distance: nat)
    ensures
        2 * frame.spec_radial(distance as int) <= frame.spec_radial(2 * (distance as int)) <= 2
            * frame.spec_radial(distance as int) + 1,
{
    if frame.spec_max_range() != 0 {
        let n = distance * frame.spec_pixel_radius() * frame.spec_scale();
        let d = frame.spec_max_range() * 1000;
        assert((2 * distance) * frame.spec_pixel_radius() * frame.spec_scale() == 2 * n)
            by (nonlinear_arith)
            requires
                n == distance * frame.spec_pixel_radius() * frame.spec_scale(),
        ;
        lemma_double_quotient(n, d);
    }
}

/// Doubling the number divided doubles the quotient, up to one.
proof fn lemma_double_quotient(n: int, d: int)
    by (nonlinear_arith)
    requires
        d > 0,
    ensures
        2 * (n / d) <= (2 * n) / d <= 2 * (n / d) + 1,
{
}

} // verus!
