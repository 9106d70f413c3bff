use vstd::prelude::*;
use vstd::arithmetic::div_mod::lemma_mod_multiples_vanish;

verus! {

/// Largest magnitude a coordinate may take, in milli-pixels.  Positions are
/// saturated into this range when integrated; live entities sit far inside it.
pub const COORD_MAX: i64 = 100_000_000;

/// Largest magnitude a per-tick speed or velocity component may take,
/// in milli-pixels per tick.
pub const SPEED_MAX: i64 = 100_000_000;

/// A full turn, in milli-degrees.
pub const TURN: i64 = 360_000;

/// A point or displacement of the plane, in milli-pixels.
#[derive(Clone, Copy, Debug, PartialEq, Eq, Structural)]
pub struct Vec2 {
    pub x: i64,
    pub y: i64,
}

impl Vec2 {
    /// Both coordinates lie within the simulation's coordinate range.
    pub open spec fn wf(self) -> bool {
        -COORD_MAX <= self.x <= COORD_MAX && -COORD_MAX <= self.y <= COORD_MAX
    }

    /// Both components lie within the speed range.
    pub open spec fn wf_vel(self) -> bool {
        -SPEED_MAX <= self.x <= SPEED_MAX && -SPEED_MAX <= self.y <= SPEED_MAX
    }
}

pub open spec fn spec_abs(v: int) -> int {
    if v < 0 {
        -v
    } else {
        v
    }
}

/// Saturate a value into the coordinate range.
pub open spec fn sat_coord(v: int) -> int {
    if v < -COORD_MAX {
        -COORD_MAX as int
    } else if v > COORD_MAX {
        COORD_MAX as int
    } else {
        v
    }
}

/// Saturate a value into the speed range.
pub open spec fn sat_speed(v: int) -> int {
    if v < -SPEED_MAX {
        -SPEED_MAX as int
    } else if v > SPEED_MAX {
        SPEED_MAX as int
    } else {
        v
    }
}

pub fn coord_sat(v: i64) -> (r: i64)
    ensures
        r == sat_coord(v as int),
{
    if v < -COORD_MAX {
        -COORD_MAX
    } else if v > COORD_MAX {
        COORD_MAX
    } else {
        v
    }
}

pub fn speed_sat(v: i64) -> (r: i64)
    ensures
        r == sat_speed(v as int),
{
    if v < -SPEED_MAX {
        -SPEED_MAX
    } else if v > SPEED_MAX {
        SPEED_MAX
    } else {
        v
    }
}

/// Integrate a position by two displacements, saturating each coordinate.
pub open spec fn spec_translate2(p: Vec2, a: Vec2, b: Vec2) -> Vec2 {
    Vec2 {
        x: sat_coord(p.x + a.x + b.x) as i64,
        y: sat_coord(p.y + a.y + b.y) as i64,
    }
}

/// Integrate a position by one displacement, saturating each coordinate.
pub open spec fn spec_translate(p: Vec2, a: Vec2) -> Vec2 {
    spec_translate2(p, a, Vec2 { x: 0, y: 0 })
}

pub fn translate2(p: Vec2, a: Vec2, b: Vec2) -> (r: Vec2)
    requires
        p.wf(),
        -4 * COORD_MAX <= a.x + b.x <= 4 * COORD_MAX,
        -4 * COORD_MAX <= a.y + b.y <= 4 * COORD_MAX,
        -2 * COORD_MAX <= a.x <= 2 * COORD_MAX,
        -2 * COORD_MAX <= a.y <= 2 * COORD_MAX,
    ensures
        r == spec_translate2(p, a, b),
        r.wf(),
{
    Vec2 { x: coord_sat(p.x + a.x + b.x), y: coord_sat(p.y + a.y + b.y) }
}

pub fn translate(p: Vec2, a: Vec2) -> (r: Vec2)
    requires
        p.wf(),
        -2 * COORD_MAX <= a.x <= 2 * COORD_MAX,
        -2 * COORD_MAX <= a.y <= 2 * COORD_MAX,
    ensures
        r == spec_translate(p, a),
        r.wf(),
{
    Vec2 { x: coord_sat(p.x + a.x), y: coord_sat(p.y + a.y) }
}

/// The product of two fixed-point quantities, scaled back down by the
/// per-mille unit, rounding toward zero.
pub open spec fn spec_mul_mil(a: int, b: int) -> int {
    let p = a * b;
    if p >= 0 {
        p / 1000
    } else {
        -((-p) / 1000)
    }
}

pub fn mul_mil(a: i64, b: i64) -> (r: i64)
    requires
        -1_000_000_000_000 <= a <= 1_000_000_000_000,
        -1000 <= b <= 1000,
    ensures
        r == spec_mul_mil(a as int, b as int),
        spec_abs(r as int) <= spec_abs(a as int),
{
    let ma: u64 = if a < 0 {
        (-a) as u64
    } else {
        a as u64
    };
    let mb: u64 = if b < 0 {
        (-b) as u64
    } else {
        b as u64
    };
    proof {
        assert(ma == spec_abs(a as int) && mb == spec_abs(b as int));
        assert(ma * mb <= 1_000_000_000_000_000 && (mb <= 1000 ==> ma * mb <= 1000 * ma)) by (
        nonlinear_arith)
            requires
                ma <= 1_000_000_000_000,
                mb <= 1000,
        ;
    }
    let q: u64 = (ma * mb) / 1000;
    let r: i64 = if (a < 0) != (b < 0) {
        -(q as i64)
    } else {
        q as i64
    };
    proof {
        let ai = a as int;
        let bi = b as int;
        if a >= 0 && b >= 0 {
            assert(ai * bi >= 0 && ai * bi == ma * mb) by (nonlinear_arith)
                requires
                    ai >= 0,
                    bi >= 0,
                    ma == ai,
                    mb == bi,
            ;
        } else if a < 0 && b < 0 {
            assert(ai * bi >= 0 && ai * bi == ma * mb) by (nonlinear_arith)
                requires
                    ai < 0,
                    bi < 0,
                    ma == -ai,
                    mb == -bi,
            ;
        } else if a < 0 {
            assert(ai * bi <= 0 && -(ai * bi) == ma * mb) by (nonlinear_arith)
                requires
                    ai < 0,
                    bi >= 0,
                    ma == -ai,
                    mb == bi,
            ;
        } else {
            assert(ai * bi <= 0 && -(ai * bi) == ma * mb) by (nonlinear_arith)
                requires
                    ai >= 0,
                    bi < 0,
                    ma == ai,
                    mb == -bi,
            ;
        }
        assert(ma * mb <= 1000 * ma ==> ma * mb / 1000 <= 1000 * ma / 1000 && 1000 * ma / 1000
            == ma) by (nonlinear_arith);
        assert(q <= ma);
        assert(r == spec_mul_mil(ai, bi));
    }
    r
}

/// As `mul_mil`, for a second factor beyond the per-mille range; the
/// first factor is bounded more tightly instead.
pub fn mul_mil_wide(a: i64, b: i64) -> (r: i64)
    requires
        -1_000_000_000 <= a <= 1_000_000_000,
        -1_000_000 <= b <= 1_000_000,
    ensures
        r == spec_mul_mil(a as int, b as int),
        -1_000_000_000_000 <= r <= 1_000_000_000_000,
{
    let ma: u64 = if a < 0 {
        (-a) as u64
    } else {
        a as u64
    };
    let mb: u64 = if b < 0 {
        (-b) as u64
    } else {
        b as u64
    };
    proof {
        assert(ma * mb <= 1_000_000_000_000_000) by (nonlinear_arith)
            requires
                ma <= 1_000_000_000,
                mb <= 1_000_000,
        ;
    }
    let q: u64 = (ma * mb) / 1000;
    let r: i64 = if (a < 0) != (b < 0) {
        -(q as i64)
    } else {
        q as i64
    };
    proof {
        let ai = a as int;
        let bi = b as int;
        if a >= 0 && b >= 0 {
            assert(ai * bi >= 0 && ai * bi == ma * mb) by (nonlinear_arith)
                requires
                    ai >= 0,
                    bi >= 0,
                    ma == ai,
                    mb == bi,
            ;
        } else if a < 0 && b < 0 {
            assert(ai * bi >= 0 && ai * bi == ma * mb) by (nonlinear_arith)
                requires
                    ai < 0,
                    bi < 0,
                    ma == -ai,
                    mb == -bi,
            ;
        } else if a < 0 {
            assert(ai * bi <= 0 && -(ai * bi) == ma * mb) by (nonlinear_arith)
                requires
                    ai < 0,
                    bi >= 0,
                    ma == -ai,
                    mb == bi,
            ;
        } else {
            assert(ai * bi <= 0 && -(ai * bi) == ma * mb) by (nonlinear_arith)
                requires
                    ai >= 0,
                    bi < 0,
                    ma == ai,
                    mb == -bi,
            ;
        }
        assert(r == spec_mul_mil(ai, bi));
    }
    r
}

/// A per-mille product never grows the first factor's magnitude.
pub proof fn lemma_mul_mil_bound(a: int, b: int)
    requires
        -1000 <= b <= 1000,
    ensures
        spec_abs(spec_mul_mil(a, b)) <= spec_abs(a),
{
    let m = if a < 0 {
        -a
    } else {
        a
    };
    let p = a * b;
    assert(0 - 1000 * m <= p && p <= 1000 * m) by (nonlinear_arith)
        requires
            -1000 <= b <= 1000,
            p == a * b,
            m >= 0,
            m == a || m == -a,
    ;
    if p >= 0 {
        assert(p / 1000 <= m) by (nonlinear_arith)
            requires
                0 <= p <= 1000 * m,
        ;
    } else {
        assert((-p) / 1000 <= m) by (nonlinear_arith)
            requires
                0 <= -p <= 1000 * m,
        ;
    }
}

/// Squared distance between two points, in squared milli-pixels.
pub open spec fn spec_len2(a: Vec2, b: Vec2) -> int {
    (a.x - b.x) * (a.x - b.x) + (a.y - b.y) * (a.y - b.y)
}

pub fn len2(a: Vec2, b: Vec2) -> (r: i64)
    requires
        a.wf(),
        b.wf(),
    ensures
        r == spec_len2(a, b),
        r >= 0,
{
    let dx: i64 = a.x - b.x;
    let dy: i64 = a.y - b.y;
    proof {
        assert(dx * dx <= 4 * COORD_MAX * COORD_MAX && dx * dx >= 0 && dy * dy <= 4 * COORD_MAX
            * COORD_MAX && dy * dy >= 0) by (nonlinear_arith)
            requires
                -2 * COORD_MAX <= dx <= 2 * COORD_MAX,
                -2 * COORD_MAX <= dy <= 2 * COORD_MAX,
        ;
    }
    dx * dx + dy * dy
}

/// Sine on [0, half-turn], per-mille, by the classical rational
/// approximation `4x(180 - x) / (40500 - x(180 - x))` carried to
/// milli-degrees; it is exact at 0, 90 and 180 degrees.
pub open spec fn spec_sin_half(a: int) -> int {
    (4000 * (a * (180_000 - a))) / (40_500_000_000 - a * (180_000 - a))
}

proof fn lemma_sin_half_core(a: int)
    requires
        0 <= a <= 180_000,
    ensures
        0 <= a * (180_000 - a) <= 8_100_000_000,
        0 <= spec_sin_half(a) <= 1000,
{
    assert(0 <= a * (180_000 - a) <= 8_100_000_000) by (nonlinear_arith)
        requires
            0 <= a <= 180_000,
    ;
    let p = a * (180_000 - a);
    let den = 40_500_000_000 - p;
    let num = 4000 * p;
    assert(0 <= num / den <= 1000) by (nonlinear_arith)
        requires
            0 <= p <= 8_100_000_000,
            den == 40_500_000_000 - p,
            num == 4000 * p,
    ;
}

/// Sine of a normalized angle, per-mille.
pub open spec fn spec_sin(a: int) -> int {
    if a <= 180_000 {
        spec_sin_half(a)
    } else {
        -spec_sin_half(a - 180_000)
    }
}

/// Cosine of a normalized angle, per-mille.
pub open spec fn spec_cos(a: int) -> int {
    spec_sin((a + 90_000) % (TURN as int))
}

pub proof fn lemma_sin_bounds(a: int)
    requires
        0 <= a < TURN,
    ensures
        -1000 <= spec_sin(a) <= 1000,
{
    if a <= 180_000 {
        lemma_sin_half_core(a);
    } else {
        lemma_sin_half_core(a - 180_000);
    }
}

pub proof fn lemma_cos_bounds(a: int)
    requires
        0 <= a < TURN,
    ensures
        -1000 <= spec_cos(a) <= 1000,
{
    lemma_sin_bounds((a + 90_000) % (TURN as int));
}

pub fn sin_mil(a: i64) -> (r: i64)
    requires
        0 <= a < TURN,
    ensures
        r == spec_sin(a as int),
        -1000 <= r <= 1000,
{
    proof {
        lemma_sin_bounds(a as int);
    }
    if a <= 180_000 {
        sin_half(a)
    } else {
        -sin_half(a - 180_000)
    }
}

fn sin_half(a: i64) -> (r: i64)
    requires
        0 <= a <= 180_000,
    ensures
        r == spec_sin_half(a as int),
        0 <= r <= 1000,
{
    proof {
        lemma_sin_half_core(a as int);
        assert((a as int) * ((180_000 - a) as int) == (a as int) * (180_000 - a as int)) by (
        nonlinear_arith)
        ;
    }
    let p: u64 = (a as u64) * ((180_000 - a) as u64);
    let num: u64 = 4000 * p;
    let den: u64 = 40_500_000_000 - p;
    (num / den) as i64
}

pub fn cos_mil(a: i64) -> (r: i64)
    requires
        0 <= a < TURN,
    ensures
        r == spec_cos(a as int),
        -1000 <= r <= 1000,
{
    let shifted: i64 = (((a + 90_000) as u64) % (TURN as u64)) as i64;
    proof {
        lemma_cos_bounds(a as int);
    }
    sin_mil(shifted)
}

/// The unit direction of an angle, scaled per-mille: `(cos a, sin a)`.
pub open spec fn spec_dir(a: int) -> Vec2 {
    Vec2 { x: spec_cos(a) as i64, y: spec_sin(a) as i64 }
}

pub fn dir_mil(a: i64) -> (r: Vec2)
    requires
        0 <= a < TURN,
    ensures
        r == spec_dir(a as int),
        -1000 <= r.x <= 1000,
        -1000 <= r.y <= 1000,
{
    Vec2 { x: cos_mil(a), y: sin_mil(a) }
}

/// The direction of an angle scaled by a fixed-point length.
pub open spec fn spec_polar(a: int, len: int) -> Vec2 {
    Vec2 {
        x: spec_mul_mil(len, spec_cos(a)) as i64,
        y: spec_mul_mil(len, spec_sin(a)) as i64,
    }
}

pub fn polar(a: i64, len: i64) -> (r: Vec2)
    requires
        0 <= a < TURN,
        -1_000_000_000_000 <= len <= 1_000_000_000_000,
    ensures
        r == spec_polar(a as int, len as int),
        spec_abs(r.x as int) <= spec_abs(len as int),
        spec_abs(r.y as int) <= spec_abs(len as int),
{
    proof {
        lemma_sin_bounds(a as int);
        lemma_cos_bounds(a as int);
    }
    let d = dir_mil(a);
    Vec2 { x: mul_mil(len, d.x), y: mul_mil(len, d.y) }
}

/// An angle plus a bounded signed offset, brought back into [0, TURN).
pub open spec fn spec_norm_angle(v: int) -> int {
    v % (TURN as int)
}

pub fn norm_angle_add(a: i64, d: i64) -> (r: i64)
    requires
        0 <= a < TURN,
        -10_000_000 <= d <= 10_000_000,
    ensures
        r == spec_norm_angle(a + d),
        0 <= r < TURN,
{
    let t: i64 = a + d + 10_080_000;
    let r: i64 = ((t as u64) % (TURN as u64)) as i64;
    proof {
        lemma_mod_multiples_vanish(28, (a + d) as int, TURN as int);
        assert(t == TURN * 28 + (a + d));
    }
    r
}

/// Normalizing before adding changes nothing modulo a turn.
pub proof fn lemma_norm_angle_add_assoc(x: int, y: int)
    ensures
        spec_norm_angle(spec_norm_angle(x) + y) == spec_norm_angle(x + y),
{
    vstd::arithmetic::div_mod::lemma_add_mod_noop_right(y, x, TURN as int);
    assert(spec_norm_angle(x) + y == y + (x % (TURN as int)));
}

/// Shifting by one full turn changes nothing modulo a turn.
pub proof fn lemma_mod_vanish_once(x: int)
    ensures
        (x + TURN) % (TURN as int) == x % (TURN as int),
{
    lemma_mod_multiples_vanish(1, x, TURN as int);
}

/// Arctangent of a per-mille slope in [0, 1], in milli-degrees in [0, 45000];
/// a linear term with a small symmetric correction.
pub open spec fn spec_atan_frac(z: int) -> int {
    45 * z + (15_640 * (z * (1000 - z))) / 1_000_000
}

proof fn lemma_atan_frac_bounds(z: int)
    requires
        0 <= z <= 1000,
    ensures
        0 <= spec_atan_frac(z) <= 49_000,
        z == 1000 ==> spec_atan_frac(z) == 45_000,
        z == 0 ==> spec_atan_frac(z) == 0,
{
    assert(0 <= z * (1000 - z) <= 250_000) by (nonlinear_arith)
        requires
            0 <= z <= 1000,
    ;
    let p = z * (1000 - z);
    assert(0 <= 15_640 * p / 1_000_000 <= 3910) by (nonlinear_arith)
        requires
            0 <= p <= 250_000,
    ;
}

fn atan_frac(z: i64) -> (r: i64)
    requires
        0 <= z <= 1000,
    ensures
        r == spec_atan_frac(z as int),
        0 <= r <= 49_000,
{
    proof {
        lemma_atan_frac_bounds(z as int);
        assert((z as int) * ((1000 - z) as int) == (z as int) * (1000 - z as int)) by (
        nonlinear_arith)
        ;
    }
    let p: u64 = (z as u64) * ((1000 - z) as u64);
    45 * z + ((15_640 * p) / 1_000_000) as i64
}

/// The angle of the vector (x, y), in milli-degrees in [0, TURN), with
/// octant reduction over `spec_atan_frac`; the zero vector maps to 0.
pub open spec fn spec_atan2(y: int, x: int) -> int {
    if x == 0 && y == 0 {
        0
    } else {
        let ax = spec_abs(x);
        let ay = spec_abs(y);
        let base = if ax >= ay {
            spec_atan_frac((ay * 1000) / ax)
        } else {
            90_000 - spec_atan_frac((ax * 1000) / ay)
        };
        let q = if x >= 0 && y >= 0 {
            base
        } else if x < 0 && y >= 0 {
            180_000 - base
        } else if x < 0 && y < 0 {
            180_000 + base
        } else {
            360_000 - base
        };
        q % (TURN as int)
    }
}

pub proof fn lemma_atan2_bounds(y: int, x: int)
    ensures
        0 <= spec_atan2(y, x) < TURN,
{
    if x == 0 && y == 0 {
    } else {
        let ax = spec_abs(x);
        let ay = spec_abs(y);
        if ax >= ay {
            assert(0 <= ay * 1000 <= ax * 1000) by (nonlinear_arith)
                requires
                    0 <= ay <= ax,
            ;
            assert(ay * 1000 / ax <= ax * 1000 / ax && ax * 1000 / ax == 1000 && ay * 1000 / ax
                >= 0) by (nonlinear_arith)
                requires
                    0 <= ay * 1000 <= ax * 1000,
                    ax > 0,
            ;
            lemma_atan_frac_bounds((ay * 1000) / ax);
        } else {
            assert(0 <= ax * 1000 <= ay * 1000) by (nonlinear_arith)
                requires
                    0 <= ax <= ay,
            ;
            assert(ax * 1000 / ay <= ay * 1000 / ay && ay * 1000 / ay == 1000 && ax * 1000 / ay
                >= 0) by (nonlinear_arith)
                requires
                    0 <= ax * 1000 <= ay * 1000,
                    ay > 0,
            ;
            lemma_atan_frac_bounds((ax * 1000) / ay);
        }
    }
}

pub fn atan2_mil(y: i64, x: i64) -> (r: i64)
    requires
        -1_000_000_000 <= x <= 1_000_000_000,
        -1_000_000_000 <= y <= 1_000_000_000,
    ensures
        r == spec_atan2(y as int, x as int),
        0 <= r < TURN,
{
    proof {
        lemma_atan2_bounds(y as int, x as int);
    }
    if x == 0 && y == 0 {
        return 0;
    }
    let ax: u64 = if x < 0 {
        (-x) as u64
    } else {
        x as u64
    };
    let ay: u64 = if y < 0 {
        (-y) as u64
    } else {
        y as u64
    };
    let base: i64 = if ax >= ay {
        proof {
            assert(((ay as int) * 1000) / (ax as int) <= 1000 && ((ay as int) * 1000) / (
            ax as int) >= 0) by (nonlinear_arith)
                requires
                    0 < (ax as int) <= 1_000_000_000,
                    0 <= (ay as int) <= (ax as int),
            ;
        }
        atan_frac(((ay * 1000) / ax) as i64)
    } else {
        proof {
            assert(((ax as int) * 1000) / (ay as int) <= 1000 && ((ax as int) * 1000) / (
            ay as int) >= 0) by (nonlinear_arith)
                requires
                    0 < (ay as int) <= 1_000_000_000,
                    0 <= (ax as int) < (ay as int),
            ;
        }
        90_000 - atan_frac(((ax * 1000) / ay) as i64)
    };
    let q: i64 = if x >= 0 && y >= 0 {
        base
    } else if x < 0 && y >= 0 {
        180_000 - base
    } else if x < 0 && y < 0 {
        180_000 + base
    } else {
        360_000 - base
    };
    if q == 360_000 {
        0
    } else {
        q
    }
}

/// Whether a point lies inside the screen extended by a 50-pixel margin.
pub open spec fn spec_in_screen(p: Vec2) -> bool {
    p.x > -50_000 && p.y > -50_000 && p.x < crate::FIELD_W + 50_000 && p.y < crate::FIELD_H
        + 50_000
}

pub fn in_screen(pos: &Vec2) -> (r: bool)
    ensures
        r == spec_in_screen(*pos),
{
    pos.x > -50_000 && pos.y > -50_000 && pos.x < crate::FIELD_W + 50_000 && pos.y < crate::FIELD_H
        + 50_000
}

/// What it means for `r` to be the integer square root of `x`.
pub open spec fn is_isqrt(x: int, r: int) -> bool {
    0 <= r && r * r <= x < (r + 1) * (r + 1)
}

/// The integer square root, as a value: the unique non-negative `r`
/// with `r * r <= x < (r + 1) * (r + 1)`.
pub open spec fn spec_isqrt(x: int) -> int {
    choose|r: int| is_isqrt(x, r)
}

pub proof fn lemma_isqrt_unique(x: int, r1: int, r2: int)
    requires
        0 <= r1,
        r1 * r1 <= x < (r1 + 1) * (r1 + 1),
        0 <= r2,
        r2 * r2 <= x < (r2 + 1) * (r2 + 1),
    ensures
        r1 == r2,
{
    assert(r1 == r2) by (nonlinear_arith)
        requires
            0 <= r1,
            r1 * r1 <= x < (r1 + 1) * (r1 + 1),
            0 <= r2,
            r2 * r2 <= x < (r2 + 1) * (r2 + 1),
    ;
}

/// Integer square root: the greatest `r` with `r * r <= x`.
pub fn sqrti(x: u64) -> (r: u64)
    ensures
        r * r <= x < (r + 1) * (r + 1),
        r == spec_isqrt(x as int),
{
    let mut lo: u64 = 0;
    let mut hi: u64 = 4_294_967_296;
    proof {
        assert((4_294_967_296 as int) * (4_294_967_296 as int) > u64::MAX as int) by (
        nonlinear_arith)
        ;
    }
    while lo + 1 < hi
        invariant
            lo < hi <= 4_294_967_296,
            lo * lo <= x,
            hi * hi > x,
        decreases hi - lo,
    {
        let mid: u64 = lo + (hi - lo) / 2;
        proof {
            assert((mid as int) * (mid as int) <= 4_294_967_296 * 4_294_967_296) by (
            nonlinear_arith)
                requires
                    0 <= (mid as int) <= 4_294_967_296,
            ;
        }
        let sq: u128 = (mid as u128) * (mid as u128);
        if sq <= x as u128 {
            lo = mid;
        } else {
            hi = mid;
        }
    }
    proof {
        assert(is_isqrt(x as int, lo as int));
        assert(is_isqrt(x as int, spec_isqrt(x as int))) by {
            assert(exists|r: int| is_isqrt(x as int, r));
        }
        lemma_isqrt_unique(x as int, lo as int, spec_isqrt(x as int));
    }
    lo
}

/// Saturate a displacement into the range `translate` accepts.
pub open spec fn sat_disp(v: int) -> int {
    if v < -2 * COORD_MAX {
        -2 * COORD_MAX
    } else if v > 2 * COORD_MAX {
        2 * COORD_MAX
    } else {
        v
    }
}

pub fn disp_sat(v: i64) -> (r: i64)
    ensures
        r == sat_disp(v as int),
        -2 * COORD_MAX <= r <= 2 * COORD_MAX,
{
    if v < -2 * COORD_MAX {
        -2 * COORD_MAX
    } else if v > 2 * COORD_MAX {
        2 * COORD_MAX
    } else {
        v
    }
}

/// `pow2(e)` as a spec.
pub open spec fn spec_pow2(e: nat) -> int
    decreases e,
{
    if e == 0 {
        1
    } else {
        2 * spec_pow2((e - 1) as nat)
    }
}

/// The integer part of a base-2 logarithm.
pub open spec fn spec_ilog2(n: int) -> nat
    decreases n,
{
    if n < 2 {
        0
    } else {
        1 + spec_ilog2(n / 2)
    }
}

/// Base-2 logarithm in milli-units: the integer part plus a linear
/// interpolation of the mantissa.
pub open spec fn spec_log2_mil(n: int) -> int {
    let e = spec_ilog2(n);
    spec_ilog2(n) * 1000 + (n - spec_pow2(e)) * 1000 / spec_pow2(e)
}

proof fn lemma_ilog2_unique(n: int, e: nat)
    requires
        n >= 1,
        spec_pow2(e) <= n < 2 * spec_pow2(e),
    ensures
        spec_ilog2(n) == e,
    decreases e,
{
    if e == 0 {
        assert(n == 1);
    } else {
        assert(spec_pow2(e) == 2 * spec_pow2((e - 1) as nat));
        assert(spec_pow2((e - 1) as nat) <= n / 2 < 2 * spec_pow2((e - 1) as nat));
        assert(spec_pow2((e - 1) as nat) >= 1) by {
            lemma_pow2_pos((e - 1) as nat);
        }
        lemma_ilog2_unique(n / 2, (e - 1) as nat);
    }
}

proof fn lemma_pow2_pos(e: nat)
    ensures
        spec_pow2(e) >= 1,
    decreases e,
{
    if e > 0 {
        lemma_pow2_pos((e - 1) as nat);
    }
}

pub fn log2_mil(n: u64) -> (r: u64)
    requires
        1 <= n <= 2_000_000_000_000_000,
    ensures
        r == spec_log2_mil(n as int),
{
    let mut e: u64 = 0;
    let mut p: u64 = 1;
    while p <= n / 2
        invariant
            1 <= p <= n,
            p == spec_pow2(e as nat),
            e < p,
        decreases n - p,
    {
        proof {
            assert(spec_pow2((e + 1) as nat) == 2 * spec_pow2(e as nat));
        }
        p = p * 2;
        e = e + 1;
    }
    proof {
        assert(2 * p > n) by {
            assert(p > n / 2);
        }
        lemma_ilog2_unique(n as int, e as nat);
    }
    e * 1000 + ((n - p) * 1000) / p
}

/// The integer log's defining property.
pub proof fn lemma_ilog2_range(n: int)
    requires
        n >= 1,
    ensures
        spec_pow2(spec_ilog2(n)) <= n < 2 * spec_pow2(spec_ilog2(n)),
    decreases n,
{
    if n < 2 {
    } else {
        lemma_ilog2_range(n / 2);
    }
}

/// On the values the simulation reaches, the milli-log is small.
pub proof fn lemma_log2_mil_bounds(n: int)
    requires
        1 <= n <= 2_000_000_000_000_000,
    ensures
        0 <= spec_log2_mil(n) <= 52_000,
{
    lemma_ilog2_range(n);
    let e = spec_ilog2(n);
    let p = spec_pow2(e);
    lemma_pow2_pos(e);
    assert(0 <= (n - p) * 1000 / p < 1000) by (nonlinear_arith)
        requires
            0 < p <= n < 2 * p,
    ;
    assert(e <= 51) by {
        if e >= 52 {
            lemma_pow2_mono(52, e);
            reveal_with_fuel(spec_pow2, 54);
            assert(spec_pow2(52) == 4_503_599_627_370_496);
        }
    }
}

proof fn lemma_pow2_mono(a: nat, b: nat)
    requires
        a <= b,
    ensures
        spec_pow2(a) <= spec_pow2(b),
    decreases b,
{
    if a < b {
        lemma_pow2_mono(a, (b - 1) as nat);
        lemma_pow2_pos((b - 1) as nat);
    }
}

} // verus!
