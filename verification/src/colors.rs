use vstd::prelude::*;

verus! {

/// A color with per-mille components: 0 is dark, 1000 is full.
#[derive(Clone, Copy, Debug, PartialEq, Eq, Structural)]
pub struct Rgba {
    pub r: i64,
    pub g: i64,
    pub b: i64,
    pub a: i64,
}

impl Rgba {
    pub open spec fn wf(self) -> bool {
        0 <= self.r <= 1000 && 0 <= self.g <= 1000 && 0 <= self.b <= 1000 && 0 <= self.a <= 1000
    }

    /// The same color under another alpha.
    pub open spec fn spec_with_alpha(self, a: i64) -> Rgba {
        Rgba { r: self.r, g: self.g, b: self.b, a }
    }

    pub fn with_alpha(self, a: i64) -> (c: Rgba)
        ensures
            c == self.spec_with_alpha(a),
    {
        Rgba { r: self.r, g: self.g, b: self.b, a }
    }

}

/// The palette an enemy's color is taken from, indexed by its level
/// reduced modulo the palette's size.
pub open spec fn spec_palette(level: int) -> Rgba {
    let i = level % 7;
    if i == 0 {
        Rgba { r: 1000, g: 0, b: 1000, a: 1000 }
    } else if i == 1 {
        Rgba { r: 500, g: 0, b: 1000, a: 1000 }
    } else if i == 2 {
        Rgba { r: 1000, g: 0, b: 500, a: 1000 }
    } else if i == 3 {
        Rgba { r: 0, g: 0, b: 1000, a: 1000 }
    } else if i == 4 {
        Rgba { r: 0, g: 1000, b: 0, a: 1000 }
    } else if i == 5 {
        Rgba { r: 1000, g: 500, b: 0, a: 1000 }
    } else {
        Rgba { r: 1000, g: 0, b: 0, a: 1000 }
    }
}

pub fn palette(level: u64) -> (c: Rgba)
    ensures
        c == spec_palette(level as int),
        c.wf(),
{
    let i: u64 = level % 7;
    if i == 0 {
        Rgba { r: 1000, g: 0, b: 1000, a: 1000 }
    } else if i == 1 {
        Rgba { r: 500, g: 0, b: 1000, a: 1000 }
    } else if i == 2 {
        Rgba { r: 1000, g: 0, b: 500, a: 1000 }
    } else if i == 3 {
        Rgba { r: 0, g: 0, b: 1000, a: 1000 }
    } else if i == 4 {
        Rgba { r: 0, g: 1000, b: 0, a: 1000 }
    } else if i == 5 {
        Rgba { r: 1000, g: 500, b: 0, a: 1000 }
    } else {
        Rgba { r: 1000, g: 0, b: 0, a: 1000 }
    }
}

/// A per-mille product of two per-mille fractions.
fn mulmil_u(a: u64, b: u64) -> (r: u64)
    requires
        a <= 1000,
        b <= 1000,
    ensures
        r == (a as int) * (b as int) / 1000,
        r <= 1000,
{
    proof {
        assert(0 <= (a as int) * (b as int) <= 1_000_000 && (a as int) * (b as int) / 1000 <= 1000)
            by (nonlinear_arith)
            requires
                0 <= (a as int) <= 1000,
                0 <= (b as int) <= 1000,
        ;
    }
    (a * b) / 1000
}

/// The color a hue/saturation/value triple denotes, hue in milli-degrees
/// and the rest per-mille.  A zero saturation gives the grey of the value;
/// otherwise the hue's position inside its sixty-degree sector sets the
/// secondary component of a red-led triple.
pub open spec fn spec_hsv2rgb(h: int, s: int, v: int) -> Rgba {
    if s <= 0 {
        Rgba { r: v as i64, g: v as i64, b: v as i64, a: 1000 }
    } else {
        let hh = if h >= 360_000 {
            0
        } else {
            h
        };
        let ff = (hh % 60_000) / 60;
        let p = v * (1000 - s) / 1000;
        let t = v * (1000 - s * (1000 - ff) / 1000) / 1000;
        Rgba { r: v as i64, g: t as i64, b: p as i64, a: 1000 }
    }
}

pub fn hsv2rgb(h: i64, s: i64, v: i64) -> (c: Rgba)
    requires
        0 <= h <= 2_000_000,
        0 <= s <= 1000,
        0 <= v <= 1000,
    ensures
        c == spec_hsv2rgb(h as int, s as int, v as int),
        c.wf(),
{
    if s <= 0 {
        return Rgba { r: v, g: v, b: v, a: 1000 };
    }
    let hh: u64 = if h >= 360_000 {
        0
    } else {
        h as u64
    };
    let ff: u64 = (hh % 60_000) / 60;
    let p: u64 = mulmil_u(v as u64, (1000 - s) as u64);
    let t: u64 = mulmil_u(v as u64, 1000 - mulmil_u(s as u64, 1000 - ff));
    Rgba { r: v, g: t as i64, b: p as i64, a: 1000 }
}

} // verus!
