use vstd::prelude::*;
use crate::colors::Rgba;
use crate::geom::{
    Vec2, spec_mul_mil, spec_polar, spec_translate, spec_translate2, spec_norm_angle, sat_speed,
    sat_disp, spec_isqrt, spec_abs, mul_mil, mul_mil_wide, polar, translate, translate2,
    norm_angle_add, speed_sat, disp_sat, sqrti, TURN, SPEED_MAX,
};

verus! {

/// How a particle is rasterized: a filled disc of a given size factor, or
/// a four-vertex shard stretched along the particle's heading; the flag
/// says whether the shard takes the particle's own color.
#[derive(Clone, Copy, Debug, PartialEq, Eq, Structural)]
pub enum Shape {
    Circle(i64),
    Shard(i64, i64, bool),
}

impl Shape {
    pub open spec fn wf(self) -> bool {
        match self {
            Shape::Circle(size) => 0 <= size <= 1_000_000,
            Shape::Shard(size, ratio, _) => -200_000 <= size <= 200_000 && 0 <= ratio <= 10_000,
        }
    }
}

/// A purely cosmetic spark: position, polar velocity with damping and
/// acceleration, a constant directional bias, and its look.
#[derive(Clone, Copy, Debug, PartialEq, Eq, Structural)]
pub struct Particle {
    pub pos: Vec2,
    pub speed: i64,
    pub angle: i64,
    pub damp: i64,
    pub accel: i64,
    pub angular_vel: i64,
    pub bias: Vec2,
    pub shape: Shape,
    pub color: Rgba,
    pub alpha_scale: i64,
}

impl Particle {
    pub open spec fn wf(self) -> bool {
        &&& self.pos.wf()
        &&& -SPEED_MAX <= self.speed <= SPEED_MAX
        &&& 0 <= self.angle < TURN
        &&& 0 <= self.damp <= 1000
        &&& -SPEED_MAX <= self.accel <= SPEED_MAX
        &&& -1_000_000 <= self.angular_vel <= 1_000_000
        &&& self.bias.wf_vel()
        &&& self.shape.wf()
        &&& 1 <= self.alpha_scale <= 1_000_000
    }

    /// One tick of particle motion: integrate the position by the polar
    /// velocity and the bias, damp the speed after accelerating it, and
    /// advance the heading by the damped angular velocity.
    pub open spec fn spec_step(self) -> Particle {
        Particle {
            pos: spec_translate2(self.pos, spec_polar(self.angle as int, self.speed as int), self.bias),
            speed: sat_speed(spec_mul_mil(self.speed + self.accel, self.damp as int)) as i64,
            angle: spec_norm_angle(self.angle + self.angular_vel) as i64,
            angular_vel: spec_mul_mil(self.angular_vel as int, self.damp as int) as i64,
            ..self
        }
    }

    /// A particle stays only while it is still quick enough and near
    /// enough to the field.
    pub open spec fn spec_alive(self) -> bool {
        self.speed > 2000 && self.pos.x > -100_000 && self.pos.y > -100_000 && self.pos.x
            < 5_000_000 && self.pos.y < 5_000_000
    }

    /// Advance the particle one tick; the result says whether it stays.
    pub fn update(&mut self) -> (alive: bool)
        requires
            old(self).wf(),
        ensures
            *final(self) == old(self).spec_step(),
            final(self).wf(),
            alive == final(self).spec_alive(),
    {
        let disp = polar(self.angle, self.speed);
        self.pos = translate2(self.pos, disp, self.bias);
        self.speed = speed_sat(mul_mil(self.speed + self.accel, self.damp));
        self.angle = norm_angle_add(self.angle, self.angular_vel);
        self.angular_vel = mul_mil(self.angular_vel, self.damp);
        self.speed > 2000 && self.pos.x > -100_000 && self.pos.y > -100_000 && self.pos.x
            < 5_000_000 && self.pos.y < 5_000_000
    }
}

impl Default for Particle {
    /// A still white dot at the origin with neutral damping.
    fn default() -> (p: Particle)
        ensures
            p == Particle::spec_default(),
    {
        Particle {
            pos: Vec2 { x: 0, y: 0 },
            speed: 0,
            angle: 0,
            damp: 1000,
            accel: 0,
            angular_vel: 0,
            bias: Vec2 { x: 0, y: 0 },
            shape: Shape::Circle(1000),
            color: Rgba { r: 1000, g: 1000, b: 1000, a: 1000 },
            alpha_scale: 10_000,
        }
    }
}

impl Particle {
    pub open spec fn spec_default() -> Particle {
        Particle {
            pos: Vec2 { x: 0, y: 0 },
            speed: 0,
            angle: 0,
            damp: 1000,
            accel: 0,
            angular_vel: 0,
            bias: Vec2 { x: 0, y: 0 },
            shape: Shape::Circle(1000),
            color: Rgba { r: 1000, g: 1000, b: 1000, a: 1000 },
            alpha_scale: 10_000,
        }
    }
}

/// A rasterization order handed to the outside drawing layer: either a
/// filled disc, or a two-triangle shard given by four vertices, each with
/// its own color.
#[derive(Clone, Copy, Debug, PartialEq, Eq, Structural)]
pub enum DrawCmd {
    Circle { center: Vec2, radius: i64, color: Rgba },
    Shard {
        front: Vec2,
        left: Vec2,
        right: Vec2,
        back: Vec2,
        front_color: Rgba,
        left_color: Rgba,
        right_color: Rgba,
        back_color: Rgba,
    },
}

/// The square root of a speed, per-mille: `sqrt(s / 1000) * 1000`.
pub open spec fn spec_speed_sqrt(s: int) -> int {
    spec_isqrt(if s < 0 {
        0
    } else {
        s * 1000
    })
}

pub fn speed_sqrt(s: i64) -> (r: i64)
    requires
        -SPEED_MAX <= s <= SPEED_MAX,
    ensures
        r == spec_speed_sqrt(s as int),
        0 <= r <= 320_000,
{
    let x: u64 = if s < 0 {
        0
    } else {
        (s as u64) * 1000
    };
    let r: u64 = sqrti(x);
    proof {
        assert(r <= 320_000) by (nonlinear_arith)
            requires
                (r as int) * (r as int) <= x as int,
                x <= 100_000_000_000,
                r >= 0,
        ;
    }
    r as i64
}

impl Particle {
    /// The rasterization order of a particle, extrapolated forward by the
    /// per-mille fraction of the tick already elapsed.
    pub open spec fn spec_draw(self, prop: int) -> DrawCmd {
        let ahead = spec_translate(
            self.pos,
            spec_polar(self.angle as int, spec_mul_mil(self.speed as int, prop)),
        );
        match self.shape {
            Shape::Circle(size) => DrawCmd::Circle {
                center: ahead,
                radius: spec_mul_mil(size as int, spec_speed_sqrt(self.speed as int)) as i64,
                color: self.color.spec_with_alpha(
                    (1000 * (if self.speed < 0 {
                        0
                    } else {
                        self.speed as int
                    }) / self.alpha_scale as int) as i64,
                ),
            },
            Shape::Shard(size, ratio, own_color) => {
                let vel = Vec2 {
                    x: sat_disp(
                        spec_mul_mil(
                            spec_mul_mil(self.speed as int, size as int),
                            crate::geom::spec_cos(self.angle as int),
                        ),
                    ) as i64,
                    y: sat_disp(
                        spec_mul_mil(
                            spec_mul_mil(self.speed as int, size as int),
                            crate::geom::spec_sin(self.angle as int),
                        ),
                    ) as i64,
                };
                let cross = Vec2 { x: (-(vel.y as int)) as i64, y: vel.x };
                let backv = Vec2 {
                    x: sat_disp(-spec_mul_mil(vel.x as int, ratio as int)) as i64,
                    y: sat_disp(-spec_mul_mil(vel.y as int, ratio as int)) as i64,
                };
                DrawCmd::Shard {
                    front: spec_translate(self.pos, vel),
                    left: spec_translate(self.pos, cross),
                    right: spec_translate(
                        self.pos,
                        Vec2 { x: (-(cross.x as int)) as i64, y: (-(cross.y as int)) as i64 },
                    ),
                    back: spec_translate(self.pos, backv),
                    front_color: if own_color {
                        self.color
                    } else {
                        Rgba { r: 0, g: 1000, b: 0, a: 1000 }
                    },
                    left_color: if own_color {
                        self.color
                    } else {
                        Rgba { r: 1000, g: 0, b: 0, a: 1000 }
                    },
                    right_color: if own_color {
                        self.color
                    } else {
                        Rgba { r: 1000, g: 500, b: 0, a: 1000 }
                    },
                    back_color: if own_color {
                        self.color
                    } else {
                        Rgba { r: 0, g: 0, b: 1000, a: 0 }
                    },
                }
            },
        }
    }

    pub fn draw(&self, prop: i64) -> (cmd: DrawCmd)
        requires
            self.wf(),
            0 <= prop <= 1000,
        ensures
            cmd == self.spec_draw(prop as int),
    {
        let ahead = translate(self.pos, polar(self.angle, mul_mil(self.speed, prop)));
        match self.shape {
            Shape::Circle(size) => {
                let sq = speed_sqrt(self.speed);
                let radius = mul_mil_wide(size, sq);
                let sp: i64 = if self.speed < 0 {
                    0
                } else {
                    self.speed
                };
                let alpha: i64 = ((1000 * (sp as u64)) / (self.alpha_scale as u64)) as i64;
                DrawCmd::Circle { center: ahead, radius, color: self.color.with_alpha(alpha) }
            },
            Shape::Shard(size, ratio, own_color) => {
                proof {
                    crate::geom::lemma_sin_bounds(self.angle as int);
                    crate::geom::lemma_cos_bounds(self.angle as int);
                }
                let len = mul_mil_wide(self.speed, size);
                let d = crate::geom::dir_mil(self.angle);
                let vel = Vec2 { x: disp_sat(mul_mil(len, d.x)), y: disp_sat(mul_mil(len, d.y)) };
                let cross = Vec2 { x: -vel.y, y: vel.x };
                let backv = Vec2 {
                    x: disp_sat(-mul_mil_wide(vel.x, ratio)),
                    y: disp_sat(-mul_mil_wide(vel.y, ratio)),
                };
                let front = translate(self.pos, vel);
                let left = translate(self.pos, cross);
                let right = translate(self.pos, Vec2 { x: -cross.x, y: -cross.y });
                let back = translate(self.pos, backv);
                DrawCmd::Shard {
                    front,
                    left,
                    right,
                    back,
                    front_color: if own_color {
                        self.color
                    } else {
                        Rgba { r: 0, g: 1000, b: 0, a: 1000 }
                    },
                    left_color: if own_color {
                        self.color
                    } else {
                        Rgba { r: 1000, g: 0, b: 0, a: 1000 }
                    },
                    right_color: if own_color {
                        self.color
                    } else {
                        Rgba { r: 1000, g: 500, b: 0, a: 1000 }
                    },
                    back_color: if own_color {
                        self.color
                    } else {
                        Rgba { r: 0, g: 0, b: 1000, a: 0 }
                    },
                }
            },
        }
    }
}

} // verus!
