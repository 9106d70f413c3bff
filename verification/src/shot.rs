use vstd::prelude::*;
use crate::colors::Rgba;
use crate::geom::{
    Vec2, spec_translate, spec_in_screen, spec_norm_angle, spec_atan2, translate, in_screen,
    norm_angle_add, atan2_mil, polar, TURN,
};
use crate::particles::{Particle, Shape};
use crate::rng::sample_normal;

verus! {

/// A projectile the player fired: it flies in a straight line and may
/// damage as many enemies as its remaining pierce allows.
#[derive(Clone, Copy, Debug, PartialEq, Eq, Structural)]
pub struct Shot {
    pub pos: Vec2,
    pub vel: Vec2,
    pub radius: i64,
    pub alive: bool,
    pub pierce: i64,
    pub damage: i64,
    pub laser: bool,
}

impl Shot {
    pub open spec fn wf(self) -> bool {
        &&& self.pos.wf()
        &&& self.vel.wf_vel()
        &&& 0 <= self.radius <= 1_000_000
        &&& 0 <= self.pierce <= 1000
        &&& (!self.laser ==> self.pierce <= 500)
        &&& 0 <= self.damage <= 500
    }

    pub fn new(pos: Vec2, vel: Vec2, pierce: i64, damage: i64) -> (s: Shot)
        requires
            pos.wf(),
            vel.wf_vel(),
            0 <= pierce <= 500,
            0 <= damage <= 500,
        ensures
            s == (Shot { pos, vel, radius: 15_000, alive: true, pierce, damage, laser: false }),
            s.wf(),
    {
        Shot { pos, vel, radius: 15_000, alive: true, pierce, damage, laser: false }
    }

    /// A piercing beam shot: twice the usual speed, a wider radius and a
    /// pierce budget no ordinary shot reaches.
    pub fn laser(pos: Vec2, angle: i64, damage: i64) -> (s: Shot)
        requires
            pos.wf(),
            0 <= angle < TURN,
            0 <= damage <= 500,
        ensures
            s == (Shot {
                pos,
                vel: crate::geom::spec_polar(angle as int, 90_000),
                radius: 25_000,
                alive: true,
                pierce: 1000,
                damage,
                laser: true,
            }),
            s.wf(),
    {
        Shot {
            pos,
            vel: polar(angle, 90_000),
            radius: 25_000,
            alive: true,
            pierce: 1000,
            damage,
            laser: true,
        }
    }

    /// One tick of motion: the position advances by the velocity, and the
    /// shot stays alive only while it is on the extended screen with
    /// pierce left.
    pub open spec fn spec_step(self) -> Shot {
        let pos = spec_translate(self.pos, self.vel);
        Shot {
            pos,
            alive: self.alive && spec_in_screen(pos) && self.pierce > 0,
            ..self
        }
    }

    pub fn update(&mut self)
        requires
            old(self).wf(),
        ensures
            *final(self) == old(self).spec_step(),
            final(self).wf(),
    {
        self.pos = translate(self.pos, self.vel);
        self.alive = self.alive && in_screen(&self.pos) && self.pierce > 0;
    }

    /// What an enemy pass may do to a shot: leave it unchanged in every
    /// field but pierce, which never rises and never goes negative.
    pub open spec fn spec_degrades_to(self, b: Shot) -> bool {
        b == (Shot { pierce: b.pierce, ..self }) && 0 <= b.pierce <= self.pierce
    }

    /// The shard shape of a shot's trail: a beam leaves a long fixed
    /// shard, an ordinary shot one that grows with its remaining pierce.
    pub open spec fn spec_trail_shape(self) -> Shape {
        if self.laser {
            Shape::Shard(-1500 as i64, 5000, true)
        } else {
            Shape::Shard((-700 - 300 * self.pierce) as i64, 3000, false)
        }
    }

    /// The fixed part of a trail particle: everything but the random
    /// speed, which stays within its bell bounds.
    pub open spec fn spec_trail_particle_ok(self, p: Particle) -> bool {
        &&& p.pos == self.pos
        &&& p.angle == spec_norm_angle(spec_atan2(self.vel.y as int, self.vel.x as int)
            + 180_000)
        &&& 12_000 <= p.speed < 18_000
        &&& p.accel == -5000
        &&& p.damp == 1000
        &&& p.angular_vel == 0
        &&& p.bias == (Vec2 { x: 0, y: 0 })
        &&& p.shape == self.spec_trail_shape()
        &&& p.color == (Rgba { r: 1000, g: 1000, b: 1000, a: 1000 })
        &&& p.alpha_scale == 10_000
    }

    /// One trail particle per tick, cast backwards from the shot's
    /// heading; only its speed comes from the random stream.
    pub fn particles(&self, rng: &mut rand_xorshift::XorShiftRng) -> (r: Vec<Particle>)
        requires
            self.wf(),
        ensures
            r@.len() == 1,
            r@[0].wf(),
            self.spec_trail_particle_ok(r@[0]),
    {
        let speed: i64 = sample_normal(rng, 15_000, 1000);
        let heading: i64 = atan2_mil(self.vel.y, self.vel.x);
        let angle: i64 = norm_angle_add(heading, 180_000);
        let shape: Shape = if self.laser {
            Shape::Shard(-1500, 5000, true)
        } else {
            Shape::Shard(-700 - 300 * self.pierce, 3000, false)
        };
        let p = Particle {
            pos: self.pos,
            speed,
            angle,
            damp: 1000,
            accel: -5000,
            angular_vel: 0,
            bias: Vec2 { x: 0, y: 0 },
            shape,
            color: Rgba { r: 1000, g: 1000, b: 1000, a: 1000 },
            alpha_scale: 10_000,
        };
        let mut v: Vec<Particle> = Vec::new();
        v.push(p);
        v
    }
}

} // verus!
