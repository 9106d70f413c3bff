use vstd::prelude::*;
use crate::colors::Rgba;
use crate::geom::{
    Vec2, spec_translate, spec_len2, spec_in_screen, translate, len2, polar, TURN,
};
use crate::particles::{Particle, Shape};
use crate::player::Player;
use crate::rng::{rng_range, sample_range, sample_normal};

verus! {

/// What a power-up grants on pickup.
#[derive(Clone, Copy, Debug, PartialEq, Eq, Structural)]
pub enum Power {
    LifeUp,
    PierceUp,
    ShotUp,
    DamageUp,
}

/// A drifting pickup: it bounces off the screen edges on a limited
/// budget and applies its power to the player on contact.
#[derive(Clone, Copy, Debug, PartialEq, Eq, Structural)]
pub struct PowerUp {
    pub pos: Vec2,
    pub vel: Vec2,
    pub power: Power,
    pub hits: i64,
    pub radius: i64,
    pub t: i64,
}

impl PowerUp {
    pub open spec fn wf(self) -> bool {
        &&& self.pos.wf()
        &&& self.vel.wf_vel()
        &&& -1_000_000 <= self.hits <= 5
        &&& self.radius == 20_000
        &&& 0 <= self.t
    }

    /// A power-up spawned during play: just outside the screen, drifting
    /// at a random angle, with the full bounce budget.
    pub fn new(power: Power, rng: &mut rand_xorshift::XorShiftRng) -> (p: PowerUp)
        ensures
            p.wf(),
            p.power == power,
            p.hits == 5,
            p.radius == 20_000,
            p.t == 0,
            !spec_in_screen(p.pos),
            -44_000 <= p.vel.x <= 44_000,
            -44_000 <= p.vel.y <= 44_000,
    {
        let pos: Vec2 = spawn_offscreen(rng);
        let angle: i64 = sample_range(rng, 0, TURN);
        let length: i64 = sample_normal(rng, 20_000, 8000);
        let vel: Vec2 = polar(angle, length);
        PowerUp { pos, vel, power, hits: 5, radius: 20_000, t: 0 }
    }

    /// A power-up of the fixed intermission layout: at the given spot,
    /// motionless, with the full bounce budget.
    pub fn new_fixed(power: Power, pos: Vec2) -> (p: PowerUp)
        requires
            pos.wf(),
        ensures
            p == (PowerUp {
                pos,
                vel: Vec2 { x: 0, y: 0 },
                power,
                hits: 5,
                radius: 20_000,
                t: 0,
            }),
            p.wf(),
    {
        PowerUp { pos, vel: Vec2 { x: 0, y: 0 }, power, hits: 5, radius: 20_000, t: 0 }
    }

    /// The color each power is shown in.
    pub open spec fn spec_color(self) -> Rgba {
        match self.power {
            Power::LifeUp => Rgba { r: 149, g: 651, b: 357, a: 1000 },
            Power::PierceUp => Rgba { r: 749, g: 333, b: 925, a: 1000 },
            Power::ShotUp => Rgba { r: 949, g: 149, b: 75, a: 1000 },
            Power::DamageUp => Rgba { r: 969, g: 792, b: 94, a: 1000 },
        }
    }

    pub fn color(&self) -> (c: Rgba)
        ensures
            c == self.spec_color(),
    {
        match self.power {
            Power::LifeUp => Rgba { r: 149, g: 651, b: 357, a: 1000 },
            Power::PierceUp => Rgba { r: 749, g: 333, b: 925, a: 1000 },
            Power::ShotUp => Rgba { r: 949, g: 149, b: 75, a: 1000 },
            Power::DamageUp => Rgba { r: 969, g: 792, b: 94, a: 1000 },
        }
    }

    /// The fixed part of an idle spark: everything but the random speed.
    pub open spec fn spec_idle_particle_ok(self, p: Particle, u: int) -> bool {
        &&& p.pos == spec_translate(self.pos, self.vel)
        &&& 2000 <= p.speed < 14_000
        &&& p.angle == 90_000 * u
        &&& p.damp == 1000
        &&& p.accel == -2500
        &&& p.angular_vel == 0
        &&& p.bias == self.vel
        &&& p.shape == Shape::Circle(3000)
        &&& p.color == self.spec_color()
        &&& p.alpha_scale == 8000
    }

    /// Four idle sparks per tick, one toward each cardinal direction,
    /// starting where the power-up will be next tick.
    pub fn particles(&self, rng: &mut rand_xorshift::XorShiftRng) -> (r: Vec<Particle>)
        requires
            self.wf(),
        ensures
            r@.len() == 4,
            forall|i: int| 0 <= i < r@.len() ==> #[trigger] r@[i].wf(),
            forall|i: int| 0 <= i < r@.len() ==> self.spec_idle_particle_ok(#[trigger] r@[i], i),
    {
        let start: Vec2 = translate(self.pos, self.vel);
        let mut v: Vec<Particle> = Vec::new();
        let mut k: i64 = 0;
        while k < 4
            invariant
                0 <= k <= 4,
                v@.len() == k,
                self.wf(),
                start == spec_translate(self.pos, self.vel),
                forall|i: int| 0 <= i < v@.len() ==> #[trigger] v@[i].wf(),
                forall|i: int|
                    0 <= i < v@.len() ==> self.spec_idle_particle_ok(#[trigger] v@[i], i),
            decreases 4 - k,
        {
            let speed: i64 = sample_normal(rng, 8000, 2000);
            let p = Particle {
                pos: start,
                speed,
                angle: 90_000 * k,
                damp: 1000,
                accel: -2500,
                angular_vel: 0,
                bias: self.vel,
                shape: Shape::Circle(3000),
                color: self.color(),
                alpha_scale: 8000,
            };
            v.push(p);
            k = k + 1;
        }
        v
    }

    /// The i-th disc of the rotating seven-disc ring a power-up is
    /// drawn as, spun by its age and the tick fraction.
    pub open spec fn spec_ring_cmd(self, prop: int, i: int) -> crate::particles::DrawCmd {
        crate::particles::DrawCmd::Circle {
            center: spec_translate(
                self.pos,
                crate::geom::spec_polar(
                    crate::geom::spec_norm_angle(
                        (360_000 * i) / 7 + (self.t % 18) * 20_000 + prop * 20,
                    ),
                    self.radius as int,
                ),
            ),
            radius: 5000,
            color: (Rgba { r: 1000, g: 1000, b: 1000, a: 700 }),
        }
    }

    /// The rotating ring of seven small discs a power-up is drawn as.
    pub fn draw(&self, prop: i64) -> (cmds: Vec<crate::particles::DrawCmd>)
        requires
            self.wf(),
            0 <= prop <= 1000,
        ensures
            cmds@.len() == 7,
            forall|i: int|
                0 <= i < cmds@.len() ==> (#[trigger] cmds@[i]) == self.spec_ring_cmd(
                    prop as int,
                    i,
                ),
    {
        let mut v: Vec<crate::particles::DrawCmd> = Vec::new();
        let mut k: i64 = 0;
        let spin: i64 = (((self.t as u64) % 18) as i64) * 20_000 + prop * 20;
        while k < 7
            invariant
                0 <= k <= 7,
                v@.len() == k,
                self.wf(),
                0 <= prop <= 1000,
                spin == (self.t % 18) * 20_000 + prop * 20,
                forall|i: int|
                    0 <= i < v@.len() ==> (#[trigger] v@[i]) == (crate::particles::DrawCmd::Circle {
                        center: spec_translate(
                            self.pos,
                            crate::geom::spec_polar(
                                crate::geom::spec_norm_angle(
                                    (360_000 * i) / 7 + (self.t % 18) * 20_000 + prop * 20,
                                ),
                                self.radius as int,
                            ),
                        ),
                        radius: 5000,
                        color: (Rgba { r: 1000, g: 1000, b: 1000, a: 700 }),
                    }),
            decreases 7 - k,
        {
            let base: i64 = ((360_000 * (k as u64)) / 7) as i64;
            let angle: i64 = crate::geom::norm_angle_add(0, base + spin);
            proof {
                assert(crate::geom::spec_norm_angle(0 + (base + spin)) == crate::geom::spec_norm_angle(
                    (360_000 * (k as int)) / 7 + (self.t % 18) * 20_000 + prop * 20,
                ));
            }
            let c = crate::particles::DrawCmd::Circle {
                center: translate(self.pos, polar(angle, self.radius)),
                radius: 5000,
                color: Rgba { r: 1000, g: 1000, b: 1000, a: 700 },
            };
            v.push(c);
            k = k + 1;
        }
        v
    }

    /// One tick: drift, reflect off any screen edge still being crossed
    /// outward (spending one bounce), and on touching the player burn the
    /// whole budget and hand the power over.
    pub open spec fn spec_step(self, player: Player) -> (PowerUp, Player) {
        let t = if self.t < 1_000_000_000_000_000 {
            self.t + 1
        } else {
            self.t as int
        };
        let pos = spec_translate(self.pos, self.vel);
        let bx = (pos.x < 0 && self.vel.x < 0) || (pos.x > crate::FIELD_W && self.vel.x > 0);
        let velx = if bx {
            -(self.vel.x as int)
        } else {
            self.vel.x as int
        };
        let hits1 = if bx {
            spec_dec_hits(self.hits as int)
        } else {
            self.hits as int
        };
        let by = (pos.y < 0 && self.vel.y < 0) || (pos.y > crate::FIELD_H && self.vel.y > 0);
        let vely = if by {
            -(self.vel.y as int)
        } else {
            self.vel.y as int
        };
        let hits2 = if by {
            spec_dec_hits(hits1)
        } else {
            hits1
        };
        let picked = spec_len2(pos, player.pos) < (self.radius + player.radius) * (self.radius
            + player.radius);
        let hits3 = if picked {
            0
        } else {
            hits2
        };
        let p2 = if picked {
            player.spec_apply_power(self.power)
        } else {
            player
        };
        (
            PowerUp {
                pos,
                vel: Vec2 { x: velx as i64, y: vely as i64 },
                hits: hits3 as i64,
                t: t as i64,
                ..self
            },
            p2,
        )
    }

    pub fn update(&mut self, player: &mut Player)
        requires
            old(self).wf(),
            old(player).wf(),
        ensures
            (*final(self), *final(player)) == old(self).spec_step(*old(player)),
            final(self).wf(),
            final(player).wf(),
            old(self).hits >= 0 ==> final(self).hits <= old(self).hits,
            spec_len2(final(self).pos, old(player).pos) < (old(self).radius + old(player).radius)
                * (old(self).radius + old(player).radius) ==> final(self).hits == 0,
    {
        if self.t < 1_000_000_000_000_000 {
            self.t = self.t + 1;
        }
        self.pos = translate(self.pos, self.vel);
        if (self.pos.x < 0 && self.vel.x < 0) || (self.pos.x > crate::FIELD_W && self.vel.x > 0) {
            self.vel.x = -self.vel.x;
            self.hits = dec_hits(self.hits);
        }
        if (self.pos.y < 0 && self.vel.y < 0) || (self.pos.y > crate::FIELD_H && self.vel.y > 0) {
            self.vel.y = -self.vel.y;
            self.hits = dec_hits(self.hits);
        }
        let prox: i64 = self.radius + player.radius;
        proof {
            assert(prox * prox <= 2_500_000_000) by (nonlinear_arith)
                requires
                    0 <= prox <= 50_000,
            ;
        }
        if len2(self.pos, player.pos) < prox * prox {
            self.hits = 0;
            player.powerup(self.power);
        }
    }
}

/// The outcome of the whole power-up pass over a prefix of the
/// collection: the advanced power-ups in order, and the player as the
/// pickups left them.
pub struct PowerPhase {
    pub pus: Seq<PowerUp>,
    pub player: Player,
}

/// The power-up pass is a pure function of the collection and the
/// player: each power-up in turn drifts, bounces and possibly hands its
/// power to the player the previous pickups produced.
#[verifier::opaque]
pub open spec fn spec_powerup_phase(pus0: Seq<PowerUp>, player0: Player, n: int) -> PowerPhase
    decreases n,
{
    if n <= 0 {
        PowerPhase { pus: Seq::empty(), player: player0 }
    } else {
        let prev = spec_powerup_phase(pus0, player0, n - 1);
        let (p2, pl2) = pus0[n - 1].spec_step(prev.player);
        PowerPhase { pus: prev.pus.push(p2), player: pl2 }
    }
}

/// The base and step of the power-up pass, stated once so callers can
/// walk the fold without unfolding its definition.
pub proof fn lemma_powerup_phase_zero(pus0: Seq<PowerUp>, player0: Player)
    ensures
        spec_powerup_phase(pus0, player0, 0) == (PowerPhase {
            pus: Seq::<PowerUp>::empty(),
            player: player0,
        }),
{
    reveal(spec_powerup_phase);
}

pub proof fn lemma_powerup_phase_step(pus0: Seq<PowerUp>, player0: Player, k: int)
    requires
        0 <= k < pus0.len(),
    ensures
        ({
            let prev = spec_powerup_phase(pus0, player0, k);
            let cur = spec_powerup_phase(pus0, player0, k + 1);
            let (p2, pl2) = pus0[k].spec_step(prev.player);
            cur == (PowerPhase { pus: prev.pus.push(p2), player: pl2 })
        }),
{
    reveal(spec_powerup_phase);
}

/// One bounce spent, saturating far below zero.
pub open spec fn spec_dec_hits(h: int) -> int {
    if h > -1_000_000 {
        h - 1
    } else {
        h
    }
}

fn dec_hits(h: i64) -> (r: i64)
    ensures
        r == spec_dec_hits(h as int),
{
    if h > -1_000_000 {
        h - 1
    } else {
        h
    }
}

/// A uniformly random point in the band just outside the screen's
/// 50-pixel margin.
pub fn spawn_offscreen(rng: &mut rand_xorshift::XorShiftRng) -> (pos: Vec2)
    ensures
        pos.wf(),
        !spec_in_screen(pos),
{
    let side: u32 = rng_range(rng, 0, 4);
    let along_x: i64 = sample_range(rng, -100_000, crate::FIELD_W + 100_000);
    let along_y: i64 = sample_range(rng, -100_000, crate::FIELD_H + 100_000);
    let band: i64 = sample_range(rng, 50_000, 100_001);
    if side == 0 {
        Vec2 { x: -band, y: along_y }
    } else if side == 1 {
        Vec2 { x: crate::FIELD_W + band, y: along_y }
    } else if side == 2 {
        Vec2 { x: along_x, y: -band }
    } else {
        Vec2 { x: along_x, y: crate::FIELD_H + band }
    }
}

} // verus!
