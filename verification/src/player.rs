use vstd::prelude::*;
use crate::colors::{Rgba, hsv2rgb, spec_hsv2rgb};
use crate::geom::Vec2;
use crate::particles::{Particle, Shape};
use crate::powerup::Power;
use crate::rng::{sample_normal, sample_range};

verus! {

/// The base speed a fired shot flies at, in milli-pixels per tick.
pub const SHOT_SPEED: i64 = 45_000;

/// Ticks between two automatic shots; kept as state though firing is
/// driven by input.
pub const SHOT_DELAY: u64 = 5;

/// Highest value the player's life or any fire stat can reach.
pub const STAT_CAP: i64 = 500;

/// The player: a disc eased toward the pointer, with a life count, an
/// invincibility countdown, and the stats its shots inherit.
#[derive(Clone, Copy, Debug, PartialEq, Eq, Structural)]
pub struct Player {
    pub pos: Vec2,
    pub life: u64,
    pub radius: i64,
    pub invincible: i64,
    pub shots: i64,
    pub pierce: i64,
    pub damage: i64,
    pub shoot_delay: u64,
}

impl Player {
    pub open spec fn wf(self) -> bool {
        &&& self.pos.wf()
        &&& self.life <= STAT_CAP
        &&& self.radius == 30_000
        &&& -1_000_000 <= self.invincible <= 30
        &&& 1 <= self.shots <= STAT_CAP
        &&& 0 <= self.pierce <= STAT_CAP
        &&& 0 <= self.damage <= STAT_CAP
    }

    /// The state a new game's player starts in.
    pub open spec fn spec_new() -> Player {
        Player {
            pos: Vec2 { x: 200_000, y: 200_000 },
            life: 3,
            radius: 30_000,
            invincible: 0,
            shots: 5,
            pierce: 5,
            damage: 5,
            shoot_delay: SHOT_DELAY,
        }
    }

    pub fn new() -> (p: Player)
        ensures
            p == Player::spec_new(),
            p.wf(),
    {
        Player {
            pos: Vec2 { x: 200_000, y: 200_000 },
            life: 3,
            radius: 30_000,
            invincible: 0,
            shots: 5,
            pierce: 5,
            damage: 5,
            shoot_delay: SHOT_DELAY,
        }
    }

    /// The fixed part of a trail spark: everything but the random speed,
    /// angle and hue.
    pub open spec fn spec_trail_particle_ok(self, p: Particle) -> bool {
        &&& p.pos == self.pos
        &&& 1000 <= p.speed < 19_000
        &&& 0 <= p.angle < crate::geom::TURN
        &&& p.damp == 1000
        &&& p.accel == -1500
        &&& p.angular_vel == 25_000
        &&& p.bias == (Vec2 { x: 0, y: 0 })
        &&& p.shape == Shape::Circle(4000)
        &&& (exists|h: int|
            18_000 <= h < 36_000 && p.color == spec_hsv2rgb(h, 1000, 1000))
        &&& p.alpha_scale == 10_000
    }

    /// Four trail sparks per tick, at random angles and warm random hues.
    pub fn particles(&self, rng: &mut rand_xorshift::XorShiftRng) -> (r: Vec<Particle>)
        requires
            self.wf(),
        ensures
            r@.len() == 4,
            forall|i: int| 0 <= i < r@.len() ==> #[trigger] r@[i].wf(),
            forall|i: int| 0 <= i < r@.len() ==> self.spec_trail_particle_ok(#[trigger] r@[i]),
    {
        let mut v: Vec<Particle> = Vec::new();
        let mut k: u64 = 0;
        while k < 4
            invariant
                k <= 4,
                v@.len() == k,
                forall|i: int| 0 <= i < v@.len() ==> #[trigger] v@[i].wf(),
                forall|i: int|
                    0 <= i < v@.len() ==> self.spec_trail_particle_ok(#[trigger] v@[i]),
                self.wf(),
            decreases 4 - k,
        {
            let speed: i64 = sample_normal(rng, 10_000, 3000);
            let angle: i64 = sample_range(rng, 0, crate::geom::TURN);
            let hue: i64 = sample_normal(rng, 27_000, 3000);
            let color: Rgba = hsv2rgb(hue, 1000, 1000);
            let p = Particle {
                pos: self.pos,
                speed,
                angle,
                damp: 1000,
                accel: -1500,
                angular_vel: 25_000,
                bias: Vec2 { x: 0, y: 0 },
                shape: Shape::Circle(4000),
                color,
                alpha_scale: 10_000,
            };
            proof {
                assert(self.spec_trail_particle_ok(p)) by {
                    assert(18_000 <= hue < 36_000 && p.color == spec_hsv2rgb(
                        hue as int,
                        1000,
                        1000,
                    ));
                }
            }
            v.push(p);
            k = k + 1;
        }
        v
    }

    /// The shots one press of the fire button produces: one per shot
    /// stat, fanned around the aim direction in fifteen-degree steps,
    /// each inheriting the player's pierce and damage.
    pub open spec fn spec_fan_angle(self, aim_angle: int, i: int) -> int {
        crate::geom::spec_norm_angle(aim_angle - (15_000 * i - 7500 * self.shots))
    }

    /// The i-th shot of the fan: fired from the player, at the fanned
    /// angle, inheriting the player's pierce and damage.
    pub open spec fn spec_fan_shot(self, aim: Vec2, i: int) -> crate::shot::Shot {
        crate::shot::Shot {
            pos: self.pos,
            vel: crate::geom::spec_polar(
                self.spec_fan_angle(
                    crate::geom::spec_atan2(aim.y - self.pos.y, aim.x - self.pos.x),
                    i,
                ),
                SHOT_SPEED as int,
            ),
            radius: 15_000,
            alive: true,
            pierce: self.pierce,
            damage: self.damage,
            laser: false,
        }
    }

    pub fn fire(&self, aim: Vec2) -> (r: Vec<crate::shot::Shot>)
        requires
            self.wf(),
            aim.wf(),
        ensures
            r@.len() == self.shots,
            forall|i: int| 0 <= i < r@.len() ==> (#[trigger] r@[i]).wf(),
            forall|i: int| 0 <= i < r@.len() ==> (#[trigger] r@[i]) == self.spec_fan_shot(aim, i),
    {
        let angle: i64 = crate::geom::atan2_mil(aim.y - self.pos.y, aim.x - self.pos.x);
        let mut v: Vec<crate::shot::Shot> = Vec::new();
        let mut k: i64 = 0;
        while k < self.shots
            invariant
                0 <= k <= self.shots,
                self.wf(),
                aim.wf(),
                v@.len() == k,
                angle == crate::geom::spec_atan2(aim.y - self.pos.y, aim.x - self.pos.x),
                0 <= angle < crate::geom::TURN,
                forall|i: int| 0 <= i < v@.len() ==> (#[trigger] v@[i]).wf(),
                forall|i: int|
                    0 <= i < v@.len() ==> (#[trigger] v@[i]) == self.spec_fan_shot(aim, i),
            decreases self.shots - k,
        {
            let a: i64 = crate::geom::norm_angle_add(angle, 7500 * self.shots - 15_000 * k);
            let vel: Vec2 = crate::geom::polar(a, SHOT_SPEED);
            let s = crate::shot::Shot::new(self.pos, vel, self.pierce, self.damage);
            v.push(s);
            k = k + 1;
        }
        v
    }

    /// The movement half of the player's tick: ease toward the pointer
    /// at a fixed rate outside a small dead zone, and count the
    /// invincibility down.
    pub open spec fn spec_move(self, mouse: Vec2) -> Player {
        let moved = if crate::geom::spec_len2(mouse, self.pos) > 16_000_000 {
            Player {
                pos: crate::geom::spec_translate(
                    self.pos,
                    Vec2 {
                        x: crate::geom::spec_mul_mil(mouse.x - self.pos.x, 200) as i64,
                        y: crate::geom::spec_mul_mil(mouse.y - self.pos.y, 200) as i64,
                    },
                ),
                ..self
            }
        } else {
            self
        };
        Player {
            invincible: if moved.invincible > -1_000_000 {
                (moved.invincible - 1) as i64
            } else {
                moved.invincible
            },
            ..moved
        }
    }

    /// Whether an enemy's disc overlaps the player's.
    pub open spec fn spec_hit_by(self, e: crate::enemy::Enemy) -> bool {
        crate::geom::spec_len2(e.pos, self.pos) < (e.radius + self.radius) * (e.radius
            + self.radius)
    }

    /// The player's tick: move toward the pointer, count invincibility
    /// down, and — only when not invincible — lose exactly one life on
    /// the first overlapping enemy, resetting the countdown and shaking
    /// the screen; at most one life is lost however many enemies touch.
    pub fn update(mouse: Vec2, game: &mut crate::game::Game)
        requires
            old(game).wf(),
            old(game).player.life >= 1,
            mouse.wf(),
        ensures
            final(game).wf(),
            final(game).enemies == old(game).enemies,
            final(game).shots == old(game).shots,
            final(game).powerups == old(game).powerups,
            final(game).particles == old(game).particles,
            final(game).score == old(game).score,
            final(game).frame == old(game).frame,
            final(game).wave == old(game).wave,
            final(game).wave_state == old(game).wave_state,
            final(game).paused == old(game).paused,
            final(game).overlay == old(game).overlay,
            final(game).bg == old(game).bg,
            final(game).bg_color == old(game).bg_color,
            ({
                let moved = old(game).player.spec_move(mouse);
                &&& (moved.invincible >= 0 ==> final(game).player == moved && final(game).shake
                    == old(game).shake)
                &&& (moved.invincible < 0 && (forall|i: int|
                    0 <= i < old(game).enemies@.len() ==> !moved.spec_hit_by(
                        #[trigger] old(game).enemies@[i],
                    )) ==> final(game).player == moved && final(game).shake == old(game).shake)
                &&& (moved.invincible < 0 && (exists|i: int|
                    0 <= i < old(game).enemies@.len() && moved.spec_hit_by(
                        #[trigger] old(game).enemies@[i],
                    )) ==> final(game).player == (Player {
                    life: (moved.life - 1) as u64,
                    invincible: 30,
                    ..moved
                }) && final(game).shake == crate::game::spec_shake_add(old(game).shake, 12))
                &&& final(game).player.life >= moved.life - 1
            }),
    {
        let mut p = game.player;
        let dx: i64 = mouse.x - p.pos.x;
        let dy: i64 = mouse.y - p.pos.y;
        if crate::geom::len2(mouse, p.pos) > 16_000_000 {
            let step = Vec2 { x: crate::geom::mul_mil(dx, 200), y: crate::geom::mul_mil(dy, 200) };
            p.pos = crate::geom::translate(p.pos, step);
        }
        if p.invincible > -1_000_000 {
            p.invincible = p.invincible - 1;
        }
        let ghost moved = p;
        if p.invincible < 0 {
            let n: usize = game.enemies.len();
            let mut i: usize = 0;
            let mut found: bool = false;
            while i < n && !found
                invariant
                    0 <= i <= n,
                    n == game.enemies@.len(),
                    game.enemies == old(game).enemies,
                    game.shots == old(game).shots,
                    game.powerups == old(game).powerups,
                    game.particles == old(game).particles,
                    game.player == old(game).player,
                    game.score == old(game).score,
                    game.frame == old(game).frame,
                    game.wave == old(game).wave,
                    game.wave_state == old(game).wave_state,
                    game.paused == old(game).paused,
                    game.overlay == old(game).overlay,
                    game.bg == old(game).bg,
                    game.bg_color == old(game).bg_color,
                    old(game).wf(),
                    !found ==> forall|j: int|
                        0 <= j < i ==> !moved.spec_hit_by(#[trigger] game.enemies@[j]),
                    found ==> exists|j: int|
                        0 <= j < n && moved.spec_hit_by(#[trigger] game.enemies@[j]),
                    found ==> p == (Player {
                        life: (moved.life - 1) as u64,
                        invincible: 30,
                        ..moved
                    }) && game.shake == crate::game::spec_shake_add(old(game).shake, 12),
                    !found ==> p == moved && game.shake == old(game).shake,
                    moved == old(game).player.spec_move(mouse),
                    moved.life >= 1,
                    moved.wf(),
                decreases n - i,
            {
                let e = game.enemies[i];
                let prox: i64 = e.radius + p.radius;
                proof {
                    assert(prox * prox <= 400_000_000_000_000_000) by (nonlinear_arith)
                        requires
                            0 <= prox <= 200_000_000,
                    ;
                }
                if crate::geom::len2(e.pos, p.pos) < prox * prox {
                    p.life = p.life - 1;
                    p.invincible = 30;
                    game.shake = crate::game::shake_add(game.shake, 12);
                    found = true;
                }
                i = i + 1;
            }
        }
        game.player = p;
    }

    /// Apply a picked-up power: the matching stat rises by one, up to the
    /// cap; nothing else changes, and no particles are thrown.
    pub open spec fn spec_apply_power(self, up: Power) -> Player {
        match up {
            Power::LifeUp => Player {
                life: if self.life < STAT_CAP {
                    (self.life + 1) as u64
                } else {
                    self.life
                },
                ..self
            },
            Power::PierceUp => Player {
                pierce: if self.pierce < STAT_CAP {
                    (self.pierce + 1) as i64
                } else {
                    self.pierce
                },
                ..self
            },
            Power::ShotUp => Player {
                shots: if self.shots < STAT_CAP {
                    (self.shots + 1) as i64
                } else {
                    self.shots
                },
                ..self
            },
            Power::DamageUp => Player {
                damage: if self.damage < STAT_CAP {
                    (self.damage + 1) as i64
                } else {
                    self.damage
                },
                ..self
            },
        }
    }

    pub fn powerup(&mut self, up: Power) -> (r: Vec<Particle>)
        requires
            old(self).wf(),
        ensures
            *final(self) == old(self).spec_apply_power(up),
            final(self).wf(),
            r@.len() == 0,
    {
        match up {
            Power::LifeUp => {
                if self.life < STAT_CAP as u64 {
                    self.life = self.life + 1;
                }
            },
            Power::PierceUp => {
                if self.pierce < STAT_CAP {
                    self.pierce = self.pierce + 1;
                }
            },
            Power::ShotUp => {
                if self.shots < STAT_CAP {
                    self.shots = self.shots + 1;
                }
            },
            Power::DamageUp => {
                if self.damage < STAT_CAP {
                    self.damage = self.damage + 1;
                }
            },
        }
        Vec::new()
    }
}

} // verus!
