use vstd::prelude::*;
use crate::colors::{Rgba, spec_palette, palette};
use crate::geom::{
    Vec2, spec_polar, spec_norm_angle, spec_isqrt, polar, norm_angle_add, sqrti, TURN, SPEED_MAX,
};
use crate::particles::{Particle, Shape};
use crate::rng::{rng_range, sample_range};

verus! {

/// The knockback impulse an enemy takes from a hit, in milli-pixels.
pub const KNOCK_BACK: i64 = 50_000;

/// An enemy stays invincible while its knockback's squared length still
/// exceeds this decay threshold, which couples the grace period to the
/// knockback damping rate.
pub const INVINCIBLE_THRESH: i64 = 20_275_200;

/// The highest level an enemy can spawn or split at.
pub const LEVEL_MAX: u64 = 30_000;

/// A chaser: it eases its heading toward the player, ramps its speed to a
/// level-dependent cap, and splits in two when killed above level one.
#[derive(Clone, Copy, Debug, PartialEq, Eq, Structural)]
pub struct Enemy {
    pub pos: Vec2,
    pub speed: i64,
    pub angle: i64,
    pub radius: i64,
    pub level: u64,
    pub life: i64,
    pub knockback: Vec2,
    pub color: Rgba,
}

impl Enemy {
    pub open spec fn wf(self) -> bool {
        &&& self.pos.wf()
        &&& 0 <= self.speed <= 4000 + 1000 * self.level
        &&& 0 <= self.angle < TURN
        &&& 1 <= self.level <= LEVEL_MAX
        &&& self.radius == 5000 * self.level + 30_000
        &&& 0 <= self.life <= self.level * self.level
        &&& -KNOCK_BACK <= self.knockback.x <= KNOCK_BACK
        &&& -KNOCK_BACK <= self.knockback.y <= KNOCK_BACK
    }

    /// The state a freshly spawned enemy starts in: still, facing right,
    /// with hit points equal to its level squared, a radius and color
    /// derived from its level, and the given knockback impulse.
    pub open spec fn spec_new_kb(pos: Vec2, level: u64, knockback: Vec2) -> Enemy {
        Enemy {
            pos,
            speed: 0,
            angle: 0,
            radius: (5000 * level + 30_000) as i64,
            level,
            life: (level * level) as i64,
            knockback,
            color: spec_palette(level as int),
        }
    }

    pub fn new(pos: Vec2, level: u64) -> (e: Enemy)
        requires
            pos.wf(),
            1 <= level <= LEVEL_MAX,
        ensures
            e == Enemy::spec_new_kb(pos, level, Vec2 { x: 0, y: 0 }),
            e.wf(),
            e.spec_alive(),
    {
        Enemy::new_kb(pos, level, Vec2 { x: 0, y: 0 })
    }

    pub fn new_kb(pos: Vec2, level: u64, knockback: Vec2) -> (e: Enemy)
        requires
            pos.wf(),
            1 <= level <= LEVEL_MAX,
            -KNOCK_BACK <= knockback.x <= KNOCK_BACK,
            -KNOCK_BACK <= knockback.y <= KNOCK_BACK,
        ensures
            e == Enemy::spec_new_kb(pos, level, knockback),
            e.wf(),
            e.spec_alive(),
    {
        proof {
            assert(1 <= level * level <= LEVEL_MAX * LEVEL_MAX) by (nonlinear_arith)
                requires
                    1 <= level <= LEVEL_MAX,
            ;
        }
        Enemy {
            pos,
            speed: 0,
            angle: 0,
            radius: (5000 * level + 30_000) as i64,
            level,
            life: (level * level) as i64,
            knockback,
            color: palette(level),
        }
    }

    /// An enemy is alive while it has hit points left.
    pub open spec fn spec_alive(self) -> bool {
        self.life > 0
    }

    pub fn alive(&self) -> (r: bool)
        ensures
            r == self.spec_alive(),
    {
        self.life > 0
    }

    /// Hit grace derived from physical decay: the enemy ignores shots
    /// while the previous hit's knockback has not decayed enough.
    pub open spec fn spec_invincible(self) -> bool {
        self.knockback.x * self.knockback.x + self.knockback.y * self.knockback.y
            >= INVINCIBLE_THRESH
    }

    pub fn invincible(&self) -> (r: bool)
        requires
            self.wf(),
        ensures
            r == self.spec_invincible(),
    {
        proof {
            assert(self.knockback.x * self.knockback.x <= KNOCK_BACK * KNOCK_BACK && self.knockback.x
                * self.knockback.x >= 0 && self.knockback.y * self.knockback.y <= KNOCK_BACK
                * KNOCK_BACK && self.knockback.y * self.knockback.y >= 0) by (nonlinear_arith)
                requires
                    -KNOCK_BACK <= self.knockback.x <= KNOCK_BACK,
                    -KNOCK_BACK <= self.knockback.y <= KNOCK_BACK,
            ;
        }
        self.knockback.x * self.knockback.x + self.knockback.y * self.knockback.y
            >= INVINCIBLE_THRESH
    }

    /// A translucent disc at the enemy's position.
    pub fn draw(&self, _prop: i64) -> (cmd: crate::particles::DrawCmd)
        ensures
            cmd == (crate::particles::DrawCmd::Circle {
                center: self.pos,
                radius: self.radius,
                color: self.color.spec_with_alpha(100),
            }),
    {
        crate::particles::DrawCmd::Circle {
            center: self.pos,
            radius: self.radius,
            color: self.color.with_alpha(100),
        }
    }

    /// The deterministic half of an enemy's tick: ease the heading
    /// toward the player by the shortest signed angular difference, ramp
    /// the speed toward the level cap, integrate the position by the new
    /// velocity, and add the exponentially damped knockback.
    pub open spec fn spec_move(self, player_pos: Vec2) -> Enemy {
        let target = crate::geom::spec_atan2(
            player_pos.y - self.pos.y,
            player_pos.x - self.pos.x,
        );
        let m = (target - self.angle) % 360_000;
        let diff = (m + 180_000) % 360_000 - 180_000;
        let angle = spec_norm_angle(self.angle + crate::geom::spec_mul_mil(diff, 90));
        let speed = if self.speed + 400 < 4000 + 1000 * self.level {
            self.speed + 400
        } else {
            4000 + 1000 * self.level
        };
        let vel = spec_polar(angle, speed);
        let kb = Vec2 {
            x: crate::geom::spec_mul_mil(self.knockback.x as int, 800) as i64,
            y: crate::geom::spec_mul_mil(self.knockback.y as int, 800) as i64,
        };
        let pos = crate::geom::spec_translate(crate::geom::spec_translate(self.pos, vel), kb);
        Enemy { pos, speed: speed as i64, angle: angle as i64, knockback: kb, ..self }
    }

    /// The fixed part of an idle spark of this enemy: everything but the
    /// angle, which is drawn uniformly.
    pub open spec fn spec_idle_particle_ok(self, p: Particle) -> bool {
        &&& p.pos == self.pos
        &&& p.speed == 5000 + spec_isqrt(self.life * 1_000_000) + 1000 * self.level
        &&& 0 <= p.angle < TURN
        &&& p.damp == 1000
        &&& p.accel == -((p.speed * p.speed) / (p.speed + 2 * self.radius))
        &&& p.angular_vel == 0
        &&& p.bias == spec_polar(self.angle as int, self.speed as int)
        &&& p.shape == Shape::Circle(3000)
        &&& p.color == self.color
        &&& p.alpha_scale == 10_000
    }

    /// Idle sparks: the whole part of `density` many, plus one more with
    /// the fractional part's probability, each flung at a random angle.
    pub fn particles(&self, rng: &mut rand_xorshift::XorShiftRng, density: i64) -> (r: Vec<
        Particle,
    >)
        requires
            self.wf(),
            0 <= density <= 10_000,
        ensures
            r@.len() == density / 1000 || r@.len() == density / 1000 + 1,
            forall|i: int| 0 <= i < r@.len() ==> #[trigger] r@[i].wf(),
            forall|i: int| 0 <= i < r@.len() ==> self.spec_idle_particle_ok(#[trigger] r@[i]),
    {
        let mut qte: u64 = (density as u64) / 1000;
        let frac: u32 = ((density as u64) % 1000) as u32;
        let u: u32 = rng_range(rng, 0, 1000);
        if u < frac {
            qte = qte + 1;
        }
        proof {
            assert(self.life <= 900_000_000) by {
                assert(self.level * self.level <= LEVEL_MAX * LEVEL_MAX) by (nonlinear_arith)
                    requires
                        1 <= self.level <= LEVEL_MAX,
                ;
            }
        }
        let l: u64 = sqrti((self.life as u64) * 1_000_000);
        proof {
            assert((l as int) * (l as int) <= 900_000_000_000_000 ==> l <= 30_000_000) by (
            nonlinear_arith);
        }
        let speed: i64 = 5000 + (l as i64) + 1000 * (self.level as i64);
        proof {
            assert((speed as int) * (speed as int) <= 3_700_000_000_000_000_000) by (
            nonlinear_arith)
                requires
                    0 <= speed <= 61_000_000,
            ;
        }
        let acc_num: u64 = (speed as u64) * (speed as u64);
        proof {
            assert(0 <= (acc_num as int) / ((speed + 2 * self.radius) as int) <= speed) by (
            nonlinear_arith)
                requires
                    acc_num == (speed as int) * (speed as int),
                    0 < speed,
                    0 <= self.radius,
            ;
        }
        let accel: i64 = -(((acc_num) / ((speed + 2 * self.radius) as u64)) as i64);
        let bias: Vec2 = polar(self.angle, self.speed);
        let mut v: Vec<Particle> = Vec::new();
        let mut k: u64 = 0;
        while k < qte
            invariant
                k <= qte,
                qte <= 11,
                v@.len() == k,
                forall|i: int| 0 <= i < v@.len() ==> #[trigger] v@[i].wf(),
                forall|i: int| 0 <= i < v@.len() ==> self.spec_idle_particle_ok(#[trigger] v@[i]),
                self.wf(),
                speed == 5000 + spec_isqrt(self.life * 1_000_000) + 1000 * self.level,
                0 < speed <= 61_000_000,
                accel == -((speed * speed) / (speed + 2 * self.radius)),
                -SPEED_MAX <= accel <= 0,
                bias == spec_polar(self.angle as int, self.speed as int),
                -SPEED_MAX <= bias.x <= SPEED_MAX,
                -SPEED_MAX <= bias.y <= SPEED_MAX,
            decreases qte - k,
    {
            let angle: i64 = sample_range(rng, 0, TURN);
            let p = Particle {
                pos: self.pos,
                speed,
                angle,
                damp: 1000,
                accel,
                angular_vel: 0,
                bias,
                shape: Shape::Circle(3000),
                color: self.color,
                alpha_scale: 10_000,
            };
            v.push(p);
            k = k + 1;
        }
        v
    }
}

/// The running state of one enemy's pass over the shot collection: hit
/// points and knockback so far, the last hit's direction, the shots with
/// their spent pierce, and how many hits and shard particles came out.
pub struct HitAcc {
    pub life: int,
    pub knockback: Vec2,
    pub hit: bool,
    pub hit_angle: int,
    pub shots: Seq<crate::shot::Shot>,
    pub hits: int,
    pub emitted: int,
}

/// One shot held against the enemy: an overlapping shot with pierce left
/// spends one pierce, deals the smaller of its damage and the remaining
/// hit points, resets the knockback along its heading, and accounts for
/// one hit and `damage + 1` shards; any other shot passes unchanged.
pub open spec fn spec_hit_step(
    radius: int,
    pos: Vec2,
    acc: HitAcc,
    s: crate::shot::Shot,
) -> HitAcc {
    if s.pierce > 0 && crate::geom::spec_len2(s.pos, pos) < (s.radius + radius) * (s.radius
        + radius) {
        let a = crate::geom::spec_atan2(s.vel.y as int, s.vel.x as int);
        let dmg = if s.damage <= acc.life {
            s.damage as int
        } else {
            acc.life
        };
        HitAcc {
            life: acc.life - dmg,
            knockback: spec_polar(a, KNOCK_BACK as int),
            hit: true,
            hit_angle: a,
            shots: acc.shots.push(
                crate::shot::Shot { pierce: (s.pierce - 1) as i64, ..s },
            ),
            hits: acc.hits + 1,
            emitted: acc.emitted + dmg + 1,
        }
    } else {
        HitAcc { shots: acc.shots.push(s), ..acc }
    }
}

/// The pass folded over the first `n` shots.
pub open spec fn spec_hits_prefix(
    radius: int,
    pos: Vec2,
    init: HitAcc,
    shots: Seq<crate::shot::Shot>,
    n: int,
) -> HitAcc
    decreases n,
{
    if n <= 0 {
        init
    } else {
        spec_hit_step(radius, pos, spec_hits_prefix(radius, pos, init, shots, n - 1), shots[n - 1])
    }
}

/// The whole pass of a moved enemy over a shot collection.
pub open spec fn spec_resolve_hits(e: Enemy, shots: Seq<crate::shot::Shot>) -> HitAcc {
    spec_hits_prefix(
        e.radius as int,
        e.pos,
        HitAcc {
            life: e.life as int,
            knockback: e.knockback,
            hit: false,
            hit_angle: 0,
            shots: Seq::empty(),
            hits: 0,
            emitted: 0,
        },
        shots,
        shots.len() as int,
    )
}

/// What the pass guarantees: shots keep their order and lose at most one
/// pierce each, hit points never rise and never go negative, a knockback
/// within the impulse bound, and a recorded direction whenever anything
/// was dealt.
pub proof fn lemma_hits_props(
    radius: int,
    pos: Vec2,
    init: HitAcc,
    shots: Seq<crate::shot::Shot>,
    n: int,
)
    requires
        0 <= n <= shots.len(),
        init.life >= 0,
        init.hits >= 0,
        init.emitted >= 0,
        init.hit ==> 0 <= init.hit_angle < TURN,
        -KNOCK_BACK <= init.knockback.x <= KNOCK_BACK,
        -KNOCK_BACK <= init.knockback.y <= KNOCK_BACK,
        forall|i: int| 0 <= i < shots.len() ==> (#[trigger] shots[i]).wf(),
    ensures
        ({
            let acc = spec_hits_prefix(radius, pos, init, shots, n);
            &&& acc.shots.len() == init.shots.len() + n
            &&& (forall|i: int|
                0 <= i < init.shots.len() ==> (#[trigger] acc.shots[i]) == init.shots[i])
            &&& (forall|k: int|
                0 <= k < n ==> (#[trigger] acc.shots[init.shots.len() + k]) == shots[k] || (
                shots[k].pierce > 0 && acc.shots[init.shots.len() + k] == (crate::shot::Shot {
                    pierce: (shots[k].pierce - 1) as i64,
                    ..shots[k]
                })))
            &&& 0 <= acc.life <= init.life
            &&& (acc.life < init.life ==> acc.hit)
            &&& (init.hit ==> acc.hit)
            &&& (!acc.hit ==> acc.life == init.life && acc.knockback == init.knockback)
            &&& init.hits <= acc.hits <= init.hits + n
            &&& init.emitted <= acc.emitted <= init.emitted + n * 501
            &&& (acc.hit ==> 0 <= acc.hit_angle < TURN)
            &&& -KNOCK_BACK <= acc.knockback.x <= KNOCK_BACK
            &&& -KNOCK_BACK <= acc.knockback.y <= KNOCK_BACK
        }),
    decreases n,
{
    if n > 0 {
        lemma_hits_props(radius, pos, init, shots, n - 1);
        let prev = spec_hits_prefix(radius, pos, init, shots, n - 1);
        let acc = spec_hits_prefix(radius, pos, init, shots, n);
        let s = shots[n - 1];
        if s.pierce > 0 && crate::geom::spec_len2(s.pos, pos) < (s.radius + radius) * (s.radius
            + radius) {
            let a = crate::geom::spec_atan2(s.vel.y as int, s.vel.x as int);
            crate::geom::lemma_atan2_bounds(s.vel.y as int, s.vel.x as int);
            crate::geom::lemma_sin_bounds(a);
            crate::geom::lemma_cos_bounds(a);
            crate::geom::lemma_mul_mil_bound(KNOCK_BACK as int, crate::geom::spec_cos(a));
            crate::geom::lemma_mul_mil_bound(KNOCK_BACK as int, crate::geom::spec_sin(a));
            assert((n - 1) * 501 + 501 == n * 501) by (nonlinear_arith);
        }
        assert(forall|i: int|
            0 <= i < prev.shots.len() ==> (#[trigger] acc.shots[i]) == prev.shots[i]);
    }
}

/// What holds of every shard a hit throws: only its speed and exact
/// angle come from the random stream.
pub open spec fn spec_hit_particle_ok(pos: Vec2, p: Particle) -> bool {
    &&& p.pos == pos
    &&& 24_000 <= p.speed < 96_000
    &&& 0 <= p.angle < TURN
    &&& p.damp == 800
    &&& p.accel == 0
    &&& p.angular_vel == 0
    &&& p.bias == (Vec2 { x: 0, y: 0 })
    &&& p.shape == Shape::Shard(200, 3000, true)
    &&& p.color == (crate::colors::Rgba { r: 1000, g: 1000, b: 1000, a: 800 })
    &&& p.alpha_scale == 10_000
}

/// The outcome of the whole enemy pass over a prefix of the
/// collection: the survivors in order, the children they split into, the
/// shot collection with its spent pierce, and the score the kills earn.
pub struct EnemyPhase {
    pub kept: Seq<Enemy>,
    pub spawned: Seq<Enemy>,
    pub shots: Seq<crate::shot::Shot>,
    pub score_gain: int,
}

/// The enemy pass is a pure function of the collections and the
/// player's position: each enemy in turn moves, resolves the shots as
/// the previous enemies left them, and either survives or dies — a death
/// above level one appending exactly two level-lower children.
#[verifier::opaque]
pub open spec fn spec_enemy_phase(
    enemies: Seq<Enemy>,
    shots: Seq<crate::shot::Shot>,
    ppos: Vec2,
    n: int,
) -> EnemyPhase
    decreases n,
{
    if n <= 0 {
        EnemyPhase { kept: Seq::empty(), spawned: Seq::empty(), shots, score_gain: 0 }
    } else {
        let prev = spec_enemy_phase(enemies, shots, ppos, n - 1);
        let e = enemies[n - 1];
        let moved = e.spec_move(ppos);
        if moved.spec_invincible() {
            EnemyPhase { kept: prev.kept.push(moved), ..prev }
        } else {
            let acc = spec_resolve_hits(moved, prev.shots);
            let e2 = Enemy { life: acc.life as i64, knockback: acc.knockback, ..moved };
            if acc.life > 0 {
                EnemyPhase { kept: prev.kept.push(e2), shots: acc.shots, ..prev }
            } else {
                EnemyPhase {
                    kept: prev.kept,
                    spawned: prev.spawned + (if e.level > 1 {
                        seq![
                            Enemy::spec_new_kb(
                                moved.pos,
                                (e.level - 1) as u64,
                                spec_polar(
                                    spec_norm_angle(acc.hit_angle + 30_000),
                                    KNOCK_BACK as int,
                                ),
                            ),
                            Enemy::spec_new_kb(
                                moved.pos,
                                (e.level - 1) as u64,
                                spec_polar(
                                    spec_norm_angle(acc.hit_angle - 30_000),
                                    KNOCK_BACK as int,
                                ),
                            ),
                        ]
                    } else {
                        Seq::empty()
                    }),
                    shots: acc.shots,
                    score_gain: prev.score_gain + e.level,
                }
            }
        }
    }
}

/// The base and step of the enemy pass, stated once so callers can
/// walk the fold without unfolding its definition.
pub proof fn lemma_phase_zero(enemies: Seq<Enemy>, shots0: Seq<crate::shot::Shot>, ppos: Vec2)
    ensures
        spec_enemy_phase(enemies, shots0, ppos, 0) == (EnemyPhase {
            kept: Seq::<Enemy>::empty(),
            spawned: Seq::<Enemy>::empty(),
            shots: shots0,
            score_gain: 0,
        }),
{
    reveal(spec_enemy_phase);
}

pub proof fn lemma_phase_step(
    enemies: Seq<Enemy>,
    shots0: Seq<crate::shot::Shot>,
    ppos: Vec2,
    k: int,
)
    requires
        0 <= k < enemies.len(),
    ensures
        ({
            let prev = spec_enemy_phase(enemies, shots0, ppos, k);
            let cur = spec_enemy_phase(enemies, shots0, ppos, k + 1);
            let e = enemies[k];
            let moved = e.spec_move(ppos);
            &&& (moved.spec_invincible() ==> cur == (EnemyPhase {
                kept: prev.kept.push(moved),
                ..prev
            }))
            &&& (!moved.spec_invincible() ==> ({
                let acc = spec_resolve_hits(moved, prev.shots);
                &&& (acc.life > 0 ==> cur == (EnemyPhase {
                    kept: prev.kept.push(
                        Enemy { life: acc.life as i64, knockback: acc.knockback, ..moved },
                    ),
                    shots: acc.shots,
                    ..prev
                }))
                &&& (acc.life <= 0 ==> cur == (EnemyPhase {
                    kept: prev.kept,
                    spawned: prev.spawned + (if e.level > 1 {
                        seq![
                            Enemy::spec_new_kb(
                                moved.pos,
                                (e.level - 1) as u64,
                                spec_polar(
                                    spec_norm_angle(acc.hit_angle + 30_000),
                                    KNOCK_BACK as int,
                                ),
                            ),
                            Enemy::spec_new_kb(
                                moved.pos,
                                (e.level - 1) as u64,
                                spec_polar(
                                    spec_norm_angle(acc.hit_angle - 30_000),
                                    KNOCK_BACK as int,
                                ),
                            ),
                        ]
                    } else {
                        Seq::<Enemy>::empty()
                    }),
                    shots: acc.shots,
                    score_gain: prev.score_gain + e.level,
                }))
            }))
        }),
{
    reveal(spec_enemy_phase);
}

impl Enemy {
    /// One enemy tick: chase the player, then — unless the last hit's
    /// knockback still grants grace — take damage from every overlapping
    /// shot with pierce left, shaking the screen, scattering the
    /// background and throwing shards per hit; a kill above level one
    /// returns exactly two level-lower children flung thirty degrees to
    /// either side of the killing direction.
    #[verifier::rlimit(100)]
    pub fn update(&mut self, game: &mut crate::game::Game) -> (children: Vec<Enemy>)
        requires
            old(self).wf(),
            old(self).spec_alive(),
            old(game).wf(),
        ensures
            final(self).wf(),
            final(game).wf(),
            forall|i: int|
                0 <= i < children@.len() ==> (#[trigger] children@[i]).wf()
                    && children@[i].spec_alive(),
            final(game).player == old(game).player,
            final(game).enemies == old(game).enemies,
            final(game).powerups == old(game).powerups,
            final(game).score == old(game).score,
            final(game).frame == old(game).frame,
            final(game).wave == old(game).wave,
            final(game).wave_state == old(game).wave_state,
            final(game).paused == old(game).paused,
            final(game).overlay == old(game).overlay,
            final(game).bg_color == old(game).bg_color,
            final(game).bg.t == old(game).bg.t,
            final(game).bg.color == old(game).bg.color,
            final(game).shots@.len() == old(game).shots@.len(),
            forall|i: int|
                0 <= i < old(game).shots@.len() ==> (#[trigger] final(game).shots@[i]) == old(game).shots@[i] || final(game).shots@[i] == (crate::shot::Shot {
                    pierce: (old(game).shots@[i].pierce - 1) as i64,
                    ..old(game).shots@[i]
                }),
            ({
                let moved = old(self).spec_move(old(game).player.pos);
                &&& (moved.spec_invincible() ==> *final(self) == moved && final(game).shots == old(game).shots && final(game).particles == old(game).particles && final(game).shake
                    == old(game).shake && children@.len() == 0)
                &&& (!moved.spec_invincible() ==> ({
                    let acc = spec_resolve_hits(moved, old(game).shots@);
                    &&& 0 <= acc.life <= moved.life
                    &&& *final(self) == (Enemy {
                        life: acc.life as i64,
                        knockback: acc.knockback,
                        ..moved
                    })
                    &&& final(game).shots@ == acc.shots
                    &&& final(game).particles@.len() == old(game).particles@.len() + acc.emitted
                    &&& (forall|i: int|
                        0 <= i < old(game).particles@.len() ==> (#[trigger] final(game).particles@[i]) == old(game).particles@[i])
                    &&& (forall|i: int|
                        old(game).particles@.len() <= i < final(game).particles@.len()
                            ==> spec_hit_particle_ok(moved.pos, #[trigger] final(game).particles@[i]))
                    &&& final(game).shake == (if old(game).shake + acc.hits
                        > 1_000_000_000_000_000 {
                        1_000_000_000_000_000
                    } else {
                        old(game).shake + acc.hits
                    })
                    &&& (acc.life <= 0 && old(self).level > 1 ==> children@.len() == 2
                        && children@[0] == Enemy::spec_new_kb(
                        moved.pos,
                        (old(self).level - 1) as u64,
                        spec_polar(spec_norm_angle(acc.hit_angle + 30_000), KNOCK_BACK as int),
                    ) && children@[1] == Enemy::spec_new_kb(
                        moved.pos,
                        (old(self).level - 1) as u64,
                        spec_polar(spec_norm_angle(acc.hit_angle - 30_000), KNOCK_BACK as int),
                    ))
                    &&& (!(acc.life <= 0 && old(self).level > 1) ==> children@.len() == 0)
                }))
            }),
    {
        let ghost g0 = *game;
        // Chase the player and integrate the motion.
        let target: i64 = crate::geom::atan2_mil(
            game.player.pos.y - self.pos.y,
            game.player.pos.x - self.pos.x,
        );
        let m: i64 = (((target - self.angle + 360_000) as u64) % 360_000) as i64;
        proof {
            crate::geom::lemma_mod_vanish_once((target - self.angle) as int);
        }
        let diff: i64 = ((((m + 180_000) as u64) % 360_000) as i64) - 180_000;
        let steer: i64 = crate::geom::mul_mil(diff, 90);
        self.angle = crate::geom::norm_angle_add(self.angle, steer);
        let cap: i64 = 4000 + 1000 * (self.level as i64);
        self.speed = if self.speed + 400 < cap {
            self.speed + 400
        } else {
            cap
        };
        let vel: Vec2 = polar(self.angle, self.speed);
        self.knockback = Vec2 {
            x: crate::geom::mul_mil(self.knockback.x, 800),
            y: crate::geom::mul_mil(self.knockback.y, 800),
        };
        self.pos = crate::geom::translate(
            crate::geom::translate(self.pos, vel),
            self.knockback,
        );
        let ghost moved = *self;
        proof {
            assert(moved == old(self).spec_move(old(game).player.pos));
        }
        // Resolve the shots against the enemy.
        let mut hit_angle: i64 = 0;
        let mut has_hit: bool = false;
        if !self.invincible() {
            let ghost init = HitAcc {
                life: moved.life as int,
                knockback: moved.knockback,
                hit: false,
                hit_angle: 0,
                shots: Seq::empty(),
                hits: 0,
                emitted: 0,
            };
            let ghost old_shots = game.shots@;
            let ghost mut acc = init;
            let n: usize = game.shots.len();
            let mut j: usize = 0;
            while j < n
                invariant
                    0 <= j <= n,
                    n == old_shots.len(),
                    old_shots == old(game).shots@,
                    g0 == *old(game),
                    old(game).wf(),
                    moved == old(self).spec_move(old(game).player.pos),
                    moved.wf(),
                    acc == spec_hits_prefix(moved.radius as int, moved.pos, init, old_shots, j as int),
                    init == (HitAcc {
                        life: moved.life as int,
                        knockback: moved.knockback,
                        hit: false,
                        hit_angle: 0,
                        shots: Seq::<crate::shot::Shot>::empty(),
                        hits: 0,
                        emitted: 0,
                    }),
                    self.pos == moved.pos,
                    self.speed == moved.speed,
                    self.angle == moved.angle,
                    self.radius == moved.radius,
                    self.level == moved.level,
                    self.color == moved.color,
                    self.life == acc.life,
                    self.knockback == acc.knockback,
                    has_hit == acc.hit,
                    acc.hit ==> hit_angle == acc.hit_angle,
                    0 <= acc.life <= moved.life,
                    -KNOCK_BACK <= acc.knockback.x <= KNOCK_BACK,
                    -KNOCK_BACK <= acc.knockback.y <= KNOCK_BACK,
                    acc.hit ==> 0 <= acc.hit_angle < TURN,
                    0 <= hit_angle < TURN,
                    game.shots@.len() == n,
                    acc.shots.len() == j,
                    forall|i: int| 0 <= i < j ==> (#[trigger] game.shots@[i]) == acc.shots[i],
                    forall|i: int| j <= i < n ==> (#[trigger] game.shots@[i]) == old_shots[i],
                    game.particles@.len() == old(game).particles@.len() + acc.emitted,
                    acc.emitted >= 0,
                    acc.hits >= 0,
                    forall|i: int|
                        0 <= i < old(game).particles@.len() ==> (#[trigger] game.particles@[i])
                            == old(game).particles@[i],
                    forall|i: int|
                        old(game).particles@.len() <= i < game.particles@.len()
                            ==> spec_hit_particle_ok(moved.pos, #[trigger] game.particles@[i])
                            && game.particles@[i].wf(),
                    game.shake == (if old(game).shake + acc.hits > 1_000_000_000_000_000 {
                        1_000_000_000_000_000
                    } else {
                        old(game).shake + acc.hits
                    }),
                    game.player == old(game).player,
                    game.enemies == old(game).enemies,
                    game.powerups == old(game).powerups,
                    game.score == old(game).score,
                    game.frame == old(game).frame,
                    game.wave == old(game).wave,
                    game.wave_state == old(game).wave_state,
                    game.paused == old(game).paused,
                    game.overlay == old(game).overlay,
                    game.bg_color == old(game).bg_color,
                    game.bg.wf(),
                    game.bg.t == old(game).bg.t,
                    game.bg.color == old(game).bg.color,
                decreases n - j,
            {
                let s: crate::shot::Shot = game.shots[j];
                proof {
                    assert(s == old_shots[j as int]);
                    assert(s.wf());
                }
                let prox: i64 = s.radius + self.radius;
                proof {
                    assert(prox * prox <= 400_000_000_000_000_000) by (nonlinear_arith)
                        requires
                            0 <= prox <= 200_000_000,
                    ;
                }
                if s.pierce > 0 && crate::geom::len2(s.pos, self.pos) < prox * prox {
                    let mut s2 = s;
                    s2.pierce = s2.pierce - 1;
                    game.shots.set(j, s2);
                    let dmg: i64 = if s.damage <= self.life {
                        s.damage
                    } else {
                        self.life
                    };
                    self.life = self.life - dmg;
                    let a: i64 = crate::geom::atan2_mil(s.vel.y, s.vel.x);
                    hit_angle = a;
                    has_hit = true;
                    self.knockback = polar(a, KNOCK_BACK);
                    game.shake = crate::game::shake_add(game.shake, 1);
                    game.bg.chaos(&mut game.rng);
                    emit_hit_shards(&mut game.particles, &mut game.rng, self.pos, a, dmg);
                    proof {
                        crate::geom::lemma_atan2_bounds(s.vel.y as int, s.vel.x as int);
                        crate::geom::lemma_sin_bounds(a as int);
                        crate::geom::lemma_cos_bounds(a as int);
                    }
                } else {
                }
                proof {
                    acc = spec_hit_step(moved.radius as int, moved.pos, acc, old_shots[j as int]);
                    assert(acc == spec_hits_prefix(
                        moved.radius as int,
                        moved.pos,
                        init,
                        old_shots,
                        j + 1,
                    ));
                }
                j = j + 1;
            }
            proof {
                assert(acc == spec_resolve_hits(moved, old(game).shots@));
                lemma_hits_props(moved.radius as int, moved.pos, init, old_shots, n as int);
                assert forall|i: int| 0 <= i < old(game).shots@.len() implies (#[trigger] game.shots@[i])
                    == old(game).shots@[i] || (old(game).shots@[i].pierce > 0 && game.shots@[i]
                    == (crate::shot::Shot {
                    pierce: (old(game).shots@[i].pierce - 1) as i64,
                    ..old(game).shots@[i]
                })) by {
                    assert(game.shots@[i] == acc.shots[i]);
                    assert(acc.shots[0 + i] == old_shots[i] || (old_shots[i].pierce > 0
                        && acc.shots[0 + i] == (crate::shot::Shot {
                        pierce: (old_shots[i].pierce - 1) as i64,
                        ..old_shots[i]
                    })));
                }
                assert forall|i: int| 0 <= i < game.shots@.len() implies (
                #[trigger] game.shots@[i]).wf() by {
                    assert(game.shots@[i] == old(game).shots@[i] || (old(game).shots@[i].pierce
                        > 0 && game.shots@[i] == (crate::shot::Shot {
                        pierce: (old(game).shots@[i].pierce - 1) as i64,
                        ..old(game).shots@[i]
                    })));
                    assert(old(game).shots@[i].wf());
                }
            }
        }
        // A kill above level one splits into two children.
        if !(self.life > 0) && self.level > 1 {
            proof {
                if !moved.spec_invincible() {
                    lemma_hits_props(
                        moved.radius as int,
                        moved.pos,
                        HitAcc {
                            life: moved.life as int,
                            knockback: moved.knockback,
                            hit: false,
                            hit_angle: 0,
                            shots: Seq::empty(),
                            hits: 0,
                            emitted: 0,
                        },
                        old(game).shots@,
                        old(game).shots@.len() as int,
                    );
                }
            }
            let kb1: Vec2 = polar(norm_angle_add(hit_angle, 30_000), KNOCK_BACK);
            let kb2: Vec2 = polar(norm_angle_add(hit_angle, -30_000), KNOCK_BACK);
            proof {
                let a1 = spec_norm_angle(hit_angle + 30_000);
                let a2 = spec_norm_angle(hit_angle - 30_000);
                crate::geom::lemma_sin_bounds(a1);
                crate::geom::lemma_cos_bounds(a1);
                crate::geom::lemma_sin_bounds(a2);
                crate::geom::lemma_cos_bounds(a2);
                crate::geom::lemma_mul_mil_bound(KNOCK_BACK as int, crate::geom::spec_cos(a1));
                crate::geom::lemma_mul_mil_bound(KNOCK_BACK as int, crate::geom::spec_sin(a1));
                crate::geom::lemma_mul_mil_bound(KNOCK_BACK as int, crate::geom::spec_cos(a2));
                crate::geom::lemma_mul_mil_bound(KNOCK_BACK as int, crate::geom::spec_sin(a2));
            }
            let c1 = Enemy::new_kb(self.pos, self.level - 1, kb1);
            let c2 = Enemy::new_kb(self.pos, self.level - 1, kb2);
            let mut children: Vec<Enemy> = Vec::new();
            children.push(c1);
            children.push(c2);
            children
        } else {
            Vec::new()
        }
    }
}

/// Throw `dmg + 1` hit shards from a hit at `pos`, scattered around the
/// killing direction `a`.
fn emit_hit_shards(
    particles: &mut Vec<Particle>,
    rng: &mut rand_xorshift::XorShiftRng,
    pos: Vec2,
    a: i64,
    dmg: i64,
)
    requires
        0 <= dmg <= 500,
        0 <= a < TURN,
        pos.wf(),
        forall|i: int| 0 <= i < old(particles)@.len() ==> (#[trigger] old(particles)@[i]).wf(),
    ensures
        final(particles)@.len() == old(particles)@.len() + dmg + 1,
        forall|i: int|
            0 <= i < old(particles)@.len() ==> (#[trigger] final(particles)@[i]) == old(particles)@[i],
        forall|i: int|
            old(particles)@.len() <= i < final(particles)@.len() ==> spec_hit_particle_ok(
                pos,
                #[trigger] final(particles)@[i],
            ) && final(particles)@[i].wf(),
{
    let mut k: i64 = 0;
    while k < dmg + 1
        invariant
            0 <= k <= dmg + 1,
            dmg <= 500,
            0 <= a < TURN,
            pos.wf(),
            particles@.len() == old(particles)@.len() + k,
            forall|i: int|
                0 <= i < old(particles)@.len() ==> (#[trigger] particles@[i]) == old(particles)@[i],
            forall|i: int|
                old(particles)@.len() <= i < particles@.len() ==> spec_hit_particle_ok(
                    pos,
                    #[trigger] particles@[i],
                ) && particles@[i].wf(),
        decreases dmg + 1 - k,
    {
        let speed: i64 = crate::rng::sample_normal(rng, 60_000, 12_000);
        let raw: i64 = crate::rng::sample_normal(rng, a, 40_000);
        let angle: i64 = crate::geom::norm_angle_add(0, raw);
        let p = Particle {
            pos,
            speed,
            angle,
            damp: 800,
            accel: 0,
            angular_vel: 0,
            bias: Vec2 { x: 0, y: 0 },
            shape: Shape::Shard(200, 3000, true),
            color: crate::colors::Rgba { r: 1000, g: 1000, b: 1000, a: 800 },
            alpha_scale: 10_000,
        };
        particles.push(p);
        k = k + 1;
    }
}

} // verus!
