use vstd::prelude::*;
use crate::background::Background;
use crate::colors::Rgba;
use crate::enemy::{Enemy, LEVEL_MAX};
use crate::geom::{Vec2, spec_in_screen};
use crate::overlay::Overlay;
use crate::particles::Particle;
use crate::player::Player;
use crate::powerup::{Power, PowerUp, spawn_offscreen};
use crate::rng::{rng_from_seed, rng_range, sample_one_in, sample_range};
use crate::shot::Shot;

verus! {

/// The wave counter and the other monotone counters saturate here.
pub const COUNTER_CAP: u64 = 1_000_000_000_000_000;

/// The game phase: fighting a wave, letting it drain, or one of the
/// counted announcement pauses around the power-up intermission.
#[derive(Clone, Copy, Debug, PartialEq, Eq, Structural)]
pub enum WaveState {
    Ongoing,
    WaitToEnd,
    AnnouncePowerUp(u32),
    PowerUp,
    AnnounceWave(u32),
}

/// Powers of four, saturated at the score cap: the score threshold that
/// ends a wave.
pub open spec fn spec_pow4(n: nat) -> int
    decreases n,
{
    if n == 0 {
        1
    } else {
        4 * spec_pow4((n - 1) as nat)
    }
}

pub open spec fn spec_pow4_sat(n: nat) -> int {
    if spec_pow4(n) > COUNTER_CAP {
        COUNTER_CAP as int
    } else {
        spec_pow4(n)
    }
}

proof fn lemma_pow4_mono(n: nat)
    ensures
        spec_pow4(n) >= 1,
        spec_pow4(n + 1) >= spec_pow4(n),
    decreases n,
{
    if n > 0 {
        lemma_pow4_mono((n - 1) as nat);
    }
}

pub fn pow4_sat(n: u64) -> (r: u64)
    ensures
        r == spec_pow4_sat(n as nat),
{
    let mut acc: u64 = 1;
    let mut i: u64 = 0;
    while i < n
        invariant
            0 <= i <= n,
            spec_pow4(i as nat) <= COUNTER_CAP ==> acc == spec_pow4(i as nat),
            spec_pow4(i as nat) > COUNTER_CAP ==> acc == COUNTER_CAP,
            1 <= acc <= COUNTER_CAP,
        decreases n - i,
    {
        proof {
            lemma_pow4_mono(i as nat);
            assert(spec_pow4((i + 1) as nat) == 4 * spec_pow4(i as nat));
        }
        if acc <= COUNTER_CAP / 4 {
            acc = acc * 4;
            proof {
                if spec_pow4(i as nat) > COUNTER_CAP {
                    assert(false);
                }
            }
        } else {
            acc = COUNTER_CAP;
        }
        i = i + 1;
    }
    acc
}

/// A counter bumped by one, held at the cap.
pub open spec fn spec_inc_sat(v: u64) -> u64 {
    if v < COUNTER_CAP {
        (v + 1) as u64
    } else {
        v
    }
}

fn inc_sat(v: u64) -> (r: u64)
    ensures
        r == spec_inc_sat(v),
{
    if v < COUNTER_CAP {
        v + 1
    } else {
        v
    }
}

/// A sum into a counter, held at the cap.
pub open spec fn spec_add_sat(v: u64, d: u64) -> u64 {
    if v + d > COUNTER_CAP {
        COUNTER_CAP
    } else {
        (v + d) as u64
    }
}

fn add_sat(v: u64, d: u64) -> (r: u64)
    requires
        d <= COUNTER_CAP,
    ensures
        r == spec_add_sat(v, d),
{
    if v > COUNTER_CAP - d {
        COUNTER_CAP
    } else {
        v + d
    }
}

/// The screen-shake counter bumped and held at the cap.
pub open spec fn spec_shake_add(v: i64, d: i64) -> i64 {
    if v + d > 1_000_000_000_000_000 {
        1_000_000_000_000_000
    } else {
        (v + d) as i64
    }
}

pub fn shake_add(v: i64, d: i64) -> (r: i64)
    requires
        0 <= v <= 1_000_000_000_000_000,
        0 <= d <= 1000,
    ensures
        r == spec_shake_add(v, d),
        0 <= r <= 1_000_000_000_000_000,
{
    if v > 1_000_000_000_000_000 - d {
        1_000_000_000_000_000
    } else {
        v + d
    }
}

/// The whole simulation state: every entity collection, the random
/// stream, the phase machine and the cosmetic layers, owned together.
pub struct Game {
    pub bg_color: Rgba,
    pub rng: rand_xorshift::XorShiftRng,
    pub particles: Vec<Particle>,
    pub player: Player,
    pub enemies: Vec<Enemy>,
    pub shots: Vec<Shot>,
    pub powerups: Vec<PowerUp>,
    pub frame: u64,
    pub paused: bool,
    pub score: u64,
    pub shake: i64,
    pub wave: u64,
    pub wave_state: WaveState,
    pub bg: Background,
    pub overlay: Overlay,
}

impl Game {
    pub open spec fn wf(self) -> bool {
        &&& self.player.wf()
        &&& (forall|i: int| 0 <= i < self.particles@.len() ==> (#[trigger] self.particles@[i]).wf())
        &&& (forall|i: int|
            0 <= i < self.enemies@.len() ==> (#[trigger] self.enemies@[i]).wf()
                && self.enemies@[i].spec_alive())
        &&& (forall|i: int| 0 <= i < self.shots@.len() ==> (#[trigger] self.shots@[i]).wf())
        &&& (forall|i: int| 0 <= i < self.powerups@.len() ==> (#[trigger] self.powerups@[i]).wf())
        &&& self.score <= COUNTER_CAP
        &&& self.frame <= COUNTER_CAP
        &&& 0 <= self.shake <= 1_000_000_000_000_000
        &&& self.wave <= COUNTER_CAP
        &&& (self.wave_state == WaveState::Ongoing ==> 1 <= self.wave)
        &&& ((self.wave_state matches WaveState::AnnounceWave(_)) ==> 1 <= self.wave)
        &&& self.bg.wf()
        &&& self.overlay.wf()
    }

    /// A fresh game: the seeded stream, a new player, empty collections,
    /// and the power-up intermission of wave four about to end.
    pub fn new() -> (g: Game)
        ensures
            g.wf(),
            g.player == Player::spec_new(),
            g.particles@.len() == 0,
            g.enemies@.len() == 0,
            g.shots@.len() == 0,
            g.powerups@.len() == 0,
            g.frame == 0,
            !g.paused,
            g.score == 0,
            g.shake == 0,
            g.wave == 4,
            g.wave_state == WaveState::PowerUp,
            !g.overlay.visible,
            g.bg_color == (Rgba { r: 8, g: 31, b: 71, a: 1000 }),
    {
        let seed: [u8; 16] = [42, 42, 42, 42, 42, 42, 42, 42, 42, 42, 42, 42, 42, 42, 42, 42];
        let mut rng = rng_from_seed(seed);
        let bg = Background::new(&mut rng);
        let mut overlay = Overlay::pause();
        overlay.visible = false;
        Game {
            bg,
            bg_color: Rgba { r: 8, g: 31, b: 71, a: 1000 },
            rng,
            particles: Vec::new(),
            player: Player::new(),
            shots: Vec::new(),
            enemies: Vec::new(),
            powerups: Vec::new(),
            paused: false,
            wave: 4,
            wave_state: WaveState::PowerUp,
            score: 0,
            frame: 0,
            shake: 0,
            overlay,
        }
    }

    /// A user-triggered restart: reset every collection and counter,
    /// reseed the random stream, and rebuild the background.
    pub fn restart(&mut self)
        requires
            old(self).wf(),
        ensures
            final(self).wf(),
            final(self).player == Player::spec_new(),
            final(self).enemies@.len() == 0,
            final(self).shots@.len() == 0,
            final(self).powerups@.len() == 0,
            final(self).wave == 0,
            final(self).wave_state == WaveState::PowerUp,
            final(self).frame == 0,
            !final(self).paused,
            final(self).score == 0,
            final(self).overlay == old(self).overlay,
            final(self).bg.wf(),
    {
        self.player = Player::new();
        self.enemies = Vec::new();
        self.shots = Vec::new();
        self.powerups = Vec::new();
        self.wave = 0;
        self.wave_state = WaveState::PowerUp;
        self.frame = 0;
        self.paused = false;
        self.score = 0;
        let seed: [u8; 16] = [42, 42, 42, 42, 42, 42, 42, 42, 42, 42, 42, 42, 42, 42, 42, 42];
        self.rng = rng_from_seed(seed);
        self.bg = Background::new(&mut self.rng);
    }

    /// Toggle the pause overlay; a dead player cannot pause.
    pub fn toggle_pause(&mut self)
        requires
            old(self).wf(),
        ensures
            final(self).wf(),
            old(self).player.life == 0 ==> *final(self) == *old(self),
            old(self).player.life > 0 ==> final(self).paused == !old(self).paused,
            old(self).player.life > 0 && !old(self).paused ==> final(self).overlay == (Overlay {
                msg: crate::overlay::OverlayMsg::Paused,
                color: Rgba { r: 1000, g: 1000, b: 0, a: 1000 },
                visible: true,
                height: 120_000,
                frame: 0,
            }),
            old(self).player.life > 0 && old(self).paused ==> final(self).overlay == (Overlay {
                visible: false,
                ..old(self).overlay
            }),
            final(self).player == old(self).player,
            final(self).enemies == old(self).enemies,
            final(self).shots == old(self).shots,
            final(self).powerups == old(self).powerups,
            final(self).score == old(self).score,
            final(self).wave_state == old(self).wave_state,
    {
        if self.player.life > 0 {
            self.paused = !self.paused;
            if self.paused {
                self.overlay = Overlay::pause();
            } else {
                self.overlay.visible = false;
            }
        }
    }

    /// On the enemy-spawn cadence tick, put one new enemy just outside
    /// the screen, its level drawn up to twice the current wave.
    pub fn spawn_enemy(&mut self)
        requires
            old(self).wf(),
            1 <= old(self).wave,
        ensures
            final(self).wf(),
            old(self).frame % 42 != 17 ==> *final(self) == *old(self),
            old(self).frame % 42 == 17 ==> final(self).enemies@.len() == old(self).enemies@.len()
                + 1 && final(self).enemies@.drop_last() == old(self).enemies@ && spawned_enemy_ok(
                final(self).enemies@.last(),
                old(self).wave,
            ),
            final(self).player == old(self).player,
            final(self).shots == old(self).shots,
            final(self).powerups == old(self).powerups,
            final(self).particles == old(self).particles,
            final(self).score == old(self).score,
            final(self).frame == old(self).frame,
            final(self).wave == old(self).wave,
            final(self).wave_state == old(self).wave_state,
            final(self).shake == old(self).shake,
            final(self).paused == old(self).paused,
            final(self).overlay == old(self).overlay,
            final(self).bg == old(self).bg,
            final(self).bg_color == old(self).bg_color,
    {
        if self.frame % 42 != 17 {
            return ;
        }
        let pos: Vec2 = spawn_offscreen(&mut self.rng);
        let hi_wide: u64 = if self.wave > LEVEL_MAX / 2 {
            LEVEL_MAX
        } else {
            2 * self.wave
        };
        let level_u32: u32 = rng_range(&mut self.rng, 1, (hi_wide + 1) as u32);
        let e = Enemy::new(pos, level_u32 as u64);
        self.enemies.push(e);
    }

    /// Rarely, spawn a drifting power-up, life-heavy among the kinds.
    pub fn spawn_powerup(&mut self)
        requires
            old(self).wf(),
        ensures
            final(self).wf(),
            final(self).powerups@.len() == old(self).powerups@.len() || final(self).powerups@.len() == old(self).powerups@.len() + 1,
            final(self).powerups@.len() == old(self).powerups@.len() ==> final(self).powerups
                == old(self).powerups,
            final(self).powerups@.len() == old(self).powerups@.len() + 1 ==> final(self).powerups@.drop_last() == old(self).powerups@ && final(self).powerups@.last().wf()
                && final(self).powerups@.last().hits == 5,
            final(self).player == old(self).player,
            final(self).shots == old(self).shots,
            final(self).enemies == old(self).enemies,
            final(self).particles == old(self).particles,
            final(self).score == old(self).score,
            final(self).frame == old(self).frame,
            final(self).wave == old(self).wave,
            final(self).wave_state == old(self).wave_state,
            final(self).shake == old(self).shake,
            final(self).paused == old(self).paused,
            final(self).overlay == old(self).overlay,
            final(self).bg == old(self).bg,
            final(self).bg_color == old(self).bg_color,
    {
        let b: bool = sample_one_in(&mut self.rng, 1800);
        if b {
            let u: u32 = rng_range(&mut self.rng, 0, 7);
            let kind: Power = if u < 4 {
                Power::LifeUp
            } else if u == 4 {
                Power::ShotUp
            } else if u == 5 {
                Power::PierceUp
            } else {
                Power::DamageUp
            };
            let p = PowerUp::new(kind, &mut self.rng);
            self.powerups.push(p);
        }
    }
}

impl Game {
    /// The score at which the current wave is considered won.
    pub open spec fn spec_wave_threshold(self) -> int {
        spec_pow4_sat((self.wave + 1) as nat)
    }

    /// The phase the transition table moves this state to.
    pub open spec fn spec_wave_next(self) -> WaveState {
        match self.wave_state {
            WaveState::Ongoing => if self.score >= self.spec_wave_threshold() {
                WaveState::WaitToEnd
            } else {
                WaveState::Ongoing
            },
            WaveState::WaitToEnd => if self.enemies@.len() == 0 {
                WaveState::AnnouncePowerUp(45)
            } else {
                WaveState::WaitToEnd
            },
            WaveState::AnnouncePowerUp(t) => if t > 0 {
                WaveState::AnnouncePowerUp((t - 1) as u32)
            } else {
                WaveState::PowerUp
            },
            WaveState::PowerUp => if self.powerups@.len() <= 2 {
                WaveState::AnnounceWave(60)
            } else {
                WaveState::PowerUp
            },
            WaveState::AnnounceWave(t) => if t > 0 {
                WaveState::AnnounceWave((t - 1) as u32)
            } else {
                WaveState::Ongoing
            },
        }
    }

    /// The wave counter after the transition: it rises only when the
    /// intermission ends.
    pub open spec fn spec_wave_next_wave(self) -> u64 {
        if self.wave_state == WaveState::PowerUp && self.powerups@.len() <= 2 {
            spec_inc_sat(self.wave)
        } else {
            self.wave
        }
    }

    /// The power-up collection the transition leaves behind: the fixed
    /// four-pickup layout when the announcement ends, nothing when the
    /// intermission ends, and the old collection otherwise.
    pub open spec fn spec_wave_next_powerups(self) -> Seq<PowerUp> {
        if self.wave_state == WaveState::AnnouncePowerUp(0) {
            spec_fixed_powerups()
        } else if self.wave_state == WaveState::PowerUp && self.powerups@.len() <= 2 {
            Seq::empty()
        } else {
            self.powerups@
        }
    }

    /// The overlay the transition leaves behind: the announcement
    /// banners when one starts, hidden when a countdown ends, and the
    /// old overlay otherwise.
    pub open spec fn spec_wave_next_overlay(self) -> Overlay {
        if self.wave_state == WaveState::WaitToEnd && self.enemies@.len() == 0 {
            Overlay {
                msg: crate::overlay::OverlayMsg::PickTwo,
                color: Rgba { r: 0, g: 1000, b: 0, a: 1000 },
                visible: true,
                height: 120_000,
                frame: 0,
            }
        } else if self.wave_state == WaveState::PowerUp && self.powerups@.len() <= 2 {
            Overlay {
                msg: crate::overlay::OverlayMsg::Wave(spec_inc_sat(self.wave)),
                color: Rgba { r: 1000, g: 500, b: 0, a: 1000 },
                visible: true,
                height: 120_000,
                frame: 0,
            }
        } else if self.wave_state == WaveState::AnnouncePowerUp(0) || self.wave_state
            == WaveState::AnnounceWave(0) {
            Overlay { visible: false, ..self.overlay }
        } else {
            self.overlay
        }
    }

    /// One evaluation of the phase transition table, taken in priority
    /// order: win the wave on the score threshold, drain it, count the
    /// power-up announcement down into the fixed four-pickup layout,
    /// leave the intermission once at most two pickups remain, and count
    /// the wave announcement down into the next fight.
    pub fn wave_step(&mut self)
        requires
            old(self).wf(),
        ensures
            final(self).wf(),
            final(self).player == old(self).player,
            final(self).shots == old(self).shots,
            final(self).enemies == old(self).enemies,
            final(self).particles == old(self).particles,
            final(self).score == old(self).score,
            final(self).frame == old(self).frame,
            final(self).shake == old(self).shake,
            final(self).paused == old(self).paused,
            final(self).bg == old(self).bg,
            final(self).bg_color == old(self).bg_color,
            final(self).wave_state == old(self).spec_wave_next(),
            final(self).wave == old(self).spec_wave_next_wave(),
            final(self).powerups@ == old(self).spec_wave_next_powerups(),
            final(self).overlay == old(self).spec_wave_next_overlay(),
            old(self).wave_state == WaveState::Ongoing && old(self).score >= old(self).spec_wave_threshold() ==> final(self).wave_state == WaveState::WaitToEnd && final(self).wave == old(self).wave && final(self).powerups == old(self).powerups && final(self).overlay == old(self).overlay,
            old(self).wave_state == WaveState::Ongoing && old(self).score < old(self).spec_wave_threshold() ==> unchanged_phase(*old(self), *final(self)),
            old(self).wave_state == WaveState::WaitToEnd && old(self).enemies@.len() == 0 ==> final(self).wave_state == WaveState::AnnouncePowerUp(45) && final(self).overlay == (Overlay {
                msg: crate::overlay::OverlayMsg::PickTwo,
                color: Rgba { r: 0, g: 1000, b: 0, a: 1000 },
                visible: true,
                height: 120_000,
                frame: 0,
            }) && final(self).wave == old(self).wave && final(self).powerups == old(self).powerups,
            old(self).wave_state == WaveState::WaitToEnd && old(self).enemies@.len() > 0
                ==> unchanged_phase(*old(self), *final(self)),
            old(self).wave_state matches WaveState::AnnouncePowerUp(t) ==> ((t > 0 ==> final(self).wave_state == WaveState::AnnouncePowerUp((t - 1) as u32) && final(self).wave == old(self).wave && final(self).powerups == old(self).powerups && final(self).overlay == old(self).overlay) && (t == 0 ==> final(self).wave_state == WaveState::PowerUp && final(self).overlay == (Overlay { visible: false, ..old(self).overlay }) && final(self).wave
                == old(self).wave && final(self).powerups@ == spec_fixed_powerups())),
            old(self).wave_state == WaveState::PowerUp && old(self).powerups@.len() <= 2 ==> final(self).wave == spec_inc_sat(old(self).wave) && final(self).powerups@.len() == 0 && final(self).wave_state == WaveState::AnnounceWave(60) && final(self).overlay == (Overlay {
                msg: crate::overlay::OverlayMsg::Wave(spec_inc_sat(old(self).wave)),
                color: Rgba { r: 1000, g: 500, b: 0, a: 1000 },
                visible: true,
                height: 120_000,
                frame: 0,
            }),
            old(self).wave_state == WaveState::PowerUp && old(self).powerups@.len() > 2
                ==> unchanged_phase(*old(self), *final(self)),
            old(self).wave_state matches WaveState::AnnounceWave(t) ==> ((t > 0 ==> final(self).wave_state == WaveState::AnnounceWave((t - 1) as u32) && final(self).wave == old(self).wave && final(self).powerups == old(self).powerups && final(self).overlay == old(self).overlay) && (t == 0 ==> final(self).wave_state == WaveState::Ongoing && final(self).overlay == (Overlay { visible: false, ..old(self).overlay }) && final(self).wave
                == old(self).wave && final(self).powerups == old(self).powerups)),
    {
        let state = self.wave_state;
        if state == WaveState::Ongoing {
            let threshold = pow4_sat(add_sat_small(self.wave));
            if self.score >= threshold {
                self.wave_state = WaveState::WaitToEnd;
            }
        } else if state == WaveState::WaitToEnd {
            if self.enemies.len() == 0 {
                self.overlay = Overlay::powerup();
                self.wave_state = WaveState::AnnouncePowerUp(45);
            }
        } else if let WaveState::AnnouncePowerUp(t) = state {
            if t > 0 {
                self.wave_state = WaveState::AnnouncePowerUp(t - 1);
            } else {
                self.overlay.visible = false;
                let mut pus: Vec<PowerUp> = Vec::new();
                pus.push(
                    PowerUp::new_fixed(Power::DamageUp, Vec2 { x: 325_000, y: 200_000 }),
                );
                pus.push(PowerUp::new_fixed(Power::LifeUp, Vec2 { x: 975_000, y: 200_000 }));
                pus.push(
                    PowerUp::new_fixed(Power::PierceUp, Vec2 { x: 325_000, y: 600_000 }),
                );
                pus.push(PowerUp::new_fixed(Power::ShotUp, Vec2 { x: 975_000, y: 600_000 }));
                proof {
                    assert(pus@ =~= spec_fixed_powerups());
                }
                self.powerups = pus;
                self.wave_state = WaveState::PowerUp;
            }
        } else if state == WaveState::PowerUp {
            if self.powerups.len() <= 2 {
                self.wave = inc_sat(self.wave);
                self.powerups = Vec::new();
                self.overlay = Overlay::wave(self.wave);
                self.wave_state = WaveState::AnnounceWave(60);
            }
        } else if let WaveState::AnnounceWave(t) = state {
            if t > 0 {
                self.wave_state = WaveState::AnnounceWave(t - 1);
            } else {
                self.overlay.visible = false;
                self.wave_state = WaveState::Ongoing;
            }
        }
    }
}

impl Game {
    /// The particle pass of a tick: advance and cull the existing
    /// particles first — so sparks born this tick are drawn at least
    /// once — then gather fresh emissions, in order: the overlay's edge
    /// shards, one trail shard per shot, four player trail sparks, each
    /// enemy's idle sparks (denser when few enemies remain), and four
    /// sparks per power-up.
    #[verifier::rlimit(100)]
    pub fn collect_particles(&mut self)
        requires
            old(self).wf(),
        ensures
            final(self).wf(),
            final(self).player == old(self).player,
            final(self).enemies == old(self).enemies,
            final(self).shots == old(self).shots,
            final(self).powerups == old(self).powerups,
            final(self).score == old(self).score,
            final(self).frame == old(self).frame,
            final(self).wave == old(self).wave,
            final(self).wave_state == old(self).wave_state,
            final(self).shake == old(self).shake,
            final(self).paused == old(self).paused,
            final(self).bg == old(self).bg,
            final(self).bg_color == old(self).bg_color,
            final(self).overlay == old(self).overlay.spec_tick(),
            ({
                let survivors = crate::live::spec_live_particles(
                    old(self).particles@.map_values(|p: Particle| p.spec_step()),
                );
                final(self).particles@.len() >= survivors.len() && final(self).particles@.take(
                    survivors.len() as int,
                ) == survivors
            }),
            ({
                let survivors = crate::live::spec_live_particles(
                    old(self).particles@.map_values(|p: Particle| p.spec_step()),
                );
                let b = survivors.len() as int;
                let ov: int = if old(self).overlay.visible && old(self).overlay.spec_tick().frame
                    % 6 < 1 {
                    2
                } else {
                    0
                };
                let nsh = old(self).shots@.len() as int;
                let nen = old(self).enemies@.len() as int;
                let npu = old(self).powerups@.len() as int;
                let density = spec_density(nen);
                &&& (ov == 2 ==> final(self).particles@[b] == old(self).overlay.spec_edge_particle(
                    true,
                ) && final(self).particles@[b + 1] == old(self).overlay.spec_edge_particle(false))
                &&& (forall|x: int|
                    0 <= x < nsh ==> old(self).shots@[x].spec_trail_particle_ok(
                        #[trigger] final(self).particles@[b + ov + x],
                    ))
                &&& (forall|x: int|
                    0 <= x < 4 ==> old(self).player.spec_trail_particle_ok(
                        #[trigger] final(self).particles@[b + ov + nsh + x],
                    ))
                &&& exists|counts: Seq<int>|
                    {
                        &&& counts.len() == nen
                        &&& (forall|e: int|
                            0 <= e < nen ==> (#[trigger] counts[e]) == density / 1000 || counts[e]
                                == density / 1000 + 1)
                        &&& final(self).particles@.len() == b + ov + nsh + 4 + spec_sum(counts) + 4
                            * npu
                        &&& (forall|e: int, x: int|
                            0 <= e < nen && 0 <= x < counts[e] ==> old(
                                self,
                            ).enemies@[e].spec_idle_particle_ok(
                                #[trigger] final(self).particles@[b + ov + nsh + 4 + spec_sum(
                                    counts.take(e),
                                ) + x],
                            ))
                        &&& (forall|u: int, x: int|
                            0 <= u < npu && 0 <= x < 4 ==> old(
                                self,
                            ).powerups@[u].spec_idle_particle_ok(
                                #[trigger] final(self).particles@[b + ov + nsh + 4 + spec_sum(
                                    counts,
                                ) + 4 * u + x],
                                x,
                            ))
                    }
            }),
    {
        let ghost stepped = old(self).particles@.map_values(|p: Particle| p.spec_step());
        let n: usize = self.particles.len();
        let mut kept: Vec<Particle> = Vec::new();
        let mut i: usize = 0;
        while i < n
            invariant
                0 <= i <= n,
                n == old(self).particles@.len(),
                *self == *old(self),
                old(self).wf(),
                stepped == old(self).particles@.map_values(|p: Particle| p.spec_step()),
                kept@ == crate::live::spec_live_particles(stepped.take(i as int)),
                forall|j: int| 0 <= j < kept@.len() ==> (#[trigger] kept@[j]).wf(),
            decreases n - i,
        {
            let mut p = self.particles[i];
            let alive = p.update();
            proof {
                assert(stepped.take(i + 1).drop_last() =~= stepped.take(i as int));
                assert(stepped.take(i + 1) =~= stepped.take(i as int).push(stepped[i as int]));
                stepped.take(i as int).lemma_filter_push(
                    stepped[i as int],
                    |x: Particle| x.spec_alive(),
                );
                assert(p == stepped[i as int]);
            }
            if alive {
                kept.push(p);
            }
            i = i + 1;
        }
        proof {
            assert(stepped.take(n as int) =~= stepped);
        }
        self.particles = kept;
        let ghost base = self.particles@;
        // Overlay edge shards.
        let mut from_overlay = self.overlay.particles();
        let ghost ov0 = from_overlay@;
        let ghost ovn = ov0.len() as int;
        proof {
            assert(self.particles@.add(ov0).take(base.len() as int) =~= base);
            assert(ovn == (if old(self).overlay.visible && old(self).overlay.spec_tick().frame % 6
                < 1 {
                2int
            } else {
                0int
            }));
        }
        self.particles.append(&mut from_overlay);
        let ghost p1 = self.particles@;
        proof {
            assert(ovn == 2 ==> p1[base.len() as int] == old(self).overlay.spec_edge_particle(true)
                && p1[base.len() as int + 1] == old(self).overlay.spec_edge_particle(false));
        }
        // One trail shard per shot.
        let ns: usize = self.shots.len();
        let mut j: usize = 0;
        while j < ns
            invariant
                0 <= j <= ns,
                self.wf(),
                ns == self.shots@.len(),
                self.player == old(self).player,
                self.enemies == old(self).enemies,
                self.shots == old(self).shots,
                self.powerups == old(self).powerups,
                self.score == old(self).score,
                self.frame == old(self).frame,
                self.wave == old(self).wave,
                self.wave_state == old(self).wave_state,
                self.shake == old(self).shake,
                self.paused == old(self).paused,
                self.bg == old(self).bg,
                self.bg_color == old(self).bg_color,
                self.overlay == old(self).overlay.spec_tick(),
                self.overlay.wf(),
                old(self).wf(),
                self.particles@.len() == p1.len() + j,
                self.particles@.take(p1.len() as int) == p1,
                forall|x: int|
                    0 <= x < j ==> old(self).shots@[x].spec_trail_particle_ok(
                        #[trigger] self.particles@[p1.len() + x],
                    ),
            decreases ns - j,
        {
            let s: Shot = self.shots[j];
            let mut emitted = s.particles(&mut self.rng);
            let ghost emitted0 = emitted@;
            proof {
                assert(self.particles@.add(emitted0).take(p1.len() as int) =~= p1);
            }
            self.particles.append(&mut emitted);
            proof {
                assert(self.particles@[p1.len() + j] == emitted0[0]);
            }
            j = j + 1;
        }
        let ghost p2 = self.particles@;
        // Four player trail sparks.
        let pl: Player = self.player;
        let mut from_player = pl.particles(&mut self.rng);
        let ghost plv = from_player@;
        proof {
            assert(self.particles@.add(plv).take(p2.len() as int) =~= p2);
        }
        self.particles.append(&mut from_player);
        let ghost p3 = self.particles@;
        proof {
            assert(forall|x: int|
                0 <= x < 4 ==> (#[trigger] p3[p2.len() + x]) == plv[x]);
        }
        // Idle sparks per enemy, denser when few remain.
        let n_en: usize = self.enemies.len();
        let density: i64 = if n_en >= 617 {
            300
        } else {
            (200_000 / ((50 + n_en) as u64)) as i64
        };
        proof {
            if n_en < 617 {
                assert(200_000 as int / ((50 + n_en) as int) <= 4000) by (nonlinear_arith)
                    requires
                        50 <= (50 + n_en) as int,
                ;
            }
            assert(density == spec_density(n_en as int));
        }
        let ghost mut counts: Seq<int> = Seq::empty();
        let mut k: usize = 0;
        while k < n_en
            invariant
                0 <= k <= n_en,
                self.wf(),
                n_en == self.enemies@.len(),
                0 <= density <= 10_000,
                density == spec_density(n_en as int),
                self.player == old(self).player,
                self.enemies == old(self).enemies,
                self.shots == old(self).shots,
                self.powerups == old(self).powerups,
                self.score == old(self).score,
                self.frame == old(self).frame,
                self.wave == old(self).wave,
                self.wave_state == old(self).wave_state,
                self.shake == old(self).shake,
                self.paused == old(self).paused,
                self.bg == old(self).bg,
                self.bg_color == old(self).bg_color,
                self.overlay == old(self).overlay.spec_tick(),
                self.overlay.wf(),
                old(self).wf(),
                counts.len() == k,
                forall|e: int|
                    0 <= e < k ==> (#[trigger] counts[e]) == density / 1000 || counts[e] == density
                        / 1000 + 1,
                forall|e: int| 0 <= e < k ==> (#[trigger] counts[e]) >= 0,
                spec_sum(counts) >= 0,
                self.particles@.len() == p3.len() + spec_sum(counts),
                self.particles@.take(p3.len() as int) == p3,
                forall|e: int, x: int|
                    0 <= e < k && 0 <= x < counts[e] ==> self.enemies@[e].spec_idle_particle_ok(
                        #[trigger] self.particles@[p3.len() + spec_sum(counts.take(e)) + x],
                    ),
            decreases n_en - k,
        {
            let e: crate::enemy::Enemy = self.enemies[k];
            let mut emitted = e.particles(&mut self.rng, density);
            let ghost prev = self.particles@;
            let ghost emitted0 = emitted@;
            let ghost c = emitted0.len() as int;
            proof {
                assert(prev.add(emitted0).take(prev.len() as int) =~= prev);
            }
            self.particles.append(&mut emitted);
            proof {
                let counts0 = counts;
                counts = counts.push(c);
                assert(counts.drop_last() =~= counts0);
                assert(spec_sum(counts) == spec_sum(counts0) + c);
                assert(counts.take(k as int) =~= counts0);
                assert forall|e: int, x: int|
                    0 <= e < k + 1 && 0 <= x < counts[e] implies self.enemies@[
                    e].spec_idle_particle_ok(
                    #[trigger] self.particles@[p3.len() + spec_sum(counts.take(e)) + x],
                ) by {
                    assert(counts.take(e) =~= counts0.take(e));
                    if e < k {
                        assert(spec_sum(counts0.take(e)) + x < spec_sum(counts0)) by {
                            lemma_sum_prefix_le(counts0, e + 1);
                            assert(counts0.take(e + 1).drop_last() =~= counts0.take(e));
                            assert(spec_sum(counts0.take(e + 1)) == spec_sum(counts0.take(e))
                                + counts0[e]);
                        }
                        assert(spec_sum(counts0.take(e)) >= 0) by {
                            assert(forall|y: int|
                                0 <= y < counts0.take(e).len() ==> (#[trigger] counts0.take(
                                    e,
                                )[y]) >= 0);
                            lemma_sum_nonneg(counts0.take(e));
                        }
                        assert(self.particles@[p3.len() + spec_sum(counts0.take(e)) + x]
                            == prev[p3.len() + spec_sum(counts0.take(e)) + x]);
                    } else {
                        assert(self.particles@[p3.len() + spec_sum(counts0) + x] == emitted0[x]);
                    }
                }
            }
            k = k + 1;
        }
        let ghost p4 = self.particles@;
        // Four sparks per power-up.
        let np: usize = self.powerups.len();
        let mut q: usize = 0;
        while q < np
            invariant
                0 <= q <= np,
                self.wf(),
                np == self.powerups@.len(),
                self.player == old(self).player,
                self.enemies == old(self).enemies,
                self.shots == old(self).shots,
                self.powerups == old(self).powerups,
                self.score == old(self).score,
                self.frame == old(self).frame,
                self.wave == old(self).wave,
                self.wave_state == old(self).wave_state,
                self.shake == old(self).shake,
                self.paused == old(self).paused,
                self.bg == old(self).bg,
                self.bg_color == old(self).bg_color,
                self.overlay == old(self).overlay.spec_tick(),
                self.overlay.wf(),
                old(self).wf(),
                self.particles@.len() == p4.len() + 4 * q,
                self.particles@.take(p4.len() as int) == p4,
                forall|u: int, x: int|
                    0 <= u < q && 0 <= x < 4 ==> self.powerups@[u].spec_idle_particle_ok(
                        #[trigger] self.particles@[p4.len() + 4 * u + x],
                        x,
                    ),
            decreases np - q,
        {
            let pu: PowerUp = self.powerups[q];
            let mut emitted = pu.particles(&mut self.rng);
            let ghost prev = self.particles@;
            let ghost emitted0 = emitted@;
            proof {
                assert(prev.add(emitted0).take(prev.len() as int) =~= prev);
            }
            self.particles.append(&mut emitted);
            proof {
                assert forall|u: int, x: int|
                    0 <= u < q + 1 && 0 <= x < 4 implies self.powerups@[u].spec_idle_particle_ok(
                    #[trigger] self.particles@[p4.len() + 4 * u + x],
                    x,
                ) by {
                    if u < q {
                        assert(4 * u + x < 4 * q) by (nonlinear_arith)
                            requires
                                u < q,
                                0 <= x < 4,
                        ;
                        assert(self.particles@[p4.len() + 4 * u + x] == prev[p4.len() + 4 * u
                            + x]);
                    } else {
                        assert(4 * u == 4 * q);
                        assert(self.particles@[p4.len() + 4 * q + x] == emitted0[x]);
                    }
                }
            }
            q = q + 1;
        }
        // Stitch the segments together for the contract.
        proof {
            let fin = self.particles@;
            assert(fin.take(p3.len() as int) =~= p3);
            assert(fin.take(p2.len() as int) =~= p2);
            assert(fin.take(p1.len() as int) =~= p1);
            assert(fin.take(base.len() as int) =~= base);
            let b = base.len() as int;
            assert(ovn == 2 ==> fin[b] == old(self).overlay.spec_edge_particle(true) && fin[b + 1]
                == old(self).overlay.spec_edge_particle(false));
            assert forall|x: int| 0 <= x < ns implies old(self).shots@[x].spec_trail_particle_ok(
                #[trigger] fin[b + ovn + x],
            ) by {
                assert(fin[p1.len() + x] == p2[p1.len() + x]);
            }
            assert forall|x: int| 0 <= x < 4 implies old(self).player.spec_trail_particle_ok(
                #[trigger] fin[b + ovn + ns + x],
            ) by {
                assert(fin[p2.len() + x] == p3[p2.len() + x]);
            }
            assert forall|e: int, x: int|
                0 <= e < n_en && 0 <= x < counts[e] implies old(
                self,
            ).enemies@[e].spec_idle_particle_ok(
                #[trigger] fin[b + ovn + ns + 4 + spec_sum(counts.take(e)) + x],
            ) by {
                assert(spec_sum(counts.take(e)) + x < spec_sum(counts)) by {
                    lemma_sum_prefix_le(counts, e + 1);
                    assert(counts.take(e + 1).drop_last() =~= counts.take(e));
                    assert(spec_sum(counts.take(e + 1)) == spec_sum(counts.take(e)) + counts[e]);
                }
                assert(spec_sum(counts.take(e)) >= 0) by {
                    assert(forall|y: int|
                        0 <= y < counts.take(e).len() ==> (#[trigger] counts.take(e)[y]) >= 0);
                    lemma_sum_nonneg(counts.take(e));
                }
                assert(fin[p3.len() + spec_sum(counts.take(e)) + x] == p4[p3.len() + spec_sum(
                    counts.take(e),
                ) + x]);
            }
        }
    }
}

/// The sum of a sequence of per-enemy spark counts.
pub open spec fn spec_sum(s: Seq<int>) -> int
    decreases s.len(),
{
    if s.len() == 0 {
        0
    } else {
        spec_sum(s.drop_last()) + s.last()
    }
}

/// A sum of non-negative counts is non-negative.
proof fn lemma_sum_nonneg(s: Seq<int>)
    requires
        forall|e: int| 0 <= e < s.len() ==> (#[trigger] s[e]) >= 0,
    ensures
        spec_sum(s) >= 0,
    decreases s.len(),
{
    if s.len() > 0 {
        assert(forall|e: int|
            0 <= e < s.drop_last().len() ==> (#[trigger] s.drop_last()[e]) == s[e]);
        lemma_sum_nonneg(s.drop_last());
    }
}

/// A prefix of non-negative counts never sums past the whole.
proof fn lemma_sum_prefix_le(s: Seq<int>, n: int)
    requires
        0 <= n <= s.len(),
        forall|e: int| 0 <= e < s.len() ==> (#[trigger] s[e]) >= 0,
    ensures
        spec_sum(s.take(n)) <= spec_sum(s),
    decreases s.len() - n,
{
    if n == s.len() {
        assert(s.take(n) =~= s);
    } else {
        lemma_sum_prefix_le(s, n + 1);
        assert(s.take(n + 1).drop_last() =~= s.take(n));
        assert(spec_sum(s.take(n + 1)) == spec_sum(s.take(n)) + s[n]);
    }
}

/// The idle-spark density the enemy count dictates, per-mille: two
/// hundred sparks shared among the enemies, floored at a third of one.
pub open spec fn spec_density(n: int) -> int {
    if n >= 617 {
        300int
    } else {
        200_000int / (50 + n)
    }
}

impl Game {
    /// One logic tick, in the fixed subsystem order: background, then
    /// the particle pass, then — unless the game is over or paused — the
    /// frame count, the phase machine, the spawn attempts, the shot,
    /// enemy, power-up and player passes, each collection culled for
    /// liveness after its pass, and finally the game-over check.
    #[verifier::rlimit(100)]
    pub fn update(&mut self, mouse: Vec2)
        requires
            old(self).wf(),
            mouse.wf(),
        ensures
            final(self).wf(),
            final(self).paused == old(self).paused,
            old(self).player.life == 0 || old(self).paused ==> final(self).player == old(self).player && final(self).enemies == old(self).enemies && final(self).shots == old(self).shots && final(self).powerups == old(self).powerups && final(self).score == old(self).score && final(self).frame == old(self).frame && final(self).wave == old(self).wave
                && final(self).wave_state == old(self).wave_state && final(self).shake == old(self).shake,
            !(old(self).player.life == 0 || old(self).paused) ==> final(self).frame
                == spec_inc_sat(old(self).frame) && final(self).score >= old(self).score && (
            forall|i: int|
                0 <= i < final(self).shots@.len() ==> (#[trigger] final(self).shots@[i]).alive)
                && (forall|i: int|
                0 <= i < final(self).powerups@.len() ==> (#[trigger] final(self).powerups@[i]).hits > 0),
            !(old(self).player.life == 0 || old(self).paused) ==> ({
                let stepped = crate::live::spec_live_shots(
                    old(self).shots@.map_values(|s: Shot| s.spec_step()),
                );
                final(self).shots@.len() == stepped.len() && (forall|i: int|
                    0 <= i < stepped.len() ==> (#[trigger] stepped[i]).spec_degrades_to(
                        final(self).shots@[i],
                    ))
            }),
            final(self).bg_color == old(self).bg_color,
            final(self).bg.t == old(self).bg.t,
            final(self).bg.color == old(self).bg.color,
            final(self).bg.points@.len() == old(self).bg.points@.len(),
            old(self).player.life == 0 || old(self).paused || (old(self).enemies@.len() == 0
                && (spec_inc_sat(old(self).frame) % 42 != 17 || old(self).spec_wave_next()
                != WaveState::Ongoing)) ==> forall|i: int|
                0 <= i < final(self).bg.points@.len() ==> (#[trigger] final(self).bg.points@[i])
                    == old(self).bg.points@[i].spec_step(old(self).score),
            old(self).player.life == 0 || old(self).paused ==> final(self).overlay == old(self).overlay.spec_tick(),
            !(old(self).player.life == 0 || old(self).paused) ==> final(self).wave_state == old(self).spec_wave_next() && final(self).wave == old(self).spec_wave_next_wave(),
            !(old(self).player.life == 0 || old(self).paused) && final(self).player.life >= 1
                ==> final(self).overlay == (Game {
                overlay: old(self).overlay.spec_tick(),
                ..*old(self)
            }).spec_wave_next_overlay(),
            !(old(self).player.life == 0 || old(self).paused) && final(self).player.life == 0
                ==> final(self).overlay == (Overlay {
                msg: crate::overlay::OverlayMsg::GameOver,
                color: Rgba { r: 1000, g: 0, b: 0, a: 1000 },
                visible: true,
                height: 120_000,
                frame: 0,
            }),
            !(old(self).player.life == 0 || old(self).paused) && old(self).spec_wave_next()
                != WaveState::Ongoing ==> ({
                let handed = old(self).spec_wave_next_powerups();
                final(self).powerups@ == crate::live::spec_live_powerups(
                    crate::powerup::spec_powerup_phase(
                        handed,
                        old(self).player,
                        handed.len() as int,
                    ).pus,
                )
            }),
            !(old(self).player.life == 0 || old(self).paused) && (spec_inc_sat(old(self).frame)
                % 42 != 17 || old(self).spec_wave_next() != WaveState::Ongoing) ==> ({
                let stepped = crate::live::spec_live_shots(
                    old(self).shots@.map_values(|s: Shot| s.spec_step()),
                );
                let ph = crate::enemy::spec_enemy_phase(
                    old(self).enemies@,
                    stepped,
                    old(self).player.pos,
                    old(self).enemies@.len() as int,
                );
                &&& final(self).enemies@ == ph.kept + ph.spawned
                &&& final(self).shots@ == ph.shots
                &&& final(self).score == (if old(self).score + ph.score_gain > COUNTER_CAP {
                    COUNTER_CAP as int
                } else {
                    old(self).score + ph.score_gain
                })
            }),
            !(old(self).player.life == 0 || old(self).paused) && old(self).wave_state
                == WaveState::Ongoing && old(self).score >= old(self).spec_wave_threshold()
                ==> final(self).wave_state == WaveState::WaitToEnd,
            !(old(self).player.life == 0 || old(self).paused) && old(self).wave_state
                == WaveState::Ongoing && old(self).score < old(self).spec_wave_threshold()
                ==> final(self).wave_state == WaveState::Ongoing,
    {
        let score_now: u64 = self.score;
        self.bg.update(score_now);
        self.collect_particles();
        if self.player.life == 0 {
            return ;
        }
        if self.paused {
            return ;
        }
        self.frame = inc_sat(self.frame);
        self.wave_step();
        proof {
            assert(self.wave_state == old(self).spec_wave_next());
            assert(self.wave == old(self).spec_wave_next_wave());
            assert(self.powerups@ == old(self).spec_wave_next_powerups());
            assert(self.overlay == (Game {
                overlay: old(self).overlay.spec_tick(),
                ..*old(self)
            }).spec_wave_next_overlay());
        }
        if self.wave_state == WaveState::Ongoing {
            self.spawn_enemy();
            self.spawn_powerup();
        }
        let ghost mid = *self;
        // Advance and cull the shots.
        let nsh: usize = self.shots.len();
        let mut j: usize = 0;
        while j < nsh
            invariant
                0 <= j <= nsh,
                nsh == self.shots@.len(),
                self.wf(),
                mid.wf(),
                *self == (Game { shots: self.shots, ..mid }),
                forall|i: int| j <= i < nsh ==> (#[trigger] self.shots@[i]) == mid.shots@[i],
                forall|i: int|
                    0 <= i < j ==> (#[trigger] self.shots@[i]) == mid.shots@[i].spec_step(),
            decreases nsh - j,
        {
            let mut s = self.shots[j];
            s.update();
            self.shots.set(j, s);
            j = j + 1;
        }
        proof {
            assert(self.shots@ =~= mid.shots@.map_values(|s: Shot| s.spec_step()));
        }
        let filtered_shots = crate::live::retain_live_shots(&self.shots);
        proof {
            crate::live::lemma_live_shots_alive(self.shots@);
            crate::live::lemma_filter_preserves(
                self.shots@,
                |x: Shot| x.alive,
                |x: Shot| x.wf(),
            );
        }
        self.shots = filtered_shots;
        let ghost after_shots = *self;
        self.enemy_pass();
        proof {
            assert forall|i: int| 0 <= i < self.shots@.len() implies (
            #[trigger] self.shots@[i]).alive by {
                assert(after_shots.shots@[i].spec_degrades_to(self.shots@[i]));
                assert(after_shots.shots@[i].alive);
            }
        }
        self.powerup_pass();
        // The player's own pass, and the game-over check.
        Player::update(mouse, self);
        if self.player.life == 0 {
            self.overlay = Overlay::game_over();
        }
    }

    /// The enemy pass of a tick: each enemy in turn chases the player
    /// and resolves the shot collection as its predecessors left it;
    /// survivors keep their order, children are appended after them, and
    /// each kill adds its level to the score.
    #[verifier::rlimit(100)]
    pub fn enemy_pass(&mut self)
        requires
            old(self).wf(),
        ensures
            final(self).wf(),
            final(self).player == old(self).player,
            final(self).powerups == old(self).powerups,
            final(self).frame == old(self).frame,
            final(self).wave == old(self).wave,
            final(self).wave_state == old(self).wave_state,
            final(self).paused == old(self).paused,
            final(self).overlay == old(self).overlay,
            final(self).bg_color == old(self).bg_color,
            final(self).bg.t == old(self).bg.t,
            final(self).bg.color == old(self).bg.color,
            old(self).enemies@.len() == 0 ==> final(self).bg == old(self).bg && final(self).shake
                == old(self).shake && final(self).particles == old(self).particles,
            final(self).score >= old(self).score,
            final(self).shots@.len() == old(self).shots@.len(),
            forall|i: int|
                0 <= i < old(self).shots@.len() ==> (#[trigger] old(self).shots@[i]).spec_degrades_to(
                    final(self).shots@[i],
                ),
            ({
                let ph = crate::enemy::spec_enemy_phase(
                    old(self).enemies@,
                    old(self).shots@,
                    old(self).player.pos,
                    old(self).enemies@.len() as int,
                );
                &&& final(self).enemies@ == ph.kept + ph.spawned
                &&& final(self).shots@ == ph.shots
                &&& final(self).score == (if old(self).score + ph.score_gain > COUNTER_CAP {
                    COUNTER_CAP as int
                } else {
                    old(self).score + ph.score_gain
                })
            }),
    {
        let ghost after_shots = *old(self);
        proof {
            crate::enemy::lemma_phase_zero(self.enemies@, self.shots@, self.player.pos);
        }
        // Advance the enemies: each resolves its collisions and may
        // split; the survivors and the children form the new collection.
        let n_en: usize = self.enemies.len();
        let mut kept: Vec<crate::enemy::Enemy> = Vec::new();
        let mut spawned: Vec<crate::enemy::Enemy> = Vec::new();
        let mut k: usize = 0;
        while k < n_en
            invariant
                0 <= k <= n_en,
                n_en == self.enemies@.len(),
                self.wf(),
                after_shots.wf(),
                after_shots == *old(self),
                self.enemies == after_shots.enemies,
                self.player == after_shots.player,
                self.powerups == after_shots.powerups,
                self.frame == after_shots.frame,
                self.wave == after_shots.wave,
                self.wave_state == after_shots.wave_state,
                self.paused == after_shots.paused,
                self.overlay == after_shots.overlay,
                self.bg_color == after_shots.bg_color,
                self.bg.t == after_shots.bg.t,
                self.bg.color == after_shots.bg.color,
                n_en == 0 ==> *self == after_shots,
                self.score >= after_shots.score,
                self.shots@.len() == after_shots.shots@.len(),
                forall|i: int|
                    0 <= i < self.shots@.len() ==> (#[trigger] after_shots.shots@[i]).spec_degrades_to(
                        self.shots@[i],
                    ),
                ({
                    let ph = crate::enemy::spec_enemy_phase(
                        after_shots.enemies@,
                        after_shots.shots@,
                        after_shots.player.pos,
                        k as int,
                    );
                    &&& kept@ == ph.kept
                    &&& spawned@ == ph.spawned
                    &&& self.shots@ == ph.shots
                    &&& ph.score_gain >= 0
                    &&& self.score == (if after_shots.score + ph.score_gain > COUNTER_CAP {
                        COUNTER_CAP as int
                    } else {
                        after_shots.score + ph.score_gain
                    })
                }),
                forall|i: int| 0 <= i < kept@.len() ==> (#[trigger] kept@[i]).wf()
                    && kept@[i].spec_alive(),
                forall|i: int|
                    0 <= i < spawned@.len() ==> (#[trigger] spawned@[i]).wf()
                        && spawned@[i].spec_alive(),
            decreases n_en - k,
        {
            let mut e = self.enemies[k];
            let ghost e0 = e;
            let ghost shots_before = self.shots@;
            let mut children = e.update(self);
            if e.alive() {
                kept.push(e);
            } else {
                self.score = add_sat(self.score, e.level);
            }
            proof {
                crate::enemy::lemma_phase_step(
                    after_shots.enemies@,
                    after_shots.shots@,
                    after_shots.player.pos,
                    k as int,
                );
                let ph_k = crate::enemy::spec_enemy_phase(
                    after_shots.enemies@,
                    after_shots.shots@,
                    after_shots.player.pos,
                    k as int,
                );
                let ph_k1 = crate::enemy::spec_enemy_phase(
                    after_shots.enemies@,
                    after_shots.shots@,
                    after_shots.player.pos,
                    k + 1,
                );
                let moved = e0.spec_move(after_shots.player.pos);
                assert(kept@ == (if e.spec_alive() {
                    ph_k.kept.push(e)
                } else {
                    ph_k.kept
                }));
                if moved.spec_invincible() {
                    assert(e == moved);
                    assert(ph_k1.kept == ph_k.kept.push(moved) && ph_k1.spawned == ph_k.spawned
                        && ph_k1.shots == ph_k.shots && ph_k1.score_gain == ph_k.score_gain);
                } else {
                    let acc = crate::enemy::spec_resolve_hits(moved, shots_before);
                    if acc.life > 0 {
                        assert(ph_k1.kept == ph_k.kept.push(e) && ph_k1.spawned == ph_k.spawned
                            && ph_k1.shots == acc.shots && ph_k1.score_gain == ph_k.score_gain);
                    } else if e0.level > 1 {
                        assert(spawned@ + children@ =~= spawned@.push(children@[0]).push(
                            children@[1],
                        ));
                        assert(ph_k1.kept == ph_k.kept && ph_k1.shots == acc.shots
                            && ph_k1.score_gain == ph_k.score_gain + e0.level);
                        assert(ph_k1.spawned =~= ph_k.spawned + children@);
                    } else {
                        assert(spawned@ + children@ =~= spawned@);
                        assert(ph_k1.kept == ph_k.kept && ph_k1.shots == acc.shots
                            && ph_k1.score_gain == ph_k.score_gain + e0.level);
                        assert(ph_k1.spawned =~= ph_k.spawned + children@);
                    }
                }
            }
            spawned.append(&mut children);
            k = k + 1;
        }
        kept.append(&mut spawned);
        self.enemies = kept;
    }


    /// The power-up pass of a tick: each power-up in turn drifts,
    /// bounces off edges it is still crossing outward, and on touching
    /// the player burns its budget and raises the matching stat; the
    /// spent ones are culled afterwards.
    #[verifier::rlimit(100)]
    pub fn powerup_pass(&mut self)
        requires
            old(self).wf(),
            old(self).player.life >= 1,
        ensures
            final(self).wf(),
            final(self).enemies == old(self).enemies,
            final(self).shots == old(self).shots,
            final(self).particles == old(self).particles,
            final(self).score == old(self).score,
            final(self).frame == old(self).frame,
            final(self).wave == old(self).wave,
            final(self).wave_state == old(self).wave_state,
            final(self).paused == old(self).paused,
            final(self).overlay == old(self).overlay,
            final(self).bg == old(self).bg,
            final(self).bg_color == old(self).bg_color,
            final(self).shake == old(self).shake,
            final(self).player.life >= old(self).player.life,
            final(self).player.life >= 1,
            ({
                let ph = crate::powerup::spec_powerup_phase(
                    old(self).powerups@,
                    old(self).player,
                    old(self).powerups@.len() as int,
                );
                &&& final(self).powerups@ == crate::live::spec_live_powerups(ph.pus)
                &&& final(self).player == ph.player
            }),
            forall|i: int|
                0 <= i < final(self).powerups@.len() ==> (#[trigger] final(self).powerups@[i]).hits
                    > 0,
    {
        let ghost base = *old(self);
        proof {
            crate::powerup::lemma_powerup_phase_zero(self.powerups@, self.player);
        }
        let np: usize = self.powerups.len();
        let mut q: usize = 0;
        while q < np
            invariant
                0 <= q <= np,
                np == self.powerups@.len(),
                self.wf(),
                base.wf(),
                base == *old(self),
                self.powerups@.len() == base.powerups@.len(),
                *self == (Game { powerups: self.powerups, player: self.player, ..base }),
                base.player.life >= 1,
                ({
                    let ph = crate::powerup::spec_powerup_phase(
                        base.powerups@,
                        base.player,
                        q as int,
                    );
                    &&& self.player == ph.player
                    &&& ph.pus.len() == q
                    &&& (forall|i: int| 0 <= i < q ==> (#[trigger] self.powerups@[i]) == ph.pus[i])
                }),
                forall|i: int|
                    q <= i < np ==> (#[trigger] self.powerups@[i]) == base.powerups@[i],
                self.player.life >= base.player.life,
            decreases np - q,
        {
            let mut p = self.powerups[q];
            proof {
                crate::powerup::lemma_powerup_phase_step(
                    base.powerups@,
                    base.player,
                    q as int,
                );
            }
            p.update(&mut self.player);
            self.powerups.set(q, p);
            q = q + 1;
        }
        proof {
            let ph = crate::powerup::spec_powerup_phase(
                base.powerups@,
                base.player,
                np as int,
            );
            assert(self.powerups@ =~= ph.pus);
        }
        let filtered_pus = crate::live::retain_live_powerups(&self.powerups);
        proof {
            crate::live::lemma_live_powerups_alive(self.powerups@);
            crate::live::lemma_filter_preserves(
                self.powerups@,
                |x: PowerUp| x.hits > 0,
                |x: PowerUp| x.wf(),
            );
        }
        self.powerups = filtered_pus;
    }

    /// Apply one input event: a pointer press fires a fan of shots
    /// toward the aim point; the two keys toggle pause or restart.
    pub fn event(&mut self, ev: GameEvent, mouse: Vec2)
        requires
            old(self).wf(),
            mouse.wf(),
        ensures
            final(self).wf(),
            ev == GameEvent::Fire ==> final(self).shots@.len() == old(self).shots@.len() + old(self).player.shots && final(self).shots@.take(old(self).shots@.len() as int) == old(self).shots@ && (forall|k: int|
                0 <= k < old(self).player.shots ==> (#[trigger] final(self).shots@[old(self).shots@.len() + k]) == old(self).player.spec_fan_shot(mouse, k)) && (*final(self) == (Game {
                shots: final(self).shots,
                ..*old(self)
            })),
            ev == GameEvent::TogglePause ==> final(self).shots == old(self).shots && (old(self).player.life > 0 ==> final(self).paused == !old(self).paused) && (old(self).player.life == 0 ==> *final(self) == *old(self)),
            ev == GameEvent::Restart ==> final(self).player == Player::spec_new() && final(self).enemies@.len() == 0 && final(self).shots@.len() == 0 && final(self).powerups@.len() == 0 && final(self).score == 0 && final(self).wave == 0 && final(self).wave_state == WaveState::PowerUp && !final(self).paused,
    {
        match ev {
            GameEvent::Fire => {
                let pl: Player = self.player;
                let mut fired = pl.fire(mouse);
                proof {
                    assert(self.shots@.add(fired@).take(self.shots@.len() as int)
                        =~= self.shots@);
                }
                self.shots.append(&mut fired);
            },
            GameEvent::TogglePause => {
                self.toggle_pause();
            },
            GameEvent::Restart => {
                self.restart();
            },
        }
    }
}

/// Everything the outside rasterizer needs for one frame: a clear
/// color, a screen-shake offset, the background path, the shape list in
/// draw order, and the HUD data.
pub struct Frame {
    pub clear_color: Rgba,
    pub offset: Vec2,
    pub bg_path: Vec<Vec2>,
    pub bg_path_color: Rgba,
    pub cmds: Vec<crate::particles::DrawCmd>,
    pub score: u64,
    pub life: u64,
    pub overlay: Option<crate::overlay::OverlayDraw>,
}

impl Game {
    /// Produce one frame's draw orders: enemies first, then particles,
    /// then the power-up rings, each extrapolated by the tick fraction;
    /// a positive shake counter decays by one and jolts the whole frame
    /// by an offset scrambled from the counter itself, so that drawing
    /// never advances the random stream.
    #[verifier::rlimit(100)]
    pub fn draw(&mut self, prop: i64) -> (frame: Frame)
        requires
            old(self).wf(),
            0 <= prop <= 1000,
        ensures
            final(self).wf(),
            *final(self) == (Game { shake: final(self).shake, ..*old(self) }),
            old(self).shake > 0 ==> final(self).shake == (if old(self).shake - 1 < 20 {
                old(self).shake - 1
            } else {
                20
            }) && frame.offset == spec_shake_jolt(old(self).shake as int),
            old(self).shake <= 0 ==> final(self).shake == old(self).shake && frame.offset == (
            Vec2 { x: 0, y: 0 }),
            -15_000 <= frame.offset.x <= 15_000,
            -15_000 <= frame.offset.y <= 15_000,
            frame.clear_color == old(self).bg_color,
            frame.score == old(self).score,
            frame.life == old(self).player.life,
            frame.bg_path@.len() == old(self).bg.points@.len(),
            forall|i: int|
                0 <= i < frame.bg_path@.len() ==> (#[trigger] frame.bg_path@[i]) == old(self).bg.points@[i].spec_draw_pos(),
            frame.bg_path_color == old(self).bg.color,
            !old(self).overlay.visible ==> frame.overlay is None,
            old(self).overlay.visible ==> frame.overlay == Some(
                crate::overlay::OverlayDraw {
                    band_pos: Vec2 { x: 0, y: ((crate::FIELD_H - old(self).overlay.height) / 2) as i64 },
                    band_size: Vec2 { x: crate::FIELD_W, y: old(self).overlay.height },
                    band_color: Rgba { r: 1000, g: 1000, b: 1000, a: 200 },
                    msg: old(self).overlay.msg,
                    text_color: old(self).overlay.color,
                },
            ),
            frame.cmds@.len() == old(self).enemies@.len() + old(self).particles@.len() + 7 * old(self).powerups@.len(),
            forall|i: int|
                0 <= i < old(self).enemies@.len() ==> (#[trigger] frame.cmds@[i]) == (
                crate::particles::DrawCmd::Circle {
                    center: old(self).enemies@[i].pos,
                    radius: old(self).enemies@[i].radius,
                    color: old(self).enemies@[i].color.spec_with_alpha(100),
                }),
            forall|i: int|
                0 <= i < old(self).particles@.len() ==> (#[trigger] frame.cmds@[old(self).enemies@.len() + i]) == old(self).particles@[i].spec_draw(prop as int),
            forall|u: int, c: int|
                0 <= u < old(self).powerups@.len() && 0 <= c < 7 ==> (#[trigger] frame.cmds@[old(self).enemies@.len() + old(self).particles@.len() + 7 * u + c]) == old(self).powerups@[u].spec_ring_cmd(prop as int, c),
    {
        let offset: Vec2 = if self.shake > 0 {
            let sh: u64 = self.shake as u64;
            self.shake = if self.shake - 1 < 20 {
                self.shake - 1
            } else {
                20
            };
            let angle: i64 = (((sh % 360_000) * 48_271) % 360_000) as i64;
            let dist: i64 = (5_000 + ((sh % 10_000) * 7919) % 10_000) as i64;
            crate::geom::polar(angle, dist)
        } else {
            Vec2 { x: 0, y: 0 }
        };
        let bg_path: Vec<Vec2> = self.bg.draw(self.score);
        let ghost ne = self.enemies@.len();
        let ghost np = self.particles@.len();
        let mut cmds: Vec<crate::particles::DrawCmd> = Vec::new();
        let n_e: usize = self.enemies.len();
        let mut i: usize = 0;
        while i < n_e
            invariant
                0 <= i <= n_e,
                n_e == self.enemies@.len(),
                self.wf(),
                cmds@.len() == i,
                forall|j: int|
                    0 <= j < i ==> (#[trigger] cmds@[j]) == (crate::particles::DrawCmd::Circle {
                        center: self.enemies@[j].pos,
                        radius: self.enemies@[j].radius,
                        color: self.enemies@[j].color.spec_with_alpha(100),
                    }),
            decreases n_e - i,
        {
            let e = self.enemies[i];
            cmds.push(e.draw(prop));
            i = i + 1;
        }
        let n_p: usize = self.particles.len();
        let mut j: usize = 0;
        while j < n_p
            invariant
                0 <= j <= n_p,
                n_p == self.particles@.len(),
                n_e == self.enemies@.len(),
                self.wf(),
                0 <= prop <= 1000,
                cmds@.len() == n_e + j,
                forall|x: int|
                    0 <= x < n_e ==> (#[trigger] cmds@[x]) == (crate::particles::DrawCmd::Circle {
                        center: self.enemies@[x].pos,
                        radius: self.enemies@[x].radius,
                        color: self.enemies@[x].color.spec_with_alpha(100),
                    }),
                forall|x: int|
                    0 <= x < j ==> (#[trigger] cmds@[n_e + x]) == self.particles@[x].spec_draw(
                        prop as int,
                    ),
            decreases n_p - j,
        {
            let p = self.particles[j];
            cmds.push(p.draw(prop));
            j = j + 1;
        }
        let n_u: usize = self.powerups.len();
        let mut u: usize = 0;
        while u < n_u
            invariant
                0 <= u <= n_u,
                n_u == self.powerups@.len(),
                n_e == self.enemies@.len(),
                n_p == self.particles@.len(),
                self.wf(),
                0 <= prop <= 1000,
                cmds@.len() == n_e + n_p + 7 * u,
                forall|x: int|
                    0 <= x < n_e ==> (#[trigger] cmds@[x]) == (crate::particles::DrawCmd::Circle {
                        center: self.enemies@[x].pos,
                        radius: self.enemies@[x].radius,
                        color: self.enemies@[x].color.spec_with_alpha(100),
                    }),
                forall|x: int|
                    0 <= x < n_p ==> (#[trigger] cmds@[n_e + x]) == self.particles@[x].spec_draw(
                        prop as int,
                    ),
                forall|y: int, c: int|
                    0 <= y < u && 0 <= c < 7 ==> (#[trigger] cmds@[n_e + n_p + 7 * y + c])
                        == self.powerups@[y].spec_ring_cmd(prop as int, c),
            decreases n_u - u,
        {
            let pu = self.powerups[u];
            let mut ring = pu.draw(prop);
            proof {
                assert forall|x: int| 0 <= x < cmds@.len() implies (#[trigger] cmds@.add(
                    ring@,
                )[x]) == cmds@[x] by {}
            }
            cmds.append(&mut ring);
            u = u + 1;
        }
        let overlay_draw = self.overlay.draw();
        Frame {
            clear_color: self.bg_color,
            offset,
            bg_path,
            bg_path_color: self.bg.color,
            cmds,
            score: self.score,
            life: self.player.life,
            overlay: overlay_draw,
        }
    }

    /// Drive one outer frame of the loop: pour the elapsed wall-clock
    /// time into both clocks, run every due logic tick (catching up
    /// after a stall), and at most one draw; further elapsed draw
    /// periods are counted as skipped, never replayed.
    pub fn run_frame(
        &mut self,
        logic: &mut crate::clock::Clock,
        draw: &mut crate::clock::Clock,
        render_skip: &mut u64,
        delta_us: u64,
        mouse: Vec2,
    ) -> (frame: Option<Frame>)
        requires
            old(self).wf(),
            old(logic).wf(),
            old(draw).wf(),
            mouse.wf(),
        ensures
            final(self).wf(),
            final(logic).wf(),
            final(draw).wf(),
            final(logic).period_us == old(logic).period_us,
            final(draw).period_us == old(draw).period_us,
            ({
                let lacc = old(logic).spec_add_time(delta_us).acc_us;
                let ticks = lacc as int / old(logic).period_us as int;
                &&& final(logic).acc_us == lacc as int % old(logic).period_us as int
                &&& final(self).frame >= old(self).frame
                &&& final(self).frame <= spec_add_sat(old(self).frame, (lacc
                    / old(logic).period_us) as u64)
                &&& (old(self).paused ==> final(self).frame == old(self).frame && final(self).paused)
                &&& (!old(self).paused && old(self).player.life >= 1 && ticks >= 1 ==> final(self).frame >= spec_inc_sat(old(self).frame))
            }),
            ({
                let dacc = old(draw).spec_add_time(delta_us).acc_us;
                let frames = dacc as int / old(draw).period_us as int;
                &&& final(draw).acc_us == dacc as int % old(draw).period_us as int
                &&& (frame is Some <==> frames >= 1)
                &&& *final(render_skip) == (if frames >= 2 {
                    (if *old(render_skip) + (frames - 2) > u64::MAX {
                        u64::MAX as int
                    } else {
                        *old(render_skip) + (frames - 2)
                    })
                } else {
                    *old(render_skip) as int
                })
            }),
            frame matches Some(f) ==> f.score == final(self).score && f.life == final(self).player.life,
    {
        logic.add_time(delta_us);
        draw.add_time(delta_us);
        let ghost lacc0 = logic.acc_us;
        let ghost frame0 = self.frame;
        let ghost mut ticks: nat = 0nat;
        loop
            invariant_except_break
                self.wf(),
                logic.wf(),
                mouse.wf(),
                logic.period_us == old(logic).period_us,
                logic.acc_us + ticks * logic.period_us == lacc0,
                self.frame >= frame0,
                self.frame <= spec_add_sat(frame0, ticks as u64),
                self.paused == old(self).paused,
                old(self).paused ==> self.frame == frame0,
                ticks == 0 ==> *self == *old(self),
                !old(self).paused && old(self).player.life >= 1 && ticks >= 1 ==> self.frame
                    >= spec_inc_sat(frame0),
                frame0 == old(self).frame,
                ticks <= lacc0,
            ensures
                self.wf(),
                logic.wf(),
                logic.period_us == old(logic).period_us,
                logic.acc_us < logic.period_us,
                logic.acc_us == lacc0 as int % logic.period_us as int,
                self.frame >= frame0,
                self.frame <= spec_add_sat(frame0, (lacc0 / logic.period_us) as u64),
                self.paused == old(self).paused,
                old(self).paused ==> self.frame == frame0,
                !old(self).paused && old(self).player.life >= 1 && lacc0 as int
                    / logic.period_us as int >= 1 ==> self.frame >= spec_inc_sat(frame0),
            decreases logic.acc_us,
        {
            let due = logic.tick();
            if !due {
                proof {
                    vstd::arithmetic::div_mod::lemma_fundamental_div_mod_converse(
                        lacc0 as int,
                        logic.period_us as int,
                        ticks as int,
                        logic.acc_us as int,
                    );
                }
                break ;
            }
            let ghost fprev = self.frame;
            self.update(mouse);
            proof {
                assert((ticks + 1) * logic.period_us == ticks * logic.period_us
                    + logic.period_us) by (nonlinear_arith);
                assert((ticks + 1) * logic.period_us >= ticks + 1) by (nonlinear_arith)
                    requires
                        logic.period_us >= 1,
                ;
                ticks = ticks + 1nat;
                assert(ticks <= lacc0);
                assert(self.frame <= spec_inc_sat(fprev));
                assert(self.frame <= spec_add_sat(frame0, ticks as u64));
            }
        }
        let frames: u64 = draw.exhaust();
        if frames >= 1 {
            if frames >= 2 {
                *render_skip = skip_frames_add(*render_skip, frames);
            }
            let prop: u64 = logic.fraction_mil();
            Some(self.draw(prop as i64))
        } else {
            None
        }
    }
}

/// Accumulate skipped frames: of `frames` elapsed draw periods, one is
/// drawn, one is forgiven, and the rest count as skipped.
fn skip_frames_add(render_skip: u64, frames: u64) -> (r: u64)
    requires
        frames >= 2,
    ensures
        r >= render_skip,
        r == (if render_skip + (frames - 2) > u64::MAX {
            u64::MAX as int
        } else {
            render_skip + (frames - 2)
        }),
{
    if frames - 2 > u64::MAX - render_skip {
        u64::MAX
    } else {
        render_skip + (frames - 2)
    }
}

/// The jolt a positive shake counter gives the frame: an angle and a
/// distance in [5, 15) pixels, both scrambled deterministically from the
/// counter so that two runs from one seed draw identically.
pub open spec fn spec_shake_jolt(shake: int) -> Vec2 {
    crate::geom::spec_polar(
        (shake % 360_000) * 48_271 % 360_000,
        5_000 + (shake % 10_000) * 7919 % 10_000,
    )
}

/// An input event, already translated out of the windowing layer: the
/// fire button, the pause key, or the restart key.
#[derive(Clone, Copy, Debug, PartialEq, Eq, Structural)]
pub enum GameEvent {
    Fire,
    TogglePause,
    Restart,
}

/// `wave + 1` held at the counter cap, for the threshold exponent.
fn add_sat_small(wave: u64) -> (r: u64)
    requires
        wave <= COUNTER_CAP,
    ensures
        r == wave + 1,
{
    wave + 1
}

/// The fixed intermission layout: one power-up of each kind, at the four
/// screen quadrant centers, motionless.
pub open spec fn spec_fixed_powerups() -> Seq<PowerUp> {
    seq![
        PowerUp {
            pos: Vec2 { x: 325_000, y: 200_000 },
            vel: Vec2 { x: 0, y: 0 },
            power: Power::DamageUp,
            hits: 5,
            radius: 20_000,
            t: 0,
        },
        PowerUp {
            pos: Vec2 { x: 975_000, y: 200_000 },
            vel: Vec2 { x: 0, y: 0 },
            power: Power::LifeUp,
            hits: 5,
            radius: 20_000,
            t: 0,
        },
        PowerUp {
            pos: Vec2 { x: 325_000, y: 600_000 },
            vel: Vec2 { x: 0, y: 0 },
            power: Power::PierceUp,
            hits: 5,
            radius: 20_000,
            t: 0,
        },
        PowerUp {
            pos: Vec2 { x: 975_000, y: 600_000 },
            vel: Vec2 { x: 0, y: 0 },
            power: Power::ShotUp,
            hits: 5,
            radius: 20_000,
            t: 0,
        },
    ]
}

/// Nothing of the phase machine's state moved in this evaluation.
pub open spec fn unchanged_phase(a: Game, b: Game) -> bool {
    b.wave_state == a.wave_state && b.wave == a.wave && b.powerups == a.powerups && b.overlay
        == a.overlay
}

/// What holds of every enemy the spawn cadence produces: it starts just
/// off-screen, still, with a level within the wave's range.
pub open spec fn spawned_enemy_ok(e: Enemy, wave: u64) -> bool {
    &&& e.wf()
    &&& !spec_in_screen(e.pos)
    &&& 1 <= e.level
    &&& e.level <= (if wave > LEVEL_MAX / 2 {
        LEVEL_MAX as int
    } else {
        2 * wave
    })
    &&& e == Enemy::spec_new_kb(e.pos, e.level, Vec2 { x: 0, y: 0 })
}

} // verus!
