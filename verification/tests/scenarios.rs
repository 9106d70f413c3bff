use arcade_core::enemy::Enemy;
use arcade_core::game::{Game, WaveState};
use arcade_core::geom::{Vec2, polar};
use arcade_core::live::{retain_live_powerups, retain_live_shots};
use arcade_core::player::Player;
use arcade_core::powerup::{Power, PowerUp};
use arcade_core::shot::Shot;
use rand::SeedableRng;

/// Seed fixed, no input: with no enemies ever present, no shot is ever
/// created and the score stays zero.
#[test]
fn quiet_run_keeps_shots_empty_and_score_zero() {
    let mut g = Game::new();
    let mouse = Vec2 { x: 650_000, y: 400_000 };
    for _ in 0..90 {
        g.update(mouse);
        assert_eq!(g.shots.len(), 0);
        assert_eq!(g.score, 0);
        assert_eq!(g.enemies.len(), 0);
    }
}

/// With no emitters, the particle collection decays to empty.
#[test]
fn particles_decay_to_empty_without_emitters() {
    let mut particles = Vec::new();
    for k in 0..5i64 {
        let mut p = arcade_core::particles::Particle::default();
        p.pos = Vec2 { x: 600_000, y: 400_000 };
        p.speed = 10_000 + 1000 * k;
        p.accel = -1500;
        particles.push(p);
    }
    for _ in 0..20 {
        let mut kept = Vec::new();
        for p in particles.iter_mut() {
            if p.update() {
                kept.push(*p);
            }
        }
        particles = kept;
    }
    assert_eq!(particles.len(), 0);
}

/// Two runs from the same seed and input sequence agree step for step.
#[test]
fn same_seed_same_trajectories() {
    let mut a = Game::new();
    let mut b = Game::new();
    let mouse = Vec2 { x: 900_000, y: 600_000 };
    a.event(arcade_core::game::GameEvent::Fire, mouse);
    b.event(arcade_core::game::GameEvent::Fire, mouse);
    for _ in 0..120 {
        a.update(mouse);
        b.update(mouse);
    }
    assert_eq!(a.player, b.player);
    assert_eq!(a.score, b.score);
    assert_eq!(a.frame, b.frame);
    assert_eq!(a.wave_state, b.wave_state);
    assert_eq!(a.enemies, b.enemies);
    assert_eq!(a.shots, b.shots);
    assert_eq!(a.particles, b.particles);
    assert_eq!(a.powerups, b.powerups);
}

/// One shot with pierce 1 and damage 5 overlapping a level-1 enemy with
/// one hit point: after the tick the pierce is spent, the enemy is dead
/// and removed, no children spawn, and the score rises by its level.
#[test]
fn killing_shot_spends_pierce_and_scores() {
    let mut g = Game::new();
    g.enemies.push(Enemy::new(Vec2 { x: 600_000, y: 600_000 }, 1));
    g.shots.push(Shot::new(
        Vec2 { x: 600_000, y: 600_000 },
        Vec2 { x: 0, y: 0 },
        1,
        5,
    ));
    let mouse = g.player.pos;
    g.update(mouse);
    assert_eq!(g.enemies.len(), 0);
    assert_eq!(g.score, 1);
    assert_eq!(g.shots.len(), 1);
    assert_eq!(g.shots[0].pierce, 0);
}

/// A level-2 kill splits into exactly two level-1 children whose
/// knockback directions sit thirty degrees to either side of the
/// killing shot's heading.
#[test]
fn split_children_fly_sixty_degrees_apart() {
    let mut g = Game::new();
    let mut e = Enemy::new(Vec2 { x: 600_000, y: 600_000 }, 2);
    g.shots.push(Shot::new(
        Vec2 { x: 600_000, y: 600_000 },
        Vec2 { x: 45_000, y: 0 },
        1,
        5,
    ));
    let children = e.update(&mut g);
    assert!(!e.alive());
    assert_eq!(children.len(), 2);
    assert_eq!(children[0].level, 1);
    assert_eq!(children[1].level, 1);
    assert_eq!(children[0].pos, e.pos);
    assert_eq!(children[0].knockback, polar(30_000, 50_000));
    assert_eq!(children[1].knockback, polar(330_000, 50_000));
    assert_eq!(g.shots[0].pierce, 0);
    assert!(g.particles.len() > 0);
}

/// A level-1 kill spawns no children.
#[test]
fn level_one_kill_spawns_nothing() {
    let mut g = Game::new();
    let mut e = Enemy::new(Vec2 { x: 600_000, y: 600_000 }, 1);
    g.shots.push(Shot::new(
        Vec2 { x: 600_000, y: 600_000 },
        Vec2 { x: 45_000, y: 0 },
        3,
        5,
    ));
    let children = e.update(&mut g);
    assert!(!e.alive());
    assert_eq!(children.len(), 0);
    assert_eq!(g.shots[0].pierce, 2);
}

/// An invincible enemy — its knockback not yet decayed — ignores an
/// overlapping shot entirely.
#[test]
fn undecayed_knockback_grants_hit_grace() {
    let mut g = Game::new();
    let mut e = Enemy::new_kb(
        Vec2 { x: 600_000, y: 600_000 },
        1,
        Vec2 { x: 50_000, y: 0 },
    );
    g.shots.push(Shot::new(
        Vec2 { x: 600_000, y: 600_000 },
        Vec2 { x: 45_000, y: 0 },
        1,
        5,
    ));
    let children = e.update(&mut g);
    assert!(e.alive());
    assert_eq!(children.len(), 0);
    assert_eq!(g.shots[0].pierce, 1);
}

/// Full invincibility countdown: no life is lost while it runs; once it
/// reaches zero and the overlap persists, exactly one life goes and the
/// countdown resets to its fixed value.
#[test]
fn invincibility_countdown_gates_life_loss() {
    let mut g = Game::new();
    g.enemies.push(Enemy::new(g.player.pos, 1));
    g.player.invincible = 30;
    let mouse = g.player.pos;
    Player::update(mouse, &mut g);
    assert_eq!(g.player.life, 3);
    assert_eq!(g.player.invincible, 29);
    g.player.invincible = 0;
    Player::update(mouse, &mut g);
    assert_eq!(g.player.life, 2);
    assert_eq!(g.player.invincible, 30);
}

/// At most one life is lost per tick however many enemies overlap.
#[test]
fn at_most_one_life_per_tick() {
    let mut g = Game::new();
    g.enemies.push(Enemy::new(g.player.pos, 1));
    g.enemies.push(Enemy::new(g.player.pos, 2));
    g.enemies.push(Enemy::new(g.player.pos, 3));
    g.player.invincible = -1;
    Player::update(g.player.pos, &mut g);
    assert_eq!(g.player.life, 2);
}

/// Filtering an already-filtered collection is a no-op.
#[test]
fn liveness_filter_is_idempotent() {
    let mut shots = Vec::new();
    for k in 0..6i64 {
        let mut s = Shot::new(
            Vec2 { x: 600_000, y: 400_000 },
            Vec2 { x: 1000, y: 0 },
            3,
            5,
        );
        s.alive = k % 2 == 0;
        shots.push(s);
    }
    let once = retain_live_shots(&shots);
    let twice = retain_live_shots(&once);
    assert_eq!(once.len(), 3);
    assert_eq!(once, twice);

    let mut pus = Vec::new();
    for k in 0..4i64 {
        let mut p = PowerUp::new_fixed(Power::LifeUp, Vec2 { x: 600_000, y: 400_000 });
        p.hits = k - 1;
        pus.push(p);
    }
    let once_p = retain_live_powerups(&pus);
    let twice_p = retain_live_powerups(&once_p);
    assert_eq!(once_p.len(), 2);
    assert_eq!(once_p, twice_p);
}

/// The tick leaves only live members in every collection.
#[test]
fn tick_culls_every_collection() {
    let mut g = Game::new();
    g.wave = 1;
    g.wave_state = WaveState::Ongoing;
    g.enemies.push(Enemy::new(Vec2 { x: 900_000, y: 600_000 }, 1));
    let mut dead_shot = Shot::new(
        Vec2 { x: 400_000, y: 400_000 },
        Vec2 { x: 0, y: 0 },
        1,
        5,
    );
    dead_shot.alive = false;
    g.shots.push(dead_shot);
    let mut spent = PowerUp::new_fixed(Power::LifeUp, Vec2 { x: 100_000, y: 700_000 });
    spent.hits = 0;
    g.powerups.push(spent);
    let mouse = g.player.pos;
    g.update(mouse);
    assert_eq!(g.shots.len(), 0);
    assert_eq!(g.powerups.len(), 0);
    for e in &g.enemies {
        assert!(e.alive());
    }
}

/// The frame counter saturates far out instead of wrapping.
#[test]
fn counters_saturate_at_the_cap() {
    let mut g = Game::new();
    g.frame = 1_000_000_000_000_000;
    let mouse = g.player.pos;
    g.update(mouse);
    assert_eq!(g.frame, 1_000_000_000_000_000);
}

/// A draw with positive shake decays the counter and jolts the frame.
#[test]
fn draw_decays_shake_and_builds_the_command_list() {
    let mut g = Game::new();
    g.enemies.push(Enemy::new(Vec2 { x: 700_000, y: 300_000 }, 2));
    g.powerups.push(PowerUp::new_fixed(Power::LifeUp, Vec2 { x: 300_000, y: 300_000 }));
    g.shake = 30;
    let frame = g.draw(500);
    assert_eq!(g.shake, 20);
    assert!(frame.offset.x.abs() <= 15_000 && frame.offset.y.abs() <= 15_000);
    assert_eq!(frame.bg_path.len(), 230);
    assert_eq!(
        frame.cmds.len(),
        g.enemies.len() + g.particles.len() + 7 * g.powerups.len()
    );
    assert_eq!(frame.score, g.score);
    assert_eq!(frame.life, g.player.life);
    let quiet = {
        let mut g2 = Game::new();
        g2.draw(0)
    };
    assert_eq!(quiet.offset, Vec2 { x: 0, y: 0 });
}

/// The frame driver catches logic up and drops late draws.
#[test]
fn run_frame_catches_up_and_skips() {
    let mut g = Game::new();
    let mut logic = arcade_core::clock::Clock::time_per_second(30);
    let mut draw = arcade_core::clock::Clock::time_per_second(60);
    let mut skipped: u64 = 0;
    let mouse = Vec2 { x: 650_000, y: 400_000 };
    let frame = g.run_frame(&mut logic, &mut draw, &mut skipped, 100_000, mouse);
    assert!(frame.is_some());
    assert_eq!(g.frame, 3);
    assert_eq!(skipped, 4);
    let none = g.run_frame(&mut logic, &mut draw, &mut skipped, 1000, mouse);
    assert!(none.is_none());
    assert_eq!(skipped, 4);
}

/// Enemies resolve the shots in collection order: a single-pierce shot
/// damages only the first overlapping enemy of the pass.
#[test]
fn first_enemy_of_the_pass_spends_the_pierce() {
    let mut g = Game::new();
    g.enemies.push(Enemy::new(Vec2 { x: 600_000, y: 600_000 }, 1));
    g.enemies.push(Enemy::new(Vec2 { x: 620_000, y: 600_000 }, 1));
    g.shots.push(Shot::new(
        Vec2 { x: 610_000, y: 600_000 },
        Vec2 { x: 0, y: 0 },
        1,
        5,
    ));
    let mouse = g.player.pos;
    g.update(mouse);
    assert_eq!(g.score, 1);
    assert_eq!(g.enemies.len(), 1);
    assert!(g.enemies[0].alive());
    assert_eq!(g.shots[0].pierce, 0);
}

/// A two-pierce shot kills both overlapping enemies in one pass.
#[test]
fn pierce_budget_spans_enemies_in_order() {
    let mut g = Game::new();
    g.enemies.push(Enemy::new(Vec2 { x: 600_000, y: 600_000 }, 1));
    g.enemies.push(Enemy::new(Vec2 { x: 620_000, y: 600_000 }, 1));
    g.shots.push(Shot::new(
        Vec2 { x: 610_000, y: 600_000 },
        Vec2 { x: 0, y: 0 },
        2,
        5,
    ));
    let mouse = g.player.pos;
    g.update(mouse);
    assert_eq!(g.score, 2);
    assert_eq!(g.enemies.len(), 0);
    assert_eq!(g.shots[0].pierce, 0);
}

/// The power-up pass threads the player through in order: two pickups
/// in one pass both apply.
#[test]
fn powerup_pass_applies_pickups_in_order() {
    let mut g = Game::new();
    g.powerups.push(PowerUp::new_fixed(Power::LifeUp, g.player.pos));
    g.powerups.push(PowerUp::new_fixed(Power::DamageUp, g.player.pos));
    g.powerup_pass();
    assert_eq!(g.player.life, 4);
    assert_eq!(g.player.damage, 6);
    assert_eq!(g.powerups.len(), 0);
}

/// The enemy pass alone moves every enemy and scores its kills.
#[test]
fn enemy_pass_scores_only_the_dead() {
    let mut g = Game::new();
    g.enemies.push(Enemy::new(Vec2 { x: 600_000, y: 600_000 }, 1));
    g.enemies.push(Enemy::new(Vec2 { x: 1_200_000, y: 100_000 }, 3));
    g.shots.push(Shot::new(
        Vec2 { x: 600_000, y: 600_000 },
        Vec2 { x: 0, y: 0 },
        1,
        5,
    ));
    g.enemy_pass();
    assert_eq!(g.score, 1);
    assert_eq!(g.enemies.len(), 1);
    assert_eq!(g.enemies[0].level, 3);
}


/// Drawing never advances the random stream: a run with draws
/// interleaved matches a run without them.
#[test]
fn draws_do_not_disturb_the_trajectory() {
    let mut a = Game::new();
    let mut b = Game::new();
    let mouse = Vec2 { x: 900_000, y: 600_000 };
    for _ in 0..30 {
        a.update(mouse);
        b.update(mouse);
        a.shake = 5;
        let _ = a.draw(400);
        a.shake = 0;
    }
    assert_eq!(a.player, b.player);
    assert_eq!(a.particles, b.particles);
    assert_eq!(a.enemies, b.enemies);
}

/// A chaos event teleports at most four points, each within its bounds,
/// and leaves every other point exactly in place.
#[test]
fn chaos_scatters_at_most_four_points() {
    let mut rng = rand_xorshift::XorShiftRng::from_seed([3; 16]);
    let mut bg = arcade_core::background::Background::new(&mut rng);
    let before = bg.points.clone();
    bg.chaos(&mut rng);
    assert_eq!(bg.points.len(), before.len());
    let mut moved = 0;
    for (old, new) in before.iter().zip(bg.points.iter()) {
        if old != new {
            moved += 1;
            assert!((new.pos.x - old.pos.x).abs() <= 80_000);
            assert!((new.pos.y - old.pos.y).abs() <= 80_000);
            assert_ne!(old.angle, new.angle);
        }
    }
    assert!(moved >= 1 && moved <= 4);
}
