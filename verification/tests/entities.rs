use arcade_core::colors::{Rgba, hsv2rgb, palette};
use arcade_core::enemy::Enemy;
use arcade_core::geom::{Vec2, polar};
use arcade_core::particles::{Particle, Shape};
use arcade_core::player::Player;
use arcade_core::powerup::{Power, PowerUp};
use arcade_core::shot::Shot;
use rand::SeedableRng;
use rand_xorshift::XorShiftRng;

fn rng() -> XorShiftRng {
    XorShiftRng::from_seed([7; 16])
}

#[test]
fn hsv_red_led_triple() {
    assert_eq!(
        hsv2rgb(27_000, 1000, 1000),
        Rgba { r: 1000, g: 450, b: 0, a: 1000 }
    );
    assert_eq!(hsv2rgb(100_000, 0, 700), Rgba { r: 700, g: 700, b: 700, a: 1000 });
}

#[test]
fn palette_wraps_by_level() {
    assert_eq!(palette(1), Rgba { r: 500, g: 0, b: 1000, a: 1000 });
    assert_eq!(palette(8), palette(1));
    assert_eq!(palette(6), Rgba { r: 1000, g: 0, b: 0, a: 1000 });
}

#[test]
fn new_enemy_derives_radius_and_hit_points_from_level() {
    let e = Enemy::new(Vec2 { x: 100_000, y: 100_000 }, 3);
    assert_eq!(e.radius, 45_000);
    assert_eq!(e.level, 3);
    assert!(e.alive());
    assert_eq!(e.speed, 0);
    assert_eq!(e.knockback, Vec2 { x: 0, y: 0 });
}

#[test]
fn invincibility_follows_knockback_decay_threshold() {
    let pos = Vec2 { x: 100_000, y: 100_000 };
    let hot = Enemy::new_kb(pos, 1, Vec2 { x: 4503, y: 0 });
    let cold = Enemy::new_kb(pos, 1, Vec2 { x: 4502, y: 0 });
    assert!(hot.invincible());
    assert!(!cold.invincible());
}

#[test]
fn particle_speed_decays_to_removal() {
    let mut p = Particle::default();
    p.pos = Vec2 { x: 100_000, y: 100_000 };
    p.speed = 10_000;
    p.accel = -1500;
    for _ in 0..5 {
        assert!(p.update());
    }
    assert!(!p.update());
    assert_eq!(p.speed, 1000);
}

#[test]
fn particle_leaving_extended_bounds_dies() {
    let mut p = Particle::default();
    p.pos = Vec2 { x: 4_990_000, y: 100_000 };
    p.speed = 20_000;
    p.angle = 0;
    assert!(!p.update());
    assert!(p.pos.x >= 5_000_000);
}

#[test]
fn shot_moves_and_dies_outside_the_margin() {
    let mut s = Shot::new(
        Vec2 { x: 1_349_000, y: 400_000 },
        Vec2 { x: 2000, y: 0 },
        1,
        5,
    );
    s.update();
    assert_eq!(s.pos.x, 1_351_000);
    assert!(!s.alive);
}

#[test]
fn shot_with_no_pierce_left_dies_on_update() {
    let mut s = Shot::new(Vec2 { x: 600_000, y: 400_000 }, Vec2 { x: 0, y: 0 }, 1, 5);
    s.pierce = 0;
    s.update();
    assert!(!s.alive);
}

#[test]
fn shot_trail_is_one_backwards_shard() {
    let s = Shot::new(Vec2 { x: 600_000, y: 400_000 }, Vec2 { x: 45_000, y: 0 }, 2, 5);
    let mut r = rng();
    let trail = s.particles(&mut r);
    assert_eq!(trail.len(), 1);
    let p = &trail[0];
    assert_eq!(p.pos, s.pos);
    assert_eq!(p.angle, 180_000);
    assert_eq!(p.accel, -5000);
    assert_eq!(p.shape, Shape::Shard(-700 - 300 * 2, 3000, false));
    assert!(p.speed >= 12_000 && p.speed < 18_000);
}

#[test]
fn powerup_bounce_reflects_and_spends_budget() {
    let mut pu = PowerUp {
        pos: Vec2 { x: 10_000, y: 400_000 },
        vel: Vec2 { x: -20_000, y: 0 },
        power: Power::ShotUp,
        hits: 5,
        radius: 20_000,
        t: 0,
    };
    let mut player = Player::new();
    player.pos = Vec2 { x: 1_000_000, y: 700_000 };
    pu.update(&mut player);
    assert_eq!(pu.vel, Vec2 { x: 20_000, y: 0 });
    assert_eq!(pu.hits, 4);
    assert_eq!(pu.t, 1);
}

#[test]
fn powerup_pickup_zeroes_budget_and_raises_the_stat() {
    let mut player = Player::new();
    let mut pu = PowerUp::new_fixed(Power::DamageUp, player.pos);
    let damage_before = player.damage;
    pu.update(&mut player);
    assert_eq!(pu.hits, 0);
    assert_eq!(player.damage, damage_before + 1);
}

#[test]
fn each_power_raises_its_own_stat() {
    let mut player = Player::new();
    player.powerup(Power::LifeUp);
    player.powerup(Power::PierceUp);
    player.powerup(Power::ShotUp);
    player.powerup(Power::DamageUp);
    assert_eq!(player.life, 4);
    assert_eq!(player.pierce, 6);
    assert_eq!(player.shots, 6);
    assert_eq!(player.damage, 6);
}

#[test]
fn fire_fans_one_shot_per_shot_stat() {
    let player = Player::new();
    let aim = Vec2 { x: 800_000, y: 200_000 };
    let shots = player.fire(aim);
    assert_eq!(shots.len() as i64, player.shots);
    for s in &shots {
        assert_eq!(s.pierce, player.pierce);
        assert_eq!(s.damage, player.damage);
        assert_eq!(s.pos, player.pos);
        assert!(s.alive);
        assert_eq!(s.radius, 15_000);
    }
}

#[test]
fn single_shot_fires_half_a_step_off_aim() {
    let mut player = Player::new();
    player.shots = 1;
    let aim = Vec2 { x: 800_000, y: 200_000 };
    let shots = player.fire(aim);
    assert_eq!(shots.len(), 1);
    assert_eq!(shots[0].vel, polar(7500, 45_000));
}

#[test]
fn powerup_idle_sparks_head_in_the_four_directions() {
    let mut r = rng();
    let pu = PowerUp::new_fixed(Power::LifeUp, Vec2 { x: 600_000, y: 400_000 });
    let sparks = pu.particles(&mut r);
    assert_eq!(sparks.len(), 4);
    for (u, p) in sparks.iter().enumerate() {
        assert_eq!(p.angle, 90_000 * u as i64);
        assert_eq!(p.bias, pu.vel);
        assert_eq!(p.color, pu.color());
        assert_eq!(p.alpha_scale, 8000);
    }
}

#[test]
fn player_trail_is_four_warm_sparks() {
    let mut r = rng();
    let player = Player::new();
    let sparks = player.particles(&mut r);
    assert_eq!(sparks.len(), 4);
    for p in &sparks {
        assert_eq!(p.pos, player.pos);
        assert_eq!(p.accel, -1500);
        assert_eq!(p.angular_vel, 25_000);
        assert_eq!(p.shape, Shape::Circle(4000));
        assert!(p.speed >= 1000 && p.speed < 19_000);
    }
}

#[test]
fn sampling_helpers_stay_inside_their_ranges() {
    let mut r = rng();
    assert_eq!(arcade_core::rng::sample_range(&mut r, 5, 6), 5);
    let mut distinct = std::collections::HashSet::new();
    for _ in 0..100 {
        let v = arcade_core::rng::sample_range(&mut r, -50, 50);
        assert!((-50..50).contains(&v));
        distinct.insert(v);
    }
    assert!(distinct.len() > 3);
    for _ in 0..100 {
        let v = arcade_core::rng::sample_normal(&mut r, 15_000, 1000);
        assert!((12_000..18_000).contains(&v));
    }
}

#[test]
fn same_seed_gives_the_same_sample_stream() {
    let mut a = XorShiftRng::from_seed([9; 16]);
    let mut b = XorShiftRng::from_seed([9; 16]);
    for _ in 0..50 {
        assert_eq!(
            arcade_core::rng::sample_range(&mut a, 0, 1_000_000),
            arcade_core::rng::sample_range(&mut b, 0, 1_000_000)
        );
    }
}
