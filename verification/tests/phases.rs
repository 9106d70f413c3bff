use arcade_core::clock::Clock;
use arcade_core::game::{Game, GameEvent, WaveState, pow4_sat};
use arcade_core::geom::Vec2;
use arcade_core::overlay::{Overlay, OverlayMsg};
use arcade_core::powerup::Power;

#[test]
fn powers_of_four_saturate() {
    assert_eq!(pow4_sat(0), 1);
    assert_eq!(pow4_sat(2), 16);
    assert_eq!(pow4_sat(5), 1024);
    assert_eq!(pow4_sat(60), 1_000_000_000_000_000);
}

#[test]
fn ongoing_ends_exactly_at_the_threshold() {
    let mut g = Game::new();
    g.wave = 1;
    g.wave_state = WaveState::Ongoing;
    g.score = 16;
    g.wave_step();
    assert_eq!(g.wave_state, WaveState::WaitToEnd);

    let mut g2 = Game::new();
    g2.wave = 1;
    g2.wave_state = WaveState::Ongoing;
    g2.score = 15;
    g2.wave_step();
    assert_eq!(g2.wave_state, WaveState::Ongoing);
}

#[test]
fn drained_wave_announces_the_powerups() {
    let mut g = Game::new();
    g.wave_state = WaveState::WaitToEnd;
    g.wave_step();
    assert_eq!(g.wave_state, WaveState::AnnouncePowerUp(45));
    assert!(g.overlay.visible);
    assert_eq!(g.overlay.msg, OverlayMsg::PickTwo);
}

#[test]
fn powerup_announcement_counts_down_into_the_fixed_layout() {
    let mut g = Game::new();
    g.wave_state = WaveState::AnnouncePowerUp(1);
    g.wave_step();
    assert_eq!(g.wave_state, WaveState::AnnouncePowerUp(0));
    g.wave_step();
    assert_eq!(g.wave_state, WaveState::PowerUp);
    assert!(!g.overlay.visible);
    assert_eq!(g.powerups.len(), 4);
    assert_eq!(g.powerups[0].power, Power::DamageUp);
    assert_eq!(g.powerups[0].pos, Vec2 { x: 325_000, y: 200_000 });
    assert_eq!(g.powerups[1].power, Power::LifeUp);
    assert_eq!(g.powerups[1].pos, Vec2 { x: 975_000, y: 200_000 });
    assert_eq!(g.powerups[2].power, Power::PierceUp);
    assert_eq!(g.powerups[2].pos, Vec2 { x: 325_000, y: 600_000 });
    assert_eq!(g.powerups[3].power, Power::ShotUp);
    assert_eq!(g.powerups[3].pos, Vec2 { x: 975_000, y: 600_000 });
}

#[test]
fn two_picked_powerups_end_the_intermission() {
    let mut g = Game::new();
    assert_eq!(g.wave_state, WaveState::PowerUp);
    assert_eq!(g.wave, 4);
    g.wave_step();
    assert_eq!(g.wave, 5);
    assert_eq!(g.wave_state, WaveState::AnnounceWave(60));
    assert_eq!(g.powerups.len(), 0);
    assert!(g.overlay.visible);
    assert_eq!(g.overlay.msg, OverlayMsg::Wave(5));
}

#[test]
fn wave_announcement_counts_down_into_the_fight() {
    let mut g = Game::new();
    g.wave = 2;
    g.wave_state = WaveState::AnnounceWave(1);
    g.wave_step();
    assert_eq!(g.wave_state, WaveState::AnnounceWave(0));
    g.wave_step();
    assert_eq!(g.wave_state, WaveState::Ongoing);
    assert!(!g.overlay.visible);
}

#[test]
fn overlay_throws_edge_shards_every_sixth_frame() {
    let mut o = Overlay::wave(3);
    o.frame = 4;
    assert_eq!(o.particles().len(), 0);
    assert_eq!(o.frame, 5);
    let shards = o.particles();
    assert_eq!(o.frame, 6);
    assert_eq!(shards.len(), 2);
    assert_eq!(shards[0].pos, Vec2 { x: 0, y: 460_000 });
    assert_eq!(shards[0].angle, 0);
    assert_eq!(shards[1].pos, Vec2 { x: 1_300_000, y: 340_000 });
    assert_eq!(shards[1].angle, 180_000);
}

#[test]
fn hidden_overlay_emits_nothing() {
    let mut o = Overlay::pause();
    o.visible = false;
    o.frame = 5;
    assert_eq!(o.particles().len(), 0);
    assert_eq!(o.frame, 5);
}

#[test]
fn pause_toggles_only_while_alive() {
    let mut g = Game::new();
    g.event(GameEvent::TogglePause, Vec2 { x: 0, y: 0 });
    assert!(g.paused);
    assert!(g.overlay.visible);
    assert_eq!(g.overlay.msg, OverlayMsg::Paused);
    g.event(GameEvent::TogglePause, Vec2 { x: 0, y: 0 });
    assert!(!g.paused);
    assert!(!g.overlay.visible);
    g.player.life = 0;
    g.event(GameEvent::TogglePause, Vec2 { x: 0, y: 0 });
    assert!(!g.paused);
}

#[test]
fn restart_resets_the_run_and_reseeds_the_stream() {
    let mut g = Game::new();
    let mouse = Vec2 { x: 300_000, y: 500_000 };
    for _ in 0..25 {
        g.update(mouse);
    }
    g.score = 99;
    g.wave = 7;
    g.frame = 123;
    g.event(GameEvent::Restart, Vec2 { x: 0, y: 0 });
    assert_eq!(g.score, 0);
    assert_eq!(g.wave, 0);
    assert_eq!(g.frame, 0);
    assert_eq!(g.wave_state, WaveState::PowerUp);
    assert_eq!(g.enemies.len(), 0);
    assert_eq!(g.player.life, 3);
    let fresh = Game::new();
    assert_eq!(g.bg.points, fresh.bg.points);
}

#[test]
fn fire_event_appends_the_fan() {
    let mut g = Game::new();
    let before = g.shots.len();
    g.event(GameEvent::Fire, Vec2 { x: 900_000, y: 500_000 });
    assert_eq!(g.shots.len() as i64, before as i64 + g.player.shots);
}

#[test]
fn clock_drains_whole_periods_and_reports_the_fraction() {
    let mut c = Clock::time_per_second(30);
    assert_eq!(c.period_us, 33_333);
    c.add_time(70_000);
    assert!(c.tick());
    assert!(c.tick());
    assert!(!c.tick());
    assert_eq!(c.acc_us, 3334);
    assert_eq!(c.fraction_mil(), 100);
}

#[test]
fn clock_exhaust_counts_elapsed_periods() {
    let mut c = Clock::new(10_000);
    c.add_time(45_000);
    assert_eq!(c.exhaust(), 4);
    assert_eq!(c.acc_us, 5000);
    assert_eq!(c.exhaust(), 0);
}

#[test]
fn clock_add_time_saturates() {
    let mut c = Clock::new(10_000);
    c.add_time(u64::MAX);
    c.add_time(500);
    assert_eq!(c.acc_us, u64::MAX);
}
