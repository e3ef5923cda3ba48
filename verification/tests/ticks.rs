use flappy_core::config::{Config, GRAVITY, JUMP_VELOCITY, PLAYER_HALF_HEIGHT, SCREEN_HEIGHT};
use flappy_core::input::{flap_signal, just_pressed, Buttons};
use flappy_core::player::{GameState, Player, Vec2i};
use flappy_core::step::{handle_flap, tick, tick_checked, tick_entity};

#[test]
fn standard_config_matches_the_game_constants() {
    let cfg = Config::standard();
    assert_eq!(cfg.gravity, GRAVITY);
    assert_eq!(cfg.jump_velocity, JUMP_VELOCITY);
    assert_eq!(cfg.screen_height, SCREEN_HEIGHT);
    assert_eq!(cfg.player_half_height, PLAYER_HALF_HEIGHT);
    // The clamp interval is [-12 px, 212 px].
    assert_eq!(cfg.lower_bound(), -12_000_000);
    assert_eq!(cfg.upper_bound(), 212_000_000);
}

#[test]
fn flap_overrides_falling_velocity_and_fires_audio_once() {
    // Falling at 100 px/s, flap edge seen, impulse 150 px/s.
    let (vel, audio) = handle_flap(-100, true, 150);
    assert_eq!(vel, 150);
    assert!(audio);
}

#[test]
fn no_flap_leaves_velocity_untouched_and_fires_no_audio() {
    let (vel, audio) = handle_flap(-100, false, 150);
    assert_eq!(vel, -100);
    assert!(!audio);
}

#[test]
fn edge_detection_fires_only_on_the_press_transition() {
    assert!(just_pressed(false, true));
    assert!(!just_pressed(true, true));
    assert!(!just_pressed(true, false));
    assert!(!just_pressed(false, false));
}

#[test]
fn either_button_edge_raises_the_flap_signal() {
    let released = Buttons { left: false, right: false };
    let left = Buttons { left: true, right: false };
    let right = Buttons { left: false, right: true };
    assert!(flap_signal(released, left));
    assert!(flap_signal(released, right));
    assert!(!flap_signal(released, released));
    assert!(!flap_signal(left, released));
}

#[test]
fn held_button_flaps_at_most_once_per_press() {
    // Press on tick 1, then hold through ticks 2 and 3: the impulse fires on
    // the edge tick only, so later velocity is affected by gravity alone.
    let cfg = Config::standard();
    let released = Buttons { left: false, right: false };
    let held = Buttons { left: true, right: false };

    let mut player = Player { y_vel: 0 };
    let mut pos = Vec2i { x: 0, y: 100_000_000 };

    let flap1 = flap_signal(released, held);
    assert!(flap1);
    let (p1, pos1, audio1) = tick(player, pos, flap1, 16, &cfg);
    assert!(audio1);
    assert_eq!(p1.y_vel, JUMP_VELOCITY + GRAVITY * 16);
    player = p1;
    pos = pos1;

    let v_after_press = player.y_vel;
    let flap2 = flap_signal(held, held);
    assert!(!flap2);
    let (p2, pos2, audio2) = tick(player, pos, flap2, 16, &cfg);
    assert!(!audio2);
    assert_eq!(p2.y_vel, v_after_press + GRAVITY * 16);
    player = p2;
    pos = pos2;

    let flap3 = flap_signal(held, held);
    assert!(!flap3);
    let (p3, _pos3, audio3) = tick(player, pos, flap3, 16, &cfg);
    assert!(!audio3);
    assert_eq!(p3.y_vel, v_after_press + 2 * GRAVITY * 16);
}

#[test]
fn one_tick_end_to_end() {
    // position = 100 px, velocity = 0, dt = 0.1 s, gravity = -650 px/s^2 and
    // no flap: velocity -65 px/s, position 100 - 6.5 = 93.5 px, no clamp.
    let cfg = Config::standard();
    let player = Player { y_vel: 0 };
    let pos = Vec2i { x: 48_000_000, y: 100_000_000 };
    let (p, pos2, audio) = tick(player, pos, false, 100, &cfg);
    assert_eq!(p.y_vel, -65_000);
    assert_eq!(pos2.y, 93_500_000);
    assert_eq!(pos2.x, 48_000_000);
    assert!(!audio);
}

#[test]
fn tick_lands_on_the_floor_and_stops() {
    // Start just above the floor, falling hard: the clamp pins the position
    // to the lower bound and zeroes the velocity, so integration holds still.
    let cfg = Config::standard();
    let player = Player { y_vel: -500_000 };
    let pos = Vec2i { x: 0, y: -20_000_000 };
    let (p, pos2, _) = tick(player, pos, false, 16, &cfg);
    assert_eq!(p.y_vel, 0);
    assert_eq!(pos2.y, -12_000_000);
}

#[test]
fn tick_checked_agrees_with_tick_and_rejects_overflow() {
    let cfg = Config::standard();
    let player = Player { y_vel: 0 };
    let pos = Vec2i { x: 48_000_000, y: 100_000_000 };
    let checked = tick_checked(player, pos, false, 100, &cfg);
    assert_eq!(checked, Some(tick(player, pos, false, 100, &cfg)));

    // A dt so large that gravity * dt leaves the machine word.
    let huge_dt = i64::MAX / 600;
    assert_eq!(tick_checked(player, pos, false, huge_dt, &cfg), None);
}

#[test]
fn absent_player_is_a_silent_no_op() {
    let cfg = Config::standard();
    let (after, audio) = tick_entity(None, true, 16, &cfg);
    assert_eq!(after, None);
    assert!(!audio);
}

#[test]
fn present_player_is_stepped_like_tick() {
    let cfg = Config::standard();
    let player = Player { y_vel: 0 };
    let pos = Vec2i { x: 0, y: 100_000_000 };
    let (after, audio) = tick_entity(Some((player, pos)), true, 16, &cfg);
    let (p, pos2, audio2) = tick(player, pos, true, 16, &cfg);
    assert_eq!(after, Some((p, pos2)));
    assert_eq!(audio, audio2);
}

#[test]
fn game_state_defaults_to_menu() {
    assert_eq!(GameState::default(), GameState::Menu);
}
