use pong::config::{Config, UNITS_PER_PIXEL};
use pong::input::{direction, Binding, Direction, Input, Key};
use pong::paddle::{next_position, Paddle, Side};
use pong::scene::{Ball, Scene};
use pong::timestep::{FixedTimestep, TICK_LENGTH};

fn keys(a: bool, d: bool, left: bool, right: bool) -> Input {
    Input { a, d, left, right }
}

#[test]
fn reference_bounds_are_252_pixels() {
    let cfg = Config::reference();
    assert_eq!(cfg.max_pos(), 252 * UNITS_PER_PIXEL);
    assert_eq!(cfg.min_pos(), -252 * UNITS_PER_PIXEL);
    assert_eq!(cfg.step_units(), 400);
}

#[test]
fn idle_paddle_does_not_drift() {
    let cfg = Config::reference();
    for y in [-15120i64, -7, 0, 1234, 15120] {
        assert_eq!(next_position(&cfg, y, Direction::Idle), y);
    }
    let mut p = Paddle { side: Side::Left, x: 0, y: 500 };
    p.update(&cfg, &Binding::left_player(), &Input::released());
    assert_eq!(p.y, 500);
}

#[test]
fn up_and_down_move_one_step() {
    let cfg = Config::reference();
    assert_eq!(next_position(&cfg, 0, Direction::Up), 400);
    assert_eq!(next_position(&cfg, 0, Direction::Down), -400);
    assert_eq!(next_position(&cfg, 15000, Direction::Up), 15120);
    assert_eq!(next_position(&cfg, -15000, Direction::Down), -15120);
}

#[test]
fn clamp_holds_for_out_of_range_starts() {
    let cfg = Config::reference();
    assert_eq!(next_position(&cfg, i64::MAX, Direction::Up), 15120);
    assert_eq!(next_position(&cfg, i64::MIN, Direction::Down), -15120);
    assert_eq!(next_position(&cfg, 100_000, Direction::Idle), 15120);
    assert_eq!(next_position(&cfg, -100_000, Direction::Up), -15120);
}

#[test]
fn saturates_at_top_with_up_held() {
    let cfg = Config::reference();
    let top = cfg.max_pos();
    assert_eq!(next_position(&cfg, top, Direction::Up), top);
    let bottom = cfg.min_pos();
    assert_eq!(next_position(&cfg, bottom, Direction::Down), bottom);
}

#[test]
fn both_keys_resolve_to_up() {
    let left = Binding::left_player();
    let right = Binding::right_player();
    assert_eq!(direction(&keys(true, true, false, false), &left), Direction::Up);
    assert_eq!(direction(&keys(false, false, true, true), &right), Direction::Up);
    assert_eq!(direction(&keys(false, true, false, false), &left), Direction::Down);
    assert_eq!(direction(&keys(false, false, false, true), &right), Direction::Down);
    assert_eq!(direction(&keys(true, true, false, false), &right), Direction::Idle);
}

#[test]
fn key_snapshot_reports_each_key() {
    let input = keys(true, false, false, true);
    assert!(input.pressed(Key::A));
    assert!(!input.pressed(Key::D));
    assert!(!input.pressed(Key::Left));
    assert!(input.pressed(Key::Right));
}

#[test]
fn setup_places_entities() {
    let cfg = Config::reference();
    let s = Scene::setup(&cfg);
    assert_eq!(s.left.x, -336 * UNITS_PER_PIXEL);
    assert_eq!(s.right.x, 336 * UNITS_PER_PIXEL);
    assert_eq!(s.left.y, 0);
    assert_eq!(s.right.y, 0);
    assert_eq!(s.left.side, Side::Left);
    assert_eq!(s.right.side, Side::Right);
    assert_eq!(s.ball, Ball { x: 0, y: 0 });
}

#[test]
fn holding_up_reaches_top_on_tick_38() {
    let cfg = Config::reference();
    let up = keys(true, false, false, false);
    let mut s = Scene::setup(&cfg);
    s.run_ticks(&cfg, &up, 37);
    assert_eq!(s.left.y, 37 * 400);
    assert!(s.left.y < 252 * UNITS_PER_PIXEL);
    s.tick(&cfg, &up);
    assert_eq!(s.left.y, 252 * UNITS_PER_PIXEL);
    s.run_ticks(&cfg, &up, 20);
    assert_eq!(s.left.y, 252 * UNITS_PER_PIXEL);
    assert_eq!(s.right.y, 0);
}

#[test]
fn paddle_updates_commute() {
    let cfg = Config::reference();
    let input = keys(true, false, false, true);
    let mut a = Scene::setup(&cfg);
    a.run_ticks(&cfg, &keys(false, true, true, false), 5);
    let mut b = a;
    a.update_left(&cfg, &input);
    a.update_right(&cfg, &input);
    b.update_right(&cfg, &input);
    b.update_left(&cfg, &input);
    assert_eq!(a, b);
    assert_eq!(a.left.y, -1600);
    assert_eq!(a.right.y, 1600);
}

#[test]
fn timestep_carries_remainder() {
    let mut ts = FixedTimestep::new(10);
    assert_eq!(ts.advance(25), 2);
    assert_eq!(ts.accumulated, 5);
    assert_eq!(ts.advance(4), 0);
    assert_eq!(ts.accumulated, 9);
    assert_eq!(ts.advance(1), 1);
    assert_eq!(ts.accumulated, 0);
}

#[test]
fn timestep_sixty_hertz() {
    let mut ts = FixedTimestep::new(TICK_LENGTH);
    // one second, in sixtieths of a nanosecond
    assert_eq!(ts.advance(60 * 1_000_000_000), 60);
    assert_eq!(ts.accumulated, 0);
    assert_eq!(ts.advance(u64::MAX), u64::MAX / TICK_LENGTH);
    let mut one = FixedTimestep::new(1);
    assert_eq!(one.advance(u64::MAX), u64::MAX);
}

#[test]
fn config_validity() {
    assert!(Config::reference().is_valid());
    let tight = Config { window_width: 10, window_height: 96, paddle_half_height: 32, margin: 16, speed: 1 };
    assert!(tight.is_valid());
    let mut s = Scene::setup(&tight);
    s.run_ticks(&tight, &keys(true, false, false, false), 3);
    assert_eq!(s.left.y, 0);
    let cramped = Config { window_width: 10, window_height: 95, paddle_half_height: 32, margin: 16, speed: 1 };
    assert!(!cramped.is_valid());
}
