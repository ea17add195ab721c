use platformer::components::{Player, TwoDimObject};
use platformer::control::ControlSystem;
use platformer::{AXIS_SCALE, JUMP_VELOCITY, MAX_X_VELOCITY, PLAYER_HEIGHT, PLAYER_WIDTH};

fn fresh_player() -> Player {
    Player::new(TwoDimObject::new(PLAYER_WIDTH, PLAYER_HEIGHT))
}

#[test]
fn axis_accumulates_velocity() {
    let mut p: Player = fresh_player();
    ControlSystem::run(&mut p, AXIS_SCALE, false, false);
    assert_eq!(p.two_dim.velocity_x, 10);
    ControlSystem::run(&mut p, AXIS_SCALE, false, false);
    assert_eq!(p.two_dim.velocity_x, 20);
    ControlSystem::run(&mut p, 3, false, false);
    assert_eq!(p.two_dim.velocity_x, 23);
    ControlSystem::run(&mut p, -AXIS_SCALE, false, false);
    assert_eq!(p.two_dim.velocity_x, 13);
}

#[test]
fn zero_axis_resets_velocity_at_once() {
    let mut p: Player = fresh_player();
    p.two_dim.velocity_x = 480;
    ControlSystem::run(&mut p, 0, false, false);
    assert_eq!(p.two_dim.velocity_x, 0);
}

#[test]
fn velocity_clamps_at_the_limit() {
    let mut p: Player = fresh_player();
    p.two_dim.velocity_x = MAX_X_VELOCITY - 5;
    ControlSystem::run(&mut p, AXIS_SCALE, false, false);
    assert_eq!(p.two_dim.velocity_x, MAX_X_VELOCITY);
    ControlSystem::run(&mut p, AXIS_SCALE, false, false);
    assert_eq!(p.two_dim.velocity_x, MAX_X_VELOCITY);
    p.two_dim.velocity_x = -MAX_X_VELOCITY + 5;
    ControlSystem::run(&mut p, -AXIS_SCALE, false, false);
    assert_eq!(p.two_dim.velocity_x, -MAX_X_VELOCITY);
    ControlSystem::run(&mut p, -AXIS_SCALE, false, false);
    assert_eq!(p.two_dim.velocity_x, -MAX_X_VELOCITY);
}

#[test]
fn jump_while_grounded_sets_jump_velocity() {
    let mut p: Player = fresh_player();
    ControlSystem::run(&mut p, 0, true, true);
    assert_eq!(p.two_dim.velocity_y, JUMP_VELOCITY);
}

#[test]
fn jump_while_airborne_leaves_vy_unchanged() {
    let mut p: Player = fresh_player();
    p.two_dim.velocity_y = -130;
    ControlSystem::run(&mut p, 0, true, false);
    assert_eq!(p.two_dim.velocity_y, -130);
    // no effect while already rising either
    p.two_dim.velocity_y = 900;
    ControlSystem::run(&mut p, 0, true, false);
    assert_eq!(p.two_dim.velocity_y, 900);
}

#[test]
fn no_jump_press_leaves_vy_unchanged() {
    let mut p: Player = fresh_player();
    p.two_dim.velocity_y = -70;
    ControlSystem::run(&mut p, AXIS_SCALE, false, true);
    assert_eq!(p.two_dim.velocity_y, -70);
}

#[test]
fn control_touches_only_velocity() {
    let mut p: Player = fresh_player();
    p.two_dim.set_position(1234, 5678);
    ControlSystem::run(&mut p, AXIS_SCALE, true, true);
    assert_eq!(p.two_dim.x, 1234);
    assert_eq!(p.two_dim.y, 5678);
    assert_eq!(p.ticks, 0);
}
