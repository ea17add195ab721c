use platformer::animation::RenderFrame;
use platformer::components::{Facing, PlayerState};
use platformer::entities::{InitialState, Simulation};
use platformer::{
    AXIS_SCALE, CRATE_SIZE, DISPLAY_WIDTH, GRAVITY, GROUND_TOP, JUMP_VELOCITY, MAX_X_VELOCITY,
    PLAYER_HEIGHT,
};

#[test]
fn level_layout() {
    let sim: Simulation = InitialState::build();
    assert!(sim.is_well_formed());
    assert_eq!(sim.obstacles.len(), 7);
    // the ground strip
    assert_eq!(sim.obstacles[0].left(), 0);
    assert_eq!(sim.obstacles[0].top(), GROUND_TOP);
    assert_eq!(sim.obstacles[0].right(), 128000);
    // the crate stack at the left end
    assert_eq!(sim.obstacles[1].left(), 0);
    assert_eq!(sim.obstacles[1].bottom(), GROUND_TOP);
    assert_eq!(sim.obstacles[2].left(), CRATE_SIZE);
    assert_eq!(sim.obstacles[2].bottom(), GROUND_TOP);
    assert_eq!(sim.obstacles[3].left(), 0);
    assert_eq!(sim.obstacles[3].bottom(), GROUND_TOP + CRATE_SIZE);
    // the floating row at the right end, just above head height
    let floating_bottom: i64 = PLAYER_HEIGHT + 1000 + GROUND_TOP;
    assert_eq!(sim.obstacles[4].left(), DISPLAY_WIDTH - CRATE_SIZE);
    assert_eq!(sim.obstacles[4].bottom(), floating_bottom);
    assert_eq!(sim.obstacles[5].left(), DISPLAY_WIDTH - 2 * CRATE_SIZE);
    assert_eq!(sim.obstacles[5].bottom(), floating_bottom);
    assert_eq!(sim.obstacles[6].left(), DISPLAY_WIDTH - 3 * CRATE_SIZE);
    assert_eq!(sim.obstacles[6].bottom(), floating_bottom);
    // obstacles are at rest and stay where they are
    for o in &sim.obstacles {
        assert_eq!(o.velocity_x, 0);
        assert_eq!(o.velocity_y, 0);
    }
    // the player record
    assert_eq!(sim.player.two_dim.x, 50000);
    assert_eq!(sim.player.two_dim.y, 50000);
    assert_eq!(sim.player.state, PlayerState::Idle);
    assert_eq!(sim.player.facing, Facing::Right);
    assert_eq!(sim.player.ticks, 0);
    assert!(!sim.player.grounded);
}

#[test]
fn acceleration_ramp_reaches_exactly_the_speed_limit() {
    // holding full deflection on the ground drives vx to exactly
    // MAX_X_VELOCITY and never beyond; the state turns Running as soon as
    // vx passes RUN_VELOCITY_THRESHOLD
    let mut sim: Simulation = InitialState::build();
    sim.player.two_dim.set_bottom(GROUND_TOP);
    for t in 1..=60i64 {
        sim.step(AXIS_SCALE, false);
        let vx: i64 = sim.player.two_dim.velocity_x;
        assert!(vx <= MAX_X_VELOCITY);
        if t <= 50 {
            assert_eq!(vx, 10 * t);
        } else {
            assert_eq!(vx, MAX_X_VELOCITY);
        }
        if t >= 36 {
            assert_eq!(sim.player.state, PlayerState::Running);
        } else {
            assert_eq!(sim.player.state, PlayerState::Walking);
        }
        assert!(sim.player.grounded);
    }
}

#[test]
fn first_ticks_of_a_session_fall_and_jump_animate() {
    let mut sim: Simulation = InitialState::build();
    // tick 1: gravity only begins to pull, so the body has not moved yet,
    // but the velocity is already downward, which reads as jumping
    let f: RenderFrame = sim.step(0, false);
    assert_eq!(f.x, 50000);
    assert_eq!(f.y, 50000);
    assert_eq!(f.sprite_number, 35);
    assert_eq!(f.facing, Facing::Right);
    assert_eq!(sim.player.state, PlayerState::Jumping);
    assert_eq!(sim.player.two_dim.velocity_y, -GRAVITY);
    // tick 2: the fall shows
    let f: RenderFrame = sim.step(0, false);
    assert_eq!(f.y, 50000 - GRAVITY);
    assert_eq!(f.sprite_number, 35);
}

#[test]
fn jump_from_the_ground_through_the_pipeline() {
    let mut sim: Simulation = InitialState::build();
    sim.player.two_dim.set_bottom(GROUND_TOP);
    let bottom_before: i64 = sim.player.two_dim.bottom();
    sim.step(0, true);
    // control saw the on-ground signal, so the jump fired and the body rose
    assert_eq!(sim.player.two_dim.bottom(), bottom_before + JUMP_VELOCITY);
    assert_eq!(sim.player.two_dim.velocity_y, JUMP_VELOCITY - GRAVITY);
    assert_eq!(sim.player.state, PlayerState::Jumping);
    assert!(!sim.player.grounded);
    // a second press in the air does nothing: the velocity just follows
    // gravity
    let vy_before: i64 = sim.player.two_dim.velocity_y;
    sim.step(0, true);
    assert_eq!(sim.player.two_dim.velocity_y, vy_before - GRAVITY);
}

#[test]
fn jump_and_land_round_trip() {
    let mut sim: Simulation = InitialState::build();
    sim.player.two_dim.set_bottom(GROUND_TOP);
    sim.step(0, true);
    let mut ticks: i64 = 1;
    while !sim.player.grounded {
        sim.step(0, false);
        ticks += 1;
        assert!(ticks < 1000, "the player never came back down");
    }
    assert_eq!(sim.player.two_dim.bottom(), GROUND_TOP);
    assert_eq!(sim.player.two_dim.velocity_y, 0);
    // back at rest, the next tick reads as idle
    sim.step(0, false);
    assert_eq!(sim.player.state, PlayerState::Idle);
}

#[test]
fn whole_session_stays_inside_the_display() {
    // drive hard right, then hard left; the resolved edges never leave the
    // display and never enter the crate stack
    let mut sim: Simulation = InitialState::build();
    sim.player.two_dim.set_bottom(GROUND_TOP);
    for _ in 0..300 {
        sim.step(AXIS_SCALE, false);
        assert!(sim.player.two_dim.left() >= 0);
        assert!(sim.player.two_dim.right() <= DISPLAY_WIDTH);
    }
    assert_eq!(sim.player.two_dim.right(), DISPLAY_WIDTH);
    for _ in 0..300 {
        sim.step(-AXIS_SCALE, false);
        assert!(sim.player.two_dim.left() >= 0);
        assert!(sim.player.two_dim.right() <= DISPLAY_WIDTH);
    }
    // stopped by the crate stack, whose right edge is at 2 * CRATE_SIZE
    assert_eq!(sim.player.two_dim.left(), 2 * CRATE_SIZE);
}

#[test]
fn grounded_signal_tracks_position() {
    let mut sim: Simulation = InitialState::build();
    assert!(!sim.grounded_now());
    sim.player.two_dim.set_bottom(GROUND_TOP);
    assert!(sim.grounded_now());
    sim.player.two_dim.set_bottom(GROUND_TOP + 1);
    assert!(!sim.grounded_now());
}

#[test]
fn step_sequence_is_deterministic() {
    let inputs: Vec<(i64, bool)> = vec![
        (10, false),
        (10, true),
        (0, false),
        (-10, false),
        (-10, false),
        (0, true),
        (10, false),
    ];
    let replay = |steps: &[(i64, bool)]| -> Vec<RenderFrame> {
        let mut sim: Simulation = InitialState::build();
        sim.player.two_dim.set_bottom(GROUND_TOP);
        let mut frames: Vec<RenderFrame> = Vec::new();
        for (axis, jump) in steps {
            frames.push(sim.step(*axis, *jump));
        }
        frames
    };
    assert_eq!(replay(&inputs), replay(&inputs));
}
