use platformer::components::{Player, TwoDimObject};
use platformer::entities::{InitialState, Simulation};
use platformer::physics::{on_ground, PhysicsSystem};
use platformer::{DISPLAY_WIDTH, GRAVITY, GROUND_TOP};

#[test]
fn landing_on_the_ground() {
    // falling from the start position, the player's bottom edge lands
    // exactly on the ground's top edge, grounded turns true on the tick of
    // the first boundary crossing, and vy is reset to zero that same tick
    let mut sim: Simulation = InitialState::build();
    assert_eq!(sim.player.two_dim.y, 50000);
    let mut ticks: i64 = 0;
    while !sim.player.grounded {
        PhysicsSystem::run(&mut sim.player, &sim.obstacles);
        ticks += 1;
        assert!(ticks < 1000, "the player never landed");
        if !sim.player.grounded {
            assert!(sim.player.two_dim.bottom() > GROUND_TOP);
        }
    }
    assert_eq!(ticks, 32);
    assert_eq!(sim.player.two_dim.bottom(), GROUND_TOP);
    assert_eq!(sim.player.two_dim.velocity_y, 0);
}

#[test]
fn gravity_accumulates_while_airborne() {
    let mut sim: Simulation = InitialState::build();
    PhysicsSystem::run(&mut sim.player, &sim.obstacles);
    assert_eq!(sim.player.two_dim.velocity_y, -GRAVITY);
    assert_eq!(sim.player.two_dim.y, 50000);  // vy was zero during this tick
    PhysicsSystem::run(&mut sim.player, &sim.obstacles);
    assert_eq!(sim.player.two_dim.velocity_y, -2 * GRAVITY);
    assert_eq!(sim.player.two_dim.y, 50000 - GRAVITY);
}

#[test]
fn zero_velocity_is_idempotent_on_the_ground() {
    let mut sim: Simulation = InitialState::build();
    sim.player.two_dim.set_bottom(GROUND_TOP);
    for _ in 0..50 {
        PhysicsSystem::run(&mut sim.player, &sim.obstacles);
        assert_eq!(sim.player.two_dim.x, 50000);
        assert_eq!(sim.player.two_dim.bottom(), GROUND_TOP);
        assert!(sim.player.grounded);
        assert_eq!(sim.player.two_dim.velocity_x, 0);
        assert_eq!(sim.player.two_dim.velocity_y, 0);
    }
}

#[test]
fn right_wall_stops_the_player() {
    let mut sim: Simulation = InitialState::build();
    sim.player.two_dim.set_bottom(GROUND_TOP);
    sim.player.two_dim.set_right(99800);
    sim.player.two_dim.velocity_x = 500;
    PhysicsSystem::run(&mut sim.player, &sim.obstacles);
    assert_eq!(sim.player.two_dim.right(), DISPLAY_WIDTH);
    PhysicsSystem::run(&mut sim.player, &sim.obstacles);
    assert_eq!(sim.player.two_dim.right(), DISPLAY_WIDTH);
}

#[test]
fn left_wall_stops_the_player() {
    let mut sim: Simulation = InitialState::build();
    // high enough that the crate stack at the left end is below the player
    sim.player.two_dim.set_bottom(30000);
    sim.player.two_dim.set_left(300);
    sim.player.two_dim.velocity_x = -500;
    PhysicsSystem::run(&mut sim.player, &sim.obstacles);
    assert_eq!(sim.player.two_dim.left(), 0);
}

#[test]
fn crate_stack_blocks_leftward_motion() {
    let mut sim: Simulation = InitialState::build();
    sim.player.two_dim.set_bottom(GROUND_TOP);
    sim.player.two_dim.set_left(16000);
    sim.player.two_dim.velocity_x = -500;
    // first tick: the candidate stays right of the stack
    PhysicsSystem::run(&mut sim.player, &sim.obstacles);
    assert_eq!(sim.player.two_dim.left(), 15500);
    // second tick: the candidate crosses the stack's right edge and clamps
    PhysicsSystem::run(&mut sim.player, &sim.obstacles);
    assert_eq!(sim.player.two_dim.left(), 15400);
    // and stays clamped
    PhysicsSystem::run(&mut sim.player, &sim.obstacles);
    assert_eq!(sim.player.two_dim.left(), 15400);
}

#[test]
fn nearest_obstacle_wins_moving_right() {
    let mut sim: Simulation = InitialState::build();
    // airborne at the height of the floating crate row, far enough left
    sim.player.two_dim.set_bottom(25000);
    sim.player.two_dim.set_right(76800);
    // a huge step that would cross all three floating crates
    sim.player.two_dim.velocity_x = 20000;
    PhysicsSystem::run(&mut sim.player, &sim.obstacles);
    // clamped at the leftmost (nearest) crate of the row, not the last one
    assert_eq!(sim.player.two_dim.right(), 76900);
}

#[test]
fn ceiling_bump_under_the_floating_crates() {
    let mut sim: Simulation = InitialState::build();
    sim.player.two_dim.set_bottom(GROUND_TOP);
    sim.player.two_dim.set_position(90000, sim.player.two_dim.y);
    sim.player.two_dim.velocity_y = 2000;
    PhysicsSystem::run(&mut sim.player, &sim.obstacles);
    // the top edge clamps to the crates' bottom edge and the rise stops
    assert_eq!(sim.player.two_dim.top(), 24800);
    assert!(!sim.player.grounded);
    // the bump zeroed vy, then gravity pulled for the next tick
    assert_eq!(sim.player.two_dim.velocity_y, -GRAVITY);
}

#[test]
fn landing_on_a_crate_top() {
    let mut sim: Simulation = InitialState::build();
    // above the single crate at the top of the left stack
    sim.player.two_dim.set_position(3850, sim.player.two_dim.y);
    sim.player.two_dim.set_bottom(30000);
    sim.player.two_dim.velocity_y = -10000;
    PhysicsSystem::run(&mut sim.player, &sim.obstacles);
    // that crate's top edge is at GROUND_TOP + 2 * CRATE_SIZE
    assert_eq!(sim.player.two_dim.bottom(), 22800);
    assert!(sim.player.grounded);
    assert_eq!(sim.player.two_dim.velocity_y, 0);
}

#[test]
fn equal_edges_tie_cleanly() {
    // two obstacles sharing a right edge: a leftward step that crosses it
    // clamps there once, whichever of the two is considered first
    let mut a: TwoDimObject = TwoDimObject::new(2000, 2000);
    a.set_right(5000);
    a.set_bottom(0);
    let mut b: TwoDimObject = TwoDimObject::new(2000, 2000);
    b.set_right(5000);
    b.set_bottom(1500);
    let obstacles: Vec<TwoDimObject> = vec![a, b];
    let mut p: Player = Player::new(TwoDimObject::new(1000, 1000));
    p.two_dim.set_left(6000);
    p.two_dim.set_bottom(1000);
    p.two_dim.velocity_x = -2000;
    PhysicsSystem::run(&mut p, &obstacles);
    assert_eq!(p.two_dim.left(), 5000);
}

#[test]
fn nearest_support_wins_falling() {
    // above the left stack, the ground, the single crate and the stacked
    // crate all lie below; a fast fall stops at the highest top edge
    let mut sim: Simulation = InitialState::build();
    sim.player.two_dim.set_position(3850, sim.player.two_dim.y);
    sim.player.two_dim.set_bottom(30000);
    sim.player.two_dim.velocity_y = -30000;
    PhysicsSystem::run(&mut sim.player, &sim.obstacles);
    assert_eq!(sim.player.two_dim.bottom(), 22800);
    assert!(sim.player.grounded);
}

#[test]
fn on_ground_requires_horizontal_overlap_and_touching_edges() {
    let sim: Simulation = InitialState::build();
    let mut body: TwoDimObject = sim.player.two_dim;
    body.set_bottom(GROUND_TOP);
    assert!(on_ground(&body, &sim.obstacles));
    // a hair above the ground is airborne
    body.set_bottom(GROUND_TOP + 1);
    assert!(!on_ground(&body, &sim.obstacles));
    // touching the level's ground height outside the ground strip: the
    // strip is wider than the display, so move beyond any obstacle
    let mut far: TwoDimObject = TwoDimObject::new(9000, 16400);
    far.set_position(500000, 0);
    far.set_bottom(GROUND_TOP);
    assert!(!on_ground(&far, &sim.obstacles));
}

#[test]
fn physics_leaves_horizontal_velocity_alone() {
    let mut sim: Simulation = InitialState::build();
    sim.player.two_dim.set_bottom(GROUND_TOP);
    sim.player.two_dim.velocity_x = 230;
    PhysicsSystem::run(&mut sim.player, &sim.obstacles);
    assert_eq!(sim.player.two_dim.velocity_x, 230);
    assert_eq!(sim.player.two_dim.x, 50000 + 230);
}

#[test]
fn physics_ignores_obstacles_without_vertical_overlap() {
    let mut sim: Simulation = InitialState::build();
    // walking on the ground toward the floating crate row: no y overlap
    sim.player.two_dim.set_bottom(GROUND_TOP);
    sim.player.two_dim.set_right(76800);
    sim.player.two_dim.velocity_x = 500;
    PhysicsSystem::run(&mut sim.player, &sim.obstacles);
    assert_eq!(sim.player.two_dim.right(), 77300);
}

#[test]
fn grounded_player_without_support_starts_falling() {
    let mut p: Player = Player::new(TwoDimObject::new(9000, 16400));
    p.two_dim.set_position(50000, 50000);
    let empty: Vec<TwoDimObject> = Vec::new();
    PhysicsSystem::run(&mut p, &empty);
    assert!(!p.grounded);
    assert_eq!(p.two_dim.velocity_y, -GRAVITY);
}
