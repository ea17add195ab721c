//! Level construction and the simulation context: one player record plus a
//! fixed, read-only list of static obstacle records, driven one tick at a
//! time through control, physics and animation.

use vstd::prelude::*;

use crate::animation::{
    animation_sprite, animation_transition, AnimationSystem, RenderFrame,
};
use crate::components::{BodyView, Facing, Player, PlayerState, PlayerView, TwoDimObject};
use crate::control::{control_transition, ControlSystem};
use crate::physics::{all_wf, on_ground, physics_step_spec, resting_on, views_of, PhysicsSystem};
use crate::{
    COORD_LIMIT, CRATE_SIZE, DISPLAY_WIDTH, GROUND_HEIGHT, GROUND_TOP, GROUND_WIDTH,
    PLAYER_HEIGHT, PLAYER_START, PLAYER_WIDTH,
};

verus! {

/// The ground strip: a wide body whose top edge is at [`GROUND_TOP`] and
/// whose left edge is at the left end of the playfield.
pub open spec fn ground_view() -> BodyView {
    BodyView {
        x: GROUND_WIDTH / 2,
        y: GROUND_TOP - GROUND_HEIGHT / 2,
        half_w: GROUND_WIDTH / 2,
        half_h: GROUND_HEIGHT / 2,
        vx: 0,
        vy: 0,
    }
}

/// A crate whose left edge is at `left` and whose bottom edge is at
/// `bottom`.
pub open spec fn crate_view(left: int, bottom: int) -> BodyView {
    BodyView {
        x: left + CRATE_SIZE / 2,
        y: bottom + CRATE_SIZE / 2,
        half_w: CRATE_SIZE / 2,
        half_h: CRATE_SIZE / 2,
        vx: 0,
        vy: 0,
    }
}

/// The body the player starts a session with: player-sized, centered at
/// ([`PLAYER_START`], [`PLAYER_START`]), at rest.
pub open spec fn player_start_view() -> BodyView {
    BodyView {
        x: PLAYER_START as int,
        y: PLAYER_START as int,
        half_w: PLAYER_WIDTH / 2,
        half_h: PLAYER_HEIGHT / 2,
        vx: 0,
        vy: 0,
    }
}

/// The fixed obstacle layout of a session: the ground strip, a small stack
/// of crates at the left end, and a row of three crates floating just above
/// head height at the right end.
pub open spec fn level_obstacles() -> Seq<BodyView> {
    seq![
        ground_view(),
        crate_view(0, GROUND_TOP as int),
        crate_view(CRATE_SIZE as int, GROUND_TOP as int),
        crate_view(0, GROUND_TOP + CRATE_SIZE),
        crate_view(DISPLAY_WIDTH - CRATE_SIZE, PLAYER_HEIGHT + 1_000 + GROUND_TOP),
        crate_view(DISPLAY_WIDTH - 2 * CRATE_SIZE, PLAYER_HEIGHT + 1_000 + GROUND_TOP),
        crate_view(DISPLAY_WIDTH - 3 * CRATE_SIZE, PLAYER_HEIGHT + 1_000 + GROUND_TOP),
    ]
}

/// Builds the fixed level a session starts from.
pub struct InitialState;

impl InitialState {
    /// The ground strip.
    pub fn init_ground() -> (g: TwoDimObject)
        ensures
            g@ == ground_view(),
            g@.wf(),
    {
        let mut g: TwoDimObject = TwoDimObject::new(GROUND_WIDTH, GROUND_HEIGHT);
        g.set_left(0);
        g.set_top(GROUND_TOP);
        g
    }

    /// A crate with its left edge at `left` and its bottom edge at
    /// `bottom`.
    pub fn init_crate(left: i64, bottom: i64) -> (c: TwoDimObject)
        requires
            -COORD_LIMIT <= left + CRATE_SIZE / 2 <= COORD_LIMIT,
            -COORD_LIMIT <= bottom + CRATE_SIZE / 2 <= COORD_LIMIT,
        ensures
            c@ == crate_view(left as int, bottom as int),
            c@.wf(),
    {
        let mut c: TwoDimObject = TwoDimObject::new(CRATE_SIZE, CRATE_SIZE);
        c.set_left(left);
        c.set_bottom(bottom);
        c
    }

    /// The player at its session start position, idle and at rest.
    pub fn init_player() -> (p: Player)
        ensures
            p@ == (PlayerView {
                body: player_start_view(),
                state: PlayerState::Idle,
                ticks: 0,
                facing: Facing::Right,
                grounded: false,
            }),
            p@.body.wf(),
    {
        let mut body: TwoDimObject = TwoDimObject::new(PLAYER_WIDTH, PLAYER_HEIGHT);
        body.set_position(PLAYER_START, PLAYER_START);
        Player::new(body)
    }

    /// The complete session start: the player and the fixed obstacle set.
    pub fn build() -> (sim: Simulation)
        ensures
            sim@.player == (PlayerView {
                body: player_start_view(),
                state: PlayerState::Idle,
                ticks: 0,
                facing: Facing::Right,
                grounded: false,
            }),
            sim@.obstacles == level_obstacles(),
            sim@.wf(),
    {
        let floating_bottom: i64 = PLAYER_HEIGHT + 1_000 + GROUND_TOP;  // 10 px above head height
        let mut obstacles: Vec<TwoDimObject> = Vec::new();
        obstacles.push(Self::init_ground());
        obstacles.push(Self::init_crate(0, GROUND_TOP));
        obstacles.push(Self::init_crate(CRATE_SIZE, GROUND_TOP));
        obstacles.push(Self::init_crate(0, GROUND_TOP + CRATE_SIZE));
        obstacles.push(Self::init_crate(DISPLAY_WIDTH - CRATE_SIZE, floating_bottom));
        obstacles.push(Self::init_crate(DISPLAY_WIDTH - 2 * CRATE_SIZE, floating_bottom));
        obstacles.push(Self::init_crate(DISPLAY_WIDTH - 3 * CRATE_SIZE, floating_bottom));
        proof {
            assert(views_of(obstacles@) =~= level_obstacles());
        }
        Simulation::new(InitialState::init_player(), obstacles)
    }
}

/// Mathematical model of a simulation: the player's model and the models of
/// the obstacles.
pub ghost struct SimView {
    pub player: PlayerView,
    pub obstacles: Seq<BodyView>,
}

impl SimView {
    /// Well-formed: the player's body and every obstacle are well formed.
    pub open spec fn wf(self) -> bool {
        self.player.body.wf() && all_wf(self.obstacles)
    }
}

/// The player's state after the control and physics stages of one tick,
/// before animation: control reads the on-ground signal computed from the
/// current position, then physics resolves the move.
pub open spec fn tick_mid(p: PlayerView, os: Seq<BodyView>, axis: int, jump: bool) -> PlayerView {
    let c: PlayerView = control_transition(p, axis, jump, resting_on(p.body, os));
    let r: (BodyView, bool) = physics_step_spec(c.body, os);
    PlayerView { body: r.0, grounded: r.1, ..c }
}

/// What one full simulation tick (control, then physics, then animation)
/// does to the player.
pub open spec fn tick_transition(p: PlayerView, os: Seq<BodyView>, axis: int, jump: bool) -> PlayerView {
    animation_transition(tick_mid(p, os, axis, jump))
}

/// The sprite index emitted by one full simulation tick.
pub open spec fn tick_sprite(p: PlayerView, os: Seq<BodyView>, axis: int, jump: bool) -> int {
    animation_sprite(tick_mid(p, os, axis, jump))
}

/// The simulation context: the single moving player and the fixed,
/// read-only obstacle set.
pub struct Simulation {
    /// The single moving entity.
    pub player: Player,
    /// The static obstacle set, fixed for the lifetime of the simulation.
    pub obstacles: Vec<TwoDimObject>,
}

impl View for Simulation {
    type V = SimView;

    open spec fn view(&self) -> SimView {
        SimView { player: self.player@, obstacles: views_of(self.obstacles@) }
    }
}

impl Simulation {
    /// A simulation over the given player and obstacle set.
    pub fn new(player: Player, obstacles: Vec<TwoDimObject>) -> (sim: Simulation)
        ensures
            sim@.player == player@,
            sim@.obstacles == views_of(obstacles@),
    {
        Simulation { player, obstacles }
    }

    /// The on-ground signal for the player's current position.
    pub fn grounded_now(&self) -> (r: bool)
        requires
            self@.wf(),
        ensures
            r == resting_on(self@.player.body, self@.obstacles),
    {
        on_ground(&self.player.two_dim, &self.obstacles)
    }

    /// Runs one full simulation tick: control with the given input intent,
    /// then physics, then animation; returns the frame to render.
    ///
    /// `axis` is the horizontal axis deflection in tenths of full
    /// deflection (see [`crate::AXIS_SCALE`]); `jump` is whether the jump
    /// action is down.
    pub fn step(&mut self, axis: i64, jump: bool) -> (frame: RenderFrame)
        requires
            old(self)@.wf(),
            -COORD_LIMIT <= axis <= COORD_LIMIT,
        ensures
            final(self)@.obstacles == old(self)@.obstacles,
            final(self)@.player == tick_transition(
                old(self)@.player,
                old(self)@.obstacles,
                axis as int,
                jump,
            ),
            frame.sprite_number == tick_sprite(
                old(self)@.player,
                old(self)@.obstacles,
                axis as int,
                jump,
            ),
            frame.facing == final(self)@.player.facing,
            frame.x == final(self)@.player.body.x,
            frame.y == final(self)@.player.body.y,
    {
        let g: bool = on_ground(&self.player.two_dim, &self.obstacles);
        ControlSystem::run(&mut self.player, axis, jump, g);
        PhysicsSystem::run(&mut self.player, &self.obstacles);
        AnimationSystem::run(&mut self.player)
    }

    /// Runtime check for well-formedness, for callers outside verified
    /// code: the player's body and every obstacle are within
    /// [`COORD_LIMIT`].
    pub fn is_well_formed(&self) -> (r: bool)
        ensures
            r == self@.wf(),
    {
        let ghost os: Seq<BodyView> = views_of(self.obstacles@);
        let mut ok: bool = self.player.two_dim.is_well_formed();
        let mut idx: usize = 0;
        while idx < self.obstacles.len()
            invariant
                idx <= self.obstacles.len(),
                os == views_of(self.obstacles@),
                os.len() == self.obstacles@.len(),
                ok == (self.player.two_dim@.wf() && forall|j: int| 0 <= j < idx ==> os[j].wf()),
            decreases self.obstacles.len() - idx,
        {
            let o: TwoDimObject = self.obstacles[idx];
            proof {
                assert(self.obstacles@[idx as int]@ == os[idx as int]);
            }
            ok = ok && o.is_well_formed();
            idx = idx + 1;
        }
        ok
    }
}

} // verus!
