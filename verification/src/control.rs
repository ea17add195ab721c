//! The control stage: turns the tick's input intent (horizontal axis value,
//! jump button) and the externally computed on-ground signal into the
//! player's intended velocity for the tick.

use vstd::prelude::*;

use crate::components::{BodyView, Player, PlayerView};
use crate::{COORD_LIMIT, JUMP_VELOCITY, MAX_X_VELOCITY};

verus! {

/// A horizontal velocity clamped to `[-MAX_X_VELOCITY, MAX_X_VELOCITY]`.
pub open spec fn clamp_velocity(v: int) -> int {
    if v > MAX_X_VELOCITY {
        MAX_X_VELOCITY as int
    } else if v < -MAX_X_VELOCITY {
        -MAX_X_VELOCITY as int
    } else {
        v
    }
}

/// What one control tick does to the player.
///
/// A zero axis value resets the horizontal velocity to zero at once (there is
/// no deceleration curve); a nonzero axis value adds itself, in subpixels per
/// tick, to the horizontal velocity, which is then clamped. A jump press
/// while grounded sets the vertical velocity to [`JUMP_VELOCITY`]; a jump
/// press while airborne has no effect. Nothing else changes.
pub open spec fn control_transition(p: PlayerView, axis: int, jump: bool, grounded: bool) -> PlayerView {
    let vx: int = if axis == 0 {
        0
    } else {
        clamp_velocity(p.body.vx + axis)
    };
    let vy: int = if jump && grounded {
        JUMP_VELOCITY as int
    } else {
        p.body.vy
    };
    PlayerView { body: BodyView { vx: vx, vy: vy, ..p.body }, ..p }
}

/// The control stage of the tick pipeline.
pub struct ControlSystem;

impl ControlSystem {
    /// Sets the player's intended velocity for this tick.
    ///
    /// `axis` is the horizontal axis deflection in tenths of full deflection
    /// (see [`crate::AXIS_SCALE`]); `jump` is whether the jump action is
    /// down; `grounded` is the precomputed on-ground signal (see
    /// [`crate::physics::on_ground`]).
    pub fn run(player: &mut Player, axis: i64, jump: bool, grounded: bool)
        requires
            old(player).two_dim@.wf(),
            -COORD_LIMIT <= axis <= COORD_LIMIT,
        ensures
            final(player)@ == control_transition(old(player)@, axis as int, jump, grounded),
            -MAX_X_VELOCITY <= final(player)@.body.vx <= MAX_X_VELOCITY,
            jump && grounded ==> final(player)@.body.vy == JUMP_VELOCITY,
            !(jump && grounded) ==> final(player)@.body.vy == old(player)@.body.vy,
            final(player)@.body.wf(),
    {
        if axis == 0 {
            player.two_dim.velocity_x = 0;
        } else {
            let mut vx: i64 = player.two_dim.velocity_x + axis;
            if vx > MAX_X_VELOCITY {
                vx = MAX_X_VELOCITY;
            }
            if vx < -MAX_X_VELOCITY {
                vx = -MAX_X_VELOCITY;
            }
            player.two_dim.velocity_x = vx;
        }
        if jump && grounded {
            player.two_dim.velocity_y = JUMP_VELOCITY;
        }
    }
}

} // verus!
