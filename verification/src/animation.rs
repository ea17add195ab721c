//! The animation stage: derives a discrete movement state from the resolved
//! velocity, selects the sprite frame and the facing direction, and reports
//! the body's render-space position.

use vstd::prelude::*;

use crate::components::{Facing, Player, PlayerState, PlayerView};
use crate::{FRAMES_PER_ANIMATION_FRAME, RUN_VELOCITY_THRESHOLD};

verus! {

/// The movement state derived from the resolved velocity alone: any
/// vertical motion means jumping; otherwise a horizontal speed above
/// [`RUN_VELOCITY_THRESHOLD`] means running, any other nonzero horizontal
/// speed means walking, and rest means idle.
pub open spec fn next_state_spec(vx: int, vy: int) -> PlayerState {
    if vy != 0 {
        PlayerState::Jumping
    } else if vx > RUN_VELOCITY_THRESHOLD || vx < -RUN_VELOCITY_THRESHOLD {
        PlayerState::Running
    } else if vx != 0 {
        PlayerState::Walking
    } else {
        PlayerState::Idle
    }
}

/// The facing direction follows the sign of the horizontal velocity and is
/// unchanged (sticky) while that velocity is zero.
pub open spec fn next_facing_spec(vx: int, facing: Facing) -> Facing {
    if vx > 0 {
        Facing::Right
    } else if vx < 0 {
        Facing::Left
    } else {
        facing
    }
}

/// First sprite index of the state's frame window.
pub open spec fn frame_start(s: PlayerState) -> int {
    match s {
        PlayerState::Idle => 15,
        PlayerState::Walking => 60,
        PlayerState::Running => 45,
        PlayerState::Jumping => 35,
    }
}

/// Number of sprites in the state's frame window.
pub open spec fn frame_count(s: PlayerState) -> int {
    match s {
        PlayerState::Idle => 15,
        PlayerState::Walking => 15,
        PlayerState::Running => 15,
        PlayerState::Jumping => 7,
    }
}

/// The tick counter the frame is drawn from: it restarts at zero when the
/// movement state changes, and otherwise keeps its value.
pub open spec fn ticks_after_reset(p: PlayerView) -> u64 {
    if next_state_spec(p.body.vx, p.body.vy) != p.state {
        0
    } else {
        p.ticks
    }
}

/// The sprite index emitted by one animation tick: the window of the new
/// state, advanced one frame every [`FRAMES_PER_ANIMATION_FRAME`] ticks,
/// wrapping around the window.
pub open spec fn animation_sprite(p: PlayerView) -> int {
    let s: PlayerState = next_state_spec(p.body.vx, p.body.vy);
    let t: u64 = ticks_after_reset(p);
    frame_start(s) + ((t as int) / (FRAMES_PER_ANIMATION_FRAME as int)) % frame_count(s)
}

/// What one animation tick does to the player: the facing follows the
/// velocity's sign, the state is rederived, the tick counter restarts on a
/// state change and then advances by one (wrapping on overflow). The body is
/// untouched.
pub open spec fn animation_transition(p: PlayerView) -> PlayerView {
    let s: PlayerState = next_state_spec(p.body.vx, p.body.vy);
    let t: u64 = ticks_after_reset(p);
    PlayerView {
        state: s,
        ticks: if t == u64::MAX {
            0
        } else {
            (t + 1) as u64
        },
        facing: next_facing_spec(p.body.vx, p.facing),
        ..p
    }
}

/// One frame of render output: the sprite to draw, which way to flip it,
/// and where to draw it (the body's resolved center position).
#[derive(Clone, Copy, Debug, PartialEq, Eq, Structural)]
pub struct RenderFrame {
    /// Index of the sprite to draw.
    pub sprite_number: u64,
    /// Which way the sprite faces.
    pub facing: Facing,
    /// Horizontal center of the body in render space.
    pub x: i64,
    /// Vertical center of the body in render space.
    pub y: i64,
}

/// The animation stage of the tick pipeline.
pub struct AnimationSystem;

impl AnimationSystem {
    /// Runs one animation tick on the player and returns the frame to
    /// render. The result is a function of the player's resolved state
    /// alone, so a replayed velocity sequence reproduces the same frames.
    pub fn run(player: &mut Player) -> (frame: RenderFrame)
        ensures
            final(player)@ == animation_transition(old(player)@),
            frame.sprite_number == animation_sprite(old(player)@),
            frame.facing == final(player)@.facing,
            frame.x == old(player)@.body.x,
            frame.y == old(player)@.body.y,
            frame_start(final(player)@.state) <= frame.sprite_number < frame_start(
                final(player)@.state,
            ) + frame_count(final(player)@.state),
    {
        // set sprite direction
        if player.two_dim.velocity_x > 0 {
            player.facing = Facing::Right;
        } else if player.two_dim.velocity_x < 0 {
            player.facing = Facing::Left;
        }

        // set player state, restarting the frame cycle on a change
        let next: PlayerState = if player.two_dim.velocity_y != 0 {
            PlayerState::Jumping
        } else if player.two_dim.velocity_x > RUN_VELOCITY_THRESHOLD
            || player.two_dim.velocity_x < -RUN_VELOCITY_THRESHOLD {
            PlayerState::Running
        } else if player.two_dim.velocity_x != 0 {
            PlayerState::Walking
        } else {
            PlayerState::Idle
        };
        if player.state != next {
            player.state = next;
            player.ticks = 0;
        }

        let (sprite_initial_index, num_sprites): (u64, u64) = match player.state {
            PlayerState::Idle => (15, 15),
            PlayerState::Walking => (60, 15),
            PlayerState::Running => (45, 15),
            PlayerState::Jumping => (35, 7),
        };
        let sprite: u64 = (player.ticks / FRAMES_PER_ANIMATION_FRAME) % num_sprites
            + sprite_initial_index;
        player.ticks = if player.ticks == u64::MAX {
            0
        } else {
            player.ticks + 1
        };

        RenderFrame {
            sprite_number: sprite,
            facing: player.facing,
            x: player.two_dim.x,
            y: player.two_dim.y,
        }
    }
}

} // verus!
