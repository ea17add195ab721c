//! Per-tick core of a 2D side-scrolling platformer: axis-aligned collision
//! detection and resolution between one moving player body and a fixed set of
//! static obstacles, gravity integration, ground detection, and the
//! velocity-driven animation state machine that selects a sprite frame and a
//! facing direction.
//!
//! Every coordinate, size and velocity is an integer number of subpixels
//! ([`SUBPIXELS_PER_PIXEL`] subpixels per screen pixel), so each rule of the
//! simulation is exact. One simulation tick runs control, then physics, then
//! animation, each completing fully before the next begins.

use vstd::prelude::*;

pub mod animation;
pub mod components;
pub mod control;
pub mod entities;
pub mod laws;
pub mod physics;

verus! {

/// Subpixel units per screen pixel. Every coordinate, size and velocity in
/// this crate is measured in subpixels.
pub const SUBPIXELS_PER_PIXEL: i64 = 100;

/// Width of the playfield in subpixels (1000 screen pixels). Horizontal
/// resolution keeps the player's edges inside `[0, DISPLAY_WIDTH]`.
pub const DISPLAY_WIDTH: i64 = 100_000;

/// Width of the player's collision box in subpixels (90 screen pixels).
pub const PLAYER_WIDTH: i64 = 9_000;

/// Height of the player's collision box in subpixels (164 screen pixels).
pub const PLAYER_HEIGHT: i64 = 16_400;

/// Horizontal and vertical coordinate at which the player starts a session
/// (500 screen pixels).
pub const PLAYER_START: i64 = 50_000;

/// Top edge of the ground strip in subpixels (74 screen pixels).
pub const GROUND_TOP: i64 = 7_400;

/// Width of the ground strip in subpixels (1280 screen pixels).
pub const GROUND_WIDTH: i64 = 128_000;

/// Height of the ground strip in subpixels (128 screen pixels).
pub const GROUND_HEIGHT: i64 = 12_800;

/// Side length of a crate obstacle in subpixels (77 screen pixels).
pub const CRATE_SIZE: i64 = 7_700;

/// Largest horizontal speed in subpixels per tick (5 screen pixels per tick).
/// Control clamps the accumulated horizontal velocity to
/// `[-MAX_X_VELOCITY, MAX_X_VELOCITY]`.
pub const MAX_X_VELOCITY: i64 = 500;

/// Horizontal speed above which the player is considered running, in
/// subpixels per tick: 0.7 times [`MAX_X_VELOCITY`] (3.5 screen pixels).
pub const RUN_VELOCITY_THRESHOLD: i64 = 350;

/// Vertical velocity given to the player when a jump starts, in subpixels
/// per tick (20 screen pixels per tick).
pub const JUMP_VELOCITY: i64 = 2_000;

/// Downward acceleration applied each airborne tick, in subpixels per tick
/// squared (0.7 screen pixels per tick squared).
pub const GRAVITY: i64 = 70;

/// Axis input scale: an axis value of `AXIS_SCALE` means full deflection.
/// The acceleration rate (0.1 screen pixels per tick squared at full
/// deflection) and this scale cancel exactly: one control tick adds exactly
/// the axis value, in subpixels per tick, to the horizontal velocity.
pub const AXIS_SCALE: i64 = 10;

/// Simulation ticks per animation frame: the visible sprite advances once
/// every `FRAMES_PER_ANIMATION_FRAME` ticks.
pub const FRAMES_PER_ANIMATION_FRAME: u64 = 6;

/// Bound on well-formed coordinates, half-extents and velocities. It keeps
/// every intermediate sum of a simulation step far inside `i64`, and is far
/// larger than any value a playfield of [`DISPLAY_WIDTH`] can produce.
pub const COORD_LIMIT: i64 = 1_000_000_000_000;

} // verus!
