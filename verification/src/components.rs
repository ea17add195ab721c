//! The shared data model: an axis-aligned body with position, size and
//! velocity, and the player record built on top of it.

use vstd::prelude::*;

use crate::COORD_LIMIT;

verus! {

/// Mathematical model of an axis-aligned body: a center position, half
/// extents and a velocity, all in subpixels as unbounded integers.
pub ghost struct BodyView {
    pub x: int,
    pub y: int,
    pub half_w: int,
    pub half_h: int,
    pub vx: int,
    pub vy: int,
}

impl BodyView {
    /// Left edge of the body.
    pub open spec fn left(self) -> int {
        self.x - self.half_w
    }

    /// Right edge of the body.
    pub open spec fn right(self) -> int {
        self.x + self.half_w
    }

    /// Top edge of the body.
    pub open spec fn top(self) -> int {
        self.y + self.half_h
    }

    /// Bottom edge of the body.
    pub open spec fn bottom(self) -> int {
        self.y - self.half_h
    }

    /// Full width of the body.
    pub open spec fn width(self) -> int {
        2 * self.half_w
    }

    /// Well-formed: non-negative half extents, and all magnitudes bounded by
    /// [`COORD_LIMIT`] so that every intermediate sum of a simulation step
    /// fits in `i64`.
    pub open spec fn wf(self) -> bool {
        &&& 0 <= self.half_w <= COORD_LIMIT
        &&& 0 <= self.half_h <= COORD_LIMIT
        &&& -COORD_LIMIT <= self.x <= COORD_LIMIT
        &&& -COORD_LIMIT <= self.y <= COORD_LIMIT
        &&& -COORD_LIMIT <= self.vx <= COORD_LIMIT
        &&& -COORD_LIMIT <= self.vy <= COORD_LIMIT
    }
}

/// The horizontal extents of `a` and `b` overlap (their interiors intersect
/// along the x axis; merely touching edges do not overlap).
pub open spec fn overlap_x(a: BodyView, b: BodyView) -> bool {
    a.left() < b.right() && b.left() < a.right()
}

/// The vertical extents of `a` and `b` overlap (their interiors intersect
/// along the y axis; merely touching edges do not overlap).
pub open spec fn overlap_y(a: BodyView, b: BodyView) -> bool {
    a.bottom() < b.top() && b.bottom() < a.top()
}

/// An axis-aligned box with a center position, fixed half extents and a
/// velocity, all in subpixels. It is the collision shape of both the player
/// and the static obstacles; an obstacle keeps velocity `(0, 0)` and is never
/// moved after level construction. The half extents are set at construction
/// and never changed by any method of this crate.
#[derive(Clone, Copy, Debug, PartialEq, Eq, Structural)]
pub struct TwoDimObject {
    /// Horizontal center coordinate.
    pub x: i64,
    /// Vertical center coordinate.
    pub y: i64,
    /// Half of the body's width.
    pub half_width: i64,
    /// Half of the body's height.
    pub half_height: i64,
    /// Horizontal velocity in subpixels per tick; positive is rightward.
    pub velocity_x: i64,
    /// Vertical velocity in subpixels per tick; positive is upward.
    pub velocity_y: i64,
}

impl View for TwoDimObject {
    type V = BodyView;

    open spec fn view(&self) -> BodyView {
        BodyView {
            x: self.x as int,
            y: self.y as int,
            half_w: self.half_width as int,
            half_h: self.half_height as int,
            vx: self.velocity_x as int,
            vy: self.velocity_y as int,
        }
    }
}

impl TwoDimObject {
    /// A body of the given width and height, centered at the origin and at
    /// rest. The sides must be even so that the center-based edges are exact.
    pub fn new(width: i64, height: i64) -> (r: TwoDimObject)
        requires
            0 <= width <= COORD_LIMIT,
            0 <= height <= COORD_LIMIT,
            width % 2 == 0,
            height % 2 == 0,
        ensures
            r@ == (BodyView { x: 0, y: 0, half_w: width / 2, half_h: height / 2, vx: 0, vy: 0 }),
            r@.wf(),
    {
        TwoDimObject {
            x: 0,
            y: 0,
            half_width: width / 2,
            half_height: height / 2,
            velocity_x: 0,
            velocity_y: 0,
        }
    }

    /// Left edge.
    pub fn left(&self) -> (r: i64)
        requires
            self@.wf(),
        ensures
            r == self@.left(),
    {
        self.x - self.half_width
    }

    /// Right edge.
    pub fn right(&self) -> (r: i64)
        requires
            self@.wf(),
        ensures
            r == self@.right(),
    {
        self.x + self.half_width
    }

    /// Top edge.
    pub fn top(&self) -> (r: i64)
        requires
            self@.wf(),
        ensures
            r == self@.top(),
    {
        self.y + self.half_height
    }

    /// Bottom edge.
    pub fn bottom(&self) -> (r: i64)
        requires
            self@.wf(),
        ensures
            r == self@.bottom(),
    {
        self.y - self.half_height
    }

    /// Full width.
    pub fn width(&self) -> (r: i64)
        requires
            0 <= self@.half_w <= COORD_LIMIT,
        ensures
            r == self@.width(),
    {
        2 * self.half_width
    }

    /// Moves the body so that its center is at `(x, y)`.
    pub fn set_position(&mut self, x: i64, y: i64)
        requires
            -3 * COORD_LIMIT <= x <= 3 * COORD_LIMIT,
            -3 * COORD_LIMIT <= y <= 3 * COORD_LIMIT,
        ensures
            final(self)@ == (BodyView { x: x as int, y: y as int, ..old(self)@ }),
    {
        self.x = x;
        self.y = y;
    }

    /// Moves the body horizontally so that its left edge is at `v`.
    pub fn set_left(&mut self, v: i64)
        requires
            0 <= old(self)@.half_w <= COORD_LIMIT,
            -3 * COORD_LIMIT <= v <= 3 * COORD_LIMIT,
        ensures
            final(self)@ == (BodyView { x: v + old(self)@.half_w, ..old(self)@ }),
            final(self)@.left() == v,
    {
        self.x = v + self.half_width;
    }

    /// Moves the body horizontally so that its right edge is at `v`.
    pub fn set_right(&mut self, v: i64)
        requires
            0 <= old(self)@.half_w <= COORD_LIMIT,
            -3 * COORD_LIMIT <= v <= 3 * COORD_LIMIT,
        ensures
            final(self)@ == (BodyView { x: v - old(self)@.half_w, ..old(self)@ }),
            final(self)@.right() == v,
    {
        self.x = v - self.half_width;
    }

    /// Moves the body vertically so that its top edge is at `v`.
    pub fn set_top(&mut self, v: i64)
        requires
            0 <= old(self)@.half_h <= COORD_LIMIT,
            -3 * COORD_LIMIT <= v <= 3 * COORD_LIMIT,
        ensures
            final(self)@ == (BodyView { y: v - old(self)@.half_h, ..old(self)@ }),
            final(self)@.top() == v,
    {
        self.y = v - self.half_height;
    }

    /// Moves the body vertically so that its bottom edge is at `v`.
    pub fn set_bottom(&mut self, v: i64)
        requires
            0 <= old(self)@.half_h <= COORD_LIMIT,
            -3 * COORD_LIMIT <= v <= 3 * COORD_LIMIT,
        ensures
            final(self)@ == (BodyView { y: v + old(self)@.half_h, ..old(self)@ }),
            final(self)@.bottom() == v,
    {
        self.y = v + self.half_height;
    }

    /// True if the horizontal extents of `self` and `other` overlap.
    pub fn overlapping_x(&self, other: &TwoDimObject) -> (r: bool)
        requires
            self@.wf(),
            other@.wf(),
        ensures
            r == overlap_x(self@, other@),
    {
        self.left() < other.right() && other.left() < self.right()
    }

    /// True if the vertical extents of `self` and `other` overlap.
    pub fn overlapping_y(&self, other: &TwoDimObject) -> (r: bool)
        requires
            self@.wf(),
            other@.wf(),
        ensures
            r == overlap_y(self@, other@),
    {
        self.bottom() < other.top() && other.bottom() < self.top()
    }

    /// Runtime check for well-formedness, for callers outside verified code.
    pub fn is_well_formed(&self) -> (r: bool)
        ensures
            r == self@.wf(),
    {
        0 <= self.half_width && self.half_width <= COORD_LIMIT
            && 0 <= self.half_height && self.half_height <= COORD_LIMIT
            && -COORD_LIMIT <= self.x && self.x <= COORD_LIMIT
            && -COORD_LIMIT <= self.y && self.y <= COORD_LIMIT
            && -COORD_LIMIT <= self.velocity_x && self.velocity_x <= COORD_LIMIT
            && -COORD_LIMIT <= self.velocity_y && self.velocity_y <= COORD_LIMIT
    }
}

/// Discrete movement state derived each tick from the player's resolved
/// velocity; it selects the sprite frame window.
#[derive(Clone, Copy, Debug, PartialEq, Eq, Structural)]
pub enum PlayerState {
    Idle,
    Walking,
    Running,
    Jumping,
}

/// Which way the player's sprite faces. It follows the sign of the
/// horizontal velocity and is sticky while that velocity is zero.
#[derive(Clone, Copy, Debug, PartialEq, Eq, Structural)]
pub enum Facing {
    Left,
    Right,
}

/// Mathematical model of the player: its body plus the animation state.
pub ghost struct PlayerView {
    pub body: BodyView,
    pub state: PlayerState,
    pub ticks: u64,
    pub facing: Facing,
    pub grounded: bool,
}

/// The single moving entity: a body plus the animation bookkeeping.
///
/// `state`, `ticks` and `facing` are written only by the animation stage;
/// `two_dim` is written by control (velocity) and physics (position and
/// vertical velocity); `grounded` is written by physics.
#[derive(Clone, Copy, Debug)]
pub struct Player {
    /// The player's collision body.
    pub two_dim: TwoDimObject,
    /// Current animation state.
    pub state: PlayerState,
    /// Ticks spent since the last animation state change (wraps on overflow).
    pub ticks: u64,
    /// Current facing direction.
    pub facing: Facing,
    /// Whether the last physics step found the player standing on an
    /// obstacle.
    pub grounded: bool,
}

impl View for Player {
    type V = PlayerView;

    open spec fn view(&self) -> PlayerView {
        PlayerView {
            body: self.two_dim@,
            state: self.state,
            ticks: self.ticks,
            facing: self.facing,
            grounded: self.grounded,
        }
    }
}

impl Player {
    /// A player wrapped around the given body: idle, facing right, airborne,
    /// at tick zero.
    pub fn new(two_dim: TwoDimObject) -> (p: Player)
        ensures
            p@ == (PlayerView {
                body: two_dim@,
                state: PlayerState::Idle,
                ticks: 0,
                facing: Facing::Right,
                grounded: false,
            }),
    {
        Player {
            two_dim,
            state: PlayerState::Idle,
            ticks: 0,
            facing: Facing::Right,
            grounded: false,
        }
    }
}

} // verus!
