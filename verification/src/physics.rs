//! The physics stage: integrates the player's position from its velocity,
//! resolves collisions against every obstacle one axis at a time (x first,
//! then y), detects ground contact, and applies gravity for the next tick.
//!
//! Collision uses a boundary-crossing test: along the direction of travel, a
//! collision is detected when the body's leading edge was on one side of an
//! obstacle's facing edge before the step and would reach or pass it after
//! the unclamped step. Among all obstacles that qualify, the nearest edge
//! wins, independently of the order in which obstacles are stored.

use vstd::prelude::*;

use crate::components::{overlap_x, overlap_y, BodyView, Player, TwoDimObject};
use crate::{COORD_LIMIT, DISPLAY_WIDTH, GRAVITY};

verus! {

/// The models of a sequence of bodies.
pub open spec fn views_of(os: Seq<TwoDimObject>) -> Seq<BodyView> {
    os.map_values(|o: TwoDimObject| o@)
}

/// Every body in the sequence is well formed.
pub open spec fn all_wf(os: Seq<BodyView>) -> bool {
    forall|i: int| 0 <= i < os.len() ==> os[i].wf()
}

/// Obstacle `o` blocks a rightward step of `p` whose unclamped new right
/// edge would be `cand`: their vertical extents overlap, `o` lies at or
/// beyond the current right edge, and the candidate reaches or passes `o`'s
/// left edge.
pub open spec fn blocks_right(p: BodyView, o: BodyView, cand: int) -> bool {
    overlap_y(p, o) && p.right() <= o.left() && o.left() <= cand
}

/// Where the right edge of `p` stops against the obstacles: `cand`, or the
/// nearest (smallest) left edge among the obstacles that block the step.
pub open spec fn right_stop(p: BodyView, os: Seq<BodyView>, cand: int) -> int
    decreases os.len(),
{
    if os.len() == 0 {
        cand
    } else {
        let prev: int = right_stop(p, os.drop_last(), cand);
        let o: BodyView = os.last();
        if blocks_right(p, o, cand) && o.left() < prev {
            o.left()
        } else {
            prev
        }
    }
}

/// Obstacle `o` blocks a leftward step of `p` whose unclamped new left edge
/// would be `cand`.
pub open spec fn blocks_left(p: BodyView, o: BodyView, cand: int) -> bool {
    overlap_y(p, o) && o.right() <= p.left() && cand <= o.right()
}

/// Where the left edge of `p` stops against the obstacles: `cand`, or the
/// nearest (largest) right edge among the obstacles that block the step.
pub open spec fn left_stop(p: BodyView, os: Seq<BodyView>, cand: int) -> int
    decreases os.len(),
{
    if os.len() == 0 {
        cand
    } else {
        let prev: int = left_stop(p, os.drop_last(), cand);
        let o: BodyView = os.last();
        if blocks_left(p, o, cand) && o.right() > prev {
            o.right()
        } else {
            prev
        }
    }
}

/// Obstacle `o` blocks a rising step of `p` whose unclamped new top edge
/// would be `cand`.
pub open spec fn blocks_up(p: BodyView, o: BodyView, cand: int) -> bool {
    overlap_x(p, o) && p.top() <= o.bottom() && o.bottom() <= cand
}

/// Where the top edge of `p` stops against the obstacles: `cand`, or the
/// nearest (smallest) bottom edge among the obstacles that block the step.
pub open spec fn rise_stop(p: BodyView, os: Seq<BodyView>, cand: int) -> int
    decreases os.len(),
{
    if os.len() == 0 {
        cand
    } else {
        let prev: int = rise_stop(p, os.drop_last(), cand);
        let o: BodyView = os.last();
        if blocks_up(p, o, cand) && o.bottom() < prev {
            o.bottom()
        } else {
            prev
        }
    }
}

/// Some obstacle blocks the rising step (a ceiling bump, which zeroes the
/// vertical velocity).
pub open spec fn hits_ceiling(p: BodyView, os: Seq<BodyView>, cand: int) -> bool {
    exists|i: int| 0 <= i < os.len() && blocks_up(p, os[i], cand)
}

/// Obstacle `o` blocks a falling step of `p` whose unclamped new bottom
/// edge would be `cand`.
pub open spec fn blocks_down(p: BodyView, o: BodyView, cand: int) -> bool {
    overlap_x(p, o) && o.top() <= p.bottom() && cand <= o.top()
}

/// Where the bottom edge of `p` stops against the obstacles: `cand`, or the
/// nearest (largest) top edge among the obstacles that block the step.
pub open spec fn fall_stop(p: BodyView, os: Seq<BodyView>, cand: int) -> int
    decreases os.len(),
{
    if os.len() == 0 {
        cand
    } else {
        let prev: int = fall_stop(p, os.drop_last(), cand);
        let o: BodyView = os.last();
        if blocks_down(p, o, cand) && o.top() > prev {
            o.top()
        } else {
            prev
        }
    }
}

/// Some obstacle blocks the falling step (a landing, which zeroes the
/// vertical velocity and grounds the player).
pub open spec fn lands(p: BodyView, os: Seq<BodyView>, cand: int) -> bool {
    exists|i: int| 0 <= i < os.len() && blocks_down(p, os[i], cand)
}

/// The player stands on an obstacle: its bottom edge coincides with the top
/// edge of some obstacle whose horizontal extent it overlaps.
pub open spec fn resting_on(p: BodyView, os: Seq<BodyView>) -> bool {
    exists|i: int| 0 <= i < os.len() && overlap_x(p, os[i]) && p.bottom() == os[i].top()
}

/// Horizontal resolution. With `vx > 0`, the right edge moves to its
/// candidate or to the nearest blocking left edge, then is kept inside
/// `[width, DISPLAY_WIDTH]`; the rule for `vx < 0` is symmetric, keeping the
/// left edge inside `[0, DISPLAY_WIDTH - width]`. With `vx == 0` nothing
/// moves. Velocity is untouched.
pub open spec fn physics_x(p: BodyView, os: Seq<BodyView>) -> BodyView {
    if p.vx > 0 {
        let cand: int = p.right() + p.vx;
        let stop: int = right_stop(p, os, cand);
        let capped: int = if stop > DISPLAY_WIDTH {
            DISPLAY_WIDTH as int
        } else {
            stop
        };
        let new_right: int = if capped < p.width() {
            p.width()
        } else {
            capped
        };
        BodyView { x: new_right - p.half_w, ..p }
    } else if p.vx < 0 {
        let cand: int = p.left() + p.vx;
        let stop: int = left_stop(p, os, cand);
        let capped: int = if stop > DISPLAY_WIDTH - p.width() {
            DISPLAY_WIDTH - p.width()
        } else {
            stop
        };
        let new_left: int = if capped < 0 {
            0
        } else {
            capped
        };
        BodyView { x: new_left + p.half_w, ..p }
    } else {
        p
    }
}

/// Vertical resolution, performed after the horizontal one. Rising, the top
/// edge stops at its candidate or at the nearest blocking bottom edge, and a
/// bump zeroes the vertical velocity; the player is never grounded while
/// rising. Falling, the bottom edge stops at its candidate or at the nearest
/// blocking top edge, and a landing zeroes the vertical velocity and grounds
/// the player. At rest, nothing moves and the player is grounded exactly
/// when it stands on an obstacle.
pub open spec fn physics_y(p: BodyView, os: Seq<BodyView>) -> (BodyView, bool) {
    if p.vy > 0 {
        let cand: int = p.top() + p.vy;
        let stop: int = rise_stop(p, os, cand);
        let vy: int = if hits_ceiling(p, os, cand) {
            0
        } else {
            p.vy
        };
        (BodyView { y: stop - p.half_h, vy: vy, ..p }, false)
    } else if p.vy < 0 {
        let cand: int = p.bottom() + p.vy;
        let stop: int = fall_stop(p, os, cand);
        let grounded: bool = lands(p, os, cand);
        let vy: int = if grounded {
            0
        } else {
            p.vy
        };
        (BodyView { y: stop + p.half_h, vy: vy, ..p }, grounded)
    } else {
        (p, resting_on(p, os))
    }
}

/// Gravity, applied after vertical resolution for use on the next tick:
/// a grounded player keeps vertical velocity zero, an airborne one
/// accelerates downward by [`GRAVITY`] with no cap on the accumulated
/// magnitude.
pub open spec fn apply_gravity(p: BodyView, grounded: bool) -> BodyView {
    if grounded {
        BodyView { vy: 0, ..p }
    } else {
        BodyView { vy: p.vy - GRAVITY, ..p }
    }
}

/// What one physics tick does to the player's body, and whether it leaves
/// the player grounded.
pub open spec fn physics_step_spec(p: BodyView, os: Seq<BodyView>) -> (BodyView, bool) {
    let p1: BodyView = physics_x(p, os);
    let r: (BodyView, bool) = physics_y(p1, os);
    (apply_gravity(r.0, r.1), r.1)
}

/// The stop of a rightward step never passes the candidate.
pub proof fn lemma_right_stop_le_cand(p: BodyView, os: Seq<BodyView>, cand: int)
    ensures
        right_stop(p, os, cand) <= cand,
    decreases os.len(),
{
    if os.len() > 0 {
        lemma_right_stop_le_cand(p, os.drop_last(), cand);
    }
}

/// The stop of a rightward step never passes the left edge of any blocking
/// obstacle.
pub proof fn lemma_right_stop_below_blockers(p: BodyView, os: Seq<BodyView>, cand: int)
    ensures
        forall|i: int|
            0 <= i < os.len() && blocks_right(p, os[i], cand) ==> right_stop(p, os, cand)
                <= os[i].left(),
    decreases os.len(),
{
    if os.len() > 0 {
        lemma_right_stop_below_blockers(p, os.drop_last(), cand);
        assert forall|i: int|
            0 <= i < os.len() && blocks_right(p, os[i], cand) implies right_stop(p, os, cand)
            <= os[i].left() by {
            if i < os.len() - 1 {
                assert(os.drop_last()[i] == os[i]);
            }
        }
    }
}

/// A lower bound below the candidate and below every blocking left edge is a
/// lower bound on the stop of a rightward step.
pub proof fn lemma_right_stop_at_least(p: BodyView, os: Seq<BodyView>, cand: int, b: int)
    requires
        b <= cand,
        forall|i: int| 0 <= i < os.len() && blocks_right(p, os[i], cand) ==> b <= os[i].left(),
    ensures
        b <= right_stop(p, os, cand),
    decreases os.len(),
{
    if os.len() > 0 {
        assert forall|i: int|
            0 <= i < os.drop_last().len() && blocks_right(p, os.drop_last()[i], cand) implies b
            <= os.drop_last()[i].left() by {
            assert(os.drop_last()[i] == os[i]);
        }
        lemma_right_stop_at_least(p, os.drop_last(), cand, b);
    }
}

/// The stop of a leftward step never passes the candidate.
pub proof fn lemma_left_stop_ge_cand(p: BodyView, os: Seq<BodyView>, cand: int)
    ensures
        left_stop(p, os, cand) >= cand,
    decreases os.len(),
{
    if os.len() > 0 {
        lemma_left_stop_ge_cand(p, os.drop_last(), cand);
    }
}

/// The stop of a leftward step never passes the right edge of any blocking
/// obstacle.
pub proof fn lemma_left_stop_above_blockers(p: BodyView, os: Seq<BodyView>, cand: int)
    ensures
        forall|i: int|
            0 <= i < os.len() && blocks_left(p, os[i], cand) ==> left_stop(p, os, cand)
                >= os[i].right(),
    decreases os.len(),
{
    if os.len() > 0 {
        lemma_left_stop_above_blockers(p, os.drop_last(), cand);
        assert forall|i: int|
            0 <= i < os.len() && blocks_left(p, os[i], cand) implies left_stop(p, os, cand)
            >= os[i].right() by {
            if i < os.len() - 1 {
                assert(os.drop_last()[i] == os[i]);
            }
        }
    }
}

/// An upper bound above the candidate and above every blocking right edge is
/// an upper bound on the stop of a leftward step.
pub proof fn lemma_left_stop_at_most(p: BodyView, os: Seq<BodyView>, cand: int, b: int)
    requires
        cand <= b,
        forall|i: int| 0 <= i < os.len() && blocks_left(p, os[i], cand) ==> os[i].right() <= b,
    ensures
        left_stop(p, os, cand) <= b,
    decreases os.len(),
{
    if os.len() > 0 {
        assert forall|i: int|
            0 <= i < os.drop_last().len() && blocks_left(p, os.drop_last()[i], cand) implies os.drop_last()[i].right()
            <= b by {
            assert(os.drop_last()[i] == os[i]);
        }
        lemma_left_stop_at_most(p, os.drop_last(), cand, b);
    }
}

/// The stop of a rising step never passes the candidate.
pub proof fn lemma_rise_stop_le_cand(p: BodyView, os: Seq<BodyView>, cand: int)
    ensures
        rise_stop(p, os, cand) <= cand,
    decreases os.len(),
{
    if os.len() > 0 {
        lemma_rise_stop_le_cand(p, os.drop_last(), cand);
    }
}

/// The stop of a rising step never passes the bottom edge of any blocking
/// obstacle.
pub proof fn lemma_rise_stop_below_blockers(p: BodyView, os: Seq<BodyView>, cand: int)
    ensures
        forall|i: int|
            0 <= i < os.len() && blocks_up(p, os[i], cand) ==> rise_stop(p, os, cand)
                <= os[i].bottom(),
    decreases os.len(),
{
    if os.len() > 0 {
        lemma_rise_stop_below_blockers(p, os.drop_last(), cand);
        assert forall|i: int|
            0 <= i < os.len() && blocks_up(p, os[i], cand) implies rise_stop(p, os, cand)
            <= os[i].bottom() by {
            if i < os.len() - 1 {
                assert(os.drop_last()[i] == os[i]);
            }
        }
    }
}

/// A lower bound below the candidate and below every blocking bottom edge is
/// a lower bound on the stop of a rising step.
pub proof fn lemma_rise_stop_at_least(p: BodyView, os: Seq<BodyView>, cand: int, b: int)
    requires
        b <= cand,
        forall|i: int| 0 <= i < os.len() && blocks_up(p, os[i], cand) ==> b <= os[i].bottom(),
    ensures
        b <= rise_stop(p, os, cand),
    decreases os.len(),
{
    if os.len() > 0 {
        assert forall|i: int|
            0 <= i < os.drop_last().len() && blocks_up(p, os.drop_last()[i], cand) implies b
            <= os.drop_last()[i].bottom() by {
            assert(os.drop_last()[i] == os[i]);
        }
        lemma_rise_stop_at_least(p, os.drop_last(), cand, b);
    }
}

/// The stop of a falling step never passes the candidate.
pub proof fn lemma_fall_stop_ge_cand(p: BodyView, os: Seq<BodyView>, cand: int)
    ensures
        fall_stop(p, os, cand) >= cand,
    decreases os.len(),
{
    if os.len() > 0 {
        lemma_fall_stop_ge_cand(p, os.drop_last(), cand);
    }
}

/// The stop of a falling step never passes the top edge of any blocking
/// obstacle.
pub proof fn lemma_fall_stop_above_blockers(p: BodyView, os: Seq<BodyView>, cand: int)
    ensures
        forall|i: int|
            0 <= i < os.len() && blocks_down(p, os[i], cand) ==> fall_stop(p, os, cand)
                >= os[i].top(),
    decreases os.len(),
{
    if os.len() > 0 {
        lemma_fall_stop_above_blockers(p, os.drop_last(), cand);
        assert forall|i: int|
            0 <= i < os.len() && blocks_down(p, os[i], cand) implies fall_stop(p, os, cand)
            >= os[i].top() by {
            if i < os.len() - 1 {
                assert(os.drop_last()[i] == os[i]);
            }
        }
    }
}

/// An upper bound above the candidate and above every blocking top edge is
/// an upper bound on the stop of a falling step.
pub proof fn lemma_fall_stop_at_most(p: BodyView, os: Seq<BodyView>, cand: int, b: int)
    requires
        cand <= b,
        forall|i: int| 0 <= i < os.len() && blocks_down(p, os[i], cand) ==> os[i].top() <= b,
    ensures
        fall_stop(p, os, cand) <= b,
    decreases os.len(),
{
    if os.len() > 0 {
        assert forall|i: int|
            0 <= i < os.drop_last().len() && blocks_down(p, os.drop_last()[i], cand) implies os.drop_last()[i].top()
            <= b by {
            assert(os.drop_last()[i] == os[i]);
        }
        lemma_fall_stop_at_most(p, os.drop_last(), cand, b);
    }
}

/// The on-ground signal: whether `body` currently stands on one of the
/// obstacles. This is the canonical ground test, shared by the control
/// stage's jump gate and by the physics stage's at-rest containment check.
pub fn on_ground(body: &TwoDimObject, obstacles: &Vec<TwoDimObject>) -> (r: bool)
    requires
        body@.wf(),
        all_wf(views_of(obstacles@)),
    ensures
        r == resting_on(body@, views_of(obstacles@)),
{
    let ghost os: Seq<BodyView> = views_of(obstacles@);
    let pb: i64 = body.bottom();
    let mut found: bool = false;
    let mut idx: usize = 0;
    while idx < obstacles.len()
        invariant
            idx <= obstacles.len(),
            os == views_of(obstacles@),
            os.len() == obstacles@.len(),
            all_wf(os),
            body@.wf(),
            pb == body@.bottom(),
            found == exists|j: int|
                0 <= j < idx && overlap_x(body@, os[j]) && body@.bottom() == os[j].top(),
        decreases obstacles.len() - idx,
    {
        let o: TwoDimObject = obstacles[idx];
        proof {
            assert(obstacles@[idx as int]@ == os[idx as int]);
            assert(os[idx as int].wf());
        }
        if body.overlapping_x(&o) && pb == o.top() {
            found = true;
            proof {
                assert(overlap_x(body@, os[idx as int]) && body@.bottom() == os[idx as int].top());
            }
        }
        idx = idx + 1;
    }
    found
}

/// The physics stage of the tick pipeline.
pub struct PhysicsSystem;

impl PhysicsSystem {
    /// Runs one physics tick on the player against the fixed obstacle set:
    /// horizontal resolution, then vertical resolution and ground detection,
    /// then gravity. Only the body's position, its vertical velocity and the
    /// grounded flag change.
    pub fn run(player: &mut Player, obstacles: &Vec<TwoDimObject>)
        requires
            old(player).two_dim@.wf(),
            all_wf(views_of(obstacles@)),
        ensures
            final(player).two_dim@ == physics_step_spec(
                old(player).two_dim@,
                views_of(obstacles@),
            ).0,
            final(player)@.grounded == physics_step_spec(
                old(player).two_dim@,
                views_of(obstacles@),
            ).1,
            final(player)@.state == old(player)@.state,
            final(player)@.ticks == old(player)@.ticks,
            final(player)@.facing == old(player)@.facing,
            final(player)@.grounded ==> final(player).two_dim@.vy == 0,
    {
        let ghost os: Seq<BodyView> = views_of(obstacles@);
        let ghost p0: BodyView = player.two_dim@;

        if player.two_dim.velocity_x > 0 {
            // moving right: stop at the nearest blocking left edge
            let old_x: i64 = player.two_dim.right();
            let cand: i64 = old_x + player.two_dim.velocity_x;
            let mut possible_new_x: i64 = cand;
            let mut idx: usize = 0;
            while idx < obstacles.len()
                invariant
                    idx <= obstacles.len(),
                    os == views_of(obstacles@),
                    os.len() == obstacles@.len(),
                    all_wf(os),
                    p0.wf(),
                    p0 == player.two_dim@,
                    p0.vx > 0,
                    old_x == p0.right(),
                    cand == p0.right() + p0.vx,
                    -3 * COORD_LIMIT <= possible_new_x <= 3 * COORD_LIMIT,
                    possible_new_x == right_stop(p0, os.take(idx as int), cand as int),
                decreases obstacles.len() - idx,
            {
                let o: TwoDimObject = obstacles[idx];
                proof {
                    assert(obstacles@[idx as int]@ == os[idx as int]);
                    assert(os[idx as int].wf());
                }
                if player.two_dim.overlapping_y(&o) && old_x <= o.left() && o.left() <= cand {
                    let ol: i64 = o.left();
                    if ol < possible_new_x {
                        possible_new_x = ol;
                    }
                }
                proof {
                    assert(os.take(idx as int + 1).drop_last() =~= os.take(idx as int));
                    assert(os.take(idx as int + 1).last() == os[idx as int]);
                }
                idx = idx + 1;
            }
            proof {
                assert(os.take(os.len() as int) =~= os);
            }
            // keep the player inside the walls of the display
            let mut new_x: i64 = possible_new_x;
            if new_x > DISPLAY_WIDTH {
                new_x = DISPLAY_WIDTH;
            }
            let w: i64 = player.two_dim.width();
            if new_x < w {
                new_x = w;
            }
            player.two_dim.set_right(new_x);
        } else if player.two_dim.velocity_x < 0 {
            // moving left: stop at the nearest blocking right edge
            let old_x: i64 = player.two_dim.left();
            let cand: i64 = old_x + player.two_dim.velocity_x;
            let mut possible_new_x: i64 = cand;
            let mut idx: usize = 0;
            while idx < obstacles.len()
                invariant
                    idx <= obstacles.len(),
                    os == views_of(obstacles@),
                    os.len() == obstacles@.len(),
                    all_wf(os),
                    p0.wf(),
                    p0 == player.two_dim@,
                    p0.vx < 0,
                    old_x == p0.left(),
                    cand == p0.left() + p0.vx,
                    -3 * COORD_LIMIT <= possible_new_x <= 3 * COORD_LIMIT,
                    possible_new_x == left_stop(p0, os.take(idx as int), cand as int),
                decreases obstacles.len() - idx,
            {
                let o: TwoDimObject = obstacles[idx];
                proof {
                    assert(obstacles@[idx as int]@ == os[idx as int]);
                    assert(os[idx as int].wf());
                }
                if player.two_dim.overlapping_y(&o) && o.right() <= old_x && cand <= o.right() {
                    let or: i64 = o.right();
                    if or > possible_new_x {
                        possible_new_x = or;
                    }
                }
                proof {
                    assert(os.take(idx as int + 1).drop_last() =~= os.take(idx as int));
                    assert(os.take(idx as int + 1).last() == os[idx as int]);
                }
                idx = idx + 1;
            }
            proof {
                assert(os.take(os.len() as int) =~= os);
            }
            // keep the player inside the walls of the display
            let mut new_x: i64 = possible_new_x;
            let w: i64 = player.two_dim.width();
            if new_x > DISPLAY_WIDTH - w {
                new_x = DISPLAY_WIDTH - w;
            }
            if new_x < 0 {
                new_x = 0;
            }
            player.two_dim.set_left(new_x);
        }
        proof {
            assert(player.two_dim@ == physics_x(p0, os));
            assert(player.two_dim@.wf());
        }
        let ghost p1: BodyView = player.two_dim@;

        let player_on_ground: bool;
        if player.two_dim.velocity_y > 0 {
            // rising: stop at the nearest blocking bottom edge
            let old_y: i64 = player.two_dim.top();
            let cand: i64 = old_y + player.two_dim.velocity_y;
            let mut new_y: i64 = cand;
            let mut hit: bool = false;
            let mut idx: usize = 0;
            while idx < obstacles.len()
                invariant
                    idx <= obstacles.len(),
                    os == views_of(obstacles@),
                    os.len() == obstacles@.len(),
                    all_wf(os),
                    p1.wf(),
                    p1 == player.two_dim@,
                    p1.vy > 0,
                    old_y == p1.top(),
                    cand == p1.top() + p1.vy,
                    -3 * COORD_LIMIT <= new_y <= 3 * COORD_LIMIT,
                    new_y == rise_stop(p1, os.take(idx as int), cand as int),
                    hit == exists|j: int| 0 <= j < idx && blocks_up(p1, os[j], cand as int),
                decreases obstacles.len() - idx,
            {
                let o: TwoDimObject = obstacles[idx];
                proof {
                    assert(obstacles@[idx as int]@ == os[idx as int]);
                    assert(os[idx as int].wf());
                }
                if player.two_dim.overlapping_x(&o) && old_y <= o.bottom() && o.bottom() <= cand {
                    hit = true;
                    proof {
                        assert(blocks_up(p1, os[idx as int], cand as int));
                    }
                    let ob: i64 = o.bottom();
                    if ob < new_y {
                        new_y = ob;
                    }
                }
                proof {
                    assert(os.take(idx as int + 1).drop_last() =~= os.take(idx as int));
                    assert(os.take(idx as int + 1).last() == os[idx as int]);
                }
                idx = idx + 1;
            }
            proof {
                assert(os.take(os.len() as int) =~= os);
            }
            player.two_dim.set_top(new_y);
            if hit {
                player.two_dim.velocity_y = 0;
            }
            player_on_ground = false;
        } else if player.two_dim.velocity_y < 0 {
            // falling: stop at the nearest blocking top edge
            let old_y: i64 = player.two_dim.bottom();
            let cand: i64 = old_y + player.two_dim.velocity_y;
            let mut new_y: i64 = cand;
            let mut hit: bool = false;
            let mut idx: usize = 0;
            while idx < obstacles.len()
                invariant
                    idx <= obstacles.len(),
                    os == views_of(obstacles@),
                    os.len() == obstacles@.len(),
                    all_wf(os),
                    p1.wf(),
                    p1 == player.two_dim@,
                    p1.vy < 0,
                    old_y == p1.bottom(),
                    cand == p1.bottom() + p1.vy,
                    -3 * COORD_LIMIT <= new_y <= 3 * COORD_LIMIT,
                    new_y == fall_stop(p1, os.take(idx as int), cand as int),
                    hit == exists|j: int| 0 <= j < idx && blocks_down(p1, os[j], cand as int),
                decreases obstacles.len() - idx,
            {
                let o: TwoDimObject = obstacles[idx];
                proof {
                    assert(obstacles@[idx as int]@ == os[idx as int]);
                    assert(os[idx as int].wf());
                }
                if player.two_dim.overlapping_x(&o) && o.top() <= old_y && cand <= o.top() {
                    hit = true;
                    proof {
                        assert(blocks_down(p1, os[idx as int], cand as int));
                    }
                    let ot: i64 = o.top();
                    if ot > new_y {
                        new_y = ot;
                    }
                }
                proof {
                    assert(os.take(idx as int + 1).drop_last() =~= os.take(idx as int));
                    assert(os.take(idx as int + 1).last() == os[idx as int]);
                }
                idx = idx + 1;
            }
            proof {
                assert(os.take(os.len() as int) =~= os);
            }
            player.two_dim.set_bottom(new_y);
            if hit {
                player.two_dim.velocity_y = 0;
            }
            player_on_ground = hit;
        } else {
            // at rest vertically: pure containment check
            player_on_ground = on_ground(&player.two_dim, obstacles);
        }
        proof {
            assert(player.two_dim@ == physics_y(p1, os).0);
            assert(player_on_ground == physics_y(p1, os).1);
        }

        // gravity, for use on the next tick
        if player_on_ground {
            player.two_dim.velocity_y = 0;
        } else {
            player.two_dim.velocity_y = player.two_dim.velocity_y - GRAVITY;
        }
        player.grounded = player_on_ground;
    }
}

} // verus!
