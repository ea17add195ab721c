//! Guarantees of the simulation, stated over the per-tick transition
//! functions and proved once for every input they admit.

use vstd::prelude::*;

use crate::animation::{
    animation_sprite, animation_transition, frame_count, frame_start,
};
use crate::components::{overlap_x, overlap_y, BodyView, PlayerView};
use crate::control::control_transition;
use crate::entities::tick_transition;
use crate::physics::{
    blocks_down, blocks_left, blocks_right, blocks_up, fall_stop, left_stop,
    lemma_fall_stop_above_blockers, lemma_fall_stop_ge_cand, lemma_left_stop_above_blockers,
    lemma_left_stop_ge_cand, lemma_right_stop_below_blockers, lemma_right_stop_le_cand,
    lemma_rise_stop_below_blockers, lemma_rise_stop_le_cand, physics_step_spec, physics_y,
    resting_on, right_stop, rise_stop,
};
use crate::{DISPLAY_WIDTH, JUMP_VELOCITY, MAX_X_VELOCITY};

verus! {

/// A player that fits the playfield and starts with its horizontal edges
/// inside `[0, DISPLAY_WIDTH]` still has them inside after a physics tick,
/// whatever the obstacles: the resolved center stays within
/// `[half_w, DISPLAY_WIDTH - half_w]`.
pub proof fn lemma_horizontal_world_bounds(p: BodyView, os: Seq<BodyView>)
    requires
        0 <= p.half_w,
        0 <= p.left(),
        p.right() <= DISPLAY_WIDTH,
        p.width() <= DISPLAY_WIDTH,
    ensures
        0 <= physics_step_spec(p, os).0.left(),
        physics_step_spec(p, os).0.right() <= DISPLAY_WIDTH,
{
}

/// The same bound over a whole simulation tick: control only changes
/// velocity and animation only reads the body, so the resolved horizontal
/// position after any full tick stays within
/// `[half_w, DISPLAY_WIDTH - half_w]`.
pub proof fn lemma_tick_horizontal_world_bounds(
    p: PlayerView,
    os: Seq<BodyView>,
    axis: int,
    jump: bool,
)
    requires
        0 <= p.body.half_w,
        0 <= p.body.left(),
        p.body.right() <= DISPLAY_WIDTH,
        p.body.width() <= DISPLAY_WIDTH,
    ensures
        0 <= tick_transition(p, os, axis, jump).body.left(),
        tick_transition(p, os, axis, jump).body.right() <= DISPLAY_WIDTH,
{
    let c: PlayerView = control_transition(p, axis, jump, resting_on(p.body, os));
    lemma_horizontal_world_bounds(c.body, os);
}

/// Moving right, the player never reaches past the left edge of any
/// obstacle that its vertical extent overlaps and that lies at or beyond
/// its current right edge: no penetration of an obstacle's interior along
/// x.
pub proof fn lemma_no_penetration_right(p: BodyView, os: Seq<BodyView>, i: int)
    requires
        p.vx > 0,
        0 <= p.half_w,
        0 <= p.left(),
        0 <= i < os.len(),
        overlap_y(p, os[i]),
        p.right() <= os[i].left(),
    ensures
        physics_step_spec(p, os).0.right() <= os[i].left(),
{
    let cand: int = p.right() + p.vx;
    lemma_right_stop_le_cand(p, os, cand);
    lemma_right_stop_below_blockers(p, os, cand);
}

/// Moving left, the player never reaches past the right edge of any
/// obstacle that its vertical extent overlaps and that lies at or behind
/// its current left edge: no penetration of an obstacle's interior along x.
pub proof fn lemma_no_penetration_left(p: BodyView, os: Seq<BodyView>, i: int)
    requires
        p.vx < 0,
        0 <= p.half_w,
        p.right() <= DISPLAY_WIDTH,
        0 <= i < os.len(),
        overlap_y(p, os[i]),
        os[i].right() <= p.left(),
    ensures
        physics_step_spec(p, os).0.left() >= os[i].right(),
{
    let cand: int = p.left() + p.vx;
    lemma_left_stop_ge_cand(p, os, cand);
    lemma_left_stop_above_blockers(p, os, cand);
}

/// Rising, the player's top edge never reaches past the bottom edge of any
/// obstacle that its horizontal extent overlaps and that lies at or above
/// its current top edge.
pub proof fn lemma_no_penetration_up(p: BodyView, os: Seq<BodyView>, i: int)
    requires
        p.vy > 0,
        0 <= i < os.len(),
        overlap_x(p, os[i]),
        p.top() <= os[i].bottom(),
    ensures
        physics_y(p, os).0.top() <= os[i].bottom(),
{
    let cand: int = p.top() + p.vy;
    lemma_rise_stop_le_cand(p, os, cand);
    lemma_rise_stop_below_blockers(p, os, cand);
}

/// Falling, the player's bottom edge never reaches past the top edge of any
/// obstacle that its horizontal extent overlaps and that lies at or below
/// its current bottom edge.
pub proof fn lemma_no_penetration_down(p: BodyView, os: Seq<BodyView>, i: int)
    requires
        p.vy < 0,
        0 <= i < os.len(),
        overlap_x(p, os[i]),
        os[i].top() <= p.bottom(),
    ensures
        physics_y(p, os).0.bottom() >= os[i].top(),
{
    let cand: int = p.bottom() + p.vy;
    lemma_fall_stop_ge_cand(p, os, cand);
    lemma_fall_stop_above_blockers(p, os, cand);
}

/// A physics tick that leaves the player grounded leaves its vertical
/// velocity at exactly zero.
pub proof fn lemma_grounded_implies_stopped(p: BodyView, os: Seq<BodyView>)
    ensures
        physics_step_spec(p, os).1 ==> physics_step_spec(p, os).0.vy == 0,
{
}

/// The same guarantee over a whole simulation tick: a tick that ends
/// grounded ends with vertical velocity exactly zero.
pub proof fn lemma_tick_grounded_implies_stopped(
    p: PlayerView,
    os: Seq<BodyView>,
    axis: int,
    jump: bool,
)
    ensures
        tick_transition(p, os, axis, jump).grounded ==> tick_transition(
            p,
            os,
            axis,
            jump,
        ).body.vy == 0,
{
}

/// A physics tick at zero velocity moves nothing: position and size are
/// unchanged, the horizontal velocity stays zero, and the grounded flag is
/// exactly the standing-on-an-obstacle test at the unchanged position.
pub proof fn lemma_zero_velocity_keeps_position(p: BodyView, os: Seq<BodyView>)
    requires
        p.vx == 0,
        p.vy == 0,
    ensures
        physics_step_spec(p, os).0.x == p.x,
        physics_step_spec(p, os).0.y == p.y,
        physics_step_spec(p, os).0.half_w == p.half_w,
        physics_step_spec(p, os).0.half_h == p.half_h,
        physics_step_spec(p, os).0.vx == 0,
        physics_step_spec(p, os).1 == resting_on(p, os),
{
}

/// A grounded player at rest is a fixed point of the physics tick: the
/// body comes back identical and the player stays grounded, so stepping
/// physics any number of times changes nothing.
pub proof fn lemma_rest_is_fixpoint(p: BodyView, os: Seq<BodyView>)
    requires
        p.vx == 0,
        p.vy == 0,
        resting_on(p, os),
    ensures
        physics_step_spec(p, os).0 == p,
        physics_step_spec(p, os).1,
{
}

/// After any full simulation tick the player's horizontal speed is at most
/// [`MAX_X_VELOCITY`]: control clamps it and no later stage changes it.
pub proof fn lemma_speed_limit(p: PlayerView, os: Seq<BodyView>, axis: int, jump: bool)
    ensures
        -MAX_X_VELOCITY <= tick_transition(p, os, axis, jump).body.vx <= MAX_X_VELOCITY,
{
}

/// The jump gate: a jump press while grounded sets the vertical velocity to
/// exactly [`JUMP_VELOCITY`]; a jump press while airborne, or no press,
/// leaves it untouched.
pub proof fn lemma_jump_gating(p: PlayerView, axis: int, jump: bool, grounded: bool)
    ensures
        jump && grounded ==> control_transition(p, axis, jump, grounded).body.vy
            == JUMP_VELOCITY,
        !(jump && grounded) ==> control_transition(p, axis, jump, grounded).body.vy == p.body.vy,
{
}

/// The frame emitted by an animation tick is a function of the player's
/// resolved state alone: equal states yield equal sprites and equal
/// successor states, so a replayed velocity sequence reproduces the same
/// sprite sequence in any run.
pub proof fn lemma_animation_deterministic(p: PlayerView, q: PlayerView)
    requires
        p == q,
    ensures
        animation_transition(p) == animation_transition(q),
        animation_sprite(p) == animation_sprite(q),
{
}

/// The emitted sprite index always lies inside the frame window of the
/// state the animation tick settles on.
pub proof fn lemma_sprite_in_window(p: PlayerView)
    ensures
        frame_start(animation_transition(p).state) <= animation_sprite(p) < frame_start(
            animation_transition(p).state,
        ) + frame_count(animation_transition(p).state),
{
}

/// The stop of a rightward step is the candidate itself or the left edge of
/// some blocking obstacle. Together with the bound lemmas proved beside the
/// folds, this pins the stop as the nearest blocking edge, whatever order
/// the obstacles are stored in.
pub proof fn lemma_right_stop_is_cand_or_blocker(p: BodyView, os: Seq<BodyView>, cand: int)
    ensures
        right_stop(p, os, cand) == cand || exists|i: int|
            0 <= i < os.len() && blocks_right(p, os[i], cand) && right_stop(p, os, cand)
                == os[i].left(),
    decreases os.len(),
{
    if os.len() > 0 {
        lemma_right_stop_is_cand_or_blocker(p, os.drop_last(), cand);
        let r: int = right_stop(p, os, cand);
        let prev: int = right_stop(p, os.drop_last(), cand);
        let o: BodyView = os.last();
        if blocks_right(p, o, cand) && o.left() < prev {
            assert(blocks_right(p, os[os.len() - 1], cand) && r == os[os.len() - 1].left());
        } else if prev != cand {
            let i: int = choose|i: int|
                0 <= i < os.drop_last().len() && blocks_right(p, os.drop_last()[i], cand) && prev
                    == os.drop_last()[i].left();
            assert(os.drop_last()[i] == os[i]);
        }
    }
}

/// The stop of a leftward step is the candidate itself or the right edge of
/// some blocking obstacle.
pub proof fn lemma_left_stop_is_cand_or_blocker(p: BodyView, os: Seq<BodyView>, cand: int)
    ensures
        left_stop(p, os, cand) == cand || exists|i: int|
            0 <= i < os.len() && blocks_left(p, os[i], cand) && left_stop(p, os, cand)
                == os[i].right(),
    decreases os.len(),
{
    if os.len() > 0 {
        lemma_left_stop_is_cand_or_blocker(p, os.drop_last(), cand);
        let r: int = left_stop(p, os, cand);
        let prev: int = left_stop(p, os.drop_last(), cand);
        let o: BodyView = os.last();
        if blocks_left(p, o, cand) && o.right() > prev {
            assert(blocks_left(p, os[os.len() - 1], cand) && r == os[os.len() - 1].right());
        } else if prev != cand {
            let i: int = choose|i: int|
                0 <= i < os.drop_last().len() && blocks_left(p, os.drop_last()[i], cand) && prev
                    == os.drop_last()[i].right();
            assert(os.drop_last()[i] == os[i]);
        }
    }
}

/// The stop of a rising step is the candidate itself or the bottom edge of
/// some blocking obstacle.
pub proof fn lemma_rise_stop_is_cand_or_blocker(p: BodyView, os: Seq<BodyView>, cand: int)
    ensures
        rise_stop(p, os, cand) == cand || exists|i: int|
            0 <= i < os.len() && blocks_up(p, os[i], cand) && rise_stop(p, os, cand)
                == os[i].bottom(),
    decreases os.len(),
{
    if os.len() > 0 {
        lemma_rise_stop_is_cand_or_blocker(p, os.drop_last(), cand);
        let r: int = rise_stop(p, os, cand);
        let prev: int = rise_stop(p, os.drop_last(), cand);
        let o: BodyView = os.last();
        if blocks_up(p, o, cand) && o.bottom() < prev {
            assert(blocks_up(p, os[os.len() - 1], cand) && r == os[os.len() - 1].bottom());
        } else if prev != cand {
            let i: int = choose|i: int|
                0 <= i < os.drop_last().len() && blocks_up(p, os.drop_last()[i], cand) && prev
                    == os.drop_last()[i].bottom();
            assert(os.drop_last()[i] == os[i]);
        }
    }
}

/// The stop of a falling step is the candidate itself or the top edge of
/// some blocking obstacle.
pub proof fn lemma_fall_stop_is_cand_or_blocker(p: BodyView, os: Seq<BodyView>, cand: int)
    ensures
        fall_stop(p, os, cand) == cand || exists|i: int|
            0 <= i < os.len() && blocks_down(p, os[i], cand) && fall_stop(p, os, cand)
                == os[i].top(),
    decreases os.len(),
{
    if os.len() > 0 {
        lemma_fall_stop_is_cand_or_blocker(p, os.drop_last(), cand);
        let r: int = fall_stop(p, os, cand);
        let prev: int = fall_stop(p, os.drop_last(), cand);
        let o: BodyView = os.last();
        if blocks_down(p, o, cand) && o.top() > prev {
            assert(blocks_down(p, os[os.len() - 1], cand) && r == os[os.len() - 1].top());
        } else if prev != cand {
            let i: int = choose|i: int|
                0 <= i < os.drop_last().len() && blocks_down(p, os.drop_last()[i], cand) && prev
                    == os.drop_last()[i].top();
            assert(os.drop_last()[i] == os[i]);
        }
    }
}

} // verus!
