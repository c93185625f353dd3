//! What holds of every state of the animation.
use vstd::prelude::*;
use crate::frame::{
    advance, turn, Direction, FrameView, DEPTH_STEP, DEPTH_WRAP, HORIZON_LIMIT,
    HORIZON_STEP, POSITION_LIMIT, POSITION_STEP,
};

verus! {

impl FrameView {
    /// The state `ticks` ticks later.
    pub open spec fn after(self, ticks: nat) -> FrameView
        decreases ticks,
    {
        if ticks == 0 {
            self
        } else {
            self.next().after((ticks - 1) as nat)
        }
    }

    /// Both positions are whole numbers of steps from zero and lie between
    /// zero and their bounds, and the depth is a whole number of steps, at
    /// least zero and below `DEPTH_WRAP`.
    pub open spec fn on_track(self) -> bool {
        &&& 0 <= self.pos_x <= POSITION_LIMIT
        &&& self.pos_x % (POSITION_STEP as int) == 0
        &&& 0 <= self.horizon <= HORIZON_LIMIT
        &&& self.horizon % (HORIZON_STEP as int) == 0
        &&& 0 <= self.pos_z < DEPTH_WRAP
        &&& self.pos_z % (DEPTH_STEP as int) == 0
    }

    /// Neither position is more than one step outside its bounds, and the
    /// depth is at least zero and below `DEPTH_WRAP`.
    pub open spec fn within_a_step(self) -> bool {
        &&& -POSITION_STEP <= self.pos_x <= POSITION_LIMIT + POSITION_STEP
        &&& -HORIZON_STEP <= self.horizon <= HORIZON_LIMIT + HORIZON_STEP
        &&& 0 <= self.pos_z < DEPTH_WRAP
    }
}

/// A position changes its direction only at or beyond a bound, and there it
/// always heads back inside.
pub proof fn lemma_turns_at_bounds(position: int, heading: Direction, limit: int)
    ensures
        turn(position, heading, limit) != heading ==> position <= 0 || position >= limit,
        position <= 0 ==> turn(position, heading, limit) == Direction::Forward,
        0 < position && limit <= position ==> turn(position, heading, limit)
            == Direction::Backward,
        0 < position < limit ==> turn(position, heading, limit) == heading,
{
}

/// A position that is within one step of its bounds is so after a tick.
pub proof fn lemma_swing_within_a_step(position: int, heading: Direction, step: int, limit: int)
    requires
        0 <= step,
        0 <= limit,
        -step <= position <= limit + step,
    ensures
        -step <= advance(position, turn(position, heading, limit), step) <= limit + step,
{
}

/// A position between its bounds that is a whole number of steps from both
/// of them is so after a tick: it never leaves the bounds.
pub proof fn lemma_swing_within_bounds(position: int, heading: Direction, step: int, limit: int)
    requires
        0 < step,
        0 < limit,
        limit % step == 0,
        0 <= position <= limit,
        position % step == 0,
    ensures
        0 <= advance(position, turn(position, heading, limit), step) <= limit,
        advance(position, turn(position, heading, limit), step) % step == 0,
{
    assert(limit >= step && (0 < position ==> position >= step) && (position < limit ==> position
        <= limit - step) && (position + step) % step == 0 && (position - step) % step == 0)
        by (nonlinear_arith)
        requires
            0 < step,
            0 < limit,
            limit % step == 0,
            0 <= position <= limit,
            position % step == 0,
    ;
}

/// A position between its bounds leaves them in a tick only from strictly
/// inside them, and less than one step from the bound that it heads for.
pub proof fn lemma_swing_leaves_near_a_bound(
    position: int,
    heading: Direction,
    step: int,
    limit: int,
)
    requires
        0 <= step <= limit,
        0 <= position <= limit,
    ensures
        ({
            let moved = advance(position, turn(position, heading, limit), step);
            &&& moved > limit ==> heading == Direction::Forward && 0 < position < limit && limit
                - step < position
            &&& moved < 0 ==> heading == Direction::Backward && 0 < position < limit && position
                < step
        }),
{
}

/// From a depth that is not negative, a tick leads to a depth that is at
/// least zero and below `DEPTH_WRAP`.
pub proof fn lemma_depth_bounded(state: FrameView)
    requires
        0 <= state.pos_z,
    ensures
        0 <= state.next().pos_z < DEPTH_WRAP,
        state.next().pos_z == (state.pos_z + DEPTH_STEP) % (DEPTH_WRAP as int),
{
}

/// A depth below `DEPTH_WRAP` grows by one step in a tick, and starts again
/// from zero where that step reaches or passes `DEPTH_WRAP`.
pub proof fn lemma_depth_wraps(state: FrameView)
    requires
        0 <= state.pos_z < DEPTH_WRAP,
    ensures
        state.pos_z + DEPTH_STEP < DEPTH_WRAP ==> state.next().pos_z == state.pos_z + DEPTH_STEP,
        state.pos_z + DEPTH_STEP >= DEPTH_WRAP ==> state.next().pos_z == state.pos_z + DEPTH_STEP
            - DEPTH_WRAP,
{
}

/// The animation starts within one step of its bounds where its horizon is
/// so, and on track where its horizon is.
pub proof fn lemma_initial_state(horizon: int)
    ensures
        -HORIZON_STEP <= horizon <= HORIZON_LIMIT + HORIZON_STEP ==> FrameView::initial(
            horizon,
        ).within_a_step(),
        0 <= horizon <= HORIZON_LIMIT && horizon % (HORIZON_STEP as int) == 0
            ==> FrameView::initial(horizon).on_track(),
{
}

/// A tick keeps a state within one step of its bounds.
pub proof fn lemma_next_within_a_step(state: FrameView)
    requires
        state.within_a_step(),
    ensures
        state.next().within_a_step(),
{
}

/// A tick keeps a state on track.
pub proof fn lemma_next_on_track(state: FrameView)
    requires
        state.on_track(),
    ensures
        state.next().on_track(),
{
    lemma_swing_within_bounds(
        state.pos_x,
        state.inc_x,
        POSITION_STEP as int,
        POSITION_LIMIT as int,
    );
    lemma_swing_within_bounds(
        state.horizon,
        state.inc_h,
        HORIZON_STEP as int,
        HORIZON_LIMIT as int,
    );
}

/// However long the animation runs, a state within one step of its bounds
/// stays so.
pub proof fn lemma_always_within_a_step(state: FrameView, ticks: nat)
    requires
        state.within_a_step(),
    ensures
        state.after(ticks).within_a_step(),
    decreases ticks,
{
    if ticks > 0 {
        lemma_next_within_a_step(state);
        lemma_always_within_a_step(state.next(), (ticks - 1) as nat);
    }
}

/// However long the animation runs, a state on track stays so: the
/// horizontal position stays between zero and `POSITION_LIMIT`, the horizon
/// between zero and `HORIZON_LIMIT`, and the depth at least zero and below
/// `DEPTH_WRAP`.
pub proof fn lemma_always_on_track(state: FrameView, ticks: nat)
    requires
        state.on_track(),
    ensures
        state.after(ticks).on_track(),
    decreases ticks,
{
    if ticks > 0 {
        lemma_next_on_track(state);
        lemma_always_on_track(state.next(), (ticks - 1) as nat);
    }
}

} // verus!
