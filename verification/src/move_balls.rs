//! The per-frame system that advances ball positions and manages the
//! Waiting-to-Moving transition.
//!
//! A waiting ball counts its `waiting_time` down by the elapsed time,
//! floored at zero; the update that finds the countdown already at zero
//! flips the ball to `Moving` and stops the attached tint oscillator. A
//! moving ball translates by exactly `velocity * elapsed_time` on each
//! axis, applied as a relative offset.

use vstd::prelude::*;

use crate::pong::{stopped, ticked, Ball, BallState, CyclingColor, Transform};

verus! {

/// The ball after one update with `dt` milliseconds elapsed. Waiting with
/// the countdown already at zero flips to `Moving`; waiting otherwise
/// ticks the countdown down; a moving ball's own fields do not change
/// (its position does, see `transform_step`).
pub open spec fn ball_step(b: Ball, dt: u64) -> Ball {
    match b.state {
        BallState::Waiting => {
            if b.waiting_time == 0 {
                Ball { state: BallState::Moving, ..b }
            } else {
                Ball { waiting_time: ticked(b.waiting_time, dt), ..b }
            }
        },
        BallState::Moving => b,
    }
}

/// The attached oscillator after the same update: stopped on the frame
/// the ball starts to move, untouched otherwise.
pub open spec fn cycling_after_move(b: Ball, c: CyclingColor) -> CyclingColor {
    if b.state == BallState::Waiting && b.waiting_time == 0 {
        stopped(c)
    } else {
        c
    }
}

/// One frame's displacement keeps both coordinates within the 64-bit
/// fixed-point range (positions are in millionths of a unit).
pub open spec fn displacement_in_range(b: Ball, tr: Transform, dt: u64) -> bool {
    b.state == BallState::Moving ==> {
        &&& i64::MIN <= tr.x + b.velocity.x * dt <= i64::MAX
        &&& i64::MIN <= tr.y + b.velocity.y * dt <= i64::MAX
    }
}

/// The position after one update: displaced by exactly `velocity * dt`
/// per axis while moving, untouched while waiting.
pub open spec fn transform_step(tr: Transform, b: Ball, dt: u64) -> Transform
    recommends
        displacement_in_range(b, tr, dt),
{
    if b.state == BallState::Moving {
        Transform {
            x: (tr.x + b.velocity.x * dt) as i64,
            y: (tr.y + b.velocity.y * dt) as i64,
        }
    } else {
        tr
    }
}

/// Advances every ball once per frame.
pub struct MoveBallsSystem;

/// One ball's update for one frame: advance the lifecycle, translate the
/// position while moving, and stop the oscillator on the frame the ball
/// starts to move.
pub fn move_ball(ball: &mut Ball, local: &mut Transform, cycling: &mut CyclingColor, dt: u64)
    requires
        displacement_in_range(*old(ball), *old(local), dt),
    ensures
        *final(ball) == ball_step(*old(ball), dt),
        *final(local) == transform_step(*old(local), *old(ball), dt),
        *final(cycling) == cycling_after_move(*old(ball), *old(cycling)),
        old(ball).state == BallState::Moving ==> final(local).x == old(local).x + old(
            ball,
        ).velocity.x * dt && final(local).y == old(local).y + old(ball).velocity.y * dt,
{
    match ball.state {
        BallState::Waiting => {
            if ball.waiting_time == 0 {
                ball.state = BallState::Moving;
                cycling.stop();
            } else {
                ball.waiting_time = if dt >= ball.waiting_time {
                    0
                } else {
                    ball.waiting_time - dt
                };
            }
        },
        BallState::Moving => {
            let dx: i128 = (ball.velocity.x as i128) * (dt as i128);
            let nx: i128 = (local.x as i128) + dx;
            local.x = nx as i64;
            let dy: i128 = (ball.velocity.y as i128) * (dt as i128);
            let ny: i128 = (local.y as i128) + dy;
            local.y = ny as i64;
        },
    }
}

impl MoveBallsSystem {
    /// One frame of the system: update every (ball, position, oscillator)
    /// triple, in place and independently.
    pub fn run(
        &self,
        balls: &mut Vec<Ball>,
        locals: &mut Vec<Transform>,
        cyclings: &mut Vec<CyclingColor>,
        dt: u64,
    )
        requires
            old(balls).len() == old(locals).len(),
            old(balls).len() == old(cyclings).len(),
            forall|j: int|
                0 <= j < old(balls).len() ==> displacement_in_range(
                    #[trigger] old(balls)@[j],
                    old(locals)@[j],
                    dt,
                ),
        ensures
            final(balls).len() == old(balls).len(),
            final(locals).len() == old(locals).len(),
            final(cyclings).len() == old(cyclings).len(),
            forall|j: int|
                0 <= j < old(balls).len() ==> final(balls)@[j] == ball_step(
                    #[trigger] old(balls)@[j],
                    dt,
                ),
            forall|j: int|
                0 <= j < old(locals).len() ==> final(locals)@[j] == transform_step(
                    #[trigger] old(locals)@[j],
                    old(balls)@[j],
                    dt,
                ),
            forall|j: int|
                0 <= j < old(cyclings).len() ==> final(cyclings)@[j] == cycling_after_move(
                    old(balls)@[j],
                    #[trigger] old(cyclings)@[j],
                ),
    {
        let n = balls.len();
        let mut i: usize = 0;
        while i < n
            invariant
                i <= n,
                n == old(balls).len(),
                balls.len() == n,
                locals.len() == n,
                cyclings.len() == n,
                old(balls).len() == old(locals).len(),
                old(balls).len() == old(cyclings).len(),
                forall|j: int|
                    0 <= j < n ==> displacement_in_range(
                        #[trigger] old(balls)@[j],
                        old(locals)@[j],
                        dt,
                    ),
                forall|j: int| 0 <= j < i ==> balls@[j] == ball_step(#[trigger] old(balls)@[j], dt),
                forall|j: int|
                    0 <= j < i ==> locals@[j] == transform_step(
                        #[trigger] old(locals)@[j],
                        old(balls)@[j],
                        dt,
                    ),
                forall|j: int|
                    0 <= j < i ==> cyclings@[j] == cycling_after_move(
                        old(balls)@[j],
                        #[trigger] old(cyclings)@[j],
                    ),
                forall|j: int| i <= j < n ==> #[trigger] balls@[j] == old(balls)@[j],
                forall|j: int| i <= j < n ==> #[trigger] locals@[j] == old(locals)@[j],
                forall|j: int| i <= j < n ==> #[trigger] cyclings@[j] == old(cyclings)@[j],
            decreases n - i,
        {
            let mut ball = balls[i];
            let mut local = locals[i];
            let mut cycling = cyclings[i];
            move_ball(&mut ball, &mut local, &mut cycling, dt);
            balls[i] = ball;
            locals[i] = local;
            cyclings[i] = cycling;
            i = i + 1;
        }
    }
}

/// For any elapsed time, a waiting ball's countdown never increases and,
/// being unsigned, never goes below zero.
pub proof fn lemma_waiting_time_nonincreasing(b: Ball, dt: u64)
    requires
        b.state == BallState::Waiting,
    ensures
        ball_step(b, dt).waiting_time <= b.waiting_time,
        ball_step(b, dt).waiting_time >= 0,
{
}

/// A ball whose countdown stands at exactly zero transitions to `Moving`
/// on the next update, and the same call stops the attached oscillator.
pub proof fn lemma_expired_wait_starts_motion(b: Ball, c: CyclingColor, dt: u64)
    requires
        b.state == BallState::Waiting,
        b.waiting_time == 0,
    ensures
        ball_step(b, dt).state == BallState::Moving,
        cycling_after_move(b, c) == stopped(c),
{
}

/// An update long enough to exhaust the countdown leaves it at exactly
/// zero, still waiting; the update after that starts the motion.
pub proof fn lemma_wait_runs_out_then_moves(b: Ball, dt1: u64, dt2: u64)
    requires
        b.state == BallState::Waiting,
        b.waiting_time > 0,
        dt1 >= b.waiting_time,
    ensures
        ball_step(b, dt1).state == BallState::Waiting,
        ball_step(b, dt1).waiting_time == 0,
        ball_step(ball_step(b, dt1), dt2).state == BallState::Moving,
{
}

/// An update with zero elapsed time changes nothing, except on the one
/// frame that finds the countdown already expired, which transitions the
/// ball regardless of the elapsed time.
pub proof fn lemma_zero_delta_is_no_op(b: Ball, tr: Transform, c: CyclingColor)
    requires
        !(b.state == BallState::Waiting && b.waiting_time == 0),
    ensures
        ball_step(b, 0) == b,
        transform_step(tr, b, 0) == tr,
        cycling_after_move(b, c) == c,
{
}

/// A ball that is not moving does not translate, whatever time elapses.
pub proof fn lemma_waiting_ball_does_not_translate(tr: Transform, b: Ball, dt: u64)
    requires
        b.state == BallState::Waiting,
    ensures
        transform_step(tr, b, dt) == tr,
{
}

/// One frame of a moving ball displaces each coordinate by exactly
/// `velocity * dt`: the relative offset form of the update.
pub proof fn lemma_moving_step_displacement(tr: Transform, b: Ball, dt: u64)
    requires
        b.state == BallState::Moving,
        displacement_in_range(b, tr, dt),
    ensures
        transform_step(tr, b, dt).x == tr.x + b.velocity.x * dt,
        transform_step(tr, b, dt).y == tr.y + b.velocity.y * dt,
{
}

/// The position after `n` frames of `dt` milliseconds each, every frame
/// applying one motion update.
pub open spec fn transform_after_frames(tr: Transform, b: Ball, dt: u64, n: nat) -> Transform
    decreases n,
{
    if n == 0 {
        tr
    } else {
        transform_step(transform_after_frames(tr, b, dt, (n - 1) as nat), b, dt)
    }
}

/// Motion is linear and drift-free: over `n` equal frames a moving ball
/// is displaced by exactly `velocity * n * dt` per axis, the same as one
/// frame `n` times as long, provided every intermediate position stays
/// within the 64-bit fixed-point range.
pub proof fn lemma_motion_linear(tr: Transform, b: Ball, dt: u64, n: nat)
    requires
        b.state == BallState::Moving,
        forall|k: nat|
            k < n ==> displacement_in_range(
                b,
                #[trigger] transform_after_frames(tr, b, dt, k),
                dt,
            ),
    ensures
        transform_after_frames(tr, b, dt, n).x == tr.x + b.velocity.x * n * dt,
        transform_after_frames(tr, b, dt, n).y == tr.y + b.velocity.y * n * dt,
    decreases n,
{
    if n == 0 {
        assert(b.velocity.x * (0 as int) * dt == 0) by (nonlinear_arith);
        assert(b.velocity.y * (0 as int) * dt == 0) by (nonlinear_arith);
    } else {
        let m = (n - 1) as nat;
        lemma_motion_linear(tr, b, dt, m);
        let prev = transform_after_frames(tr, b, dt, m);
        assert(displacement_in_range(b, prev, dt));
        lemma_moving_step_displacement(prev, b, dt);
        assert(b.velocity.x * (n as int) * dt == b.velocity.x * (m as int) * dt + b.velocity.x
            * dt) by (nonlinear_arith)
            requires
                n == m + 1,
        ;
        assert(b.velocity.y * (n as int) * dt == b.velocity.y * (m as int) * dt + b.velocity.y
            * dt) by (nonlinear_arith)
            requires
                n == m + 1,
        ;
    }
}

} // verus!
