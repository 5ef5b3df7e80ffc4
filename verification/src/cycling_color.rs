//! The per-frame system that advances the color-cycling tint oscillator.
//!
//! Stopped oscillators pin the tint to their `from` color. Running ones
//! count `current_cycle` down by the elapsed time, floored at zero; on the
//! frame the floor is hit the endpoints swap and the countdown resets to
//! the half-period (the tint is left as it was on that frame), otherwise
//! the tint is the linear interpolation of the endpoints at
//! `t = current_cycle / cycle_time`, which runs from `to` (at a fresh
//! half-cycle, `t = 1`) toward `from` (as `t` falls to zero).

use vstd::arithmetic::div_mod::{lemma_div_is_ordered, lemma_div_multiples_vanish};
use vstd::arithmetic::mul::lemma_mul_inequality;
use vstd::prelude::*;

use crate::pong::{
    color_wf, cycling_wf, started, ticked, white_color, Color, CyclingColor, CyclingState,
    COLOR_SCALE, MAX_CYCLE_TIME,
};

verus! {

/// One channel of `from + (to - from) * t` at `t = cc / ct`, evaluated
/// exactly in fixed point with the offset rounded toward `from`.
pub open spec fn lerp_channel(from: u32, to: u32, cc: u64, ct: u64) -> u32
    recommends
        0 < cc <= ct,
{
    if to >= from {
        (from + ((to - from) * (cc as int)) / (ct as int)) as u32
    } else {
        (from - ((from - to) * (cc as int)) / (ct as int)) as u32
    }
}

/// All four channels interpolated at `t = cc / ct`.
pub open spec fn lerp_color(from: Color, to: Color, cc: u64, ct: u64) -> Color {
    Color {
        red: lerp_channel(from.red, to.red, cc, ct),
        green: lerp_channel(from.green, to.green, cc, ct),
        blue: lerp_channel(from.blue, to.blue, cc, ct),
        alpha: lerp_channel(from.alpha, to.alpha, cc, ct),
    }
}

/// The oscillator after one update with `dt` milliseconds elapsed:
/// unchanged when stopped; otherwise the countdown ticks down, and on
/// hitting zero the endpoints swap and the countdown resets to the
/// half-period.
pub open spec fn cycle_step(c: CyclingColor, dt: u64) -> CyclingColor {
    match c.state {
        CyclingState::Stopped => c,
        CyclingState::Cycling => {
            let t = ticked(c.current_cycle, dt);
            if t == 0 {
                CyclingColor { from: c.to, to: c.from, current_cycle: c.cycle_time, ..c }
            } else {
                CyclingColor { current_cycle: t, ..c }
            }
        },
    }
}

/// The tint written by one update: `from` when stopped; on a swap frame
/// the tint is left as it was; otherwise the interpolation at the ticked
/// countdown.
pub open spec fn tint_step(tint: Color, c: CyclingColor, dt: u64) -> Color {
    match c.state {
        CyclingState::Stopped => c.from,
        CyclingState::Cycling => {
            let t = ticked(c.current_cycle, dt);
            if t == 0 {
                tint
            } else {
                lerp_color(c.from, c.to, t, c.cycle_time)
            }
        },
    }
}

/// The interpolation offset `(diff * cc) / ct` at `t = cc / ct <= 1`
/// never exceeds the distance `diff` between the endpoints.
proof fn lemma_offset_bound(diff: int, cc: int, ct: int)
    requires
        0 <= diff,
        0 < cc <= ct,
    ensures
        0 <= (diff * cc) / ct <= diff,
{
    lemma_mul_inequality(cc, ct, diff);
    assert(cc * diff == diff * cc) by (nonlinear_arith);
    assert(ct * diff == diff * ct) by (nonlinear_arith);
    lemma_div_is_ordered(diff * cc, diff * ct, ct);
    lemma_div_multiples_vanish(diff, ct);
    assert(diff * cc >= 0) by (nonlinear_arith)
        requires
            diff >= 0,
            cc >= 1,
    ;
}

fn lerp_channel_exec(from: u32, to: u32, cc: u64, ct: u64) -> (r: u32)
    requires
        from <= COLOR_SCALE,
        to <= COLOR_SCALE,
        0 < cc <= ct <= MAX_CYCLE_TIME,
    ensures
        r == lerp_channel(from, to, cc, ct),
        r <= COLOR_SCALE,
{
    if to >= from {
        let diff: u64 = (to - from) as u64;
        proof {
            lemma_mul_inequality(diff as int, COLOR_SCALE as int, cc as int);
            lemma_offset_bound(diff as int, cc as int, ct as int);
        }
        let offset: u64 = diff * cc / ct;
        from + (offset as u32)
    } else {
        let diff: u64 = (from - to) as u64;
        proof {
            lemma_mul_inequality(diff as int, COLOR_SCALE as int, cc as int);
            lemma_offset_bound(diff as int, cc as int, ct as int);
        }
        let offset: u64 = diff * cc / ct;
        from - (offset as u32)
    }
}

/// Advances every tint oscillator once per frame.
pub struct CyclingColorSystem;

/// One oscillator's update for one frame: write the tint this frame shows
/// and advance the oscillator by `dt` milliseconds.
pub fn update_cycling(tint: &mut Color, cycling: &mut CyclingColor, dt: u64)
    requires
        cycling_wf(*old(cycling)),
        color_wf(*old(tint)),
    ensures
        *final(cycling) == cycle_step(*old(cycling), dt),
        *final(tint) == tint_step(*old(tint), *old(cycling), dt),
        cycling_wf(*final(cycling)),
        color_wf(*final(tint)),
{
    match cycling.state {
        CyclingState::Stopped => {
            *tint = cycling.from;
        },
        CyclingState::Cycling => {
            let t = if dt >= cycling.current_cycle {
                0
            } else {
                cycling.current_cycle - dt
            };
            if t == 0 {
                let aux = cycling.from;
                cycling.from = cycling.to;
                cycling.to = aux;
                cycling.current_cycle = cycling.cycle_time;
            } else {
                cycling.current_cycle = t;
                let red = lerp_channel_exec(cycling.from.red, cycling.to.red, t, cycling.cycle_time);
                let green = lerp_channel_exec(
                    cycling.from.green,
                    cycling.to.green,
                    t,
                    cycling.cycle_time,
                );
                let blue = lerp_channel_exec(
                    cycling.from.blue,
                    cycling.to.blue,
                    t,
                    cycling.cycle_time,
                );
                let alpha = lerp_channel_exec(
                    cycling.from.alpha,
                    cycling.to.alpha,
                    t,
                    cycling.cycle_time,
                );
                *tint = Color { red, green, blue, alpha };
            }
        },
    }
}

impl CyclingColorSystem {
    /// One frame of the system: update every (tint, oscillator) pair, in
    /// place and independently.
    pub fn run(&self, tints: &mut Vec<Color>, cyclings: &mut Vec<CyclingColor>, dt: u64)
        requires
            old(tints).len() == old(cyclings).len(),
            forall|j: int|
                0 <= j < old(cyclings).len() ==> cycling_wf(#[trigger] old(cyclings)@[j]),
            forall|j: int| 0 <= j < old(tints).len() ==> color_wf(#[trigger] old(tints)@[j]),
        ensures
            final(tints).len() == old(tints).len(),
            final(cyclings).len() == old(cyclings).len(),
            forall|j: int|
                0 <= j < old(cyclings).len() ==> final(cyclings)@[j] == cycle_step(
                    #[trigger] old(cyclings)@[j],
                    dt,
                ),
            forall|j: int|
                0 <= j < old(tints).len() ==> final(tints)@[j] == tint_step(
                    #[trigger] old(tints)@[j],
                    old(cyclings)@[j],
                    dt,
                ),
    {
        let n = tints.len();
        let mut i: usize = 0;
        while i < n
            invariant
                i <= n,
                n == old(tints).len(),
                tints.len() == n,
                cyclings.len() == n,
                old(tints).len() == old(cyclings).len(),
                forall|j: int|
                    0 <= j < n ==> cycling_wf(#[trigger] old(cyclings)@[j]) && color_wf(
                        old(tints)@[j],
                    ),
                forall|j: int|
                    0 <= j < i ==> cyclings@[j] == cycle_step(#[trigger] old(cyclings)@[j], dt),
                forall|j: int|
                    0 <= j < i ==> tints@[j] == tint_step(
                        #[trigger] old(tints)@[j],
                        old(cyclings)@[j],
                        dt,
                    ),
                forall|j: int| i <= j < n ==> #[trigger] cyclings@[j] == old(cyclings)@[j],
                forall|j: int| i <= j < n ==> #[trigger] tints@[j] == old(tints)@[j],
            decreases n - i,
        {
            let mut tint = tints[i];
            let mut cycling = cyclings[i];
            update_cycling(&mut tint, &mut cycling, dt);
            tints[i] = tint;
            cyclings[i] = cycling;
            i = i + 1;
        }
    }
}

/// A stopped oscillator is inert: for any elapsed time the update leaves
/// it unchanged and the displayed tint is exactly `from`.
pub proof fn lemma_stopped_is_inert(tint: Color, c: CyclingColor, dt: u64)
    requires
        c.state == CyclingState::Stopped,
    ensures
        cycle_step(c, dt) == c,
        tint_step(tint, c, dt) == c.from,
{
}

/// Starting an oscillator and then letting one full period elapse returns
/// the endpoints to their values before the start. After `start` the
/// countdown is zero, so the first update swaps the endpoints and begins
/// a half-cycle; a second update consuming at least the half-period swaps
/// them back.
pub proof fn lemma_full_period_round_trip(c: CyclingColor, dt1: u64, dt2: u64)
    requires
        c.from == white_color(),
        c.to == c.color,
        dt2 >= c.cycle_time,
    ensures
        cycle_step(cycle_step(started(c), dt1), dt2).from == c.from,
        cycle_step(cycle_step(started(c), dt1), dt2).to == c.to,
{
}

} // verus!
