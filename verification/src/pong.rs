//! Entity components of the game: paddles, the ball with its two-state
//! lifecycle, the score counters, and the color-cycling tint oscillator.

use vstd::prelude::*;

verus! {

/// Number of fixed-point steps in one arena unit, for lengths and
/// velocities.
pub const SCALE: i64 = 1000;

/// Arena width in thousandths of a unit.
pub const ARENA_WIDTH: i64 = 100_000;
/// Arena height in thousandths of a unit.
pub const ARENA_HEIGHT: i64 = 100_000;

/// Paddle width in thousandths of a unit.
pub const PADDLE_WIDTH: i64 = 4_000;
/// Paddle height in thousandths of a unit.
pub const PADDLE_HEIGHT: i64 = 16_000;

/// Ball radius in thousandths of a unit.
pub const BALL_RADIUS: i64 = 2_000;
/// Base horizontal speed in thousandths of a unit per second.
pub const BALL_VELOCITY_X: i64 = 30_000;
/// Base vertical speed in thousandths of a unit per second.
pub const BALL_VELOCITY_Y: i64 = 15_000;
/// Per-bounce velocity gain in thousandths (200 is a gain of one fifth).
pub const BALL_ACCELERATION: i64 = 200;
/// Horizontal speed cap: twice the base horizontal speed.
pub const MAX_BALL_VELOCITY_X: i64 = 2 * BALL_VELOCITY_X;
/// Vertical speed cap: twice the base vertical speed.
pub const MAX_BALL_VELOCITY_Y: i64 = 2 * BALL_VELOCITY_Y;
/// Milliseconds a freshly re-armed ball waits before it starts to move.
pub const WAITING_TIME: u64 = 2_000;

/// Which side of the arena a paddle defends.
#[derive(Clone, Copy, PartialEq, Eq, Structural, Debug)]
pub enum Side {
    Left,
    Right,
}

/// A 2D vector of fixed-point scalars.
#[derive(Clone, Copy, PartialEq, Eq, Structural, Debug)]
pub struct Vec2 {
    pub x: i64,
    pub y: i64,
}

/// An entity's position, in millionths of an arena unit per axis.
#[derive(Clone, Copy, PartialEq, Eq, Structural, Debug)]
pub struct Transform {
    pub x: i64,
    pub y: i64,
}

/// A side-tagged rectangle, immutable after creation.
#[derive(Clone, Copy, PartialEq, Eq, Structural, Debug)]
pub struct Paddle {
    pub side: Side,
    pub width: i64,
    pub height: i64,
}

impl Paddle {
    pub fn new(side: Side) -> (p: Paddle)
        ensures
            p.side == side,
            p.width == PADDLE_WIDTH,
            p.height == PADDLE_HEIGHT,
    {
        Paddle { side, width: PADDLE_WIDTH, height: PADDLE_HEIGHT }
    }
}

/// The ball's lifecycle: re-armed and counting down, or in flight.
#[derive(Clone, Copy, PartialEq, Eq, Structural, Debug)]
pub enum BallState {
    Waiting,
    Moving,
}

/// The moving circle. `waiting_time` is meaningful only in `Waiting`
/// state; velocity components are signed and capped by `accelerate`.
#[derive(Clone, Copy, PartialEq, Eq, Structural, Debug)]
pub struct Ball {
    pub velocity: Vec2,
    pub acceleration: i64,
    pub radius: i64,
    pub state: BallState,
    pub waiting_time: u64,
}

/// The base velocity a re-armed ball is given.
pub open spec fn base_velocity() -> Vec2 {
    Vec2 { x: BALL_VELOCITY_X, y: BALL_VELOCITY_Y }
}

impl Ball {
    /// Re-arm the ball in place: back to `Waiting`, full waiting time,
    /// base velocity. Gains from earlier bounces are discarded here and
    /// nowhere else.
    pub fn wait(&mut self)
        ensures
            final(self).state == BallState::Waiting,
            final(self).waiting_time == WAITING_TIME,
            final(self).velocity == base_velocity(),
            final(self).acceleration == old(self).acceleration,
            final(self).radius == old(self).radius,
    {
        self.state = BallState::Waiting;
        self.waiting_time = WAITING_TIME;
        self.velocity = Vec2 { x: BALL_VELOCITY_X, y: BALL_VELOCITY_Y };
    }
}

/// Bound on velocity components accepted by `accelerate`, forced by
/// 64-bit arithmetic; a thousand arena widths per second, far beyond any
/// speed the game reaches.
pub const VELOCITY_LIMIT: i64 = 1_000_000_000;

/// A velocity component after one bounce gain, before capping: the
/// magnitude grows by `acc` thousandths (the gain rounded down), the sign
/// is kept.
pub open spec fn grown_component(v: int, acc: int) -> int {
    if v >= 0 {
        v + (v * acc) / (SCALE as int)
    } else {
        -((-v) + ((-v) * acc) / (SCALE as int))
    }
}

/// A velocity component after one bounce: the grown component, capped at
/// `vmax`.
pub open spec fn accelerated_component(v: int, acc: int, vmax: int) -> int {
    if grown_component(v, acc) <= vmax {
        grown_component(v, acc)
    } else {
        vmax
    }
}

/// A velocity component after `n` bounces in a row.
pub open spec fn accel_iter(v: int, acc: int, vmax: int, n: nat) -> int
    decreases n,
{
    if n == 0 {
        v
    } else {
        accel_iter(accelerated_component(v, acc, vmax), acc, vmax, (n - 1) as nat)
    }
}

fn accelerate_component(v: i64, acc: i64, vmax: i64) -> (r: i64)
    requires
        -VELOCITY_LIMIT <= v <= VELOCITY_LIMIT,
        0 <= acc <= SCALE,
    ensures
        r == accelerated_component(v as int, acc as int, vmax as int),
{
    let m: i64 = if v >= 0 {
        v
    } else {
        -v
    };
    proof {
        assert(0 <= m * acc <= 1_000_000_000_000) by (nonlinear_arith)
            requires
                0 <= m <= 1_000_000_000,
                0 <= acc <= 1000,
        ;
    }
    let gain: i64 = m * acc / SCALE;
    let grown: i64 = if v >= 0 {
        v + gain
    } else {
        v - gain
    };
    if grown <= vmax {
        grown
    } else {
        vmax
    }
}

impl Ball {
    /// Apply one bounce's velocity gain, independently per axis: each
    /// component grows by `acceleration` thousandths of itself and is then
    /// capped at the axis's maximum. The sign is preserved; direction
    /// flips are the collision collaborator's business, not this one's.
    pub fn accelerate(&mut self)
        requires
            -VELOCITY_LIMIT <= old(self).velocity.x <= VELOCITY_LIMIT,
            -VELOCITY_LIMIT <= old(self).velocity.y <= VELOCITY_LIMIT,
            0 <= old(self).acceleration <= SCALE,
        ensures
            final(self).velocity.x == accelerated_component(
                old(self).velocity.x as int,
                old(self).acceleration as int,
                MAX_BALL_VELOCITY_X as int,
            ),
            final(self).velocity.y == accelerated_component(
                old(self).velocity.y as int,
                old(self).acceleration as int,
                MAX_BALL_VELOCITY_Y as int,
            ),
            final(self).acceleration == old(self).acceleration,
            final(self).radius == old(self).radius,
            final(self).state == old(self).state,
            final(self).waiting_time == old(self).waiting_time,
    {
        let velocity_x = accelerate_component(self.velocity.x, self.acceleration, MAX_BALL_VELOCITY_X);
        let velocity_y = accelerate_component(self.velocity.y, self.acceleration, MAX_BALL_VELOCITY_Y);
        self.velocity = Vec2 { x: velocity_x, y: velocity_y };
    }
}

/// A bounce gain never drives a velocity component past its cap.
pub proof fn lemma_accelerate_never_exceeds(v: int, acc: int, vmax: int)
    ensures
        accelerated_component(v, acc, vmax) <= vmax,
{
}

/// The cap is a fixed point: a ball already at the cap stays exactly
/// there under further bounces.
pub proof fn lemma_cap_fixed_point(acc: int, vmax: int)
    requires
        0 <= acc,
        0 <= vmax,
    ensures
        accelerated_component(vmax, acc, vmax) == vmax,
{
    assert(vmax * acc >= 0) by (nonlinear_arith)
        requires
            0 <= acc,
            0 <= vmax,
    ;
    assert((vmax * acc) / (SCALE as int) >= 0);
}

/// A component that starts at or under the cap stays at or under it,
/// however many bounces follow.
pub proof fn lemma_accel_iter_never_exceeds(v: int, acc: int, vmax: int, n: nat)
    requires
        v <= vmax,
    ensures
        accel_iter(v, acc, vmax, n) <= vmax,
    decreases n,
{
    if n > 0 {
        lemma_accelerate_never_exceeds(v, acc, vmax);
        lemma_accel_iter_never_exceeds(accelerated_component(v, acc, vmax), acc, vmax, (n - 1) as nat);
    }
}

/// While below the cap, a bounce whose gain is at least one fixed-point
/// step strictly increases the component.
pub proof fn lemma_accelerate_increases(v: int, acc: int, vmax: int)
    requires
        0 <= v,
        v * acc >= SCALE,
        v < vmax,
    ensures
        accelerated_component(v, acc, vmax) > v,
{
    assert((v * acc) / (SCALE as int) >= 1);
}

/// Repeated bounces converge exactly to the cap: some number of them
/// drives the component to `vmax`, where it then stays.
pub proof fn lemma_accelerate_converges(v: int, acc: int, vmax: int) -> (n: nat)
    requires
        0 <= v <= vmax,
        0 < acc,
        v * acc >= SCALE,
    ensures
        accel_iter(v, acc, vmax, n) == vmax,
    decreases vmax - v,
{
    if v == vmax {
        0
    } else {
        lemma_accelerate_increases(v, acc, vmax);
        lemma_accelerate_never_exceeds(v, acc, vmax);
        let v1 = accelerated_component(v, acc, vmax);
        assert(v1 * acc >= v * acc) by (nonlinear_arith)
            requires
                v1 >= v,
                acc > 0,
        ;
        let n1 = lemma_accelerate_converges(v1, acc, vmax);
        n1 + 1
    }
}

/// Number of fixed-point steps in a full color channel.
pub const COLOR_SCALE: u32 = 1000;

/// Longest half-period (and so longest countdown value) the oscillator
/// accepts, in milliseconds; forced by 64-bit arithmetic and far beyond
/// any real frame rate (over eleven days).
pub const MAX_CYCLE_TIME: u64 = 1_000_000_000;

/// An RGBA tint; each channel in thousandths of full intensity.
#[derive(Clone, Copy, PartialEq, Eq, Structural, Debug)]
pub struct Color {
    pub red: u32,
    pub green: u32,
    pub blue: u32,
    pub alpha: u32,
}

/// Every channel of the color is within the unit range.
pub open spec fn color_wf(c: Color) -> bool {
    c.red <= COLOR_SCALE && c.green <= COLOR_SCALE && c.blue <= COLOR_SCALE && c.alpha
        <= COLOR_SCALE
}

/// Full white: the resting tint that shows a sprite unchanged.
pub open spec fn white_color() -> Color {
    Color { red: COLOR_SCALE, green: COLOR_SCALE, blue: COLOR_SCALE, alpha: COLOR_SCALE }
}

impl Color {
    /// Full white: the resting tint that shows a sprite unchanged.
    pub fn white() -> (c: Color)
        ensures
            c == white_color(),
    {
        Color { red: COLOR_SCALE, green: COLOR_SCALE, blue: COLOR_SCALE, alpha: COLOR_SCALE }
    }
}

/// Whether the tint oscillator is running.
#[derive(Clone, Copy, PartialEq, Eq, Structural, Debug)]
pub enum CyclingState {
    Stopped,
    Cycling,
}

/// The tint oscillator attached to the ball. `cycle_time` is the
/// half-period; `current_cycle` counts down within the current half-cycle
/// and `from`/`to` swap each time it reaches zero.
#[derive(Clone, Copy, PartialEq, Eq, Structural, Debug)]
pub struct CyclingColor {
    pub state: CyclingState,
    pub cycle_time: u64,
    pub color: Color,
    pub from: Color,
    pub to: Color,
    pub current_cycle: u64,
}

/// Well-formedness of the oscillator: colors in range, the countdown
/// within the half-period, and the half-period within the machine bound.
pub open spec fn cycling_wf(c: CyclingColor) -> bool {
    &&& color_wf(c.color)
    &&& color_wf(c.from)
    &&& color_wf(c.to)
    &&& c.current_cycle <= c.cycle_time
    &&& c.cycle_time <= MAX_CYCLE_TIME
}

/// The oscillator with its state set to `Stopped`, all else unchanged.
pub open spec fn stopped(c: CyclingColor) -> CyclingColor {
    CyclingColor { state: CyclingState::Stopped, ..c }
}

/// The oscillator as `start` leaves it: cycling from white toward its
/// target color, with the countdown at zero so that the first update
/// begins a fresh half-cycle.
pub open spec fn started(c: CyclingColor) -> CyclingColor {
    CyclingColor {
        state: CyclingState::Cycling,
        from: white_color(),
        to: c.color,
        current_cycle: 0,
        ..c
    }
}

impl CyclingColor {
    /// A fresh oscillator: stopped, resting on white, targeting `to`.
    /// `cycle_time` is the requested full period; the stored half-period
    /// is half of it, rounded down to the millisecond.
    pub fn new(to: Color, cycle_time: u64) -> (c: CyclingColor)
        requires
            color_wf(to),
            cycle_time / 2 <= MAX_CYCLE_TIME,
        ensures
            c.state == CyclingState::Stopped,
            c.color == to,
            c.from == white_color(),
            c.to == to,
            c.cycle_time == cycle_time / 2,
            c.current_cycle == 0,
            cycling_wf(c),
    {
        CyclingColor {
            state: CyclingState::Stopped,
            color: to,
            from: Color::white(),
            to,
            cycle_time: cycle_time / 2,
            current_cycle: 0,
        }
    }

    /// Freeze the oscillation; the endpoints and the countdown keep their
    /// values, and the displayed tint rests on `from`.
    pub fn stop(&mut self)
        ensures
            *final(self) == stopped(*old(self)),
    {
        self.state = CyclingState::Stopped;
    }

    /// (Re)start the oscillation from white toward the target color.
    pub fn start(&mut self)
        ensures
            *final(self) == started(*old(self)),
    {
        self.state = CyclingState::Cycling;
        self.from = Color::white();
        self.to = self.color;
        self.current_cycle = 0;
    }
}

/// A countdown timer after `dt` milliseconds elapsed: decremented,
/// floored at zero.
pub open spec fn ticked(timer: u64, dt: u64) -> u64 {
    if dt >= timer {
        0
    } else {
        (timer - dt) as u64
    }
}

/// The score counters for both players.
#[derive(Clone, Copy, PartialEq, Eq, Structural, Debug)]
pub struct ScoreBoard {
    pub score_left: i32,
    pub score_right: i32,
}

impl Default for ScoreBoard {
    /// A fresh board: both scores at zero.
    fn default() -> (s: ScoreBoard)
        ensures
            s.score_left == 0,
            s.score_right == 0,
    {
        ScoreBoard { score_left: 0, score_right: 0 }
    }
}

} // verus!
