use pong_core::cycling_color::{update_cycling, CyclingColorSystem};
use pong_core::pong::{Color, CyclingColor, CyclingState};

fn red() -> Color {
    Color { red: 1000, green: 0, blue: 0, alpha: 1000 }
}

fn white() -> Color {
    Color::white()
}

fn black() -> Color {
    Color { red: 0, green: 0, blue: 0, alpha: 0 }
}

/// A running oscillator in the middle of a half-cycle, as the game holds
/// one a quarter second after a swap: half-period 250 ms, counting down
/// from 250.
fn mid_cycle() -> CyclingColor {
    CyclingColor {
        state: CyclingState::Cycling,
        cycle_time: 250,
        color: red(),
        from: white(),
        to: red(),
        current_cycle: 250,
    }
}

#[test]
fn new_halves_the_requested_period_and_rests_on_white() {
    let c = CyclingColor::new(red(), 500);
    assert_eq!(c.state, CyclingState::Stopped);
    assert_eq!(c.cycle_time, 250);
    assert_eq!(c.current_cycle, 0);
    assert_eq!(c.from, white());
    assert_eq!(c.to, red());
    assert_eq!(c.color, red());
}

#[test]
fn stopped_oscillator_pins_tint_to_from_for_any_elapsed_time() {
    for dt in [0u64, 1, 16, 250, 100_000] {
        let mut c = CyclingColor::new(red(), 500);
        let mut tint = black();
        update_cycling(&mut tint, &mut c, dt);
        assert_eq!(tint, c.from);
        assert_eq!(c.current_cycle, 0);
        assert_eq!(c.state, CyclingState::Stopped);
    }
}

#[test]
fn full_elapsed_half_cycle_swaps_endpoints_and_resets_countdown() {
    let mut c = mid_cycle();
    let mut tint = black();
    update_cycling(&mut tint, &mut c, 250);
    assert_eq!(c.from, red());
    assert_eq!(c.to, white());
    assert_eq!(c.current_cycle, 250);
    // The swap frame leaves the tint as it was.
    assert_eq!(tint, black());
}

#[test]
fn partial_elapsed_time_interpolates_toward_from() {
    let mut c = mid_cycle();
    let mut tint = black();
    update_cycling(&mut tint, &mut c, 100);
    assert_eq!(c.current_cycle, 150);
    // t = 150 / 250 = 0.6: each channel is from + (to - from) * 0.6.
    assert_eq!(tint, Color { red: 1000, green: 400, blue: 400, alpha: 1000 });
}

#[test]
fn fresh_half_cycle_shows_the_to_color() {
    // With the countdown nearly full, t is close to 1 and the tint is
    // close to `to`; at exactly full it is exactly `to`.
    let mut c = mid_cycle();
    let mut tint = black();
    update_cycling(&mut tint, &mut c, 0);
    assert_eq!(c.current_cycle, 250);
    assert_eq!(tint, red());
}

#[test]
fn oversized_elapsed_time_snaps_to_the_swap() {
    let mut c = mid_cycle();
    c.current_cycle = 100;
    let mut tint = red();
    update_cycling(&mut tint, &mut c, 1000);
    assert_eq!(c.from, red());
    assert_eq!(c.to, white());
    assert_eq!(c.current_cycle, 250);
    assert_eq!(tint, red());
}

#[test]
fn start_begins_cycling_from_white_toward_the_target() {
    let mut c = CyclingColor::new(red(), 500);
    c.from = black();
    c.to = black();
    c.current_cycle = 77;
    c.start();
    assert_eq!(c.state, CyclingState::Cycling);
    assert_eq!(c.from, white());
    assert_eq!(c.to, red());
    assert_eq!(c.current_cycle, 0);
}

#[test]
fn stop_freezes_everything_but_the_state() {
    let mut c = mid_cycle();
    c.current_cycle = 120;
    c.stop();
    assert_eq!(c.state, CyclingState::Stopped);
    assert_eq!(c.cycle_time, 250);
    assert_eq!(c.current_cycle, 120);
    assert_eq!(c.from, white());
    assert_eq!(c.to, red());
}

#[test]
fn one_full_period_after_start_restores_the_endpoints() {
    let mut c = CyclingColor::new(red(), 500);
    let from_before = c.from;
    let to_before = c.to;
    c.start();

    let mut tint = black();
    // The first update after a start swaps at once (the countdown begins
    // at zero) and opens a half-cycle...
    update_cycling(&mut tint, &mut c, 16);
    assert_eq!(c.from, red());
    assert_eq!(c.to, white());
    // ...and one more half-period later the endpoints are back where they
    // were before the start.
    update_cycling(&mut tint, &mut c, 250);
    assert_eq!(c.from, from_before);
    assert_eq!(c.to, to_before);
    assert_eq!(c.current_cycle, c.cycle_time);
}

#[test]
fn one_full_period_in_small_steps_restores_the_endpoints() {
    let mut c = CyclingColor::new(red(), 500);
    c.start();
    let mut tint = black();
    update_cycling(&mut tint, &mut c, 5);
    assert_eq!(c.from, red());
    // Five 50 ms frames consume the 250 ms half-cycle exactly; the last
    // one lands on zero and swaps.
    for _ in 0..5 {
        update_cycling(&mut tint, &mut c, 50);
    }
    assert_eq!(c.from, white());
    assert_eq!(c.to, red());
}

#[test]
fn cycling_color_system_updates_every_entity_independently() {
    let mut running = mid_cycle();
    running.current_cycle = 200;
    let stopped = CyclingColor::new(red(), 500);

    let mut cyclings = vec![running, stopped];
    let mut tints = vec![black(), black()];

    let system = CyclingColorSystem;
    system.run(&mut tints, &mut cyclings, 100);

    assert_eq!(cyclings[0].current_cycle, 100);
    // t = 100 / 250 = 0.4.
    assert_eq!(tints[0], Color { red: 1000, green: 600, blue: 600, alpha: 1000 });

    assert_eq!(cyclings[1], stopped);
    assert_eq!(tints[1], white());
}
