use vstd::prelude::*;

verus! {

/// The largest displacement, in pixels, of one relative move.
pub const PER_TICK_CAP: u32 = 10;

/// Microseconds that one pixel takes at speed one: a speed unit is 62.5 px/s.
pub const MICROS_PER_PIXEL_AT_UNIT_SPEED: u64 = 16_000;

/// The shortest pause between two moves, in microseconds.
pub const MIN_SLEEP_MICROS: u64 = 200;

/// The drag speed, clamped to at least one.
pub open spec fn clamped_speed(drag_speed: i32) -> nat {
    if drag_speed < 1 {
        1
    } else {
        drag_speed as nat
    }
}

/// The magnitude of each per-tick move: the speed, but at most the cap.
pub open spec fn per_tick_magnitude_spec(drag_speed: i32) -> nat {
    let speed = clamped_speed(drag_speed);
    if speed < 10 {
        speed
    } else {
        10
    }
}

/// `n / d` rounded to the nearest integer, halves away from zero.
pub open spec fn round_div(n: nat, d: nat) -> nat
    recommends
        d > 0,
{
    ((2 * n + d) / (2 * d)) as nat
}

/// The pause between two moves in microseconds: the time that one move of
/// `per_tick_magnitude` pixels takes at `62.5 * speed` pixels per second,
/// rounded, and never under the floor.
pub open spec fn sleep_micros_spec(drag_speed: i32) -> nat {
    let exact = round_div(
        per_tick_magnitude_spec(drag_speed) * 16_000,
        clamped_speed(drag_speed),
    );
    if exact < 200 {
        200
    } else {
        exact
    }
}

/// The per-tick move magnitude for a configured drag speed.
pub fn per_tick_magnitude(drag_speed: i32) -> (r: u32)
    ensures
        r as nat == per_tick_magnitude_spec(drag_speed),
        1 <= r <= 10,
{
    if drag_speed < 1 {
        1
    } else if drag_speed < PER_TICK_CAP as i32 {
        drag_speed as u32
    } else {
        PER_TICK_CAP
    }
}

/// The pause between two moves, in microseconds, for a configured drag speed.
pub fn sleep_micros(drag_speed: i32) -> (r: u64)
    ensures
        r as nat == sleep_micros_spec(drag_speed),
        r >= 200,
        drag_speed <= 10 ==> r == 16000,
        drag_speed >= 800 ==> r == 200,
{
    proof {
        lemma_speed_calibration(drag_speed);
    }
    let speed: u64 = if drag_speed < 1 {
        1
    } else {
        drag_speed as u64
    };
    let magnitude: u64 = per_tick_magnitude(drag_speed) as u64;
    let numerator: u64 = magnitude * MICROS_PER_PIXEL_AT_UNIT_SPEED;
    let exact: u64 = (2 * numerator + speed) / (2 * speed);
    if exact < MIN_SLEEP_MICROS {
        MIN_SLEEP_MICROS
    } else {
        exact
    }
}

/// Up to the per-tick cap, a move of `speed` pixels takes 16 ms at any speed, so
/// the drag speed is `62.5 * speed` pixels per second; from speed 800 on, the
/// pause is at its floor.
pub proof fn lemma_speed_calibration(drag_speed: i32)
    ensures
        drag_speed <= 10 ==> per_tick_magnitude_spec(drag_speed) == clamped_speed(drag_speed)
            && sleep_micros_spec(drag_speed) == 16000,
        drag_speed >= 10 ==> per_tick_magnitude_spec(drag_speed) == 10,
        drag_speed >= 800 ==> sleep_micros_spec(drag_speed) == 200,
{
    let speed = clamped_speed(drag_speed) as int;
    if drag_speed <= 10 {
        assert((2 * (speed * 16_000) + speed) / (2 * speed) == 16_000) by (nonlinear_arith)
            requires
                speed > 0,
        ;
    }
    if drag_speed >= 800 {
        assert((2 * (10 * 16_000) + speed) / (2 * speed) <= 200) by (nonlinear_arith)
            requires
                speed >= 800,
        ;
    }
}

} // verus!
