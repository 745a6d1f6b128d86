use sketch_harness::clock::{SimulationClock, FRAMES_PER_SECOND, TICKS_PER_SECOND, TIMESTEP};
use sketch_harness::error::ConfigurationError;

#[test]
fn standard_step_is_a_sixtieth_of_a_second() {
    assert_eq!(FRAMES_PER_SECOND, 60);
    assert_eq!(TIMESTEP * FRAMES_PER_SECOND as u64, TICKS_PER_SECOND);
    let clock = SimulationClock::standard();
    assert_eq!(clock.fixed_step(), TIMESTEP);
    assert_eq!(clock.accumulated_time(), 0);
}

#[test]
fn frame_of_thirty_three_milliseconds_yields_one_step() {
    // 0.033 s at 6 000 000 ticks a second.
    let mut clock = SimulationClock::standard();
    let steps = clock.advance(198_000);
    assert_eq!(steps, 1);
    assert_eq!(clock.accumulated_time(), 98_000);
}

#[test]
fn frame_of_a_fifth_of_a_second_yields_twelve_steps() {
    // 0.2 s at 6 000 000 ticks a second.
    let mut clock = SimulationClock::standard();
    let steps = clock.advance(1_200_000);
    assert_eq!(steps, 12);
    assert_eq!(clock.accumulated_time(), 0);
}

#[test]
fn scenario_in_ticks_of_a_sixty_thousandth() {
    let mut clock = SimulationClock::new(1000).unwrap();
    assert_eq!(clock.advance(1980), 1);
    assert_eq!(clock.accumulated_time(), 980);
    let mut fresh = SimulationClock::new(1000).unwrap();
    assert_eq!(fresh.advance(12_000), 12);
    assert_eq!(fresh.accumulated_time(), 0);
}

#[test]
fn zero_step_is_refused() {
    assert_eq!(SimulationClock::new(0).unwrap_err(), ConfigurationError::ZeroFixedStep);
}

#[test]
fn new_clock_holds_nothing() {
    let clock = SimulationClock::new(7).unwrap();
    assert_eq!(clock.fixed_step(), 7);
    assert_eq!(clock.accumulated_time(), 0);
}

#[test]
fn no_time_is_lost() {
    let mut clock = SimulationClock::new(1000).unwrap();
    let mut total_in: u64 = 0;
    let mut total_steps: u64 = 0;
    for dt in [0u64, 1, 999, 1000, 1001, 16, 33_333, 5, 12_345_678, 0, 2] {
        let before = clock.accumulated_time();
        let steps = clock.advance(dt);
        assert_eq!(before + dt, steps * 1000 + clock.accumulated_time());
        assert!(clock.accumulated_time() < clock.fixed_step());
        assert_eq!(clock.fixed_step(), 1000);
        total_in += dt;
        total_steps += steps;
    }
    assert_eq!(total_in, total_steps * 1000 + clock.accumulated_time());
}

#[test]
fn short_frame_yields_no_step() {
    let mut clock = SimulationClock::new(1000).unwrap();
    assert_eq!(clock.advance(999), 0);
    assert_eq!(clock.accumulated_time(), 999);
    assert_eq!(clock.advance(0), 0);
    assert_eq!(clock.accumulated_time(), 999);
    assert_eq!(clock.advance(1), 1);
    assert_eq!(clock.accumulated_time(), 0);
}

#[test]
fn frame_of_exactly_one_step_yields_one_step() {
    let mut clock = SimulationClock::new(1000).unwrap();
    clock.advance(321);
    assert_eq!(clock.advance(1000), 1);
    assert_eq!(clock.accumulated_time(), 321);
}

#[test]
fn split_of_the_frame_time_does_not_matter() {
    let mut whole = SimulationClock::new(700).unwrap();
    let mut split = SimulationClock::new(700).unwrap();
    whole.advance(650);
    split.advance(650);
    let at_once = whole.advance(4321 + 999);
    let in_two = split.advance(4321) + split.advance(999);
    assert_eq!(at_once, in_two);
    assert_eq!(whole.accumulated_time(), split.accumulated_time());
}

#[test]
fn longest_frame_does_not_overflow() {
    let mut clock = SimulationClock::new(u64::MAX).unwrap();
    assert_eq!(clock.advance(u64::MAX - 1), 0);
    assert_eq!(clock.accumulated_time(), u64::MAX - 1);
    assert_eq!(clock.advance(u64::MAX), 1);
    assert_eq!(clock.accumulated_time(), u64::MAX - 1);

    let mut fine = SimulationClock::new(1).unwrap();
    assert_eq!(fine.advance(u64::MAX), u64::MAX);
    assert_eq!(fine.accumulated_time(), 0);

    let mut three = SimulationClock::new(3).unwrap();
    three.advance(2);
    assert_eq!(three.advance(u64::MAX), 6_148_914_691_236_517_205);
    assert_eq!(three.accumulated_time(), 2);
}

#[test]
fn stall_yields_many_steps_at_once() {
    let mut clock = SimulationClock::standard();
    // Ten seconds without a frame.
    assert_eq!(clock.advance(10 * TICKS_PER_SECOND), 600);
    assert_eq!(clock.accumulated_time(), 0);
}
