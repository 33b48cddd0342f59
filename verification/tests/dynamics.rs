use car_sim::car::{
    CarDirection, CarMovement, ACCELERATION, DEADZONE, FRICTION, HYSTERESIS, MAX_SPEED, TURN_SPEED,
};
use car_sim::units::{to_nanos, MICROS_PER_SECOND, NANOS_PER_MILLI, NANOS_PER_UNIT};

const TENTH: u32 = MICROS_PER_SECOND / 10;

fn idle() -> CarDirection {
    CarDirection::default()
}

fn holding(forward: bool, reverse: bool, left: bool, right: bool) -> CarDirection {
    CarDirection { forward, reverse, left, right }
}

fn car_at(speed_units: i64) -> CarMovement {
    CarMovement { speed: speed_units * NANOS_PER_UNIT, ..CarMovement::default() }
}

#[test]
fn stock_tuning() {
    let car = CarMovement::default();
    assert_eq!(car.speed, 0);
    assert_eq!(car.angle, 0);
    assert_eq!(car.acceleration, 1_200_000);
    assert_eq!(car.max_speed, 500_000);
    assert_eq!(car.turn_rate, 2_800);
    assert_eq!(car.friction, 250_000);
    assert_eq!(car.deadzone, 100);
    assert_eq!(car.hysteresis, 100);
    assert_eq!(
        (ACCELERATION, MAX_SPEED, TURN_SPEED, FRICTION, DEADZONE, HYSTERESIS),
        (1_200_000, 500_000, 2_800, 250_000, 100, 100)
    );
}

#[test]
fn thousandths_scale_to_billionths() {
    assert_eq!(to_nanos(0), 0);
    assert_eq!(to_nanos(1), NANOS_PER_MILLI);
    assert_eq!(to_nanos(1_000), NANOS_PER_UNIT);
    assert_eq!(to_nanos(u32::MAX), 4_294_967_295_000_000);
}

#[test]
fn one_frame_of_throttle_and_steering() {
    let mut car = CarMovement::default();
    car.update(&holding(true, false, true, false), TENTH);
    // 120 gained, 25 lost to friction; 0.28 rad swept to the left.
    assert_eq!(car.speed, 95 * NANOS_PER_UNIT);
    assert_eq!(car.angle, 280_000_000);
}

#[test]
fn hold_forward_for_a_second_then_coast() {
    let mut car = CarMovement::default();
    let forward = holding(true, false, false, false);
    let rising: [i64; 10] = [95, 190, 285, 380, 475, 475, 475, 475, 475, 475];
    for expected in rising {
        car.update(&forward, TENTH);
        assert_eq!(car.speed, expected * NANOS_PER_UNIT);
        assert_eq!(car.angle, 0);
    }
    // Released: 25 units less every tenth of a second while the speed
    // exceeds 27.5, then rest.
    let mut expected: i64 = 475;
    let mut frames: u32 = 0;
    while car.speed != 0 {
        car.update(&idle(), TENTH);
        expected = if 2 * expected > 55 { expected - 25 } else { 0 };
        assert_eq!(car.speed, expected * NANOS_PER_UNIT);
        frames += 1;
        assert!(frames <= 19);
    }
    assert_eq!(frames, 19);
    car.update(&idle(), TENTH);
    assert_eq!(car.speed, 0);
    assert_eq!(car.angle, 0);
}

#[test]
fn coasting_never_speeds_up_nor_changes_sign() {
    for start in [-250i64, -249, -30, -1, 0, 1, 27, 28, 300, 500] {
        let mut car = car_at(start);
        let mut before = car.speed;
        for _ in 0..80 {
            car.update(&idle(), 33_333);
            assert!(car.speed.abs() <= before.abs());
            assert!(car.speed == 0 || (car.speed > 0) == (before > 0));
            before = car.speed;
        }
        assert_eq!(car.speed, 0);
    }
}

#[test]
fn coasting_stops_once_the_drag_adds_up_to_the_speed() {
    // One frame's drag at 16667 microseconds is 4.16675 units a second.
    let drag: i64 = 250_000 * 16_667;
    for start in [500 * NANOS_PER_UNIT, -250 * NANOS_PER_UNIT, 123_456_789_012, 1, -1] {
        let mut car = CarMovement { speed: start, ..CarMovement::default() };
        let frames = (start.abs() + drag - 1) / drag;
        for _ in 0..frames {
            car.update(&idle(), 16_667);
        }
        assert_eq!(car.speed, 0);
        car.update(&idle(), 16_667);
        assert_eq!(car.speed, 0);
    }
}

#[test]
fn speed_stays_within_limits() {
    let inputs = [
        holding(true, false, false, false),
        holding(false, true, false, false),
        holding(true, true, true, true),
        idle(),
    ];
    for dir in inputs {
        for dt in [0u32, 1, 16_667, TENTH, MICROS_PER_SECOND, 60 * MICROS_PER_SECOND, u32::MAX] {
            for start in [i64::MIN, -900, -250, 0, 499, 500, 7_000, i64::MAX] {
                let speed = if start == i64::MIN || start == i64::MAX {
                    start
                } else {
                    start * NANOS_PER_UNIT
                };
                let mut car = CarMovement { speed, ..CarMovement::default() };
                car.update(&dir, dt);
                assert!(car.speed >= -250 * NANOS_PER_UNIT);
                assert!(car.speed <= 500 * NANOS_PER_UNIT);
            }
        }
    }
}

#[test]
fn reverse_is_capped_at_half_the_top_speed() {
    let mut car = CarMovement::default();
    let reverse = holding(false, true, false, false);
    for _ in 0..10 {
        car.update(&reverse, TENTH);
    }
    // Capped at -250, then one frame's friction toward rest.
    assert_eq!(car.speed, -225 * NANOS_PER_UNIT);
    let mut odd = CarMovement { max_speed: 333, ..CarMovement::default() };
    odd.update(&reverse, MICROS_PER_SECOND);
    // Half of 0.333 is 0.1665; a second of friction then stops the car.
    assert_eq!(odd.speed, 0);
    let mut frictionless = CarMovement { max_speed: 333, friction: 0, ..CarMovement::default() };
    frictionless.update(&reverse, MICROS_PER_SECOND);
    assert_eq!(frictionless.speed, -166_500_000);
}

#[test]
fn both_throttles_cancel() {
    let mut car = car_at(100);
    car.update(&holding(true, true, false, false), TENTH);
    assert_eq!(car.speed, 75 * NANOS_PER_UNIT);
    let mut coasting = car_at(100);
    coasting.update(&idle(), TENTH);
    assert_eq!(car, coasting);
}

#[test]
fn all_four_held_goes_straight() {
    let mut car = car_at(100);
    car.update(&holding(true, true, true, true), TENTH);
    assert_eq!(car.angle, 0);
    assert_eq!(car.speed, 75 * NANOS_PER_UNIT);
}

#[test]
fn deadzone_suppresses_steering() {
    // Exactly a tenth of a unit per second: still inside the deadzone.
    for speed in [0i64, 1, 100_000_000, -100_000_000, -1] {
        for dir in [
            holding(false, false, true, false),
            holding(false, false, false, true),
            holding(false, false, true, true),
        ] {
            let mut car = CarMovement { speed, angle: 777, ..CarMovement::default() };
            car.update(&dir, TENTH);
            assert_eq!(car.angle, 777);
        }
    }
    // One billionth more and the car steers.
    let mut car = CarMovement { speed: 100_000_001, ..CarMovement::default() };
    car.update(&holding(false, false, true, false), TENTH);
    assert_eq!(car.angle, 280_000_000);
}

#[test]
fn steering_sees_the_speed_after_the_throttle() {
    // At rest, but the throttle takes the car out of the deadzone within the
    // frame.
    let mut car = CarMovement::default();
    car.update(&holding(true, false, false, true), TENTH);
    assert_eq!(car.angle, -280_000_000);
    // Moving, but the throttle brings the car into the deadzone.
    let mut slowing = car_at(120);
    slowing.update(&holding(false, true, true, false), TENTH);
    assert_eq!(slowing.angle, 0);
    assert_eq!(slowing.speed, 0);
}

#[test]
fn steering_is_mirrored_in_reverse() {
    let left = holding(false, false, true, false);
    let right = holding(false, false, false, true);
    let mut ahead = car_at(100);
    ahead.update(&left, TENTH);
    assert_eq!(ahead.angle, 280_000_000);
    let mut astern = car_at(-100);
    astern.update(&left, TENTH);
    assert_eq!(astern.angle, -280_000_000);
    let mut ahead = car_at(100);
    ahead.update(&right, TENTH);
    assert_eq!(ahead.angle, -280_000_000);
    let mut astern = car_at(-100);
    astern.update(&right, TENTH);
    assert_eq!(astern.angle, 280_000_000);
}

#[test]
fn left_and_right_cancel() {
    let mut car = CarMovement { angle: 5, ..car_at(100) };
    car.update(&holding(false, false, true, true), TENTH);
    assert_eq!(car.angle, 5);
}

#[test]
fn friction_band_edge() {
    // One frame's friction is 25; the band reaches up to 27.5.
    let mut at_edge = CarMovement { speed: 27_500_000_000, ..CarMovement::default() };
    at_edge.update(&idle(), TENTH);
    assert_eq!(at_edge.speed, 0);
    let mut above = CarMovement { speed: 27_500_000_001, ..CarMovement::default() };
    above.update(&idle(), TENTH);
    assert_eq!(above.speed, 2_500_000_001);
    let mut below = CarMovement { speed: -27_500_000_000, ..CarMovement::default() };
    below.update(&idle(), TENTH);
    assert_eq!(below.speed, 0);
    let mut beyond = CarMovement { speed: -27_500_000_001, ..CarMovement::default() };
    beyond.update(&idle(), TENTH);
    assert_eq!(beyond.speed, -2_500_000_001);
}

#[test]
fn overridden_tuning_is_used() {
    let mut car = CarMovement {
        speed: 0,
        acceleration: 10_000,
        max_speed: 8_000,
        angle: 0,
        turn_rate: 1_000,
        friction: 1_000,
        deadzone: 2_000,
        hysteresis: 500,
    };
    let dir = holding(true, false, true, false);
    car.update(&dir, MICROS_PER_SECOND);
    // 10 gained, capped at 8, 1 lost; 1 rad swept.
    assert_eq!(car.speed, 7 * NANOS_PER_UNIT);
    assert_eq!(car.angle, NANOS_PER_UNIT);
    let mut slow = CarMovement { speed: 1_500_000_000, acceleration: 0, ..car };
    slow.update(&dir, MICROS_PER_SECOND);
    // Inside the deadzone of 2, and at the edge of the band of 1.5.
    assert_eq!(slow.angle, NANOS_PER_UNIT);
    assert_eq!(slow.speed, 0);
}

#[test]
fn empty_frames_change_nothing() {
    let start = CarMovement { angle: -123_456_789, ..car_at(321) };
    let mut car = start;
    for _ in 0..100 {
        car.update(&idle(), 0);
        assert_eq!(car, start);
    }
    for dir in [holding(true, false, true, false), holding(true, true, true, true)] {
        car.update(&dir, 0);
        assert_eq!(car, start);
    }
    let mut resting = CarMovement::default();
    resting.update(&idle(), 0);
    assert_eq!(resting, CarMovement::default());
}

#[test]
fn an_empty_frame_still_limits_the_speed() {
    let mut car = car_at(900);
    car.update(&idle(), 0);
    assert_eq!(car.speed, 500 * NANOS_PER_UNIT);
}

#[test]
fn a_long_frame_is_not_cut_short() {
    let mut car = CarMovement::default();
    car.update(&holding(true, false, true, false), 10 * MICROS_PER_SECOND);
    // 12000 gained, capped at 500; ten seconds of friction is 2500: rest.
    assert_eq!(car.speed, 0);
    assert_eq!(car.angle, 28 * NANOS_PER_UNIT);
}

#[test]
fn checked_update_agrees_with_update() {
    let dir = holding(true, false, true, false);
    let mut checked = CarMovement::default();
    let mut plain = CarMovement::default();
    for _ in 0..20 {
        assert!(checked.checked_update(&dir, 16_667));
        plain.update(&dir, 16_667);
        assert_eq!(checked, plain);
    }
}

#[test]
fn checked_update_refuses_a_heading_out_of_range() {
    let start = CarMovement { angle: i64::MAX - 279_999_999, ..car_at(100) };
    let mut car = start;
    assert!(!car.checked_update(&holding(false, false, true, false), TENTH));
    assert_eq!(car, start);
    assert_eq!(car.checked_next_angle(&holding(false, false, true, false), TENTH), None);
    // The other way is free, and so is one billionth less.
    assert!(car.checked_update(&holding(false, false, false, true), TENTH));
    assert_eq!(car.angle, i64::MAX - 559_999_999);
    let mut fits = CarMovement { angle: i64::MAX - 280_000_000, ..car_at(100) };
    assert!(fits.checked_update(&holding(false, false, true, false), TENTH));
    assert_eq!(fits.angle, i64::MAX);
    let mut low = CarMovement { angle: i64::MIN, ..car_at(-100) };
    assert!(!low.checked_update(&holding(false, false, true, false), TENTH));
    assert_eq!(low.angle, i64::MIN);
}

#[test]
fn next_angle_is_told_beforehand() {
    let dir = holding(true, false, false, true);
    let mut car = CarMovement { angle: 1_000, ..car_at(50) };
    let told = car.checked_next_angle(&dir, 16_667);
    assert_eq!(told, Some(1_000 - 2_800 * 16_667));
    let before = car;
    assert_eq!(car.checked_next_angle(&dir, 16_667), told);
    assert_eq!(car, before);
    car.update(&dir, 16_667);
    assert_eq!(Some(car.angle), told);
}
