//! What holds of every frame whatever the tuning: latched controls, the
//! speed limits, coasting to rest, the steering deadzone, mirrored steering
//! in reverse, frames of no length, and how far a pose can move.

use vstd::prelude::*;
use crate::car::{CarDirection, CarMovement, KeyEdges};
use crate::pose::{Heading, Pose};
use crate::units::{magnitude, nanos, toward_zero};

verus! {

impl CarMovement {
    /// The car after `frames` frames of `dt` microseconds with no control
    /// held.
    pub open spec fn coasted(self, dt: u32, frames: nat) -> CarMovement
        decreases frames,
    {
        if frames == 0 {
            self
        } else {
            self.updated(CarDirection::idle(), dt).coasted(dt, (frames - 1) as nat)
        }
    }
}

/// A frame in which the keyboard reports nothing leaves every control as it
/// was; otherwise a control is held after the frame exactly if it was not
/// released and was pressed or already held.
pub proof fn lemma_controls_latch(dir: CarDirection, keys: KeyEdges)
    ensures
        !keys.forward.pressed && !keys.forward.released ==> dir.sampled(keys).forward
            == dir.forward,
        !keys.reverse.pressed && !keys.reverse.released ==> dir.sampled(keys).reverse
            == dir.reverse,
        !keys.left.pressed && !keys.left.released ==> dir.sampled(keys).left == dir.left,
        !keys.right.pressed && !keys.right.released ==> dir.sampled(keys).right == dir.right,
        keys.forward.released ==> !dir.sampled(keys).forward,
        keys.reverse.released ==> !dir.sampled(keys).reverse,
        keys.left.released ==> !dir.sampled(keys).left,
        keys.right.released ==> !dir.sampled(keys).right,
        keys.forward.pressed && !keys.forward.released ==> dir.sampled(keys).forward,
        keys.reverse.pressed && !keys.reverse.released ==> dir.sampled(keys).reverse,
        keys.left.pressed && !keys.left.released ==> dir.sampled(keys).left,
        keys.right.pressed && !keys.right.released ==> dir.sampled(keys).right,
{
}

/// Opposed controls cancel: with both throttles held the speed changes as
/// with neither, and with both steering controls held the heading stays.
pub proof fn lemma_opposed_controls_cancel(car: CarMovement, dir: CarDirection, dt: u32)
    ensures
        dir.forward && dir.reverse ==> car.next_speed(dir, dt) == car.next_speed(
            CarDirection { forward: false, reverse: false, ..dir },
            dt,
        ),
        dir.left && dir.right ==> car.next_angle(dir, dt) == car.angle,
{
}

/// After a frame the speed lies within the limits, whatever it was before,
/// whatever is held and however long the frame.
pub proof fn lemma_update_keeps_limits(car: CarMovement, dir: CarDirection, dt: u32)
    ensures
        -car.top_reverse() <= car.next_speed(dir, dt) <= car.top_speed(),
        car.updated(dir, dt).speed == car.next_speed(dir, dt),
        car.updated(dir, dt).within_limits(),
{
    lemma_drag_is_short_of_rolling(car, car.limited(car.throttled(dir, dt)), dt);
}

/// Friction never pushes a car past rest: a rolling car is faster than one
/// frame's drag.
pub proof fn lemma_drag_is_short_of_rolling(car: CarMovement, v: int, dt: u32)
    ensures
        0 <= car.drag(dt),
        car.rolls(v, dt) ==> car.drag(dt) < magnitude(v),
        v >= 0 ==> 0 <= car.braked(v, dt) <= v,
        v <= 0 ==> v <= car.braked(v, dt) <= 0,
{
    let drag = car.drag(dt);
    let band = 1_000 + car.hysteresis;
    assert(0 <= drag) by (nonlinear_arith)
        requires
            drag == car.friction * dt,
    ;
    assert(drag * band >= drag * 1_000) by (nonlinear_arith)
        requires
            0 <= drag,
            1_000 <= band,
    ;
}

/// With no control held, a frame brings the speed no farther from rest and
/// never across it, and leaves the heading alone.
pub proof fn lemma_coasting_decays(car: CarMovement, dt: u32)
    ensures
        car.speed >= 0 ==> 0 <= car.updated(CarDirection::idle(), dt).speed <= car.speed,
        car.speed <= 0 ==> car.speed <= car.updated(CarDirection::idle(), dt).speed <= 0,
        car.updated(CarDirection::idle(), dt).angle == car.angle,
{
    let capped = car.limited(car.speed as int);
    lemma_drag_is_short_of_rolling(car, capped, dt);
}

/// With no control held, friction at work and a frame of some length, a
/// moving car ends the frame at rest or slower by at least one frame's drag.
pub proof fn lemma_coasting_slows(car: CarMovement, dt: u32)
    requires
        car.friction > 0,
        dt > 0,
    ensures
        car.drag(dt) > 0,
        car.updated(CarDirection::idle(), dt).speed == 0 || magnitude(
            car.updated(CarDirection::idle(), dt).speed as int,
        ) <= magnitude(car.speed as int) - car.drag(dt),
{
    let capped = car.limited(car.speed as int);
    lemma_drag_is_short_of_rolling(car, capped, dt);
    assert(car.drag(dt) > 0) by (nonlinear_arith)
        requires
            car.drag(dt) == car.friction * dt,
            car.friction > 0,
            dt > 0,
    ;
}

/// With no control held, every further frame finds the car no faster than
/// the one before and on the same side of rest.
pub proof fn lemma_coasting_is_monotone(car: CarMovement, dt: u32, frames: nat)
    ensures
        car.speed >= 0 ==> 0 <= car.coasted(dt, frames + 1).speed <= car.coasted(dt, frames).speed
            <= car.speed,
        car.speed <= 0 ==> car.speed <= car.coasted(dt, frames).speed <= car.coasted(
            dt,
            frames + 1,
        ).speed <= 0,
    decreases frames,
{
    let next = car.updated(CarDirection::idle(), dt);
    lemma_coasting_decays(car, dt);
    if frames == 0 {
        assert(car.coasted(dt, 1) == next.coasted(dt, 0));
    } else {
        lemma_coasting_is_monotone(next, dt, (frames - 1) as nat);
        assert(car.coasted(dt, frames + 1) == next.coasted(dt, frames));
    }
}

/// With no control held, friction at work and frames of some length, the car
/// is at rest once the frames' drag adds up to its speed, and stays there.
pub proof fn lemma_coasting_stops(car: CarMovement, dt: u32, frames: nat)
    requires
        car.friction > 0,
        dt > 0,
        frames * car.drag(dt) >= magnitude(car.speed as int),
    ensures
        car.coasted(dt, frames).speed == 0,
    decreases frames,
{
    let next = car.updated(CarDirection::idle(), dt);
    lemma_coasting_decays(car, dt);
    lemma_coasting_slows(car, dt);
    if frames == 0 {
        assert(frames * car.drag(dt) == 0) by (nonlinear_arith)
            requires
                frames == 0,
        ;
    } else {
        assert(next.drag(dt) == car.drag(dt));
        assert((frames - 1) * car.drag(dt) == frames * car.drag(dt) - car.drag(dt))
            by (nonlinear_arith);
        lemma_coasting_stops(next, dt, (frames - 1) as nat);
    }
}

/// A car whose throttled speed lies inside the deadzone keeps its heading,
/// whichever steering controls are held.
pub proof fn lemma_deadzone_keeps_heading(car: CarMovement, dir: CarDirection, dt: u32)
    requires
        magnitude(car.throttled(dir, dt)) <= nanos(car.deadzone as int),
    ensures
        car.next_angle(dir, dt) == car.angle,
        car.updated(dir, dt).angle == car.angle,
{
}

/// A car inside the deadzone whose throttles are both held or both free
/// keeps its heading, whichever steering controls are held.
pub proof fn lemma_slow_car_keeps_heading(car: CarMovement, dir: CarDirection, dt: u32)
    requires
        magnitude(car.speed as int) <= nanos(car.deadzone as int),
        dir.forward == dir.reverse,
    ensures
        car.updated(dir, dt).angle == car.angle,
{
}

/// Steering is mirrored in reverse: of two cars with the same turn rate, one
/// driven forward and one backward, both out of their deadzones, the same
/// held controls turn one exactly as far as the other, the opposite way.
/// Left alone turns the forward car toward greater headings.
pub proof fn lemma_reverse_mirrors_steering(
    ahead: CarMovement,
    astern: CarMovement,
    dir: CarDirection,
    dt: u32,
)
    requires
        ahead.turn_rate == astern.turn_rate,
        ahead.throttled(dir, dt) > 0,
        astern.throttled(dir, dt) < 0,
        ahead.steers(ahead.throttled(dir, dt)),
        astern.steers(astern.throttled(dir, dt)),
    ensures
        ahead.steering(dir, dt) == -astern.steering(dir, dt),
        dir.left && !dir.right ==> ahead.steering(dir, dt) == ahead.swing(dt) && astern.steering(
            dir,
            dt,
        ) == -ahead.swing(dt),
        dir.right && !dir.left ==> ahead.steering(dir, dt) == -ahead.swing(dt) && astern.steering(
            dir,
            dt,
        ) == ahead.swing(dt),
        ahead.swing(dt) >= 0,
{
    assert(ahead.swing(dt) >= 0) by (nonlinear_arith)
        requires
            ahead.swing(dt) == ahead.turn_rate * dt,
    ;
}

/// A frame of no length changes nothing of a car within its limits,
/// whatever is held.
pub proof fn lemma_empty_frame_changes_nothing(car: CarMovement, dir: CarDirection)
    requires
        car.within_limits(),
    ensures
        car.updated(dir, 0) == car,
{
    assert(car.thrust(0) == 0 && car.swing(0) == 0 && car.drag(0) == 0) by (nonlinear_arith)
        requires
            car.thrust(0) == car.acceleration * 0,
            car.swing(0) == car.turn_rate * 0,
            car.drag(0) == car.friction * 0,
    ;
    assert(car.drag(0) * (1_000 + car.hysteresis) == 0) by (nonlinear_arith)
        requires
            car.drag(0) == 0,
    ;
}

/// Any number of frames of no length with no control held change nothing of
/// a car within its limits.
pub proof fn lemma_empty_frames_change_nothing(car: CarMovement, frames: nat)
    requires
        car.within_limits(),
    ensures
        car.coasted(0, frames) == car,
    decreases frames,
{
    if frames > 0 {
        lemma_empty_frame_changes_nothing(car, CarDirection::idle());
        lemma_empty_frames_change_nothing(car, (frames - 1) as nat);
    }
}

/// Along either axis a car covers no more than its speed over the frame
/// allows, whatever the heading, and a heading mirrored covers the same
/// distance the other way.
pub proof fn lemma_travel_is_bounded(car: CarMovement, part: i32, dt: u32)
    requires
        -1_000_000_000 <= part <= 1_000_000_000,
    ensures
        magnitude(car.travel(part, dt)) <= magnitude(car.speed as int) * dt / 1_000_000,
        car.travel((-part) as i32, dt) == -car.travel(part, dt),
{
    let pace = magnitude(car.speed as int);
    let lean = magnitude(part as int);
    let span = pace * dt;
    assert(magnitude(part * car.speed * dt) == lean * span && (-part) * car.speed * dt == -(part
        * car.speed * dt)) by (nonlinear_arith)
        requires
            pace == magnitude(car.speed as int),
            lean == magnitude(part as int),
            span == pace * dt,
    ;
    assert(0 <= lean * span <= 1_000_000_000 * span) by (nonlinear_arith)
        requires
            0 <= lean <= 1_000_000_000,
            0 <= span,
    ;
}

/// At heading zero a car moves along positive `y` alone, by its speed over
/// the frame.
pub proof fn lemma_heading_zero_moves_along_y(car: CarMovement, pose: Pose, dt: u32)
    requires
        car.reaches(pose, Heading { sin: 0, cos: 1_000_000_000 }, dt),
    ensures
        car.applied(pose, Heading { sin: 0, cos: 1_000_000_000 }, dt).x == pose.x,
        car.applied(pose, Heading { sin: 0, cos: 1_000_000_000 }, dt).y == pose.y + toward_zero(
            car.speed * dt,
            1_000_000,
        ),
        car.applied(pose, Heading { sin: 0, cos: 1_000_000_000 }, dt).rotation == car.angle,
{
    let span = car.speed * dt;
    assert(0 * car.speed * dt == 0 && 1_000_000_000 * car.speed * dt == 1_000_000_000 * span)
        by (nonlinear_arith)
        requires
            span == car.speed * dt,
    ;
}

} // verus!
