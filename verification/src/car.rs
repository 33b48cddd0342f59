use vstd::prelude::*;
use crate::pose::{Heading, Pose};
use crate::units::{magnitude, nanos, to_nanos, toward_zero};

verus! {

/// Turn rate of a freshly spawned car, in thousandths of a radian per second.
pub const TURN_SPEED: u32 = 2_800;

/// Friction of a freshly spawned car, in thousandths of a unit per second
/// squared.
pub const FRICTION: u32 = 250_000;

/// Acceleration of a freshly spawned car, in thousandths of a unit per second
/// squared.
pub const ACCELERATION: u32 = 1_200_000;

/// Top forward speed of a freshly spawned car, in thousandths of a unit per
/// second.
pub const MAX_SPEED: u32 = 500_000;

/// Speed below which steering is ignored, in thousandths of a unit per
/// second.
pub const DEADZONE: u32 = 100;

/// Width of the band above one frame's friction inside which the car stops
/// dead, in thousandths of that friction.
pub const HYSTERESIS: u32 = 100;

/// Which of the four controls are held.
#[derive(Clone, Copy, Debug, PartialEq, Eq, Structural)]
pub struct CarDirection {
    pub forward: bool,
    pub reverse: bool,
    pub left: bool,
    pub right: bool,
}

/// What the keyboard reported of one control during a frame.
#[derive(Clone, Copy, Debug, PartialEq, Eq, Structural)]
pub struct KeyEdge {
    pub pressed: bool,
    pub released: bool,
}

/// What the keyboard reported of the four controls during a frame.
#[derive(Clone, Copy, Debug, PartialEq, Eq, Structural)]
pub struct KeyEdges {
    pub forward: KeyEdge,
    pub reverse: KeyEdge,
    pub left: KeyEdge,
    pub right: KeyEdge,
}

impl KeyEdge {
    /// Whether a control that was `held` before the frame is held after it:
    /// a press sets it, a release clears it, and a release in the same frame
    /// as a press wins.
    pub open spec fn latched(self, held: bool) -> bool {
        !self.released && (self.pressed || held)
    }

    /// The control's state after the frame, given its state before.
    pub fn latch(&self, held: bool) -> (now: bool)
        ensures
            now == self.latched(held),
    {
        let mut now: bool = held;
        if self.pressed {
            now = true;
        }
        if self.released {
            now = false;
        }
        now
    }
}

impl CarDirection {
    /// The controls after a frame in which the keyboard reported `keys`.
    pub open spec fn sampled(self, keys: KeyEdges) -> CarDirection {
        CarDirection {
            forward: keys.forward.latched(self.forward),
            reverse: keys.reverse.latched(self.reverse),
            left: keys.left.latched(self.left),
            right: keys.right.latched(self.right),
        }
    }

    /// No control held.
    pub open spec fn idle() -> CarDirection {
        CarDirection { forward: false, reverse: false, left: false, right: false }
    }

    /// Takes in one frame of keyboard reports. Each control is latched on
    /// its own; a frame without reports changes nothing.
    pub fn sample(&mut self, keys: &KeyEdges)
        ensures
            *final(self) == old(self).sampled(*keys),
    {
        self.forward = keys.forward.latch(self.forward);
        self.reverse = keys.reverse.latch(self.reverse);
        self.left = keys.left.latch(self.left);
        self.right = keys.right.latch(self.right);
    }
}

impl Default for CarDirection {
    /// No control held.
    fn default() -> (dir: Self)
        ensures
            dir == CarDirection::idle(),
    {
        CarDirection { forward: false, reverse: false, left: false, right: false }
    }
}

/// Speed and heading of one car, with the constants that tune it.
///
/// `speed` is in billionths of a unit per second, positive forward; `angle`
/// is in billionths of a radian. The tuning fields are in thousandths.
#[derive(Clone, Copy, Debug, PartialEq, Eq, Structural)]
pub struct CarMovement {
    pub speed: i64,
    pub acceleration: u32,
    pub max_speed: u32,
    pub angle: i64,
    pub turn_rate: u32,
    pub friction: u32,
    pub deadzone: u32,
    pub hysteresis: u32,
}

impl CarMovement {
    /// A car at rest, heading zero, with the stock tuning.
    pub open spec fn stock() -> CarMovement {
        CarMovement {
            speed: 0,
            acceleration: ACCELERATION,
            max_speed: MAX_SPEED,
            angle: 0,
            turn_rate: TURN_SPEED,
            friction: FRICTION,
            deadzone: DEADZONE,
            hysteresis: HYSTERESIS,
        }
    }

    /// Speed gained in a frame of `dt` microseconds by one held throttle.
    pub open spec fn thrust(self, dt: u32) -> int {
        self.acceleration * dt
    }

    /// Speed after the throttles have acted: forward adds one thrust,
    /// reverse takes one away, and both together cancel.
    pub open spec fn throttled(self, dir: CarDirection, dt: u32) -> int {
        self.speed + (if dir.forward {
            self.thrust(dt)
        } else {
            0
        }) - (if dir.reverse {
            self.thrust(dt)
        } else {
            0
        })
    }

    /// Heading swept in a frame of `dt` microseconds by one held steering
    /// control.
    pub open spec fn swing(self, dt: u32) -> int {
        self.turn_rate * dt
    }

    /// Whether a car moving at `v` responds to steering.
    pub open spec fn steers(self, v: int) -> bool {
        magnitude(v) > nanos(self.deadzone as int)
    }

    /// `+1` for a car moving forward at `v`, `-1` otherwise: steering is
    /// mirrored in reverse.
    pub open spec fn flip(v: int) -> int {
        if v > 0 {
            1
        } else {
            -1
        }
    }

    /// Change of heading in one frame. Steering sees the speed the throttles
    /// have just produced, before it is limited.
    pub open spec fn steering(self, dir: CarDirection, dt: u32) -> int {
        let v = self.throttled(dir, dt);
        if self.steers(v) {
            (if dir.left {
                self.swing(dt) * Self::flip(v)
            } else {
                0
            }) - (if dir.right {
                self.swing(dt) * Self::flip(v)
            } else {
                0
            })
        } else {
            0
        }
    }

    /// Fastest forward speed.
    pub open spec fn top_speed(self) -> int {
        nanos(self.max_speed as int)
    }

    /// Fastest reverse speed, as a magnitude: half the forward one.
    pub open spec fn top_reverse(self) -> int {
        nanos(self.max_speed as int) / 2
    }

    /// `v` brought into the range from `-top_reverse` to `top_speed`.
    pub open spec fn limited(self, v: int) -> int {
        if v < -self.top_reverse() {
            -self.top_reverse()
        } else if v > self.top_speed() {
            self.top_speed()
        } else {
            v
        }
    }

    /// Speed that friction takes away in a frame of `dt` microseconds.
    pub open spec fn drag(self, dt: u32) -> int {
        self.friction * dt
    }

    /// Whether a car moving at `v` is fast enough to keep rolling through
    /// this frame's friction: its speed must exceed the drag by more than the
    /// hysteresis band.
    pub open spec fn rolls(self, v: int, dt: u32) -> bool {
        magnitude(v) * 1_000 > self.drag(dt) * (1_000 + self.hysteresis)
    }

    /// `v` after friction: one drag closer to rest, or at rest.
    pub open spec fn braked(self, v: int, dt: u32) -> int {
        if self.rolls(v, dt) {
            if v > 0 {
                v - self.drag(dt)
            } else {
                v + self.drag(dt)
            }
        } else {
            0
        }
    }

    /// Speed after one frame.
    pub open spec fn next_speed(self, dir: CarDirection, dt: u32) -> int {
        self.braked(self.limited(self.throttled(dir, dt)), dt)
    }

    /// Heading after one frame.
    pub open spec fn next_angle(self, dir: CarDirection, dt: u32) -> int {
        self.angle + self.steering(dir, dt)
    }

    /// Whether the heading after one frame is representable.
    pub open spec fn steerable(self, dir: CarDirection, dt: u32) -> bool {
        i64::MIN <= self.next_angle(dir, dt) <= i64::MAX
    }

    /// Whether the speed lies between the reverse and the forward limit.
    pub open spec fn within_limits(self) -> bool {
        -self.top_reverse() <= self.speed <= self.top_speed()
    }

    /// The car after one frame of `dt` microseconds with `dir` held.
    pub open spec fn updated(self, dir: CarDirection, dt: u32) -> CarMovement {
        CarMovement {
            speed: self.next_speed(dir, dt) as i64,
            angle: self.next_angle(dir, dt) as i64,
            ..self
        }
    }

    /// Advances speed and heading by one frame of `dt` microseconds.
    ///
    /// The throttles act first, then steering, then the speed limits, then
    /// friction. The heading after the frame must be representable; the speed
    /// always is.
    pub fn update(&mut self, dir: &CarDirection, dt: u32)
        requires
            old(self).steerable(*dir, dt),
        ensures
            *final(self) == old(self).updated(*dir, dt),
            final(self).speed == old(self).next_speed(*dir, dt),
            final(self).angle == old(self).next_angle(*dir, dt),
            final(self).within_limits(),
    {
        let driven: i128 = self.throttle(dir, dt);
        let angle: i128 = self.steer(dir, driven, dt);
        let capped: i64 = self.limit(driven);
        let speed: i64 = self.brake(capped, dt);
        self.speed = speed;
        self.angle = angle as i64;
    }

    /// As `update`, for every car and frame: where the heading after the
    /// frame is not representable, the car is left as it was and the result
    /// is `false`.
    pub fn checked_update(&mut self, dir: &CarDirection, dt: u32) -> (done: bool)
        ensures
            done == old(self).steerable(*dir, dt),
            done ==> *final(self) == old(self).updated(*dir, dt),
            done ==> final(self).within_limits(),
            !done ==> *final(self) == *old(self),
    {
        let driven: i128 = self.throttle(dir, dt);
        let angle: i128 = self.steer(dir, driven, dt);
        if angle < i64::MIN as i128 || angle > i64::MAX as i128 {
            return false;
        }
        let capped: i64 = self.limit(driven);
        let speed: i64 = self.brake(capped, dt);
        self.speed = speed;
        self.angle = angle as i64;
        true
    }

    /// The heading the car will have after a frame of `dt` microseconds with
    /// `dir` held, or `None` where it is not representable. The car itself is
    /// not touched: this is for whoever has to know the heading, and its sine
    /// and cosine, before the frame is run.
    pub fn checked_next_angle(&self, dir: &CarDirection, dt: u32) -> (angle: Option<i64>)
        ensures
            angle.is_some() == self.steerable(*dir, dt),
            angle matches Some(a) ==> a == self.next_angle(*dir, dt),
    {
        let driven: i128 = self.throttle(dir, dt);
        let angle: i128 = self.steer(dir, driven, dt);
        if angle < i64::MIN as i128 || angle > i64::MAX as i128 {
            None
        } else {
            Some(angle as i64)
        }
    }

    /// Distance covered in `dt` microseconds along an axis on which the
    /// heading has the component `part`, rounded toward zero.
    pub open spec fn travel(self, part: i32, dt: u32) -> int {
        toward_zero(part * self.speed * dt, 1_000_000_000_000_000)
    }

    /// `pose` after the car has moved for `dt` microseconds along `heading`.
    /// Heading zero points along positive `y`, and a positive heading turns
    /// toward negative `x`.
    pub open spec fn applied(self, pose: Pose, heading: Heading, dt: u32) -> Pose {
        Pose {
            x: (pose.x - self.travel(heading.sin, dt)) as i64,
            y: (pose.y + self.travel(heading.cos, dt)) as i64,
            rotation: self.angle,
        }
    }

    /// Whether `pose` stays representable when the car moves for `dt`
    /// microseconds along `heading`.
    pub open spec fn reaches(self, pose: Pose, heading: Heading, dt: u32) -> bool {
        &&& i64::MIN <= pose.x - self.travel(heading.sin, dt) <= i64::MAX
        &&& i64::MIN <= pose.y + self.travel(heading.cos, dt) <= i64::MAX
    }

    /// Moves `pose` by the distance the car covers in `dt` microseconds and
    /// turns it to the car's heading.
    ///
    /// `heading` holds the sine and cosine of `self.angle`. The new position
    /// must be representable.
    pub fn apply(&self, pose: &mut Pose, heading: &Heading, dt: u32)
        requires
            self.reaches(*old(pose), *heading, dt),
        ensures
            *final(pose) == self.applied(*old(pose), *heading, dt),
            final(pose).x == old(pose).x - self.travel(heading.sin, dt),
            final(pose).y == old(pose).y + self.travel(heading.cos, dt),
            final(pose).rotation == self.angle,
    {
        let x: i128 = pose.x as i128 - self.cover(heading.sin, dt);
        let y: i128 = pose.y as i128 + self.cover(heading.cos, dt);
        pose.x = x as i64;
        pose.y = y as i64;
        pose.rotation = self.angle;
    }

    /// As `apply`, for every pose and frame: where the new position is not
    /// representable, `pose` is left as it was and the result is `false`.
    pub fn checked_apply(&self, pose: &mut Pose, heading: &Heading, dt: u32) -> (done: bool)
        ensures
            done == self.reaches(*old(pose), *heading, dt),
            done ==> *final(pose) == self.applied(*old(pose), *heading, dt),
            !done ==> *final(pose) == *old(pose),
    {
        let x: i128 = pose.x as i128 - self.cover(heading.sin, dt);
        let y: i128 = pose.y as i128 + self.cover(heading.cos, dt);
        if x < i64::MIN as i128 || x > i64::MAX as i128 || y < i64::MIN as i128 || y
            > i64::MAX as i128 {
            return false;
        }
        pose.x = x as i64;
        pose.y = y as i64;
        pose.rotation = self.angle;
        true
    }

    /// The distance of `travel`, computed.
    fn cover(&self, part: i32, dt: u32) -> (distance: i128)
        ensures
            distance == self.travel(part, dt),
            -0x8000_0000_0000_0000_0000 <= distance <= 0x8000_0000_0000_0000_0000,
    {
        assert(-0x4000_0000_0000_0000_0000_0000 <= part * self.speed
            <= 0x4000_0000_0000_0000_0000_0000) by (nonlinear_arith)
            requires
                -0x8000_0000 <= part <= 0x8000_0000,
                -0x8000_0000_0000_0000 <= self.speed <= 0x8000_0000_0000_0000,
        ;
        let reach: i128 = part as i128 * self.speed as i128;
        assert(-0x4000_0000_0000_0000_0000_0000_0000_0000 <= reach * dt
            <= 0x4000_0000_0000_0000_0000_0000_0000_0000) by (nonlinear_arith)
            requires
                -0x4000_0000_0000_0000_0000_0000 <= reach <= 0x4000_0000_0000_0000_0000_0000,
                0 <= dt <= 0x1_0000_0000,
        ;
        let moment: i128 = reach * dt as i128;
        let scale: u128 = 1_000_000_000_000_000;
        if moment >= 0 {
            (moment as u128 / scale) as i128
        } else {
            -(((-moment) as u128 / scale) as i128)
        }
    }

    /// The speed once the held throttles have acted on it.
    fn throttle(&self, dir: &CarDirection, dt: u32) -> (driven: i128)
        ensures
            driven == self.throttled(*dir, dt),
            self.speed - 0xFFFF_FFFE_0000_0001 <= driven <= self.speed + 0xFFFF_FFFE_0000_0001,
    {
        let thrust: i128 = accrued(self.acceleration, dt);
        let mut speed: i128 = self.speed as i128;
        if dir.forward {
            speed = speed + thrust;
        }
        if dir.reverse {
            speed = speed - thrust;
        }
        speed
    }

    /// The heading once the held steering controls have acted on it, for a
    /// car that the throttles have brought to `driven`.
    fn steer(&self, dir: &CarDirection, driven: i128, dt: u32) -> (angle: i128)
        requires
            driven == self.throttled(*dir, dt),
            i128::MIN < driven,
        ensures
            angle == self.next_angle(*dir, dt),
    {
        let swing: i128 = accrued(self.turn_rate, dt);
        let mut angle: i128 = self.angle as i128;
        let pace: i128 = if driven < 0 { -driven } else { driven };
        if pace > to_nanos(self.deadzone) as i128 {
            let turn: i128 = if driven > 0 { swing } else { -swing };
            if dir.left {
                angle = angle + turn;
            }
            if dir.right {
                angle = angle - turn;
            }
        }
        angle
    }

    /// `driven` brought inside the speed limits.
    fn limit(&self, driven: i128) -> (capped: i64)
        ensures
            capped == self.limited(driven as int),
            -self.top_reverse() <= capped <= self.top_speed(),
    {
        let top: i64 = to_nanos(self.max_speed);
        let floor: i64 = -(top / 2);
        if driven < floor as i128 {
            floor
        } else if driven > top as i128 {
            top
        } else {
            driven as i64
        }
    }

    /// `capped` after one frame of friction.
    fn brake(&self, capped: i64, dt: u32) -> (speed: i64)
        ensures
            speed == self.braked(capped as int, dt),
            capped >= 0 ==> 0 <= speed <= capped,
            capped <= 0 ==> capped <= speed <= 0,
    {
        let drag: i128 = accrued(self.friction, dt);
        let band: i128 = 1_000 + self.hysteresis as i128;
        let pace: i128 = if capped < 0 { -(capped as i128) } else { capped as i128 };
        assert(drag * band <= 0xFFFF_FFFE_0000_0001 * 0x1_0000_03E7) by (nonlinear_arith)
            requires
                0 <= drag <= 0xFFFF_FFFE_0000_0001,
                0 <= band <= 0x1_0000_03E7,
        ;
        assert(drag * band >= drag * 1_000) by (nonlinear_arith)
            requires
                0 <= drag,
                1_000 <= band,
        ;
        if pace * 1_000 > drag * band {
            if capped > 0 {
                (capped as i128 - drag) as i64
            } else {
                (capped as i128 + drag) as i64
            }
        } else {
            0
        }
    }
}

impl Default for CarMovement {
    /// A car at rest, heading zero, with the stock tuning.
    fn default() -> (car: Self)
        ensures
            car == CarMovement::stock(),
            car.within_limits(),
    {
        CarMovement {
            speed: 0,
            acceleration: ACCELERATION,
            max_speed: MAX_SPEED,
            angle: 0,
            turn_rate: TURN_SPEED,
            friction: FRICTION,
            deadzone: DEADZONE,
            hysteresis: HYSTERESIS,
        }
    }
}

/// The amount of state that `rate`, in thousandths per second, builds up over
/// `dt` microseconds, in billionths.
fn accrued(rate: u32, dt: u32) -> (amount: i128)
    ensures
        amount == rate * dt,
        0 <= amount <= 0xFFFF_FFFE_0000_0001,
{
    assert(0 <= rate * dt <= 0xFFFF_FFFF * 0xFFFF_FFFF) by (nonlinear_arith)
        requires
            0 <= rate <= 0xFFFF_FFFF,
            0 <= dt <= 0xFFFF_FFFF,
    ;
    rate as i128 * dt as i128
}

/// One car: the controls held, its motion, and where it is.
#[derive(Clone, Copy, Debug, PartialEq, Eq, Structural)]
pub struct Car {
    pub direction: CarDirection,
    pub movement: CarMovement,
    pub pose: Pose,
}

impl Car {
    /// Whether a frame of `dt` microseconds can be run: the heading and the
    /// position after it are representable.
    pub open spec fn can_step(self, dt: u32, heading: Heading) -> bool {
        &&& self.movement.steerable(self.direction, dt)
        &&& self.movement.updated(self.direction, dt).reaches(self.pose, heading, dt)
    }

    /// The car after a frame of `dt` microseconds: speed and heading are
    /// advanced first, and the pose then moves at the new speed along
    /// `heading`.
    pub open spec fn stepped(self, dt: u32, heading: Heading) -> Car {
        let movement = self.movement.updated(self.direction, dt);
        Car { direction: self.direction, movement, pose: movement.applied(self.pose, heading, dt) }
    }

    /// Runs one frame of `dt` microseconds, whole or not at all.
    ///
    /// `heading` holds the sine and cosine of the heading that the frame
    /// ends with, which `checked_next_angle` tells beforehand. Where the
    /// frame cannot be run the car is left as it was and the result is
    /// `false`: a car is never seen with its motion advanced and its pose
    /// not.
    pub fn step(&mut self, dt: u32, heading: &Heading) -> (done: bool)
        ensures
            done == old(self).can_step(dt, *heading),
            done ==> *final(self) == old(self).stepped(dt, *heading),
            done ==> final(self).movement.within_limits(),
            !done ==> *final(self) == *old(self),
    {
        let mut movement: CarMovement = self.movement;
        if !movement.checked_update(&self.direction, dt) {
            return false;
        }
        let mut pose: Pose = self.pose;
        if !movement.checked_apply(&mut pose, heading, dt) {
            return false;
        }
        self.movement = movement;
        self.pose = pose;
        true
    }
}

impl Default for Car {
    /// A car at rest at the origin with nothing held and the stock tuning.
    fn default() -> (car: Self)
        ensures
            car.direction == CarDirection::idle(),
            car.movement == CarMovement::stock(),
            car.pose == (Pose { x: 0, y: 0, rotation: 0 }),
    {
        Car {
            direction: CarDirection::default(),
            movement: CarMovement::default(),
            pose: Pose::default(),
        }
    }
}

} // verus!
