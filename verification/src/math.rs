//! Interpolation utilities: critically damped smoothing, clamped stepping
//! and angle-aware interpolation, for scalars and vectors.
//!
//! The spec functions of this module work on integers that count millionths,
//! the views of `Fixed`; each executable function returns what its spec
//! function gives for the views of its arguments.

use vstd::prelude::*;
use crate::fixed::{
    floor_sqrt, in_range, is_floor_sqrt, isqrt, lemma_floor_sqrt_exists, lemma_product_bound,
    lemma_quot_bounds, lemma_quot_scaled_bound, limited, magnitude, quot, quot_exec, saturate,
    Fixed, LIMIT, SCALE,
};

verus! {

/// Shortest smoothing time the damper works with, in millionths of a second.
pub const MIN_SMOOTH_TIME: i64 = 100;

/// Largest damping rate, reached at the shortest smoothing time.
pub const MAX_RATE: i64 = 20_000_000_000;

/// Tick phase from which the decay factor is zero at this resolution.
pub const PHASE_CAP: i64 = 1_000_000_000;

/// Half a turn in millionths of a radian.
pub const HALF_TURN: i64 = 3_141_593;

/// A full turn in millionths of a radian.
pub const FULL_TURN: i64 = 6_283_185;

/// A position on a vertical cylinder around an origin.
#[derive(Clone, Copy, Debug, PartialEq, Eq, Structural)]
pub struct CylinderCoordinates3d {
    /// Distance to the axis.
    pub distance: Fixed,
    /// Rotation about the axis, in radians.
    pub rotation: Fixed,
    /// Height along the axis.
    pub height: Fixed,
}

/// A vector on the horizontal plane.
#[derive(Clone, Copy, Debug, PartialEq, Eq, Structural)]
pub struct FixedVec2 {
    pub x: Fixed,
    pub y: Fixed,
}

/// A vector in space.
#[derive(Clone, Copy, Debug, PartialEq, Eq, Structural)]
pub struct FixedVec3 {
    pub x: Fixed,
    pub y: Fixed,
    pub z: Fixed,
}

/// The memory a damped quantity keeps between ticks.
#[derive(Clone, Copy, Debug, PartialEq, Eq, Structural)]
pub struct SmoothDampTransitionVariables<T> {
    /// Rate of change reached at the end of the last tick.
    pub velocity: T,
}

/// The memories of the three damped cylinder coordinates.
#[derive(Clone, Copy, Debug, PartialEq, Eq, Structural)]
pub struct CylinderCoordinates3dSmoothDampTransitionVariables {
    pub distance: SmoothDampTransitionVariables<Fixed>,
    pub rotation: SmoothDampTransitionVariables<Fixed>,
    pub height: SmoothDampTransitionVariables<Fixed>,
}

impl CylinderCoordinates3d {
    /// The coordinates with the given distance, rotation and height.
    pub fn new(distance: Fixed, rotation: Fixed, height: Fixed) -> (r: CylinderCoordinates3d)
        ensures
            r == (CylinderCoordinates3d { distance, rotation, height }),
    {
        CylinderCoordinates3d { distance, rotation, height }
    }
}

impl FixedVec2 {
    /// The components in millionths.
    pub open spec fn view(self) -> (int, int) {
        (self.x@, self.y@)
    }

    /// The vector with the given components.
    pub fn new(x: Fixed, y: Fixed) -> (r: FixedVec2)
        ensures
            r == (FixedVec2 { x, y }),
    {
        FixedVec2 { x, y }
    }

    /// The zero vector.
    pub fn zero() -> (r: FixedVec2)
        ensures
            r@ == (0int, 0int),
    {
        FixedVec2 { x: Fixed::zero(), y: Fixed::zero() }
    }
}

impl FixedVec3 {
    /// The components in millionths.
    pub open spec fn view(self) -> (int, int, int) {
        (self.x@, self.y@, self.z@)
    }

    /// The vector with the given components.
    pub fn new(x: Fixed, y: Fixed, z: Fixed) -> (r: FixedVec3)
        ensures
            r == (FixedVec3 { x, y, z }),
    {
        FixedVec3 { x, y, z }
    }

    /// The zero vector.
    pub fn zero() -> (r: FixedVec3)
        ensures
            r@ == (0int, 0int, 0int),
    {
        FixedVec3 { x: Fixed::zero(), y: Fixed::zero(), z: Fixed::zero() }
    }
}

/// Critically damped smoothing toward a target, one tick at a time.
pub trait SmoothDamp: Sized {
    /// Advances `self` toward `target` over `delta_time`, given the velocity
    /// left by the previous tick; returns the new value and the new velocity.
    fn smooth_damp(
        self,
        target: Self,
        current_velocity: Self,
        smooth_time: Fixed,
        max_speed: Option<Fixed>,
        delta_time: Fixed,
    ) -> (r: (Self, Self))
        requires
            delta_time@ >= 0,
            max_speed matches Some(limit) ==> limit@ >= 0,
    ;
}

/// Clamped stepping toward a target.
pub trait MoveTowards: Sized {
    /// Moves `self` toward `target` by at most `max_delta`.
    fn move_towards(self, target: Self, max_delta: Fixed) -> (r: Self);
}

/// Interpolation between angles by the shorter way round.
pub trait LerpAngle: Sized {
    /// The angle the fraction `s` of the way from `self` to `end`.
    fn lerp_angle(self, end: Self, s: Fixed) -> (r: Self);
}

/// The smoothing time the damper uses: never below `MIN_SMOOTH_TIME`.
pub open spec fn held_smooth_time(smooth_time: int) -> int {
    if smooth_time < MIN_SMOOTH_TIME {
        MIN_SMOOTH_TIME as int
    } else {
        smooth_time
    }
}

/// The damping rate: two over the smoothing time.
pub open spec fn damping_rate(smooth_time: int) -> int {
    2_000_000_000_000int / held_smooth_time(smooth_time)
}

/// The tick phase: damping rate times elapsed time.
pub open spec fn tick_phase(smooth_time: int, dt: int) -> int {
    damping_rate(smooth_time) * dt / 1_000_000
}

/// The denominator of the decay factor: `1 + x + 0.48 x^2 + 0.235 x^3`.
pub open spec fn decay_denominator(x: int) -> int {
    1_000_000 + x + 48 * (x * x) / 100_000_000 + 235 * (x * x * x) / 1_000_000_000_000_000
}

/// The decay factor of one tick: the reciprocal of `decay_denominator`.
pub open spec fn decay_factor(x: int) -> int {
    1_000_000_000_000int / decay_denominator(x)
}

/// The change and velocity carried over one tick along one axis.
pub open spec fn axis_carry(change: int, velocity: int, rate: int, dt: int) -> int {
    quot((velocity + quot(rate * change, 1_000_000)) * dt, 1_000_000)
}

/// The velocity along one axis after one tick.
pub open spec fn axis_velocity(change: int, velocity: int, rate: int, dt: int, decay: int) -> int {
    let carry = axis_carry(change, velocity, rate, dt);
    quot((velocity - quot(rate * carry, 1_000_000)) * decay, 1_000_000)
}

/// The offset from the goal along one axis after one tick.
pub open spec fn axis_offset(change: int, velocity: int, rate: int, dt: int, decay: int) -> int {
    quot((change + axis_carry(change, velocity, rate, dt)) * decay, 1_000_000)
}

/// The farthest the goal of one tick may lie from the current value.
pub open spec fn reach(max_speed: int, smooth_time: int) -> int {
    quot(max_speed * held_smooth_time(smooth_time), 1_000_000)
}

/// The speed limit of a damper in millionths, if it has one.
pub open spec fn speed_limit(max_speed: Option<Fixed>) -> Option<int> {
    match max_speed {
        Some(limit) => Some(limit@),
        None => None,
    }
}

/// One tick of the damper on a scalar: the new value and the new velocity.
///
/// The change still to make is limited to what the speed limit lets through,
/// carried forward by the critically damped spring, and, where the result
/// would pass the target, replaced by the target itself at rest.
pub open spec fn smooth_damp_scalar(
    current: int,
    target: int,
    velocity: int,
    smooth_time: int,
    max_speed: Option<int>,
    dt: int,
) -> (int, int) {
    let rate = damping_rate(smooth_time);
    let decay = decay_factor(tick_phase(smooth_time, dt));
    let change = match max_speed {
        Some(limit) => limited(
            current - target,
            -reach(limit, smooth_time),
            reach(limit, smooth_time),
        ),
        None => current - target,
    };
    let out = current - change + axis_offset(change, velocity, rate, dt, decay);
    if (target - current > 0) == (out > target) {
        (target, 0)
    } else {
        (saturate(out), saturate(axis_velocity(change, velocity, rate, dt, decay)))
    }
}

/// One component of a change cut down to length `reach`.
pub open spec fn shortened(component: int, length: int, reach: int) -> int
    recommends
        length > 0,
{
    quot(quot(component * 1_000_000, length) * reach, 1_000_000)
}

/// The squared length of a vector.
pub open spec fn squared_length(v: (int, int, int)) -> int {
    v.0 * v.0 + v.1 * v.1 + v.2 * v.2
}

/// The change a vector damper still has to make, cut down to what the speed
/// limit lets through.
pub open spec fn limited_change(
    current: (int, int, int),
    target: (int, int, int),
    smooth_time: int,
    max_speed: Option<int>,
) -> (int, int, int) {
    let full = (current.0 - target.0, current.1 - target.1, current.2 - target.2);
    match max_speed {
        Some(limit) => {
            let far = reach(limit, smooth_time);
            if squared_length(full) > far * far {
                let length = floor_sqrt(squared_length(full));
                (
                    shortened(full.0, length, far),
                    shortened(full.1, length, far),
                    shortened(full.2, length, far),
                )
            } else {
                full
            }
        },
        None => full,
    }
}

/// One tick of the damper on a vector: the new value and the new velocity.
///
/// Each component is carried forward as a scalar is; the speed limit applies
/// to the length of the change, and the result is replaced by the target at
/// rest where it has moved past the target as seen from the current value.
pub open spec fn smooth_damp_vector(
    current: (int, int, int),
    target: (int, int, int),
    velocity: (int, int, int),
    smooth_time: int,
    max_speed: Option<int>,
    dt: int,
) -> ((int, int, int), (int, int, int)) {
    let rate = damping_rate(smooth_time);
    let decay = decay_factor(tick_phase(smooth_time, dt));
    let change = limited_change(current, target, smooth_time, max_speed);
    let out = (
        current.0 - change.0 + axis_offset(change.0, velocity.0, rate, dt, decay),
        current.1 - change.1 + axis_offset(change.1, velocity.1, rate, dt, decay),
        current.2 - change.2 + axis_offset(change.2, velocity.2, rate, dt, decay),
    );
    if (target.0 - current.0) * (out.0 - target.0) + (target.1 - current.1) * (out.1 - target.1)
        + (target.2 - current.2) * (out.2 - target.2) > 0 {
        (target, (0, 0, 0))
    } else {
        (
            (saturate(out.0), saturate(out.1), saturate(out.2)),
            (
                saturate(axis_velocity(change.0, velocity.0, rate, dt, decay)),
                saturate(axis_velocity(change.1, velocity.1, rate, dt, decay)),
                saturate(axis_velocity(change.2, velocity.2, rate, dt, decay)),
            ),
        )
    }
}

/// A step from `current` toward `target` of at most `max_delta`: the target
/// itself when it is that near, else the value `max_delta` nearer to it.
pub open spec fn move_towards_scalar(current: int, target: int, max_delta: int) -> int {
    if magnitude(target - current) <= max_delta {
        target
    } else if target >= current {
        saturate(current + max_delta)
    } else {
        saturate(current - max_delta)
    }
}

/// A step on the plane from `current` toward `target` of length `max_delta`:
/// the target itself when it is that near.
pub open spec fn move_towards_planar(current: (int, int), target: (int, int), max_delta: int) -> (
    int,
    int,
) {
    let to = (target.0 - current.0, target.1 - current.1);
    let square = to.0 * to.0 + to.1 * to.1;
    if square == 0 || (max_delta >= 0 && square <= max_delta * max_delta) {
        target
    } else {
        let length = floor_sqrt(square);
        (
            saturate(current.0 + shortened(to.0, length, max_delta)),
            saturate(current.1 + shortened(to.1, length, max_delta)),
        )
    }
}

/// A step in space from `current` toward `target` of length `max_delta`: the
/// target itself when it is that near.
pub open spec fn move_towards_spatial(
    current: (int, int, int),
    target: (int, int, int),
    max_delta: int,
) -> (int, int, int) {
    let to = (target.0 - current.0, target.1 - current.1, target.2 - current.2);
    let square = squared_length(to);
    if square == 0 || (max_delta >= 0 && square <= max_delta * max_delta) {
        target
    } else {
        let length = floor_sqrt(square);
        (
            saturate(current.0 + shortened(to.0, length, max_delta)),
            saturate(current.1 + shortened(to.1, length, max_delta)),
            saturate(current.2 + shortened(to.2, length, max_delta)),
        )
    }
}

/// The turn from one angle to another by the shorter way round: the
/// difference of the two, less whole turns, between minus and plus half a
/// turn.
pub open spec fn shortest_turn(from: int, to: int) -> int {
    let around = (to - from) % (FULL_TURN as int);
    if around > HALF_TURN {
        around - FULL_TURN
    } else {
        around
    }
}

/// The angle the fraction `s` of the shorter way from `from` to `to`, with
/// `s` held between nought and one.
pub open spec fn lerp_angle_scalar(from: int, to: int, s: int) -> int {
    saturate(from + quot(shortest_turn(from, to) * limited(s, 0, SCALE as int), SCALE as int))
}

impl SmoothDamp for Fixed {
    fn smooth_damp(
        self,
        target: Fixed,
        current_velocity: Fixed,
        smooth_time: Fixed,
        max_speed: Option<Fixed>,
        delta_time: Fixed,
    ) -> (r: (Fixed, Fixed))
        ensures
            (r.0@, r.1@) == smooth_damp_scalar(
                self@,
                target@,
                current_velocity@,
                smooth_time@,
                speed_limit(max_speed),
                delta_time@,
            ),
    {
        let coefficients = damp_coefficients(smooth_time, delta_time);
        let rate: i128 = coefficients.0;
        let decay: i128 = coefficients.1;
        let current: i128 = self.wide();
        let goal: i128 = target.wide();
        let full: i128 = current - goal;
        let change: i128 = match max_speed {
            Some(limit) => {
                let far: i128 = reach_exec(limit, smooth_time);
                if full < -far {
                    -far
                } else if full > far {
                    far
                } else {
                    full
                }
            },
            None => full,
        };
        let axis = damp_axis(change, current_velocity.wide(), rate, delta_time.wide(), decay);
        let out: i128 = current - change + axis.0;
        if (goal - current > 0) == (out > goal) {
            (target, Fixed::zero())
        } else {
            (Fixed::narrow(out), Fixed::narrow(axis.1))
        }
    }
}

impl SmoothDamp for FixedVec3 {
    fn smooth_damp(
        self,
        target: FixedVec3,
        current_velocity: FixedVec3,
        smooth_time: Fixed,
        max_speed: Option<Fixed>,
        delta_time: Fixed,
    ) -> (r: (FixedVec3, FixedVec3))
        ensures
            (r.0@, r.1@) == smooth_damp_vector(
                self@,
                target@,
                current_velocity@,
                smooth_time@,
                speed_limit(max_speed),
                delta_time@,
            ),
    {
        let coefficients = damp_coefficients(smooth_time, delta_time);
        let rate: i128 = coefficients.0;
        let decay: i128 = coefficients.1;
        let dt: i128 = delta_time.wide();
        let full_x: i128 = self.x.wide() - target.x.wide();
        let full_y: i128 = self.y.wide() - target.y.wide();
        let full_z: i128 = self.z.wide() - target.z.wide();
        proof {
            lemma_squared_length_bound(full_x as int, full_y as int, full_z as int);
        }
        let square: i128 = full_x * full_x + full_y * full_y + full_z * full_z;
        let mut change_x: i128 = full_x;
        let mut change_y: i128 = full_y;
        let mut change_z: i128 = full_z;
        match max_speed {
            Some(limit) => {
                let far: i128 = reach_exec(limit, smooth_time);
                proof {
                    lemma_product_bound(
                        far as int,
                        far as int,
                        1_000_000_000_000_000_000,
                        1_000_000_000_000_000_000,
                    );
                }
                if square > far * far {
                    let length: i128 = isqrt(square as u128) as i128;
                    proof {
                        lemma_component_within_length(
                            full_x as int,
                            full_y * full_y + full_z * full_z,
                            length as int,
                        );
                        lemma_component_within_length(
                            full_y as int,
                            full_x * full_x + full_z * full_z,
                            length as int,
                        );
                        lemma_component_within_length(
                            full_z as int,
                            full_x * full_x + full_y * full_y,
                            length as int,
                        );
                        assert(far < 4 * LIMIT) by (nonlinear_arith)
                            requires
                                0 <= far,
                                far * far < square,
                                square <= 12_000_000_000_000_000_000_000_000,
                        ;
                        assert(length > 0) by (nonlinear_arith)
                            requires
                                is_floor_sqrt(square as int, length as int),
                                square > 0,
                        ;
                    }
                    change_x = shorten(full_x, length, far);
                    change_y = shorten(full_y, length, far);
                    change_z = shorten(full_z, length, far);
                }
            },
            None => {},
        }
        let axis_x = damp_axis(change_x, current_velocity.x.wide(), rate, dt, decay);
        let axis_y = damp_axis(change_y, current_velocity.y.wide(), rate, dt, decay);
        let axis_z = damp_axis(change_z, current_velocity.z.wide(), rate, dt, decay);
        let out_x: i128 = self.x.wide() - change_x + axis_x.0;
        let out_y: i128 = self.y.wide() - change_y + axis_y.0;
        let out_z: i128 = self.z.wide() - change_z + axis_z.0;
        let to_x: i128 = target.x.wide() - self.x.wide();
        let to_y: i128 = target.y.wide() - self.y.wide();
        let to_z: i128 = target.z.wide() - self.z.wide();
        let past_x: i128 = out_x - target.x.wide();
        let past_y: i128 = out_y - target.y.wide();
        let past_z: i128 = out_z - target.z.wide();
        proof {
            lemma_product_bound(
                to_x as int,
                past_x as int,
                2 * LIMIT,
                200_000_000_000_000_000_000_000,
            );
            lemma_product_bound(
                to_y as int,
                past_y as int,
                2 * LIMIT,
                200_000_000_000_000_000_000_000,
            );
            lemma_product_bound(
                to_z as int,
                past_z as int,
                2 * LIMIT,
                200_000_000_000_000_000_000_000,
            );
        }
        if to_x * past_x + to_y * past_y + to_z * past_z > 0 {
            (target, FixedVec3::zero())
        } else {
            (
                FixedVec3 {
                    x: Fixed::narrow(out_x),
                    y: Fixed::narrow(out_y),
                    z: Fixed::narrow(out_z),
                },
                FixedVec3 {
                    x: Fixed::narrow(axis_x.1),
                    y: Fixed::narrow(axis_y.1),
                    z: Fixed::narrow(axis_z.1),
                },
            )
        }
    }
}

impl MoveTowards for Fixed {
    fn move_towards(self, target: Fixed, max_delta: Fixed) -> (r: Fixed)
        ensures
            r@ == move_towards_scalar(self@, target@, max_delta@),
    {
        let current: i128 = self.wide();
        let goal: i128 = target.wide();
        let step: i128 = max_delta.wide();
        let gap: i128 = if goal - current < 0 {
            current - goal
        } else {
            goal - current
        };
        if gap <= step {
            target
        } else if goal >= current {
            Fixed::narrow(current + step)
        } else {
            Fixed::narrow(current - step)
        }
    }
}

impl MoveTowards for FixedVec2 {
    fn move_towards(self, target: FixedVec2, max_delta: Fixed) -> (r: FixedVec2)
        ensures
            r@ == move_towards_planar(self@, target@, max_delta@),
    {
        let to_x: i128 = target.x.wide() - self.x.wide();
        let to_y: i128 = target.y.wide() - self.y.wide();
        let step: i128 = max_delta.wide();
        proof {
            lemma_squared_length_bound(to_x as int, to_y as int, 0);
            lemma_product_bound(step as int, step as int, LIMIT as int, LIMIT as int);
        }
        let square: i128 = to_x * to_x + to_y * to_y;
        if square == 0 || (step >= 0 && square <= step * step) {
            target
        } else {
            let length: i128 = isqrt(square as u128) as i128;
            proof {
                lemma_component_within_length(to_x as int, to_y * to_y, length as int);
                lemma_component_within_length(to_y as int, to_x * to_x, length as int);
                assert(length > 0) by (nonlinear_arith)
                    requires
                        is_floor_sqrt(square as int, length as int),
                        square > 0,
                ;
            }
            FixedVec2 {
                x: Fixed::narrow(self.x.wide() + shorten(to_x, length, step)),
                y: Fixed::narrow(self.y.wide() + shorten(to_y, length, step)),
            }
        }
    }
}

impl MoveTowards for FixedVec3 {
    fn move_towards(self, target: FixedVec3, max_delta: Fixed) -> (r: FixedVec3)
        ensures
            r@ == move_towards_spatial(self@, target@, max_delta@),
    {
        let to_x: i128 = target.x.wide() - self.x.wide();
        let to_y: i128 = target.y.wide() - self.y.wide();
        let to_z: i128 = target.z.wide() - self.z.wide();
        let step: i128 = max_delta.wide();
        proof {
            lemma_squared_length_bound(to_x as int, to_y as int, to_z as int);
            lemma_product_bound(step as int, step as int, LIMIT as int, LIMIT as int);
        }
        let square: i128 = to_x * to_x + to_y * to_y + to_z * to_z;
        if square == 0 || (step >= 0 && square <= step * step) {
            target
        } else {
            let length: i128 = isqrt(square as u128) as i128;
            proof {
                lemma_component_within_length(
                    to_x as int,
                    to_y * to_y + to_z * to_z,
                    length as int,
                );
                lemma_component_within_length(
                    to_y as int,
                    to_x * to_x + to_z * to_z,
                    length as int,
                );
                lemma_component_within_length(
                    to_z as int,
                    to_x * to_x + to_y * to_y,
                    length as int,
                );
                assert(length > 0) by (nonlinear_arith)
                    requires
                        is_floor_sqrt(square as int, length as int),
                        square > 0,
                ;
            }
            FixedVec3 {
                x: Fixed::narrow(self.x.wide() + shorten(to_x, length, step)),
                y: Fixed::narrow(self.y.wide() + shorten(to_y, length, step)),
                z: Fixed::narrow(self.z.wide() + shorten(to_z, length, step)),
            }
        }
    }
}

impl LerpAngle for Fixed {
    fn lerp_angle(self, end: Fixed, s: Fixed) -> (r: Fixed)
        ensures
            r@ == lerp_angle_scalar(self@, end@, s@),
    {
        let from: i128 = self.wide();
        let apart: i128 = end.wide() - from;
        let full: i128 = FULL_TURN as i128;
        let around: i128 = if apart >= 0 {
            apart % full
        } else {
            let back: i128 = (-apart) % full;
            if back == 0 {
                0
            } else {
                full - back
            }
        };
        let turn: i128 = if around > HALF_TURN as i128 {
            around - full
        } else {
            around
        };
        let share: i128 = s.clamp(Fixed::zero(), Fixed::from_units(1)).wide();
        proof {
            lemma_product_bound(turn as int, share as int, FULL_TURN as int, SCALE as int);
        }
        Fixed::narrow(from + quot_exec(turn * share, SCALE as i128))
    }
}

/// The farthest the goal of one tick may lie from the current value.
fn reach_exec(max_speed: Fixed, smooth_time: Fixed) -> (r: i128)
    requires
        max_speed@ >= 0,
    ensures
        r == reach(max_speed@, smooth_time@),
        0 <= r <= 1_000_000_000_000_000_000,
{
    let st_raw: i128 = smooth_time.wide();
    let st: i128 = if st_raw < MIN_SMOOTH_TIME as i128 {
        MIN_SMOOTH_TIME as i128
    } else {
        st_raw
    };
    let limit: i128 = max_speed.wide();
    proof {
        lemma_product_bound(limit as int, st as int, LIMIT as int, LIMIT as int);
        assert(0 <= limit * st) by (nonlinear_arith)
            requires
                0 <= limit,
                0 <= st,
        ;
        lemma_quot_scaled_bound(limit * st, 1_000_000, 1_000_000_000_000_000_000);
        lemma_quot_bounds(limit * st, 1_000_000);
    }
    quot_exec(limit * st, 1_000_000)
}

/// The damping rate and decay factor of a tick.
fn damp_coefficients(smooth_time: Fixed, delta_time: Fixed) -> (r: (i128, i128))
    requires
        delta_time@ >= 0,
    ensures
        r.0 == damping_rate(smooth_time@),
        r.1 == decay_factor(tick_phase(smooth_time@, delta_time@)),
        0 <= r.0 <= MAX_RATE,
        0 <= r.1 <= SCALE,
{
    let st_raw: i128 = smooth_time.wide();
    let st: i128 = if st_raw < MIN_SMOOTH_TIME as i128 {
        MIN_SMOOTH_TIME as i128
    } else {
        st_raw
    };
    let rate: i128 = 2_000_000_000_000 / st;
    assert(0 <= rate <= 20_000_000_000) by (nonlinear_arith)
        requires
            rate == 2_000_000_000_000int / (st as int),
            100 <= st,
    ;
    let dt: i128 = delta_time.wide();
    proof {
        lemma_product_bound(rate as int, dt as int, MAX_RATE as int, LIMIT as int);
        assert(0 <= rate * dt) by (nonlinear_arith)
            requires
                0 <= rate,
                0 <= dt,
        ;
    }
    let x: i128 = rate * dt / 1_000_000;
    if x >= PHASE_CAP as i128 {
        proof {
            lemma_decay_vanishes(x as int);
        }
        (rate, 0)
    } else {
        proof {
            lemma_phase_powers(x as int);
        }
        let square: i128 = x * x;
        let cube: i128 = square * x;
        let denominator: i128 = 1_000_000 + x + 48 * square / 100_000_000 + 235 * cube
            / 1_000_000_000_000_000;
        let decay: i128 = 1_000_000_000_000 / denominator;
        assert(0 <= decay <= 1_000_000) by (nonlinear_arith)
            requires
                decay == 1_000_000_000_000int / (denominator as int),
                denominator >= 1_000_000,
        ;
        (rate, decay)
    }
}

/// One tick of the damper along one axis: the offset from the goal and the
/// velocity at the end of the tick.
fn damp_axis(change: i128, velocity: i128, rate: i128, dt: i128, decay: i128) -> (r: (i128, i128))
    requires
        -4 * LIMIT <= change <= 4 * LIMIT,
        in_range(velocity as int),
        0 <= rate <= MAX_RATE,
        0 <= dt <= LIMIT,
        0 <= decay <= SCALE,
    ensures
        r.0 == axis_offset(change as int, velocity as int, rate as int, dt as int, decay as int),
        r.1 == axis_velocity(change as int, velocity as int, rate as int, dt as int, decay as int),
        -100_000_000_000_000_000_000_000 <= r.0 <= 100_000_000_000_000_000_000_000,
        -3_000_000_000_000_000_000_000_000_000 <= r.1 <= 3_000_000_000_000_000_000_000_000_000,
{
    proof {
        lemma_product_bound(rate as int, change as int, MAX_RATE as int, 4 * LIMIT);
        lemma_quot_scaled_bound(rate * change, 1_000_000, 80_000_000_000_000_000);
    }
    let pull: i128 = quot_exec(rate * change, 1_000_000);
    let drive: i128 = velocity + pull;
    proof {
        lemma_product_bound(drive as int, dt as int, 90_000_000_000_000_000, LIMIT as int);
        lemma_quot_scaled_bound(drive * dt, 1_000_000, 90_000_000_000_000_000_000_000);
    }
    let carry: i128 = quot_exec(drive * dt, 1_000_000);
    proof {
        lemma_product_bound(
            rate as int,
            carry as int,
            MAX_RATE as int,
            90_000_000_000_000_000_000_000,
        );
        lemma_quot_scaled_bound(rate * carry, 1_000_000, 1_800_000_000_000_000_000_000_000_000);
    }
    let slowed: i128 = velocity - quot_exec(rate * carry, 1_000_000);
    proof {
        lemma_product_bound(
            slowed as int,
            decay as int,
            3_000_000_000_000_000_000_000_000_000,
            SCALE as int,
        );
        lemma_quot_scaled_bound(slowed * decay, 1_000_000, 3_000_000_000_000_000_000_000_000_000);
    }
    let next_velocity: i128 = quot_exec(slowed * decay, 1_000_000);
    let moved: i128 = change + carry;
    proof {
        lemma_product_bound(
            moved as int,
            decay as int,
            100_000_000_000_000_000_000_000,
            SCALE as int,
        );
        lemma_quot_scaled_bound(moved * decay, 1_000_000, 100_000_000_000_000_000_000_000);
    }
    let offset: i128 = quot_exec(moved * decay, 1_000_000);
    (offset, next_velocity)
}

/// One component of a vector of length `length`, rescaled to length `far`.
fn shorten(component: i128, length: i128, far: i128) -> (r: i128)
    requires
        0 < length,
        -length <= component <= length,
        length <= 4 * LIMIT,
        -4 * LIMIT <= far <= 4 * LIMIT,
    ensures
        r == shortened(component as int, length as int, far as int),
        magnitude(r as int) <= magnitude(far as int),
{
    proof {
        lemma_product_bound(component as int, 1_000_000, 4 * LIMIT, 1_000_000);
        assert(-(1_000_000 * length) <= component * 1_000_000 <= 1_000_000 * length);
        lemma_quot_scaled_bound(component * 1_000_000, length as int, 1_000_000);
    }
    let ratio: i128 = quot_exec(component * 1_000_000, length);
    proof {
        lemma_product_bound(ratio as int, far as int, 1_000_000, magnitude(far as int));
        assert(1_000_000 * magnitude(far as int) <= 4_000_000_000_000_000_000);
        lemma_quot_scaled_bound(ratio * far, 1_000_000, magnitude(far as int));
    }
    quot_exec(ratio * far, 1_000_000)
}

/// The squared length of a difference of two vectors, and its bound.
proof fn lemma_squared_length_bound(x: int, y: int, z: int)
    by (nonlinear_arith)
    requires
        -2 * LIMIT <= x <= 2 * LIMIT,
        -2 * LIMIT <= y <= 2 * LIMIT,
        -2 * LIMIT <= z <= 2 * LIMIT,
    ensures
        0 <= x * x <= 4_000_000_000_000_000_000_000_000,
        0 <= y * y <= 4_000_000_000_000_000_000_000_000,
        0 <= z * z <= 4_000_000_000_000_000_000_000_000,
{
}

/// A component of a vector is no longer than the floor of the vector's
/// length, and that floor is below four times the bound of `Fixed`.
proof fn lemma_component_within_length(component: int, rest: int, length: int)
    by (nonlinear_arith)
    requires
        rest >= 0,
        is_floor_sqrt(component * component + rest, length),
        component * component + rest <= 12_000_000_000_000_000_000_000_000,
    ensures
        -length <= component <= length,
        length < 4 * LIMIT,
{
}

/// Below the cap the powers of the phase stay small and non-negative.
proof fn lemma_phase_powers(x: int)
    requires
        0 <= x < PHASE_CAP,
    ensures
        0 <= x * x <= 1_000_000_000_000_000_000,
        0 <= x * x * x <= 1_000_000_000_000_000_000_000_000_000,
        decay_denominator(x) >= 1_000_000 + x,
{
    assert(0 <= x * x <= 1_000_000_000_000_000_000 && 0 <= x * x * x
        <= 1_000_000_000_000_000_000_000_000_000) by (nonlinear_arith)
        requires
            0 <= x < 1_000_000_000,
    ;
}

/// From the cap on, the decay factor is zero.
proof fn lemma_decay_vanishes(x: int)
    requires
        x >= PHASE_CAP,
    ensures
        decay_factor(x) == 0,
{
    assert(x * x >= 1_000_000_000_000_000_000 && x * x * x
        >= 1_000_000_000_000_000_000_000_000_000) by (nonlinear_arith)
        requires
            x >= 1_000_000_000,
    ;
    let d = decay_denominator(x);
    assert(d > 1_000_000_000_000);
    assert(1_000_000_000_000int / d == 0) by (nonlinear_arith)
        requires
            d > 1_000_000_000_000,
    ;
}

/// A scalar damper that is at its target and at rest stays there, whatever
/// the smoothing time, the elapsed time and the speed limit.
pub proof fn lemma_smooth_damp_rest_is_fixed_point(
    x: int,
    smooth_time: int,
    max_speed: Option<int>,
    dt: int,
)
    requires
        max_speed matches Some(limit) ==> limit >= 0,
    ensures
        smooth_damp_scalar(x, x, 0, smooth_time, max_speed, dt) == (x, 0int),
{
    let rate = damping_rate(smooth_time);
    let decay = decay_factor(tick_phase(smooth_time, dt));
    if let Some(limit) = max_speed {
        assert(limit * held_smooth_time(smooth_time) >= 0) by (nonlinear_arith)
            requires
                limit >= 0,
                held_smooth_time(smooth_time) >= 100,
        ;
        lemma_quot_bounds(limit * held_smooth_time(smooth_time), 1_000_000);
    }
    lemma_axis_at_rest(rate, dt, decay);
}

/// A vector damper that is at its target and at rest stays there.
pub proof fn lemma_smooth_damp_vector_rest_is_fixed_point(
    x: (int, int, int),
    smooth_time: int,
    max_speed: Option<int>,
    dt: int,
)
    requires
        in_range(x.0),
        in_range(x.1),
        in_range(x.2),
    ensures
        smooth_damp_vector(x, x, (0, 0, 0), smooth_time, max_speed, dt) == (x, (0int, 0int, 0int)),
{
    let rate = damping_rate(smooth_time);
    let decay = decay_factor(tick_phase(smooth_time, dt));
    lemma_axis_at_rest(rate, dt, decay);
    if let Some(limit) = max_speed {
        let far = reach(limit, smooth_time);
        assert(far * far >= 0) by (nonlinear_arith);
    }
    assert(limited_change(x, x, smooth_time, max_speed) == (0int, 0int, 0int));
}

/// With nothing to change and no velocity, an axis neither moves nor gains
/// velocity.
proof fn lemma_axis_at_rest(rate: int, dt: int, decay: int)
    ensures
        axis_carry(0, 0, rate, dt) == 0,
        axis_offset(0, 0, rate, dt, decay) == 0,
        axis_velocity(0, 0, rate, dt, decay) == 0,
{
    assert(rate * 0 == 0) by (nonlinear_arith);
    assert(0 * dt == 0) by (nonlinear_arith);
    assert(0 * decay == 0) by (nonlinear_arith);
    assert(axis_carry(0, 0, rate, dt) == 0);
}

/// A clamped step lands exactly on a target within `max_delta`, and
/// otherwise ends exactly `max_delta` nearer to it, on the same side.
pub proof fn lemma_move_towards_reaches_or_steps(current: int, target: int, max_delta: int)
    requires
        in_range(current),
        in_range(target),
        max_delta >= 0,
    ensures
        magnitude(target - current) <= max_delta ==> move_towards_scalar(
            current,
            target,
            max_delta,
        ) == target,
        magnitude(target - current) > max_delta && target > current ==> move_towards_scalar(
            current,
            target,
            max_delta,
        ) == current + max_delta,
        magnitude(target - current) > max_delta && target < current ==> move_towards_scalar(
            current,
            target,
            max_delta,
        ) == current - max_delta,
        magnitude(target - move_towards_scalar(current, target, max_delta)) == if magnitude(
            target - current,
        ) <= max_delta {
            0
        } else {
            magnitude(target - current) - max_delta
        },
{
}

/// A clamped step on the plane never passes its target: each component of
/// the result lies between that of the start and that of the target.
pub proof fn lemma_move_towards_planar_between(
    current: (int, int),
    target: (int, int),
    max_delta: int,
)
    requires
        in_range(current.0),
        in_range(current.1),
        in_range(target.0),
        in_range(target.1),
        max_delta >= 0,
    ensures
        ({
            let next = move_towards_planar(current, target, max_delta);
            &&& current.0 <= target.0 ==> current.0 <= next.0 <= target.0
            &&& current.0 >= target.0 ==> current.0 >= next.0 >= target.0
            &&& current.1 <= target.1 ==> current.1 <= next.1 <= target.1
            &&& current.1 >= target.1 ==> current.1 >= next.1 >= target.1
        }),
{
    let to = (target.0 - current.0, target.1 - current.1);
    let square = to.0 * to.0 + to.1 * to.1;
    if !(square == 0 || square <= max_delta * max_delta) {
        let length = floor_sqrt(square);
        lemma_floor_sqrt_exists(square);
        lemma_length_beyond(square, length, max_delta);
        lemma_shortened_within(to.0, length, max_delta);
        lemma_shortened_within(to.1, length, max_delta);
    }
}

/// A clamped step in space never passes its target: each component of the
/// result lies between that of the start and that of the target.
pub proof fn lemma_move_towards_spatial_between(
    current: (int, int, int),
    target: (int, int, int),
    max_delta: int,
)
    requires
        in_range(current.0),
        in_range(current.1),
        in_range(current.2),
        in_range(target.0),
        in_range(target.1),
        in_range(target.2),
        max_delta >= 0,
    ensures
        ({
            let next = move_towards_spatial(current, target, max_delta);
            &&& current.0 <= target.0 ==> current.0 <= next.0 <= target.0
            &&& current.0 >= target.0 ==> current.0 >= next.0 >= target.0
            &&& current.1 <= target.1 ==> current.1 <= next.1 <= target.1
            &&& current.1 >= target.1 ==> current.1 >= next.1 >= target.1
            &&& current.2 <= target.2 ==> current.2 <= next.2 <= target.2
            &&& current.2 >= target.2 ==> current.2 >= next.2 >= target.2
        }),
{
    let to = (target.0 - current.0, target.1 - current.1, target.2 - current.2);
    let square = squared_length(to);
    if !(square == 0 || square <= max_delta * max_delta) {
        let length = floor_sqrt(square);
        lemma_floor_sqrt_exists(square);
        lemma_length_beyond(square, length, max_delta);
        lemma_shortened_within(to.0, length, max_delta);
        lemma_shortened_within(to.1, length, max_delta);
        lemma_shortened_within(to.2, length, max_delta);
    }
}

/// A component rescaled from a vector of length `length` to one no longer
/// keeps its sign and does not grow.
proof fn lemma_shortened_within(component: int, length: int, far: int)
    requires
        0 < length,
        0 <= far <= length,
    ensures
        component >= 0 ==> 0 <= shortened(component, length, far) <= component,
        component <= 0 ==> component <= shortened(component, length, far) <= 0,
{
    let s = 1_000_000int;
    let size = magnitude(component);
    let ratio = quot(size * s, length);
    assert(0 <= ratio && ratio * length <= size * s) by (nonlinear_arith)
        requires
            ratio == (size * s) / length,
            size >= 0,
            s > 0,
            length > 0,
    ;
    assert(0 <= ratio * far <= size * s) by (nonlinear_arith)
        requires
            0 <= ratio,
            0 <= far <= length,
            ratio * length <= size * s,
    ;
    assert(0 <= quot(ratio * far, s) <= size);
    if component < 0 {
        assert(component * s == -(size * s)) by (nonlinear_arith)
            requires
                size == -component,
        ;
        assert((-ratio) * far == -(ratio * far)) by (nonlinear_arith);
    }
}

/// The floor of the length of a vector longer than `far` is at least `far`.
proof fn lemma_length_beyond(square: int, length: int, far: int)
    by (nonlinear_arith)
    requires
        is_floor_sqrt(square, length),
        0 <= far,
        far * far < square,
    ensures
        0 < length,
        far <= length,
{
}

/// Interpolating between angles starts at the first, never turns more than
/// half a turn, and reaches the second up to whole turns.
pub proof fn lemma_lerp_angle_ends(from: int, to: int)
    requires
        in_range(from),
        in_range(to),
    ensures
        lerp_angle_scalar(from, to, 0) == from,
        -HALF_TURN < shortest_turn(from, to) <= HALF_TURN,
        in_range(from + shortest_turn(from, to)) ==> (lerp_angle_scalar(from, to, 1_000_000) - to)
            % (FULL_TURN as int) == 0,
{
    let turn = shortest_turn(from, to);
    assert(turn * 0 == 0) by (nonlinear_arith);
    assert(turn * 1_000_000 == 1_000_000 * turn) by (nonlinear_arith);
}

} // verus!
