//! How the damper settles: it never crosses its target, and while its
//! velocity does not point away from the target every tick brings it
//! strictly nearer.
//!
//! The laws hold on steady ticks, which leave out ticks so short that their
//! damping is lost in rounding. A damper that comes from above keeps to them
//! tick after tick. One that comes from below keeps to them until it reaches
//! the target: only a result past the target is replaced by the target at
//! rest, so a damper that lands on the target exactly from below keeps what
//! velocity it has left.

use vstd::prelude::*;
use crate::fixed::{in_range, lemma_quot_bounds, limited, magnitude, quot};
use crate::math::{
    axis_carry, axis_offset, axis_velocity, damping_rate, decay_denominator, decay_factor, reach,
    smooth_damp_scalar, smooth_damp_vector, tick_phase,
};

verus! {

/// Tick phase below which the damping of a tick is lost in rounding.
pub const MIN_STEADY_PHASE: i64 = 1444;

/// Whether the velocity does not point away from the target.
pub open spec fn approaching(current: int, target: int, velocity: int) -> bool {
    &&& current > target ==> velocity <= 0
    &&& current < target ==> velocity >= 0
    &&& current == target ==> velocity <= 0
}

/// Whether a tick is long enough for its damping to register at this
/// resolution, and shorter than half the smoothing time.
pub open spec fn steady_tick(smooth_time: int, dt: int) -> bool {
    &&& dt >= 0
    &&& MIN_STEADY_PHASE <= tick_phase(smooth_time, dt) < 1_000_000
}

/// The value and velocity of a scalar damper after `ticks` equal ticks.
pub open spec fn smooth_damp_run(
    current: int,
    target: int,
    velocity: int,
    smooth_time: int,
    max_speed: Option<int>,
    dt: int,
    ticks: nat,
) -> (int, int)
    decreases ticks,
{
    if ticks == 0 {
        (current, velocity)
    } else {
        let before = smooth_damp_run(
            current,
            target,
            velocity,
            smooth_time,
            max_speed,
            dt,
            (ticks - 1) as nat,
        );
        smooth_damp_scalar(before.0, target, before.1, smooth_time, max_speed, dt)
    }
}

/// Rounding toward zero commutes with a change of sign.
proof fn lemma_quot_odd(a: int, b: int)
    requires
        b > 0,
    ensures
        quot(-a, b) == -quot(a, b),
{
}

/// Reversing change and velocity reverses what an axis does in a tick.
proof fn lemma_axis_odd(change: int, velocity: int, rate: int, dt: int, decay: int)
    ensures
        axis_carry(-change, -velocity, rate, dt) == -axis_carry(change, velocity, rate, dt),
        axis_offset(-change, -velocity, rate, dt, decay) == -axis_offset(
            change,
            velocity,
            rate,
            dt,
            decay,
        ),
        axis_velocity(-change, -velocity, rate, dt, decay) == -axis_velocity(
            change,
            velocity,
            rate,
            dt,
            decay,
        ),
{
    let s = 1_000_000int;
    let pull = quot(rate * change, s);
    assert(rate * (-change) == -(rate * change)) by (nonlinear_arith);
    lemma_quot_odd(rate * change, s);
    let drive = velocity + pull;
    assert((-drive) * dt == -(drive * dt)) by (nonlinear_arith);
    lemma_quot_odd(drive * dt, s);
    let carry = axis_carry(change, velocity, rate, dt);
    assert(axis_carry(-change, -velocity, rate, dt) == -carry);
    assert(rate * (-carry) == -(rate * carry)) by (nonlinear_arith);
    lemma_quot_odd(rate * carry, s);
    let slowed = velocity - quot(rate * carry, s);
    assert((-slowed) * decay == -(slowed * decay)) by (nonlinear_arith);
    lemma_quot_odd(slowed * decay, s);
    let moved = change + carry;
    assert((-moved) * decay == -(moved * decay)) by (nonlinear_arith);
    lemma_quot_odd(moved * decay, s);
}

/// On a steady tick, an axis with a change still to make and a velocity
/// that does not add to it ends the tick with less of the change left, and,
/// if the tick is shorter than half the smoothing time, with a velocity that
/// still does not add to it.
proof fn lemma_axis_settles(change: int, velocity: int, rate: int, dt: int)
    requires
        change >= 0,
        velocity <= 0,
        rate >= 0,
        dt >= 0,
        MIN_STEADY_PHASE <= rate * dt / 1_000_000,
    ensures
        axis_offset(change, velocity, rate, dt, decay_factor(rate * dt / 1_000_000)) <= change,
        change > 0 ==> axis_offset(change, velocity, rate, dt, decay_factor(rate * dt / 1_000_000))
            < change,
        rate * dt / 1_000_000 < 1_000_000 ==> axis_velocity(
            change,
            velocity,
            rate,
            dt,
            decay_factor(rate * dt / 1_000_000),
        ) <= 0,
{
    let s = 1_000_000int;
    let y = rate * dt;
    let x = y / s;
    let poly = decay_denominator(x);
    let decay = decay_factor(x);
    assert(y >= 0) by (nonlinear_arith)
        requires
            y == rate * dt,
            rate >= 0,
            dt >= 0,
    ;
    let rc = rate * change;
    assert(rc >= 0) by (nonlinear_arith)
        requires
            rc == rate * change,
            rate >= 0,
            change >= 0,
    ;
    let pull = quot(rc, s);
    let drive = velocity + pull;
    let dd = drive * dt;
    let carry = quot(dd, s);
    assert(carry == axis_carry(change, velocity, rate, dt));
    let adt = pull * dt;
    assert(adt >= 0 && dd <= adt) by (nonlinear_arith)
        requires
            adt == pull * dt,
            dd == drive * dt,
            drive <= pull,
            pull >= 0,
            dt >= 0,
    ;
    assert(carry * s <= adt);
    assert(adt * s <= change * y) by (nonlinear_arith)
        requires
            adt == pull * dt,
            pull * s <= rc,
            rc == rate * change,
            y == rate * dt,
            dt >= 0,
    ;
    let cy = change * y;
    assert(carry * s * s <= cy);
    // The denominator of the decay factor exceeds `1 + x` by a full step.
    assert(x * x >= 2_085_136 && x * x * x >= 0) by (nonlinear_arith)
        requires
            x >= 1444,
    ;
    assert(poly >= s + x + 1);
    assert(0 <= decay && decay * poly <= 1_000_000_000_000) by (nonlinear_arith)
        requires
            decay == 1_000_000_000_000int / poly,
            poly > 0,
    ;
    let moved = change + carry;
    let md = moved * decay;
    let offset = quot(md, s);
    assert(offset == axis_offset(change, velocity, rate, dt, decay));
    if change == 0 {
        assert(cy == 0) by (nonlinear_arith)
            requires
                cy == change * y,
                change == 0,
        ;
        assert(md <= 0) by (nonlinear_arith)
            requires
                md == moved * decay,
                moved <= 0,
                decay >= 0,
        ;
    } else if offset >= change {
        assert(moved > 0) by (nonlinear_arith)
            requires
                md == moved * decay,
                md > 0,
                decay >= 0,
        ;
        assert(md * poly <= moved * 1_000_000_000_000) by (nonlinear_arith)
            requires
                md == moved * decay,
                decay * poly <= 1_000_000_000_000,
                moved >= 0,
        ;
        let cs = change * s;
        assert(cs * poly <= md * poly) by (nonlinear_arith)
            requires
                cs <= md,
                poly > 0,
        ;
        let cp = change * poly;
        assert(cs * poly == s * cp) by (nonlinear_arith)
            requires
                cs == change * s,
                cp == change * poly,
        ;
        let cx = change * x;
        assert(cy <= cx * s + change * s - change) by (nonlinear_arith)
            requires
                cy == change * y,
                cx == change * x,
                change >= 0,
                y <= x * s + s - 1,
        ;
        assert(cp >= change * s + cx + change) by (nonlinear_arith)
            requires
                cp == change * poly,
                cx == change * x,
                change >= 0,
                poly >= s + x + 1,
        ;
        assert(false);
    }
    if x < s {
        let rcarry = rate * carry;
        let slowed = velocity - quot(rcarry, s);
        if carry >= 0 {
            assert(rcarry >= 0) by (nonlinear_arith)
                requires
                    rcarry == rate * carry,
                    rate >= 0,
                    carry >= 0,
            ;
        } else {
            let nc = -carry;
            let nv = -velocity;
            let nd = -dd;
            assert(nc * s <= nd);
            assert(nd <= nv * dt) by (nonlinear_arith)
                requires
                    nd == -(drive * dt),
                    -drive <= nv,
                    dt >= 0,
            ;
            let rn = rate * nc;
            assert(rcarry == -rn) by (nonlinear_arith)
                requires
                    rcarry == rate * carry,
                    rn == rate * nc,
                    nc == -carry,
            ;
            assert(rn * s <= nv * y) by (nonlinear_arith)
                requires
                    rn == rate * nc,
                    nc * s <= nv * dt,
                    y == rate * dt,
                    rate >= 0,
            ;
            assert(nv * y <= nv * (s * s)) by (nonlinear_arith)
                requires
                    nv >= 0,
                    y <= s * s,
            ;
            assert(rn >= 0) by (nonlinear_arith)
                requires
                    rn == rate * nc,
                    rate >= 0,
                    nc >= 0,
            ;
            assert(rn <= nv * s);
        }
        assert(slowed <= 0);
        assert(slowed * decay <= 0) by (nonlinear_arith)
            requires
                slowed <= 0,
                decay >= 0,
        ;
    }
}

/// The damper never crosses its target: after a tick the value lies on the
/// side of the target it started from, or on the target.
pub proof fn lemma_smooth_damp_never_crosses(
    current: int,
    target: int,
    velocity: int,
    smooth_time: int,
    max_speed: Option<int>,
    dt: int,
)
    requires
        in_range(target),
    ensures
        current < target ==> smooth_damp_scalar(
            current,
            target,
            velocity,
            smooth_time,
            max_speed,
            dt,
        ).0 <= target,
        current >= target ==> smooth_damp_scalar(
            current,
            target,
            velocity,
            smooth_time,
            max_speed,
            dt,
        ).0 >= target,
{
}

/// On a steady tick, a damper whose velocity does not point away from the
/// target ends the tick no farther from it, on the same side, and strictly
/// nearer if it has no speed limit and was not there yet. Its velocity still
/// does not point away from the target, except that a damper coming from
/// below may land on the target with velocity to spare.
pub proof fn lemma_smooth_damp_approaches(
    current: int,
    target: int,
    velocity: int,
    smooth_time: int,
    max_speed: Option<int>,
    dt: int,
)
    requires
        in_range(current),
        in_range(target),
        max_speed matches Some(limit) ==> limit >= 0,
        approaching(current, target, velocity),
        steady_tick(smooth_time, dt),
    ensures
        ({
            let next = smooth_damp_scalar(current, target, velocity, smooth_time, max_speed, dt);
            &&& magnitude(next.0 - target) <= magnitude(current - target)
            &&& max_speed is None && current != target ==> magnitude(next.0 - target) < magnitude(
                current - target,
            )
            &&& current >= target ==> target <= next.0 <= current
            &&& current <= target ==> current <= next.0 <= target
            &&& next.0 != target || current >= target ==> approaching(next.0, target, next.1)
        }),
{
    let rate = damping_rate(smooth_time);
    let decay = decay_factor(tick_phase(smooth_time, dt));
    let full = current - target;
    let change = match max_speed {
        Some(limit) => limited(full, -reach(limit, smooth_time), reach(limit, smooth_time)),
        None => full,
    };
    if let Some(limit) = max_speed {
        assert(limit * crate::math::held_smooth_time(smooth_time) >= 0) by (nonlinear_arith)
            requires
                limit >= 0,
                crate::math::held_smooth_time(smooth_time) >= 100,
        ;
        lemma_quot_bounds(limit * crate::math::held_smooth_time(smooth_time), 1_000_000);
    }
    assert(rate >= 0) by (nonlinear_arith)
        requires
            rate == 2_000_000_000_000int / crate::math::held_smooth_time(smooth_time),
            crate::math::held_smooth_time(smooth_time) >= 100,
    ;
    if full >= 0 {
        lemma_axis_settles(change, velocity, rate, dt);
    } else {
        lemma_axis_settles(-change, -velocity, rate, dt);
        lemma_axis_odd(change, velocity, rate, dt, decay);
    }
}

/// A damper started above its target, with a velocity that does not point
/// away from it, never rises again on steady ticks: after each further tick
/// it is no farther from the target, never below it, and it has arrived
/// after as many ticks as it was raw steps away.
pub proof fn lemma_smooth_damp_settles_from_above(
    current: int,
    target: int,
    velocity: int,
    smooth_time: int,
    dt: int,
    ticks: nat,
)
    requires
        in_range(current),
        in_range(target),
        current >= target,
        velocity <= 0,
        steady_tick(smooth_time, dt),
    ensures
        ({
            let now = smooth_damp_run(current, target, velocity, smooth_time, None, dt, ticks);
            let next = smooth_damp_run(current, target, velocity, smooth_time, None, dt, ticks + 1);
            &&& target <= next.0 <= now.0 <= current
            &&& now.1 <= 0
            &&& now.0 - target <= if current - target >= ticks {
                current - target - ticks
            } else {
                0
            }
        }),
    decreases ticks,
{
    let now = smooth_damp_run(current, target, velocity, smooth_time, None, dt, ticks);
    if ticks > 0 {
        lemma_smooth_damp_settles_from_above(
            current,
            target,
            velocity,
            smooth_time,
            dt,
            (ticks - 1) as nat,
        );
        let before = smooth_damp_run(
            current,
            target,
            velocity,
            smooth_time,
            None,
            dt,
            (ticks - 1) as nat,
        );
        lemma_smooth_damp_approaches(before.0, target, before.1, smooth_time, None, dt);
    }
    lemma_smooth_damp_approaches(now.0, target, now.1, smooth_time, None, dt);
}

/// A damper started below its target, with a velocity that does not point
/// away from it, rises on steady ticks without passing the target for as
/// long as it has not reached it: while it is below the target it is no
/// lower than before, strictly nearer after the next tick, and no farther
/// away than its first distance less one raw step for each tick made.
pub proof fn lemma_smooth_damp_rises_from_below(
    current: int,
    target: int,
    velocity: int,
    smooth_time: int,
    dt: int,
    ticks: nat,
)
    requires
        in_range(current),
        in_range(target),
        current <= target,
        velocity >= 0,
        steady_tick(smooth_time, dt),
    ensures
        ({
            let now = smooth_damp_run(current, target, velocity, smooth_time, None, dt, ticks);
            let next = smooth_damp_run(current, target, velocity, smooth_time, None, dt, ticks + 1);
            now.0 < target ==> {
                &&& current <= now.0 < next.0 <= target
                &&& now.1 >= 0
                &&& target - now.0 <= target - current - ticks
            }
        }),
    decreases ticks,
{
    let now = smooth_damp_run(current, target, velocity, smooth_time, None, dt, ticks);
    if now.0 < target {
        if ticks > 0 {
            let before = smooth_damp_run(
                current,
                target,
                velocity,
                smooth_time,
                None,
                dt,
                (ticks - 1) as nat,
            );
            lemma_smooth_damp_rises_from_below(
                current,
                target,
                velocity,
                smooth_time,
                dt,
                (ticks - 1) as nat,
            );
            lemma_smooth_damp_never_crosses(before.0, target, before.1, smooth_time, None, dt);
            lemma_smooth_damp_approaches(before.0, target, before.1, smooth_time, None, dt);
        }
        lemma_smooth_damp_approaches(now.0, target, now.1, smooth_time, None, dt);
    }
}

/// On a steady tick, a vector damper at rest and without a speed limit ends
/// the tick with each component no farther from that of the target, on the
/// same side of it.
pub proof fn lemma_smooth_damp_vector_leaves_rest(
    current: (int, int, int),
    target: (int, int, int),
    smooth_time: int,
    dt: int,
)
    requires
        in_range(current.0) && in_range(current.1) && in_range(current.2),
        in_range(target.0) && in_range(target.1) && in_range(target.2),
        steady_tick(smooth_time, dt),
    ensures
        ({
            let next = smooth_damp_vector(current, target, (0, 0, 0), smooth_time, None, dt).0;
            &&& current.0 >= target.0 ==> target.0 <= next.0 <= current.0
            &&& current.0 <= target.0 ==> current.0 <= next.0 <= target.0
            &&& current.1 >= target.1 ==> target.1 <= next.1 <= current.1
            &&& current.1 <= target.1 ==> current.1 <= next.1 <= target.1
            &&& current.2 >= target.2 ==> target.2 <= next.2 <= current.2
            &&& current.2 <= target.2 ==> current.2 <= next.2 <= target.2
        }),
{
    let rate = damping_rate(smooth_time);
    assert(rate >= 0) by (nonlinear_arith)
        requires
            rate == 2_000_000_000_000int / crate::math::held_smooth_time(smooth_time),
            crate::math::held_smooth_time(smooth_time) >= 100,
    ;
    lemma_axis_leaves_rest(current.0 - target.0, rate, dt);
    lemma_axis_leaves_rest(current.1 - target.1, rate, dt);
    lemma_axis_leaves_rest(current.2 - target.2, rate, dt);
}

/// On a steady tick, an axis at rest keeps its offset from the goal between
/// nought and the change still to make.
proof fn lemma_axis_leaves_rest(change: int, rate: int, dt: int)
    requires
        rate >= 0,
        dt >= 0,
        MIN_STEADY_PHASE <= rate * dt / 1_000_000,
    ensures
        change >= 0 ==> 0 <= axis_offset(change, 0, rate, dt, decay_factor(rate * dt / 1_000_000))
            <= change,
        change <= 0 ==> change <= axis_offset(
            change,
            0,
            rate,
            dt,
            decay_factor(rate * dt / 1_000_000),
        ) <= 0,
{
    let decay = decay_factor(rate * dt / 1_000_000);
    let size = magnitude(change);
    lemma_axis_settles(size, 0, rate, dt);
    let x = rate * dt / 1_000_000;
    assert(x * x >= 0 && x * x * x >= 0) by (nonlinear_arith)
        requires
            x >= 0,
    ;
    assert(decay >= 0) by (nonlinear_arith)
        requires
            decay == 1_000_000_000_000int / decay_denominator(x),
            decay_denominator(x) > 0,
    ;
    let pull = quot(rate * size, 1_000_000);
    assert(rate * size >= 0) by (nonlinear_arith)
        requires
            rate >= 0,
            size >= 0,
    ;
    assert(pull * dt >= 0) by (nonlinear_arith)
        requires
            pull >= 0,
            dt >= 0,
    ;
    let carry = axis_carry(size, 0, rate, dt);
    assert(carry >= 0);
    assert((size + carry) * decay >= 0) by (nonlinear_arith)
        requires
            size + carry >= 0,
            decay >= 0,
    ;
    if change < 0 {
        lemma_axis_odd(change, 0, rate, dt, decay);
    }
}

} // verus!
