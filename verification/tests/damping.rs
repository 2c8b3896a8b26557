use character_rig::fixed::Fixed;
use character_rig::math::{FixedVec3, LerpAngle, SmoothDamp};

const TICK: i64 = 15_625;
const SMOOTH_TIME: i64 = 100_000;

fn fx(raw: i64) -> Fixed {
    Fixed::from_micros(raw)
}

fn v3(x: i64, y: i64, z: i64) -> FixedVec3 {
    FixedVec3::new(fx(x), fx(y), fx(z))
}

fn raw3(v: FixedVec3) -> (i64, i64, i64) {
    (v.x.micros(), v.y.micros(), v.z.micros())
}

fn damp(current: i64, target: i64, velocity: i64, max_speed: Option<i64>) -> (i64, i64) {
    let r = fx(current).smooth_damp(
        fx(target),
        fx(velocity),
        fx(SMOOTH_TIME),
        max_speed.map(fx),
        fx(TICK),
    );
    (r.0.micros(), r.1.micros())
}

#[test]
fn damper_at_rest_on_its_target_stays() {
    for &x in &[0i64, 5_000_000, -123_456_789, 1_000_000_000_000] {
        for &dt in &[0i64, 1, TICK, 1_000_000, 1_000_000_000] {
            for &st in &[-5i64, 0, 100, SMOOTH_TIME, 10_000_000] {
                let r = fx(x).smooth_damp(fx(x), fx(0), fx(st), None, fx(dt));
                assert_eq!((r.0.micros(), r.1.micros()), (x, 0));
                let limited = fx(x).smooth_damp(fx(x), fx(0), fx(st), Some(fx(3_000_000)), fx(dt));
                assert_eq!((limited.0.micros(), limited.1.micros()), (x, 0));
            }
        }
    }
}

#[test]
fn damper_makes_the_first_step_of_a_rise() {
    assert_eq!(damp(15_000_000, 30_000_000, 0, None), (15_593_259, 68_603_531));
}

#[test]
fn damper_carries_velocity_on_the_way_down() {
    assert_eq!(damp(30_000_000, 15_000_000, -2_000_000, None), (29_383_873, -69_609_716));
}

#[test]
fn damper_keeps_to_its_speed_limit() {
    assert_eq!(damp(0, 10_000_000, 0, Some(1_000_000)), (3_956, 457_356));
    assert_eq!(damp(0, 10_000_000, 0, Some(100_000_000)), (395_506, 45_735_687));
}

#[test]
fn damper_lands_on_a_target_it_would_pass() {
    assert_eq!(damp(0, 1_000, 50_000_000, None), (1_000, 0));
    assert_eq!(damp(0, -1_000, -50_000_000, None), (-1_000, 0));
}

#[test]
fn damper_holds_the_smoothing_time_above_its_minimum() {
    let shortest = fx(0).smooth_damp(fx(1_000_000), fx(0), fx(100), None, fx(TICK));
    let shorter = fx(0).smooth_damp(fx(1_000_000), fx(0), fx(0), None, fx(TICK));
    let negative = fx(0).smooth_damp(fx(1_000_000), fx(0), fx(-7), None, fx(TICK));
    assert_eq!((shortest.0.micros(), shortest.1.micros()), (1_000_000, 0));
    assert_eq!(shorter, shortest);
    assert_eq!(negative, shortest);
}

#[test]
fn damper_does_not_move_in_no_time() {
    let r = fx(0).smooth_damp(fx(1_000_000), fx(3), fx(SMOOTH_TIME), None, fx(0));
    assert_eq!((r.0.micros(), r.1.micros()), (0, 3));
}

#[test]
fn camera_distance_converges_without_passing_the_target() {
    let target = fx(30_000_000);
    let mut current = fx(15_000_000);
    let mut velocity = fx(0);
    let mut last_gap = 15_000_000;
    for tick in 0..64 {
        let r = current.smooth_damp(target, velocity, fx(SMOOTH_TIME), None, fx(TICK));
        current = r.0;
        velocity = r.1;
        let gap = 30_000_000 - current.micros();
        assert!(gap >= 0, "passed the target on tick {}", tick);
        assert!(gap <= last_gap, "moved away on tick {}", tick);
        last_gap = gap;
        if tick == 19 {
            assert_eq!((current.micros(), velocity.micros()), (29_789_175, 3_634_941));
        }
    }
    assert!(last_gap <= 10_000);
    assert_eq!((current.micros(), velocity.micros()), (30_000_000, 0));
}

#[test]
fn camera_distance_settles_from_above_as_from_below() {
    let target = fx(15_000_000);
    let mut current = fx(30_000_000);
    let mut velocity = fx(0);
    for _ in 0..64 {
        let before = current.micros();
        let r = current.smooth_damp(target, velocity, fx(SMOOTH_TIME), None, fx(TICK));
        current = r.0;
        velocity = r.1;
        assert!(current.micros() >= 15_000_000);
        assert!(current.micros() <= before);
        assert!(velocity.micros() <= 0);
    }
    assert_eq!((current.micros(), velocity.micros()), (15_000_000, 0));
}

#[test]
fn vector_damper_at_rest_on_its_target_stays() {
    let x = v3(1_000_000, -2_000_000, 3_500_000);
    let r = x.smooth_damp(x, FixedVec3::zero(), fx(SMOOTH_TIME), None, fx(TICK));
    assert_eq!(r.0, x);
    assert_eq!(raw3(r.1), (0, 0, 0));
    let limited = x.smooth_damp(x, FixedVec3::zero(), fx(SMOOTH_TIME), Some(fx(0)), fx(TICK));
    assert_eq!(limited.0, x);
    assert_eq!(raw3(limited.1), (0, 0, 0));
}

#[test]
fn vector_damper_moves_each_component() {
    let r = v3(0, 4_000_000, 0).smooth_damp(
        v3(3_000_000, 0, -2_000_000),
        FixedVec3::zero(),
        fx(SMOOTH_TIME),
        None,
        fx(TICK),
    );
    assert_eq!(raw3(r.0), (118_652, 3_841_797, -79_102));
    assert_eq!(raw3(r.1), (13_720_706, -18_294_275, -9_147_137));
}

#[test]
fn vector_damper_limits_the_length_of_the_change() {
    let r = v3(0, 4_000_000, 0).smooth_damp(
        v3(3_000_000, 0, -12_000_000),
        v3(1_000_000, 0, 0),
        fx(SMOOTH_TIME),
        Some(fx(20_000_000)),
        fx(TICK),
    );
    assert_eq!(raw3(r.0), (29_689, 3_975_660, -73_017));
    assert_eq!(raw3(r.1), (2_613_959, -2_814_493, -8_443_495));
}

#[test]
fn vector_damper_lands_on_a_target_it_would_pass() {
    let r = FixedVec3::zero().smooth_damp(
        v3(10, 0, 0),
        v3(5_000_000, 0, 0),
        fx(SMOOTH_TIME),
        None,
        fx(TICK),
    );
    assert_eq!(raw3(r.0), (10, 0, 0));
    assert_eq!(raw3(r.1), (0, 0, 0));
}

#[test]
fn angles_interpolate_by_the_shorter_way_round() {
    assert_eq!(fx(3_000_000).lerp_angle(fx(-3_000_000), fx(500_000)).micros(), 3_141_592);
    assert_eq!(fx(0).lerp_angle(fx(7_000_000), fx(1_000_000)).micros(), 716_815);
    assert_eq!(fx(0).lerp_angle(fx(1_000_000), fx(250_000)).micros(), 250_000);
    assert_eq!(fx(0).lerp_angle(fx(3_141_593), fx(1_000_000)).micros(), 3_141_593);
    assert_eq!(fx(0).lerp_angle(fx(3_141_594), fx(1_000_000)).micros(), -3_141_591);
}

#[test]
fn angle_interpolation_holds_its_share_between_nought_and_one() {
    assert_eq!(fx(1_000_000).lerp_angle(fx(0), fx(2_000_000)).micros(), 0);
    assert_eq!(fx(100).lerp_angle(fx(200), fx(-5)).micros(), 100);
    assert_eq!(fx(100).lerp_angle(fx(200), fx(0)).micros(), 100);
}

#[test]
fn damper_at_the_bound_saturates() {
    let far = 1_000_000_000_000;
    let shortest = fx(far).smooth_damp(fx(-far), fx(far), fx(100), None, fx(far));
    assert_eq!((shortest.0.micros(), shortest.1.micros()), (-far, 0));
    let longest = fx(far).smooth_damp(fx(-far), fx(far), fx(far), None, fx(far));
    assert_eq!((longest.0.micros(), longest.1.micros()), (far, -147_059_176_464));
    assert_eq!(damp(-far, far, -far, None), (-932_332_796_875, far));
    assert_eq!(damp(far, -far, far, Some(far)), (far, 45_735_687_500));
    assert_eq!(damp(-far, far, -far, Some(0)), (-far, -503_092_562_500));
}

#[test]
fn vector_damper_at_the_bound_saturates() {
    let far = 1_000_000_000_000;
    let r = v3(far, far, far).smooth_damp(
        v3(-far, -far, -far),
        v3(far, -far, far),
        fx(SMOOTH_TIME),
        None,
        fx(TICK),
    );
    assert_eq!(raw3(r.0), (932_332_796_875, 909_464_953_125, 932_332_796_875));
    assert_eq!(raw3(r.1), (-far, -far, -far));
    let limited = v3(far, far, far).smooth_damp(
        v3(-far, -far, -far),
        v3(far, -far, far),
        fx(SMOOTH_TIME),
        Some(fx(far)),
        fx(far),
    );
    assert_eq!(raw3(limited.0), (942_265_000_000, 942_265_000_000, 942_265_000_000));
    assert_eq!(raw3(limited.1), (0, 0, 0));
    let slow = v3(far, -far, far).smooth_damp(
        v3(-far, far, -far),
        FixedVec3::zero(),
        fx(far),
        Some(fx(far)),
        fx(1),
    );
    assert_eq!(raw3(slow.0), (far, -far, far));
    assert_eq!(raw3(slow.1), (0, 0, 0));
}

#[test]
fn angles_at_the_bound_saturate() {
    let far = 1_000_000_000_000;
    assert_eq!(fx(far).lerp_angle(fx(-far), fx(1_000_000)).micros(), far);
    assert_eq!(fx(-far).lerp_angle(fx(far), fx(1_000_000)).micros(), -far);
    assert_eq!(fx(far).lerp_angle(fx(far - 1), fx(500_000)).micros(), far);
}

#[test]
fn damper_landing_exactly_from_below_keeps_its_velocity() {
    let target = 30_000_000;
    let mut state = (target - 2, 295);
    let mut gaps = Vec::new();
    for _ in 0..6 {
        state = damp(state.0, target, state.1, None);
        gaps.push((state.0 - target, state.1));
    }
    assert_eq!(gaps, vec![(0, 171), (1, 95), (1, 54), (1, 24), (0, 0), (0, 0)]);
}

#[test]
fn damper_landing_exactly_from_above_comes_to_rest() {
    let target = 30_000_000;
    let mut state = (target + 2, -295);
    let mut gaps = Vec::new();
    for _ in 0..3 {
        state = damp(state.0, target, state.1, None);
        gaps.push((state.0 - target, state.1));
    }
    assert_eq!(gaps, vec![(0, 0), (0, 0), (0, 0)]);
}
