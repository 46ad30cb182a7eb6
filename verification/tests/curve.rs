use z13helper::curve::{
    clamp_i32, enforce_curve, high_power_curve, max_i32, min_i32, percent_to_pwm, pwm_to_percent,
    shift_curve_vertical, to_wire, validate, CurveError, POINT_COUNT, PWM_MAX, TEMP_MAX,
    TEMP_MIN,
};
use z13helper::profile::default_fan_curve;

#[test]
fn default_curve_valid() {
    let c = default_fan_curve();
    validate(&c).unwrap();
}

#[test]
fn firmware_table_may_repeat_a_temperature_breakpoint() {
    let mut curve = default_fan_curve();
    curve[7] = curve[6];
    validate(&curve).unwrap();
}

#[test]
fn enforce_pushes_neighbours() {
    let mut c = default_fan_curve();
    // Drag point 3's temp above point 4's.
    c[3][0] = 70;
    enforce_curve(&mut c, 3);
    for i in 1..POINT_COUNT {
        assert!(c[i][0] > c[i - 1][0], "temp not increasing at {i}: {:?}", c);
        assert!(c[i][1] >= c[i - 1][1], "pwm decreasing at {i}: {:?}", c);
    }
}

#[test]
fn ordinary_editing_does_not_apply_high_power_protection() {
    let mut c = default_fan_curve();
    c[0][1] = 0;
    enforce_curve(&mut c, 0);
    assert_eq!(c[0][1], 0);
}

#[test]
fn high_power_copy_locks_last_two_points_without_mutating_authored_curve() {
    let authored = default_fan_curve();
    let protected = high_power_curve(&authored);
    assert_eq!(protected[6][0], 80);
    assert!(protected[6][1] >= 204);
    assert_eq!(protected[7], [90, 255]);
    assert_ne!(authored, protected);
    validate(&protected).unwrap();
}

#[test]
fn no_edge_collapse() {
    let mut c = default_fan_curve();
    // Drag first point to far left.
    c[0][0] = TEMP_MIN;
    enforce_curve(&mut c, 0);
    // All temps must remain distinct.
    let mut seen = std::collections::HashSet::new();
    for pt in &c {
        assert!(seen.insert(pt[0]), "duplicate temp {}", pt[0]);
    }
}

#[test]
fn shift_vertical() {
    let mut c = [[50, 100]; 8];
    for (i, pt) in c.iter_mut().enumerate() {
        pt[0] = 40 + i as i32 * 5;
    }
    shift_curve_vertical(&mut c, 50);
    assert_eq!(c[0][1], 150);
    shift_curve_vertical(&mut c, 200);
    assert_eq!(c[0][1], PWM_MAX);
}

#[test]
fn pwm_percent_roundtrip() {
    assert_eq!(pwm_to_percent(0), 0);
    assert_eq!(pwm_to_percent(255), 100);
    assert_eq!(pwm_to_percent(204), 80);
    assert_eq!(percent_to_pwm(80), 204);
}

#[test]
fn to_wire_format() {
    let c = default_fan_curve();
    let s = to_wire(&c);
    assert!(s.starts_with("58:20,61:43"));
    assert_eq!(s.split(',').count(), 8);
}

#[test]
fn wire_text_writes_every_point() {
    let curve = [
        [-5, 0],
        [0, 1],
        [10, 22],
        [20, 333],
        [30, -4],
        [40, 5],
        [50, 6],
        [60, i32::MIN],
    ];
    assert_eq!(
        to_wire(&curve),
        "-5:0,0:1,10:22,20:333,30:-4,40:5,50:6,60:-2147483648"
    );
}

#[test]
fn percentages_round_like_floats() {
    for pwm in 0..=255 {
        let exact = (pwm as f64 * 100.0 / 255.0).round() as i32;
        assert_eq!(pwm_to_percent(pwm), exact, "pwm {pwm}");
    }
    assert_eq!(percent_to_pwm(-5), 0);
    assert_eq!(percent_to_pwm(101), 255);
    for percent in 0..=100 {
        let exact = (percent as f64 * 255.0 / 100.0).floor() as i32;
        assert_eq!(percent_to_pwm(percent), exact, "percent {percent}");
    }
}

#[test]
fn each_curve_error_has_an_input() {
    let good = default_fan_curve();
    let mut cold = good;
    cold[0][0] = -1;
    assert_eq!(
        validate(&cold),
        Err(CurveError::TempRange { temp: -1, index: 1 })
    );
    let mut loud = good;
    loud[7][1] = 256;
    assert_eq!(
        validate(&loud),
        Err(CurveError::PwmRange { pwm: 256, index: 8 })
    );
    let mut falling = good;
    falling[3][0] = falling[2][0] - 1;
    assert_eq!(validate(&falling), Err(CurveError::TempNotIncreasing));
    let mut sinking = good;
    sinking[3][1] = sinking[2][1] - 1;
    assert_eq!(validate(&sinking), Err(CurveError::PwmDecreasing));
    assert!(CurveError::TempRange { temp: -1, index: 1 }
        .message()
        .contains("-1"));
    assert!(CurveError::PwmRange { pwm: 256, index: 8 }
        .message()
        .contains("256"));
    assert_ne!(
        CurveError::TempNotIncreasing.message(),
        CurveError::PwmDecreasing.message()
    );
    assert!(!CurveError::BadLength.message().is_empty());
}

#[test]
fn enforcing_keeps_the_dragged_point_and_is_stable() {
    let mut c = default_fan_curve();
    c[4] = [75, 180];
    enforce_curve(&mut c, 4);
    assert_eq!(c[4], [75, 180]);
    let again = {
        let mut copy = c;
        enforce_curve(&mut copy, 4);
        copy
    };
    assert_eq!(again, c);
    validate(&c).unwrap();
    let before = c;
    enforce_curve(&mut c, 99);
    assert_eq!(c, before);
}

#[test]
fn bounds_pick_the_nearest_allowed_value() {
    assert_eq!(clamp_i32(-1, 0, 5), 0);
    assert_eq!(clamp_i32(6, 0, 5), 5);
    assert_eq!(clamp_i32(3, 0, 5), 3);
    assert_eq!(min_i32(2, 3), 2);
    assert_eq!(max_i32(2, 3), 3);
}

#[test]
fn enforcing_keeps_points_apart_at_the_edges() {
    let mut c = [[TEMP_MAX, 100]; 8];
    enforce_curve(&mut c, 0);
    assert_eq!(
        c.map(|point| point[0]),
        [103, 104, 105, 106, 107, 108, 109, 110]
    );
    let mut c = [[TEMP_MIN, 100]; 8];
    enforce_curve(&mut c, 7);
    for i in 1..POINT_COUNT {
        assert!(c[i][0] > c[i - 1][0], "{c:?}");
    }
}
