use z13helper::curve::validate;
use z13helper::label::mode_label;
use z13helper::profile::{
    default_cpu_temp_limit, default_fan_hysteresis, default_fan_temperature_average_seconds,
    default_unified_fan_control, is_known_ppd_profile, stock_fan_curves, stock_ppt, FanControlMode,
    Profile,
};

#[test]
fn factory_defaults_restores_builtin_stock() {
    let mut profile = Profile::builtin("silent", "Silent");
    profile.ppd_profile = Some("performance".into());
    profile.apply_power_limits = true;
    profile.pl1_spl = 10;
    profile.apply_fan_curve = true;
    profile.fan_control_mode = FanControlMode::Direct;
    profile.fan_curves[0][0] = [1, 2];
    profile.apply_undervolt = true;
    profile.cpu_co = -20;
    profile.cpu_temp_limit = 80;
    profile.factory_defaults();
    assert_eq!(profile, Profile::builtin("silent", "Silent"));
}

#[test]
fn g_helper_fallbacks_keep_cpu_and_gpu_distinct() {
    for ppd in ["power-saver", "balanced", "performance"] {
        let curves = stock_fan_curves(Some(ppd));
        assert_ne!(curves[0], curves[1]);
    }
}

#[test]
fn factory_apu_temperature_limit_is_95c() {
    let mut profile = Profile::builtin("balanced", "Balanced");
    assert_eq!(profile.cpu_temp_limit, 95);
    profile.cpu_temp_limit = 80;
    profile.factory_defaults();
    assert_eq!(profile.cpu_temp_limit, 95);
}

#[test]
fn mode_labels_cover_builtin_curve_and_power_variants() {
    let mut cases = Vec::new();
    cases.push((Profile::builtin("balanced", "Balanced"), "Mode: Balanced"));
    let mut firmware = Profile::builtin("balanced", "Balanced");
    firmware.apply_fan_curve = true;
    firmware.apply_power_limits = true;
    firmware.pl1_spl = 20;
    cases.push((firmware, "Mode: Balanced+ 20W"));
    let mut direct = Profile::builtin("balanced", "Balanced");
    direct.apply_fan_curve = true;
    direct.fan_control_mode = FanControlMode::Direct;
    cases.push((direct, "Mode: Balanced+EC"));
    for (profile, expected) in cases {
        assert_eq!(mode_label(&profile), expected);
    }
}

#[test]
fn stock_tables_follow_the_power_profile() {
    assert_eq!(stock_ppt(Some("power-saver")), (40, 55, 55));
    assert_eq!(stock_ppt(Some("balanced")), (52, 71, 70));
    assert_eq!(stock_ppt(Some("performance")), (70, 86, 86));
    for ppd in ["power-saver", "balanced", "performance"] {
        assert!(is_known_ppd_profile(ppd));
        for curve in stock_fan_curves(Some(ppd)) {
            validate(&curve).unwrap();
        }
    }
    assert!(!is_known_ppd_profile("turbo"));
    assert!(!is_known_ppd_profile(""));
}

#[test]
fn builtins_carry_the_documented_defaults() {
    let silent = Profile::builtin("silent", "Silent");
    assert_eq!(silent.ppd_profile.as_deref(), Some("power-saver"));
    assert_eq!(silent.fan_hysteresis_up, default_fan_hysteresis());
    assert_eq!(
        silent.fan_temperature_average_seconds,
        default_fan_temperature_average_seconds()
    );
    assert_eq!(silent.unified_fan_control, default_unified_fan_control());
    assert_eq!(silent.cpu_temp_limit, default_cpu_temp_limit());
    assert!(silent.validate().is_ok());
    let copy = silent.clone();
    assert_eq!(copy, silent);
}

#[test]
fn profiles_outside_the_documented_ranges_are_refused() {
    let good = Profile::builtin("balanced", "Balanced");
    let edit = |change: fn(&mut Profile)| {
        let mut profile = good.clone();
        change(&mut profile);
        profile.validate()
    };
    assert!(edit(|p| p.name = " ".into()).is_err());
    assert!(edit(|p| p.pl1_spl = 94).is_err());
    assert!(edit(|p| p.cpu_temp_limit = 79).is_err());
    assert!(edit(|p| p.cpu_co = 1).is_err());
    assert!(edit(|p| p.fan_hysteresis_up = 0).is_err());
    assert!(edit(|p| p.fan_temperature_average_seconds = 16).is_err());
    assert!(edit(|p| p.fan_curves[1][0] = [0, 256]).is_err());
    assert!(edit(|p| p.cpu_co = -40).is_ok());
}
