use z13helper::config::Config;
use z13helper::curve::{high_power_curve, validate, Curve};
use z13helper::profile::{stock_fan_curves, FanControlMode, Profile};
use z13helper::protocol::{ControllerAction, LightingState};
use z13helper::ui::app::{
    controller_back, factory_profiles_to_read, handle_controller_action, locked_report,
    record_applied, save_refusal, seed_factory_fan_curves, warnings_report, ApplyGate, BackAction,
    ControllerCommand, FocusMove,
};
use z13helper::ui::curve_editor::{
    adjust_authored_point, axis_label, curve_for_display, point_tip, same_curve, CurveEditor,
    EditorKey, KeyResult,
};
use z13helper::ui::fans_window::{
    chart_label, chosen_ppd, commit_fans, confirm_override, direct_status, duty_percent, edit_first_curve,
    edit_second_curve, entered_name, factory_curves, finish_restore, hysteresis_is_editable,
    initial_limits, initial_undervolt, load, notes_protection, ppd_index,
    profile_actions_are_editable, profile_names, protection_active, remove_question,
    restore_question, selected_place, set_cpu_temp_limit, set_direct, set_fan_curve_applied,
    set_hysteresis, set_undervolt, set_unified, switch_profile, sync_ppd_choices,
    toggle_override, undervolt_follow_up, update_power, FanEdits, FollowUp, Limits, OverrideStep,
    PowerControls,
};
use z13helper::ui::main_window::{
    battery_limit_title, battery_status_label, charge_label, color_is_shown, color_text,
    current_label, device_lighting, health_label, lighting_intent, lighting_mode_index,
    lighting_speed_index, one_time_charge_tooltip, shown_battery_limit, snap_battery_limit,
    speed_is_shown, telemetry_label,
};

fn test_curve() -> Curve {
    [
        [20, 0],
        [30, 32],
        [40, 64],
        [50, 96],
        [60, 128],
        [70, 160],
        [80, 192],
        [90, 224],
    ]
}

#[test]
fn keyboard_pwm_adjustment_uses_saturating_authored_deltas() {
    let mut curve = test_curve();
    curve[0][1] = 0;
    assert!(!adjust_authored_point(&mut curve, 0, 0, -1));
    assert_eq!(curve[0][1], 0);

    curve[0][1] = 1;
    assert!(adjust_authored_point(&mut curve, 0, 0, -1));
    assert_eq!(curve[0][1], 0);

    curve[0][1] = 0;
    assert!(adjust_authored_point(&mut curve, 0, 0, 1));
    assert_eq!(curve[0][1], 2);

    curve[0][1] = 254;
    assert!(adjust_authored_point(&mut curve, 0, 0, 1));
    assert_eq!(curve[0][1], 255);

    curve[0][1] = 255;
    assert!(adjust_authored_point(&mut curve, 0, 0, -1));
    assert_eq!(curve[0][1], 253);
    assert!(validate(&curve).is_ok());
}

#[test]
fn keyboard_adjustment_preserves_authored_curve_invariants() {
    let mut curve = test_curve();
    assert!(adjust_authored_point(&mut curve, 4, 0, -5));
    assert!(validate(&curve).is_ok());
    for pair in curve.windows(2) {
        assert!(pair[1][0] > pair[0][0]);
        assert!(pair[1][1] >= pair[0][1]);
    }
}

#[test]
fn protection_only_changes_the_display_copy() {
    let mut authored = Curve::default();
    authored[6] = [95, 10];
    authored[7] = [100, 20];
    assert_eq!(curve_for_display(&authored, false), authored);
    assert_eq!(
        curve_for_display(&authored, true),
        high_power_curve(&authored)
    );
    assert_eq!(authored[6], [95, 10]);
    assert_eq!(authored[7], [100, 20]);
}

#[test]
fn builtins_cannot_be_renamed_or_removed() {
    let mut config = Config::default();
    assert!(!profile_actions_are_editable(&config, "silent"));
    let custom = config.add_custom().id.clone();
    assert!(profile_actions_are_editable(&config, &custom));
}

fn watts(power_microwatts: u64) -> String {
    format!("{:.1}", power_microwatts as f64 / 1_000_000.0)
}

#[test]
fn formats_status_with_live_power() {
    assert_eq!(
        battery_status_label(Some("Charging"), Some(&watts(14_500_000))),
        "Charging: 14.5 W"
    );
    assert_eq!(battery_status_label(Some("Full"), Some(&watts(0))), "Full");
    assert_eq!(battery_status_label(Some("Full"), None), "Full");
    assert_eq!(
        battery_status_label(Some("Full"), Some(&watts(12_300_000))),
        "Full"
    );
    assert_eq!(battery_status_label(None, None), "\u{2014}");
}

#[test]
fn formats_normal_and_one_time_charge_limits() {
    assert_eq!(
        battery_limit_title(false, Some(80)),
        "Battery Charge Limit: 80%"
    );
    assert_eq!(
        battery_limit_title(true, Some(80)),
        "Battery Charge Limit: One time to 100%"
    );
}

#[test]
fn battery_labels_name_what_is_known() {
    assert!(charge_label(Some(55)).contains("55%"));
    assert_ne!(charge_label(None), charge_label(Some(0)));
    assert!(health_label(Some(97)).contains("97%"));
    assert_ne!(
        one_time_charge_tooltip(true),
        one_time_charge_tooltip(false)
    );
    for raw in [40, 57, 60, 79, 82, 100] {
        let snapped = snap_battery_limit(raw);
        assert_eq!(snap_battery_limit(snapped), snapped);
    }
    assert_eq!(shown_battery_limit(80), 80);
}

#[test]
fn editors_move_points_by_key() {
    let mut editor = CurveEditor::new(test_curve());
    assert_eq!(editor.selected(), 0);
    assert_eq!(editor.press(EditorKey::Up, false), KeyResult::Changed);
    assert_eq!(editor.curve()[0][1], 2);
    assert_eq!(editor.press(EditorKey::Tab, false), KeyResult::Handled);
    assert_eq!(editor.selected(), 1);
    assert_eq!(editor.press(EditorKey::Other, false), KeyResult::Proceed);
    editor.select(4);
    assert_eq!(editor.selected(), 4);
    editor.set_editable(false);
    assert!(!editor.editable());
    editor.set_editable(true);
    assert!(editor.drag(66, 200, false));
    assert_eq!(editor.curve()[4], [66, 200]);
    validate(&editor.curve()).unwrap();
    editor.set_high_power_protection(true);
    assert_eq!(editor.display_curve(), high_power_curve(&editor.curve()));
    editor.select(7);
    let before = editor.curve();
    assert_eq!(editor.press(EditorKey::Up, true), KeyResult::Handled);
    assert!(same_curve(&before, &editor.curve()));
    editor.set_muted(true);
    assert!(editor.muted());
    editor.set_curve(test_curve());
    assert!(same_curve(&editor.curve(), &test_curve()));
    assert!(!editor.value_text().is_empty());
    assert!(point_tip(60, 204).contains("80%"));
    assert_eq!(axis_label(50), "50%");
}

#[test]
fn unified_editing_keeps_both_curves_equal() {
    let mut profile = Profile::builtin("balanced", "Balanced");
    profile.unified_fan_control = true;
    edit_first_curve(&mut profile, test_curve());
    assert_eq!(profile.fan_curves[0], profile.fan_curves[1]);
    set_unified(&mut profile, false);
    let mut other = test_curve();
    other[0][1] = 9;
    edit_second_curve(&mut profile, other);
    assert_eq!(profile.fan_curves[1], other);
    assert_ne!(profile.fan_curves[0], profile.fan_curves[1]);
    set_unified(&mut profile, true);
    assert_eq!(profile.fan_curves[0], profile.fan_curves[1]);
}

#[test]
fn fan_controls_edit_one_setting() {
    let mut profile = Profile::builtin("balanced", "Balanced");
    set_fan_curve_applied(&mut profile, true);
    assert!(profile.apply_fan_curve);
    set_direct(&mut profile, true);
    assert_eq!(profile.fan_control_mode, FanControlMode::Direct);
    set_hysteresis(&mut profile, true, 5);
    set_hysteresis(&mut profile, false, 2);
    assert_eq!(profile.fan_hysteresis_up, 5);
    assert_eq!(profile.fan_hysteresis_down, 2);
    set_undervolt(&mut profile, -12, true);
    assert_eq!(profile.cpu_co, -12);
    assert!(profile.apply_undervolt);
    set_cpu_temp_limit(&mut profile, 88);
    assert_eq!(profile.cpu_temp_limit, 88);
    let shown = load(&profile, false);
    assert!(shown.direct);
    assert_eq!(shown.cpu_co, -12);
    assert_eq!(shown.cpu_temp_limit, 88);
    assert_eq!(shown.hysteresis_up, 5);
    assert_eq!(shown.chart_label, chart_label(profile.unified_fan_control));
    commit_fans(
        &mut profile,
        FanEdits {
            first: test_curve(),
            second: test_curve(),
            enabled: false,
            unified: false,
        },
    );
    assert!(!profile.apply_fan_curve);
    assert_eq!(profile.fan_curves[0], test_curve());
}

#[test]
fn power_limits_push_each_other() {
    let limits = Limits {
        pl1: 60,
        pl2: 50,
        pl3: 40,
    };
    let first = limits.after_first();
    assert!(first.pl1 <= first.pl2 && first.pl2 <= first.pl3);
    assert_eq!(first.pl1, 60);
    let third = limits.after_third();
    assert_eq!((third.pl1, third.pl2, third.pl3), (60, 50, 50));
    let second = limits.after_second();
    assert_eq!((second.pl1, second.pl2, second.pl3), (60, 60, 60));
    let mut profile = Profile::builtin("balanced", "Balanced");
    let stock = update_power(
        &mut profile,
        PowerControls {
            ppd_profile: Some("performance".into()),
            enabled: false,
            limits,
        },
    );
    assert_eq!((stock.pl1, stock.pl2, stock.pl3), (70, 86, 86));
    assert_eq!(profile.fan_curves, stock_fan_curves(Some("performance")));
    update_power(
        &mut profile,
        PowerControls {
            ppd_profile: Some("performance".into()),
            enabled: true,
            limits: Limits {
                pl1: 81,
                pl2: 85,
                pl3: 90,
            },
        },
    );
    assert_eq!(profile.pl1_spl, 81);
    assert!(profile.apply_power_limits);
    assert!(protection_active(&profile, false));
    assert!(!protection_active(&profile, true));
}

#[test]
fn protection_is_disabled_only_when_confirmed() {
    let mut config = Config::default();
    assert_eq!(toggle_override(&mut config, true), OverrideStep::Ask);
    assert_eq!(config, Config::default());

    confirm_override(&mut config);
    let confirmed = Config {
        disable_high_power_fan_protection: true,
        ..Config::default()
    };
    assert_eq!(config, confirmed);

    assert_eq!(
        toggle_override(&mut config, false),
        OverrideStep::Restored { protection: false }
    );
    assert_eq!(config, Config::default());

    confirm_override(&mut config);
    let active = config.active_profile.clone();
    for profile in &mut config.profiles {
        if profile.id == active {
            profile.apply_power_limits = true;
            profile.pl1_spl = 80;
        }
    }
    assert_eq!(
        toggle_override(&mut config, false),
        OverrideStep::Restored { protection: true }
    );
    assert!(!config.disable_high_power_fan_protection);
}

#[test]
fn choices_and_questions_name_profiles() {
    let mut config = Config::default();
    let custom = config.add_custom().id.clone();
    assert!(config.rename(&custom, "Gaming"));
    assert!(restore_question(&config, &custom).contains("Gaming"));
    assert!(remove_question(&config, &custom).contains("Gaming"));
    assert_eq!(
        profile_names(&config),
        ["Silent", "Balanced", "Turbo", "Gaming"]
    );
    assert_eq!(selected_place(&config, &custom), 3);
    assert_eq!(entered_name("  Quiet  ").as_deref(), Some("Quiet"));
    assert_eq!(entered_name(" \t"), None);
    let choices = sync_ppd_choices(
        &vec!["balanced".into(), "performance".into()],
        Some("performance"),
    );
    assert_eq!(choices.choices[choices.selected], "performance");
    assert_eq!(chosen_ppd(None), None);
    assert_ne!(ppd_index(Some("performance")), ppd_index(Some("balanced")));
    let edits = FanEdits {
        first: test_curve(),
        second: test_curve(),
        enabled: true,
        unified: true,
    };
    assert_eq!(
        switch_profile(&mut config, &custom, edits, 0).as_deref(),
        Some("silent")
    );
    assert_eq!(config.find(&custom).unwrap().fan_curves[0], test_curve());
}

#[test]
fn factory_curves_replace_unauthored_ones() {
    let measured = [test_curve(), test_curve()];
    let curves = vec![("balanced".to_owned(), measured)];
    assert_eq!(factory_curves(&curves, "balanced"), Some(measured));
    assert_eq!(factory_curves(&curves, "performance"), None);
    let mut config = Config::default();
    let wanted = factory_profiles_to_read(&config).unwrap();
    assert!(wanted.contains(&"balanced".to_owned()));
    seed_factory_fan_curves(&mut config, &curves);
    assert_eq!(config.find("balanced").unwrap().fan_curves, measured);
    assert_eq!(
        config.find("turbo").unwrap().fan_curves,
        stock_fan_curves(Some("performance"))
    );
    let mut restored = Profile::builtin("balanced", "Balanced");
    assert_eq!(finish_restore(&mut restored, Some(Ok(curves))), None);
    assert_eq!(restored.fan_curves, measured);
    assert!(finish_restore(&mut restored, Some(Err("offline".into()))).is_some());
}

#[test]
fn direct_fans_report_duty_and_speed() {
    assert_eq!(duty_percent(255), 100);
    assert_eq!(duty_percent(0), 0);
    let text = direct_status(true, FanControlMode::Direct, [204, 255], [3000, 3100]);
    assert!(text.contains("80%") && text.contains("3100"));
    assert_ne!(
        direct_status(false, FanControlMode::Direct, [0, 0], [0, 0]),
        text
    );
}

#[test]
fn lighting_choices_make_a_state() {
    assert_eq!(color_text(1, 0xab, 255), "01ABFF");
    let state = lighting_intent(Some("Static"), Some("Normal"), "01ABFF".into()).unwrap();
    assert_eq!(state.mode, "static");
    assert_eq!(state.color, "01ABFF");
    let index = lighting_mode_index(&state);
    assert!(color_is_shown(index));
    assert!(!speed_is_shown(index));
    assert_ne!(lighting_speed_index("fast"), lighting_speed_index("slow"));
    assert!(lighting_intent(None, None, "01ABFF".into()).is_none());
    let common = LightingState::default();
    let devices = vec![("keyboard".to_owned(), state.clone())];
    assert_eq!(device_lighting(&devices, "keyboard", &common), &state);
    assert_eq!(device_lighting(&devices, "lightbar", &common), &common);
}

#[test]
fn labels_show_the_machine() {
    let mut config = Config::default();
    assert_eq!(current_label(&config), "Mode: Balanced");
    config.active_profile = "missing".into();
    assert_eq!(current_label(&config), "Mode: Balanced");
    config.active_profile = "turbo".into();
    assert_eq!(current_label(&config), "Mode: Turbo");
    let text = telemetry_label(Some(61), [3000, 3100]);
    assert!(text.contains("61") && text.contains("3000") && text.contains("3100"));
}

#[test]
fn applies_are_serialised() {
    let mut gate = ApplyGate::default();
    assert!(gate.request());
    assert!(!gate.request());
    assert!(gate.finish());
    assert!(!gate.finish());
    let mut config = Config::default();
    config.active_profile = "turbo".into();
    record_applied(&mut config, true);
    assert_eq!(config.last_profile_on_battery, "turbo");
    assert_eq!(warnings_report(&Vec::new()), None);
    assert!(warnings_report(&vec!["a".into(), "b".into()])
        .unwrap()
        .contains("a"));
    assert!(locked_report("broken").contains("broken"));
    assert_eq!(save_refusal(true), None);
    assert!(save_refusal(false).is_some());
}

#[test]
fn controller_actions_move_the_focus() {
    assert_eq!(
        handle_controller_action(ControllerAction::Up, false, true, true),
        ControllerCommand::Ignore
    );
    assert_eq!(
        handle_controller_action(ControllerAction::Up, true, true, true),
        ControllerCommand::Focus(FocusMove::Up)
    );
    assert_eq!(
        handle_controller_action(ControllerAction::Back, true, true, true),
        ControllerCommand::Back
    );
    assert_eq!(controller_back(true, true, None), BackAction::CloseDialog);
    assert_eq!(controller_back(false, false, None), BackAction::CloseWindow);
    assert_eq!(
        controller_back(false, true, Some("main")),
        BackAction::HideWindow
    );
    assert_eq!(
        controller_back(false, true, Some("lighting")),
        BackAction::ShowMainPage
    );
}

#[test]
fn controls_start_with_the_active_profile() {
    let mut profile = Profile::builtin("turbo", "Turbo");
    profile.pl1_spl = 60;
    profile.pl2_sppt = 65;
    profile.fppt = 75;
    profile.cpu_co = -20;
    profile.cpu_temp_limit = 90;
    assert_eq!(
        initial_limits(Some(&profile)),
        Limits {
            pl1: 60,
            pl2: 65,
            pl3: 75
        }
    );
    assert_eq!(
        initial_limits(None),
        Limits {
            pl1: 52,
            pl2: 71,
            pl3: 70
        }
    );
    assert_eq!(initial_undervolt(Some(&profile)), (-20, 90));
    assert_eq!(initial_undervolt(None), (0, 95));
    assert!(notes_protection(80));
    assert!(!notes_protection(79));
}

#[test]
fn edits_reach_the_hardware_only_where_they_should() {
    assert_eq!(undervolt_follow_up(true), FollowUp::Apply);
    assert_eq!(undervolt_follow_up(false), FollowUp::Save);
    assert!(hysteresis_is_editable(true, FanControlMode::Direct));
    assert!(!hysteresis_is_editable(true, FanControlMode::Firmware));
    assert!(!hysteresis_is_editable(false, FanControlMode::Direct));
}
