use z13helper::client::Client;
use z13helper::ctl::{
    bounded_input, change_request, current_request, expect_arity, expect_arity_between, parse_bool,
    parse_command, parse_i32_in_range, parse_lighting, parse_request_id, run,
    validate_lighting_color, validate_lighting_mode, watch_event, CtlCommand, RequestChange,
};
use z13helper::profile::{stock_fan_curves, FanControlMode};
use z13helper::protocol::{
    DaemonEvent, DaemonEventKind, OverrideState, TdpState, UndervoltState, WireStatus,
};

fn words(text: &str) -> Vec<String> {
    text.split_whitespace().map(str::to_owned).collect()
}

#[test]
fn stdin_is_bounded_by_the_client_frame_limit() {
    let input = vec![b'x'; Client::MAX_FRAME_BYTES + 1];
    let error = bounded_input(String::from_utf8(input).unwrap()).unwrap_err();
    assert!(error.contains("protocol frame limit"));
    let largest = "x".repeat(Client::MAX_FRAME_BYTES);
    assert_eq!(bounded_input(largest.clone()), Ok(largest));
}

#[test]
fn lighting_brightness_must_be_in_hardware_range() {
    let args = vec![
        "keyboard".into(),
        "static".into(),
        "FFFFFF".into(),
        "4".into(),
    ];
    let error = parse_lighting(&args).unwrap_err();
    assert!(error.contains("between 0 and 3"));
    let args = vec!["keyboard".into(), "off".into(), "FFFFFF".into()];
    assert!(parse_lighting(&args).is_err());
}

#[test]
fn command_arity_rejects_trailing_arguments() {
    let args = vec!["unexpected".into()];
    assert!(expect_arity("status", &args, 0).is_err());
    assert!(expect_arity_between("watch", &args, 0, 1).is_ok());
    assert!(expect_arity_between("watch", &["a".into(), "b".into()], 0, 1).is_err());
}

#[test]
fn watch_disconnect_is_an_error() {
    let (sender, receiver) = std::sync::mpsc::channel::<DaemonEvent>();
    drop(sender);
    assert_eq!(
        watch_event(receiver.recv().ok()).unwrap_err(),
        "watch subscription disconnected"
    );
    let event = DaemonEvent {
        kind: DaemonEventKind::StateChanged,
        action: None,
        on_battery: None,
    };
    assert_eq!(watch_event(Some(event)), Ok(event));
}

#[test]
fn documented_numeric_ranges_are_checked_before_use() {
    assert!(parse_i32_in_range("39", "battery limit", 40, 100).is_err());
    assert!(parse_i32_in_range("-41", "undervolt", -40, 0).is_err());
    assert!(parse_i32_in_range("94", "PL1", 5, 93).is_err());
    assert_eq!(parse_i32_in_range("93", "PL1", 5, 93), Ok(93));
    assert!(parse_i32_in_range("many", "PL1", 5, 93).is_err());
}

#[test]
fn bool_parser_accepts_only_documented_values() {
    assert_eq!(parse_bool("on"), Ok(true));
    assert!(parse_bool("true").is_err());
    assert_eq!(parse_bool("off"), Ok(false));
    assert_eq!(
        parse_bool("tr\"ue"),
        Err("expected on or off, got \"tr\\\"ue\"".to_owned())
    );
}

#[test]
fn lighting_words_are_checked() {
    assert!(validate_lighting_color("#00ffAA").is_ok());
    assert!(validate_lighting_color("00ffAA").is_ok());
    assert!(validate_lighting_color("##0ffAA").is_err());
    assert!(validate_lighting_color("00ffA").is_err());
    assert!(validate_lighting_mode("rainbow").is_ok());
    assert!(validate_lighting_mode("disco").is_err());
    let (device, state) = parse_lighting(&words("lightbar breathe 112233 2")).unwrap();
    assert_eq!(device, "lightbar");
    assert!(state.enabled);
    assert_eq!(state.mode, "breathe");
    assert_eq!(state.color, "112233");
    assert_eq!(state.brightness, 2);
    let (_, off) = parse_lighting(&words("keyboard off")).unwrap();
    assert!(!off.enabled);
    assert!(parse_lighting(&words("mouse off")).is_err());
}

#[test]
fn request_ids_are_positive_integers() {
    assert_eq!(parse_request_id("12"), Ok(12));
    assert_eq!(
        parse_request_id("0"),
        Err("request ID must be non-zero".to_owned())
    );
    assert_eq!(
        parse_request_id("x"),
        Err(format!(
            "request ID must be an integer: {}",
            "x".parse::<u64>().unwrap_err()
        ))
    );
}

#[test]
fn every_command_is_parsed() {
    assert!(matches!(run(&words("status")), Ok(CtlCommand::Status)));
    assert!(matches!(run(&words("probe")), Ok(CtlCommand::Probe)));
    assert!(matches!(run(&[]), Ok(CtlCommand::Status)));
    assert!(matches!(run(&words("dance")), Ok(CtlCommand::Usage)));
    assert!(matches!(run(&words("--help")), Ok(CtlCommand::Usage)));
    assert!(matches!(
        run(&words("outcome 00000000000000000000000000000009 77")),
        Ok(CtlCommand::Outcome { request_id: 77, .. })
    ));
    assert!(matches!(run(&words("watch")), Ok(CtlCommand::Watch(_))));
    assert!(matches!(
        run(&words("apply /tmp/request.json")),
        Ok(CtlCommand::Apply { path }) if path == "/tmp/request.json"
    ));
    assert!(matches!(
        run(&words("ppd balanced")),
        Ok(CtlCommand::Ppd(Some(profile))) if profile == "balanced"
    ));
    assert!(matches!(run(&words("ppd off")), Ok(CtlCommand::Ppd(None))));
    assert!(matches!(
        run(&words("tdp 45 60 70")),
        Ok(CtlCommand::Tdp(limits))
            if limits.pl1_spl == 45 && limits.fppt == 70 && limits.apu_sppt == 60
    ));
    assert!(run(&words("tdp 45 60")).is_err());
    assert!(run(&words("tdp 60 45 70")).is_err());
    assert!(matches!(
        run(&words("undervolt -20")),
        Ok(CtlCommand::Undervolt(Some(-20)))
    ));
    assert!(matches!(
        run(&words("fans off")),
        Ok(CtlCommand::Fans { mode: None, .. })
    ));
    assert!(matches!(
        run(&words("lighting keyboard off")),
        Ok(CtlCommand::Lighting { .. })
    ));
    assert!(matches!(
        run(&words("battery-limit 80")),
        Ok(CtlCommand::BatteryLimit(80))
    ));
    assert!(run(&words("battery-limit 39")).is_err());
    assert!(run(&words("status now")).is_err());
    assert!(parse_command("watch", &words("nothing")).is_err());
}

#[test]
fn focused_changes_keep_the_rest_of_the_machine() {
    let state = WireStatus {
        ppd_profile: Some("performance".into()),
        overrides: OverrideState {
            power: true,
            fans: false,
            undervolt: true,
        },
        tdp: Some(TdpState {
            pl1_spl: 50,
            pl2_sppt: 60,
            fppt: 70,
            apu_sppt: 70,
            platform_sppt: 70,
        }),
        undervolt: Some(UndervoltState {
            cpu_co: -15,
            active: true,
        }),
        fan_curves: Some(stock_fan_curves(Some("performance"))),
        cpu_temp_limit: None,
        ..WireStatus::default()
    };
    let request = current_request(state);
    assert_eq!(request.ppd_profile.as_deref(), Some("performance"));
    assert_eq!(request.power_limits.unwrap().pl1_spl, 50);
    assert_eq!(request.fan_curves, None);
    assert_eq!(request.undervolt, Some(-15));
    assert_eq!(request.cpu_temp_limit, 95);
    let kept = request.clone();
    let changed = change_request(request, RequestChange::Ppd(None));
    assert_eq!(changed.ppd_profile, None);
    assert_eq!(changed.undervolt, kept.undervolt);
    let curves = stock_fan_curves(Some("balanced"));
    let direct = change_request(
        changed,
        RequestChange::Fans(FanControlMode::Direct, Some(curves)),
    );
    assert_eq!(direct.fan_curves, Some(curves));
    let off = change_request(direct, RequestChange::FansOff);
    assert_eq!(off.fan_curves, None);
    assert_eq!(off.fan_mode, FanControlMode::Firmware);
    assert_eq!(
        change_request(off, RequestChange::Undervolt(None)).undervolt,
        None
    );
}
