use z13helper::envelope::{
    accept_envelope, check_frame_end, decode_envelope, is_allowed_field, read_envelope,
    unknown_field, unknown_field_message, EnvelopeParts,
};
use z13helper::profile::{stock_fan_curves, FanControlMode, Profile};
use z13helper::protocol::{
    stock_tdp, unknown_ppd_message, ApplyRequest, ClientId, Command, ControllerAction, DaemonEvent,
    DaemonEventKind, DaemonState, FanHysteresis, LightingState, RequestId, RequestOutcome,
    WireRequest, WireResponse, WireStatus, MAX_FAN_TEMPERATURE_AVERAGE_SECONDS, MAX_FRAME_BYTES,
    PROTOCOL_VERSION,
};

#[test]
fn hysteresis_bounds_match_exposed_levels() {
    assert!(FanHysteresis { up: 1, down: 5 }.validate().is_ok());
    assert!(FanHysteresis { up: 0, down: 3 }.validate().is_err());
    assert!(FanHysteresis { up: 3, down: 6 }.validate().is_err());
}

#[test]
fn temperature_average_is_profile_configurable_and_bounded() {
    let mut profile = Profile::builtin("balanced", "Balanced");
    assert_eq!(
        ApplyRequest::from_profile(&profile, false).fan_temperature_average_seconds,
        6
    );

    profile.fan_temperature_average_seconds = 0;
    assert!(ApplyRequest::from_profile(&profile, false)
        .validate()
        .is_ok());

    profile.fan_temperature_average_seconds = MAX_FAN_TEMPERATURE_AVERAGE_SECONDS + 1;
    assert!(ApplyRequest::from_profile(&profile, false)
        .validate()
        .is_err());
}

#[test]
fn frame_limit_is_one_shared_v3_boundary() {
    assert_eq!(MAX_FRAME_BYTES, 64 * 1024);
    assert_eq!(DaemonEventKind::ALL.len(), 4);
    assert_eq!(
        DaemonEventKind::parse("state-changed"),
        Some(DaemonEventKind::StateChanged)
    );
    assert_eq!(DaemonEventKind::parse("unknown"), None);
}

#[test]
fn event_kinds_survive_writing() {
    for kind in DaemonEventKind::ALL {
        assert_eq!(DaemonEventKind::parse(kind.as_str()), Some(kind));
    }
}

#[test]
fn controller_capture_and_action_roundtrip() {
    let request = WireRequest {
        version: PROTOCOL_VERSION,
        client_id: ClientId::new(1).unwrap(),
        request_id: RequestId::new(2).unwrap(),
        command: Command::SetControllerCapture { enabled: true },
    };
    let frame = format!(
        r#"{{"version":{},"client_id":"{}","request_id":{},"cmd":"set-controller-capture","enabled":true}}"#,
        request.version,
        request.client_id.to_hex(),
        request.request_id.get()
    );
    let envelope = decode_envelope(frame.as_bytes()).unwrap();
    assert_eq!(envelope.command, "set-controller-capture");
    assert_eq!(envelope.client_id, request.client_id);
    assert_eq!(envelope.request_id, request.request_id);
    let event = DaemonEvent {
        kind: DaemonEventKind::ControllerAction,
        action: Some(ControllerAction::Accept),
        on_battery: None,
    };
    assert_eq!(event.kind.as_str(), "controller-action");
}

#[test]
fn command_roundtrips_keep_typed_decodes() {
    let cases = [
        (
            r#""cmd":"set-battery-one-time-charge","enabled":true"#,
            "set-battery-one-time-charge",
        ),
        (
            r#""cmd":"get-factory-fan-curves","ppd_profiles":["power-saver","balanced"]"#,
            "get-factory-fan-curves",
        ),
        (
            r#""cmd":"apply-undervolt-once","offset":-20"#,
            "apply-undervolt-once",
        ),
    ];
    for (fields, name) in cases {
        let frame = format!(
            r#"{{"version":3,"client_id":"00000000000000000000000000000001","request_id":3,{fields}}}"#
        );
        let envelope = decode_envelope(frame.as_bytes()).unwrap();
        assert_eq!(envelope.command, name);
        assert_eq!(envelope.request_id.get(), 3);
    }
}

#[test]
fn v3_request_golden_is_strict_and_correlated() {
    let envelope = decode_envelope(
        br#"{"version":3,"client_id":"00000000000000000000000000000001","request_id":42,"cmd":"get-state"}"#,
    )
    .unwrap();
    assert_eq!(envelope.version, 3);
    assert_eq!(envelope.client_id, ClientId::new(1).unwrap());
    assert_eq!(envelope.request_id.get(), 42);
    assert_eq!(envelope.command, "get-state");
}

#[test]
fn client_identity_is_fixed_width_nonzero_hex() {
    let client_id = ClientId::new(0xabu128).unwrap();
    assert_eq!(client_id.to_hex(), "000000000000000000000000000000ab");
    assert_eq!(
        ClientId::parse("000000000000000000000000000000AB").unwrap(),
        client_id
    );
    for invalid in [
        "00000000000000000000000000000000",
        "1",
        "gggggggggggggggggggggggggggggggg",
        "",
    ] {
        assert!(ClientId::parse(invalid).is_err());
    }
    assert_eq!(
        "000000000000000000000000000000ab".parse::<ClientId>(),
        Ok(client_id)
    );
    assert!(ClientId::new(0).is_none());
    let largest = ClientId::new(u128::MAX).unwrap();
    assert_eq!(ClientId::parse(&largest.to_hex()), Ok(largest));
    assert!(largest.same_as(largest));
    assert!(!largest.same_as(client_id));
}

#[test]
fn zero_and_unknown_request_fields_are_rejected() {
    assert!(decode_envelope(
        br#"{"version":3,"client_id":"00000000000000000000000000000001","request_id":0,"cmd":"get-state"}"#
    )
    .is_err());
    assert!(decode_envelope(
        br#"{"version":3,"client_id":"00000000000000000000000000000001","request_id":1,"cmd":"get-state","future":true}"#
    )
    .is_err());
}

#[test]
fn each_broken_envelope_rule_is_named() {
    let cases: [(&[u8], &str); 10] = [
        (b"[]", "request envelope must be an object"),
        (br#"{"version":3}"#, "request command must be a string"),
        (
            br#"{"cmd":"get-state","future":true}"#,
            "unknown request field \"future\"",
        ),
        (br#"{"cmd":"get-state"}"#, "missing request version"),
        (br#"{"cmd":"get-state","version":3}"#, "missing client ID"),
        (
            br#"{"cmd":"get-state","version":3,"client_id":"1"}"#,
            "client ID must be exactly 32 hexadecimal digits",
        ),
        (
            br#"{"cmd":"get-state","version":3,"client_id":"00000000000000000000000000000000"}"#,
            "client ID must be non-zero",
        ),
        (
            br#"{"cmd":"get-state","version":3,"client_id":"00000000000000000000000000000001"}"#,
            "missing request ID",
        ),
        (
            br#"{"cmd":"get-state","version":3,"client_id":"00000000000000000000000000000001","request_id":0}"#,
            "request ID must be non-zero",
        ),
        (
            br#"{"cmd":"get-state","version":3,"client_id":"00000000000000000000000000000001","request_id":1,"enabled":true}"#,
            "unknown request field \"enabled\"",
        ),
    ];
    for (bytes, message) in cases {
        assert_eq!(decode_envelope(bytes), Err(message.to_owned()));
    }
}

#[test]
fn envelope_values_of_a_wrong_type_carry_the_parser_text() {
    let version = serde_json::from_value::<u32>(serde_json::Value::from("x"))
        .unwrap_err()
        .to_string();
    assert_eq!(
        decode_envelope(br#"{"cmd":"get-state","version":"x"}"#),
        Err(version)
    );
    let identity = serde_json::from_value::<String>(serde_json::Value::from(1))
        .unwrap_err()
        .to_string();
    assert_eq!(
        decode_envelope(br#"{"cmd":"get-state","version":3,"client_id":1}"#),
        Err(identity)
    );
    let number = serde_json::from_value::<u64>(serde_json::Value::from(-1))
        .unwrap_err()
        .to_string();
    assert_eq!(
        decode_envelope(
            br#"{"cmd":"get-state","version":3,"client_id":"00000000000000000000000000000001","request_id":-1}"#
        ),
        Err(number)
    );
    let syntax = serde_json::from_slice::<serde_json::Value>(b"{")
        .unwrap_err()
        .to_string();
    assert_eq!(decode_envelope(b"{"), Err(syntax));
}

#[test]
fn an_envelope_is_judged_before_what_follows_it() {
    assert_eq!(
        decode_envelope(br#"{"cmd":"get-state"} x"#),
        Err("missing request version".to_owned())
    );
    let frame: &[u8] = br#"{"cmd":"get-state","version":3,"client_id":"00000000000000000000000000000001","request_id":1} x"#;
    let trailing = serde_json::from_slice::<serde_json::Value>(frame)
        .unwrap_err()
        .to_string();
    assert!(read_envelope(frame).is_ok());
    assert_eq!(check_frame_end(frame), Err(trailing.clone()));
    assert_eq!(decode_envelope(frame), Err(trailing));
    assert_eq!(check_frame_end(&frame[..frame.len() - 1]), Ok(()));
}

#[test]
fn commands_own_their_fields() {
    assert!(is_allowed_field("set-lighting", "device"));
    assert!(is_allowed_field("set-lighting", "state"));
    assert!(!is_allowed_field("get-state", "device"));
    assert!(is_allowed_field("get-outcome", "target_request_id"));
    let keys = vec!["cmd".to_owned(), "extra".to_owned()];
    assert_eq!(unknown_field(&keys, "probe"), Some("extra"));
    assert_eq!(unknown_field_message("\"extra\""), "unknown request field \"extra\"");
    let parts = EnvelopeParts {
        keys: None,
        command: None,
        version: Some(Ok(3)),
        client_id: Some(Err("x".into())),
        request_id: None,
    };
    assert!(accept_envelope(parts).is_err());
}

#[test]
fn outcome_response_golden_is_versioned() {
    let response = WireResponse::progress(RequestId::new(42).unwrap(), RequestOutcome::Started);
    assert_eq!(response.version, 3);
    assert_eq!(response.request_id, Some(RequestId::new(42).unwrap()));
    assert_eq!(response.outcome, RequestOutcome::Started);
    assert!(response.ok);
    assert!(response.state.is_none() && response.error.is_none());
    let done = WireResponse::success(RequestId::new(42).unwrap());
    assert_eq!(done.outcome, RequestOutcome::Completed);
    assert!(done.ok);
}

#[test]
fn complete_apply_is_prevalidated() {
    let mut profile = Profile::builtin("turbo", "Turbo");
    profile.apply_power_limits = true;
    profile.pl1_spl = 80;
    profile.pl2_sppt = 90;
    profile.fppt = 121;
    let request = ApplyRequest::from_profile(&profile, false);
    assert!(request.validate().is_err());

    profile.fppt = 120;
    let request = ApplyRequest::from_profile(&profile, false);
    assert!(request.validate().is_ok());

    let mut request = request;
    request.cpu_temp_limit = 79;
    assert!(request.validate().is_err());
}

#[test]
fn unknown_ppd_profile_has_no_stock_table_and_is_rejected() {
    assert!(stock_tdp(Some("future-mode")).is_none());
    let mut request = ApplyRequest::from_profile(&Profile::builtin("balanced", "Balanced"), false);
    request.ppd_profile = Some("future-mode".into());
    assert!(request.validate().is_err());
    assert!(unknown_ppd_message("\"future-mode\"").contains("\"future-mode\""));
}

#[test]
fn direct_fan_mode_requires_curves() {
    let mut request = ApplyRequest::from_profile(&Profile::builtin("balanced", "Balanced"), false);
    request.fan_mode = FanControlMode::Direct;
    request.fan_curves = None;
    assert!(request.validate().is_err());
    request.fan_curves = Some(stock_fan_curves(Some("balanced")));
    assert!(request.validate().is_ok());
}

#[test]
fn high_power_request_carries_profiles_measured_curve_for_protection() {
    let mut profile = Profile::builtin("turbo", "Turbo");
    profile.apply_power_limits = true;
    profile.pl1_spl = 81;
    profile.pl2_sppt = 90;
    profile.fppt = 100;
    profile.fan_curves[0][0] = [42, 43];
    let request = ApplyRequest::from_profile(&profile, false);
    assert_eq!(request.fan_curves.unwrap()[0][0], [42, 43]);

    let overridden = ApplyRequest::from_profile(&profile, true);
    assert!(overridden.fan_curves.is_none());
}

#[test]
fn unified_fan_control_applies_the_first_curve_to_both_fans() {
    let mut profile = Profile::builtin("turbo", "Turbo");
    profile.apply_fan_curve = true;
    profile.unified_fan_control = true;
    profile.fan_curves[0][0] = [42, 43];
    profile.fan_curves[1][0] = [1, 2];

    let curves = ApplyRequest::from_profile(&profile, false)
        .fan_curves
        .unwrap();
    assert_eq!(curves[0], curves[1]);
    assert_eq!(curves[0][0], [42, 43]);
}

#[test]
fn effective_limits_prefer_the_request_over_the_stock_table() {
    let mut request = ApplyRequest::from_profile(&Profile::builtin("silent", "Silent"), false);
    assert_eq!(request.effective_pl1(), 40);
    assert_eq!(
        request.effective_power_limits(),
        stock_tdp(Some("power-saver"))
    );
    let mut limits = stock_tdp(Some("performance")).unwrap();
    limits.pl1_spl = 33;
    request.power_limits = Some(limits);
    assert_eq!(request.effective_pl1(), 33);
}

#[test]
fn request_numbers_start_at_one() {
    assert!(RequestId::new(0).is_none());
    assert!(RequestId::from_number(0).is_err());
    assert_eq!(RequestId::from_number(5).unwrap().get(), 5);
    assert!(RequestId::new(5)
        .unwrap()
        .same_as(RequestId::new(5).unwrap()));
}

#[test]
fn fresh_states_describe_nothing() {
    assert_eq!(WireStatus::default().generation, 0);
    assert_eq!(
        DaemonState::default().ppd_profile.as_deref(),
        Some("balanced")
    );
    assert_eq!(LightingState::default().brightness, 0);
    assert!(!LightingState::default().enabled);
    assert_eq!(FanHysteresis::default(), FanHysteresis { up: 3, down: 3 });
}
