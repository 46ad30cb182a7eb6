use z13helper::client::{IoFailure, IoKind};
use z13helper::ui::fans_window::Limits;
use z13helper::z13ctl::apply::{apply_profile, Daemon};
use z13helper::z13ctl::client::{
    accept_subscription, classify_dial_error, exchange, map_io_error, normalize_profile,
    received_line, request_line, subscription_step, ByteRead, Client, Expected, RawLine, RawStep,
    Reply, StreamStep,
};
use z13helper::z13ctl::config::{Config, CONFIG_VERSION};
use z13helper::z13ctl::curve::floor_pwm;
use z13helper::z13ctl::debounce::PowerDebouncer;
use z13helper::z13ctl::error::DaemonError;
use z13helper::z13ctl::label::mode_label;
use z13helper::z13ctl::manual_fan::{
    classify_dial_error as classify_fan_dial_error, exchange as fan_exchange, reported_status,
    ManualFanClient, ManualFanResponse, ManualFanStatus,
};
use z13helper::z13ctl::panel::{
    base_at, base_index, commit, edited_name, lighting_index, telemetry_label, visible_rows,
    warns_about_force,
};
use z13helper::z13ctl::profile::{default_fan_curve, Base, Profile};
use z13helper::z13ctl::types::{LightingState, Response, State};

fn response() -> Response {
    Response {
        ok: true,
        error: None,
        value: None,
        state: None,
        event: None,
    }
}

fn failure(kind: IoKind) -> IoFailure {
    IoFailure {
        kind,
        text: "what the system said".into(),
    }
}

#[test]
fn debounce_confirms_only_after_delay() {
    let mut d = PowerDebouncer::new(2000);
    assert_eq!(d.on_signal(true, 10), None);
    assert_eq!(d.on_signal(true, 2009), None);
    assert_eq!(d.on_signal(true, 2010), Some(true));
    assert_eq!(d.on_signal(true, 3000), None);
}

#[test]
fn changed_signal_restarts_deadline() {
    let mut d = PowerDebouncer::new(100);
    assert_eq!(d.on_signal(true, 0), None);
    assert_eq!(d.on_signal(false, 50), None);
    assert_eq!(d.on_signal(false, 149), None);
    assert_eq!(d.on_signal(false, 150), Some(false));
}

#[test]
fn plain_builtin() {
    let p = Profile::builtin("balanced", "Balanced", Base::Balanced);
    assert_eq!(mode_label(&p), "Mode: Balanced");
}

#[test]
fn with_curve_and_power() {
    let mut p = Profile::builtin("balanced", "Balanced", Base::Balanced);
    p.apply_fan_curve = true;
    p.apply_power_limits = true;
    p.pl1_spl = 20;
    assert_eq!(mode_label(&p), "Mode: Balanced+ 20W");
}

#[test]
fn missing_socket_is_not_running() {
    let client = Client::with_path("/tmp/z13ctl-definitely-missing-socket.sock");
    assert_eq!(
        client.path(),
        "/tmp/z13ctl-definitely-missing-socket.sock"
    );
    assert_eq!(client.get_state().request.cmd, "get-state");
    assert_eq!(
        classify_dial_error(failure(IoKind::NotFound)),
        DaemonError::NotRunning
    );
}

#[test]
fn get_state_parses_omitempty() {
    let mut answer = response();
    answer.state = Some(State {
        lighting: LightingState {
            enabled: true,
            mode: "static".into(),
            color: "FF0000".into(),
            color2: "000000".into(),
            speed: "normal".into(),
            brightness: 3,
        },
        undervolt_available: true,
        ..State::default()
    });
    let answer = exchange(Ok(answer)).unwrap();
    let Ok(Reply::State(state)) = Expected::State.finish(answer) else {
        panic!("expected the state")
    };
    assert!(state.undervolt_available);
    assert!(state.temperature.is_none());
    assert!(state.battery_limit.is_none());
    assert_eq!(state.lighting.mode, "static");
}

#[test]
fn profile_get_normalizes_low_power() {
    let mut answer = response();
    answer.value = Some("low-power".into());
    assert!(matches!(
        Expected::Profile.finish(answer),
        Ok(Reply::Profile(profile)) if profile == "quiet"
    ));
    assert_eq!(normalize_profile("quiet"), "quiet");
    assert_eq!(normalize_profile("balanced"), "balanced");
}

#[test]
fn profile_get_never_returns_custom() {
    for value in ["custom", " Custom\n"] {
        let mut answer = response();
        answer.value = Some(value.into());
        assert!(matches!(
            Expected::Profile.finish(answer),
            Err(DaemonError::Protocol(message)) if message == "custom is not a stock profile"
        ));
    }
}

#[test]
fn rejected_maps_to_error() {
    let mut answer = response();
    answer.ok = false;
    answer.error = Some("PL1 80W exceeds safe sustained max (75W); use force flag".into());
    match exchange(Ok(answer)) {
        Err(DaemonError::Rejected(msg)) => {
            assert!(msg.contains("force flag"));
        }
        other => panic!("expected Rejected, got {other:?}"),
    }
}

#[test]
fn tdp_set_includes_mandatory_set_field() {
    let call = Client::with_path("/tmp/z13ctl.sock").tdp_set(60, Some(55), Some(65), Some(70), true);
    assert_eq!(call.request.cmd, "tdp");
    assert_eq!(call.request.set.as_deref(), Some("60"));
    assert_eq!(call.request.pl1.as_deref(), Some("55"));
    assert_eq!(call.request.force, Some(true));
}

#[test]
fn fan_curve_formats_wire_string() {
    let curve = [
        [48, 2],
        [53, 22],
        [57, 30],
        [60, 43],
        [63, 56],
        [65, 68],
        [70, 89],
        [76, 102],
    ];
    let call = Client::with_path("/tmp/z13ctl.sock").fan_curve_set(&curve);
    assert!(call.request.set.unwrap().contains("48:2,53:22"));
}

#[test]
fn enable_sends_all_curve_points() {
    let client = ManualFanClient::with_path("/run/fan.sock");
    let curve = [
        [30, 20],
        [40, 40],
        [50, 60],
        [60, 80],
        [70, 100],
        [80, 140],
        [90, 200],
        [100, 255],
    ];
    let call = client.enable(&curve);
    assert_eq!(call.request.cmd, "enable");
    assert_eq!(call.request.points.as_ref().unwrap().len(), 8);
    let answer = ManualFanResponse {
        ok: true,
        error: None,
        status: Some(ManualFanStatus {
            available: true,
            active: true,
            target_pwm: Some(204),
            fan_rpm: vec![3000, 3100],
            ..ManualFanStatus::default()
        }),
    };
    assert!(reported_status(fan_exchange(Ok(answer)).unwrap()).unwrap().active);
}

#[test]
fn probe_parses_unavailable_status() {
    let answer = ManualFanResponse {
        ok: true,
        error: None,
        status: Some(ManualFanStatus {
            available: false,
            fail_safe: Some("unsupported model".into()),
            ..ManualFanStatus::default()
        }),
    };
    let status = reported_status(fan_exchange(Ok(answer)).unwrap()).unwrap();
    assert!(!status.available);
    assert_eq!(status.fail_safe.as_deref(), Some("unsupported model"));
    assert_eq!(ManualFanClient::new().probe().request.cmd, "probe");
}

#[test]
fn describe_error_mentions_companion_not_z13ctl() {
    let message = ManualFanClient::describe_error(&DaemonError::NotRunning);
    assert!(message.contains("companion"));
    assert!(!message.contains("z13ctl"));
}

#[test]
fn companion_failures_are_errors() {
    let client = ManualFanClient::default();
    assert!(client.status().wants_status);
    assert_eq!(client.release().request.cmd, "release");
    assert!(!client.path().is_empty());
    assert_eq!(
        classify_fan_dial_error(failure(IoKind::PermissionDenied)),
        DaemonError::PermissionDenied
    );
    let refused = ManualFanResponse {
        ok: false,
        error: Some("busy".into()),
        status: None,
    };
    assert_eq!(
        fan_exchange(Ok(refused)),
        Err(DaemonError::Rejected("busy".into()))
    );
    assert!(matches!(
        fan_exchange(Err("eof".into())),
        Err(DaemonError::Protocol(_))
    ));
    let empty = ManualFanResponse {
        ok: true,
        error: None,
        status: None,
    };
    assert!(reported_status(empty).is_err());
}

#[test]
fn transport_failures_are_told_apart() {
    assert_eq!(map_io_error(failure(IoKind::TimedOut)), DaemonError::Timeout);
    assert!(matches!(
        map_io_error(failure(IoKind::Other)),
        DaemonError::Protocol(_)
    ));
    assert_eq!(request_line(b"{}".to_vec()), b"{}\n");
    assert_eq!(
        received_line(Ok("{}\n".into()), "closed"),
        Ok("{}".to_owned())
    );
    assert!(received_line(Ok(String::new()), "closed").is_err());
    assert!(received_line(Err(failure(IoKind::WouldBlock)), "closed").is_err());
    for error in [
        DaemonError::NotRunning,
        DaemonError::PermissionDenied,
        DaemonError::Timeout,
    ] {
        assert!(!error.message().is_empty());
        assert_eq!(error.clone(), error);
    }
}

#[test]
fn raw_lines_are_read_byte_by_byte() {
    let mut line = RawLine::new();
    for byte in b"{\"ok\":true}" {
        assert!(matches!(
            line.on_byte(ByteRead::Byte(*byte)),
            RawStep::KeepReading
        ));
    }
    match line.on_byte(ByteRead::Byte(b'\n')) {
        RawStep::Done(Ok(text)) => assert_eq!(text, "{\"ok\":true}"),
        other => panic!("expected the line, got {other:?}"),
    }
    let mut bad = RawLine::new();
    bad.on_byte(ByteRead::Byte(0xff));
    assert!(matches!(
        bad.on_byte(ByteRead::Byte(b'\n')),
        RawStep::Done(Err(DaemonError::Protocol(_)))
    ));
    let mut cut = RawLine::new();
    assert!(matches!(
        cut.on_byte(ByteRead::Failed(failure(IoKind::TimedOut))),
        RawStep::Done(Err(DaemonError::Timeout))
    ));
}

#[test]
fn calls_name_their_command() {
    let client = Client::new(Some("/run/user/1000"));
    assert!(client.path().starts_with("/run/user/1000/"));
    assert_eq!(client.path(), Client::socket_path(Some("/run/user/1000")));
    assert_eq!(
        client.profile_set("quiet").request.set.as_deref(),
        Some("quiet")
    );
    assert_eq!(client.profile_get().expected, Expected::Profile);
    assert_eq!(client.tdp_reset().request.cmd, "tdp-reset");
    assert_eq!(
        client.undervolt_set(-20).request.set.as_deref(),
        Some("-20")
    );
    assert_eq!(client.battery_limit_get().expected, Expected::BatteryLimit);
    assert_eq!(
        client.brightness_set(2, "keyboard").request.brightness,
        Some(2)
    );
    let lighting = client.apply_lighting("static", "FF0000", "000000", "normal", 3, "keyboard");
    assert_eq!(lighting.request.mode.as_deref(), Some("static"));
    assert_eq!(lighting.request.device.as_deref(), Some("keyboard"));
    assert!(!client.lighting_off("keyboard").request.cmd.is_empty());
    assert_eq!(
        client.subscribe(vec!["power".into()]).request.events,
        Some(vec!["power".to_owned()])
    );
    assert_ne!(
        client.undervolt_reset().request.set,
        client.fan_curve_reset().request.cmd.parse::<String>().ok()
    );
    assert_eq!(
        client.panel_overdrive_set(1).request.set.as_deref(),
        Some("1")
    );
    assert_eq!(client.boot_sound_get().expected, Expected::BootSound);
}

#[test]
fn numbers_come_back_as_numbers() {
    let mut answer = response();
    answer.value = Some("80".into());
    assert!(matches!(
        Expected::BatteryLimit.finish(answer),
        Ok(Reply::Number(80))
    ));
    let mut broken = response();
    broken.value = Some("eighty".into());
    assert!(Expected::BatteryLimit.finish(broken).is_err());
    assert!(Expected::State.finish(response()).is_err());
    assert!(matches!(
        Expected::Nothing.finish(response()),
        Ok(Reply::Nothing)
    ));
    assert!(accept_subscription(Ok(response())).is_ok());
    let mut event = response();
    event.event = Some("power".into());
    assert!(matches!(
        subscription_step(Ok(Some(Ok(event)))),
        StreamStep::Deliver(name) if name == "power"
    ));
    assert!(matches!(subscription_step(Ok(None)), StreamStep::Stop));
}

struct Idle;

impl Daemon for Idle {
    fn profile_set(&self, _: Base) -> Result<(), DaemonError> {
        panic!("nothing is called")
    }
    fn tdp_set(&self, _: u32, _: u32, _: u32, _: bool) -> Result<(), DaemonError> {
        panic!("nothing is called")
    }
    fn fan_curve_set(&self, _: &[[i32; 2]; 8]) -> Result<(), DaemonError> {
        panic!("nothing is called")
    }
    fn undervolt_set(&self, _: i32) -> Result<(), DaemonError> {
        panic!("nothing is called")
    }
}

#[test]
fn applying_a_profile_succeeds() {
    let profile = Profile::builtin("balanced", "Balanced", Base::Balanced);
    assert_eq!(apply_profile(&Idle, &profile, true), Ok(()));
}

#[test]
fn bases_survive_writing() {
    for base in [Base::Quiet, Base::Balanced, Base::Performance] {
        assert_eq!(Base::from_str_lossy(base.as_str()), Some(base));
        assert_eq!(base_at(base_index(Some(base))), base);
        assert!(!base.display_name().is_empty());
        assert!(!base.ppd_label().is_empty());
        let (pl1, pl2, pl3) = base.stock_ppt();
        assert!(pl1 <= pl2 && pl1 <= pl3);
    }
    assert_eq!(Base::from_str_lossy("TURBO"), Some(Base::Performance));
    assert_eq!(Base::from_str_lossy("low-power"), Some(Base::Quiet));
    assert_eq!(Base::from_str_lossy("loud"), None);
    assert_eq!(floor_pwm(75), 0);
    assert_eq!(floor_pwm(76), 204);
    let config = Config::default();
    assert_eq!(config.version, CONFIG_VERSION);
    assert_eq!(config.profiles.len(), 3);
}

#[test]
fn panels_commit_what_they_show() {
    let mut profile = Profile::builtin("balanced", "Balanced", Base::Balanced);
    commit(
        &mut profile,
        base_index(Some(Base::Quiet)),
        Limits {
            pl1: 30,
            pl2: 40,
            pl3: 50,
        },
        true,
        default_fan_curve(),
    );
    assert_eq!(profile.base, Base::Quiet);
    assert_eq!(profile.pl1_spl, 30);
    assert!(profile.apply_power_limits);
    assert!(warns_about_force(76));
    assert!(!warns_about_force(75));
    assert_eq!(edited_name("Work"), "Work (edit)");
    assert_eq!(edited_name("Work (edit)"), "Work (edit)");
    assert_ne!(lighting_index("static"), lighting_index("breathe"));
    let (color, speed) = visible_rows(lighting_index("static"));
    assert!(color && !speed);
    assert!(telemetry_label(Some(61), Some(3000)).contains("3000"));
}
