use std::cell::RefCell;

use z13helper::apply::{apply_request, collect_warnings, set_smu, Daemon};
use z13helper::curve::Curve;
use z13helper::error::DaemonError;
use z13helper::profile::{FanControlMode, Profile};
use z13helper::protocol::{ApplyRequest, TdpState};

#[derive(Default)]
struct RecordingDaemon {
    calls: RefCell<Vec<String>>,
    fail_at: Option<&'static str>,
    ppd_warning: Option<&'static str>,
    uv: bool,
}

impl RecordingDaemon {
    fn call(&self, name: impl Into<String>) -> Result<(), DaemonError> {
        let name: String = name.into();
        let key = name.split(':').next().unwrap_or_default().to_owned();
        self.calls.borrow_mut().push(name);
        if self.fail_at == Some(key.as_str()) {
            Err(DaemonError::Rejected(format!("{key} failed")))
        } else {
            Ok(())
        }
    }
}

impl Daemon for RecordingDaemon {
    fn ppd_set(&mut self, profile: Option<&str>) -> Result<Option<String>, DaemonError> {
        self.call(format!("ppd:{}", profile.unwrap_or("off")))?;
        Ok(self.ppd_warning.map(str::to_owned))
    }
    fn tdp_set(&mut self, limits: TdpState) -> Result<(), DaemonError> {
        self.call(format!(
            "tdp:{}/{}/{}/{}/{}",
            limits.pl1_spl, limits.pl2_sppt, limits.fppt, limits.apu_sppt, limits.platform_sppt
        ))
    }
    fn firmware_fans_set(&mut self, _: &[Curve; 2], _: u32) -> Result<(), DaemonError> {
        self.call("firmware-fans")
    }
    fn direct_fans_set(&mut self, _: &[Curve; 2], _: u32) -> Result<(), DaemonError> {
        self.call("direct-fans")
    }
    fn fans_release(&mut self) -> Result<(), DaemonError> {
        self.call("fans-release")
    }
    fn cpu_temp_limit_set(&mut self, temperature_c: u8) -> Result<(), DaemonError> {
        self.call(format!("cpu-temp:{temperature_c}"))
    }
    fn undervolt_set(&mut self, offset: i32) -> Result<(), DaemonError> {
        self.call(format!("undervolt:{offset}"))
    }
    fn undervolt_available(&self) -> bool {
        self.uv
    }
}

fn request(pl1: u32) -> ApplyRequest {
    let mut profile = Profile::builtin("gaming", "Gaming");
    profile.apply_power_limits = true;
    profile.pl1_spl = pl1;
    profile.pl2_sppt = pl1.max(80);
    profile.fppt = pl1.max(90);
    profile.apply_fan_curve = true;
    ApplyRequest::from_profile(&profile, false)
}

#[test]
fn high_power_prepares_fans_before_tdp() {
    let mut daemon = RecordingDaemon::default();
    apply_request(&mut daemon, &request(80)).unwrap();
    let calls = daemon.calls.borrow();
    let fan = calls.iter().position(|v| v == "firmware-fans").unwrap();
    let tdp = calls.iter().position(|v| v.starts_with("tdp:")).unwrap();
    assert!(fan < tdp);
}

#[test]
fn fan_failure_abandons_high_power() {
    let mut daemon = RecordingDaemon {
        fail_at: Some("firmware-fans"),
        ..Default::default()
    };
    assert!(apply_request(&mut daemon, &request(80)).is_err());
    assert!(!daemon.calls.borrow().iter().any(|v| v.starts_with("tdp:")));
}

#[test]
fn every_apply_stage_stops_before_a_later_hardware_stage() {
    let mut request = request(80);
    request.undervolt = Some(-10);
    for stage in ["ppd", "firmware-fans", "tdp", "cpu-temp", "undervolt"] {
        let mut daemon = RecordingDaemon {
            fail_at: Some(stage),
            uv: true,
            ..Default::default()
        };
        assert!(
            apply_request(&mut daemon, &request).is_err(),
            "stage {stage}"
        );
        let calls = daemon.calls.into_inner();
        let failed = calls
            .iter()
            .position(|call| call.split(':').next() == Some(stage))
            .expect("the injected stage was called");
        assert_eq!(calls.len(), failed + 1, "stage {stage} ran later work");
    }
}

#[test]
fn confirmed_override_does_not_install_protected_fans() {
    let mut request = request(80);
    request.disable_high_power_fan_protection = true;
    request.fan_curves = None;
    let mut daemon = RecordingDaemon::default();
    apply_request(&mut daemon, &request).unwrap();
    let calls = daemon.calls.into_inner();
    assert!(calls.iter().any(|call| call == "fans-release"));
    assert!(!calls.iter().any(|call| call == "firmware-fans"));
}

#[test]
fn safe_power_is_lowered_before_fans() {
    let mut daemon = RecordingDaemon::default();
    apply_request(&mut daemon, &request(60)).unwrap();
    let calls = daemon.calls.borrow();
    let fan = calls.iter().position(|v| v == "firmware-fans").unwrap();
    let tdp = calls.iter().position(|v| v.starts_with("tdp:")).unwrap();
    assert!(tdp < fan);
}

#[test]
fn temperature_limit_is_applied_before_undervolt() {
    let mut request = request(60);
    request.cpu_temp_limit = 88;
    request.undervolt = Some(-10);
    let mut daemon = RecordingDaemon {
        uv: true,
        ..Default::default()
    };
    apply_request(&mut daemon, &request).unwrap();
    let calls = daemon.calls.into_inner();
    let temperature = calls.iter().position(|call| call == "cpu-temp:88").unwrap();
    let undervolt = calls
        .iter()
        .position(|call| call == "undervolt:-10")
        .unwrap();
    assert!(temperature < undervolt);
}

#[test]
fn ppd_runs_and_stock_releases_fans() {
    let profile = Profile::builtin("balanced", "Balanced");
    let request = ApplyRequest::from_profile(&profile, false);
    let mut daemon = RecordingDaemon::default();
    apply_request(&mut daemon, &request).unwrap();
    assert_eq!(
        daemon.calls.into_inner(),
        ["ppd:balanced", "tdp:52/71/70/70/70", "fans-release"]
    );
}

#[test]
fn stock_profiles_write_distinct_power_tables() {
    for (id, expected) in [
        ("silent", "tdp:40/55/55/70/70"),
        ("balanced", "tdp:52/71/70/70/70"),
        ("turbo", "tdp:70/86/86/70/70"),
    ] {
        let profile = Profile::builtin(id, id);
        let request = ApplyRequest::from_profile(&profile, false);
        let mut daemon = RecordingDaemon::default();
        apply_request(&mut daemon, &request).unwrap();
        assert!(daemon
            .calls
            .into_inner()
            .iter()
            .any(|call| call == expected));
    }
}

#[test]
fn invalid_requests_reach_no_hardware() {
    let mut request = request(60);
    request.cpu_temp_limit = 79;
    let mut daemon = RecordingDaemon::default();
    assert!(matches!(
        apply_request(&mut daemon, &request),
        Err(DaemonError::Rejected(_))
    ));
    assert!(daemon.calls.into_inner().is_empty());
}

#[test]
fn direct_mode_drives_the_fans_directly() {
    let mut request = request(60);
    request.fan_mode = FanControlMode::Direct;
    let mut daemon = RecordingDaemon::default();
    apply_request(&mut daemon, &request).unwrap();
    let calls = daemon.calls.into_inner();
    assert!(calls.iter().any(|call| call == "direct-fans"));
    assert!(!calls.iter().any(|call| call == "firmware-fans"));
}

#[test]
fn warnings_name_what_was_skipped() {
    let mut request = request(60);
    request.undervolt = Some(-10);
    let mut daemon = RecordingDaemon {
        ppd_warning: Some("profile daemon is busy"),
        ..Default::default()
    };
    let warnings = apply_request(&mut daemon, &request).unwrap();
    assert_eq!(
        warnings,
        [
            "profile daemon is busy",
            "ryzen_smu is unavailable; APU temperature limit was not applied",
            "ryzen_smu is unavailable; undervolt was not applied",
        ]
    );
    assert!(!daemon
        .calls
        .into_inner()
        .iter()
        .any(|call| call.starts_with("undervolt")));
    request.undervolt = None;
    assert!(collect_warnings(None, true, &request).is_empty());
}

#[test]
fn smu_calls_follow_the_answer_of_the_daemon() {
    let mut wanted = request(70);
    wanted.undervolt = Some(-10);
    let ends = |uv: bool| {
        let mut daemon = RecordingDaemon {
            uv,
            ..RecordingDaemon::default()
        };
        apply_request(&mut daemon, &wanted).unwrap();
        let calls = daemon.calls.borrow();
        calls
            .iter()
            .filter(|call| call.starts_with("cpu-temp:") || call.starts_with("undervolt:"))
            .cloned()
            .collect::<Vec<_>>()
    };
    assert!(ends(false).is_empty());
    assert_eq!(
        ends(true),
        [
            format!("cpu-temp:{}", wanted.cpu_temp_limit),
            "undervolt:-10".to_owned()
        ]
    );
}

#[test]
fn smu_stage_takes_the_answer_as_given() {
    let mut wanted = request(70);
    wanted.undervolt = Some(-10);
    let mut daemon = RecordingDaemon::default();
    set_smu(&mut daemon, &wanted, false).unwrap();
    assert!(daemon.calls.borrow().is_empty());
    set_smu(&mut daemon, &wanted, true).unwrap();
    assert_eq!(daemon.calls.borrow().len(), 2);

    let mut failing = RecordingDaemon {
        fail_at: Some("cpu-temp"),
        ..RecordingDaemon::default()
    };
    assert!(set_smu(&mut failing, &wanted, true).is_err());
    assert_eq!(failing.calls.borrow().len(), 1);
}
