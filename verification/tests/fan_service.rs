use z13helper::fan_service::curve::{controlled_duty, Curve, CurveError, Point, POINT_COUNT};
use z13helper::fan_service::protocol::{
    handle_line, request_line, requested_curves, verify_model, ClientStatus, FanBroker,
    LegacyPoint, ProbeReply, Request, StatusReply,
};
use z13helper::fan_service::sensors::{
    indexed_input, indexed_inputs, read_i64, read_platform_pl1, read_rpm, read_snapshot,
    read_snapshot_from, read_temperature, HwmonDirectory, HwmonFile, SensorError, SensorSnapshot,
};
use z13helper::fan_service::service::{
    Controller, EcProbe, FanAction, FanEvent, FanProgress, FanReply,
};

fn curve() -> Curve {
    Curve::try_from(
        (0..POINT_COUNT)
            .map(|index| Point {
                temperature_c: 30 + index as i32 * 10,
                duty: 40 + index as u8 * 20,
            })
            .collect::<Vec<_>>(),
    )
    .unwrap()
}

#[test]
fn interpolates_and_clamps_to_endpoints() {
    let curve = curve();
    assert_eq!(curve.duty_at(20), 40);
    assert_eq!(curve.duty_at(35), 50);
    assert_eq!(curve.duty_at(100), 180);
}

#[test]
fn rejects_wrong_count_and_unsorted_points() {
    assert_eq!(Curve::try_from(vec![]).unwrap_err(), CurveError::PointCount);
    let mut points: Vec<Point> = curve().to_points();
    points[2].temperature_c = points[1].temperature_c;
    assert_eq!(
        Curve::try_from(points).unwrap_err(),
        CurveError::TemperatureOrder
    );
    assert_ne!(
        CurveError::PointCount.message(),
        CurveError::TemperatureOrder.message()
    );
}

#[test]
fn applies_power_floor_only_above_75_watts() {
    let curve = curve();
    assert_eq!(controlled_duty(&curve, 30, Some(75)), 40);
    assert_eq!(controlled_duty(&curve, 30, Some(76)), 204);
}

#[test]
fn panic_temperature_always_runs_full_speed() {
    assert_eq!(controlled_duty(&curve(), 96, None), 255);
    assert_eq!(controlled_duty(&curve(), 95, None), 170);
}

#[test]
fn duties_are_interpolated_like_floats() {
    let points = vec![
        Point { temperature_c: -7, duty: 250 },
        Point { temperature_c: 3, duty: 3 },
        Point { temperature_c: 14, duty: 200 },
        Point { temperature_c: 15, duty: 0 },
        Point { temperature_c: 31, duty: 255 },
        Point { temperature_c: 47, duty: 254 },
        Point { temperature_c: 90, duty: 1 },
        Point { temperature_c: 200, duty: 77 },
    ];
    let curve = Curve::try_from(points.clone()).unwrap();
    for temperature in -10..=210 {
        let exact = if temperature <= -7 {
            250
        } else if temperature >= 200 {
            77
        } else {
            let right = points
                .iter()
                .position(|point| temperature <= point.temperature_c)
                .unwrap();
            let (left, right) = (points[right - 1], points[right]);
            let run = (right.temperature_c - left.temperature_c) as f64;
            let rise = right.duty as f64 - left.duty as f64;
            let part = (temperature - left.temperature_c) as f64;
            (left.duty as f64 + (part * rise / run).round()) as u8
        };
        assert_eq!(curve.duty_at(temperature), exact, "{temperature}");
    }
}

#[derive(Default)]
struct MockBroker {
    enabled: bool,
    released: bool,
}

impl FanBroker for MockBroker {
    fn probe(&mut self) -> Result<ProbeReply, String> {
        Ok(ProbeReply {
            model: "GZ302EA".to_owned(),
            ec_version: 7,
            fan_count: 2,
        })
    }

    fn status(&mut self) -> Result<StatusReply, String> {
        Ok(StatusReply {
            enabled: self.enabled,
            apu_temperature_c: 50,
            rpm: [3000, 3100],
            pl1_w: Some(80),
            duty: [100, 100],
            ec_errors: 0,
        })
    }

    fn enable(&mut self, curves: [Curve; 2]) -> Result<(), String> {
        self.enabled = curves[0].duty_at(50) == 100 && curves[1].duty_at(50) == 100;
        Ok(())
    }

    fn release(&mut self) -> Result<(), String> {
        self.released = true;
        Ok(())
    }
}

fn legacy_points() -> Vec<LegacyPoint> {
    (0..8)
        .map(|index| LegacyPoint {
            temp: 30 + index * 10,
            pwm: 60 + index * 20,
        })
        .collect()
}

fn command(cmd: &str) -> Request {
    Request {
        cmd: cmd.to_owned(),
        points: None,
        curves: None,
    }
}

#[test]
fn handles_probe_ndjson_request() {
    let response = handle_line(&mut MockBroker::default(), Ok(command("probe")));
    assert!(response.ok);
    assert!(response.status.unwrap().available);
    assert_eq!(response.probe.unwrap().model, "GZ302EA");
}

#[test]
fn validates_and_enables_legacy_eight_point_curve_for_both_fans() {
    let request = Request {
        cmd: "enable".to_owned(),
        points: Some(legacy_points()),
        curves: None,
    };
    let mut broker = MockBroker::default();
    let response = handle_line(&mut broker, Ok(request));
    assert!(response.ok);
    assert!(response.status.unwrap().active);
    assert!(broker.enabled);
}

#[test]
fn malformed_request_returns_one_error_object() {
    let text = serde_json::from_str::<serde_json::Value>("{")
        .unwrap_err()
        .to_string();
    let response = handle_line(&mut MockBroker::default(), Err(text));
    assert!(!response.ok);
    assert!(response.error.unwrap().starts_with("invalid request:"));
    assert!(response.status.is_none() && response.probe.is_none());
}

#[test]
fn release_and_status_reach_the_broker() {
    let mut broker = MockBroker::default();
    assert!(handle_line(&mut broker, Ok(command("release"))).ok);
    assert!(broker.released);
    let status = handle_line(&mut broker, Ok(command("status"))).status.unwrap();
    assert_eq!(status.fan_rpm, [3000, 3100]);
    assert_eq!(status.temperature, Some(50));
    assert_eq!(status.pl1_w, Some(80));
}

#[test]
fn refused_requests_say_why() {
    let unknown = handle_line(&mut MockBroker::default(), Ok(command("dance")));
    assert!(!unknown.ok);
    assert_eq!(unknown.error.as_deref(), Some("unknown command \"dance\""));
    assert!(requested_curves(&command("enable")).is_err());
    let mut loud = legacy_points();
    loud[0].pwm = 256;
    let request = Request {
        cmd: "enable".to_owned(),
        points: Some(loud),
        curves: None,
    };
    assert!(requested_curves(&request).is_err());
    let own = Request {
        cmd: "enable".to_owned(),
        points: None,
        curves: Some([curve(), curve()]),
    };
    assert_eq!(requested_curves(&own), Ok([curve(), curve()]));
    assert!(ClientStatus::available().available);
}

#[test]
fn lines_end_in_a_newline() {
    assert_eq!(request_line(""), Ok(None));
    assert_eq!(request_line("{}\r\n"), Ok(Some("{}")));
    assert_eq!(
        request_line("{}"),
        Err("request exceeded limit or was not newline terminated".to_owned())
    );
}

#[test]
fn only_the_supported_model_is_driven() {
    assert!(verify_model("ROG Flow Z13 gz302ea\n").is_ok());
    assert_eq!(
        verify_model("GZ301\n"),
        Err("unsupported DMI product \"GZ301\"; expected a GZ302EA model".to_owned())
    );
}

struct TempTree(Vec<HwmonDirectory>);

impl TempTree {
    fn new() -> Self {
        Self(Vec::new())
    }

    fn write(&mut self, relative: &str, value: &str) {
        self.put(relative, Ok(value.to_owned()));
    }

    fn put(&mut self, relative: &str, content: Result<String, String>) {
        let (path, file) = relative.split_once('/').unwrap();
        if !self.0.iter().any(|directory| directory.path == path) {
            self.0.push(HwmonDirectory {
                path: path.to_owned(),
                name: None,
                files: Ok(Vec::new()),
            });
        }
        for directory in &mut self.0 {
            if directory.path == path {
                if file == "name" {
                    directory.name = content.clone().ok();
                }
                if let Ok(files) = &mut directory.files {
                    files.push(HwmonFile {
                        name: file.to_owned(),
                        content: content.clone(),
                    });
                }
            }
        }
    }
}

#[test]
fn dynamically_discovers_temperature_fans_and_pl1() {
    let mut tree = TempTree::new();
    tree.write("hwmon0/name", "k10temp\n");
    tree.write("hwmon0/temp1_label", "Tctl\n");
    tree.write("hwmon0/temp1_input", "67500\n");
    tree.write("hwmon1/name", "asus\n");
    tree.write("hwmon1/fan1_input", "3100\n");
    tree.write("hwmon1/fan2_input", "2900\n");
    tree.write("hwmon2/name", "asus-nb-wmi\n");
    tree.write("hwmon2/power1_cap", "80000000\n");

    assert_eq!(
        read_snapshot_from(Ok(tree.0)).unwrap(),
        SensorSnapshot {
            apu_temperature_c: 67,
            rpm: [3100, 2900],
            pl1_w: Some(80),
        }
    );
}

#[test]
fn prefers_asus_hwmon_fans_over_other_devices() {
    let mut tree = TempTree::new();
    tree.write("hwmon0/name", "k10temp\n");
    tree.write("hwmon0/temp1_label", "Tctl\n");
    tree.write("hwmon0/temp1_input", "50000\n");
    tree.write("hwmon1/name", "nvme\n");
    tree.write("hwmon1/fan1_input", "111\n");
    tree.write("hwmon1/fan2_input", "222\n");
    tree.write("hwmon2/name", "asus\n");
    tree.write("hwmon2/fan1_input", "2400\n");
    tree.write("hwmon2/fan2_input", "2800\n");

    assert_eq!(
        read_snapshot_from(Ok(tree.0)).unwrap().rpm,
        [2400, 2800]
    );
}

/// A tree with everything that a reading needs but a limit, listed in no order.
fn complete_tree() -> TempTree {
    let mut tree = TempTree::new();
    tree.write("hwmon3/name", "asus\n");
    tree.write("hwmon3/fan2_input", "2800\n");
    tree.write("hwmon3/fan1_input", "2400\n");
    tree.write("hwmon1/name", "k10temp\n");
    tree.write("hwmon1/temp3_input", "61000\n");
    tree.write("hwmon1/temp1_input", "-5500\n");
    tree
}

#[test]
fn sensors_are_read_in_order_whatever_the_listing() {
    let snapshot = read_snapshot_from(Ok(complete_tree().0)).unwrap();
    assert_eq!(snapshot.rpm, [2400, 2800]);
    assert_eq!(snapshot.apu_temperature_c, -5);
    assert_eq!(snapshot.pl1_w, None);

    let mut labelled = complete_tree();
    labelled.write("hwmon1/temp3_label", " TDIE\n");
    let snapshot = read_snapshot_from(Ok(labelled.0)).unwrap();
    assert_eq!(snapshot.apu_temperature_c, 61);

    let mut second = complete_tree();
    second.write("hwmon0/name", "k10temp\n");
    second.write("hwmon0/temp2_input", "42000\n");
    let snapshot = read_snapshot_from(Ok(second.0)).unwrap();
    assert_eq!(snapshot.apu_temperature_c, 42);
}

#[test]
fn the_limit_comes_from_the_device_and_else_from_the_platform() {
    let platform = || Some(Ok("76\n".to_owned()));
    let snapshot = read_snapshot(Ok(complete_tree().0), platform()).unwrap();
    assert_eq!(snapshot.pl1_w, Some(76));
    let snapshot = read_snapshot(Ok(complete_tree().0), None).unwrap();
    assert_eq!(snapshot.pl1_w, None);
    assert!(read_snapshot(Ok(complete_tree().0), Some(Ok("-1".to_owned()))).is_err());

    let mut tree = complete_tree();
    tree.write("hwmon2/name", "asus-nb-wmi\n");
    tree.write("hwmon2/ppt_pl1_spl", "52\n");
    tree.write("hwmon2/power1_cap", "80000000\n");
    let snapshot = read_snapshot(Ok(tree.0), Some(Ok("-1".to_owned()))).unwrap();
    assert_eq!(snapshot.pl1_w, Some(52));

    let mut negative = complete_tree();
    negative.write("hwmon2/name", "asus-nb-wmi\n");
    negative.write("hwmon2/ppt_pl1_spl", "-1\n");
    negative.write("hwmon2/power1_cap", "80000000\n");
    let snapshot = read_snapshot_from(Ok(negative.0)).unwrap();
    assert_eq!(snapshot.pl1_w, Some(80));
}

#[test]
fn reads_pl1_from_asus_nb_wmi_platform_attribute() {
    assert_eq!(
        read_platform_pl1("ppt_pl1_spl", Some(Ok("76\n".to_owned()))).unwrap(),
        Some(76)
    );
    assert_eq!(read_platform_pl1("ppt_pl1_spl", None).unwrap(), None);
}

#[test]
fn each_sensor_error_has_an_input() {
    assert_eq!(
        read_snapshot_from(Ok(Vec::new())),
        Err(SensorError::TemperatureMissing)
    );
    let mut fanless = TempTree::new();
    fanless.write("hwmon0/name", "k10temp");
    fanless.write("hwmon0/temp1_input", "50000");
    fanless.write("hwmon0/fan1_input", "1");
    assert_eq!(
        read_snapshot_from(Ok(fanless.0)),
        Err(SensorError::FansMissing)
    );
    let mut unreadable = complete_tree();
    unreadable.put("hwmon0/name", Ok("k10temp".to_owned()));
    unreadable.put("hwmon0/temp1_input", Err("denied".to_owned()));
    assert_eq!(
        read_snapshot_from(Ok(unreadable.0)),
        Err(SensorError::Read {
            path: "hwmon0/temp1_input".to_owned(),
            source: "denied".to_owned()
        })
    );
    assert_eq!(
        read_snapshot_from(Err("denied".to_owned())),
        Err(SensorError::Enumerate("denied".to_owned()))
    );
    assert!(matches!(
        read_i64("p", Err("denied".to_owned())),
        Err(SensorError::Read { .. })
    ));
    assert!(matches!(
        read_i64("p", Ok("warm".to_owned())),
        Err(SensorError::Invalid(_))
    ));
    assert_eq!(
        read_temperature("p", Ok("500000".to_owned())),
        Err(SensorError::TemperatureRange(500))
    );
    let broken = |name: Option<&str>| HwmonDirectory {
        path: "hwmon0".to_owned(),
        name: name.map(str::to_owned),
        files: Err("denied".to_owned()),
    };
    assert_eq!(
        read_snapshot_from(Ok(vec![broken(Some("nvme"))])),
        Err(SensorError::Enumerate("denied".to_owned()))
    );
    assert_eq!(
        read_snapshot_from(Ok(vec![broken(None)])),
        Err(SensorError::TemperatureMissing)
    );
    assert!(SensorError::TemperatureRange(500).message().contains("500"));
    assert!(SensorError::Invalid("x".to_owned()).message().contains('x'));
}

#[test]
fn inputs_are_indexed_and_sorted() {
    assert!(indexed_input("fan12_input", "fan"));
    assert!(indexed_input("fan_input", "fan"));
    assert!(!indexed_input("fan1_label", "fan"));
    assert!(!indexed_input("fanx_input", "fan"));
    let names = vec![
        "fan2_input".to_owned(),
        "temp1_input".to_owned(),
        "fan1_input".to_owned(),
    ];
    assert_eq!(
        indexed_inputs(&names, "fan"),
        ["fan1_input", "fan2_input"]
    );
}

fn snapshot(temperature: i32) -> FanEvent {
    FanEvent::Sensors(Ok(SensorSnapshot {
        apu_temperature_c: temperature,
        rpm: [1, 2],
        pl1_w: None,
    }))
}

fn action(progress: FanProgress) -> FanAction {
    match progress {
        FanProgress::Act(action) => action,
        other => panic!("expected an action, got {other:?}"),
    }
}

#[test]
fn startup_releases_before_it_probes() {
    let mut controller = Controller::new();
    assert_eq!(
        action(controller.startup_release_and_probe()),
        FanAction::SetGlobalMode(false)
    );
    assert_eq!(
        action(controller.on_event(FanEvent::Ec(Ok(())))),
        FanAction::ProbeEc
    );
    let done = controller.on_event(FanEvent::Probe(Ok(EcProbe {
        version: 7,
        fan_count: 2,
    })));
    assert!(matches!(
        done,
        FanProgress::Finished(Ok(FanReply::Probe(probe)))
            if probe.model == "GZ302EA" && probe.ec_version == 7
    ));
}

#[test]
fn enabled_fans_follow_the_curve() {
    let mut controller = Controller::new();
    assert!(matches!(
        controller.tick(),
        FanProgress::Finished(Ok(FanReply::Done))
    ));
    assert_eq!(
        action(controller.enable([curve(), curve()])),
        FanAction::SetGlobalMode(true)
    );
    assert_eq!(
        action(controller.on_event(FanEvent::Ec(Ok(())))),
        FanAction::ReadSensors
    );
    assert_eq!(
        action(controller.on_event(snapshot(35))),
        FanAction::SetDuty { fan: 0, duty: 50 }
    );
    assert_eq!(
        action(controller.on_event(FanEvent::Ec(Ok(())))),
        FanAction::SetDuty { fan: 1, duty: 50 }
    );
    assert!(matches!(
        controller.on_event(FanEvent::Ec(Ok(()))),
        FanProgress::Finished(Ok(FanReply::Done))
    ));
    assert_eq!(action(controller.status()), FanAction::ReadSensors);
    assert!(matches!(
        controller.on_event(snapshot(40)),
        FanProgress::Finished(Ok(FanReply::Status(status)))
            if status.enabled && status.duty == [50, 50]
    ));
    assert_eq!(
        action(controller.shutdown_release()),
        FanAction::SetGlobalMode(false)
    );
}

#[test]
fn sensor_failure_gives_the_fans_back() {
    let mut controller = Controller::new();
    controller.enable([curve(), curve()]);
    controller.on_event(FanEvent::Ec(Ok(())));
    assert_eq!(
        action(controller.on_event(FanEvent::Sensors(Err("gone".to_owned())))),
        FanAction::SetGlobalMode(false)
    );
    assert!(matches!(
        controller.on_event(FanEvent::Ec(Ok(()))),
        FanProgress::Finished(Err(message))
            if message == "sensor failure; EC control released: gone"
    ));
    assert!(matches!(
        controller.tick(),
        FanProgress::Finished(Ok(FanReply::Done))
    ));
}

#[test]
fn the_third_ec_error_gives_the_fans_back() {
    let mut controller = Controller::new();
    for _ in 0..2 {
        controller.probe();
        assert!(matches!(
            controller.on_event(FanEvent::Probe(Err("busy".to_owned()))),
            FanProgress::Finished(Err(message)) if message == "EC failure: busy"
        ));
    }
    controller.release();
    assert_eq!(
        action(controller.on_event(FanEvent::Ec(Err("busy".to_owned())))),
        FanAction::SetGlobalMode(false)
    );
    assert!(matches!(
        controller.on_event(FanEvent::Ec(Err("still busy".to_owned()))),
        FanProgress::Finished(Err(message))
            if message == "repeated EC failure; control released: busy"
    ));
}
