use z13helper::client::{
    classify_dial_error, client_identity, decode_frame, encode_frame, map_io_error, map_wire_error,
    subscription_step, Call, Client, Exchange, ExchangeStep, Expected, IoFailure, IoKind, Reply,
    RequestCounter, StreamStep,
};
use z13helper::error::{DaemonError, ErrorCode, WireError};
use z13helper::profile::stock_fan_curves;
use z13helper::protocol::{
    ApplyResponse, ClientId, Command, DaemonEvent, DaemonEventKind, LightingState, ProbeReply,
    RequestId, RequestOutcome, WireResponse, WireStatus, MAX_FRAME_BYTES, PROTOCOL_VERSION,
};

fn failure(kind: IoKind) -> IoFailure {
    IoFailure {
        kind,
        text: "what the system said".into(),
    }
}

fn start(call: Call) -> (Exchange, Command) {
    let (exchange, request) = Exchange::start(
        call,
        ClientId::new(9).unwrap(),
        RequestId::new(4).unwrap(),
    );
    assert_eq!(request.version, PROTOCOL_VERSION);
    assert_eq!(request.client_id, ClientId::new(9).unwrap());
    assert_eq!(request.request_id, RequestId::new(4).unwrap());
    (exchange, request.command)
}

#[test]
fn missing_socket_error_is_not_running() {
    let error = failure(IoKind::NotFound);
    assert_eq!(classify_dial_error(error), DaemonError::NotRunning);
}

#[test]
fn dial_and_stream_failures_are_told_apart() {
    for kind in [
        IoKind::ConnectionRefused,
        IoKind::ConnectionAborted,
        IoKind::ConnectionReset,
        IoKind::TimedOut,
    ] {
        assert_eq!(classify_dial_error(failure(kind)), DaemonError::NotRunning);
    }
    assert_eq!(
        classify_dial_error(failure(IoKind::PermissionDenied)),
        DaemonError::PermissionDenied
    );
    assert_eq!(
        classify_dial_error(failure(IoKind::Other)),
        DaemonError::Protocol("what the system said".into())
    );
    assert_eq!(map_io_error(failure(IoKind::TimedOut)), DaemonError::Timeout);
    assert_eq!(
        map_io_error(failure(IoKind::WouldBlock)),
        DaemonError::Timeout
    );
    assert_eq!(
        map_io_error(failure(IoKind::PermissionDenied)),
        DaemonError::PermissionDenied
    );
    assert_eq!(
        map_io_error(failure(IoKind::ConnectionReset)),
        DaemonError::Protocol("what the system said".into())
    );
}

#[test]
fn a_closed_response_exposes_outcome_unknown_request_id() {
    let (exchange, command) = start(Client::with_path("/run/daemon.sock").get_state());
    assert!(matches!(command, Command::GetState));
    let closed = decode_frame(Vec::new()).unwrap_err();
    let error = exchange.read_failed(closed);
    assert!(matches!(
        error,
        DaemonError::OutcomeUnknown {
            client_id,
            request_id,
        } if client_id.get() != 0 && request_id != 0
    ));
}

#[test]
fn outcome_lookup_returns_progress_with_target_correlation() {
    let target_client_id = ClientId::new(9).unwrap();
    let call = Client::with_path("/run/daemon.sock")
        .get_outcome_for(target_client_id, 77)
        .unwrap();
    let expected = call.expected;
    let (exchange, command) = start(call);
    let target = RequestId::new(77).unwrap();
    let mut response = WireResponse::progress(exchange.request_id, RequestOutcome::Started);
    let Command::GetOutcome {
        target_client_id,
        target_request_id,
    } = command
    else {
        panic!("expected outcome query")
    };
    assert_eq!(target_request_id, target);
    response.outcome_client_id = Some(target_client_id);
    response.outcome_request_id = Some(target);
    let ExchangeStep::Settled(response) = exchange.on_response(Ok(response)) else {
        panic!("an outcome query settles on progress")
    };
    let Ok(Reply::Outcome(response)) = expected.finish(response) else {
        panic!("expected the outcome")
    };
    assert_eq!(response.outcome, RequestOutcome::Started);
    assert_eq!(response.outcome_client_id, Some(target_client_id));
    assert_eq!(
        response.outcome_request_id,
        Some(RequestId::new(77).unwrap())
    );
    let bare = WireResponse::progress(exchange.request_id, RequestOutcome::Started);
    assert!(matches!(
        expected.finish(bare),
        Err(DaemonError::Protocol(_))
    ));
}

#[test]
fn failed_outcome_lookup_is_retryable_without_an_uncacheable_recovery_token() {
    let call = Client::with_path("/run/daemon.sock")
        .get_outcome_for(ClientId::new(9).unwrap(), 77)
        .unwrap();
    let (exchange, _) = start(call);
    let closed = decode_frame(Vec::new()).unwrap_err();
    let error = exchange.read_failed(closed);
    assert!(!matches!(error, DaemonError::OutcomeUnknown { .. }));
}

#[test]
fn outcome_of_request_zero_cannot_be_asked() {
    assert!(Client::new()
        .get_outcome_for(ClientId::new(9).unwrap(), 0)
        .is_err());
}

#[test]
fn frames_are_bounded_in_both_directions() {
    assert!(matches!(
        decode_frame(vec![b'x'; MAX_FRAME_BYTES + 1]),
        Err(DaemonError::Protocol(message)) if message.contains("exceeds")
    ));

    let request = format!(
        r#"{{"version":3,"client_id":"{}","request_id":99,"cmd":"get-factory-fan-curves","ppd_profiles":["{}"]}}"#,
        ClientId::new(1).unwrap().to_hex(),
        "x".repeat(MAX_FRAME_BYTES)
    );
    assert!(matches!(
        encode_frame(request.into_bytes()),
        Err(DaemonError::Protocol(message)) if message.contains("exceeds")
    ));
}

#[test]
fn exact_frame_boundary_is_accepted() {
    let mut bytes = vec![b'x'; MAX_FRAME_BYTES - 1];
    bytes.push(b'\n');
    let frame = decode_frame(bytes).unwrap();
    assert_eq!(frame.len(), MAX_FRAME_BYTES - 1);
    assert_eq!(
        encode_frame(vec![b'x'; MAX_FRAME_BYTES - 1]).unwrap().len(),
        MAX_FRAME_BYTES
    );
}

#[test]
fn frames_come_back_as_they_were_written() {
    let body = "{\"cmd\":\"probe\",\"name\":\"caf\u{e9}\"}";
    let frame = encode_frame(body.as_bytes().to_vec()).unwrap();
    assert_eq!(frame.last(), Some(&b'\n'));
    assert_eq!(decode_frame(frame).unwrap(), body);
}

#[test]
fn broken_frames_are_protocol_errors() {
    assert!(matches!(
        decode_frame(b"no newline".to_vec()),
        Err(DaemonError::Protocol(_))
    ));
    let bytes = vec![b'a', 0xff, b'\n'];
    let text = String::from_utf8(vec![b'a', 0xff]).unwrap_err().to_string();
    match decode_frame(bytes) {
        Err(DaemonError::Protocol(message)) => assert!(message.contains(&text), "{message}"),
        other => panic!("expected a protocol error, got {other:?}"),
    }
}

#[test]
fn get_state_uses_versioned_protocol() {
    let call = Client::with_path("/run/daemon.sock").get_state();
    let expected = call.expected;
    let (exchange, command) = start(call);
    assert!(matches!(command, Command::GetState));
    let state = WireStatus {
        ppd_profile: Some("balanced".into()),
        ..WireStatus::default()
    };
    let response = WireResponse {
        version: PROTOCOL_VERSION,
        request_id: Some(exchange.request_id),
        outcome: RequestOutcome::Completed,
        outcome_client_id: None,
        outcome_request_id: None,
        ok: true,
        state: Some(state),
        apply: None,
        probe: None,
        factory_fan_curves: None,
        event: None,
        error: None,
    };
    let ExchangeStep::Settled(response) = exchange.on_response(Ok(response)) else {
        panic!("expected the state")
    };
    let Ok(Reply::State(state)) = expected.finish(response) else {
        panic!("expected the state")
    };
    assert_eq!(state.ppd_profile.as_deref(), Some("balanced"));
}

#[test]
fn scalar_commands_use_typed_daemon_requests() {
    let client = Client::with_path("/run/daemon.sock");
    assert!(matches!(
        client.battery_one_time_charge_set(true).command,
        Command::SetBatteryOneTimeCharge { enabled: true }
    ));
    assert!(matches!(
        client.panel_overdrive_set(true).command,
        Command::SetPanelOverdrive { enabled: true }
    ));
    let expected = LightingState {
        enabled: false,
        mode: "static".into(),
        color: "112233".into(),
        color2: "445566".into(),
        speed: "slow".into(),
        brightness: 1,
    };
    assert!(matches!(
        client.apply_lighting("keyboard", expected.clone()).command,
        Command::SetLighting { device, state } if device == "keyboard" && state == expected
    ));
    assert!(matches!(
        client.apply_undervolt_once(-20).command,
        Command::ApplyUndervoltOnce { offset: -20 }
    ));
    assert!(matches!(
        client.battery_limit_set(80).command,
        Command::SetBatteryLimit { limit: 80 }
    ));
    assert!(matches!(client.release_fans().command, Command::ReleaseFans));
    assert!(matches!(
        client.set_controller_capture(true).command,
        Command::SetControllerCapture { enabled: true }
    ));
    assert!(matches!(client.probe().expected, Expected::Probe));
    assert_eq!(client.socket_path(), "/run/daemon.sock");
    assert_eq!(Client::default().socket_path(), Client::new().socket_path());
}

#[test]
fn factory_fan_curves_are_returned_by_ppd_profile() {
    let expected = stock_fan_curves(Some("balanced"));
    let call = Client::with_path("/run/daemon.sock").factory_fan_curves(vec!["balanced".into()]);
    assert!(matches!(
        &call.command,
        Command::GetFactoryFanCurves { ppd_profiles } if ppd_profiles == &["balanced".to_owned()]
    ));
    let wanted = call.expected;
    let (exchange, _) = start(call);
    let mut response = WireResponse::success(exchange.request_id);
    response.factory_fan_curves = Some(vec![("balanced".into(), expected)]);
    let ExchangeStep::Settled(response) = exchange.on_response(Ok(response)) else {
        panic!("expected the curves")
    };
    let Ok(Reply::FactoryFanCurves(curves)) = wanted.finish(response) else {
        panic!("expected the curves")
    };
    assert_eq!(curves[0].1, expected);
}

#[test]
fn progress_of_the_own_request_is_skipped() {
    let (exchange, _) = start(Client::new().release_fans());
    for outcome in [RequestOutcome::Queued, RequestOutcome::Started] {
        assert!(matches!(
            exchange.on_response(Ok(WireResponse::progress(exchange.request_id, outcome))),
            ExchangeStep::KeepReading
        ));
    }
    assert!(matches!(
        exchange.on_response(Ok(WireResponse::success(exchange.request_id))),
        ExchangeStep::Settled(_)
    ));
}

#[test]
fn foreign_responses_are_refused() {
    let (exchange, _) = start(Client::new().release_fans());
    let foreign = WireResponse::success(RequestId::new(5).unwrap());
    assert!(matches!(
        exchange.on_response(Ok(foreign)),
        ExchangeStep::Failed(DaemonError::Protocol(message))
            if message == "response request ID Some(RequestId(5)) does not match 4"
    ));
    let mut old = WireResponse::success(exchange.request_id);
    old.version = 2;
    assert!(matches!(
        exchange.on_response(Ok(old)),
        ExchangeStep::Failed(DaemonError::Protocol(message))
            if message == "unsupported response version 2; expected 3"
    ));
    assert!(matches!(
        exchange.on_response(Err("eof".into())),
        ExchangeStep::Failed(DaemonError::Protocol(message))
            if message == "invalid response JSON: eof"
    ));
}

#[test]
fn failed_responses_map_to_their_error() {
    let answer = |code| {
        let mut response = WireResponse::success(RequestId::new(1).unwrap());
        response.ok = false;
        response.error = Some(WireError {
            code,
            message: "why".into(),
        });
        map_wire_error(response)
    };
    assert_eq!(answer(ErrorCode::NotRunning), DaemonError::NotRunning);
    assert_eq!(
        answer(ErrorCode::PermissionDenied),
        DaemonError::PermissionDenied
    );
    assert_eq!(answer(ErrorCode::Timeout), DaemonError::Timeout);
    assert_eq!(
        answer(ErrorCode::Protocol),
        DaemonError::Protocol("why".into())
    );
    for code in [
        ErrorCode::Rejected,
        ErrorCode::Unsupported,
        ErrorCode::Degraded,
    ] {
        assert_eq!(answer(code), DaemonError::Rejected("why".into()));
    }
    let mut silent = WireResponse::success(RequestId::new(1).unwrap());
    silent.ok = false;
    assert!(matches!(map_wire_error(silent), DaemonError::Protocol(_)));
}

#[test]
fn errors_have_distinct_messages() {
    let unknown = DaemonError::OutcomeUnknown {
        client_id: ClientId::new(9).unwrap(),
        request_id: 77,
    };
    assert!(unknown.message().contains("77"));
    assert_eq!(unknown.clone(), unknown);
    assert_ne!(
        DaemonError::NotRunning.message(),
        DaemonError::Timeout.message()
    );
    assert!(DaemonError::Rejected("why".into()).message().contains("why"));
    assert!(DaemonError::Protocol("why".into()).message().contains("why"));
    assert!(!DaemonError::PermissionDenied.message().is_empty());
}

#[test]
fn missing_answers_are_protocol_errors() {
    let empty = || WireResponse::success(RequestId::new(1).unwrap());
    for expected in [
        Expected::State,
        Expected::Probe,
        Expected::Apply,
        Expected::FactoryFanCurves,
    ] {
        assert!(matches!(
            expected.finish(empty()),
            Err(DaemonError::Protocol(_))
        ));
    }
    assert!(matches!(
        Expected::Nothing.finish(empty()),
        Ok(Reply::Nothing)
    ));
    let mut full = empty();
    full.probe = Some(ProbeReply {
        model: "GZ302EA".into(),
        ec_version: 1,
        fan_count: 2,
    });
    full.apply = Some(ApplyResponse {
        generation: 3,
        warnings: vec!["w".into()],
    });
    assert!(matches!(
        Expected::Probe.finish(full.clone()),
        Ok(Reply::Probe(probe)) if probe.fan_count == 2
    ));
    assert!(matches!(
        Expected::Apply.finish(full),
        Ok(Reply::Apply(apply)) if apply.generation == 3
    ));
}

#[test]
fn lost_writes_leave_the_outcome_unknown() {
    let (exchange, _) = start(Client::new().release_fans());
    assert!(matches!(
        exchange.write_failed(failure(IoKind::Other)),
        DaemonError::OutcomeUnknown { request_id: 4, .. }
    ));
}

#[test]
fn request_numbers_skip_zero() {
    let mut counter = RequestCounter { next: 1 };
    assert_eq!(counter.next_request_id().get(), 1);
    assert_eq!(counter.next_request_id().get(), 2);
    let mut wrapped = RequestCounter { next: u64::MAX };
    let first = wrapped.next_request_id().get();
    let second = wrapped.next_request_id().get();
    assert_ne!(first, 0);
    assert_ne!(second, 0);
    assert_ne!(first, second);
}

#[test]
fn identities_are_never_zero() {
    assert_eq!(client_identity(Some(5), 1, 2).get(), 5);
    assert_ne!(client_identity(Some(0), 0, 0).get(), 0);
    assert_ne!(client_identity(None, 0, 0).get(), 0);
    assert_ne!(
        client_identity(None, 1, 2).get(),
        client_identity(None, 1, 3).get()
    );
}

#[test]
fn subscriptions_deliver_events_until_the_stream_ends() {
    let event = DaemonEvent {
        kind: DaemonEventKind::GuiToggle,
        action: None,
        on_battery: None,
    };
    let mut response = WireResponse::success(RequestId::new(4).unwrap());
    response.event = Some(event);
    assert!(matches!(
        subscription_step(Ok(Ok(response))),
        StreamStep::Deliver(found) if found == event
    ));
    assert!(matches!(
        subscription_step(Ok(Ok(WireResponse::success(RequestId::new(4).unwrap())))),
        StreamStep::Skip
    ));
    assert!(matches!(
        subscription_step(Err(DaemonError::Protocol("closed".into()))),
        StreamStep::Stop
    ));
    let (exchange, _) = start(Client::new().subscribe(Vec::new()));
    assert!(exchange
        .accept_subscription(Ok(WireResponse::success(exchange.request_id)))
        .is_ok());
    assert!(exchange
        .accept_subscription(Ok(WireResponse::success(RequestId::new(5).unwrap())))
        .is_err());
}
