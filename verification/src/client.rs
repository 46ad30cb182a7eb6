//! The client side of the daemon protocol, without the socket.
//!
//! A [`Client`] turns a wish into a [`Call`]. The caller sends the call's frame,
//! hands every received frame to the [`Exchange`] and finishes the call with the
//! response that the exchange settles on.

use vstd::prelude::*;

use crate::curve::Curve;
use crate::error::{DaemonError, DaemonErrorView, ErrorCode};
use crate::protocol::{
    ApplyRequest, ApplyResponse, ClientId, Command, DaemonEvent, EventTopic, LightingState,
    ProbeReply, RequestId, RequestOutcome, WireRequest, WireResponse, WireStatus, MAX_FRAME_BYTES,
    PROTOCOL_VERSION,
};
use crate::text::{decimal, decimal_text, same};

verus! {

/// How many events a subscription buffers for a slow consumer.
pub const EVENT_BUFFER_CAPACITY: usize = 64;

// ---------------------------------------------------------------------------
// Transport errors
// ---------------------------------------------------------------------------

/// The kinds of I/O failure that the protocol tells apart.
#[derive(Clone, Copy, Debug, PartialEq, Eq, Structural)]
pub enum IoKind {
    NotFound,
    PermissionDenied,
    ConnectionRefused,
    ConnectionReset,
    ConnectionAborted,
    TimedOut,
    WouldBlock,
    Other,
}

/// An I/O failure: its kind and its text.
#[derive(Debug, PartialEq, Eq)]
pub struct IoFailure {
    pub kind: IoKind,
    pub text: String,
}

/// The error behind a failure to reach the socket.
pub open spec fn dial_error(kind: IoKind, text: Seq<char>) -> DaemonErrorView {
    match kind {
        IoKind::PermissionDenied => DaemonErrorView::PermissionDenied,
        IoKind::NotFound => DaemonErrorView::NotRunning,
        IoKind::ConnectionRefused => DaemonErrorView::NotRunning,
        IoKind::ConnectionAborted => DaemonErrorView::NotRunning,
        IoKind::ConnectionReset => DaemonErrorView::NotRunning,
        IoKind::TimedOut => DaemonErrorView::NotRunning,
        IoKind::WouldBlock => DaemonErrorView::Protocol(text),
        IoKind::Other => DaemonErrorView::Protocol(text),
    }
}

/// The error behind a failure on an open socket.
pub open spec fn io_error(kind: IoKind, text: Seq<char>) -> DaemonErrorView {
    match kind {
        IoKind::TimedOut => DaemonErrorView::Timeout,
        IoKind::WouldBlock => DaemonErrorView::Timeout,
        IoKind::PermissionDenied => DaemonErrorView::PermissionDenied,
        _ => DaemonErrorView::Protocol(text),
    }
}

/// Classifies a failure to reach the socket.
pub fn classify_dial_error(error: IoFailure) -> (result: DaemonError)
    ensures
        result@ == dial_error(error.kind, error.text@),
{
    match error.kind {
        IoKind::PermissionDenied => DaemonError::PermissionDenied,
        IoKind::NotFound => DaemonError::NotRunning,
        IoKind::ConnectionRefused => DaemonError::NotRunning,
        IoKind::ConnectionAborted => DaemonError::NotRunning,
        IoKind::ConnectionReset => DaemonError::NotRunning,
        IoKind::TimedOut => DaemonError::NotRunning,
        IoKind::WouldBlock => DaemonError::Protocol(error.text),
        IoKind::Other => DaemonError::Protocol(error.text),
    }
}

/// Classifies a failure on an open socket.
pub fn map_io_error(error: IoFailure) -> (result: DaemonError)
    ensures
        result@ == io_error(error.kind, error.text@),
{
    match error.kind {
        IoKind::TimedOut => DaemonError::Timeout,
        IoKind::WouldBlock => DaemonError::Timeout,
        IoKind::PermissionDenied => DaemonError::PermissionDenied,
        _ => DaemonError::Protocol(error.text),
    }
}

/// The error that a failed response reports.
pub open spec fn wire_error(response: WireResponse) -> DaemonErrorView {
    match response.error {
        None => DaemonErrorView::Protocol("daemon returned failure without an error"@),
        Some(error) => match error.code {
            ErrorCode::NotRunning => DaemonErrorView::NotRunning,
            ErrorCode::PermissionDenied => DaemonErrorView::PermissionDenied,
            ErrorCode::Timeout => DaemonErrorView::Timeout,
            ErrorCode::Protocol => DaemonErrorView::Protocol(error.message@),
            ErrorCode::Rejected => DaemonErrorView::Rejected(error.message@),
            ErrorCode::Unsupported => DaemonErrorView::Rejected(error.message@),
            ErrorCode::Degraded => DaemonErrorView::Rejected(error.message@),
        },
    }
}

/// The error that a failed response reports.
pub fn map_wire_error(response: WireResponse) -> (result: DaemonError)
    ensures
        result@ == wire_error(response),
{
    match response.error {
        None => DaemonError::Protocol(
            String::from_str("daemon returned failure without an error"),
        ),
        Some(error) => match error.code {
            ErrorCode::NotRunning => DaemonError::NotRunning,
            ErrorCode::PermissionDenied => DaemonError::PermissionDenied,
            ErrorCode::Timeout => DaemonError::Timeout,
            ErrorCode::Protocol => DaemonError::Protocol(error.message),
            ErrorCode::Rejected => DaemonError::Rejected(error.message),
            ErrorCode::Unsupported => DaemonError::Rejected(error.message),
            ErrorCode::Degraded => DaemonError::Rejected(error.message),
        },
    }
}

// ---------------------------------------------------------------------------
// Frames
// ---------------------------------------------------------------------------

/// The error text of `String::from_utf8` for bytes that are not UTF-8.
pub uninterp spec fn utf8_error_text(bytes: Seq<u8>) -> Seq<char>;

/// Decodes bytes with `String::from_utf8`.
///
/// It accepts exactly the valid UTF-8 encodings and returns the text that they
/// encode; the wording of its error is only named.
#[verifier::external_body]
pub(crate) fn utf8_text(bytes: Vec<u8>) -> (result: Result<String, String>)
    ensures
        match result {
            Ok(text) => vstd::utf8::valid_utf8(bytes@) && vstd::utf8::encode_utf8(text@) == bytes@,
            Err(message) => !vstd::utf8::valid_utf8(bytes@) && message@ == utf8_error_text(bytes@),
        },
{
    String::from_utf8(bytes).map_err(|error| error.to_string())
}

/// Terminates an encoded request, if it fits into a frame.
pub fn encode_frame(body: Vec<u8>) -> (result: Result<Vec<u8>, DaemonError>)
    ensures
        match result {
            Ok(frame) => body@.len() + 1 <= MAX_FRAME_BYTES && frame@ == body@.push(10u8),
            Err(error) => body@.len() + 1 > MAX_FRAME_BYTES && error@ == DaemonErrorView::Protocol(
                "outgoing frame exceeds 65536 bytes"@,
            ),
        },
{
    if body.len() >= MAX_FRAME_BYTES {
        return Err(DaemonError::Protocol(String::from_str("outgoing frame exceeds 65536 bytes")));
    }
    let mut frame: Vec<u8> = body;
    frame.push(10u8);
    Ok(frame)
}

/// The error of received bytes that are no frame, whatever they encode.
pub open spec fn frame_error(bytes: Seq<u8>) -> Option<Seq<char>> {
    if bytes.len() == 0 {
        Some("no response from daemon"@)
    } else if bytes.last() != 10u8 || bytes.len() > MAX_FRAME_BYTES {
        Some("incoming frame exceeds 65536 bytes"@)
    } else {
        None
    }
}

/// Takes the text out of received bytes, which end with the first newline or
/// where the stream or the frame limit ended them.
pub fn decode_frame(bytes: Vec<u8>) -> (result: Result<String, DaemonError>)
    ensures
        match frame_error(bytes@) {
            Some(text) => result matches Err(error) && error@ == DaemonErrorView::Protocol(text),
            None => {
                let body = bytes@.drop_last();
                match result {
                    Ok(text) => vstd::utf8::valid_utf8(body) && vstd::utf8::encode_utf8(text@)
                        == body,
                    Err(error) => !vstd::utf8::valid_utf8(body) && error@
                        == DaemonErrorView::Protocol(utf8_error_text(body)),
                }
            },
        },
{
    let length: usize = bytes.len();
    if length == 0 {
        return Err(DaemonError::Protocol(String::from_str("no response from daemon")));
    }
    if bytes[length - 1] != 10u8 || length > MAX_FRAME_BYTES {
        return Err(DaemonError::Protocol(String::from_str("incoming frame exceeds 65536 bytes")));
    }
    let mut body: Vec<u8> = bytes;
    let _newline: Option<u8> = body.pop();
    assert(body@ =~= bytes@.drop_last());
    match utf8_text(body) {
        Ok(text) => Ok(text),
        Err(message) => Err(DaemonError::Protocol(message)),
    }
}

/// Every frame that is sent is a frame that is received, with the same body.
pub proof fn law_sent_frames_are_received(body: Seq<u8>)
    requires
        body.len() + 1 <= MAX_FRAME_BYTES,
    ensures
        frame_error(body.push(10u8)) is None,
        body.push(10u8).drop_last() == body,
{
    assert(body.push(10u8).drop_last() =~= body);
}

// ---------------------------------------------------------------------------
// Identities
// ---------------------------------------------------------------------------

/// Hands out request identifiers.
#[derive(Clone, Copy, Debug)]
pub struct RequestCounter {
    pub next: u64,
}

impl RequestCounter {
    /// Takes the next identifier; zero is skipped when the counter wraps around.
    pub fn next_request_id(&mut self) -> (result: RequestId)
        ensures
            result.number() == (if old(self).next == 0 {
                1u64
            } else {
                old(self).next
            }),
            final(self).next == crate::debounce::following(result.number()),
    {
        if self.next == 0 {
            self.next = 1;
        }
        let value: u64 = self.next;
        self.next = value.wrapping_add(1);
        RequestId::new(value).unwrap()
    }
}

/// The number behind a client identity: the random one, else one made of the
/// time and the process, else one.
pub open spec fn identity_number(random: Option<u128>, nanos: u128, process: u32) -> u128 {
    let fallback = nanos ^ ((process as u128) << 96u128);
    if random is Some && random->0 != 0 {
        random->0
    } else if fallback != 0 {
        fallback
    } else {
        1
    }
}

/// Makes the identity of this process.
pub fn client_identity(random: Option<u128>, nanos: u128, process: u32) -> (result: ClientId)
    ensures
        result.number() == identity_number(random, nanos, process),
{
    if let Some(value) = random {
        if let Some(id) = ClientId::new(value) {
            return id;
        }
    }
    let fallback: u128 = nanos ^ ((process as u128) << 96u128);
    match ClientId::new(fallback) {
        Some(id) => id,
        None => ClientId::new(1).unwrap(),
    }
}

// ---------------------------------------------------------------------------
// Calls
// ---------------------------------------------------------------------------

/// What a call expects in the response.
#[derive(Clone, Copy, Debug, PartialEq, Eq)]
pub enum Expected {
    State,
    Probe,
    Apply,
    FactoryFanCurves,
    Nothing,
    Outcome { client_id: ClientId, request_id: RequestId },
}

/// A wish that has not been sent yet.
#[derive(Clone, Debug)]
pub struct Call {
    pub command: Command,
    pub expected: Expected,
}

/// What a finished call returns.
#[derive(Debug)]
pub enum Reply {
    State(WireStatus),
    Probe(ProbeReply),
    Apply(ApplyResponse),
    FactoryFanCurves(Vec<(String, [Curve; 2])>),
    Nothing,
    Outcome(WireResponse),
}

/// A client of the daemon at a socket path.
#[derive(Clone, Debug)]
pub struct Client {
    socket_path: String,
}

impl Client {
    /// The largest newline-terminated protocol frame.
    pub const MAX_FRAME_BYTES: usize = 65536;

    /// The path of the daemon's socket.
    pub closed spec fn path(&self) -> Seq<char> {
        self.socket_path@
    }

    pub fn new() -> (result: Self)
        ensures
            result.path() == "/run/z13helper/z13helperd.sock"@,
    {
        Client::with_path("/run/z13helper/z13helperd.sock")
    }

    pub fn with_path(path: &str) -> (result: Self)
        ensures
            result.path() == path@,
    {
        Client { socket_path: String::from_str(path) }
    }

    /// The path of the daemon's socket.
    pub fn socket_path(&self) -> (result: &str)
        ensures
            result@ == self.path(),
    {
        self.socket_path.as_str()
    }

    pub fn get_state(&self) -> (result: Call)
        ensures
            result == (Call { command: Command::GetState, expected: Expected::State }),
    {
        Call { command: Command::GetState, expected: Expected::State }
    }

    pub fn probe(&self) -> (result: Call)
        ensures
            result == (Call { command: Command::Probe, expected: Expected::Probe }),
    {
        Call { command: Command::Probe, expected: Expected::Probe }
    }

    pub fn apply(&self, request: ApplyRequest) -> (result: Call)
        ensures
            result == (Call { command: Command::Apply { request }, expected: Expected::Apply }),
    {
        Call { command: Command::Apply { request }, expected: Expected::Apply }
    }

    pub fn apply_undervolt_once(&self, offset: i32) -> (result: Call)
        ensures
            result == (Call {
                command: Command::ApplyUndervoltOnce { offset },
                expected: Expected::Nothing,
            }),
    {
        Call { command: Command::ApplyUndervoltOnce { offset }, expected: Expected::Nothing }
    }

    pub fn factory_fan_curves(&self, ppd_profiles: Vec<String>) -> (result: Call)
        ensures
            result == (Call {
                command: Command::GetFactoryFanCurves { ppd_profiles },
                expected: Expected::FactoryFanCurves,
            }),
    {
        Call {
            command: Command::GetFactoryFanCurves { ppd_profiles },
            expected: Expected::FactoryFanCurves,
        }
    }

    pub fn battery_limit_set(&self, limit: i32) -> (result: Call)
        ensures
            result == (Call {
                command: Command::SetBatteryLimit { limit },
                expected: Expected::Nothing,
            }),
    {
        Call { command: Command::SetBatteryLimit { limit }, expected: Expected::Nothing }
    }

    pub fn battery_one_time_charge_set(&self, enabled: bool) -> (result: Call)
        ensures
            result == (Call {
                command: Command::SetBatteryOneTimeCharge { enabled },
                expected: Expected::Nothing,
            }),
    {
        Call { command: Command::SetBatteryOneTimeCharge { enabled }, expected: Expected::Nothing }
    }

    pub fn panel_overdrive_set(&self, enabled: bool) -> (result: Call)
        ensures
            result == (Call {
                command: Command::SetPanelOverdrive { enabled },
                expected: Expected::Nothing,
            }),
    {
        Call { command: Command::SetPanelOverdrive { enabled }, expected: Expected::Nothing }
    }

    pub fn apply_lighting(&self, device: &str, state: LightingState) -> (result: Call)
        ensures
            result.command matches Command::SetLighting { device: sent, state: lit } && sent@
                == device@ && lit == state,
            result.expected == Expected::Nothing,
    {
        Call {
            command: Command::SetLighting { device: String::from_str(device), state },
            expected: Expected::Nothing,
        }
    }

    pub fn release_fans(&self) -> (result: Call)
        ensures
            result == (Call { command: Command::ReleaseFans, expected: Expected::Nothing }),
    {
        Call { command: Command::ReleaseFans, expected: Expected::Nothing }
    }

    pub fn set_controller_capture(&self, enabled: bool) -> (result: Call)
        ensures
            result == (Call {
                command: Command::SetControllerCapture { enabled },
                expected: Expected::Nothing,
            }),
    {
        Call { command: Command::SetControllerCapture { enabled }, expected: Expected::Nothing }
    }

    /// Looks up an accepted request by the complete recovery identity that
    /// [`DaemonError::OutcomeUnknown`] shows. It serves a new process after the
    /// one that submitted the request has exited.
    pub fn get_outcome_for(&self, client_id: ClientId, request_id: u64) -> (result: Result<
        Call,
        DaemonError,
    >)
        ensures
            match result {
                Ok(call) => request_id != 0 && (call.command matches Command::GetOutcome {
                    target_client_id,
                    target_request_id,
                } && target_client_id == client_id && target_request_id.number() == request_id
                    && call.expected == (Expected::Outcome {
                    client_id,
                    request_id: target_request_id,
                })),
                Err(error) => request_id == 0 && error@ == DaemonErrorView::Protocol(
                    "request ID must be non-zero"@,
                ),
            },
    {
        match RequestId::from_number(request_id) {
            Ok(target) => Ok(
                Call {
                    command: Command::GetOutcome {
                        target_client_id: client_id,
                        target_request_id: target,
                    },
                    expected: Expected::Outcome { client_id, request_id: target },
                },
            ),
            Err(message) => Err(DaemonError::Protocol(String::from_str(message))),
        }
    }

    /// Asks for events.
    pub fn subscribe(&self, events: Vec<EventTopic>) -> (result: Call)
        ensures
            result == (Call {
                command: Command::Subscribe { events },
                expected: Expected::Nothing,
            }),
    {
        Call { command: Command::Subscribe { events }, expected: Expected::Nothing }
    }
}

impl Default for Client {
    fn default() -> (result: Self)
        ensures
            result.path() == "/run/z13helper/z13helperd.sock"@,
    {
        Client::new()
    }
}

fn missing<T>(text: &str) -> (result: Result<T, DaemonError>)
    ensures
        result matches Err(error) && error@ == DaemonErrorView::Protocol(text@),
{
    Err(DaemonError::Protocol(String::from_str(text)))
}

/// What a call makes of a successful response.
pub open spec fn reply_of(expected: Expected, response: WireResponse) -> Result<
    Reply,
    DaemonErrorView,
> {
    match expected {
        Expected::State => match response.state {
            Some(state) => Ok(Reply::State(state)),
            None => Err(DaemonErrorView::Protocol("missing state in response"@)),
        },
        Expected::Probe => match response.probe {
            Some(probe) => Ok(Reply::Probe(probe)),
            None => Err(DaemonErrorView::Protocol("missing probe in response"@)),
        },
        Expected::Apply => match response.apply {
            Some(apply) => Ok(Reply::Apply(apply)),
            None => Err(DaemonErrorView::Protocol("missing apply response"@)),
        },
        Expected::FactoryFanCurves => match response.factory_fan_curves {
            Some(curves) => Ok(Reply::FactoryFanCurves(curves)),
            None => Err(DaemonErrorView::Protocol("missing factory fan curves"@)),
        },
        Expected::Nothing => Ok(Reply::Nothing),
        Expected::Outcome { client_id, request_id } => if response.outcome_client_id == Some(
            client_id,
        ) && response.outcome_request_id == Some(request_id) {
            Ok(Reply::Outcome(response))
        } else {
            Err(
                DaemonErrorView::Protocol(
                    "outcome response omitted the requested client or request ID"@,
                ),
            )
        },
    }
}

/// A result with a daemon error, as its model.
pub open spec fn daemon_result<T>(result: Result<T, DaemonError>) -> Result<T, DaemonErrorView> {
    match result {
        Ok(value) => Ok(value),
        Err(error) => Err(error@),
    }
}

fn is_client(found: Option<ClientId>, wanted: ClientId) -> (result: bool)
    ensures
        result == (found == Some(wanted)),
{
    match found {
        Some(id) => id.same_as(wanted),
        None => false,
    }
}

fn is_request(found: Option<RequestId>, wanted: RequestId) -> (result: bool)
    ensures
        result == (found == Some(wanted)),
{
    match found {
        Some(id) => id.same_as(wanted),
        None => false,
    }
}

impl Expected {
    /// Finishes a call with its successful response.
    pub fn finish(self, response: WireResponse) -> (result: Result<Reply, DaemonError>)
        ensures
            daemon_result(result) == reply_of(self, response),
    {
        match self {
            Expected::State => match response.state {
                Some(state) => Ok(Reply::State(state)),
                None => missing("missing state in response"),
            },
            Expected::Probe => match response.probe {
                Some(probe) => Ok(Reply::Probe(probe)),
                None => missing("missing probe in response"),
            },
            Expected::Apply => match response.apply {
                Some(apply) => Ok(Reply::Apply(apply)),
                None => missing("missing apply response"),
            },
            Expected::FactoryFanCurves => match response.factory_fan_curves {
                Some(curves) => Ok(Reply::FactoryFanCurves(curves)),
                None => missing("missing factory fan curves"),
            },
            Expected::Nothing => Ok(Reply::Nothing),
            Expected::Outcome { client_id, request_id } => {
                if is_client(response.outcome_client_id, client_id) && is_request(
                    response.outcome_request_id,
                    request_id,
                ) {
                    Ok(Reply::Outcome(response))
                } else {
                    missing("outcome response omitted the requested client or request ID")
                }
            },
        }
    }
}

// ---------------------------------------------------------------------------
// Exchanges
// ---------------------------------------------------------------------------

/// What an exchange needs to judge the frames that come back.
///
/// An outcome query reports the progress of its target, so it does not wait for
/// completion, and its own outcome cannot be looked up.
#[derive(Clone, Copy, Debug, PartialEq, Eq)]
pub struct Exchange {
    pub client_id: ClientId,
    pub request_id: RequestId,
    pub is_outcome_query: bool,
}

/// What follows a received frame.
pub enum ExchangeStep {
    KeepReading,
    Settled(WireResponse),
    Failed(DaemonError),
}

impl Exchange {
    /// The error of a request whose fate is not known.
    pub open spec fn unknown(self) -> DaemonErrorView {
        DaemonErrorView::OutcomeUnknown {
            client_id: self.client_id,
            request_id: self.request_id.number(),
        }
    }

    /// Addresses a call to the daemon.
    pub fn start(call: Call, client_id: ClientId, request_id: RequestId) -> (result: (
        Exchange,
        WireRequest,
    ))
        ensures
            result.0 == (Exchange {
                client_id,
                request_id,
                is_outcome_query: call.command is GetOutcome,
            }),
            result.1 == (WireRequest {
                version: PROTOCOL_VERSION,
                client_id,
                request_id,
                command: call.command,
            }),
    {
        let is_outcome_query: bool = match &call.command {
            Command::GetOutcome { .. } => true,
            _ => false,
        };
        (
            Exchange { client_id, request_id, is_outcome_query },
            WireRequest {
                version: PROTOCOL_VERSION,
                client_id,
                request_id,
                command: call.command,
            },
        )
    }

    fn outcome_unknown(&self) -> (result: DaemonError)
        ensures
            result@ == self.unknown(),
    {
        DaemonError::OutcomeUnknown {
            client_id: self.client_id,
            request_id: self.request_id.get(),
        }
    }

    /// The error of a write that failed.
    ///
    /// The daemon may have received the complete request before the failure
    /// became visible, so the correlation is kept instead of inviting a duplicate.
    pub fn write_failed(&self, error: IoFailure) -> (result: DaemonError)
        ensures
            result@ == (if self.is_outcome_query {
                io_error(error.kind, error.text@)
            } else {
                self.unknown()
            }),
    {
        if self.is_outcome_query {
            map_io_error(error)
        } else {
            self.outcome_unknown()
        }
    }

    /// The error of a frame that could not be read: a request that may have been
    /// accepted is reported by its recovery identity.
    pub open spec fn read_error(self, error: DaemonErrorView) -> DaemonErrorView {
        if !self.is_outcome_query && (error == DaemonErrorView::Timeout || error
            == DaemonErrorView::Protocol("no response from daemon"@)) {
            self.unknown()
        } else {
            error
        }
    }

    /// The error of a frame that could not be read.
    pub fn read_failed(&self, error: DaemonError) -> (result: DaemonError)
        ensures
            result@ == self.read_error(error@),
    {
        if self.is_outcome_query {
            return error;
        }
        let lost: bool = match &error {
            DaemonError::Timeout => true,
            DaemonError::Protocol(message) => same(message.as_str(), "no response from daemon"),
            _ => false,
        };
        if lost {
            self.outcome_unknown()
        } else {
            error
        }
    }

    /// Why a response does not belong to this exchange.
    pub open spec fn mismatch(self, response: WireResponse) -> Option<Seq<char>> {
        if response.version != PROTOCOL_VERSION {
            Some(
                "unsupported response version "@ + decimal(response.version as nat)
                    + "; expected 3"@,
            )
        } else if response.request_id != Some(self.request_id) {
            Some(
                "response request ID "@ + written_request_id(response.request_id)
                    + " does not match "@ + decimal(self.request_id.number() as nat),
            )
        } else {
            None
        }
    }

    /// What follows a decoded frame.
    pub open spec fn judged(self, response: WireResponse, step: ExchangeStep) -> bool {
        match self.mismatch(response) {
            Some(text) => step matches ExchangeStep::Failed(error) && error@
                == DaemonErrorView::Protocol(text),
            None => if !self.is_outcome_query && (response.outcome == RequestOutcome::Queued
                || response.outcome == RequestOutcome::Started) {
                step is KeepReading
            } else if response.ok {
                step == ExchangeStep::Settled(response)
            } else {
                step matches ExchangeStep::Failed(error) && error@ == wire_error(response)
            },
        }
    }

    fn check(&self, response: &WireResponse) -> (result: Result<(), String>)
        ensures
            match self.mismatch(*response) {
                Some(text) => result matches Err(message) && message@ == text,
                None => result is Ok,
            },
    {
        if response.version != PROTOCOL_VERSION {
            let mut text: String = String::from_str("unsupported response version ");
            text.append(decimal_text(response.version as u128).as_str());
            text.append("; expected 3");
            return Err(text);
        }
        if !is_request(response.request_id, self.request_id) {
            let mut text: String = String::from_str("response request ID ");
            text.append(request_id_text(response.request_id).as_str());
            text.append(" does not match ");
            text.append(decimal_text(self.request_id.get() as u128).as_str());
            return Err(text);
        }
        Ok(())
    }

    /// Judges a received frame, given what it was decoded to.
    ///
    /// Progress of the own request is skipped; the first other response settles
    /// or fails the exchange.
    pub fn on_response(&self, decoded: Result<WireResponse, String>) -> (result: ExchangeStep)
        ensures
            match decoded {
                Err(text) => result matches ExchangeStep::Failed(error) && error@
                    == DaemonErrorView::Protocol("invalid response JSON: "@ + text@),
                Ok(response) => self.judged(response, result),
            },
    {
        let response: WireResponse = match decoded {
            Ok(response) => response,
            Err(detail) => {
                let mut text: String = String::from_str("invalid response JSON: ");
                text.append(detail.as_str());
                return ExchangeStep::Failed(DaemonError::Protocol(text));
            },
        };
        match self.check(&response) {
            Ok(_) => {},
            Err(text) => {
                return ExchangeStep::Failed(DaemonError::Protocol(text));
            },
        }
        if !self.is_outcome_query && (response.outcome == RequestOutcome::Queued
            || response.outcome == RequestOutcome::Started) {
            return ExchangeStep::KeepReading;
        }
        if response.ok {
            ExchangeStep::Settled(response)
        } else {
            ExchangeStep::Failed(map_wire_error(response))
        }
    }

    /// Judges the answer to a subscription.
    pub fn accept_subscription(&self, decoded: Result<WireResponse, String>) -> (result: Result<
        (),
        DaemonError,
    >)
        ensures
            match decoded {
                Err(text) => result matches Err(error) && error@ == DaemonErrorView::Protocol(
                    text@,
                ),
                Ok(response) => if self.mismatch(response) is Some {
                    result matches Err(error) && error@ == DaemonErrorView::Protocol(
                        "subscription response correlation mismatch"@,
                    )
                } else if !response.ok {
                    result matches Err(error) && error@ == wire_error(response)
                } else {
                    result is Ok
                },
            },
    {
        let response: WireResponse = match decoded {
            Ok(response) => response,
            Err(text) => {
                return Err(DaemonError::Protocol(text));
            },
        };
        if self.check(&response).is_err() {
            return missing("subscription response correlation mismatch");
        }
        if !response.ok {
            return Err(map_wire_error(response));
        }
        Ok(())
    }
}

/// How a message shows a response's request identifier.
pub open spec fn written_request_id(request_id: Option<RequestId>) -> Seq<char> {
    match request_id {
        Some(id) => "Some(RequestId("@ + decimal(id.number() as nat) + "))"@,
        None => "None"@,
    }
}

fn request_id_text(request_id: Option<RequestId>) -> (result: String)
    ensures
        result@ == written_request_id(request_id),
{
    match request_id {
        Some(id) => {
            let mut text: String = String::from_str("Some(RequestId(");
            text.append(decimal_text(id.get() as u128).as_str());
            text.append("))");
            text
        },
        None => String::from_str("None"),
    }
}

/// What a subscription does with a frame.
#[derive(Debug)]
pub enum StreamStep {
    Deliver(DaemonEvent),
    Skip,
    Stop,
}

/// Judges a frame of a running subscription.
///
/// Timeouts and frames without an event are skipped; any other failure ends the
/// subscription.
pub fn subscription_step(read: Result<Result<WireResponse, String>, DaemonError>) -> (result:
    StreamStep)
    ensures
        result == (match read {
            Ok(Ok(response)) => match response.event {
                Some(event) => StreamStep::Deliver(event),
                None => StreamStep::Skip,
            },
            Ok(Err(_)) => StreamStep::Skip,
            Err(DaemonError::Timeout) => StreamStep::Skip,
            Err(_) => StreamStep::Stop,
        }),
{
    match read {
        Ok(decoded) => match decoded {
            Ok(response) => match response.event {
                Some(event) => StreamStep::Deliver(event),
                None => StreamStep::Skip,
            },
            Err(_) => StreamStep::Skip,
        },
        Err(error) => match error {
            DaemonError::Timeout => StreamStep::Skip,
            _ => StreamStep::Stop,
        },
    }
}

/// A response settles an exchange only if it is of this protocol version, answers
/// this request and reports success.
pub proof fn law_settled_responses_are_correlated(
    exchange: Exchange,
    response: WireResponse,
    settled: WireResponse,
)
    requires
        exchange.judged(response, ExchangeStep::Settled(settled)),
    ensures
        settled == response,
        response.version == PROTOCOL_VERSION,
        response.request_id == Some(exchange.request_id),
        response.ok,
        exchange.is_outcome_query || !(response.outcome == RequestOutcome::Queued
            || response.outcome == RequestOutcome::Started),
{
}

/// A request that may have been accepted is never reported as merely timed out
/// or unanswered, and an outcome query never yields a recovery identity.
pub proof fn law_lost_requests_stay_recoverable(exchange: Exchange, error: DaemonErrorView)
    ensures
        !exchange.is_outcome_query ==> exchange.read_error(error) != DaemonErrorView::Timeout
            && exchange.read_error(DaemonErrorView::Timeout) == exchange.unknown()
            && exchange.read_error(DaemonErrorView::Protocol("no response from daemon"@))
            == exchange.unknown(),
        exchange.is_outcome_query ==> exchange.read_error(error) == error,
{
}

/// An answer to this request, of this version, is never lost: success settles the
/// exchange with that very response, and a failure fails it with the daemon's own
/// error; a report of progress keeps a request waiting, and only a request.
pub proof fn law_answers_are_never_lost(
    exchange: Exchange,
    response: WireResponse,
    step: ExchangeStep,
)
    requires
        exchange.judged(response, step),
        response.version == 3,
        response.request_id == Some(exchange.request_id),
    ensures
        ({
            let underway = !exchange.is_outcome_query && (response.outcome == RequestOutcome::Queued
                || response.outcome == RequestOutcome::Started);
            &&& underway <==> step is KeepReading
            &&& !underway && response.ok ==> step == ExchangeStep::Settled(response)
            &&& !underway && !response.ok ==> step is Failed
            &&& !underway && !response.ok ==> (response.error matches Some(error) ==> (
            error.code is Rejected ==> step->Failed_0@ == DaemonErrorView::Rejected(
                error.message@,
            )))
        }),
{
}

/// A response of another version or to another request fails the exchange.
pub proof fn law_foreign_responses_are_refused(
    exchange: Exchange,
    response: WireResponse,
    step: ExchangeStep,
)
    requires
        exchange.judged(response, step),
        response.version != 3 || response.request_id != Some(exchange.request_id),
    ensures
        step matches ExchangeStep::Failed(error) && error@ is Protocol,
{
}

/// The daemon's errors keep their kind and their message; what it refuses, does not
/// support or can only do in part is a refusal.
pub proof fn law_daemon_errors_keep_their_kind(response: WireResponse)
    ensures
        match response.error {
            None => wire_error(response) is Protocol,
            Some(error) => match error.code {
                ErrorCode::NotRunning => wire_error(response) is NotRunning,
                ErrorCode::PermissionDenied => wire_error(response) is PermissionDenied,
                ErrorCode::Timeout => wire_error(response) is Timeout,
                ErrorCode::Protocol => wire_error(response) == DaemonErrorView::Protocol(
                    error.message@,
                ),
                _ => wire_error(response) == DaemonErrorView::Rejected(error.message@),
            },
        },
{
}

/// A call returns the part of the response that it asks for, and fails without it;
/// an outcome is that of the request asked for.
pub proof fn law_calls_return_what_they_ask_for(
    response: WireResponse,
    client_id: ClientId,
    request_id: RequestId,
)
    ensures
        reply_of(Expected::Nothing, response) == Ok::<Reply, DaemonErrorView>(Reply::Nothing),
        response.state matches Some(state) ==> reply_of(Expected::State, response) == Ok::<
            Reply,
            DaemonErrorView,
        >(Reply::State(state)),
        response.probe matches Some(probe) ==> reply_of(Expected::Probe, response) == Ok::<
            Reply,
            DaemonErrorView,
        >(Reply::Probe(probe)),
        response.apply matches Some(apply) ==> reply_of(Expected::Apply, response) == Ok::<
            Reply,
            DaemonErrorView,
        >(Reply::Apply(apply)),
        response.factory_fan_curves matches Some(curves) ==> reply_of(
            Expected::FactoryFanCurves,
            response,
        ) == Ok::<Reply, DaemonErrorView>(Reply::FactoryFanCurves(curves)),
        response.state is None ==> reply_of(Expected::State, response) is Err,
        response.probe is None ==> reply_of(Expected::Probe, response) is Err,
        response.apply is None ==> reply_of(Expected::Apply, response) is Err,
        response.factory_fan_curves is None ==> reply_of(Expected::FactoryFanCurves, response)
            is Err,
        reply_of(Expected::Outcome { client_id, request_id }, response) is Ok
            <==> response.outcome_client_id == Some(client_id) && response.outcome_request_id
            == Some(request_id),
        reply_of(Expected::Outcome { client_id, request_id }, response) matches Ok(reply) ==> reply
            == Reply::Outcome(response),
{
}

/// A lost request is reported with its own identity, so that its outcome can be
/// asked for; any other error is handed on as it is.
pub proof fn law_lost_requests_name_themselves(exchange: Exchange, error: DaemonErrorView)
    ensures
        !exchange.is_outcome_query ==> (exchange.read_error(DaemonErrorView::Timeout)
            matches DaemonErrorView::OutcomeUnknown { client_id, request_id } && client_id
            == exchange.client_id && request_id == exchange.request_id.number()),
        !(error is Timeout) && error != DaemonErrorView::Protocol("no response from daemon"@)
            ==> exchange.read_error(error) == error,
{
}

/// Where the daemon cannot be reached, a forbidden socket is told from a daemon
/// that does not run, and on an open connection waiting too long from other
/// failures.
pub proof fn law_connection_failures_are_told_apart(kind: IoKind, text: Seq<char>)
    ensures
        dial_error(kind, text) is PermissionDenied <==> kind is PermissionDenied,
        dial_error(kind, text) is NotRunning <==> kind is NotFound || kind is ConnectionRefused
            || kind is ConnectionAborted || kind is ConnectionReset || kind is TimedOut,
        io_error(kind, text) is PermissionDenied <==> kind is PermissionDenied,
        io_error(kind, text) is Timeout <==> kind is TimedOut || kind is WouldBlock,
        dial_error(kind, text) matches DaemonErrorView::Protocol(shown) ==> shown == text,
        io_error(kind, text) matches DaemonErrorView::Protocol(shown) ==> shown == text,
        dial_error(IoKind::Other, text) is Protocol,
        io_error(IoKind::Other, text) is Protocol,
{
}

/// An identity is never zero, and a random number that is not zero is taken as it
/// is.
pub proof fn law_identities_are_never_zero(random: Option<u128>, nanos: u128, process: u32)
    ensures
        identity_number(random, nanos, process) != 0,
        random matches Some(number) ==> number != 0 ==> identity_number(random, nanos, process)
            == number,
{
}

} // verus!
