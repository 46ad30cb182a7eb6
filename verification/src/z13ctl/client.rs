//! The client side of the z13ctl protocol, without the socket.
//!
//! A [`Client`] turns a wish into a [`Call`]: the request to send and what its
//! response is expected to hold. One request per connection, except a
//! subscription, which streams.

use vstd::prelude::*;

use crate::client::{utf8_error_text, utf8_text, IoFailure, IoKind};
use crate::curve::{to_wire, wire_points};
use crate::number::{law_written_numbers_are_read, number_value, parse_i32};
use crate::text::{
    contains_part, contains_text, decimal, decimal_text, lower_of, lowered, prefixed, same,
    signed_decimal, signed_decimal_text, trim, trim_of,
};
use crate::z13ctl::error::{modelled, violation, DaemonError, DaemonErrorView};
use crate::z13ctl::types::{bare_request, Request, RequestView, Response, State};

verus! {

// ---------------------------------------------------------------------------
// Transport errors
// ---------------------------------------------------------------------------

/// The error behind a failure to reach the socket: a missing permission, which
/// an unclassified failure may only show in its text, else a daemon that does
/// not run.
pub open spec fn dial_error(kind: IoKind, text: Seq<char>) -> DaemonErrorView {
    match kind {
        IoKind::PermissionDenied => DaemonErrorView::PermissionDenied,
        IoKind::TimedOut => DaemonErrorView::NotRunning,
        IoKind::NotFound => DaemonErrorView::NotRunning,
        IoKind::ConnectionRefused => DaemonErrorView::NotRunning,
        IoKind::ConnectionAborted => DaemonErrorView::NotRunning,
        IoKind::ConnectionReset => DaemonErrorView::NotRunning,
        _ => if contains_part(lower_of(text), "permission"@) || contains_part(
            lower_of(text),
            "eacces"@,
        ) {
            DaemonErrorView::PermissionDenied
        } else {
            DaemonErrorView::NotRunning
        },
    }
}

/// The error behind a failure on an open socket.
pub open spec fn io_error(kind: IoKind, text: Seq<char>) -> DaemonErrorView {
    match kind {
        IoKind::TimedOut => DaemonErrorView::Timeout,
        IoKind::WouldBlock => DaemonErrorView::Timeout,
        IoKind::PermissionDenied => DaemonErrorView::PermissionDenied,
        _ => DaemonErrorView::Protocol(text),
    }
}

/// Classifies a failure to reach the socket.
pub fn classify_dial_error(error: IoFailure) -> (result: DaemonError)
    ensures
        result@ == dial_error(error.kind, error.text@),
{
    match error.kind {
        IoKind::PermissionDenied => DaemonError::PermissionDenied,
        IoKind::TimedOut => DaemonError::NotRunning,
        IoKind::NotFound => DaemonError::NotRunning,
        IoKind::ConnectionRefused => DaemonError::NotRunning,
        IoKind::ConnectionAborted => DaemonError::NotRunning,
        IoKind::ConnectionReset => DaemonError::NotRunning,
        _ => {
            let message: String = lowered(error.text.as_str());
            if contains_text(message.as_str(), "permission") || contains_text(
                message.as_str(),
                "eacces",
            ) {
                DaemonError::PermissionDenied
            } else {
                DaemonError::NotRunning
            }
        },
    }
}

/// Classifies a failure on an open socket.
pub fn map_io_error(error: IoFailure) -> (result: DaemonError)
    ensures
        result@ == io_error(error.kind, error.text@),
{
    match error.kind {
        IoKind::TimedOut => DaemonError::Timeout,
        IoKind::WouldBlock => DaemonError::Timeout,
        IoKind::PermissionDenied => DaemonError::PermissionDenied,
        _ => DaemonError::Protocol(error.text),
    }
}

/// Whatever goes wrong while the socket is reached, the daemon counts as not
/// running or as out of reach.
pub proof fn law_dial_failures_are_never_success(kind: IoKind, text: Seq<char>)
    ensures
        dial_error(kind, text) == DaemonErrorView::NotRunning || dial_error(kind, text)
            == DaemonErrorView::PermissionDenied,
{
}

// ---------------------------------------------------------------------------
// Lines
// ---------------------------------------------------------------------------

/// Ends an encoded request with a newline.
pub fn request_line(body: Vec<u8>) -> (result: Vec<u8>)
    ensures
        result@ == body@.push(10u8),
{
    let mut line: Vec<u8> = body;
    line.push(10u8);
    line
}

/// The text of a line that came back: without the white space around it, and
/// not nothing.
pub open spec fn line_text(line: Seq<char>, silence: Seq<char>) -> Result<
    Seq<char>,
    DaemonErrorView,
> {
    if line.len() == 0 {
        Err(DaemonErrorView::Protocol(silence))
    } else {
        Ok(trim_of(line))
    }
}

/// Takes the text out of a line that was read, if one was; `silence` is the
/// complaint about a connection that ended without one.
pub fn received_line(read: Result<String, IoFailure>, silence: &str) -> (result: Result<
    String,
    DaemonError,
>)
    ensures
        match read {
            Ok(line) => match line_text(line@, silence@) {
                Ok(text) => result matches Ok(found) && found@ == text,
                Err(error) => result matches Err(found) && found@ == error,
            },
            Err(failure) => result matches Err(found) && found@ == io_error(
                failure.kind,
                failure.text@,
            ),
        },
{
    match read {
        Ok(line) => {
            if line.as_str().unicode_len() == 0 {
                return violation(silence);
            }
            Ok(String::from_str(trim(line.as_str())))
        },
        Err(failure) => Err(map_io_error(failure)),
    }
}

/// A line that is read byte by byte, so that nothing behind its newline is
/// taken from the stream.
#[derive(Debug)]
pub struct RawLine {
    bytes: Vec<u8>,
}

/// What one read of a single byte gave.
#[derive(Debug)]
pub enum ByteRead {
    End,
    Byte(u8),
    Failed(IoFailure),
}

/// What follows the read of a byte.
#[derive(Debug)]
pub enum RawStep {
    KeepReading,
    Done(Result<String, DaemonError>),
}

impl View for RawLine {
    type V = Seq<u8>;

    closed spec fn view(&self) -> Seq<u8> {
        self.bytes@
    }
}

impl RawLine {
    /// A line of which nothing has been read.
    pub fn new() -> (result: Self)
        ensures
            result@ == Seq::<u8>::empty(),
    {
        RawLine { bytes: Vec::new() }
    }

    /// Takes the next byte: a newline ends the line, the end of the stream and a
    /// failure end it without a text.
    pub fn on_byte(&mut self, read: ByteRead) -> (result: RawStep)
        ensures
            match read {
                ByteRead::End => result matches RawStep::Done(Err(error)) && error@
                    == DaemonErrorView::Protocol("no response from daemon"@) && final(self)@
                    == old(self)@,
                ByteRead::Failed(failure) => result matches RawStep::Done(Err(error)) && error@
                    == io_error(failure.kind, failure.text@) && final(self)@ == old(self)@,
                ByteRead::Byte(byte) => if byte == 10u8 {
                    &&& result matches RawStep::Done(done)
                    &&& match done {
                        Ok(text) => vstd::utf8::valid_utf8(old(self)@)
                            && vstd::utf8::encode_utf8(text@) == old(self)@,
                        Err(error) => !vstd::utf8::valid_utf8(old(self)@) && error@
                            == DaemonErrorView::Protocol(utf8_error_text(old(self)@)),
                    }
                    &&& final(self)@ == Seq::<u8>::empty()
                } else {
                    result is KeepReading && final(self)@ == old(self)@.push(byte)
                },
            },
    {
        match read {
            ByteRead::End => RawStep::Done(violation("no response from daemon")),
            ByteRead::Failed(failure) => RawStep::Done(Err(map_io_error(failure))),
            ByteRead::Byte(byte) => {
                if byte != 10u8 {
                    self.bytes.push(byte);
                    return RawStep::KeepReading;
                }
                let mut bytes: Vec<u8> = Vec::new();
                std::mem::swap(&mut bytes, &mut self.bytes);
                match utf8_text(bytes) {
                    Ok(text) => RawStep::Done(Ok(text)),
                    Err(message) => RawStep::Done(Err(DaemonError::Protocol(message))),
                }
            },
        }
    }
}

// ---------------------------------------------------------------------------
// Calls
// ---------------------------------------------------------------------------

/// What a call expects in the response.
#[derive(Clone, Copy, Debug, PartialEq, Eq, Structural)]
pub enum Expected {
    Nothing,
    State,
    Profile,
    BatteryLimit,
    PanelOverdrive,
    BootSound,
}

/// A wish that has not been sent yet.
#[derive(Debug)]
pub struct Call {
    pub request: Request,
    pub expected: Expected,
}

/// What a finished call returns.
#[derive(Debug)]
pub enum Reply {
    Nothing,
    State(State),
    Profile(String),
    Number(i32),
}

impl Call {
    /// The call sends this request and expects this response.
    pub open spec fn sends(self, request: RequestView, expected: Expected) -> bool {
        self.request@ == request && self.expected == expected
    }
}

/// A client of the daemon at a socket path.
#[derive(Clone, Debug)]
pub struct Client {
    socket_path: String,
}

fn target_device(device: &str) -> (result: Option<String>)
    ensures
        result.deep_view() == named_device(device@),
{
    if device.unicode_len() == 0 {
        None
    } else {
        Some(String::from_str(device))
    }
}

/// The device that a request names; no name means every device.
pub open spec fn named_device(device: Seq<char>) -> Option<Seq<char>> {
    if device.len() == 0 {
        None
    } else {
        Some(device)
    }
}

/// The text of an optional limit.
pub open spec fn limit_text(limit: Option<u32>) -> Option<Seq<char>> {
    match limit {
        Some(value) => Some(decimal(value as nat)),
        None => None,
    }
}

fn written_limit(limit: Option<u32>) -> (result: Option<String>)
    ensures
        result.deep_view() == limit_text(limit),
{
    match limit {
        Some(value) => Some(decimal_text(value as u128)),
        None => None,
    }
}

/// A request that sets one value.
pub open spec fn setting(cmd: Seq<char>, value: Seq<char>) -> RequestView {
    RequestView { set: Some(value), ..bare_request(cmd) }
}

fn ordered(cmd: &str) -> (result: Call)
    ensures
        result.sends(bare_request(cmd@), Expected::Nothing),
{
    Call { request: Request::bare(cmd), expected: Expected::Nothing }
}

fn asked(cmd: &str, expected: Expected) -> (result: Call)
    ensures
        result.sends(bare_request(cmd@), expected),
{
    Call { request: Request::bare(cmd), expected }
}

fn set(cmd: &str, value: String) -> (result: Call)
    ensures
        result.sends(setting(cmd@, value@), Expected::Nothing),
{
    Call {
        request: Request { set: Some(value), ..Request::bare(cmd) },
        expected: Expected::Nothing,
    }
}

impl Client {
    /// The path of the daemon's socket.
    pub closed spec fn socket(&self) -> Seq<char> {
        self.socket_path@
    }

    /// The daemon of the session with the given runtime directory.
    pub fn new(runtime: Option<&str>) -> (result: Self)
        ensures
            result.socket() == Client::default_socket(runtime),
    {
        let path: String = Client::socket_path(runtime);
        Client::with_path(path.as_str())
    }

    /// Overrides the socket path.
    pub fn with_path(path: &str) -> (result: Self)
        ensures
            result.socket() == path@,
    {
        Client { socket_path: String::from_str(path) }
    }

    /// Where the daemon listens: in the runtime directory, or in `/tmp` where
    /// there is none.
    pub open spec fn default_socket(runtime: Option<&str>) -> Seq<char> {
        (match runtime {
            Some(directory) => directory@,
            None => "/tmp"@,
        }) + "/z13ctl/z13ctl.sock"@
    }

    /// Where the daemon listens.
    pub fn socket_path(runtime: Option<&str>) -> (result: String)
        ensures
            result@ == Client::default_socket(runtime),
    {
        match runtime {
            Some(directory) => prefixed(directory, "/z13ctl/z13ctl.sock"),
            None => prefixed("/tmp", "/z13ctl/z13ctl.sock"),
        }
    }

    /// The path of the daemon's socket.
    pub fn path(&self) -> (result: &str)
        ensures
            result@ == self.socket(),
    {
        self.socket_path.as_str()
    }

    pub fn get_state(&self) -> (result: Call)
        ensures
            result.sends(bare_request("get-state"@), Expected::State),
    {
        asked("get-state", Expected::State)
    }

    pub fn profile_set(&self, profile: &str) -> (result: Call)
        ensures
            result.sends(setting("profile"@, profile@), Expected::Nothing),
    {
        set("profile", String::from_str(profile))
    }

    /// Reads the stock base. The reply is never `custom`, and `low-power` is
    /// normalised to `quiet`.
    pub fn profile_get(&self) -> (result: Call)
        ensures
            result.sends(bare_request("profile-get"@), Expected::Profile),
    {
        asked("profile-get", Expected::Profile)
    }

    /// Sets the power limits. Force is sent only where it is wanted.
    pub fn tdp_set(
        &self,
        set: u32,
        pl1: Option<u32>,
        pl2: Option<u32>,
        pl3: Option<u32>,
        force: bool,
    ) -> (result: Call)
        ensures
            result.sends(
                RequestView {
                    pl1: limit_text(pl1),
                    pl2: limit_text(pl2),
                    pl3: limit_text(pl3),
                    force: if force {
                        Some(true)
                    } else {
                        None
                    },
                    ..setting("tdp"@, decimal(set as nat))
                },
                Expected::Nothing,
            ),
    {
        Call {
            request: Request {
                set: Some(decimal_text(set as u128)),
                pl1: written_limit(pl1),
                pl2: written_limit(pl2),
                pl3: written_limit(pl3),
                force: if force {
                    Some(true)
                } else {
                    None
                },
                ..Request::bare("tdp")
            },
            expected: Expected::Nothing,
        }
    }

    pub fn tdp_reset(&self) -> (result: Call)
        ensures
            result.sends(bare_request("tdp-reset"@), Expected::Nothing),
    {
        ordered("tdp-reset")
    }

    /// Sets the fan curve from eight `[temperature, pwm]` points.
    pub fn fan_curve_set(&self, points: &[[i32; 2]; 8]) -> (result: Call)
        ensures
            result.sends(setting("fancurve"@, wire_points(*points, 8)), Expected::Nothing),
    {
        set("fancurve", to_wire(points))
    }

    pub fn fan_curve_reset(&self) -> (result: Call)
        ensures
            result.sends(bare_request("fancurve-reset"@), Expected::Nothing),
    {
        ordered("fancurve-reset")
    }

    pub fn undervolt_set(&self, cpu_co: i32) -> (result: Call)
        ensures
            result.sends(setting("undervolt"@, signed_decimal(cpu_co as int)), Expected::Nothing),
    {
        set("undervolt", signed_decimal_text(cpu_co as i64))
    }

    pub fn undervolt_reset(&self) -> (result: Call)
        ensures
            result.sends(bare_request("undervolt-reset"@), Expected::Nothing),
    {
        ordered("undervolt-reset")
    }

    pub fn apply_lighting(
        &self,
        mode: &str,
        color: &str,
        color2: &str,
        speed: &str,
        brightness: i32,
        device: &str,
    ) -> (result: Call)
        ensures
            result.sends(
                RequestView {
                    mode: Some(mode@),
                    color: Some(color@),
                    color2: Some(color2@),
                    speed: Some(speed@),
                    brightness: Some(brightness),
                    device: named_device(device@),
                    ..bare_request("apply"@)
                },
                Expected::Nothing,
            ),
    {
        Call {
            request: Request {
                mode: Some(String::from_str(mode)),
                color: Some(String::from_str(color)),
                color2: Some(String::from_str(color2)),
                speed: Some(String::from_str(speed)),
                brightness: Some(brightness),
                device: target_device(device),
                ..Request::bare("apply")
            },
            expected: Expected::Nothing,
        }
    }

    pub fn lighting_off(&self, device: &str) -> (result: Call)
        ensures
            result.sends(
                RequestView { device: named_device(device@), ..bare_request("off"@) },
                Expected::Nothing,
            ),
    {
        Call {
            request: Request { device: target_device(device), ..Request::bare("off") },
            expected: Expected::Nothing,
        }
    }

    pub fn brightness_set(&self, brightness: i32, device: &str) -> (result: Call)
        ensures
            result.sends(
                RequestView {
                    brightness: Some(brightness),
                    device: named_device(device@),
                    ..bare_request("brightness"@)
                },
                Expected::Nothing,
            ),
    {
        Call {
            request: Request {
                brightness: Some(brightness),
                device: target_device(device),
                ..Request::bare("brightness")
            },
            expected: Expected::Nothing,
        }
    }

    pub fn battery_limit_set(&self, limit: i32) -> (result: Call)
        ensures
            result.sends(setting("batterylimit"@, signed_decimal(limit as int)), Expected::Nothing),
    {
        set("batterylimit", signed_decimal_text(limit as i64))
    }

    pub fn battery_limit_get(&self) -> (result: Call)
        ensures
            result.sends(bare_request("batterylimit-get"@), Expected::BatteryLimit),
    {
        asked("batterylimit-get", Expected::BatteryLimit)
    }

    pub fn panel_overdrive_set(&self, value: i32) -> (result: Call)
        ensures
            result.sends(
                setting("paneloverdrive"@, signed_decimal(value as int)),
                Expected::Nothing,
            ),
    {
        set("paneloverdrive", signed_decimal_text(value as i64))
    }

    pub fn panel_overdrive_get(&self) -> (result: Call)
        ensures
            result.sends(bare_request("paneloverdrive-get"@), Expected::PanelOverdrive),
    {
        asked("paneloverdrive-get", Expected::PanelOverdrive)
    }

    pub fn boot_sound_set(&self, value: i32) -> (result: Call)
        ensures
            result.sends(setting("bootsound"@, signed_decimal(value as int)), Expected::Nothing),
    {
        set("bootsound", signed_decimal_text(value as i64))
    }

    pub fn boot_sound_get(&self) -> (result: Call)
        ensures
            result.sends(bare_request("bootsound-get"@), Expected::BootSound),
    {
        asked("bootsound-get", Expected::BootSound)
    }

    /// Asks for events.
    pub fn subscribe(&self, events: Vec<String>) -> (result: Call)
        ensures
            result.sends(
                RequestView { events: Some(events.deep_view()), ..bare_request("subscribe"@) },
                Expected::Nothing,
            ),
    {
        Call {
            request: Request { events: Some(events), ..Request::bare("subscribe") },
            expected: Expected::Nothing,
        }
    }
}

// ---------------------------------------------------------------------------
// Responses
// ---------------------------------------------------------------------------

/// How a response is judged: it has to be one, and it has to report success.
pub open spec fn judged(
    decoded: Result<Response, String>,
    complaint: Seq<char>,
    refusal: Seq<char>,
) -> Result<Response, DaemonErrorView> {
    match decoded {
        Err(text) => Err(DaemonErrorView::Protocol(complaint + text@)),
        Ok(response) => if response.ok {
            Ok(response)
        } else {
            Err(
                DaemonErrorView::Rejected(
                    match response.error {
                        Some(text) => text@,
                        None => refusal,
                    },
                ),
            )
        },
    }
}

fn judge(decoded: Result<Response, String>, complaint: &str, refusal: &str) -> (result: Result<
    Response,
    DaemonError,
>)
    ensures
        modelled(result) == judged(decoded, complaint@, refusal@),
{
    let response: Response = match decoded {
        Ok(response) => response,
        Err(text) => {
            return Err(DaemonError::Protocol(prefixed(complaint, text.as_str())));
        },
    };
    if response.ok {
        return Ok(response);
    }
    match response.error {
        Some(text) => Err(DaemonError::Rejected(text)),
        None => Err(DaemonError::Rejected(String::from_str(refusal))),
    }
}

/// Judges the response to a command, given what its line was decoded to.
pub fn exchange(decoded: Result<Response, String>) -> (result: Result<Response, DaemonError>)
    ensures
        modelled(result) == judged(decoded, "invalid response JSON: "@, "unknown error"@),
{
    judge(decoded, "invalid response JSON: ", "unknown error")
}

/// Judges the response to a subscription, given what its line was decoded to.
pub fn accept_subscription(decoded: Result<Response, String>) -> (result: Result<
    Response,
    DaemonError,
>)
    ensures
        modelled(result) == judged(decoded, "invalid subscribe ack: "@, "subscribe failed"@),
{
    judge(decoded, "invalid subscribe ack: ", "subscribe failed")
}

/// A response is taken exactly if it reports success, as it came; else the call
/// fails with the daemon's own reason, or a stock one where it gives none.
pub proof fn law_success_alone_is_taken(
    response: Response,
    text: String,
    complaint: Seq<char>,
    refusal: Seq<char>,
)
    ensures
        response.ok ==> judged(Ok(response), complaint, refusal) == Ok::<Response, DaemonErrorView>(
            response,
        ),
        !response.ok ==> (response.error matches Some(reason) ==> judged(
            Ok(response),
            complaint,
            refusal,
        ) == Err::<Response, DaemonErrorView>(DaemonErrorView::Rejected(reason@))),
        !response.ok && response.error is None ==> judged(Ok(response), complaint, refusal) == Err::<
            Response,
            DaemonErrorView,
        >(DaemonErrorView::Rejected(refusal)),
        judged(Err(text), complaint, refusal) matches Err(DaemonErrorView::Protocol(_)),
{
}

/// A request that sets something carries its command and its value, and one that
/// asks carries its command, and neither anything else.
pub proof fn law_requests_carry_one_command(cmd: Seq<char>, value: Seq<char>)
    ensures
        bare_request(cmd).cmd == cmd,
        bare_request(cmd).set is None,
        setting(cmd, value).cmd == cmd,
        setting(cmd, value).set == Some(value),
        setting(cmd, value) == (RequestView { set: Some(value), ..bare_request(cmd) }),
        ({
            let bare = bare_request(cmd);
            &&& bare.mode is None && bare.color is None && bare.color2 is None
            &&& bare.speed is None && bare.brightness is None && bare.device is None
            &&& bare.events is None && bare.pl1 is None && bare.pl2 is None && bare.pl3 is None
            &&& bare.force is None
        }),
{
}

/// The profile that a raw name stands for.
pub open spec fn normalized(raw: Seq<char>) -> Seq<char> {
    let name = lower_of(trim_of(raw));
    if name == "low-power"@ {
        "quiet"@
    } else {
        name
    }
}

/// The profile that a raw name stands for: without white space, in lower case,
/// and `quiet` in place of `low-power`.
pub fn normalize_profile(raw: &str) -> (result: String)
    ensures
        result@ == normalized(raw@),
{
    let name: String = lowered(trim(raw));
    if same(name.as_str(), "low-power") {
        String::from_str("quiet")
    } else {
        name
    }
}

/// A normalised profile is never `low-power`.
pub proof fn law_normalized_profile_is_not_low_power(raw: Seq<char>)
    ensures
        normalized(raw) != "low-power"@,
{
    reveal_strlit("low-power");
    reveal_strlit("quiet");
    assert("quiet"@.len() == 5);
    assert("low-power"@.len() == 9);
}

/// The number in a value, or the complaint about it.
pub open spec fn value_number(value: Seq<char>, complaint: Seq<char>) -> Result<
    i32,
    DaemonErrorView,
> {
    match number_value(value, i32::MIN as int, i32::MAX as int) {
        Ok(number) => Ok(number as i32),
        Err(error) => Err(DaemonErrorView::Protocol(complaint + error.message_text())),
    }
}

fn read_number(value: &str, complaint: &str) -> (result: Result<i32, DaemonError>)
    ensures
        modelled(result) == value_number(value@, complaint@),
{
    match parse_i32(value) {
        Ok(number) => Ok(number),
        Err(error) => Err(DaemonError::Protocol(prefixed(complaint, error.message()))),
    }
}

/// The complaint about a value that is not the expected number.
pub open spec fn number_complaint(expected: Expected) -> Seq<char> {
    match expected {
        Expected::BatteryLimit => "invalid battery limit: "@,
        Expected::PanelOverdrive => "invalid panel overdrive: "@,
        _ => "invalid boot sound: "@,
    }
}

impl Expected {
    /// Whether this is what a call makes of a successful response.
    pub open spec fn is_reply(self, response: Response, result: Result<Reply, DaemonError>) -> bool {
        match self {
            Expected::Nothing => result matches Ok(Reply::Nothing),
            Expected::State => match response.state {
                Some(state) => result matches Ok(Reply::State(found)) && found == state,
                None => result matches Err(error) && error@ == DaemonErrorView::Protocol(
                    "missing state in get-state response"@,
                ),
            },
            _ => match response.value {
                None => result matches Err(error) && error@ == DaemonErrorView::Protocol(
                    "missing value in response"@,
                ),
                Some(value) => if self == Expected::Profile {
                    if normalized(value@) == "custom"@ {
                        result matches Err(error) && error@ == DaemonErrorView::Protocol(
                            "custom is not a stock profile"@,
                        )
                    } else {
                        result matches Ok(Reply::Profile(name)) && name@ == normalized(value@)
                    }
                } else {
                    match value_number(value@, number_complaint(self)) {
                        Ok(number) => result matches Ok(Reply::Number(found)) && found == number,
                        Err(error) => result matches Err(found) && found@ == error,
                    }
                },
            },
        }
    }

    /// Finishes a call with its successful response.
    pub fn finish(self, response: Response) -> (result: Result<Reply, DaemonError>)
        ensures
            self.is_reply(response, result),
    {
        match self {
            Expected::Nothing => {
                return Ok(Reply::Nothing);
            },
            Expected::State => {
                return match response.state {
                    Some(state) => Ok(Reply::State(state)),
                    None => violation("missing state in get-state response"),
                };
            },
            _ => {},
        }
        let value: String = match response.value {
            Some(value) => value,
            None => {
                return violation("missing value in response");
            },
        };
        let number: Result<i32, DaemonError> = match self {
            Expected::Profile => {
                let name: String = normalize_profile(value.as_str());
                if same(name.as_str(), "custom") {
                    return violation("custom is not a stock profile");
                }
                return Ok(Reply::Profile(name));
            },
            Expected::BatteryLimit => read_number(value.as_str(), "invalid battery limit: "),
            Expected::PanelOverdrive => read_number(value.as_str(), "invalid panel overdrive: "),
            _ => read_number(value.as_str(), "invalid boot sound: "),
        };
        match number {
            Ok(number) => Ok(Reply::Number(number)),
            Err(error) => Err(error),
        }
    }
}

/// A profile that is read is a stock base: it is neither `custom` nor
/// `low-power`.
pub proof fn law_read_profile_is_a_stock_base(
    response: Response,
    result: Result<Reply, DaemonError>,
)
    requires
        Expected::Profile.is_reply(response, result),
        result is Ok,
    ensures
        result matches Ok(Reply::Profile(name)) && name@ != "custom"@ && name@ != "low-power"@,
{
    law_normalized_profile_is_not_low_power(response.value->0@);
}

/// What was set is what is read: a number comes back as the value of its notation.
/// Without a value, or with one that is no number, the call fails.
pub proof fn law_numbers_are_read_back(
    expected: Expected,
    response: Response,
    number: i32,
    result: Result<Reply, DaemonError>,
)
    requires
        expected == Expected::BatteryLimit || expected == Expected::PanelOverdrive || expected
            == Expected::BootSound,
        expected.is_reply(response, result),
    ensures
        (response.value matches Some(value) && value@ == signed_decimal(number as int)) ==> (
        result matches Ok(Reply::Number(found)) && found == number),
        response.value is None ==> result is Err,
        (response.value matches Some(value) && value@.len() == 0) ==> result is Err,
{
    law_written_numbers_are_read(number as int, i32::MIN as int, i32::MAX as int);
}

/// The state is handed on as it came, a profile by its name without the white space
/// around it and in lower case, the firmware's low power under the name quiet.
pub proof fn law_states_and_profiles_are_handed_on(
    response: Response,
    profile: Result<Reply, DaemonError>,
    state: Result<Reply, DaemonError>,
)
    requires
        Expected::Profile.is_reply(response, profile),
        Expected::State.is_reply(response, state),
    ensures
        response.state matches Some(reported) ==> (state matches Ok(Reply::State(found)) && found
            == reported),
        response.state is None ==> state is Err,
        response.value matches Some(value) ==> ({
            let name = lower_of(trim_of(value@));
            &&& name != "low-power"@ && name != "custom"@ ==> (profile matches Ok(
                Reply::Profile(found),
            ) && found@ == name)
            &&& name == "low-power"@ ==> (profile matches Ok(Reply::Profile(found)) && found@
                == "quiet"@)
            &&& name == "custom"@ ==> profile is Err
        }),
        response.value is None ==> profile is Err,
{
    reveal_strlit("low-power");
    reveal_strlit("quiet");
    reveal_strlit("custom");
    assert("quiet"@.len() == 5);
    assert("low-power"@.len() == 9);
    assert("custom"@.len() == 6);
}

/// A limit is sent in decimal notation, and a device by its name unless it has none.
pub proof fn law_limits_and_devices_are_sent_as_given(limit: u32, device: Seq<char>)
    ensures
        limit_text(None) is None,
        limit_text(Some(limit)) matches Some(text) && number_value(text, 0, u32::MAX as int) == Ok::<
            int,
            crate::number::NumberError,
        >(limit as int),
        device.len() > 0 ==> named_device(device) == Some(device),
        device.len() == 0 ==> named_device(device) is None,
{
    law_written_numbers_are_read(limit as int, 0, u32::MAX as int);
}

/// A socket that may not be opened is told from a daemon that does not run.
pub proof fn law_forbidden_sockets_are_told_apart(kind: IoKind, text: Seq<char>)
    ensures
        kind == IoKind::PermissionDenied ==> dial_error(kind, text) is PermissionDenied,
        kind == IoKind::NotFound || kind == IoKind::ConnectionRefused || kind
            == IoKind::ConnectionAborted || kind == IoKind::ConnectionReset || kind
            == IoKind::TimedOut ==> dial_error(kind, text) is NotRunning,
        io_error(kind, text) is Timeout <==> kind == IoKind::TimedOut || kind == IoKind::WouldBlock,
        io_error(kind, text) is PermissionDenied <==> kind == IoKind::PermissionDenied,
        io_error(kind, text) matches DaemonErrorView::Protocol(shown) ==> shown == text,
{
}

/// A line is handed on without the white space around it, and silence is an error.
pub proof fn law_lines_are_handed_on_trimmed(line: Seq<char>, silence: Seq<char>)
    ensures
        line.len() > 0 ==> line_text(line, silence) == Ok::<Seq<char>, DaemonErrorView>(
            trim_of(line),
        ),
        line.len() == 0 ==> line_text(line, silence) == Err::<Seq<char>, DaemonErrorView>(
            DaemonErrorView::Protocol(silence),
        ),
{
}

// ---------------------------------------------------------------------------
// Subscriptions
// ---------------------------------------------------------------------------

/// What a subscription does with a line.
#[derive(Debug)]
pub enum StreamStep {
    Deliver(String),
    Skip,
    Stop,
}

/// Judges a line of a running subscription: `None` where the stream has ended,
/// else what the line was decoded to.
///
/// Named events of successful lines are delivered. Timeouts and other lines are
/// skipped; the end of the stream and any other failure end the subscription.
pub fn subscription_step(read: Result<Option<Result<Response, String>>, IoKind>) -> (result:
    StreamStep)
    ensures
        match read {
            Err(kind) => if kind == IoKind::WouldBlock || kind == IoKind::TimedOut {
                result is Skip
            } else {
                result is Stop
            },
            Ok(None) => result is Stop,
            Ok(Some(Err(_))) => result is Skip,
            Ok(Some(Ok(response))) => match response.event {
                Some(name) => if response.ok && name@.len() > 0 {
                    result matches StreamStep::Deliver(event) && event == name
                } else {
                    result is Skip
                },
                None => result is Skip,
            },
        },
{
    match read {
        Err(kind) => {
            if kind == IoKind::WouldBlock || kind == IoKind::TimedOut {
                StreamStep::Skip
            } else {
                StreamStep::Stop
            }
        },
        Ok(None) => StreamStep::Stop,
        Ok(Some(Err(_))) => StreamStep::Skip,
        Ok(Some(Ok(response))) => {
            if !response.ok {
                return StreamStep::Skip;
            }
            match response.event {
                Some(name) => {
                    if name.as_str().unicode_len() == 0 {
                        StreamStep::Skip
                    } else {
                        StreamStep::Deliver(name)
                    }
                },
                None => StreamStep::Skip,
            }
        },
    }
}

} // verus!
