//! The client side of the direct fan companion, without the socket.

use vstd::prelude::*;

use crate::client::{IoFailure, IoKind};
use crate::text::prefixed;
use crate::z13ctl::error::{modelled, violation, DaemonError, DaemonErrorView};

verus! {

/// A point of the curve that the companion runs.
#[derive(Clone, Copy, Debug, PartialEq, Eq, Structural)]
pub struct ManualFanPoint {
    pub temp: i32,
    pub pwm: i32,
}

/// What the companion reports. A field that is missing on the wire holds its
/// default.
#[derive(Clone, Debug, PartialEq, Eq)]
pub struct ManualFanStatus {
    pub available: bool,
    pub active: bool,
    pub target_pwm: Option<i32>,
    pub fan_rpm: Vec<i32>,
    pub temperature: Option<i32>,
    pub fail_safe: Option<String>,
}

impl Default for ManualFanStatus {
    fn default() -> (result: Self)
        ensures
            !result.available,
            !result.active,
            result.target_pwm is None,
            result.fan_rpm@ == Seq::<i32>::empty(),
            result.temperature is None,
            result.fail_safe is None,
    {
        ManualFanStatus {
            available: false,
            active: false,
            target_pwm: None,
            fan_rpm: Vec::new(),
            temperature: None,
            fail_safe: None,
        }
    }
}

/// A request to the companion.
#[derive(Debug, PartialEq, Eq)]
pub struct ManualFanRequest {
    pub cmd: String,
    pub points: Option<Vec<ManualFanPoint>>,
}

/// The companion's response.
#[derive(Debug, PartialEq, Eq)]
pub struct ManualFanResponse {
    pub ok: bool,
    pub error: Option<String>,
    pub status: Option<ManualFanStatus>,
}

/// A wish that has not been sent yet, and whether its response has to hold a
/// status.
#[derive(Debug, PartialEq, Eq)]
pub struct ManualFanCall {
    pub request: ManualFanRequest,
    pub wants_status: bool,
}

/// A client of the companion at a socket path.
#[derive(Clone, Debug)]
pub struct ManualFanClient {
    socket_path: String,
}

/// The points of a curve, as the companion takes them.
pub open spec fn points_of(curve: [[i32; 2]; 8]) -> Seq<ManualFanPoint> {
    Seq::new(8, |i: int| ManualFanPoint { temp: curve@[i]@[0], pwm: curve@[i]@[1] })
}

/// The text that describes a failure of the companion.
pub open spec fn description(error: DaemonErrorView) -> Seq<char> {
    match error {
        DaemonErrorView::NotRunning => "companion not running — sudo make install-fan-service"@,
        DaemonErrorView::PermissionDenied => {
            "permission denied on fan socket — join the z13-helper group and re-login"@
        },
        DaemonErrorView::Timeout => "fan companion timed out"@,
        DaemonErrorView::Rejected(message) => message,
        DaemonErrorView::Protocol(message) => message,
    }
}

impl ManualFanClient {
    /// The path of the companion's socket.
    pub closed spec fn socket(&self) -> Seq<char> {
        self.socket_path@
    }

    pub fn new() -> (result: Self)
        ensures
            result.socket() == "/run/z13-helper/fan.sock"@,
    {
        ManualFanClient::with_path("/run/z13-helper/fan.sock")
    }

    pub fn with_path(path: &str) -> (result: Self)
        ensures
            result.socket() == path@,
    {
        ManualFanClient { socket_path: String::from_str(path) }
    }

    /// The path of the companion's socket.
    pub fn path(&self) -> (result: &str)
        ensures
            result@ == self.socket(),
    {
        self.socket_path.as_str()
    }

    /// Describes a failure of the companion.
    ///
    /// [`DaemonError::message`] is worded for the daemon; this is worded for the
    /// optional companion.
    pub fn describe_error(error: &DaemonError) -> (result: String)
        ensures
            result@ == description(error@),
    {
        match error {
            DaemonError::NotRunning => String::from_str(
                "companion not running — sudo make install-fan-service",
            ),
            DaemonError::PermissionDenied => String::from_str(
                "permission denied on fan socket — join the z13-helper group and re-login",
            ),
            DaemonError::Timeout => String::from_str("fan companion timed out"),
            DaemonError::Rejected(message) => message.clone(),
            DaemonError::Protocol(message) => message.clone(),
        }
    }

    pub fn probe(&self) -> (result: ManualFanCall)
        ensures
            result.request.cmd@ == "probe"@,
            result.request.points is None,
            result.wants_status,
    {
        ManualFanClient::command("probe", true)
    }

    pub fn status(&self) -> (result: ManualFanCall)
        ensures
            result.request.cmd@ == "status"@,
            result.request.points is None,
            result.wants_status,
    {
        ManualFanClient::command("status", true)
    }

    /// Runs a curve of eight `[temperature, pwm]` points.
    pub fn enable(&self, curve: &[[i32; 2]; 8]) -> (result: ManualFanCall)
        ensures
            result.request.cmd@ == "enable"@,
            result.request.points matches Some(points) && points@ == points_of(*curve),
            result.wants_status,
    {
        let mut points: Vec<ManualFanPoint> = Vec::new();
        let mut i: usize = 0;
        while i < 8
            invariant
                i <= 8,
                points@ == points_of(*curve).take(i as int),
            decreases 8 - i,
        {
            points.push(ManualFanPoint { temp: curve[i][0], pwm: curve[i][1] });
            assert(points@ =~= points_of(*curve).take(i + 1));
            i = i + 1;
        }
        assert(points@ =~= points_of(*curve));
        ManualFanCall {
            request: ManualFanRequest { cmd: String::from_str("enable"), points: Some(points) },
            wants_status: true,
        }
    }

    pub fn release(&self) -> (result: ManualFanCall)
        ensures
            result.request.cmd@ == "release"@,
            result.request.points is None,
            !result.wants_status,
    {
        ManualFanClient::command("release", false)
    }

    fn command(cmd: &str, wants_status: bool) -> (result: ManualFanCall)
        ensures
            result.request.cmd@ == cmd@,
            result.request.points is None,
            result.wants_status == wants_status,
    {
        ManualFanCall {
            request: ManualFanRequest { cmd: String::from_str(cmd), points: None },
            wants_status,
        }
    }
}

impl Default for ManualFanClient {
    fn default() -> (result: Self)
        ensures
            result.socket() == "/run/z13-helper/fan.sock"@,
    {
        ManualFanClient::new()
    }
}

/// The error behind a failure to reach the companion.
pub open spec fn dial_error(kind: IoKind, text: Seq<char>) -> DaemonErrorView {
    match kind {
        IoKind::PermissionDenied => DaemonErrorView::PermissionDenied,
        IoKind::NotFound => DaemonErrorView::NotRunning,
        IoKind::ConnectionRefused => DaemonErrorView::NotRunning,
        IoKind::ConnectionAborted => DaemonErrorView::NotRunning,
        IoKind::ConnectionReset => DaemonErrorView::NotRunning,
        IoKind::TimedOut => DaemonErrorView::NotRunning,
        _ => DaemonErrorView::Protocol(text),
    }
}

/// Classifies a failure to reach the companion.
pub fn classify_dial_error(error: IoFailure) -> (result: DaemonError)
    ensures
        result@ == dial_error(error.kind, error.text@),
{
    match error.kind {
        IoKind::PermissionDenied => DaemonError::PermissionDenied,
        IoKind::NotFound => DaemonError::NotRunning,
        IoKind::ConnectionRefused => DaemonError::NotRunning,
        IoKind::ConnectionAborted => DaemonError::NotRunning,
        IoKind::ConnectionReset => DaemonError::NotRunning,
        IoKind::TimedOut => DaemonError::NotRunning,
        _ => DaemonError::Protocol(error.text),
    }
}

/// How a response of the companion is judged.
pub open spec fn judged(decoded: Result<ManualFanResponse, String>) -> Result<
    ManualFanResponse,
    DaemonErrorView,
> {
    match decoded {
        Err(text) => Err(DaemonErrorView::Protocol("invalid companion response: "@ + text@)),
        Ok(response) => if response.ok {
            Ok(response)
        } else {
            Err(
                DaemonErrorView::Rejected(
                    match response.error {
                        Some(text) => text@,
                        None => "manual fan command rejected"@,
                    },
                ),
            )
        },
    }
}

/// Judges a response of the companion, given what its line was decoded to.
pub fn exchange(decoded: Result<ManualFanResponse, String>) -> (result: Result<
    ManualFanResponse,
    DaemonError,
>)
    ensures
        modelled(result) == judged(decoded),
{
    let response: ManualFanResponse = match decoded {
        Ok(response) => response,
        Err(text) => {
            return Err(
                DaemonError::Protocol(prefixed("invalid companion response: ", text.as_str())),
            );
        },
    };
    if response.ok {
        return Ok(response);
    }
    match response.error {
        Some(text) => Err(DaemonError::Rejected(text)),
        None => Err(DaemonError::Rejected(String::from_str("manual fan command rejected"))),
    }
}

/// Finishes a call that wants a status with its successful response.
pub fn reported_status(response: ManualFanResponse) -> (result: Result<
    ManualFanStatus,
    DaemonError,
>)
    ensures
        modelled(result) == (match response.status {
            Some(status) => Ok(status),
            None => Err(DaemonErrorView::Protocol("missing companion status"@)),
        }),
{
    match response.status {
        Some(status) => Ok(status),
        None => violation("missing companion status"),
    }
}

/// The companion gets the points of the curve, each with its own temperature and
/// duty, in their order.
pub proof fn law_points_are_sent_as_authored(curve: [[i32; 2]; 8], i: int)
    requires
        0 <= i < 8,
    ensures
        points_of(curve).len() == 8,
        points_of(curve)[i].temp == curve@[i]@[0],
        points_of(curve)[i].pwm == curve@[i]@[1],
{
}

/// A response is taken exactly if it reports success, as it came; else the call
/// fails with the companion's own reason where it gives one.
pub proof fn law_success_alone_is_taken(response: ManualFanResponse, text: String)
    ensures
        response.ok ==> judged(Ok(response)) == Ok::<ManualFanResponse, DaemonErrorView>(response),
        !response.ok ==> (judged(Ok(response)) matches Err(DaemonErrorView::Rejected(shown)) && (
        response.error matches Some(reason) ==> shown == reason@)),
        judged(Err(text)) matches Err(DaemonErrorView::Protocol(_)),
{
}

/// A socket that may not be opened is told from a companion that does not run.
pub proof fn law_forbidden_sockets_are_told_apart(kind: IoKind, text: Seq<char>)
    ensures
        dial_error(kind, text) is PermissionDenied <==> kind == IoKind::PermissionDenied,
        dial_error(kind, text) is NotRunning <==> kind == IoKind::NotFound || kind
            == IoKind::ConnectionRefused || kind == IoKind::ConnectionAborted || kind
            == IoKind::ConnectionReset || kind == IoKind::TimedOut,
        dial_error(kind, text) matches DaemonErrorView::Protocol(shown) ==> shown == text,
        dial_error(IoKind::Other, text) is Protocol,
{
}

} // verus!
