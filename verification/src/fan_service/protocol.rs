//! Requests to the fan service and its answers.
//!
//! The model of a broker is the log of the calls that it has received, each with
//! its result.

use vstd::prelude::*;

use crate::fan_service::curve::{increasing, Curve, CurveError, Point};
use crate::text::{
    chars_contain, chars_of, contains_part, prefixed, quoted, quoted_text,
    same, signed_decimal, signed_decimal_text, trim, trim_end, trim_end_of, trim_of, upper_chars,
    upper_of,
};

verus! {

/// A curve point as clients send it.
#[derive(Clone, Copy, Debug, PartialEq, Eq, Structural)]
pub struct LegacyPoint {
    pub temp: i32,
    pub pwm: i32,
}

/// One request line.
#[derive(Debug)]
pub struct Request {
    pub cmd: String,
    pub points: Option<Vec<LegacyPoint>>,
    pub curves: Option<[Curve; 2]>,
}

#[derive(Clone, Debug, PartialEq, Eq)]
pub struct ProbeReply {
    pub model: String,
    pub ec_version: u8,
    pub fan_count: u8,
}

#[derive(Clone, Copy, Debug, PartialEq, Eq)]
pub struct StatusReply {
    pub enabled: bool,
    pub apu_temperature_c: i32,
    pub rpm: [u32; 2],
    pub pl1_w: Option<u32>,
    pub duty: [u8; 2],
    pub ec_errors: u32,
}

/// The status as clients see it.
#[derive(Clone, Debug, PartialEq, Eq)]
pub struct ClientStatus {
    pub available: bool,
    pub active: bool,
    pub target_pwm: Option<i32>,
    pub fan_rpm: Vec<i32>,
    pub temperature: Option<i32>,
    pub pl1_w: Option<u32>,
    pub fail_safe: Option<String>,
}

/// The model of a [`ClientStatus`].
pub struct ClientStatusView {
    pub available: bool,
    pub active: bool,
    pub target_pwm: Option<i32>,
    pub fan_rpm: Seq<i32>,
    pub temperature: Option<i32>,
    pub pl1_w: Option<u32>,
    pub fail_safe: Option<Seq<char>>,
}

impl View for ClientStatus {
    type V = ClientStatusView;

    open spec fn view(&self) -> ClientStatusView {
        ClientStatusView {
            available: self.available,
            active: self.active,
            target_pwm: self.target_pwm,
            fan_rpm: self.fan_rpm@,
            temperature: self.temperature,
            pl1_w: self.pl1_w,
            fail_safe: self.fail_safe.deep_view(),
        }
    }
}

/// The status of a service that answers but drives no fan.
pub open spec fn idle_status() -> ClientStatusView {
    ClientStatusView {
        available: true,
        active: false,
        target_pwm: None,
        fan_rpm: Seq::empty(),
        temperature: None,
        pl1_w: None,
        fail_safe: None,
    }
}

/// How clients see a status: the higher of both duties is the target while the
/// service drives the fans.
pub open spec fn client_status_of(status: StatusReply) -> ClientStatusView {
    ClientStatusView {
        available: true,
        active: status.enabled,
        target_pwm: if status.enabled {
            Some(
                crate::curve::higher(status.duty@[0] as int, status.duty@[1] as int) as i32,
            )
        } else {
            None
        },
        fan_rpm: seq![status.rpm@[0] as i32, status.rpm@[1] as i32],
        temperature: Some(status.apu_temperature_c),
        pl1_w: status.pl1_w,
        fail_safe: None,
    }
}

impl ClientStatus {
    /// The status of a service that answers but drives no fan.
    pub fn available() -> (result: Self)
        ensures
            result@ == idle_status(),
    {
        ClientStatus {
            available: true,
            active: false,
            target_pwm: None,
            fan_rpm: Vec::new(),
            temperature: None,
            pl1_w: None,
            fail_safe: None,
        }
    }

    /// How clients see a status.
    pub fn of(status: StatusReply) -> (result: Self)
        ensures
            result@ == client_status_of(status),
    {
        let mut fan_rpm: Vec<i32> = Vec::new();
        fan_rpm.push(
            #[verifier::truncate]
            (status.rpm[0] as i32),
        );
        fan_rpm.push(
            #[verifier::truncate]
            (status.rpm[1] as i32),
        );
        assert(fan_rpm@ =~= client_status_of(status).fan_rpm);
        let target: u8 = if status.duty[0] >= status.duty[1] {
            status.duty[0]
        } else {
            status.duty[1]
        };
        ClientStatus {
            available: true,
            active: status.enabled,
            target_pwm: if status.enabled {
                Some(target as i32)
            } else {
                None
            },
            fan_rpm,
            temperature: Some(status.apu_temperature_c),
            pl1_w: status.pl1_w,
            fail_safe: None,
        }
    }
}

/// One answer line.
#[derive(Debug)]
pub struct WireResponse {
    pub ok: bool,
    pub status: Option<ClientStatus>,
    pub probe: Option<ProbeReply>,
    pub error: Option<String>,
}

/// The model of a [`WireResponse`].
pub struct WireResponseView {
    pub ok: bool,
    pub status: Option<ClientStatusView>,
    pub probe: Option<ProbeReply>,
    pub error: Option<Seq<char>>,
}

impl View for WireResponse {
    type V = WireResponseView;

    open spec fn view(&self) -> WireResponseView {
        WireResponseView {
            ok: self.ok,
            status: match self.status {
                Some(status) => Some(status@),
                None => None,
            },
            probe: self.probe,
            error: self.error.deep_view(),
        }
    }
}

/// The answer to a request that failed.
pub open spec fn failure_of(error: Seq<char>) -> WireResponseView {
    WireResponseView { ok: false, status: None, probe: None, error: Some(error) }
}

impl WireResponse {
    pub fn success(status: Option<ClientStatus>, probe: Option<ProbeReply>) -> (result: Self)
        ensures
            result@ == (WireResponseView {
                ok: true,
                status: match status {
                    Some(status) => Some(status@),
                    None => None,
                },
                probe,
                error: None,
            }),
    {
        WireResponse { ok: true, status, probe, error: None }
    }

    pub fn failure(error: String) -> (result: Self)
        ensures
            result@ == failure_of(error@),
    {
        WireResponse { ok: false, status: None, probe: None, error: Some(error) }
    }
}

/// One entry of a broker's log.
pub enum BrokerStep {
    Probe(Result<ProbeReply, String>),
    Status(Result<StatusReply, String>),
    Enable([Curve; 2], Result<(), String>),
    Release(Result<(), String>),
}

/// The owner of the fans.
///
/// An implementation logs every call together with its result.
pub trait FanBroker {
    /// The calls received so far; an implementation that is verified overrides
    /// this with the calls it has recorded.
    closed spec fn log(&self) -> Seq<BrokerStep> {
        arbitrary()
    }

    fn probe(&mut self) -> (result: Result<ProbeReply, String>)
        ensures
            final(self).log() == old(self).log().push(BrokerStep::Probe(result)),
    ;

    fn status(&mut self) -> (result: Result<StatusReply, String>)
        ensures
            final(self).log() == old(self).log().push(BrokerStep::Status(result)),
    ;

    fn enable(&mut self, curves: [Curve; 2]) -> (result: Result<(), String>)
        ensures
            final(self).log() == old(self).log().push(BrokerStep::Enable(curves, result)),
    ;

    fn release(&mut self) -> (result: Result<(), String>)
        ensures
            final(self).log() == old(self).log().push(BrokerStep::Release(result)),
    ;
}

// ---------------------------------------------------------------------------
// Requested curves
// ---------------------------------------------------------------------------

/// The points of a request, once their duties are in range.
pub open spec fn points_of(points: Seq<LegacyPoint>) -> Seq<Point> {
    points.map_values(
        |point: LegacyPoint| Point { temperature_c: point.temp, duty: point.pwm as u8 },
    )
}

/// The first duty, from `from` on, that no hardware takes.
pub open spec fn first_bad_pwm(points: Seq<LegacyPoint>, from: int) -> Option<i32>
    decreases points.len() - from,
{
    if from >= points.len() {
        None
    } else if !(0 <= points[from].pwm <= 255) {
        Some(points[from].pwm)
    } else {
        first_bad_pwm(points, from + 1)
    }
}

/// Why a request's curves are refused.
pub open spec fn curves_error(request: Request) -> Option<Seq<char>> {
    if request.curves is Some {
        None
    } else if request.points is None {
        Some("enable requires points or curves"@)
    } else if first_bad_pwm(request.points->0@, 0) is Some {
        Some(
            "PWM "@ + signed_decimal(first_bad_pwm(request.points->0@, 0)->0 as int)
                + " is outside 0..=255"@,
        )
    } else if request.points->0@.len() != 8 {
        Some(CurveError::PointCount.message_text())
    } else if !increasing(points_of(request.points->0@)) {
        Some(CurveError::TemperatureOrder.message_text())
    } else {
        None
    }
}

/// Whether `curves` are those of an accepted request: its own pair, or its points
/// for both fans.
pub open spec fn are_curves_of(request: Request, curves: [Curve; 2]) -> bool {
    match request.curves {
        Some(own) => curves == own,
        None => curves@[0]@ == points_of(request.points->0@) && curves@[1] == curves@[0],
    }
}

/// Validates a request's curves; one list of points serves both fans.
pub fn requested_curves(request: &Request) -> (result: Result<[Curve; 2], String>)
    ensures
        match curves_error(*request) {
            Some(text) => result matches Err(message) && message@ == text,
            None => result matches Ok(curves) && are_curves_of(*request, curves),
        },
{
    if let Some(curves) = request.curves {
        return Ok(curves);
    }
    let legacy: &Vec<LegacyPoint> = match &request.points {
        Some(points) => points,
        None => {
            return Err(String::from_str("enable requires points or curves"));
        },
    };
    let mut points: Vec<Point> = Vec::new();
    let mut i: usize = 0;
    while i < legacy.len()
        invariant
            request.curves is None,
            request.points == Some(*legacy),
            i <= legacy@.len(),
            points@ == points_of(legacy@).take(i as int),
            first_bad_pwm(legacy@, 0) == first_bad_pwm(legacy@, i as int),
        decreases legacy@.len() - i,
    {
        let point: LegacyPoint = legacy[i];
        if point.pwm < 0 || point.pwm > 255 {
            let mut text: String = String::from_str("PWM ");
            text.append(signed_decimal_text(point.pwm as i64).as_str());
            text.append(" is outside 0..=255");
            return Err(text);
        }
        points.push(Point { temperature_c: point.temp, duty: point.pwm as u8 });
        assert(points@ =~= points_of(legacy@).take(i + 1));
        i = i + 1;
    }
    assert(points@ =~= points_of(legacy@));
    match Curve::try_from(points) {
        Ok(curve) => Ok([curve, curve]),
        Err(error) => Err(String::from_str(error.message())),
    }
}

// ---------------------------------------------------------------------------
// Dispatch
// ---------------------------------------------------------------------------

/// A dispatched request, as its model.
pub open spec fn response_of(result: Result<WireResponse, String>) -> Result<
    WireResponseView,
    Seq<char>,
> {
    match result {
        Ok(response) => Ok(response@),
        Err(text) => Err(text@),
    }
}

/// The answer to a status call.
pub open spec fn status_answer(status: Result<StatusReply, String>) -> Result<
    WireResponseView,
    Seq<char>,
> {
    match status {
        Ok(status) => Ok(
            WireResponseView {
                ok: true,
                status: Some(client_status_of(status)),
                probe: None,
                error: None,
            },
        ),
        Err(text) => Err(text@),
    }
}

/// Whether `steps` are the calls that a request leads to and `answer` is what
/// comes of them.
pub open spec fn is_dispatch(
    request: Request,
    steps: Seq<BrokerStep>,
    answer: Result<WireResponseView, Seq<char>>,
) -> bool {
    if request.cmd@ == "probe"@ {
        steps.len() == 1 && (steps[0] matches BrokerStep::Probe(probe) && answer == (match probe {
            Ok(probe) => Ok(
                WireResponseView {
                    ok: true,
                    status: Some(idle_status()),
                    probe: Some(probe),
                    error: None,
                },
            ),
            Err(text) => Err(text@),
        }))
    } else if request.cmd@ == "status"@ {
        steps.len() == 1 && (steps[0] matches BrokerStep::Status(status) && answer
            == status_answer(status))
    } else if request.cmd@ == "enable"@ {
        match curves_error(request) {
            Some(text) => steps.len() == 0 && answer == Err::<WireResponseView, Seq<char>>(text),
            None => steps.len() >= 1 && (steps[0] matches BrokerStep::Enable(curves, enabled)
                && are_curves_of(request, curves) && (match enabled {
                Err(text) => steps.len() == 1 && answer == Err::<WireResponseView, Seq<char>>(
                    text@,
                ),
                Ok(_) => steps.len() == 2 && (steps[1] matches BrokerStep::Status(status) && answer
                    == status_answer(status)),
            })),
        }
    } else if request.cmd@ == "release"@ {
        steps.len() == 1 && (steps[0] matches BrokerStep::Release(released) && answer == (
        match released {
            Ok(_) => Ok(
                WireResponseView { ok: true, status: None, probe: None, error: None },
            ),
            Err(text) => Err(text@),
        }))
    } else {
        steps.len() == 0 && answer == Err::<WireResponseView, Seq<char>>(
            "unknown command "@ + quoted_text(request.cmd@),
        )
    }
}

fn status_response(status: Result<StatusReply, String>) -> (result: Result<WireResponse, String>)
    ensures
        response_of(result) == status_answer(status),
{
    match status {
        Ok(status) => Ok(WireResponse::success(Some(ClientStatus::of(status)), None)),
        Err(text) => Err(text),
    }
}

/// Carries out a request.
///
/// A refused request reaches no broker, and enabling is answered with the status
/// that it led to.
pub fn dispatch<B: FanBroker>(broker: &mut B, request: &Request) -> (result: Result<
    WireResponse,
    String,
>)
    ensures
        exists|steps: Seq<BrokerStep>|
            final(broker).log() == old(broker).log() + steps && #[trigger] is_dispatch(
                *request,
                steps,
                response_of(result),
            ),
{
    let ghost start = broker.log();
    if same(request.cmd.as_str(), "probe") {
        let probe: Result<ProbeReply, String> = broker.probe();
        let ghost steps = seq![BrokerStep::Probe(probe)];
        assert(broker.log() =~= start + steps);
        let result: Result<WireResponse, String> = match probe {
            Ok(probe) => Ok(
                WireResponse::success(Some(ClientStatus::available()), Some(probe)),
            ),
            Err(text) => Err(text),
        };
        assert(is_dispatch(*request, steps, response_of(result)));
        result
    } else if same(request.cmd.as_str(), "status") {
        let status: Result<StatusReply, String> = broker.status();
        let ghost steps = seq![BrokerStep::Status(status)];
        assert(broker.log() =~= start + steps);
        let result: Result<WireResponse, String> = status_response(status);
        assert(is_dispatch(*request, steps, response_of(result)));
        result
    } else if same(request.cmd.as_str(), "enable") {
        let curves: [Curve; 2] = match requested_curves(request) {
            Ok(curves) => curves,
            Err(text) => {
                proof {
                    let steps = Seq::<BrokerStep>::empty();
                    assert(broker.log() =~= start + steps);
                    assert(is_dispatch(*request, steps, Err(text@)));
                }
                return Err(text);
            },
        };
        let enabled: Result<(), String> = broker.enable(curves);
        let ghost first = BrokerStep::Enable(curves, enabled);
        match enabled {
            Ok(_) => {},
            Err(text) => {
                proof {
                    let steps = seq![first];
                    assert(broker.log() =~= start + steps);
                    assert(is_dispatch(*request, steps, Err(text@)));
                }
                return Err(text);
            },
        }
        let status: Result<StatusReply, String> = broker.status();
        let ghost steps = seq![first, BrokerStep::Status(status)];
        assert(broker.log() =~= start + steps);
        let result: Result<WireResponse, String> = status_response(status);
        assert(is_dispatch(*request, steps, response_of(result)));
        result
    } else if same(request.cmd.as_str(), "release") {
        let released: Result<(), String> = broker.release();
        let ghost steps = seq![BrokerStep::Release(released)];
        assert(broker.log() =~= start + steps);
        let result: Result<WireResponse, String> = match released {
            Ok(_) => Ok(WireResponse::success(None, None)),
            Err(text) => Err(text),
        };
        assert(is_dispatch(*request, steps, response_of(result)));
        result
    } else {
        let text: String = prefixed("unknown command ", quoted(request.cmd.as_str()).as_str());
        proof {
            let steps = Seq::<BrokerStep>::empty();
            assert(broker.log() =~= start + steps);
            assert(is_dispatch(*request, steps, Err(text@)));
        }
        Err(text)
    }
}

/// The answer line of a dispatched request: its response, or its error.
pub open spec fn answer_line(answer: Result<WireResponseView, Seq<char>>) -> WireResponseView {
    match answer {
        Ok(response) => response,
        Err(text) => failure_of(text),
    }
}

/// Answers one line, given what it was decoded to.
pub fn handle_line<B: FanBroker>(broker: &mut B, decoded: Result<Request, String>) -> (result:
    WireResponse)
    ensures
        match decoded {
            Err(text) => final(broker).log() == old(broker).log() && result@ == failure_of(
                "invalid request: "@ + text@,
            ),
            Ok(request) => exists|steps: Seq<BrokerStep>,
                answer: Result<WireResponseView, Seq<char>>|
                final(broker).log() == old(broker).log() + steps && #[trigger] is_dispatch(
                    request,
                    steps,
                    answer,
                ) && result@ == answer_line(answer),
        },
{
    match decoded {
        Err(text) => WireResponse::failure(prefixed("invalid request: ", text.as_str())),
        Ok(request) => {
            let dispatched: Result<WireResponse, String> = dispatch(broker, &request);
            let ghost answer = response_of(dispatched);
            match dispatched {
                Ok(response) => response,
                Err(text) => WireResponse::failure(text),
            }
        },
    }
}

/// A client is told what the service does: whether it drives the fans and, only
/// then, the larger of the two duties, both speeds, the temperature and the limit.
pub proof fn law_status_tells_what_the_service_does(status: StatusReply)
    ensures
        ({
            let told = client_status_of(status);
            &&& told.available
            &&& told.active == status.enabled
            &&& !status.enabled ==> told.target_pwm is None
            &&& status.enabled ==> (told.target_pwm matches Some(duty) && duty >= status.duty@[0]
                && duty >= status.duty@[1] && (duty == status.duty@[0] || duty == status.duty@[1]))
            &&& told.fan_rpm.len() == 2
            &&& status.rpm@[0] <= i32::MAX ==> told.fan_rpm[0] == status.rpm@[0]
            &&& status.rpm@[1] <= i32::MAX ==> told.fan_rpm[1] == status.rpm@[1]
            &&& told.temperature == Some(status.apu_temperature_c)
            &&& told.pl1_w == status.pl1_w
        }),
{
}

/// Each command reaches the broker as itself and as nothing else, and succeeds
/// exactly if the broker did; an unknown one reaches it not at all and fails.
pub proof fn law_commands_reach_the_broker_as_themselves(
    request: Request,
    steps: Seq<BrokerStep>,
    answer: Result<WireResponseView, Seq<char>>,
)
    requires
        is_dispatch(request, steps, answer),
    ensures
        request.cmd@ == "probe"@ ==> steps.len() == 1 && (steps[0] matches BrokerStep::Probe(reply)
            && (reply is Ok <==> answer is Ok) && (reply matches Ok(probe) ==> answer->Ok_0.probe
            == Some(probe))),
        request.cmd@ == "status"@ ==> steps.len() == 1 && (steps[0] matches BrokerStep::Status(
            reply,
        ) && (reply is Ok <==> answer is Ok) && (reply matches Ok(status)
            ==> answer->Ok_0.status == Some(client_status_of(status)))),
        request.cmd@ == "release"@ ==> steps.len() == 1 && (steps[0] matches BrokerStep::Release(
            reply,
        ) && (reply is Ok <==> answer is Ok)),
        request.cmd@ == "enable"@ ==> forall|i: int|
            0 <= i < steps.len() ==> #[trigger] steps[i] is Enable || steps[i] is Status,
        request.cmd@ == "enable"@ && answer is Ok ==> steps.len() == 2 && (steps[0]
            matches BrokerStep::Enable(_, Ok(_))) && (steps[1] matches BrokerStep::Status(Ok(_))),
        request.cmd@ != "probe"@ && request.cmd@ != "status"@ && request.cmd@ != "release"@
            && request.cmd@ != "enable"@ ==> steps.len() == 0 && answer is Err,
{
    reveal_strlit("probe");
    reveal_strlit("status");
    reveal_strlit("enable");
    reveal_strlit("release");
    assert("probe"@.len() == 5 && "release"@.len() == 7);
    assert("status"@[0] == 's' && "enable"@[0] == 'e');
}

/// Enabling hands over the curves of the request: both of them as given, or the
/// points of one for both fans, each with its own temperature and duty.
pub proof fn law_enabling_hands_over_the_curves(
    request: Request,
    steps: Seq<BrokerStep>,
    answer: Result<WireResponseView, Seq<char>>,
    i: int,
)
    requires
        is_dispatch(request, steps, answer),
        request.cmd@ == "enable"@,
        0 <= i < 8,
    ensures
        request.curves matches Some(own) ==> steps.len() >= 1 && (steps[0]
            matches BrokerStep::Enable(curves, _) && curves == own),
        request.curves is None && request.points is None ==> steps.len() == 0 && answer is Err,
        request.curves is None && request.points is Some && points_are_usable(request.points->0@)
            ==> steps.len() >= 1 && (steps[0] matches BrokerStep::Enable(curves, _) && {
            let point = request.points->0@[i];
            &&& curves@[0]@.len() == 8
            &&& curves@[0]@[i].temperature_c == point.temp
            &&& curves@[0]@[i].duty == point.pwm
            &&& curves@[1] == curves@[0]
        }),
        request.curves is None && request.points is Some && !points_are_usable(request.points->0@)
            ==> steps.len() == 0 && answer is Err,
{
    reveal_strlit("probe");
    reveal_strlit("status");
    reveal_strlit("enable");
    assert("probe"@.len() == 5 && "enable"@.len() == 6);
    assert("status"@[0] == 's' && "enable"@[0] == 'e');
    if request.curves is None && request.points is Some {
        let points = request.points->0@;
        lemma_first_bad_pwm(points, 0);
        if points.len() == 8 && increasing(points_of(points)) {
            assert forall|a: int, b: int| 0 <= a < b < points.len() implies (
            #[trigger] points[a]).temp < (#[trigger] points[b]).temp by {
                assert(points_of(points)[a].temperature_c < points_of(points)[b].temperature_c);
            }
        }
        if points_are_usable(points) {
            assert forall|a: int, b: int| 0 <= a < b < points_of(points).len() implies (
            #[trigger] points_of(points)[a]).temperature_c < (
            #[trigger] points_of(points)[b]).temperature_c by {
                assert(points[a].temp < points[b].temp);
            }
            assert(0 <= points[i].pwm <= 255);
        }
    }
}

/// Eight points with rising temperatures and duties of one byte.
pub open spec fn points_are_usable(points: Seq<LegacyPoint>) -> bool {
    &&& points.len() == 8
    &&& forall|i: int| 0 <= i < points.len() ==> 0 <= (#[trigger] points[i]).pwm <= 255
    &&& forall|i: int, j: int|
        0 <= i < j < points.len() ==> (#[trigger] points[i]).temp < (#[trigger] points[j]).temp
}

proof fn lemma_first_bad_pwm(points: Seq<LegacyPoint>, from: int)
    requires
        0 <= from <= points.len(),
    ensures
        first_bad_pwm(points, from) is None <==> forall|i: int|
            from <= i < points.len() ==> 0 <= (#[trigger] points[i]).pwm <= 255,
    decreases points.len() - from,
{
    if from < points.len() {
        lemma_first_bad_pwm(points, from + 1);
        if first_bad_pwm(points, from) is Some {
            if 0 <= points[from].pwm <= 255 {
                let i = choose|i: int|
                    from + 1 <= i < points.len() && !(0 <= (#[trigger] points[i]).pwm <= 255);
                assert(!(0 <= points[i].pwm <= 255));
            }
        }
    }
}

/// A failure is answered as one, with its reason, and a success as it is.
pub proof fn law_failures_are_answered_as_failures(answer: Result<WireResponseView, Seq<char>>)
    ensures
        answer matches Ok(response) ==> answer_line(answer) == response,
        answer matches Err(text) ==> !answer_line(answer).ok && answer_line(answer).error == Some(
            text,
        ) && answer_line(answer).status is None && answer_line(answer).probe is None,
{
}

// ---------------------------------------------------------------------------
// Lines and models
// ---------------------------------------------------------------------------

/// Takes the request out of a received line: nothing when the client sent
/// nothing.
pub fn request_line(line: &str) -> (result: Result<Option<&str>, String>)
    ensures
        match result {
            Ok(None) => line@.len() == 0,
            Ok(Some(text)) => line@.len() > 0 && line@.last() == '\n' && text@ == trim_end_of(line@),
            Err(message) => line@.len() > 0 && line@.last() != '\n' && message@
                == "request exceeded limit or was not newline terminated"@,
        },
{
    let chars: Vec<char> = chars_of(line);
    if chars.len() == 0 {
        return Ok(None);
    }
    if chars[chars.len() - 1] != '\n' {
        return Err(
            String::from_str("request exceeded limit or was not newline terminated"),
        );
    }
    Ok(Some(trim_end(line)))
}

/// Checks that a DMI product name is that of the supported model, in any case.
pub fn verify_model(product: &str) -> (result: Result<(), String>)
    ensures
        match result {
            Ok(_) => contains_part(upper_of(product@), "GZ302EA"@),
            Err(message) => !contains_part(upper_of(product@), "GZ302EA"@) && message@
                == "unsupported DMI product "@ + quoted_text(trim_of(product@))
                + "; expected a GZ302EA model"@,
        },
{
    if chars_contain(&upper_chars(product), &chars_of("GZ302EA")) {
        return Ok(());
    }
    let mut text: String = String::from_str("unsupported DMI product ");
    text.append(quoted(trim(product)).as_str());
    text.append("; expected a GZ302EA model");
    Err(text)
}

} // verus!
