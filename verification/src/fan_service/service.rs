//! The control loop of the fan service.
//!
//! The [`Controller`] decides, the caller acts: every operation and every event
//! leads to the next action on the embedded controller or the sensors, or to the
//! end of the operation.

use vstd::prelude::*;

use crate::fan_service::curve::{
    controlled_duty, controlled_duty_of, duty_of, increasing, law_duty_stays_between_neighbours,
    law_protection_only_raises_the_duty, Curve,
};
use crate::fan_service::protocol::{ProbeReply, StatusReply};
use crate::fan_service::sensors::SensorSnapshot;
use crate::text::prefixed;

verus! {

/// How many errors in a row make the controller let go of the fans.
pub const MAX_CONSECUTIVE_EC_ERRORS: u32 = 3;

/// What the embedded controller reports about itself.
#[derive(Clone, Copy, Debug, PartialEq, Eq, Structural)]
pub struct EcProbe {
    pub version: u8,
    pub fan_count: u8,
}

/// What the caller does next.
#[derive(Clone, Copy, Debug, PartialEq, Eq, Structural)]
pub enum FanAction {
    ReadSensors,
    SetGlobalMode(bool),
    SetDuty { fan: u8, duty: u8 },
    ProbeEc,
}

/// What the caller's action came to.
#[derive(Debug)]
pub enum FanEvent {
    Sensors(Result<SensorSnapshot, String>),
    Ec(Result<(), String>),
    Probe(Result<EcProbe, String>),
}

/// The model of a [`FanEvent`].
pub enum EventView {
    Sensors(Result<SensorSnapshot, Seq<char>>),
    Ec(Result<(), Seq<char>>),
    Probe(Result<EcProbe, Seq<char>>),
}

impl View for FanEvent {
    type V = EventView;

    open spec fn view(&self) -> EventView {
        match self {
            FanEvent::Sensors(result) => EventView::Sensors(crate::json::value_result(*result)),
            FanEvent::Ec(result) => EventView::Ec(crate::json::value_result(*result)),
            FanEvent::Probe(result) => EventView::Probe(crate::json::value_result(*result)),
        }
    }
}

/// What an operation returns.
#[derive(Debug, PartialEq, Eq)]
pub enum FanReply {
    Probe(ProbeReply),
    Status(StatusReply),
    Done,
}

/// The model of a [`FanReply`].
pub enum ReplyView {
    Probe { model: Seq<char>, ec_version: u8, fan_count: u8 },
    Status(StatusReply),
    Done,
}

impl View for FanReply {
    type V = ReplyView;

    open spec fn view(&self) -> ReplyView {
        match self {
            FanReply::Probe(probe) => ReplyView::Probe {
                model: probe.model@,
                ec_version: probe.ec_version,
                fan_count: probe.fan_count,
            },
            FanReply::Status(status) => ReplyView::Status(*status),
            FanReply::Done => ReplyView::Done,
        }
    }
}

/// How an operation goes on.
#[derive(Debug)]
pub enum FanProgress {
    Act(FanAction),
    Finished(Result<FanReply, String>),
}

/// The model of a [`FanProgress`].
pub enum ProgressView {
    Act(FanAction),
    Finished(Result<ReplyView, Seq<char>>),
}

impl View for FanProgress {
    type V = ProgressView;

    open spec fn view(&self) -> ProgressView {
        match self {
            FanProgress::Act(action) => ProgressView::Act(*action),
            FanProgress::Finished(Ok(reply)) => ProgressView::Finished(Ok(reply@)),
            FanProgress::Finished(Err(text)) => ProgressView::Finished(Err(text@)),
        }
    }
}

/// What the controller waits for.
#[derive(Debug)]
enum Stage {
    Idle,
    Probing,
    StatusReading,
    Enabling([Curve; 2]),
    Releasing { then_probe: bool },
    TickReading,
    Writing { fan: u8, duties: [u8; 2] },
    LettingGo { message: String },
}

/// The model of what the controller waits for.
pub enum StageView {
    Idle,
    Probing,
    StatusReading,
    Enabling([Curve; 2]),
    Releasing { then_probe: bool },
    TickReading,
    Writing { fan: u8, duties: [u8; 2] },
    LettingGo { message: Seq<char> },
}

/// The owner of the fan curves.
#[derive(Debug)]
pub struct Controller {
    curves: Option<[Curve; 2]>,
    last_duty: [u8; 2],
    consecutive_ec_errors: u32,
    stage: Stage,
}

/// The model of a [`Controller`].
pub struct ControllerView {
    pub curves: Option<[Curve; 2]>,
    pub last_duty: [u8; 2],
    pub consecutive_ec_errors: u32,
    pub stage: StageView,
}

impl View for Controller {
    type V = ControllerView;

    closed spec fn view(&self) -> ControllerView {
        ControllerView {
            curves: self.curves,
            last_duty: self.last_duty,
            consecutive_ec_errors: self.consecutive_ec_errors,
            stage: match self.stage {
                Stage::Idle => StageView::Idle,
                Stage::Probing => StageView::Probing,
                Stage::StatusReading => StageView::StatusReading,
                Stage::Enabling(curves) => StageView::Enabling(curves),
                Stage::Releasing { then_probe } => StageView::Releasing { then_probe },
                Stage::TickReading => StageView::TickReading,
                Stage::Writing { fan, duties } => StageView::Writing { fan, duties },
                Stage::LettingGo { message } => StageView::LettingGo { message: message@ },
            },
        }
    }
}

/// One more error, up to the largest number.
pub open spec fn one_more(errors: u32) -> u32 {
    if errors == u32::MAX {
        u32::MAX
    } else {
        (errors + 1) as u32
    }
}

/// The duties that a pair of curves asks for.
pub open spec fn duties_of(curves: [Curve; 2], snapshot: SensorSnapshot) -> [u8; 2] {
    [
        controlled_duty_of(
            curves@[0]@,
            snapshot.apu_temperature_c as int,
            snapshot.pl1_w,
        ) as u8,
        controlled_duty_of(
            curves@[1]@,
            snapshot.apu_temperature_c as int,
            snapshot.pl1_w,
        ) as u8,
    ]
}

impl ControllerView {
    /// Waits for an action in a stage.
    pub open spec fn acting(self, stage: StageView, action: FanAction) -> (
        ControllerView,
        ProgressView,
    ) {
        (ControllerView { stage, ..self }, ProgressView::Act(action))
    }

    /// Ends an operation.
    pub open spec fn ended(self, result: Result<ReplyView, Seq<char>>) -> (
        ControllerView,
        ProgressView,
    ) {
        (ControllerView { stage: StageView::Idle, ..self }, ProgressView::Finished(result))
    }

    /// Gives the fans back to the firmware and then fails with a message.
    pub open spec fn letting_go(self, message: Seq<char>) -> (ControllerView, ProgressView) {
        ControllerView { curves: None, ..self }.acting(
            StageView::LettingGo { message },
            FanAction::SetGlobalMode(false),
        )
    }

    /// Counts an error of the embedded controller; the third in a row gives the
    /// fans back.
    pub open spec fn ec_failed(self, error: Seq<char>) -> (ControllerView, ProgressView) {
        let counted = ControllerView {
            consecutive_ec_errors: one_more(self.consecutive_ec_errors),
            ..self
        };
        if counted.consecutive_ec_errors >= MAX_CONSECUTIVE_EC_ERRORS {
            counted.letting_go("repeated EC failure; control released: "@ + error)
        } else {
            counted.ended(Err("EC failure: "@ + error))
        }
    }

    /// Without sensors the fans are given back.
    pub open spec fn sensors_failed(self, error: Seq<char>) -> (ControllerView, ProgressView) {
        self.letting_go("sensor failure; EC control released: "@ + error)
    }

    /// Starts one pass of the control loop.
    pub open spec fn ticking(self) -> (ControllerView, ProgressView) {
        if self.curves is None {
            self.ended(Ok(ReplyView::Done))
        } else {
            self.acting(StageView::TickReading, FanAction::ReadSensors)
        }
    }

    /// Starts a release.
    pub open spec fn releasing(self, then_probe: bool) -> (ControllerView, ProgressView) {
        ControllerView { curves: None, ..self }.acting(
            StageView::Releasing { then_probe },
            FanAction::SetGlobalMode(false),
        )
    }

    /// The action that the current stage waits for.
    pub open spec fn repeated(self) -> ProgressView {
        match self.stage {
            StageView::Idle => ProgressView::Finished(Ok(ReplyView::Done)),
            StageView::Probing => ProgressView::Act(FanAction::ProbeEc),
            StageView::StatusReading => ProgressView::Act(FanAction::ReadSensors),
            StageView::Enabling(_) => ProgressView::Act(FanAction::SetGlobalMode(true)),
            StageView::Releasing { .. } => ProgressView::Act(FanAction::SetGlobalMode(false)),
            StageView::TickReading => ProgressView::Act(FanAction::ReadSensors),
            StageView::Writing { fan, duties } => ProgressView::Act(
                FanAction::SetDuty {
                    fan,
                    duty: if fan == 0 {
                        duties@[0]
                    } else {
                        duties@[1]
                    },
                },
            ),
            StageView::LettingGo { .. } => ProgressView::Act(FanAction::SetGlobalMode(false)),
        }
    }

    /// The state and the progress after an event. An event that the stage does
    /// not wait for changes nothing and repeats the action.
    pub open spec fn advanced(self, event: EventView) -> (ControllerView, ProgressView) {
        match (self.stage, event) {
            (StageView::Probing, EventView::Probe(Ok(probe))) => ControllerView {
                consecutive_ec_errors: 0,
                ..self
            }.ended(
                Ok(
                    ReplyView::Probe {
                        model: "GZ302EA"@,
                        ec_version: probe.version,
                        fan_count: probe.fan_count,
                    },
                ),
            ),
            (StageView::Probing, EventView::Probe(Err(error))) => self.ec_failed(error),
            (StageView::StatusReading, EventView::Sensors(Ok(snapshot))) => self.ended(
                Ok(
                    ReplyView::Status(
                        StatusReply {
                            enabled: self.curves is Some,
                            apu_temperature_c: snapshot.apu_temperature_c,
                            rpm: snapshot.rpm,
                            pl1_w: snapshot.pl1_w,
                            duty: self.last_duty,
                            ec_errors: self.consecutive_ec_errors,
                        },
                    ),
                ),
            ),
            (StageView::StatusReading, EventView::Sensors(Err(error))) => self.sensors_failed(
                error,
            ),
            (StageView::Enabling(curves), EventView::Ec(Ok(_))) => ControllerView {
                curves: Some(curves),
                consecutive_ec_errors: 0,
                ..self
            }.ticking(),
            (StageView::Enabling(_), EventView::Ec(Err(error))) => self.ec_failed(error),
            (StageView::Releasing { then_probe }, EventView::Ec(Ok(_))) => {
                let released = ControllerView {
                    last_duty: [0u8, 0u8],
                    consecutive_ec_errors: 0,
                    ..self
                };
                if then_probe {
                    released.acting(StageView::Probing, FanAction::ProbeEc)
                } else {
                    released.ended(Ok(ReplyView::Done))
                }
            },
            (StageView::Releasing { .. }, EventView::Ec(Err(error))) => self.ec_failed(error),
            (StageView::TickReading, EventView::Sensors(Ok(snapshot))) => match self.curves {
                None => self.ended(Ok(ReplyView::Done)),
                Some(curves) => {
                    let duties = duties_of(curves, snapshot);
                    self.acting(
                        StageView::Writing { fan: 0, duties },
                        FanAction::SetDuty { fan: 0, duty: duties@[0] },
                    )
                },
            },
            (StageView::TickReading, EventView::Sensors(Err(error))) => self.sensors_failed(error),
            (StageView::Writing { fan, duties }, EventView::Ec(Ok(_))) => if fan == 0 {
                self.acting(
                    StageView::Writing { fan: 1, duties },
                    FanAction::SetDuty { fan: 1, duty: duties@[1] },
                )
            } else {
                ControllerView { last_duty: duties, consecutive_ec_errors: 0, ..self }.ended(
                    Ok(ReplyView::Done),
                )
            },
            (StageView::Writing { .. }, EventView::Ec(Err(error))) => self.ec_failed(error),
            (StageView::LettingGo { message }, EventView::Ec(_)) => self.ended(Err(message)),
            _ => (self, self.repeated()),
        }
    }
}

impl Controller {
    pub fn new() -> (result: Self)
        ensures
            result@ == (ControllerView {
                curves: None,
                last_duty: [0u8, 0u8],
                consecutive_ec_errors: 0,
                stage: StageView::Idle,
            }),
    {
        Controller {
            curves: None,
            last_duty: [0, 0],
            consecutive_ec_errors: 0,
            stage: Stage::Idle,
        }
    }

    /// Gives the fans back, whatever state an earlier run left, then probes.
    pub fn startup_release_and_probe(&mut self) -> (result: FanProgress)
        ensures
            (final(self)@, result@) == old(self)@.releasing(true),
    {
        self.curves = None;
        self.stage = Stage::Releasing { then_probe: true };
        FanProgress::Act(FanAction::SetGlobalMode(false))
    }

    /// Starts one pass of the control loop.
    pub fn tick(&mut self) -> (result: FanProgress)
        ensures
            (final(self)@, result@) == old(self)@.ticking(),
    {
        if self.curves.is_none() {
            self.stage = Stage::Idle;
            return FanProgress::Finished(Ok(FanReply::Done));
        }
        self.stage = Stage::TickReading;
        FanProgress::Act(FanAction::ReadSensors)
    }

    /// Gives the fans back before the service ends.
    pub fn shutdown_release(&mut self) -> (result: FanProgress)
        ensures
            (final(self)@, result@) == old(self)@.releasing(false),
    {
        self.release()
    }

    /// Asks the embedded controller about itself.
    pub fn probe(&mut self) -> (result: FanProgress)
        ensures
            (final(self)@, result@) == old(self)@.acting(StageView::Probing, FanAction::ProbeEc),
    {
        self.stage = Stage::Probing;
        FanProgress::Act(FanAction::ProbeEc)
    }

    /// Asks for the status.
    pub fn status(&mut self) -> (result: FanProgress)
        ensures
            (final(self)@, result@) == old(self)@.acting(
                StageView::StatusReading,
                FanAction::ReadSensors,
            ),
    {
        self.stage = Stage::StatusReading;
        FanProgress::Act(FanAction::ReadSensors)
    }

    /// Takes the fans over.
    pub fn enable(&mut self, curves: [Curve; 2]) -> (result: FanProgress)
        ensures
            (final(self)@, result@) == old(self)@.acting(
                StageView::Enabling(curves),
                FanAction::SetGlobalMode(true),
            ),
    {
        self.stage = Stage::Enabling(curves);
        FanProgress::Act(FanAction::SetGlobalMode(true))
    }

    /// Gives the fans back.
    pub fn release(&mut self) -> (result: FanProgress)
        ensures
            (final(self)@, result@) == old(self)@.releasing(false),
    {
        self.curves = None;
        self.stage = Stage::Releasing { then_probe: false };
        FanProgress::Act(FanAction::SetGlobalMode(false))
    }

    fn release_best_effort(&mut self, message: String) -> (result: FanProgress)
        ensures
            (final(self)@, result@) == old(self)@.letting_go(message@),
    {
        self.curves = None;
        self.stage = Stage::LettingGo { message };
        FanProgress::Act(FanAction::SetGlobalMode(false))
    }

    fn note_ec_error(&mut self, error: String) -> (result: FanProgress)
        ensures
            (final(self)@, result@) == old(self)@.ec_failed(error@),
    {
        self.consecutive_ec_errors = self.consecutive_ec_errors.saturating_add(1);
        if self.consecutive_ec_errors >= MAX_CONSECUTIVE_EC_ERRORS {
            return self.release_best_effort(
                prefixed("repeated EC failure; control released: ", error.as_str()),
            );
        }
        self.stage = Stage::Idle;
        FanProgress::Finished(Err(prefixed("EC failure: ", error.as_str())))
    }

    fn sensor_failure(&mut self, error: String) -> (result: FanProgress)
        ensures
            (final(self)@, result@) == old(self)@.sensors_failed(error@),
    {
        self.release_best_effort(prefixed("sensor failure; EC control released: ", error.as_str()))
    }

    fn repeat(&self) -> (result: FanProgress)
        ensures
            result@ == self@.repeated(),
    {
        match &self.stage {
            Stage::Idle => FanProgress::Finished(Ok(FanReply::Done)),
            Stage::Probing => FanProgress::Act(FanAction::ProbeEc),
            Stage::StatusReading => FanProgress::Act(FanAction::ReadSensors),
            Stage::Enabling(_) => FanProgress::Act(FanAction::SetGlobalMode(true)),
            Stage::Releasing { .. } => FanProgress::Act(FanAction::SetGlobalMode(false)),
            Stage::TickReading => FanProgress::Act(FanAction::ReadSensors),
            Stage::Writing { fan, duties } => FanProgress::Act(
                FanAction::SetDuty {
                    fan: *fan,
                    duty: if *fan == 0 {
                        duties[0]
                    } else {
                        duties[1]
                    },
                },
            ),
            Stage::LettingGo { .. } => FanProgress::Act(FanAction::SetGlobalMode(false)),
        }
    }

    /// Continues the operation with what the caller's action came to.
    pub fn on_event(&mut self, event: FanEvent) -> (result: FanProgress)
        ensures
            (final(self)@, result@) == old(self)@.advanced(event@),
    {
        match event {
            FanEvent::Sensors(result) => self.on_sensors(result),
            FanEvent::Ec(result) => self.on_ec(result),
            FanEvent::Probe(result) => self.on_probe(result),
        }
    }

    fn on_sensors(&mut self, result: Result<SensorSnapshot, String>) -> (progress: FanProgress)
        ensures
            (final(self)@, progress@) == old(self)@.advanced(FanEvent::Sensors(result)@),
    {
        let ticking: bool = match &self.stage {
            Stage::StatusReading => false,
            Stage::TickReading => true,
            _ => {
                return self.repeat();
            },
        };
        let snapshot: SensorSnapshot = match result {
            Ok(snapshot) => snapshot,
            Err(error) => {
                return self.sensor_failure(error);
            },
        };
        if !ticking {
            self.stage = Stage::Idle;
            return FanProgress::Finished(
                Ok(
                    FanReply::Status(
                        StatusReply {
                            enabled: self.curves.is_some(),
                            apu_temperature_c: snapshot.apu_temperature_c,
                            rpm: snapshot.rpm,
                            pl1_w: snapshot.pl1_w,
                            duty: self.last_duty,
                            ec_errors: self.consecutive_ec_errors,
                        },
                    ),
                ),
            );
        }
        match self.curves {
            None => {
                self.stage = Stage::Idle;
                FanProgress::Finished(Ok(FanReply::Done))
            },
            Some(curves) => {
                let duties: [u8; 2] = [
                    controlled_duty(&curves[0], snapshot.apu_temperature_c, snapshot.pl1_w),
                    controlled_duty(&curves[1], snapshot.apu_temperature_c, snapshot.pl1_w),
                ];
                assert(duties =~= duties_of(curves, snapshot));
                self.stage = Stage::Writing { fan: 0, duties };
                FanProgress::Act(FanAction::SetDuty { fan: 0, duty: duties[0] })
            },
        }
    }

    fn on_ec(&mut self, result: Result<(), String>) -> (progress: FanProgress)
        ensures
            (final(self)@, progress@) == old(self)@.advanced(FanEvent::Ec(result)@),
    {
        let mut stage: Stage = Stage::Idle;
        std::mem::swap(&mut stage, &mut self.stage);
        match stage {
            Stage::Enabling(curves) => match result {
                Ok(_) => {
                    self.curves = Some(curves);
                    self.consecutive_ec_errors = 0;
                    self.tick()
                },
                Err(error) => self.note_ec_error(error),
            },
            Stage::Releasing { then_probe } => match result {
                Ok(_) => {
                    self.last_duty = [0, 0];
                    self.consecutive_ec_errors = 0;
                    if then_probe {
                        self.probe()
                    } else {
                        FanProgress::Finished(Ok(FanReply::Done))
                    }
                },
                Err(error) => self.note_ec_error(error),
            },
            Stage::Writing { fan, duties } => match result {
                Ok(_) => {
                    if fan == 0 {
                        self.stage = Stage::Writing { fan: 1, duties };
                        FanProgress::Act(FanAction::SetDuty { fan: 1, duty: duties[1] })
                    } else {
                        self.last_duty = duties;
                        self.consecutive_ec_errors = 0;
                        FanProgress::Finished(Ok(FanReply::Done))
                    }
                },
                Err(error) => self.note_ec_error(error),
            },
            Stage::LettingGo { message } => FanProgress::Finished(Err(message)),
            other => {
                self.stage = other;
                self.repeat()
            },
        }
    }

    fn on_probe(&mut self, result: Result<EcProbe, String>) -> (progress: FanProgress)
        ensures
            (final(self)@, progress@) == old(self)@.advanced(FanEvent::Probe(result)@),
    {
        match &self.stage {
            Stage::Probing => {},
            _ => {
                return self.repeat();
            },
        }
        match result {
            Ok(probe) => {
                self.consecutive_ec_errors = 0;
                self.stage = Stage::Idle;
                FanProgress::Finished(
                    Ok(
                        FanReply::Probe(
                            ProbeReply {
                                model: String::from_str("GZ302EA"),
                                ec_version: probe.version,
                                fan_count: probe.fan_count,
                            },
                        ),
                    ),
                )
            },
            Err(error) => self.note_ec_error(error),
        }
    }
}

// ---------------------------------------------------------------------------
// Laws
// ---------------------------------------------------------------------------

/// A sensor that cannot be read gives the fans back to the firmware: the curves
/// are dropped and the next action is the release.
pub proof fn law_sensor_failure_releases_the_fans(state: ControllerView, error: Seq<char>)
    requires
        state.stage is TickReading || state.stage is StatusReading,
    ensures
        state.advanced(EventView::Sensors(Err(error))).0.curves is None,
        state.advanced(EventView::Sensors(Err(error))).1 == ProgressView::Act(
            FanAction::SetGlobalMode(false),
        ),
{
}

/// The third error of the embedded controller in a row gives the fans back.
pub proof fn law_repeated_errors_release_the_fans(state: ControllerView, error: Seq<char>)
    requires
        state.consecutive_ec_errors >= 2,
        state.stage is Writing || state.stage is Enabling || state.stage is Releasing,
    ensures
        state.advanced(EventView::Ec(Err(error))).0.curves is None,
        state.advanced(EventView::Ec(Err(error))).1 == ProgressView::Act(
            FanAction::SetGlobalMode(false),
        ),
{
}

/// A release that is under way ends in the failure that caused it, with no curve
/// left to follow.
pub proof fn law_letting_go_ends_in_the_failure(
    state: ControllerView,
    message: Seq<char>,
    released: Result<(), Seq<char>>,
)
    ensures
        ({
            let (gone, _) = state.letting_go(message);
            gone.advanced(EventView::Ec(released)) == (
                ControllerView { curves: None, stage: StageView::Idle, ..state },
                ProgressView::Finished(Err::<ReplyView, Seq<char>>(message)),
            )
        }),
{
}

/// Taking the fans over is followed by a reading at once, so the fans do not stay
/// at the duty that the firmware left.
pub proof fn law_enabling_reads_the_sensors_at_once(state: ControllerView, curves: [Curve; 2])
    requires
        state.stage == StageView::Enabling(curves),
    ensures
        state.advanced(EventView::Ec(Ok(()))).1 == ProgressView::Act(FanAction::ReadSensors),
        state.advanced(EventView::Ec(Ok(()))).0.curves == Some(curves),
{
}

/// One pass writes both duties, those that the curves ask for, and remembers them
/// only when both have been written.
pub proof fn law_a_pass_writes_both_duties(
    state: ControllerView,
    curves: [Curve; 2],
    snapshot: SensorSnapshot,
)
    requires
        state.curves == Some(curves),
    ensures
        ({
            let duties = duties_of(curves, snapshot);
            let (reading, first) = state.ticking();
            let (writing, second) = reading.advanced(EventView::Sensors(Ok(snapshot)));
            let (half, third) = writing.advanced(EventView::Ec(Ok(())));
            let (done, last) = half.advanced(EventView::Ec(Ok(())));
            &&& first == ProgressView::Act(FanAction::ReadSensors)
            &&& second == ProgressView::Act(FanAction::SetDuty { fan: 0, duty: duties@[0] })
            &&& third == ProgressView::Act(FanAction::SetDuty { fan: 1, duty: duties@[1] })
            &&& last == ProgressView::Finished(Ok::<ReplyView, Seq<char>>(ReplyView::Done))
            &&& half.last_duty == state.last_duty
            &&& done.last_duty == duties
            &&& done.consecutive_ec_errors == 0
        }),
{
}

/// Without curves the control loop touches nothing.
pub proof fn law_idle_ticks_do_nothing(state: ControllerView)
    requires
        state.curves is None,
        state.stage is Idle,
    ensures
        state.ticking() == (state, ProgressView::Finished(Ok::<ReplyView, Seq<char>>(ReplyView::Done))),
{
}

/// Each fan follows its own curve at the temperature of the APU; from 96 °C on both
/// run at full speed.
pub proof fn law_each_fan_follows_its_own_curve(curves: [Curve; 2], snapshot: SensorSnapshot)
    requires
        curves@[0]@.len() == 8,
        curves@[1]@.len() == 8,
        increasing(curves@[0]@),
        increasing(curves@[1]@),
    ensures
        ({
            let duties = duties_of(curves, snapshot);
            let temperature_c = snapshot.apu_temperature_c as int;
            &&& temperature_c >= 96 ==> duties@[0] == 255 && duties@[1] == 255
            &&& temperature_c < 96 && snapshot.pl1_w is None ==> duties@[0] == duty_of(
                curves@[0]@,
                temperature_c,
            ) && duties@[1] == duty_of(curves@[1]@, temperature_c)
            &&& (snapshot.pl1_w matches Some(watts) && watts > 75) ==> duties@[0] >= 204
                && duties@[1] >= 204
            &&& duties@[0] >= duty_of(curves@[0]@, temperature_c)
            &&& duties@[1] >= duty_of(curves@[1]@, temperature_c)
        }),
{
    let temperature_c = snapshot.apu_temperature_c as int;
    law_duty_stays_between_neighbours(curves@[0]@, temperature_c);
    law_duty_stays_between_neighbours(curves@[1]@, temperature_c);
    law_protection_only_raises_the_duty(curves@[0]@, temperature_c, snapshot.pl1_w);
    law_protection_only_raises_the_duty(curves@[1]@, temperature_c, snapshot.pl1_w);
}

/// The status tells what was measured and what the controller last did, and changes
/// nothing of it.
pub proof fn law_status_reports_the_present(state: ControllerView, snapshot: SensorSnapshot)
    requires
        state.stage is StatusReading,
    ensures
        ({
            let (after, progress) = state.advanced(EventView::Sensors(Ok(snapshot)));
            &&& progress matches ProgressView::Finished(Ok(ReplyView::Status(reply)))
                && reply.enabled == (state.curves is Some) && reply.apu_temperature_c
                == snapshot.apu_temperature_c && reply.rpm == snapshot.rpm && reply.pl1_w
                == snapshot.pl1_w && reply.duty == state.last_duty && reply.ec_errors
                == state.consecutive_ec_errors
            &&& after.curves == state.curves
            &&& after.last_duty == state.last_duty
            &&& after.consecutive_ec_errors == state.consecutive_ec_errors
            &&& after.stage is Idle
        }),
{
}

/// A release gives the fans back to the firmware: no curve is followed from its
/// start on, and once it has succeeded no duty is reported and no error counted. At
/// startup the embedded controller is asked about itself after that.
pub proof fn law_a_release_ends_control(state: ControllerView, then_probe: bool)
    ensures
        ({
            let (releasing, first) = state.releasing(then_probe);
            let (released, second) = releasing.advanced(EventView::Ec(Ok(())));
            &&& first == ProgressView::Act(FanAction::SetGlobalMode(false))
            &&& releasing.curves is None
            &&& released.curves is None
            &&& released.last_duty@[0] == 0 && released.last_duty@[1] == 0
            &&& released.consecutive_ec_errors == 0
            &&& then_probe ==> second == ProgressView::Act(FanAction::ProbeEc)
            &&& !then_probe ==> second == ProgressView::Finished(
                Ok::<ReplyView, Seq<char>>(ReplyView::Done),
            )
        }),
{
}

/// One or two errors of the embedded controller in a row are reported and counted,
/// and the curves stay in force.
pub proof fn law_few_errors_keep_control(state: ControllerView, error: Seq<char>)
    requires
        state.consecutive_ec_errors < 2,
        state.stage is Writing || state.stage is Enabling || state.stage is Releasing,
    ensures
        ({
            let (after, progress) = state.advanced(EventView::Ec(Err(error)));
            &&& progress matches ProgressView::Finished(Err(_))
            &&& after.curves == state.curves
            &&& after.last_duty == state.last_duty
            &&& after.consecutive_ec_errors == state.consecutive_ec_errors + 1
        }),
{
}

/// A probe hands on what the embedded controller reports.
pub proof fn law_a_probe_reports_the_hardware(state: ControllerView, probe: EcProbe)
    requires
        state.stage is Probing,
    ensures
        state.advanced(EventView::Probe(Ok(probe))).1 matches ProgressView::Finished(
            Ok(ReplyView::Probe { model, ec_version, fan_count }),
        ) && model == "GZ302EA"@ && ec_version == probe.version && fan_count == probe.fan_count,
        state.advanced(EventView::Probe(Ok(probe))).0.curves == state.curves,
{
}

} // verus!
