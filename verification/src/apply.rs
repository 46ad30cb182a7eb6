//! Fail-closed hardware apply sequencing.
//!
//! The model of a hardware owner is the log of the calls that it has received,
//! each with its outcome.

use vstd::prelude::*;

use crate::curve::{Curve, HIGH_POWER_THRESHOLD_W};
use crate::error::{DaemonError, DaemonErrorView};
use crate::profile::{
    stock_fan_curves, stock_fan_curves_of, stock_ppt_of, FanControlMode, Profile,
};
use crate::protocol::{
    borrowed, request_error, ApplyRequest, ApplyRequestView, TdpState,
};

verus! {

/// A call to the hardware.
pub enum HardwareCall {
    Ppd(Option<Seq<char>>),
    Tdp(TdpState),
    FirmwareFans([Curve; 2], u32),
    DirectFans([Curve; 2], u32),
    ReleaseFans,
    CpuTempLimit(u8),
    Undervolt(i32),
}

/// What a call to the hardware came to.
pub enum HardwareOutcome {
    Done,
    Warned(Seq<char>),
    Failed(DaemonErrorView),
}

/// One entry of the log.
pub struct HardwareStep {
    pub call: HardwareCall,
    pub outcome: HardwareOutcome,
}

/// The outcome behind a result without a value.
pub open spec fn outcome_of(result: Result<(), DaemonError>) -> HardwareOutcome {
    match result {
        Ok(_) => HardwareOutcome::Done,
        Err(error) => HardwareOutcome::Failed(error@),
    }
}

/// The outcome behind a result with an optional warning.
pub open spec fn warned_outcome_of(result: Result<Option<String>, DaemonError>) -> HardwareOutcome {
    match result {
        Ok(Some(warning)) => HardwareOutcome::Warned(warning@),
        Ok(None) => HardwareOutcome::Done,
        Err(error) => HardwareOutcome::Failed(error@),
    }
}

/// Hardware operations owned by the daemon.
///
/// An implementation logs every call together with its outcome.
pub trait Daemon {
    /// The calls received so far; an implementation that is verified overrides
    /// this with the calls it has recorded.
    closed spec fn log(&self) -> Seq<HardwareStep> {
        arbitrary()
    }

    fn ppd_set(&mut self, profile: Option<&str>) -> (result: Result<Option<String>, DaemonError>)
        ensures
            final(self).log() == old(self).log().push(
                HardwareStep {
                    call: HardwareCall::Ppd(profile.deep_view()),
                    outcome: warned_outcome_of(result),
                },
            ),
    ;

    fn tdp_set(&mut self, limits: TdpState) -> (result: Result<(), DaemonError>)
        ensures
            final(self).log() == old(self).log().push(
                HardwareStep { call: HardwareCall::Tdp(limits), outcome: outcome_of(result) },
            ),
    ;

    fn firmware_fans_set(&mut self, curves: &[Curve; 2], effective_pl1: u32) -> (result: Result<
        (),
        DaemonError,
    >)
        ensures
            final(self).log() == old(self).log().push(
                HardwareStep {
                    call: HardwareCall::FirmwareFans(*curves, effective_pl1),
                    outcome: outcome_of(result),
                },
            ),
    ;

    fn direct_fans_set(&mut self, curves: &[Curve; 2], effective_pl1: u32) -> (result: Result<
        (),
        DaemonError,
    >)
        ensures
            final(self).log() == old(self).log().push(
                HardwareStep {
                    call: HardwareCall::DirectFans(*curves, effective_pl1),
                    outcome: outcome_of(result),
                },
            ),
    ;

    fn fans_release(&mut self) -> (result: Result<(), DaemonError>)
        ensures
            final(self).log() == old(self).log().push(
                HardwareStep { call: HardwareCall::ReleaseFans, outcome: outcome_of(result) },
            ),
    ;

    fn cpu_temp_limit_set(&mut self, temperature_c: u8) -> (result: Result<(), DaemonError>)
        ensures
            final(self).log() == old(self).log().push(
                HardwareStep {
                    call: HardwareCall::CpuTempLimit(temperature_c),
                    outcome: outcome_of(result),
                },
            ),
    ;

    fn undervolt_set(&mut self, cpu_co: i32) -> (result: Result<(), DaemonError>)
        ensures
            final(self).log() == old(self).log().push(
                HardwareStep { call: HardwareCall::Undervolt(cpu_co), outcome: outcome_of(result) },
            ),
    ;

    /// Whether the machine takes a temperature limit and an undervolt, as the
    /// implementation answers in this state; one that is verified overrides this
    /// with its answer.
    closed spec fn offers_undervolt(&self) -> bool {
        arbitrary()
    }

    fn undervolt_available(&self) -> (result: bool)
        ensures
            result == self.offers_undervolt(),
    ;
}

// ---------------------------------------------------------------------------
// The plan
// ---------------------------------------------------------------------------

/// The curves that a request installs: its own, else the stock ones.
pub open spec fn selected_curves_of(request: ApplyRequestView) -> [Curve; 2] {
    match request.fan_curves {
        Some(curves) => curves,
        None => stock_fan_curves_of(request.ppd_profile),
    }
}

/// The call that installs a request's curves.
pub open spec fn fan_call(request: ApplyRequestView) -> HardwareCall {
    match request.fan_mode {
        FanControlMode::Firmware => HardwareCall::FirmwareFans(
            selected_curves_of(request),
            request.effective_watts(),
        ),
        FanControlMode::Direct => HardwareCall::DirectFans(
            selected_curves_of(request),
            request.effective_watts(),
        ),
    }
}

/// The call that writes a request's power limits, when it has any.
pub open spec fn power_calls(request: ApplyRequestView) -> Seq<HardwareCall> {
    match request.effective_limits() {
        Some(limits) => seq![HardwareCall::Tdp(limits)],
        None => Seq::empty(),
    }
}

/// The calls of the thermal limit and the undervolt.
pub open spec fn smu_calls(request: ApplyRequestView, undervolt_available: bool) -> Seq<
    HardwareCall,
> {
    if !undervolt_available {
        Seq::empty()
    } else {
        match request.undervolt {
            Some(offset) => seq![
                HardwareCall::CpuTempLimit(request.cpu_temp_limit),
                HardwareCall::Undervolt(offset),
            ],
            None => seq![HardwareCall::CpuTempLimit(request.cpu_temp_limit)],
        }
    }
}

/// The call that installs a request's curves, or the one that hands the fans back
/// to the firmware.
pub open spec fn fan_calls(request: ApplyRequestView) -> Seq<HardwareCall> {
    if request.is_protected() || request.fan_curves is Some {
        seq![fan_call(request)]
    } else {
        seq![HardwareCall::ReleaseFans]
    }
}

/// The power and fan calls, in the order that keeps protection in place.
pub open spec fn power_and_fan_calls(request: ApplyRequestView) -> Seq<HardwareCall> {
    if request.is_protected() {
        fan_calls(request) + power_calls(request)
    } else {
        power_calls(request) + fan_calls(request)
    }
}

/// Every call of a request, in order.
pub open spec fn plan(request: ApplyRequestView, undervolt_available: bool) -> Seq<HardwareCall> {
    seq![HardwareCall::Ppd(request.ppd_profile)] + power_and_fan_calls(request) + smu_calls(
        request,
        undervolt_available,
    )
}

/// What the user is told about settings that the machine cannot take.
pub open spec fn smu_warnings(request: ApplyRequestView, undervolt_available: bool) -> Seq<
    Seq<char>,
> {
    if undervolt_available {
        Seq::empty()
    } else if request.undervolt is Some {
        seq![
            "ryzen_smu is unavailable; APU temperature limit was not applied"@,
            "ryzen_smu is unavailable; undervolt was not applied"@,
        ]
    } else {
        seq!["ryzen_smu is unavailable; APU temperature limit was not applied"@]
    }
}

/// The warnings of a complete run: that of the policy switch, then those of the
/// settings that the machine cannot take.
pub open spec fn run_warnings(
    request: ApplyRequestView,
    undervolt_available: bool,
    ppd_warning: Option<Seq<char>>,
) -> Seq<Seq<char>> {
    match ppd_warning {
        Some(warning) => seq![warning] + smu_warnings(request, undervolt_available),
        None => smu_warnings(request, undervolt_available),
    }
}

/// The warning of the policy switch that a run starts with.
pub open spec fn ppd_warning_of(steps: Seq<HardwareStep>) -> Option<Seq<char>> {
    match steps[0].outcome {
        HardwareOutcome::Warned(warning) => Some(warning),
        _ => None,
    }
}

/// Whether `steps` is a fail-closed run of `calls`: the calls are made in order,
/// the first failure is the last step, and a run without failure makes them all.
pub open spec fn is_stage(
    calls: Seq<HardwareCall>,
    steps: Seq<HardwareStep>,
    failure: Option<DaemonErrorView>,
) -> bool {
    &&& steps.len() <= calls.len()
    &&& forall|i: int| 0 <= i < steps.len() ==> (#[trigger] steps[i]).call == calls[i]
    &&& match failure {
        None => steps.len() == calls.len() && forall|i: int|
            0 <= i < steps.len() ==> !((#[trigger] steps[i]).outcome is Failed),
        Some(error) => steps.len() > 0 && steps.last().outcome == HardwareOutcome::Failed(error)
            && forall|i: int|
            0 <= i < steps.len() - 1 ==> !((#[trigger] steps[i]).outcome is Failed),
    }
}

/// The failure that a result reports.
pub open spec fn failure_of<T>(result: Result<T, DaemonError>) -> Option<DaemonErrorView> {
    match result {
        Ok(_) => None,
        Err(error) => Some(error@),
    }
}

/// Whether `steps` and `result` are a run of a valid request.
pub open spec fn is_run(
    request: ApplyRequestView,
    undervolt_available: bool,
    steps: Seq<HardwareStep>,
    result: Result<Vec<String>, DaemonError>,
) -> bool {
    &&& is_stage(plan(request, undervolt_available), steps, failure_of(result))
    &&& result matches Ok(warnings) ==> warnings.deep_view() == run_warnings(
        request,
        undervolt_available,
        ppd_warning_of(steps),
    )
}

/// The steps of a run before the thermal limit and the undervolt: after them the
/// daemon is asked whether the machine takes these.
pub open spec fn steps_before_smu(request: ApplyRequestView, steps: Seq<HardwareStep>) -> Seq<
    HardwareStep,
> {
    if steps.len() <= 1 + power_and_fan_calls(request).len() {
        steps
    } else {
        steps.take(1 + power_and_fan_calls(request).len() as int)
    }
}

fn selected_curves(request: &ApplyRequest) -> (result: [Curve; 2])
    ensures
        result == selected_curves_of(request@),
{
    match request.fan_curves {
        Some(curves) => curves,
        None => stock_fan_curves(borrowed(&request.ppd_profile)),
    }
}

fn set_fans<D: Daemon>(daemon: &mut D, request: &ApplyRequest, curves: &[Curve; 2], pl1: u32) -> (result:
    Result<(), DaemonError>)
    requires
        *curves == selected_curves_of(request@),
        pl1 == request@.effective_watts(),
    ensures
        final(daemon).log() == old(daemon).log().push(
            HardwareStep { call: fan_call(request@), outcome: outcome_of(result) },
        ),
{
    match request.fan_mode {
        FanControlMode::Firmware => daemon.firmware_fans_set(curves, pl1),
        FanControlMode::Direct => daemon.direct_fans_set(curves, pl1),
    }
}

/// The warnings of a complete run, given the warning of the policy switch.
pub fn collect_warnings(
    ppd_warning: Option<String>,
    undervolt_available: bool,
    request: &ApplyRequest,
) -> (result: Vec<String>)
    ensures
        result.deep_view() == run_warnings(
            request@,
            undervolt_available,
            ppd_warning.deep_view(),
        ),
{
    let mut warnings: Vec<String> = Vec::new();
    if let Some(warning) = ppd_warning {
        warnings.push(warning);
    }
    if !undervolt_available {
        warnings.push(
            String::from_str("ryzen_smu is unavailable; APU temperature limit was not applied"),
        );
        if request.undervolt.is_some() {
            warnings.push(String::from_str("ryzen_smu is unavailable; undervolt was not applied"));
        }
    }
    assert(warnings.deep_view() =~= run_warnings(
        request@,
        undervolt_available,
        ppd_warning.deep_view(),
    ));
    warnings
}

proof fn lemma_stage_continues(
    calls: Seq<HardwareCall>,
    steps: Seq<HardwareStep>,
    more_calls: Seq<HardwareCall>,
    more_steps: Seq<HardwareStep>,
    failure: Option<DaemonErrorView>,
)
    requires
        is_stage(calls, steps, None),
        is_stage(more_calls, more_steps, failure),
    ensures
        is_stage(calls + more_calls, steps + more_steps, failure),
{
    let all = steps + more_steps;
    assert forall|i: int| 0 <= i < all.len() implies (#[trigger] all[i]).call == (calls
        + more_calls)[i] && (i < all.len() - 1 || failure is None ==> !(all[i].outcome is Failed)) by {
        if i < steps.len() {
            assert(all[i] == steps[i]);
        } else {
            assert(all[i] == more_steps[i - steps.len()]);
        }
    }
    if failure is Some {
        assert(all.last() == more_steps.last());
    }
}

proof fn lemma_stage_stops(
    calls: Seq<HardwareCall>,
    steps: Seq<HardwareStep>,
    more_calls: Seq<HardwareCall>,
    failure: Option<DaemonErrorView>,
)
    requires
        is_stage(calls, steps, failure),
        failure is Some,
    ensures
        is_stage(calls + more_calls, steps, failure),
{
}

proof fn lemma_single_step(step: HardwareStep)
    ensures
        match step.outcome {
            HardwareOutcome::Failed(error) => is_stage(seq![step.call], seq![step], Some(error)),
            _ => is_stage(seq![step.call], seq![step], None),
        },
{
}

fn set_power<D: Daemon>(daemon: &mut D, request: &ApplyRequest) -> (result: Result<(), DaemonError>)
    ensures
        exists|steps: Seq<HardwareStep>|
            final(daemon).log() == old(daemon).log() + steps && #[trigger] is_stage(
                power_calls(request@),
                steps,
                failure_of(result),
            ),
{
    let ghost start = daemon.log();
    match request.effective_power_limits() {
        Some(limits) => {
            let result: Result<(), DaemonError> = daemon.tdp_set(limits);
            proof {
                let step = HardwareStep {
                    call: HardwareCall::Tdp(limits),
                    outcome: outcome_of(result),
                };
                lemma_single_step(step);
                assert(daemon.log() =~= start + seq![step]);
            }
            result
        },
        None => {
            proof {
                let steps = Seq::<HardwareStep>::empty();
                assert(is_stage(power_calls(request@), steps, None));
                assert(daemon.log() =~= start + steps);
            }
            Ok(())
        },
    }
}

fn set_or_release_fans<D: Daemon>(daemon: &mut D, request: &ApplyRequest) -> (result: Result<
    (),
    DaemonError,
>)
    ensures
        exists|steps: Seq<HardwareStep>|
            final(daemon).log() == old(daemon).log() + steps && #[trigger] is_stage(
                fan_calls(request@),
                steps,
                failure_of(result),
            ),
{
    let ghost start = daemon.log();
    let pl1: u32 = request.effective_pl1();
    let protected: bool = pl1 >= HIGH_POWER_THRESHOLD_W
        && !request.disable_high_power_fan_protection;
    let result: Result<(), DaemonError> = if protected || request.fan_curves.is_some() {
        let curves: [Curve; 2] = selected_curves(request);
        set_fans(daemon, request, &curves, pl1)
    } else {
        daemon.fans_release()
    };
    proof {
        let step = daemon.log().last();
        lemma_single_step(step);
        assert(daemon.log() =~= start + seq![step]);
        assert(step.outcome == outcome_of(result));
        assert(fan_calls(request@) =~= seq![step.call]);
        assert(is_stage(fan_calls(request@), seq![step], failure_of(result)));
    }
    result
}

fn set_power_and_fans<D: Daemon>(daemon: &mut D, request: &ApplyRequest) -> (result: Result<
    (),
    DaemonError,
>)
    ensures
        exists|steps: Seq<HardwareStep>|
            final(daemon).log() == old(daemon).log() + steps && #[trigger] is_stage(
                power_and_fan_calls(request@),
                steps,
                failure_of(result),
            ),
{
    let ghost start = daemon.log();
    let protected: bool = request.effective_pl1() >= HIGH_POWER_THRESHOLD_W
        && !request.disable_high_power_fan_protection;
    let first: Result<(), DaemonError> = if protected {
        set_or_release_fans(daemon, request)
    } else {
        set_power(daemon, request)
    };
    let ghost first_calls = if protected {
        fan_calls(request@)
    } else {
        power_calls(request@)
    };
    let ghost second_calls = if protected {
        power_calls(request@)
    } else {
        fan_calls(request@)
    };
    let ghost steps = choose|steps: Seq<HardwareStep>|
        daemon.log() == start + steps && #[trigger] is_stage(
            first_calls,
            steps,
            failure_of(first),
        );
    assert(first_calls + second_calls =~= power_and_fan_calls(request@));
    if first.is_err() {
        proof {
            lemma_stage_stops(first_calls, steps, second_calls, failure_of(first));
        }
        return first;
    }
    let ghost middle = daemon.log();
    let second: Result<(), DaemonError> = if protected {
        set_power(daemon, request)
    } else {
        set_or_release_fans(daemon, request)
    };
    proof {
        let more = choose|more: Seq<HardwareStep>|
            daemon.log() == middle + more && #[trigger] is_stage(
                second_calls,
                more,
                failure_of(second),
            );
        lemma_stage_continues(first_calls, steps, second_calls, more, failure_of(second));
        assert(daemon.log() =~= start + (steps + more));
    }
    second
}

/// Sets the thermal limit and then the undervolt, if the machine takes them.
pub fn set_smu<D: Daemon>(
    daemon: &mut D,
    request: &ApplyRequest,
    undervolt_available: bool,
) -> (result: Result<(), DaemonError>)
    ensures
        exists|steps: Seq<HardwareStep>|
            final(daemon).log() == old(daemon).log() + steps && #[trigger] is_stage(
                smu_calls(request@, undervolt_available),
                steps,
                failure_of(result),
            ),
{
    let ghost start = daemon.log();
    if !undervolt_available {
        proof {
            let steps = Seq::<HardwareStep>::empty();
            assert(is_stage(smu_calls(request@, false), steps, None));
            assert(daemon.log() =~= start + steps);
        }
        return Ok(());
    }
    let limited: Result<(), DaemonError> = daemon.cpu_temp_limit_set(request.cpu_temp_limit);
    let ghost first_call = HardwareCall::CpuTempLimit(request.cpu_temp_limit);
    let ghost first = HardwareStep { call: first_call, outcome: outcome_of(limited) };
    proof {
        lemma_single_step(first);
        assert(daemon.log() =~= start + seq![first]);
    }
    match limited {
        Ok(_) => {},
        Err(error) => {
            proof {
                let failure = Some(error@);
                match request.undervolt {
                    Some(offset) => {
                        lemma_stage_stops(
                            seq![first_call],
                            seq![first],
                            seq![HardwareCall::Undervolt(offset)],
                            failure,
                        );
                        assert(seq![first_call] + seq![HardwareCall::Undervolt(offset)]
                            =~= smu_calls(request@, true));
                    },
                    None => {},
                }
                assert(is_stage(smu_calls(request@, true), seq![first], failure));
            }
            return Err(error);
        },
    }
    match request.undervolt {
        Some(offset) => {
            let lowered: Result<(), DaemonError> = daemon.undervolt_set(offset);
            let ghost second_call = HardwareCall::Undervolt(offset);
            let ghost second = HardwareStep { call: second_call, outcome: outcome_of(lowered) };
            proof {
                lemma_single_step(second);
                lemma_stage_continues(
                    seq![first_call],
                    seq![first],
                    seq![second_call],
                    seq![second],
                    failure_of(lowered),
                );
                assert(seq![first_call] + seq![second_call] =~= smu_calls(request@, true));
                assert(daemon.log() =~= start + (seq![first] + seq![second]));
                assert(is_stage(
                    smu_calls(request@, true),
                    seq![first] + seq![second],
                    failure_of(lowered),
                ));
            }
            lowered
        },
        None => {
            assert(is_stage(smu_calls(request@, true), seq![first], None));
            Ok(())
        },
    }
}

/// Applies one flattened request.
///
/// The policy is selected first. For a protected request, fan protection is
/// installed before the limits are written; otherwise the limits are lowered
/// before fan protection is relaxed. Last come the thermal limit and the undervolt,
/// exactly if the daemon answers then that the machine takes them. An invalid
/// request touches no hardware, and the first failing call is the last one made.
pub fn apply_request<D: Daemon>(daemon: &mut D, request: &ApplyRequest) -> (result: Result<
    Vec<String>,
    DaemonError,
>)
    ensures
        match request_error(request@) {
            Some(text) => final(daemon).log() == old(daemon).log() && (result matches Err(error)
                && error@ == DaemonErrorView::Rejected(text)),
            None => exists|asked: D, steps: Seq<HardwareStep>|
                final(daemon).log() == old(daemon).log() + steps && asked.log() == old(daemon).log()
                    + steps_before_smu(request@, steps) && #[trigger] is_run(
                    request@,
                    asked.offers_undervolt(),
                    steps,
                    result,
                ),
        },
{
    match request.validate() {
        Ok(_) => {},
        Err(message) => {
            return Err(DaemonError::Rejected(message));
        },
    }
    let ghost start = daemon.log();
    let switched: Result<Option<String>, DaemonError> = daemon.ppd_set(
        borrowed(&request.ppd_profile),
    );
    let ghost ppd_calls = seq![HardwareCall::Ppd(request@.ppd_profile)];
    let ghost ppd_steps = seq![
        HardwareStep { call: ppd_calls[0], outcome: warned_outcome_of(switched) },
    ];
    let ghost later = power_and_fan_calls(request@);
    proof {
        lemma_single_step(ppd_steps[0]);
        assert(daemon.log() =~= start + ppd_steps);
        assert(is_stage(ppd_calls, ppd_steps, failure_of(switched)));
    }
    let ppd_warning: Option<String> = match switched {
        Ok(warning) => warning,
        Err(error) => {
            proof {
                lemma_stage_stops(ppd_calls, ppd_steps, later, Some(error@));
                lemma_stage_stops(
                    ppd_calls + later,
                    ppd_steps,
                    smu_calls(request@, daemon.offers_undervolt()),
                    Some(error@),
                );
                assert(is_run(request@, daemon.offers_undervolt(), ppd_steps, Err(error)));
            }
            return Err(error);
        },
    };
    let ghost after_ppd = daemon.log();
    match set_power_and_fans(daemon, request) {
        Ok(_) => {},
        Err(error) => {
            proof {
                let steps = choose|steps: Seq<HardwareStep>|
                    daemon.log() == after_ppd + steps && #[trigger] is_stage(
                        later,
                        steps,
                        Some(error@),
                    );
                lemma_stage_continues(ppd_calls, ppd_steps, later, steps, Some(error@));
                lemma_stage_stops(
                    ppd_calls + later,
                    ppd_steps + steps,
                    smu_calls(request@, daemon.offers_undervolt()),
                    Some(error@),
                );
                assert(daemon.log() =~= start + (ppd_steps + steps));
                assert(is_run(
                    request@,
                    daemon.offers_undervolt(),
                    ppd_steps + steps,
                    Err(error),
                ));
            }
            return Err(error);
        },
    }
    let ghost steps = choose|steps: Seq<HardwareStep>|
        daemon.log() == after_ppd + steps && #[trigger] is_stage(later, steps, None);
    let ghost after_fans = daemon.log();
    let ghost asked = *daemon;
    let available: bool = daemon.undervolt_available();
    let tuned: Result<(), DaemonError> = set_smu(daemon, request, available);
    let ghost smu_steps = choose|smu_steps: Seq<HardwareStep>|
        daemon.log() == after_fans + smu_steps && #[trigger] is_stage(
            smu_calls(request@, available),
            smu_steps,
            failure_of(tuned),
        );
    let ghost all = ppd_steps + steps + smu_steps;
    proof {
        lemma_stage_continues(ppd_calls, ppd_steps, later, steps, None);
        lemma_stage_continues(
            ppd_calls + later,
            ppd_steps + steps,
            smu_calls(request@, available),
            smu_steps,
            failure_of(tuned),
        );
        assert(daemon.log() =~= start + all);
        assert(all[0] == ppd_steps[0]);
        assert(steps_before_smu(request@, all) =~= ppd_steps + steps);
        assert(asked.log() =~= start + steps_before_smu(request@, all));
    }
    match tuned {
        Ok(_) => {
            let warnings: Vec<String> = collect_warnings(ppd_warning, available, request);
            assert(is_run(request@, asked.offers_undervolt(), all, Ok(warnings)));
            Ok(warnings)
        },
        Err(error) => {
            assert(is_run(request@, asked.offers_undervolt(), all, Err(error)));
            Err(error)
        },
    }
}

// ---------------------------------------------------------------------------
// Laws
// ---------------------------------------------------------------------------

/// Whether a call installs fan curves.
pub open spec fn installs_fans(call: HardwareCall) -> bool {
    call is FirmwareFans || call is DirectFans
}

/// High power is reached only behind fan protection: unless the confirmed
/// override is given, a run that writes limits of 80 W and above has installed
/// the fan curves before, and that call succeeded.
pub proof fn law_high_power_waits_for_fans(
    request: ApplyRequestView,
    undervolt_available: bool,
    steps: Seq<HardwareStep>,
    result: Result<Vec<String>, DaemonError>,
    index: int,
)
    requires
        is_run(request, undervolt_available, steps, result),
        !request.disable_high_power_fan_protection,
        0 <= index < steps.len(),
        steps[index].call is Tdp,
        crate::protocol::watts_of(steps[index].call->Tdp_0) >= HIGH_POWER_THRESHOLD_W,
    ensures
        exists|before: int|
            0 <= before < index && installs_fans(#[trigger] steps[before].call) && !(
            steps[before].outcome is Failed),
{
    let calls = plan(request, undervolt_available);
    assert(steps[index].call == calls[index]);
    if request.is_protected() {
        assert(calls[1] == fan_call(request));
        assert(index == 2);
        assert(steps[1].call == calls[1]);
        assert(installs_fans(steps[1].call));
    } else {
        assert(power_calls(request).len() <= 1);
        if request.effective_limits() is Some {
            assert(calls[1] == HardwareCall::Tdp(request.effective_limits()->0));
        }
        assert(false);
    }
}

/// Power is lowered before protection is relaxed: an unprotected run writes its
/// limits before it touches the fans.
pub proof fn law_power_is_lowered_before_fans_change(
    request: ApplyRequestView,
    undervolt_available: bool,
    power: int,
    fans: int,
)
    requires
        !request.is_protected(),
        0 <= power < plan(request, undervolt_available).len(),
        0 <= fans < plan(request, undervolt_available).len(),
        plan(request, undervolt_available)[power] is Tdp,
        installs_fans(plan(request, undervolt_available)[fans])
            || plan(request, undervolt_available)[fans] is ReleaseFans,
    ensures
        power < fans,
{
}

/// A protected run never hands the fans back to the firmware.
pub proof fn law_protected_run_keeps_the_fans(
    request: ApplyRequestView,
    undervolt_available: bool,
    index: int,
)
    requires
        request.is_protected(),
        0 <= index < plan(request, undervolt_available).len(),
    ensures
        !(plan(request, undervolt_available)[index] is ReleaseFans),
{
}

/// The thermal limit is in place before the undervolt.
pub proof fn law_thermal_limit_precedes_undervolt(
    request: ApplyRequestView,
    undervolt_available: bool,
    index: int,
)
    requires
        0 <= index < plan(request, undervolt_available).len(),
        plan(request, undervolt_available)[index] is Undervolt,
    ensures
        index > 0,
        plan(request, undervolt_available)[index - 1] == HardwareCall::CpuTempLimit(
            request.cpu_temp_limit,
        ),
{
}

/// A failure ends the run: no call follows one that failed.
pub proof fn law_no_call_follows_a_failure(
    request: ApplyRequestView,
    undervolt_available: bool,
    steps: Seq<HardwareStep>,
    result: Result<Vec<String>, DaemonError>,
    index: int,
)
    requires
        is_run(request, undervolt_available, steps, result),
        0 <= index < steps.len(),
        steps[index].outcome is Failed,
    ensures
        index == steps.len() - 1,
        result is Err,
{
}

/// Every call of a run carries what the request asks for: its policy first, its
/// own limits where it has any, its own curves where it has any and the stock
/// tables of its policy only where it has none, for the mode that it names, and its
/// thermal limit and undervolt, which only a machine that takes them is sent.
pub proof fn law_calls_carry_the_request(
    request: ApplyRequestView,
    undervolt_available: bool,
    steps: Seq<HardwareStep>,
    result: Result<Vec<String>, DaemonError>,
    index: int,
)
    requires
        is_run(request, undervolt_available, steps, result),
        0 <= index < steps.len(),
    ensures
        match steps[index].call {
            HardwareCall::Ppd(policy) => index == 0 && policy == request.ppd_profile,
            HardwareCall::Tdp(limits) => match request.power_limits {
                Some(asked) => limits == asked,
                None => request.ppd_profile is Some && limits.pl1_spl == stock_ppt_of(
                    request.ppd_profile,
                ).0,
            },
            HardwareCall::FirmwareFans(curves, watts) => request.fan_mode
                == FanControlMode::Firmware && match request.fan_curves {
                Some(asked) => curves == asked,
                None => curves == stock_fan_curves_of(request.ppd_profile),
            } && (request.power_limits matches Some(limits) ==> limits.pl1_spl >= 0 ==> watts
                == limits.pl1_spl),
            HardwareCall::DirectFans(curves, watts) => request.fan_mode == FanControlMode::Direct
                && match request.fan_curves {
                Some(asked) => curves == asked,
                None => curves == stock_fan_curves_of(request.ppd_profile),
            } && (request.power_limits matches Some(limits) ==> limits.pl1_spl >= 0 ==> watts
                == limits.pl1_spl),
            HardwareCall::ReleaseFans => request.fan_curves is None,
            HardwareCall::CpuTempLimit(limit) => undervolt_available && limit
                == request.cpu_temp_limit,
            HardwareCall::Undervolt(offset) => undervolt_available && request.undervolt == Some(
                offset,
            ),
        },
        steps[0].call is Ppd,
{
    let calls = plan(request, undervolt_available);
    assert(steps[index].call == calls[index]);
    assert(steps[0].call == calls[0]);
    assert(power_calls(request).len() <= 1);
    assert(power_and_fan_calls(request).len() == power_calls(request).len() + 1);
}

/// A run that succeeds has done everything that the request asks for: its limits
/// are written, its curves are installed, or the fans handed back where nothing
/// asks for curves, and a machine that takes them has got the thermal limit and, as
/// the last call, the undervolt.
pub proof fn law_complete_run_leaves_nothing_out(
    request: ApplyRequestView,
    undervolt_available: bool,
    steps: Seq<HardwareStep>,
    warnings: Vec<String>,
)
    requires
        is_run(request, undervolt_available, steps, Ok(warnings)),
    ensures
        forall|i: int| 0 <= i < steps.len() ==> !((#[trigger] steps[i]).outcome is Failed),
        steps.len() > 0 && steps[0].call == HardwareCall::Ppd(request.ppd_profile),
        request.power_limits matches Some(limits) ==> exists|i: int|
            0 <= i < steps.len() && (#[trigger] steps[i]).call == HardwareCall::Tdp(limits),
        request.power_limits is None && (request.ppd_profile == Some("power-saver"@)
            || request.ppd_profile == Some("balanced"@) || request.ppd_profile == Some(
            "performance"@,
        )) ==> exists|i: int| 0 <= i < steps.len() && (#[trigger] steps[i]).call is Tdp,
        request.fan_curves is Some ==> exists|i: int|
            0 <= i < steps.len() && installs_fans((#[trigger] steps[i]).call),
        request.fan_curves is None && (request.disable_high_power_fan_protection || (
        request.power_limits matches Some(limits) ==> limits.pl1_spl < 80)) ==> exists|i: int|
            0 <= i < steps.len() && (#[trigger] steps[i]).call is ReleaseFans,
        undervolt_available ==> exists|i: int|
            0 <= i < steps.len() && (#[trigger] steps[i]).call == HardwareCall::CpuTempLimit(
                request.cpu_temp_limit,
            ),
        undervolt_available ==> (request.undervolt matches Some(offset) ==> steps.last().call
            == HardwareCall::Undervolt(offset)),
{
    let calls = plan(request, undervolt_available);
    let power = power_calls(request).len() as int;
    assert(power <= 1);
    assert(power_and_fan_calls(request).len() == power + 1);
    assert(forall|i: int| 0 <= i < steps.len() ==> (#[trigger] steps[i]).call == calls[i]);
    assert(steps.len() == calls.len());
    assert(steps[0].call == calls[0]);
    let fans = if request.is_protected() {
        1
    } else {
        1 + power
    };
    assert(calls[fans] == fan_calls(request)[0]);
    assert(steps[fans].call == calls[fans]);
    if power == 1 {
        let written = if request.is_protected() {
            2int
        } else {
            1int
        };
        assert(calls[written] == power_calls(request)[0]);
        assert(steps[written].call == calls[written]);
    }
    if undervolt_available {
        assert(calls[2 + power] == HardwareCall::CpuTempLimit(request.cpu_temp_limit));
        assert(steps[2 + power].call == calls[2 + power]);
    }
}

/// No kind of call is made twice in a run.
pub proof fn law_no_call_is_repeated(
    request: ApplyRequestView,
    undervolt_available: bool,
    steps: Seq<HardwareStep>,
    result: Result<Vec<String>, DaemonError>,
    i: int,
    j: int,
)
    requires
        is_run(request, undervolt_available, steps, result),
        0 <= i < j < steps.len(),
    ensures
        !(steps[i].call is Ppd && steps[j].call is Ppd),
        !(steps[i].call is Tdp && steps[j].call is Tdp),
        !((installs_fans(steps[i].call) || steps[i].call is ReleaseFans) && (installs_fans(
            steps[j].call,
        ) || steps[j].call is ReleaseFans)),
        !(steps[i].call is CpuTempLimit && steps[j].call is CpuTempLimit),
        !(steps[i].call is Undervolt && steps[j].call is Undervolt),
{
    let calls = plan(request, undervolt_available);
    assert(steps[i].call == calls[i]);
    assert(steps[j].call == calls[j]);
    assert(power_calls(request).len() <= 1);
    assert(power_and_fan_calls(request).len() == power_calls(request).len() + 1);
}

/// A run of a profile's request sets what the profile says: its limits, its curves
/// and, on a machine that takes them, its thermal limit and its undervolt last.
pub proof fn law_profile_reaches_the_hardware(
    profile: Profile,
    disable_protection: bool,
    undervolt_available: bool,
    steps: Seq<HardwareStep>,
    warnings: Vec<String>,
)
    requires
        is_run(
            crate::protocol::request_of(profile@, disable_protection),
            undervolt_available,
            steps,
            Ok(warnings),
        ),
    ensures
        undervolt_available && profile.apply_undervolt ==> steps.last().call
            == HardwareCall::Undervolt(profile.cpu_co),
        undervolt_available ==> exists|i: int|
            0 <= i < steps.len() && (#[trigger] steps[i]).call == HardwareCall::CpuTempLimit(
                profile.cpu_temp_limit,
            ),
        profile.apply_power_limits && profile.pl1_spl <= i32::MAX ==> exists|i: int|
            0 <= i < steps.len() && (#[trigger] steps[i]).call is Tdp
                && steps[i].call->Tdp_0.pl1_spl == profile.pl1_spl,
        profile.apply_fan_curve && profile.fan_control_mode == FanControlMode::Firmware
            ==> exists|i: int|
            0 <= i < steps.len() && (#[trigger] steps[i]).call is FirmwareFans
                && steps[i].call->FirmwareFans_0@[0] == profile.fan_curves@[0],
        profile.apply_fan_curve && profile.fan_control_mode == FanControlMode::Direct
            ==> exists|i: int|
            0 <= i < steps.len() && (#[trigger] steps[i]).call is DirectFans
                && steps[i].call->DirectFans_0@[0] == profile.fan_curves@[0],
{
    let request = crate::protocol::request_of(profile@, disable_protection);
    law_complete_run_leaves_nothing_out(request, undervolt_available, steps, warnings);
    if profile.apply_fan_curve {
        let i = choose|i: int|
            0 <= i < steps.len() && installs_fans((#[trigger] steps[i]).call);
        law_calls_carry_the_request(request, undervolt_available, steps, Ok(warnings), i);
        assert(steps[i].call is FirmwareFans || steps[i].call is DirectFans);
    }
}

/// The order of the limits and the fans, in watts: a run that writes 80 W or more
/// without the override has the fans set before, and any other run writes its
/// limits before it touches the fans.
pub proof fn law_order_follows_the_watts(
    request: ApplyRequestView,
    undervolt_available: bool,
    steps: Seq<HardwareStep>,
    result: Result<Vec<String>, DaemonError>,
    power: int,
    fans: int,
)
    requires
        is_run(request, undervolt_available, steps, result),
        0 <= power < steps.len(),
        0 <= fans < steps.len(),
        steps[power].call is Tdp,
        installs_fans(steps[fans].call) || steps[fans].call is ReleaseFans,
    ensures
        fans < power <==> steps[power].call->Tdp_0.pl1_spl >= 80
            && !request.disable_high_power_fan_protection,
{
    let calls = plan(request, undervolt_available);
    assert(steps[power].call == calls[power]);
    assert(steps[fans].call == calls[fans]);
    assert(power_calls(request).len() <= 1);
    assert(power_and_fan_calls(request).len() == power_calls(request).len() + 1);
    crate::protocol::law_own_limits_come_first(request);
}

/// A successful run hands on the warning of the policy switch, and says of a
/// machine that takes neither that the thermal limit and, if one was asked for, the
/// undervolt were not applied; else it is silent.
pub proof fn law_warnings_tell_what_was_left_out(
    request: ApplyRequestView,
    undervolt_available: bool,
    steps: Seq<HardwareStep>,
    warnings: Vec<String>,
)
    requires
        is_run(request, undervolt_available, steps, Ok(warnings)),
    ensures
        ({
            let switched: int = if steps[0].outcome is Warned {
                1
            } else {
                0
            };
            let skipped: int = if undervolt_available {
                0
            } else if request.undervolt is Some {
                2
            } else {
                1
            };
            &&& warnings@.len() == switched + skipped
            &&& steps[0].outcome matches HardwareOutcome::Warned(text) ==> warnings@[0]@ == text
            &&& skipped >= 1 ==> warnings@[switched]@
                == "ryzen_smu is unavailable; APU temperature limit was not applied"@
            &&& skipped == 2 ==> warnings@[switched + 1]@
                == "ryzen_smu is unavailable; undervolt was not applied"@
        }),
{
    let texts = warnings.deep_view();
    assert(texts.len() == warnings@.len());
    assert(forall|i: int| 0 <= i < texts.len() ==> texts[i] == #[trigger] warnings@[i]@);
}

} // verus!
