//! Power-source detection and what follows a confirmed change.

use vstd::prelude::*;

use crate::config::{has_id, position_of, with_active, Config, ConfigView};
use crate::debounce::{ConfirmationTimer, PowerObservation};
use crate::text::{same, trim, trim_of};

verus! {

/// Whether the fallback was sampled in the present outage.
#[derive(Clone, Copy, Debug, PartialEq, Eq)]
pub struct ReconnectState {
    fallback_sampled: bool,
}

impl View for ReconnectState {
    type V = bool;

    closed spec fn view(&self) -> bool {
        self.fallback_sampled
    }
}

impl Default for ReconnectState {
    fn default() -> (result: Self)
        ensures
            !result@,
    {
        ReconnectState { fallback_sampled: false }
    }
}

impl ReconnectState {
    /// Whether a lost session calls for a sample of the fallback: exactly once
    /// for an outage. A session that was established starts a fresh outage;
    /// repeated failures to reconnect do not turn the fallback into polling.
    pub fn should_sample(&mut self, established: bool) -> (result: bool)
        ensures
            result == (established || !old(self)@),
            final(self)@,
    {
        if established {
            self.fallback_sampled = false;
        }
        if self.fallback_sampled {
            false
        } else {
            self.fallback_sampled = true;
            true
        }
    }
}

/// What the kernel reports of one power supply; nothing where a file could not
/// be read.
#[derive(Debug, PartialEq, Eq)]
pub struct SupplyReading {
    pub kind: Option<String>,
    pub online: Option<String>,
    pub status: Option<String>,
}

/// The model of a [`SupplyReading`].
pub struct SupplyView {
    pub kind: Option<Seq<char>>,
    pub online: Option<Seq<char>>,
    pub status: Option<Seq<char>>,
}

impl View for SupplyReading {
    type V = SupplyView;

    open spec fn view(&self) -> SupplyView {
        SupplyView {
            kind: self.kind.deep_view(),
            online: self.online.deep_view(),
            status: self.status.deep_view(),
        }
    }
}

impl DeepView for SupplyReading {
    type V = SupplyView;

    open spec fn deep_view(&self) -> SupplyView {
        self.view()
    }
}

/// Whether a file reads `wanted`, apart from the white space around it.
pub open spec fn reads(field: Option<Seq<char>>, wanted: Seq<char>) -> bool {
    field matches Some(text) && trim_of(text) == wanted
}

fn field_reads(field: &Option<String>, wanted: &str) -> (result: bool)
    ensures
        result == reads(field.deep_view(), wanted@),
{
    match field {
        Some(text) => same(trim(text.as_str()), wanted),
        None => false,
    }
}

impl SupplyView {
    /// A power adapter.
    pub open spec fn is_adapter(self) -> bool {
        reads(self.kind, "Mains"@) || reads(self.kind, "ADP"@)
    }

    pub open spec fn is_battery(self) -> bool {
        reads(self.kind, "Battery"@)
    }

    /// What an adapter says: online, offline, or nothing usable.
    pub open spec fn line_power(self) -> Option<bool> {
        if reads(self.online, "1"@) {
            Some(true)
        } else if reads(self.online, "0"@) {
            Some(false)
        } else {
            None
        }
    }

    /// What a battery says: discharging, not discharging, or nothing usable.
    pub open spec fn discharging(self) -> Option<bool> {
        if reads(self.status, "Discharging"@) {
            Some(true)
        } else if reads(self.status, "Charging"@) || reads(self.status, "Full"@) || reads(
            self.status,
            "Not charging"@,
        ) {
            Some(false)
        } else {
            None
        }
    }
}

/// The verdict of the adapters from `from` on: the first one that is not offline
/// decides; on battery if all are offline.
pub open spec fn adapters_verdict(supplies: Seq<SupplyView>, from: int) -> Option<bool>
    decreases supplies.len() - from,
{
    if from >= supplies.len() {
        Some(true)
    } else if !supplies[from].is_adapter() || supplies[from].line_power() == Some(false) {
        adapters_verdict(supplies, from + 1)
    } else if supplies[from].line_power() == Some(true) {
        Some(false)
    } else {
        None
    }
}

/// The verdict of the batteries from `from` on: the first one that is not known
/// to be idle or charging decides; on line power if there is none.
pub open spec fn batteries_verdict(supplies: Seq<SupplyView>, from: int) -> Option<bool>
    decreases supplies.len() - from,
{
    if from >= supplies.len() {
        Some(false)
    } else if !supplies[from].is_battery() || supplies[from].discharging() == Some(false) {
        batteries_verdict(supplies, from + 1)
    } else {
        supplies[from].discharging()
    }
}

/// Some supply is an adapter.
pub open spec fn has_adapter(supplies: Seq<SupplyView>) -> bool {
    exists|i: int| 0 <= i < supplies.len() && (#[trigger] supplies[i]).is_adapter()
}

/// Some supply is a battery.
pub open spec fn has_battery(supplies: Seq<SupplyView>) -> bool {
    exists|i: int| 0 <= i < supplies.len() && (#[trigger] supplies[i]).is_battery()
}

/// Whether the machine runs on battery: adapters decide, and batteries only
/// where there is no adapter.
pub open spec fn on_battery(supplies: Seq<SupplyView>) -> Option<bool> {
    if has_adapter(supplies) {
        adapters_verdict(supplies, 0)
    } else if has_battery(supplies) {
        batteries_verdict(supplies, 0)
    } else {
        None
    }
}

fn is_adapter(supply: &SupplyReading) -> (result: bool)
    ensures
        result == supply@.is_adapter(),
{
    field_reads(&supply.kind, "Mains") || field_reads(&supply.kind, "ADP")
}

fn judge_adapters(supplies: &[SupplyReading]) -> (result: Option<bool>)
    ensures
        result == adapters_verdict(supplies.deep_view(), 0),
{
    let mut i: usize = 0;
    while i < supplies.len()
        invariant
            i <= supplies@.len(),
            adapters_verdict(supplies.deep_view(), 0) == adapters_verdict(
                supplies.deep_view(),
                i as int,
            ),
        decreases supplies@.len() - i,
    {
        assert(supplies.deep_view()[i as int] == supplies@[i as int]@);
        let supply: &SupplyReading = &supplies[i];
        if is_adapter(supply) {
            if field_reads(&supply.online, "1") {
                return Some(false);
            }
            if !field_reads(&supply.online, "0") {
                return None;
            }
        }
        i = i + 1;
    }
    Some(true)
}

fn judge_batteries(supplies: &[SupplyReading]) -> (result: Option<bool>)
    ensures
        result == batteries_verdict(supplies.deep_view(), 0),
{
    let mut i: usize = 0;
    while i < supplies.len()
        invariant
            i <= supplies@.len(),
            batteries_verdict(supplies.deep_view(), 0) == batteries_verdict(
                supplies.deep_view(),
                i as int,
            ),
        decreases supplies@.len() - i,
    {
        assert(supplies.deep_view()[i as int] == supplies@[i as int]@);
        let supply: &SupplyReading = &supplies[i];
        if field_reads(&supply.kind, "Battery") {
            if field_reads(&supply.status, "Discharging") {
                return Some(true);
            }
            if !(field_reads(&supply.status, "Charging") || field_reads(&supply.status, "Full")
                || field_reads(&supply.status, "Not charging")) {
                return None;
            }
        }
        i = i + 1;
    }
    Some(false)
}

/// Whether the machine runs on battery, as far as its power supplies tell.
pub fn classify_supplies(supplies: &[SupplyReading]) -> (result: Option<bool>)
    ensures
        result == on_battery(supplies.deep_view()),
{
    let mut battery: bool = false;
    let mut i: usize = 0;
    while i < supplies.len()
        invariant
            i <= supplies@.len(),
            forall|k: int| 0 <= k < i ==> !(#[trigger] supplies.deep_view()[k]).is_adapter(),
            battery == exists|k: int|
                0 <= k < i && (#[trigger] supplies.deep_view()[k]).is_battery(),
        decreases supplies@.len() - i,
    {
        assert(supplies.deep_view()[i as int] == supplies@[i as int]@);
        if is_adapter(&supplies[i]) {
            assert(supplies.deep_view()[i as int].is_adapter());
            return judge_adapters(supplies);
        }
        if field_reads(&supplies[i].kind, "Battery") {
            assert(supplies.deep_view()[i as int].is_battery());
            battery = true;
        }
        i = i + 1;
    }
    if battery {
        judge_batteries(supplies)
    } else {
        None
    }
}

proof fn lemma_all_adapters_offline(supplies: Seq<SupplyView>, from: int)
    requires
        0 <= from,
        adapters_verdict(supplies, from) == Some(true),
    ensures
        forall|i: int|
            from <= i < supplies.len() && (#[trigger] supplies[i]).is_adapter()
                ==> supplies[i].line_power() == Some(false),
    decreases supplies.len() - from,
{
    if from < supplies.len() {
        lemma_all_adapters_offline(supplies, from + 1);
    }
}

/// With an adapter, the machine counts as on battery exactly when every adapter
/// says that it is offline.
pub proof fn law_battery_needs_every_adapter_offline(supplies: Seq<SupplyView>)
    requires
        has_adapter(supplies),
    ensures
        on_battery(supplies) == Some(true) <==> forall|i: int|
            0 <= i < supplies.len() && (#[trigger] supplies[i]).is_adapter()
                ==> supplies[i].line_power() == Some(false),
{
    if on_battery(supplies) == Some(true) {
        lemma_all_adapters_offline(supplies, 0);
    } else {
        lemma_some_adapter_decides(supplies, 0);
    }
}

proof fn lemma_some_adapter_decides(supplies: Seq<SupplyView>, from: int)
    requires
        0 <= from,
        adapters_verdict(supplies, from) != Some(true),
    ensures
        exists|i: int|
            from <= i < supplies.len() && (#[trigger] supplies[i]).is_adapter()
                && supplies[i].line_power() != Some(false),
    decreases supplies.len() - from,
{
    if !supplies[from].is_adapter() || supplies[from].line_power() == Some(false) {
        lemma_some_adapter_decides(supplies, from + 1);
    }
}

/// Whether a supply is an adapter that reads `wanted` when asked for line power.
pub open spec fn adapter_reads(supply: SupplyView, wanted: Seq<char>) -> bool {
    &&& supply.kind matches Some(kind) && (trim_of(kind) == "Mains"@ || trim_of(kind) == "ADP"@)
    &&& supply.online matches Some(online) && trim_of(online) == wanted
}

/// Whether a supply is a battery that reads `wanted` when asked for its status.
pub open spec fn battery_reads(supply: SupplyView, wanted: Seq<char>) -> bool {
    &&& supply.kind matches Some(kind) && trim_of(kind) == "Battery"@
    &&& supply.status matches Some(status) && trim_of(status) == wanted
}

/// Where every adapter says whether it is online, the machine runs on battery
/// exactly if none is.
pub proof fn law_an_online_adapter_means_line_power(supplies: Seq<SupplyView>, adapter: int)
    requires
        0 <= adapter < supplies.len(),
        supplies[adapter].is_adapter(),
        forall|i: int|
            0 <= i < supplies.len() && (#[trigger] supplies[i]).is_adapter() ==> adapter_reads(
                supplies[i],
                "1"@,
            ) || adapter_reads(supplies[i], "0"@),
    ensures
        on_battery(supplies) == Some(
            !exists|i: int| 0 <= i < supplies.len() && adapter_reads(#[trigger] supplies[i], "1"@),
        ),
{
    reveal_strlit("0");
    reveal_strlit("1");
    assert("0"@[0] != "1"@[0]);
    law_battery_needs_every_adapter_offline(supplies);
    lemma_readable_adapters(supplies, 0);
    if exists|i: int| 0 <= i < supplies.len() && adapter_reads(#[trigger] supplies[i], "1"@) {
        let i = choose|i: int|
            0 <= i < supplies.len() && adapter_reads(#[trigger] supplies[i], "1"@);
        assert(supplies[i].is_adapter());
    } else {
        assert forall|i: int| 0 <= i < supplies.len() && (
        #[trigger] supplies[i]).is_adapter() implies supplies[i].line_power() == Some(false) by {
            assert(adapter_reads(supplies[i], "0"@));
        }
    }
}

proof fn lemma_readable_adapters(supplies: Seq<SupplyView>, from: int)
    requires
        0 <= from,
        forall|i: int|
            0 <= i < supplies.len() && (#[trigger] supplies[i]).is_adapter() ==> adapter_reads(
                supplies[i],
                "1"@,
            ) || adapter_reads(supplies[i], "0"@),
    ensures
        adapters_verdict(supplies, from) is Some,
    decreases supplies.len() - from,
{
    if from < supplies.len() {
        lemma_readable_adapters(supplies, from + 1);
    }
}

/// Without an adapter, and where every battery says what it does, the machine runs
/// on battery exactly if one discharges.
pub proof fn law_a_discharging_battery_means_battery(supplies: Seq<SupplyView>, battery: int)
    requires
        !has_adapter(supplies),
        0 <= battery < supplies.len(),
        supplies[battery].is_battery(),
        forall|i: int|
            0 <= i < supplies.len() && (#[trigger] supplies[i]).is_battery() ==> battery_reads(
                supplies[i],
                "Discharging"@,
            ) || battery_reads(supplies[i], "Charging"@) || battery_reads(supplies[i], "Full"@)
                || battery_reads(supplies[i], "Not charging"@),
    ensures
        on_battery(supplies) == Some(
            exists|i: int|
                0 <= i < supplies.len() && battery_reads(#[trigger] supplies[i], "Discharging"@),
        ),
{
    lemma_readable_batteries(supplies, 0);
}

proof fn lemma_readable_batteries(supplies: Seq<SupplyView>, from: int)
    requires
        0 <= from <= supplies.len(),
        forall|i: int|
            0 <= i < supplies.len() && (#[trigger] supplies[i]).is_battery() ==> battery_reads(
                supplies[i],
                "Discharging"@,
            ) || battery_reads(supplies[i], "Charging"@) || battery_reads(supplies[i], "Full"@)
                || battery_reads(supplies[i], "Not charging"@),
    ensures
        batteries_verdict(supplies, from) == Some(
            exists|i: int|
                from <= i < supplies.len() && battery_reads(
                    #[trigger] supplies[i],
                    "Discharging"@,
                ),
        ),
    decreases supplies.len() - from,
{
    reveal_strlit("Discharging");
    reveal_strlit("Charging");
    reveal_strlit("Full");
    reveal_strlit("Not charging");
    assert("Discharging"@.len() == 11 && "Charging"@.len() == 8 && "Full"@.len() == 4
        && "Not charging"@.len() == 12);
    if from < supplies.len() {
        lemma_readable_batteries(supplies, from + 1);
        if battery_reads(supplies[from], "Discharging"@) {
            assert(supplies[from].is_battery());
        } else if exists|i: int|
            from <= i < supplies.len() && battery_reads(#[trigger] supplies[i], "Discharging"@) {
            let i = choose|i: int|
                from <= i < supplies.len() && battery_reads(
                    #[trigger] supplies[i],
                    "Discharging"@,
                );
            assert(from + 1 <= i);
        }
    }
}

/// The source stays unknown where nothing tells: neither an adapter nor a battery,
/// or a first adapter, or first battery without one, that says nothing usable.
pub proof fn law_nothing_usable_is_unknown(supplies: Seq<SupplyView>)
    ensures
        (forall|i: int|
            0 <= i < supplies.len() ==> !(#[trigger] supplies[i]).is_adapter()
                && !supplies[i].is_battery()) ==> on_battery(supplies) is None,
        supplies.len() > 0 && supplies[0].is_adapter() && supplies[0].online is None
            ==> on_battery(supplies) is None,
        supplies.len() > 0 && supplies[0].is_battery() && supplies[0].status is None
            && !has_adapter(supplies) ==> on_battery(supplies) is None,
{
}

/// What a session with the power service reports.
#[derive(Debug, PartialEq, Eq)]
pub enum SessionEvent {
    /// The service could not be reached or asked, with the text of the error.
    Unreachable(String),
    /// The first answer or a change.
    Source(bool),
    /// A change that could not be read, with the text of the error.
    Unreadable(String),
    /// The stream of changes ended.
    Ended,
}

/// How a session ended: whether it had been established, and why.
#[derive(Debug, PartialEq, Eq)]
pub struct SessionLoss {
    pub established: bool,
    pub error: String,
}

/// What follows a session's report: an observation to publish, and the end of
/// the session.
#[derive(Debug, PartialEq, Eq)]
pub struct SessionStep {
    pub observation: Option<PowerObservation>,
    pub loss: Option<SessionLoss>,
}

/// Decides what follows a session's report. A source is observed and the session
/// goes on; any failure ends it, and one on an established session makes the
/// source unknown.
pub fn on_session_event(event: SessionEvent) -> (result: SessionStep)
    ensures
        match event {
            SessionEvent::Unreachable(error) => result.observation is None && result.loss == Some(
                SessionLoss { established: false, error },
            ),
            SessionEvent::Source(value) => result.observation == Some(
                PowerObservation::Known(value),
            ) && result.loss is None,
            SessionEvent::Unreadable(error) => result.observation == Some(PowerObservation::Unknown)
                && result.loss == Some(SessionLoss { established: true, error }),
            SessionEvent::Ended => result.observation is None && (result.loss matches Some(loss)
                && loss.established && loss.error@ == "UPower property stream ended"@),
        },
{
    match event {
        SessionEvent::Unreachable(error) => SessionStep {
            observation: None,
            loss: Some(SessionLoss { established: false, error }),
        },
        SessionEvent::Source(value) => SessionStep {
            observation: Some(PowerObservation::Known(value)),
            loss: None,
        },
        SessionEvent::Unreadable(error) => SessionStep {
            observation: Some(PowerObservation::Unknown),
            loss: Some(SessionLoss { established: true, error }),
        },
        SessionEvent::Ended => SessionStep {
            observation: None,
            loss: Some(
                SessionLoss {
                    established: true,
                    error: String::from_str("UPower property stream ended"),
                },
            ),
        },
    }
}

/// What the fallback sample tells the debouncer.
pub fn sampled_observation(sample: Option<bool>) -> (result: PowerObservation)
    ensures
        result == (match sample {
            Some(value) => PowerObservation::Known(value),
            None => PowerObservation::Unknown,
        }),
{
    match sample {
        Some(value) => PowerObservation::Known(value),
        None => PowerObservation::Unknown,
    }
}

/// How long a confirmation timer still has to run.
pub fn remaining_delay_ms(timer: ConfirmationTimer, now_ms: u64) -> (result: u64)
    ensures
        result == (if timer.deadline_ms <= now_ms {
            0
        } else {
            timer.deadline_ms - now_ms
        }),
{
    timer.deadline_ms.saturating_sub(now_ms)
}

/// The profile that a confirmed power source calls for.
#[derive(Debug, PartialEq, Eq)]
pub struct ProfileSwitch {
    pub id: String,
    pub name: String,
    pub show_hud: bool,
}

/// The profile that is remembered for a power source.
pub open spec fn remembered(config: ConfigView, on_battery: bool) -> Seq<char> {
    if on_battery {
        config.last_profile_on_battery
    } else {
        config.last_profile_on_ac
    }
}

/// The name that a switch to a profile shows: the profile's, or its id where it
/// is missing.
pub open spec fn shown_name(config: ConfigView, id: Seq<char>) -> Seq<char> {
    if has_id(config.profiles, id) {
        config.profiles[position_of(config.profiles, id)].name
    } else {
        id
    }
}

/// A confirmed power source calls for a switch.
pub open spec fn switches(config: ConfigView, active_id: Seq<char>, on_battery: bool) -> bool {
    config.auto_switch_on_power_source && active_id != remembered(config, on_battery)
}

/// What follows a confirmed power source.
pub open spec fn is_transition(
    config: ConfigView,
    active_id: Seq<char>,
    on_battery: bool,
    result: Option<ProfileSwitch>,
) -> bool {
    match result {
        Some(change) => switches(config, active_id, on_battery) && change.id@ == remembered(
            config,
            on_battery,
        ) && change.name@ == shown_name(config, change.id@) && change.show_hud == config.show_hud,
        None => !switches(config, active_id, on_battery),
    }
}

/// Decides what follows a confirmed power source: a switch to the profile that
/// is remembered for it, if switching is enabled and it is not active already.
pub fn confirmed_transition(config: &Config, active_id: &str, on_battery: bool) -> (result: Option<
    ProfileSwitch,
>)
    ensures
        is_transition(config@, active_id@, on_battery, result),
{
    if !config.auto_switch_on_power_source {
        return None;
    }
    let id: String = if on_battery {
        config.last_profile_on_battery.clone()
    } else {
        config.last_profile_on_ac.clone()
    };
    if same(active_id, id.as_str()) {
        return None;
    }
    let name: String = match config.find(id.as_str()) {
        Some(profile) => profile.name.clone(),
        None => id.clone(),
    };
    Some(ProfileSwitch { id, name, show_hud: config.show_hud })
}

/// A confirmed source calls for its own profile: line power for the one remembered
/// for AC, battery for the one remembered for battery, whatever else is active;
/// with switching off, or where that one is active already, for nothing.
pub proof fn law_each_source_calls_for_its_profile(
    config: Config,
    active_id: Seq<char>,
    on_ac: Option<ProfileSwitch>,
    on_battery: Option<ProfileSwitch>,
)
    requires
        is_transition(config@, active_id, false, on_ac),
        is_transition(config@, active_id, true, on_battery),
    ensures
        config.auto_switch_on_power_source && active_id != config.last_profile_on_ac@ ==> (
        on_ac matches Some(change) && change.id@ == config.last_profile_on_ac@),
        config.auto_switch_on_power_source && active_id != config.last_profile_on_battery@ ==> (
        on_battery matches Some(change) && change.id@ == config.last_profile_on_battery@),
        active_id == config.last_profile_on_ac@ ==> on_ac is None,
        active_id == config.last_profile_on_battery@ ==> on_battery is None,
        !config.auto_switch_on_power_source ==> on_ac is None && on_battery is None,
        on_ac matches Some(change) ==> change.show_hud == config.show_hud,
        on_battery matches Some(change) ==> change.show_hud == config.show_hud,
{
}

/// A switch shows the name of the profile that it leads to.
pub proof fn law_a_switch_names_its_profile(
    config: ConfigView,
    active_id: Seq<char>,
    on_battery: bool,
    change: ProfileSwitch,
    at: int,
)
    requires
        is_transition(config, active_id, on_battery, Some(change)),
        0 <= at < config.profiles.len(),
        config.profiles[at].id == change.id@,
        forall|i: int| 0 <= i < at ==> (#[trigger] config.profiles[i]).id != change.id@,
    ensures
        change.name@ == config.profiles[at].name,
{
    crate::config::lemma_position_of(config.profiles, change.id@);
}

/// What is remembered comes back: after a profile was activated on a source, and
/// whatever was activated on the other source since, a confirmed return to the
/// first source switches to it, unless it is active.
pub proof fn law_a_source_returns_to_its_profile(
    config: ConfigView,
    id: Seq<char>,
    other: Seq<char>,
    on_battery: bool,
    change: Option<ProfileSwitch>,
)
    requires
        config.auto_switch_on_power_source,
        is_transition(
            with_active(with_active(config, id, on_battery), other, !on_battery),
            other,
            on_battery,
            change,
        ),
    ensures
        other != id ==> (change matches Some(switch) && switch.id@ == id),
        other == id ==> change is None,
{
}

} // verus!
