//! The profile editor: what it shows of a profile and what its controls do to
//! one.

use vstd::prelude::*;

use crate::config::{has_id, position, position_of, Config, ConfigView};
use crate::curve::{Curve, HIGH_POWER_THRESHOLD_W};
use crate::profile::{
    stock_fan_curves, stock_fan_curves_of, stock_ppt, stock_ppt_of, FanControlMode, FanCurve,
    Profile, ProfileView,
};
use crate::protocol::borrowed;
use crate::text::{decimal, decimal_text, prefixed, same, trim, trim_of};
use crate::text_map::distinct_names;

verus! {

// ---------------------------------------------------------------------------
// What the editor shows
// ---------------------------------------------------------------------------

/// The protection locks the last points of a profile's curves.
pub open spec fn is_high_power(profile: ProfileView, protection_disabled: bool) -> bool {
    profile.apply_power_limits && profile.pl1_spl >= HIGH_POWER_THRESHOLD_W && !protection_disabled
}

/// Whether the protection locks the last points of a profile's curves.
pub fn protection_active(profile: &Profile, protection_disabled: bool) -> (result: bool)
    ensures
        result == is_high_power(profile@, protection_disabled),
{
    profile.apply_power_limits && profile.pl1_spl >= HIGH_POWER_THRESHOLD_W && !protection_disabled
}

/// What the editor shows of a profile.
#[derive(Debug)]
pub struct EditorState {
    pub first_curve: FanCurve,
    pub second_curve: FanCurve,
    pub protection: bool,
    pub muted: bool,
    pub first_editable: bool,
    pub second_editable: bool,
    pub second_visible: bool,
    pub fan_enabled: bool,
    pub unified: bool,
    pub chart_label: String,
    pub direct: bool,
    pub hysteresis_up: u8,
    pub hysteresis_down: u8,
    pub hysteresis_sensitive: bool,
    pub pl1_spl: u32,
    pub pl2_sppt: u32,
    pub fppt: u32,
    pub power_enabled: bool,
    pub ppd_choice: String,
    pub cpu_co: i32,
    pub undervolt_enabled: bool,
    pub cpu_temp_limit: u8,
}

/// The title of the first chart.
pub open spec fn chart_title(unified: bool) -> Seq<char> {
    if unified {
        "Unified Fan Curve — % vs °C"@
    } else {
        "Fan 1 Curve — % vs °C"@
    }
}

/// The title of the first chart.
pub fn chart_label(unified: bool) -> (result: &'static str)
    ensures
        result@ == chart_title(unified),
{
    if unified {
        "Unified Fan Curve — % vs °C"
    } else {
        "Fan 1 Curve — % vs °C"
    }
}

/// Whether this is what the editor shows of a profile.
pub open spec fn shows(state: EditorState, profile: ProfileView, protection_disabled: bool) -> bool {
    let direct = profile.fan_control_mode == FanControlMode::Direct;
    &&& state.first_curve == profile.fan_curves@[0]
    &&& state.second_curve == (if profile.unified_fan_control {
        profile.fan_curves@[0]
    } else {
        profile.fan_curves@[1]
    })
    &&& state.protection == is_high_power(profile, protection_disabled)
    &&& state.muted == !profile.apply_fan_curve
    &&& state.first_editable == profile.apply_fan_curve
    &&& state.second_editable == (profile.apply_fan_curve && !profile.unified_fan_control)
    &&& state.second_visible == !profile.unified_fan_control
    &&& state.fan_enabled == profile.apply_fan_curve
    &&& state.unified == profile.unified_fan_control
    &&& state.chart_label@ == chart_title(profile.unified_fan_control)
    &&& state.direct == direct
    &&& state.hysteresis_up == profile.fan_hysteresis_up
    &&& state.hysteresis_down == profile.fan_hysteresis_down
    &&& state.hysteresis_sensitive == direct
    &&& state.pl1_spl == profile.pl1_spl
    &&& state.pl2_sppt == profile.pl2_sppt
    &&& state.fppt == profile.fppt
    &&& state.power_enabled == profile.apply_power_limits
    &&& state.ppd_choice@ == shown_ppd(profile.ppd_profile)
    &&& state.cpu_co == profile.cpu_co
    &&& state.undervolt_enabled == profile.apply_undervolt
    &&& state.cpu_temp_limit == profile.cpu_temp_limit
}

/// The choice that stands for a power profile.
pub open spec fn shown_ppd(ppd_profile: Option<Seq<char>>) -> Seq<char> {
    match ppd_profile {
        Some(name) => name,
        None => "disabled"@,
    }
}

fn is_direct(mode: FanControlMode) -> (result: bool)
    ensures
        result == (mode == FanControlMode::Direct),
{
    match mode {
        FanControlMode::Direct => true,
        FanControlMode::Firmware => false,
    }
}

/// Loads a profile into the editor.
pub fn load(profile: &Profile, protection_disabled: bool) -> (result: EditorState)
    ensures
        shows(result, profile@, protection_disabled),
{
    let direct: bool = is_direct(profile.fan_control_mode);
    let ppd_choice: String = match &profile.ppd_profile {
        Some(name) => name.clone(),
        None => String::from_str("disabled"),
    };
    EditorState {
        first_curve: profile.fan_curves[0],
        second_curve: if profile.unified_fan_control {
            profile.fan_curves[0]
        } else {
            profile.fan_curves[1]
        },
        protection: protection_active(profile, protection_disabled),
        muted: !profile.apply_fan_curve,
        first_editable: profile.apply_fan_curve,
        second_editable: profile.apply_fan_curve && !profile.unified_fan_control,
        second_visible: !profile.unified_fan_control,
        fan_enabled: profile.apply_fan_curve,
        unified: profile.unified_fan_control,
        chart_label: String::from_str(chart_label(profile.unified_fan_control)),
        direct,
        hysteresis_up: profile.fan_hysteresis_up,
        hysteresis_down: profile.fan_hysteresis_down,
        hysteresis_sensitive: direct,
        pl1_spl: profile.pl1_spl,
        pl2_sppt: profile.pl2_sppt,
        fppt: profile.fppt,
        power_enabled: profile.apply_power_limits,
        ppd_choice,
        cpu_co: profile.cpu_co,
        undervolt_enabled: profile.apply_undervolt,
        cpu_temp_limit: profile.cpu_temp_limit,
    }
}

// ---------------------------------------------------------------------------
// Fans
// ---------------------------------------------------------------------------

/// Turns the custom fan curve of a profile on or off.
pub fn set_fan_curve_applied(profile: &mut Profile, enabled: bool)
    ensures
        final(profile)@ == (ProfileView { apply_fan_curve: enabled, ..old(profile)@ }),
{
    profile.apply_fan_curve = enabled;
}

/// A profile whose fans share a curve, or do not any more.
pub open spec fn with_unified(profile: ProfileView, unified: bool) -> ProfileView {
    ProfileView {
        unified_fan_control: unified,
        fan_curves: if unified {
            [profile.fan_curves@[0], profile.fan_curves@[0]]
        } else {
            profile.fan_curves
        },
        ..profile
    }
}

/// Lets both fans of a profile share the first curve, or not. Returns the first
/// curve.
pub fn set_unified(profile: &mut Profile, unified: bool) -> (result: FanCurve)
    ensures
        final(profile)@ == with_unified(old(profile)@, unified),
        result == old(profile)@.fan_curves@[0],
{
    profile.unified_fan_control = unified;
    if unified {
        profile.fan_curves = [profile.fan_curves[0], profile.fan_curves[0]];
    }
    profile.fan_curves[0]
}

/// Chooses who drives the fans of a profile.
pub fn set_direct(profile: &mut Profile, direct: bool)
    ensures
        final(profile)@ == (ProfileView {
            fan_control_mode: if direct {
                FanControlMode::Direct
            } else {
                FanControlMode::Firmware
            },
            ..old(profile)@
        }),
{
    profile.fan_control_mode = if direct {
        FanControlMode::Direct
    } else {
        FanControlMode::Firmware
    };
}

/// Sets the hysteresis of a profile for speeding up or slowing down.
pub fn set_hysteresis(profile: &mut Profile, upwards: bool, value: u8)
    ensures
        final(profile)@ == (if upwards {
            ProfileView { fan_hysteresis_up: value, ..old(profile)@ }
        } else {
            ProfileView { fan_hysteresis_down: value, ..old(profile)@ }
        }),
{
    if upwards {
        profile.fan_hysteresis_up = value;
    } else {
        profile.fan_hysteresis_down = value;
    }
}

/// A profile after an edit of its first curve.
pub open spec fn with_first_curve(profile: ProfileView, curve: FanCurve) -> ProfileView {
    ProfileView {
        fan_curves: if profile.unified_fan_control {
            [curve, curve]
        } else {
            [curve, profile.fan_curves@[1]]
        },
        ..profile
    }
}

/// A profile after an edit of its second curve.
pub open spec fn with_second_curve(profile: ProfileView, curve: FanCurve) -> ProfileView {
    ProfileView {
        fan_curves: if profile.unified_fan_control {
            [curve, curve]
        } else {
            [profile.fan_curves@[0], curve]
        },
        ..profile
    }
}

/// Takes over an edit of the first curve. Returns whether the second one follows.
pub fn edit_first_curve(profile: &mut Profile, curve: FanCurve) -> (result: bool)
    ensures
        final(profile)@ == with_first_curve(old(profile)@, curve),
        result == old(profile)@.unified_fan_control,
{
    if profile.unified_fan_control {
        profile.fan_curves = [curve, curve];
    } else {
        profile.fan_curves = [curve, profile.fan_curves[1]];
    }
    profile.unified_fan_control
}

/// Takes over an edit of the second curve.
pub fn edit_second_curve(profile: &mut Profile, curve: FanCurve)
    ensures
        final(profile)@ == with_second_curve(old(profile)@, curve),
{
    if profile.unified_fan_control {
        profile.fan_curves = [curve, curve];
    } else {
        profile.fan_curves = [profile.fan_curves[0], curve];
    }
}

/// While the fans share a curve, they keep sharing it whatever is edited.
pub proof fn law_unified_curves_stay_equal(profile: ProfileView, curve: FanCurve)
    ensures
        with_unified(profile, true).fan_curves@[0] == with_unified(profile, true).fan_curves@[1],
        profile.unified_fan_control ==> {
            &&& with_first_curve(profile, curve).fan_curves@[0] == curve
            &&& with_first_curve(profile, curve).fan_curves@[1] == curve
            &&& with_second_curve(profile, curve).fan_curves@[0] == curve
            &&& with_second_curve(profile, curve).fan_curves@[1] == curve
        },
{
}

/// What the editor holds of a profile's fans.
#[derive(Clone, Copy, Debug)]
pub struct FanEdits {
    pub first: FanCurve,
    pub second: FanCurve,
    pub enabled: bool,
    pub unified: bool,
}

/// A profile with what the editor holds of its fans.
pub open spec fn with_fan_edits(profile: ProfileView, edits: FanEdits) -> ProfileView {
    ProfileView {
        fan_curves: [
            edits.first,
            if edits.unified {
                edits.first
            } else {
                edits.second
            },
        ],
        apply_fan_curve: edits.enabled,
        unified_fan_control: edits.unified,
        ..profile
    }
}

/// Commits what the editor holds of a profile's fans.
pub fn commit_fans(profile: &mut Profile, edits: FanEdits)
    ensures
        final(profile)@ == with_fan_edits(old(profile)@, edits),
{
    let second: FanCurve = if edits.unified {
        edits.first
    } else {
        edits.second
    };
    profile.fan_curves = [edits.first, second];
    profile.apply_fan_curve = edits.enabled;
    profile.unified_fan_control = edits.unified;
}

/// The editor shows what a profile holds: its own curves, the first one for both
/// fans while they share it, its limits, policy, offset, temperature and levels,
/// and each switch as it stands; the last points are locked from 80 W on, without
/// the override.
pub proof fn law_editor_shows_the_profile(
    profile: Profile,
    protection_disabled: bool,
    state: EditorState,
)
    requires
        shows(state, profile@, protection_disabled),
    ensures
        state.first_curve == profile.fan_curves@[0],
        profile.unified_fan_control ==> state.second_curve == profile.fan_curves@[0],
        !profile.unified_fan_control ==> state.second_curve == profile.fan_curves@[1],
        state.second_visible <==> !profile.unified_fan_control,
        state.unified <==> profile.unified_fan_control,
        state.fan_enabled <==> profile.apply_fan_curve,
        state.muted <==> !profile.apply_fan_curve,
        state.first_editable <==> profile.apply_fan_curve,
        state.second_editable <==> profile.apply_fan_curve && !profile.unified_fan_control,
        state.protection <==> profile.apply_power_limits && profile.pl1_spl >= 80
            && !protection_disabled,
        state.direct <==> profile.fan_control_mode == FanControlMode::Direct,
        state.hysteresis_sensitive <==> profile.fan_control_mode == FanControlMode::Direct,
        state.hysteresis_up == profile.fan_hysteresis_up,
        state.hysteresis_down == profile.fan_hysteresis_down,
        state.pl1_spl == profile.pl1_spl,
        state.pl2_sppt == profile.pl2_sppt,
        state.fppt == profile.fppt,
        state.power_enabled <==> profile.apply_power_limits,
        profile.ppd_profile matches Some(policy) ==> state.ppd_choice@ == policy@,
        profile.ppd_profile is None ==> state.ppd_choice@ == "disabled"@,
        state.cpu_co == profile.cpu_co,
        state.undervolt_enabled <==> profile.apply_undervolt,
        state.cpu_temp_limit == profile.cpu_temp_limit,
{
}

/// What was committed is what the editor shows afterwards, and it touches nothing
/// but the fans.
pub proof fn law_committed_edits_are_shown(
    profile: ProfileView,
    edits: FanEdits,
    protection_disabled: bool,
    state: EditorState,
)
    requires
        shows(state, with_fan_edits(profile, edits), protection_disabled),
    ensures
        state.first_curve == edits.first,
        edits.unified ==> state.second_curve == edits.first,
        !edits.unified ==> state.second_curve == edits.second,
        state.fan_enabled == edits.enabled,
        state.unified == edits.unified,
        with_fan_edits(profile, edits) == (ProfileView {
            fan_curves: with_fan_edits(profile, edits).fan_curves,
            apply_fan_curve: edits.enabled,
            unified_fan_control: edits.unified,
            ..profile
        }),
{
}

/// Fans with curves of their own are edited apart, and sharing a curve takes over
/// the first one; each edit touches the curves alone.
pub proof fn law_separate_curves_are_edited_apart(profile: ProfileView, curve: FanCurve)
    ensures
        !profile.unified_fan_control ==> {
            &&& with_first_curve(profile, curve).fan_curves@[0] == curve
            &&& with_first_curve(profile, curve).fan_curves@[1] == profile.fan_curves@[1]
            &&& with_second_curve(profile, curve).fan_curves@[0] == profile.fan_curves@[0]
            &&& with_second_curve(profile, curve).fan_curves@[1] == curve
        },
        with_unified(profile, true).fan_curves@[0] == profile.fan_curves@[0],
        with_unified(profile, true).fan_curves@[1] == profile.fan_curves@[0],
        with_unified(profile, false).fan_curves == profile.fan_curves,
        with_unified(profile, true).unified_fan_control,
        !with_unified(profile, false).unified_fan_control,
        with_first_curve(profile, curve) == (ProfileView {
            fan_curves: with_first_curve(profile, curve).fan_curves,
            ..profile
        }),
        with_second_curve(profile, curve) == (ProfileView {
            fan_curves: with_second_curve(profile, curve).fan_curves,
            ..profile
        }),
        with_unified(profile, true) == (ProfileView {
            fan_curves: with_unified(profile, true).fan_curves,
            unified_fan_control: true,
            ..profile
        }),
{
}

/// A configuration with one profile replaced, if it is there.
pub open spec fn with_profile(
    config: ConfigView,
    id: Seq<char>,
    change: spec_fn(ProfileView) -> ProfileView,
) -> ConfigView {
    if has_id(config.profiles, id) {
        let at = position_of(config.profiles, id);
        ConfigView { profiles: config.profiles.update(at, change(config.profiles[at])), ..config }
    } else {
        config
    }
}

/// Switches the editor to another profile: what it holds goes to the edited
/// profile, and the chosen one becomes active. Returns the id of the chosen
/// profile; nothing changes if there is none at the index.
pub fn switch_profile(config: &mut Config, editing: &str, edits: FanEdits, index: usize) -> (result:
    Option<String>)
    ensures
        match result {
            Some(next) => {
                &&& index < old(config)@.profiles.len()
                &&& next@ == old(config)@.profiles[index as int].id
                &&& final(config)@ == (ConfigView {
                    active_profile: next@,
                    ..with_profile(
                        old(config)@,
                        editing@,
                        |profile: ProfileView| with_fan_edits(profile, edits),
                    )
                })
            },
            None => index >= old(config)@.profiles.len() && final(config)@ == old(config)@,
        },
{
    if index >= config.profiles.len() {
        return None;
    }
    assert(config@.profiles[index as int] == config.profiles@[index as int]@);
    let next: String = config.profiles[index].id.clone();
    if let Some(profile) = config.find_mut(editing) {
        commit_fans(profile, edits);
    }
    config.active_profile = next.clone();
    Some(next)
}

// ---------------------------------------------------------------------------
// Power
// ---------------------------------------------------------------------------

/// Three power limits in watts.
#[derive(Clone, Copy, Debug, PartialEq, Eq, Structural)]
pub struct Limits {
    pub pl1: u32,
    pub pl2: u32,
    pub pl3: u32,
}

impl Limits {
    /// Each limit is at least the one before it.
    pub open spec fn ordered(self) -> bool {
        self.pl1 <= self.pl2 <= self.pl3
    }

    /// The limits in ascending order, starting from the first.
    pub open spec fn raised(self) -> Limits {
        let pl2 = if self.pl2 < self.pl1 {
            self.pl1
        } else {
            self.pl2
        };
        let pl3 = if self.pl3 < pl2 {
            pl2
        } else {
            self.pl3
        };
        Limits { pl1: self.pl1, pl2, pl3 }
    }

    /// The limits after the first one was moved: the others follow it up.
    pub fn after_first(self) -> (result: Limits)
        ensures
            result == self.raised(),
            result.ordered(),
    {
        let pl2: u32 = if self.pl2 < self.pl1 {
            self.pl1
        } else {
            self.pl2
        };
        let pl3: u32 = if self.pl3 < pl2 {
            pl2
        } else {
            self.pl3
        };
        Limits { pl1: self.pl1, pl2, pl3 }
    }

    /// The limits after the second one was moved: it does not go below the first,
    /// and the third follows it up.
    pub fn after_second(self) -> (result: Limits)
        ensures
            result == self.raised(),
            result.ordered(),
    {
        self.after_first()
    }

    /// The limits after the third one was moved: it does not go below the second.
    pub fn after_third(self) -> (result: Limits)
        ensures
            result.pl1 == self.pl1,
            result.pl2 == self.pl2,
            result.pl3 == (if self.pl3 < self.pl2 {
                self.pl2
            } else {
                self.pl3
            }),
            self.pl1 <= self.pl2 ==> result.ordered(),
    {
        let pl3: u32 = if self.pl3 < self.pl2 {
            self.pl2
        } else {
            self.pl3
        };
        Limits { pl1: self.pl1, pl2: self.pl2, pl3 }
    }
}

/// What the power controls stand at. No power profile means that it is disabled.
#[derive(Debug)]
pub struct PowerControls {
    pub ppd_profile: Option<String>,
    pub enabled: bool,
    pub limits: Limits,
}

/// The limits that a profile gets from the controls: a change of the power
/// profile brings its stock limits along where no custom ones were applied.
pub open spec fn resulting_limits(
    profile: ProfileView,
    ppd_profile: Option<Seq<char>>,
    limits: Limits,
) -> Limits {
    if profile.ppd_profile != ppd_profile && !profile.apply_power_limits {
        let stock = stock_ppt_of(ppd_profile);
        Limits { pl1: stock.0, pl2: stock.1, pl3: stock.2 }
    } else {
        limits
    }
}

/// A profile with what the power controls stand at. A change of the power profile
/// outdates the factory curves, and brings its stock curves along where no custom
/// ones are applied.
pub open spec fn with_power(
    profile: ProfileView,
    ppd_profile: Option<Seq<char>>,
    enabled: bool,
    limits: Limits,
) -> ProfileView {
    let changed = profile.ppd_profile != ppd_profile;
    let kept = resulting_limits(profile, ppd_profile, limits);
    ProfileView {
        ppd_profile,
        factory_fan_curves_loaded: profile.factory_fan_curves_loaded && !changed,
        fan_curves: if changed && !profile.apply_fan_curve {
            stock_fan_curves_of(ppd_profile)
        } else {
            profile.fan_curves
        },
        apply_power_limits: enabled,
        pl1_spl: kept.pl1,
        pl2_sppt: kept.pl2,
        fppt: kept.pl3,
        ..profile
    }
}

fn same_choice(a: &Option<String>, b: &Option<String>) -> (result: bool)
    ensures
        result == (a.deep_view() == b.deep_view()),
{
    match (a, b) {
        (Some(left), Some(right)) => same(left.as_str(), right.as_str()),
        (None, None) => true,
        _ => false,
    }
}

/// Takes over the power controls into a profile. Returns where the sliders stand
/// afterwards.
pub fn update_power(profile: &mut Profile, controls: PowerControls) -> (result: Limits)
    ensures
        final(profile)@ == with_power(
            old(profile)@,
            controls.ppd_profile.deep_view(),
            controls.enabled,
            controls.limits,
        ),
        result == resulting_limits(
            old(profile)@,
            controls.ppd_profile.deep_view(),
            controls.limits,
        ),
{
    let mut limits: Limits = controls.limits;
    if !same_choice(&profile.ppd_profile, &controls.ppd_profile) {
        profile.factory_fan_curves_loaded = false;
        if !profile.apply_fan_curve {
            profile.fan_curves = stock_fan_curves(borrowed(&controls.ppd_profile));
        }
        if !profile.apply_power_limits {
            let stock: (u32, u32, u32) = stock_ppt(borrowed(&controls.ppd_profile));
            limits = Limits { pl1: stock.0, pl2: stock.1, pl3: stock.2 };
        }
    }
    profile.ppd_profile = controls.ppd_profile;
    profile.apply_power_limits = controls.enabled;
    profile.pl1_spl = limits.pl1;
    profile.pl2_sppt = limits.pl2;
    profile.fppt = limits.pl3;
    limits
}

/// The limits follow each other up and never down: the first one stays, and each of
/// the others stays unless the one before it has passed it.
pub proof fn law_limits_follow_up(limits: Limits)
    ensures
        ({
            let after = limits.raised();
            &&& after.pl1 == limits.pl1
            &&& limits.pl2 >= limits.pl1 ==> after.pl2 == limits.pl2
            &&& limits.pl2 < limits.pl1 ==> after.pl2 == limits.pl1
            &&& limits.pl3 >= after.pl2 ==> after.pl3 == limits.pl3
            &&& limits.pl3 < after.pl2 ==> after.pl3 == after.pl2
        }),
        limits.pl1 <= limits.pl2 && limits.pl2 <= limits.pl3 ==> limits.raised() == limits,
{
}

/// Under the same policy, the limits are those of the sliders and the curves stay.
/// A change of policy brings its stock limits and curves along, each of them unless
/// the profile applies its own, and outdates the factory curves. Nothing else of
/// the profile changes.
pub proof fn law_policy_brings_its_stock_values(
    profile: ProfileView,
    ppd_profile: Option<Seq<char>>,
    enabled: bool,
    limits: Limits,
)
    ensures
        ({
            let after = with_power(profile, ppd_profile, enabled, limits);
            let stock = stock_ppt_of(ppd_profile);
            let own_limits = profile.ppd_profile == ppd_profile || profile.apply_power_limits;
            let own_curves = profile.ppd_profile == ppd_profile || profile.apply_fan_curve;
            &&& after.ppd_profile == ppd_profile
            &&& after.apply_power_limits == enabled
            &&& own_limits ==> after.pl1_spl == limits.pl1 && after.pl2_sppt == limits.pl2
                && after.fppt == limits.pl3
            &&& !own_limits ==> after.pl1_spl == stock.0 && after.pl2_sppt == stock.1 && after.fppt
                == stock.2
            &&& own_curves ==> after.fan_curves == profile.fan_curves
            &&& !own_curves ==> after.fan_curves == stock_fan_curves_of(ppd_profile)
            &&& profile.ppd_profile == ppd_profile ==> after.factory_fan_curves_loaded
                == profile.factory_fan_curves_loaded
            &&& profile.ppd_profile != ppd_profile ==> !after.factory_fan_curves_loaded
            &&& after == (ProfileView {
                ppd_profile: after.ppd_profile,
                factory_fan_curves_loaded: after.factory_fan_curves_loaded,
                fan_curves: after.fan_curves,
                apply_power_limits: after.apply_power_limits,
                pl1_spl: after.pl1_spl,
                pl2_sppt: after.pl2_sppt,
                fppt: after.fppt,
                ..profile
            })
            &&& resulting_limits(profile, ppd_profile, limits) == (Limits {
                pl1: after.pl1_spl,
                pl2: after.pl2_sppt,
                pl3: after.fppt,
            })
        }),
{
}

/// The limits that the sliders start with: those of the active profile, else
/// usual ones.
pub fn initial_limits(active: Option<&Profile>) -> (result: Limits)
    ensures
        result == (match active {
            Some(profile) => Limits {
                pl1: profile@.pl1_spl,
                pl2: profile@.pl2_sppt,
                pl3: profile@.fppt,
            },
            None => Limits { pl1: 52, pl2: 71, pl3: 70 },
        }),
{
    match active {
        Some(profile) => Limits {
            pl1: profile.pl1_spl,
            pl2: profile.pl2_sppt,
            pl3: profile.fppt,
        },
        None => Limits { pl1: 52, pl2: 71, pl3: 70 },
    }
}

/// Whether the sustained limit calls for the note about the protected points.
pub fn notes_protection(pl1: u32) -> (result: bool)
    ensures
        result == (pl1 >= HIGH_POWER_THRESHOLD_W),
{
    pl1 >= HIGH_POWER_THRESHOLD_W
}

/// What follows a change of the switch that disables the protection.
///
/// `Ask` leaves the switch off until the user has confirmed. `Restored` says whether
/// the protection now locks the last points of the active profile's curves.
#[derive(Clone, Copy, Debug, PartialEq, Eq, Structural)]
pub enum OverrideStep {
    Ask,
    Restored { protection: bool },
}

/// Handles the switch that disables the protection.
///
/// Switching it on changes nothing before the user has confirmed; switching it off
/// restores the protection at once.
pub fn toggle_override(config: &mut Config, wanted: bool) -> (result: OverrideStep)
    ensures
        wanted ==> *final(config) == *old(config) && result == OverrideStep::Ask,
        !wanted ==> final(config)@ == (ConfigView {
            disable_high_power_fan_protection: false,
            ..old(config)@
        }) && result == (OverrideStep::Restored {
            protection: has_id(old(config)@.profiles, old(config)@.active_profile)
                && is_high_power(
                old(config)@.profiles[position_of(
                    old(config)@.profiles,
                    old(config)@.active_profile,
                )],
                false,
            ),
        }),
{
    if wanted {
        return OverrideStep::Ask;
    }
    config.disable_high_power_fan_protection = false;
    let protection: bool = match config.active() {
        Some(profile) => protection_active(profile, false),
        None => false,
    };
    OverrideStep::Restored { protection }
}

/// Disables the protection, which the user has confirmed.
pub fn confirm_override(config: &mut Config)
    ensures
        final(config)@ == (ConfigView {
            disable_high_power_fan_protection: true,
            ..old(config)@
        }),
{
    config.disable_high_power_fan_protection = true;
}

/// The place of a power profile in the list that is shown until the daemon has
/// reported its own.
pub fn ppd_index(ppd_profile: Option<&str>) -> (result: u32)
    ensures
        result == (match ppd_profile.deep_view() {
            None => 3u32,
            Some(name) => if name == "power-saver"@ {
                0
            } else if name == "performance"@ {
                2
            } else {
                1
            },
        }),
{
    match ppd_profile {
        None => 3,
        Some(name) => {
            if same(name, "power-saver") {
                0
            } else if same(name, "performance") {
                2
            } else {
                1
            }
        },
    }
}

/// The power profile that a choice stands for.
pub fn chosen_ppd(choice: Option<String>) -> (result: Option<String>)
    ensures
        result.deep_view() == (match choice.deep_view() {
            Some(name) => if name == "disabled"@ {
                None
            } else {
                Some(name)
            },
            None => None,
        }),
{
    match choice {
        Some(name) => {
            if same(name.as_str(), "disabled") {
                None
            } else {
                Some(name)
            }
        },
        None => None,
    }
}

/// The place of a name in a list, or the length of the list.
pub open spec fn place_of(names: Seq<Seq<char>>, name: Seq<char>) -> int
    decreases names.len(),
{
    if names.len() == 0 || names[0] == name {
        0
    } else {
        1 + place_of(names.drop_first(), name)
    }
}

/// What the list of power profiles shows.
#[derive(Debug)]
pub struct PpdChoices {
    pub choices: Vec<String>,
    pub selected: usize,
    pub sensitive: bool,
}

/// The list of the daemon's power profiles, with a choice to disable them; that
/// choice is selected where the profile's is none of them.
pub fn sync_ppd_choices(profiles: &Vec<String>, selected: Option<&str>) -> (result: PpdChoices)
    ensures
        result.choices.deep_view() == profiles.deep_view().push("disabled"@),
        result.selected == (match selected.deep_view() {
            Some(name) => place_of(profiles.deep_view(), name),
            None => profiles@.len() as int,
        }),
        result.sensitive == (profiles@.len() > 0),
{
    let ghost all = profiles.deep_view();
    let mut choices: Vec<String> = Vec::new();
    let mut place: usize = profiles.len();
    let mut found: bool = false;
    let mut i: usize = 0;
    assert(all.skip(0) =~= all);
    while i < profiles.len()
        invariant
            all == profiles.deep_view(),
            i <= profiles@.len(),
            choices.deep_view() == all.take(i as int),
            found ==> selected is Some && place == place_of(all, selected->0@),
            !found ==> place == profiles@.len(),
            !found && selected is Some ==> place_of(all, selected->0@) == i + place_of(
                all.skip(i as int),
                selected->0@,
            ),
        decreases profiles@.len() - i,
    {
        assert(all[i as int] == profiles@[i as int]@);
        proof {
            assert(all.skip(i as int).drop_first() =~= all.skip(i + 1));
            assert(all.skip(i as int)[0] == all[i as int]);
        }
        if let Some(name) = selected {
            if !found && same(profiles[i].as_str(), name) {
                found = true;
                place = i;
            }
        }
        let ghost before = choices.deep_view();
        choices.push(profiles[i].clone());
        assert(choices.deep_view() =~= before.push(all[i as int]));
        assert(choices.deep_view() =~= all.take(i + 1));
        i = i + 1;
    }
    assert(all.take(i as int) =~= all);
    assert(all.skip(i as int).len() == 0);
    choices.push(String::from_str("disabled"));
    assert(choices.deep_view() =~= all.push("disabled"@));
    PpdChoices { choices, selected: place, sensitive: profiles.len() > 0 }
}

// ---------------------------------------------------------------------------
// Undervolt and temperature
// ---------------------------------------------------------------------------

/// The undervolt and the temperature limit that the controls start with: those of
/// the active profile, else none and the usual limit.
pub fn initial_undervolt(active: Option<&Profile>) -> (result: (i32, u8))
    ensures
        result == (match active {
            Some(profile) => (profile@.cpu_co, profile@.cpu_temp_limit),
            None => (0i32, 95u8),
        }),
{
    match active {
        Some(profile) => (profile.cpu_co, profile.cpu_temp_limit),
        None => (0, 95),
    }
}

/// What follows an edit.
#[derive(Clone, Copy, Debug, PartialEq, Eq, Structural)]
pub enum FollowUp {
    /// The configuration is saved and the active profile applied, a little later.
    Apply,
    /// The configuration is saved.
    Save,
}

/// What follows a moved undervolt slider: the offset reaches the hardware only
/// where it is applied automatically.
pub fn undervolt_follow_up(automatic: bool) -> (result: FollowUp)
    ensures
        result == (if automatic {
            FollowUp::Apply
        } else {
            FollowUp::Save
        }),
{
    if automatic {
        FollowUp::Apply
    } else {
        FollowUp::Save
    }
}

/// Sets the undervolt of a profile.
pub fn set_undervolt(profile: &mut Profile, offset: i32, automatic: bool)
    ensures
        final(profile)@ == (ProfileView {
            cpu_co: offset,
            apply_undervolt: automatic,
            ..old(profile)@
        }),
{
    profile.cpu_co = offset;
    profile.apply_undervolt = automatic;
}

/// Sets the temperature limit of a profile.
pub fn set_cpu_temp_limit(profile: &mut Profile, limit: u8)
    ensures
        final(profile)@ == (ProfileView { cpu_temp_limit: limit, ..old(profile)@ }),
{
    profile.cpu_temp_limit = limit;
}

// ---------------------------------------------------------------------------
// Status
// ---------------------------------------------------------------------------

/// The percentage nearest to a duty of 255.
pub open spec fn duty_percent_of(duty: int) -> int {
    (duty * 100 + 127) / 255
}

/// The percentage nearest to a duty of 255.
pub fn duty_percent(duty: u8) -> (result: u32)
    ensures
        result == duty_percent_of(duty as int),
        result <= 100,
{
    (duty as u32 * 100 + 127) / 255
}

/// A shown percentage is the whole number nearest to its duty.
pub proof fn law_shown_duty_is_the_nearest_percent(duty: int)
    requires
        0 <= duty <= 255,
    ensures
        -127 <= 255 * duty_percent_of(duty) - 100 * duty <= 127,
{
}

/// The speeds of both fans.
pub open spec fn speeds(fan_rpms: [u32; 2]) -> Seq<char> {
    decimal(fan_rpms@[0] as nat) + " / "@ + decimal(fan_rpms@[1] as nat)
}

fn speeds_text(fan_rpms: [u32; 2]) -> (result: String)
    ensures
        result@ == speeds(fan_rpms),
{
    let mut text: String = decimal_text(fan_rpms[0] as u128);
    text.append(" / ");
    text.append(decimal_text(fan_rpms[1] as u128).as_str());
    text
}

/// Whether the hysteresis can be changed: only while the daemon drives the fans
/// itself.
pub fn hysteresis_is_editable(direct_fans: bool, mode: FanControlMode) -> (result: bool)
    ensures
        result == (direct_fans && mode == FanControlMode::Direct),
{
    direct_fans && is_direct(mode)
}

/// The line about direct fan control.
pub fn direct_status(direct_fans: bool, mode: FanControlMode, duties: [u8; 2], fan_rpms: [u32; 2]) -> (result:
    String)
    ensures
        result@ == (if !direct_fans {
            "Direct EC control is unavailable"@
        } else if mode == FanControlMode::Direct {
            "Direct EC PWM: "@ + decimal(duty_percent_of(duties@[0] as int) as nat) + "% / "@
                + decimal(duty_percent_of(duties@[1] as int) as nat) + "% · RPM "@ + speeds(
                fan_rpms,
            )
        } else {
            "Firmware fan control · RPM "@ + speeds(fan_rpms)
        }),
{
    if !direct_fans {
        return String::from_str("Direct EC control is unavailable");
    }
    if is_direct(mode) {
        let mut text: String = String::from_str("Direct EC PWM: ");
        text.append(decimal_text(duty_percent(duties[0]) as u128).as_str());
        text.append("% / ");
        text.append(decimal_text(duty_percent(duties[1]) as u128).as_str());
        text.append("% · RPM ");
        text.append(speeds_text(fan_rpms).as_str());
        return text;
    }
    prefixed("Firmware fan control · RPM ", speeds_text(fan_rpms).as_str())
}

// ---------------------------------------------------------------------------
// Profiles
// ---------------------------------------------------------------------------

/// Whether a profile can be renamed and removed: only custom ones can.
pub fn profile_actions_are_editable(config: &Config, profile_id: &str) -> (result: bool)
    ensures
        result == (has_id(config@.profiles, profile_id@) && !config@.profiles[position_of(
            config@.profiles,
            profile_id@,
        )].builtin),
{
    match config.find(profile_id) {
        Some(profile) => !profile.builtin,
        None => false,
    }
}

/// The name that a question about a profile shows.
pub open spec fn asked_name(config: ConfigView, id: Seq<char>) -> Seq<char> {
    if has_id(config.profiles, id) {
        config.profiles[position_of(config.profiles, id)].name
    } else {
        "selected profile"@
    }
}

fn question_name(config: &Config, id: &str) -> (result: String)
    ensures
        result@ == asked_name(config@, id@),
{
    match config.find(id) {
        Some(profile) => profile.name.clone(),
        None => String::from_str("selected profile"),
    }
}

/// The question before factory defaults are restored.
pub fn restore_question(config: &Config, id: &str) -> (result: String)
    ensures
        result@ == "Reset “"@ + asked_name(config@, id@)
            + "” power, fan, APU temperature, and undervolt settings?"@,
{
    let mut text: String = prefixed("Reset “", question_name(config, id).as_str());
    text.append("” power, fan, APU temperature, and undervolt settings?");
    text
}

/// The question before a profile is removed.
pub fn remove_question(config: &Config, id: &str) -> (result: String)
    ensures
        result@ == "Permanently remove “"@ + asked_name(config@, id@) + "”?"@,
{
    let mut text: String = prefixed("Permanently remove “", question_name(config, id).as_str());
    text.append("”?");
    text
}

/// The new name in what was entered: without the white space around it, and not
/// nothing.
pub fn entered_name(text: &str) -> (result: Option<String>)
    ensures
        result.deep_view() == (if trim_of(text@).len() == 0 {
            None
        } else {
            Some(trim_of(text@))
        }),
{
    let name: &str = trim(text);
    if name.unicode_len() == 0 {
        None
    } else {
        Some(String::from_str(name))
    }
}

/// The names of all profiles, in order.
pub fn profile_names(config: &Config) -> (result: Vec<String>)
    ensures
        result@.len() == config@.profiles.len(),
        forall|i: int|
            0 <= i < result@.len() ==> (#[trigger] result@[i])@ == config@.profiles[i].name,
{
    let mut names: Vec<String> = Vec::new();
    let mut i: usize = 0;
    while i < config.profiles.len()
        invariant
            i <= config.profiles@.len(),
            names@.len() == i,
            forall|k: int| 0 <= k < i ==> (#[trigger] names@[k])@ == config@.profiles[k].name,
        decreases config.profiles@.len() - i,
    {
        assert(config@.profiles[i as int] == config.profiles@[i as int]@);
        names.push(config.profiles[i].name.clone());
        i = i + 1;
    }
    names
}

/// The place of a profile in the list; the first one's where it is missing.
pub fn selected_place(config: &Config, id: &str) -> (result: usize)
    ensures
        result == (if has_id(config@.profiles, id@) {
            position_of(config@.profiles, id@)
        } else {
            0
        }),
{
    match position(&config.profiles, id) {
        Some(index) => index,
        None => 0,
    }
}

// ---------------------------------------------------------------------------
// Factory curves
// ---------------------------------------------------------------------------

/// The curves of a power profile in the daemon's answer.
pub open spec fn curves_for(curves: Seq<(String, [Curve; 2])>, ppd_profile: Seq<char>) -> Option<
    [Curve; 2],
>
    decreases curves.len(),
{
    if curves.len() == 0 {
        None
    } else if curves[0].0@ == ppd_profile {
        Some(curves[0].1)
    } else {
        curves_for(curves.drop_first(), ppd_profile)
    }
}

/// The curves of a power profile in the daemon's answer.
pub fn factory_curves(curves: &Vec<(String, [Curve; 2])>, ppd_profile: &str) -> (result: Option<
    [Curve; 2],
>)
    ensures
        result == curves_for(curves@, ppd_profile@),
{
    let mut i: usize = 0;
    assert(curves@.skip(0) =~= curves@);
    while i < curves.len()
        invariant
            i <= curves@.len(),
            curves_for(curves@, ppd_profile@) == curves_for(curves@.skip(i as int), ppd_profile@),
        decreases curves@.len() - i,
    {
        assert(curves@.skip(i as int).drop_first() =~= curves@.skip(i + 1));
        if same(curves[i].0.as_str(), ppd_profile) {
            return Some(curves[i].1);
        }
        i = i + 1;
    }
    None
}

/// Where each power profile is listed once, every power profile gets its own
/// curves, wherever it stands in the list.
pub proof fn law_every_power_profile_has_its_own_curves(
    curves: Seq<(String, [Curve; 2])>,
    at: int,
)
    requires
        distinct_names(curves),
        0 <= at < curves.len(),
    ensures
        curves_for(curves, curves[at].0@) == Some(curves[at].1),
    decreases curves.len(),
{
    if at > 0 {
        let rest = curves.drop_first();
        assert(curves[0].0@ != curves[at].0@);
        assert forall|i: int, j: int| 0 <= i < j < rest.len() implies (#[trigger] rest[i]).0@ != (
        #[trigger] rest[j]).0@ by {
            assert(rest[i] == curves[i + 1] && rest[j] == curves[j + 1]);
        }
        assert(rest[at - 1] == curves[at]);
        law_every_power_profile_has_its_own_curves(rest, at - 1);
    }
}

/// A restored profile with the firmware's curves, where it has them.
pub open spec fn with_factory(
    restored: ProfileView,
    factory: Option<Result<Vec<(String, [Curve; 2])>, String>>,
) -> ProfileView {
    match (factory, restored.ppd_profile) {
        (Some(Ok(curves)), Some(ppd)) => match curves_for(curves@, ppd) {
            Some(found) => ProfileView {
                fan_curves: found,
                factory_fan_curves_loaded: true,
                ..restored
            },
            None => restored,
        },
        _ => restored,
    }
}

/// The complaint about the firmware's curves, if there is one.
pub open spec fn factory_complaint(
    restored: ProfileView,
    factory: Option<Result<Vec<(String, [Curve; 2])>, String>>,
) -> Option<Seq<char>> {
    match factory {
        Some(Err(error)) => Some(
            "firmware factory fan curves were unavailable; using bundled defaults: "@ + error@,
        ),
        Some(Ok(curves)) => match restored.ppd_profile {
            Some(ppd) => if curves_for(curves@, ppd) is None {
                Some("firmware returned no factory fan curves for "@ + ppd)
            } else {
                None
            },
            None => None,
        },
        None => None,
    }
}

/// Finishes the reset of a profile with what the firmware said of its curves, if
/// it was asked. Returns the complaint about that, if there is one.
pub fn finish_restore(
    restored: &mut Profile,
    factory: Option<Result<Vec<(String, [Curve; 2])>, String>>,
) -> (result: Option<String>)
    ensures
        final(restored)@ == with_factory(old(restored)@, factory),
        result.deep_view() == factory_complaint(old(restored)@, factory),
{
    match factory {
        None => None,
        Some(Err(error)) => Some(
            prefixed(
                "firmware factory fan curves were unavailable; using bundled defaults: ",
                error.as_str(),
            ),
        ),
        Some(Ok(curves)) => {
            let ppd: String = match &restored.ppd_profile {
                Some(ppd) => ppd.clone(),
                None => {
                    return None;
                },
            };
            match factory_curves(&curves, ppd.as_str()) {
                Some(found) => {
                    restored.fan_curves = found;
                    restored.factory_fan_curves_loaded = true;
                    None
                },
                None => Some(
                    prefixed("firmware returned no factory fan curves for ", ppd.as_str()),
                ),
            }
        },
    }
}

/// A reset takes the firmware's curves of the profile's own policy wherever the
/// firmware listed them, and the bundled ones else. It complains exactly where the
/// firmware was asked and gave none for that policy, and touches nothing else.
pub proof fn law_reset_prefers_the_firmware_curves(
    restored: ProfileView,
    policy: Seq<char>,
    curves: Vec<(String, [Curve; 2])>,
    error: String,
    at: int,
)
    requires
        restored.ppd_profile == Some(policy),
        distinct_names(curves@),
    ensures
        0 <= at < curves@.len() && curves@[at].0@ == policy ==> {
            let after = with_factory(restored, Some(Ok(curves)));
            &&& after.fan_curves == curves@[at].1
            &&& after.factory_fan_curves_loaded
            &&& after == (ProfileView {
                fan_curves: after.fan_curves,
                factory_fan_curves_loaded: true,
                ..restored
            })
            &&& factory_complaint(restored, Some(Ok(curves))) is None
        },
        (forall|i: int| 0 <= i < curves@.len() ==> (#[trigger] curves@[i]).0@ != policy) ==> {
            &&& with_factory(restored, Some(Ok(curves))) == restored
            &&& factory_complaint(restored, Some(Ok(curves))) is Some
        },
        with_factory(restored, Some(Err(error))) == restored,
        factory_complaint(restored, Some(Err(error))) is Some,
        with_factory(restored, None) == restored,
        factory_complaint(restored, None) is None,
{
    if 0 <= at < curves@.len() && curves@[at].0@ == policy {
        law_every_power_profile_has_its_own_curves(curves@, at);
    }
    if forall|i: int| 0 <= i < curves@.len() ==> (#[trigger] curves@[i]).0@ != policy {
        lemma_unlisted_policy_has_no_curves(curves@, policy);
    }
}

proof fn lemma_unlisted_policy_has_no_curves(curves: Seq<(String, [Curve; 2])>, policy: Seq<char>)
    requires
        forall|i: int| 0 <= i < curves.len() ==> (#[trigger] curves[i]).0@ != policy,
    ensures
        curves_for(curves, policy) is None,
    decreases curves.len(),
{
    if curves.len() > 0 {
        let rest = curves.drop_first();
        assert forall|i: int| 0 <= i < rest.len() implies (#[trigger] rest[i]).0@ != policy by {
            assert(rest[i] == curves[i + 1]);
        }
        lemma_unlisted_policy_has_no_curves(rest, policy);
    }
}

/// A change of one profile reaches that profile and no other, and nothing where there
/// is none with the id.
pub proof fn law_changes_reach_one_profile(
    config: ConfigView,
    id: Seq<char>,
    change: spec_fn(ProfileView) -> ProfileView,
    at: int,
)
    requires
        0 <= at <= config.profiles.len(),
        forall|i: int| 0 <= i < at ==> (#[trigger] config.profiles[i]).id != id,
        at < config.profiles.len() ==> config.profiles[at].id == id,
    ensures
        at < config.profiles.len() ==> with_profile(config, id, change) == (ConfigView {
            profiles: config.profiles.update(at, change(config.profiles[at])),
            ..config
        }),
        at == config.profiles.len() ==> with_profile(config, id, change) == config,
{
    crate::config::lemma_position_of(config.profiles, id);
}

/// The place of a name is where it stands first, and behind the list where it does
/// not stand.
pub proof fn law_places_are_where_names_stand(names: Seq<Seq<char>>, name: Seq<char>, at: int)
    requires
        0 <= at <= names.len(),
        forall|i: int| 0 <= i < at ==> #[trigger] names[i] != name,
        at < names.len() ==> names[at] == name,
    ensures
        place_of(names, name) == at,
    decreases names.len(),
{
    if at > 0 {
        let rest = names.drop_first();
        assert(names[0] != name);
        assert forall|i: int| 0 <= i < at - 1 implies #[trigger] rest[i] != name by {
            assert(rest[i] == names[i + 1]);
        }
        law_places_are_where_names_stand(rest, name, at - 1);
    }
}

} // verus!
