//! Named profiles: power limits, fan curves, undervolt and their stock tables.

use vstd::prelude::*;

use crate::curve::{
    curve_valid, first_point_error, pwm, temp, validate as validate_curve, Curve,
};
use crate::text::{blank, is_blank, same};

verus! {

/// One fan's `[temperature, pwm]` points.
pub type FanCurve = [[i32; 2]; 8];

/// Who drives the fans while a custom curve is applied.
#[derive(Debug, Clone, Copy, PartialEq, Eq, Structural)]
pub enum FanControlMode {
    Firmware,
    Direct,
}

impl Default for FanControlMode {
    fn default() -> (result: Self)
        ensures
            result == FanControlMode::Firmware,
    {
        FanControlMode::Firmware
    }
}

/// A named set of power, fan and undervolt settings.
#[derive(Debug, PartialEq)]
pub struct Profile {
    pub id: String,
    pub name: String,
    pub builtin: bool,
    pub ppd_profile: Option<String>,
    pub apply_power_limits: bool,
    pub pl1_spl: u32,
    pub pl2_sppt: u32,
    pub fppt: u32,
    pub apply_fan_curve: bool,
    pub fan_control_mode: FanControlMode,
    pub fan_hysteresis_up: u8,
    pub fan_hysteresis_down: u8,
    pub fan_temperature_average_seconds: u8,
    pub unified_fan_control: bool,
    pub fan_curves: [FanCurve; 2],
    pub factory_fan_curves_loaded: bool,
    pub apply_undervolt: bool,
    pub cpu_co: i32,
    pub cpu_temp_limit: u8,
}

/// The model of a [`Profile`]: its fields, with text as characters.
pub struct ProfileView {
    pub id: Seq<char>,
    pub name: Seq<char>,
    pub builtin: bool,
    pub ppd_profile: Option<Seq<char>>,
    pub apply_power_limits: bool,
    pub pl1_spl: u32,
    pub pl2_sppt: u32,
    pub fppt: u32,
    pub apply_fan_curve: bool,
    pub fan_control_mode: FanControlMode,
    pub fan_hysteresis_up: u8,
    pub fan_hysteresis_down: u8,
    pub fan_temperature_average_seconds: u8,
    pub unified_fan_control: bool,
    pub fan_curves: [FanCurve; 2],
    pub factory_fan_curves_loaded: bool,
    pub apply_undervolt: bool,
    pub cpu_co: i32,
    pub cpu_temp_limit: u8,
}

impl View for Profile {
    type V = ProfileView;

    open spec fn view(&self) -> ProfileView {
        ProfileView {
            id: self.id@,
            name: self.name@,
            builtin: self.builtin,
            ppd_profile: self.ppd_profile.deep_view(),
            apply_power_limits: self.apply_power_limits,
            pl1_spl: self.pl1_spl,
            pl2_sppt: self.pl2_sppt,
            fppt: self.fppt,
            apply_fan_curve: self.apply_fan_curve,
            fan_control_mode: self.fan_control_mode,
            fan_hysteresis_up: self.fan_hysteresis_up,
            fan_hysteresis_down: self.fan_hysteresis_down,
            fan_temperature_average_seconds: self.fan_temperature_average_seconds,
            unified_fan_control: self.unified_fan_control,
            fan_curves: self.fan_curves,
            factory_fan_curves_loaded: self.factory_fan_curves_loaded,
            apply_undervolt: self.apply_undervolt,
            cpu_co: self.cpu_co,
            cpu_temp_limit: self.cpu_temp_limit,
        }
    }
}

impl DeepView for Profile {
    type V = ProfileView;

    open spec fn deep_view(&self) -> ProfileView {
        self.view()
    }
}

impl Clone for Profile {
    fn clone(&self) -> (result: Self)
        ensures
            result@ == self@,
    {
        Profile {
            id: self.id.clone(),
            name: self.name.clone(),
            builtin: self.builtin,
            ppd_profile: self.ppd_profile.clone(),
            apply_power_limits: self.apply_power_limits,
            pl1_spl: self.pl1_spl,
            pl2_sppt: self.pl2_sppt,
            fppt: self.fppt,
            apply_fan_curve: self.apply_fan_curve,
            fan_control_mode: self.fan_control_mode,
            fan_hysteresis_up: self.fan_hysteresis_up,
            fan_hysteresis_down: self.fan_hysteresis_down,
            fan_temperature_average_seconds: self.fan_temperature_average_seconds,
            unified_fan_control: self.unified_fan_control,
            fan_curves: self.fan_curves,
            factory_fan_curves_loaded: self.factory_fan_curves_loaded,
            apply_undervolt: self.apply_undervolt,
            cpu_co: self.cpu_co,
            cpu_temp_limit: self.cpu_temp_limit,
        }
    }
}

// ---------------------------------------------------------------------------
// Defaults
// ---------------------------------------------------------------------------

pub fn default_fan_hysteresis() -> (result: u8)
    ensures
        result == 3,
{
    3
}

pub fn default_fan_temperature_average_seconds() -> (result: u8)
    ensures
        result == 6,
{
    6
}

pub fn default_unified_fan_control() -> (result: bool)
    ensures
        result,
{
    true
}

pub fn default_cpu_temp_limit() -> (result: u8)
    ensures
        result == 95,
{
    95
}

/// The power-profiles-daemon profile of a built-in profile id.
pub open spec fn builtin_ppd_of(id: Seq<char>) -> Seq<char> {
    if id == "silent"@ {
        "power-saver"@
    } else if id == "turbo"@ {
        "performance"@
    } else {
        "balanced"@
    }
}

fn builtin_ppd(id: &str) -> (result: &'static str)
    ensures
        result@ == builtin_ppd_of(id@),
{
    if same(id, "silent") {
        "power-saver"
    } else if same(id, "turbo") {
        "performance"
    } else {
        "balanced"
    }
}

/// The power-profiles-daemon profiles that have a measured stock table.
pub open spec fn known_ppd(profile: Seq<char>) -> bool {
    profile == "power-saver"@ || profile == "balanced"@ || profile == "performance"@
}

/// Whether a power-profiles-daemon profile has a measured stock table.
pub fn is_known_ppd_profile(profile: &str) -> (result: bool)
    ensures
        result == known_ppd(profile@),
{
    same(profile, "power-saver") || same(profile, "balanced") || same(profile, "performance")
}

/// The measured stock limits PL1, PL2 and FPPT in watts.
pub open spec fn stock_ppt_of(ppd_profile: Option<Seq<char>>) -> (u32, u32, u32) {
    if ppd_profile == Some("power-saver"@) {
        (40u32, 55u32, 55u32)
    } else if ppd_profile == Some("performance"@) {
        (70u32, 86u32, 86u32)
    } else {
        (52u32, 71u32, 70u32)
    }
}

/// Measured stock limits used to initialize the optional custom controls.
pub fn stock_ppt(ppd_profile: Option<&str>) -> (result: (u32, u32, u32))
    ensures
        result == stock_ppt_of(ppd_profile.deep_view()),
{
    match ppd_profile {
        Some(profile) => {
            if same(profile, "power-saver") {
                (40, 55, 55)
            } else if same(profile, "performance") {
                (70, 86, 86)
            } else {
                (52, 71, 70)
            }
        },
        None => (52, 71, 70),
    }
}

/// CPU duties of 0/0/3/12/20/28/34/41 %.
pub const POWER_SAVER_CPU: [[i32; 2]; 8] = [
    [30, 0],
    [49, 0],
    [59, 7],
    [66, 30],
    [71, 51],
    [80, 71],
    [90, 86],
    [100, 104],
];

/// GPU duties of 0/0/4/17/27/35/40/45 %.
pub const POWER_SAVER_GPU: [[i32; 2]; 8] = [
    [30, 0],
    [49, 0],
    [59, 10],
    [66, 43],
    [71, 68],
    [80, 89],
    [90, 102],
    [100, 114],
];

/// CPU duties of 17/26/34/41/52/67/81/90 %.
pub const PERFORMANCE_CPU: [[i32; 2]; 8] = [
    [30, 43],
    [63, 66],
    [68, 86],
    [72, 104],
    [76, 132],
    [80, 170],
    [84, 206],
    [98, 229],
];

/// GPU duties of 22/31/38/45/57/71/85/95 %.
pub const PERFORMANCE_GPU: [[i32; 2]; 8] = [
    [30, 56],
    [63, 79],
    [68, 96],
    [72, 114],
    [76, 145],
    [80, 181],
    [84, 216],
    [98, 242],
];

/// CPU duties of 8/17/22/26/34/41/48/69 %.
pub const BALANCED_CPU: [[i32; 2]; 8] = [
    [58, 20],
    [61, 43],
    [64, 56],
    [68, 66],
    [72, 86],
    [77, 104],
    [81, 122],
    [98, 175],
];

/// GPU duties of 12/22/29/31/38/45/52/74 %.
pub const BALANCED_GPU: [[i32; 2]; 8] = [
    [58, 30],
    [61, 56],
    [64, 73],
    [68, 79],
    [72, 96],
    [77, 114],
    [81, 132],
    [98, 188],
];

/// The fallback CPU and GPU curves of a power-profiles-daemon profile.
pub open spec fn stock_fan_curves_of(ppd_profile: Option<Seq<char>>) -> [FanCurve; 2] {
    if ppd_profile == Some("power-saver"@) {
        [POWER_SAVER_CPU, POWER_SAVER_GPU]
    } else if ppd_profile == Some("performance"@) {
        [PERFORMANCE_CPU, PERFORMANCE_GPU]
    } else {
        [BALANCED_CPU, BALANCED_GPU]
    }
}

/// Portable fallback curves, CPU first.
///
/// These are editor defaults, not a claim about the firmware's private
/// real-time fan control law.
pub fn stock_fan_curves(ppd_profile: Option<&str>) -> (result: [FanCurve; 2])
    ensures
        result == stock_fan_curves_of(ppd_profile.deep_view()),
{
    match ppd_profile {
        Some(profile) => {
            if same(profile, "power-saver") {
                [POWER_SAVER_CPU, POWER_SAVER_GPU]
            } else if same(profile, "performance") {
                [PERFORMANCE_CPU, PERFORMANCE_GPU]
            } else {
                [BALANCED_CPU, BALANCED_GPU]
            }
        },
        None => [BALANCED_CPU, BALANCED_GPU],
    }
}

/// The curve that a new editor starts from.
pub fn default_fan_curve() -> (result: FanCurve)
    ensures
        result == BALANCED_CPU,
{
    proof {
        lemma_ppd_names_differ();
    }
    stock_fan_curves(Some("balanced"))[0]
}

proof fn lemma_ppd_names_differ()
    ensures
        "power-saver"@ != "balanced"@,
        "power-saver"@ != "performance"@,
        "balanced"@ != "performance"@,
{
    reveal_strlit("power-saver");
    reveal_strlit("balanced");
    reveal_strlit("performance");
    assert("power-saver"@[1] != "performance"@[1]);
}

/// Every stock table is a curve that the daemon accepts, and a fan never shares
/// the table of the other.
pub proof fn law_stock_curves_are_valid(ppd_profile: Option<Seq<char>>)
    ensures
        curve_valid(stock_fan_curves_of(ppd_profile)@[0]),
        curve_valid(stock_fan_curves_of(ppd_profile)@[1]),
        stock_fan_curves_of(ppd_profile)@[0] != stock_fan_curves_of(ppd_profile)@[1],
{
    assert(POWER_SAVER_CPU@[2]@[1] != POWER_SAVER_GPU@[2]@[1]);
    assert(PERFORMANCE_CPU@[0]@[1] != PERFORMANCE_GPU@[0]@[1]);
    assert(BALANCED_CPU@[0]@[1] != BALANCED_GPU@[0]@[1]);
}

/// A faster policy is never given less power, and its fans never run slower at the
/// same place of the curve; the GPU fan runs at least as fast as the CPU fan. A name
/// without a table of its own gets that of the balanced policy.
pub proof fn law_faster_policies_get_more(other: Option<Seq<char>>, fan: int, i: int)
    requires
        0 <= fan < 2,
        0 <= i < 8,
        other != Some("power-saver"@),
        other != Some("performance"@),
    ensures
        ({
            let saver = stock_ppt_of(Some("power-saver"@));
            let balanced = stock_ppt_of(Some("balanced"@));
            let performance = stock_ppt_of(Some("performance"@));
            &&& saver.0 < balanced.0 < performance.0
            &&& saver.1 < balanced.1 < performance.1
            &&& saver.2 < balanced.2 < performance.2
            &&& stock_ppt_of(other) == balanced
        }),
        ({
            let saver = stock_fan_curves_of(Some("power-saver"@));
            let balanced = stock_fan_curves_of(Some("balanced"@));
            let performance = stock_fan_curves_of(Some("performance"@));
            &&& pwm(saver@[fan], i) < pwm(balanced@[fan], i) < pwm(performance@[fan], i)
            &&& pwm(saver@[0], i) <= pwm(saver@[1], i)
            &&& pwm(balanced@[0], i) <= pwm(balanced@[1], i)
            &&& pwm(performance@[0], i) <= pwm(performance@[1], i)
            &&& temp(saver@[0], i) == temp(saver@[1], i)
            &&& temp(balanced@[0], i) == temp(balanced@[1], i)
            &&& temp(performance@[0], i) == temp(performance@[1], i)
            &&& stock_fan_curves_of(other) == balanced
        }),
{
    lemma_ppd_names_differ();
    assert(i == 0 || i == 1 || i == 2 || i == 3 || i == 4 || i == 5 || i == 6 || i == 7);
}

/// Two profiles with the same model hold the same settings.
pub proof fn law_profile_model_is_faithful(a: Profile, b: Profile)
    requires
        a@ == b@,
    ensures
        a.id@ == b.id@,
        a.name@ == b.name@,
        a.builtin == b.builtin,
        a.ppd_profile.deep_view() == b.ppd_profile.deep_view(),
        a.apply_power_limits == b.apply_power_limits,
        a.pl1_spl == b.pl1_spl,
        a.pl2_sppt == b.pl2_sppt,
        a.fppt == b.fppt,
        a.apply_fan_curve == b.apply_fan_curve,
        a.fan_control_mode == b.fan_control_mode,
        a.fan_hysteresis_up == b.fan_hysteresis_up,
        a.fan_hysteresis_down == b.fan_hysteresis_down,
        a.fan_temperature_average_seconds == b.fan_temperature_average_seconds,
        a.unified_fan_control == b.unified_fan_control,
        a.fan_curves == b.fan_curves,
        a.factory_fan_curves_loaded == b.factory_fan_curves_loaded,
        a.apply_undervolt == b.apply_undervolt,
        a.cpu_co == b.cpu_co,
        a.cpu_temp_limit == b.cpu_temp_limit,
{
}

// ---------------------------------------------------------------------------
// Validation
// ---------------------------------------------------------------------------

/// The message of the first curve point that breaks a rule, if one does.
pub open spec fn curve_error_text(curve: Curve) -> Option<Seq<char>> {
    match first_point_error(curve, 0) {
        Some(error) => Some(error.message_text()),
        None => None,
    }
}

/// The first rule that a profile breaks, as the message it is refused with.
pub open spec fn profile_error(profile: ProfileView) -> Option<Seq<char>> {
    if is_blank(profile.name) {
        Some("profile name must not be empty"@)
    } else if profile.ppd_profile is Some && is_blank(profile.ppd_profile->0) {
        Some("PPD profile must not be empty"@)
    } else if !(5 <= profile.pl1_spl <= 93) {
        Some("PL1 must be between 5 and 93 watts"@)
    } else if !(5 <= profile.pl2_sppt <= 93) {
        Some("PL2 must be between 5 and 93 watts"@)
    } else if !(5 <= profile.fppt <= 120) {
        Some("FPPT must be between 5 and 120 watts"@)
    } else if profile.apply_power_limits && !(profile.pl1_spl <= profile.pl2_sppt <= profile.fppt) {
        Some("power limits must satisfy PL1 <= PL2 <= FPPT"@)
    } else if !(1 <= profile.fan_hysteresis_up <= 5 && 1 <= profile.fan_hysteresis_down <= 5) {
        Some("fan hysteresis values must be between 1 and 5"@)
    } else if profile.fan_temperature_average_seconds > 15 {
        Some("fan temperature averaging must be between 0 and 15 seconds"@)
    } else if !(-40 <= profile.cpu_co <= 0) {
        Some("Curve Optimizer offset must be between -40 and 0"@)
    } else if !(80 <= profile.cpu_temp_limit <= 99) {
        Some("APU temperature limit must be between 80 and 99°C"@)
    } else if curve_error_text(profile.fan_curves@[0]) is Some {
        curve_error_text(profile.fan_curves@[0])
    } else {
        curve_error_text(profile.fan_curves@[1])
    }
}

/// Validates one curve, with the error as its message.
pub(crate) fn check_curve(curve: &Curve) -> (result: Result<(), String>)
    ensures
        match curve_error_text(*curve) {
            Some(text) => result matches Err(message) && message@ == text,
            None => result is Ok,
        },
{
    match validate_curve(curve) {
        Ok(_) => Ok(()),
        Err(error) => Err(error.message()),
    }
}

impl Profile {
    /// Validates a profile. The error is that of the first rule it breaks.
    pub fn validate(&self) -> (result: Result<(), String>)
        ensures
            match profile_error(self@) {
                Some(text) => result matches Err(message) && message@ == text,
                None => result is Ok,
            },
    {
        if blank(self.name.as_str()) {
            return Err(String::from_str("profile name must not be empty"));
        }
        if let Some(ppd_profile) = &self.ppd_profile {
            if blank(ppd_profile.as_str()) {
                return Err(String::from_str("PPD profile must not be empty"));
            }
        }
        if self.pl1_spl < 5 || self.pl1_spl > 93 {
            return Err(String::from_str("PL1 must be between 5 and 93 watts"));
        }
        if self.pl2_sppt < 5 || self.pl2_sppt > 93 {
            return Err(String::from_str("PL2 must be between 5 and 93 watts"));
        }
        if self.fppt < 5 || self.fppt > 120 {
            return Err(String::from_str("FPPT must be between 5 and 120 watts"));
        }
        if self.apply_power_limits && (self.pl2_sppt < self.pl1_spl || self.fppt < self.pl2_sppt) {
            return Err(String::from_str("power limits must satisfy PL1 <= PL2 <= FPPT"));
        }
        if self.fan_hysteresis_up < 1 || self.fan_hysteresis_up > 5 || self.fan_hysteresis_down < 1
            || self.fan_hysteresis_down > 5 {
            return Err(String::from_str("fan hysteresis values must be between 1 and 5"));
        }
        if self.fan_temperature_average_seconds > 15 {
            return Err(
                String::from_str("fan temperature averaging must be between 0 and 15 seconds"),
            );
        }
        if self.cpu_co < -40 || self.cpu_co > 0 {
            return Err(String::from_str("Curve Optimizer offset must be between -40 and 0"));
        }
        if self.cpu_temp_limit < 80 || self.cpu_temp_limit > 99 {
            return Err(String::from_str("APU temperature limit must be between 80 and 99°C"));
        }
        let cpu: Result<(), String> = check_curve(&self.fan_curves[0]);
        if cpu.is_err() {
            return cpu;
        }
        check_curve(&self.fan_curves[1])
    }
}

// ---------------------------------------------------------------------------
// Built-in profiles
// ---------------------------------------------------------------------------

/// A profile with every tuning field at the stock value of `ppd_profile`.
pub open spec fn stock_profile(
    id: Seq<char>,
    name: Seq<char>,
    builtin: bool,
    ppd_profile: Option<Seq<char>>,
) -> ProfileView {
    ProfileView {
        id,
        name,
        builtin,
        ppd_profile,
        apply_power_limits: false,
        pl1_spl: stock_ppt_of(ppd_profile).0,
        pl2_sppt: stock_ppt_of(ppd_profile).1,
        fppt: stock_ppt_of(ppd_profile).2,
        apply_fan_curve: false,
        fan_control_mode: FanControlMode::Firmware,
        fan_hysteresis_up: 3,
        fan_hysteresis_down: 3,
        fan_temperature_average_seconds: 6,
        unified_fan_control: true,
        fan_curves: stock_fan_curves_of(ppd_profile),
        factory_fan_curves_loaded: false,
        apply_undervolt: false,
        cpu_co: 0,
        cpu_temp_limit: 95,
    }
}

/// The built-in profile with an id and a name.
pub open spec fn builtin_profile(id: Seq<char>, name: Seq<char>) -> ProfileView {
    stock_profile(id, name, true, Some(builtin_ppd_of(id)))
}

/// A profile after a reset to its stock values; a built-in also returns to its
/// own power-profiles-daemon profile.
pub open spec fn factory_profile(profile: ProfileView) -> ProfileView {
    stock_profile(
        profile.id,
        profile.name,
        profile.builtin,
        if profile.builtin {
            Some(builtin_ppd_of(profile.id))
        } else {
            profile.ppd_profile
        },
    )
}

impl Profile {
    /// Creates the built-in profile with an id and a name.
    pub fn builtin(id: &str, name: &str) -> (result: Self)
        ensures
            result@ == builtin_profile(id@, name@),
    {
        let ppd_profile: &'static str = builtin_ppd(id);
        let limits: (u32, u32, u32) = stock_ppt(Some(ppd_profile));
        Profile {
            id: String::from_str(id),
            name: String::from_str(name),
            builtin: true,
            ppd_profile: Some(String::from_str(ppd_profile)),
            apply_power_limits: false,
            pl1_spl: limits.0,
            pl2_sppt: limits.1,
            fppt: limits.2,
            apply_fan_curve: false,
            fan_control_mode: FanControlMode::Firmware,
            fan_hysteresis_up: default_fan_hysteresis(),
            fan_hysteresis_down: default_fan_hysteresis(),
            fan_temperature_average_seconds: default_fan_temperature_average_seconds(),
            unified_fan_control: default_unified_fan_control(),
            fan_curves: stock_fan_curves(Some(ppd_profile)),
            factory_fan_curves_loaded: false,
            apply_undervolt: false,
            cpu_co: 0,
            cpu_temp_limit: default_cpu_temp_limit(),
        }
    }

    /// Restores the stock limits, fan curves and undervolt.
    ///
    /// A built-in also returns to its own power-profiles-daemon profile.
    pub fn factory_defaults(&mut self)
        ensures
            final(self)@ == factory_profile(old(self)@),
    {
        if self.builtin {
            self.ppd_profile = Some(String::from_str(builtin_ppd(self.id.as_str())));
        }
        let limits: (u32, u32, u32);
        let curves: [FanCurve; 2];
        match &self.ppd_profile {
            Some(ppd_profile) => {
                limits = stock_ppt(Some(ppd_profile.as_str()));
                curves = stock_fan_curves(Some(ppd_profile.as_str()));
            },
            None => {
                limits = stock_ppt(None);
                curves = stock_fan_curves(None);
            },
        }
        self.apply_power_limits = false;
        self.pl1_spl = limits.0;
        self.pl2_sppt = limits.1;
        self.fppt = limits.2;
        self.apply_fan_curve = false;
        self.fan_control_mode = FanControlMode::Firmware;
        self.fan_hysteresis_up = default_fan_hysteresis();
        self.fan_hysteresis_down = default_fan_hysteresis();
        self.fan_temperature_average_seconds = default_fan_temperature_average_seconds();
        self.unified_fan_control = default_unified_fan_control();
        self.fan_curves = curves;
        self.factory_fan_curves_loaded = false;
        self.apply_undervolt = false;
        self.cpu_co = 0;
        self.cpu_temp_limit = default_cpu_temp_limit();
    }
}

/// Whatever has been edited, a reset brings a built-in profile back to the state
/// that it was created in.
pub proof fn law_factory_defaults_restore_a_builtin(profile: ProfileView)
    requires
        profile.builtin,
    ensures
        factory_profile(profile) == builtin_profile(profile.id, profile.name),
{
}

/// A reset can be repeated without further effect.
pub proof fn law_factory_defaults_are_idempotent(profile: ProfileView)
    ensures
        factory_profile(factory_profile(profile)) == factory_profile(profile),
{
}

/// A profile that has been reset is accepted whenever its name and its
/// power-profiles-daemon profile are not blank.
pub proof fn law_factory_defaults_are_valid(profile: ProfileView)
    requires
        !is_blank(profile.name),
        profile.builtin || profile.ppd_profile is None || !is_blank(profile.ppd_profile->0),
    ensures
        profile_error(factory_profile(profile)) is None,
{
    law_stock_curves_are_valid(factory_profile(profile).ppd_profile);
    lemma_valid_curve_has_no_error(factory_profile(profile).fan_curves@[0]);
    lemma_valid_curve_has_no_error(factory_profile(profile).fan_curves@[1]);
    lemma_ppd_names_are_not_blank();
}

pub(crate) proof fn lemma_ppd_names_are_not_blank()
    ensures
        !is_blank("power-saver"@),
        !is_blank("balanced"@),
        !is_blank("performance"@),
{
    reveal_strlit("power-saver");
    reveal_strlit("balanced");
    reveal_strlit("performance");
    assert(!crate::text::is_white_space("power-saver"@[0]));
    assert(!crate::text::is_white_space("balanced"@[0]));
    assert(!crate::text::is_white_space("performance"@[0]));
}

proof fn lemma_no_error_from(curve: Curve, i: int)
    requires
        curve_valid(curve),
        0 <= i <= 8,
    ensures
        first_point_error(curve, i) is None,
    decreases 8 - i,
{
    if i < 8 {
        assert(0 <= crate::curve::temp(curve, i) <= 120);
        if i > 0 {
            assert(crate::curve::temp(curve, i - 1) <= crate::curve::temp(curve, i));
            assert(crate::curve::pwm(curve, i - 1) <= crate::curve::pwm(curve, i));
        }
        lemma_no_error_from(curve, i + 1);
    }
}

/// An accepted curve has no error message.
pub proof fn lemma_valid_curve_has_no_error(curve: Curve)
    requires
        curve_valid(curve),
    ensures
        curve_error_text(curve) is None,
{
    lemma_no_error_from(curve, 0);
}

/// A reset keeps who a profile is: its id, its name, whether it is built in, and
/// for a profile of the user's own the policy that it runs under.
pub proof fn law_factory_defaults_keep_the_identity(profile: ProfileView)
    ensures
        factory_profile(profile).id == profile.id,
        factory_profile(profile).name == profile.name,
        factory_profile(profile).builtin == profile.builtin,
        !profile.builtin ==> factory_profile(profile).ppd_profile == profile.ppd_profile,
        profile.builtin && profile.id == "silent"@ ==> factory_profile(profile).ppd_profile == Some(
            "power-saver"@,
        ),
        profile.builtin && profile.id == "turbo"@ ==> factory_profile(profile).ppd_profile == Some(
            "performance"@,
        ),
        profile.builtin && profile.id != "silent"@ && profile.id != "turbo"@ ==> factory_profile(
            profile,
        ).ppd_profile == Some("balanced"@),
{
    reveal_strlit("silent");
    reveal_strlit("turbo");
    assert("silent"@.len() != "turbo"@.len());
}

/// A reset drops every custom setting: no limits, curves or undervolt of its own
/// are applied, and the limits and curves to edit from are those of the policy.
pub proof fn law_factory_defaults_drop_custom_settings(profile: ProfileView)
    ensures
        ({
            let reset = factory_profile(profile);
            &&& !reset.apply_power_limits
            &&& !reset.apply_fan_curve
            &&& !reset.apply_undervolt
            &&& reset.cpu_co == 0
            &&& reset.cpu_temp_limit == 95
            &&& reset.fan_control_mode == FanControlMode::Firmware
            &&& reset.unified_fan_control
            &&& !reset.factory_fan_curves_loaded
            &&& reset.fan_hysteresis_up == reset.fan_hysteresis_down
            &&& (reset.pl1_spl, reset.pl2_sppt, reset.fppt) == stock_ppt_of(reset.ppd_profile)
            &&& reset.fan_curves == stock_fan_curves_of(reset.ppd_profile)
        }),
{
}

proof fn lemma_first_error_from(curve: Curve, i: int, k: int)
    requires
        0 <= i <= k < 8,
        first_point_error(curve, i) is None,
    ensures
        crate::curve::point_error(curve, k) is None,
    decreases k - i,
{
    if i < k {
        lemma_first_error_from(curve, i + 1, k);
    }
}

proof fn lemma_ascending(curve: Curve, i: int, j: int)
    requires
        first_point_error(curve, 0) is None,
        0 <= i <= j < 8,
    ensures
        temp(curve, i) <= temp(curve, j),
        pwm(curve, i) <= pwm(curve, j),
    decreases j - i,
{
    if i < j {
        lemma_ascending(curve, i, j - 1);
        lemma_first_error_from(curve, 0, j);
    }
}

/// A curve without an error message is one that the daemon accepts.
pub proof fn lemma_curve_without_error_is_valid(curve: Curve)
    requires
        curve_error_text(curve) is None,
    ensures
        curve_valid(curve),
{
    assert forall|i: int| 0 <= i < 8 implies 0 <= #[trigger] temp(curve, i) <= 120 && 0 <= pwm(
        curve,
        i,
    ) <= 255 by {
        lemma_first_error_from(curve, 0, i);
    }
    assert forall|i: int, j: int| 0 <= i <= j < 8 implies #[trigger] temp(curve, i)
        <= #[trigger] temp(curve, j) by {
        lemma_ascending(curve, i, j);
    }
    assert forall|i: int, j: int| 0 <= i <= j < 8 implies #[trigger] pwm(curve, i)
        <= #[trigger] pwm(curve, j) by {
        lemma_ascending(curve, i, j);
    }
}

/// A profile is accepted exactly within the limits of the machine: watts, levels,
/// seconds, offset and temperature in their ranges, limits that are applied in
/// their order, both curves valid, and nothing blank that needs a name.
pub proof fn law_profiles_are_accepted_within_limits(profile: ProfileView)
    ensures
        profile_error(profile) is None <==> {
            &&& !is_blank(profile.name)
            &&& profile.ppd_profile matches Some(policy) ==> !is_blank(policy)
            &&& 5 <= profile.pl1_spl <= 93
            &&& 5 <= profile.pl2_sppt <= 93
            &&& 5 <= profile.fppt <= 120
            &&& profile.apply_power_limits ==> profile.pl1_spl <= profile.pl2_sppt
                && profile.pl2_sppt <= profile.fppt
            &&& 1 <= profile.fan_hysteresis_up <= 5
            &&& 1 <= profile.fan_hysteresis_down <= 5
            &&& profile.fan_temperature_average_seconds <= 15
            &&& -40 <= profile.cpu_co <= 0
            &&& 80 <= profile.cpu_temp_limit <= 99
            &&& curve_valid(profile.fan_curves@[0])
            &&& curve_valid(profile.fan_curves@[1])
        },
{
    if curve_error_text(profile.fan_curves@[0]) is None {
        lemma_curve_without_error_is_valid(profile.fan_curves@[0]);
    }
    if curve_error_text(profile.fan_curves@[1]) is None {
        lemma_curve_without_error_is_valid(profile.fan_curves@[1]);
    }
    if curve_valid(profile.fan_curves@[0]) {
        lemma_valid_curve_has_no_error(profile.fan_curves@[0]);
    }
    if curve_valid(profile.fan_curves@[1]) {
        lemma_valid_curve_has_no_error(profile.fan_curves@[1]);
    }
}

} // verus!
