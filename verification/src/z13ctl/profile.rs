//! Profiles for the z13ctl daemon: a stock base with optional limits, one fan
//! curve and an undervolt.

use vstd::prelude::*;

use crate::profile::stock_ppt_of;
use crate::text::{lower_of, lowers_to};

verus! {

/// The stock performance modes.
#[derive(Debug, Clone, Copy, PartialEq, Eq, Structural)]
pub enum Base {
    Quiet,
    Balanced,
    Performance,
}

impl Base {
    /// The daemon's name of a base.
    pub open spec fn name(self) -> Seq<char> {
        match self {
            Base::Quiet => "quiet"@,
            Base::Balanced => "balanced"@,
            Base::Performance => "performance"@,
        }
    }

    /// The daemon's name of a base.
    pub fn as_str(self) -> (result: &'static str)
        ensures
            result@ == self.name(),
    {
        match self {
            Base::Quiet => "quiet",
            Base::Balanced => "balanced",
            Base::Performance => "performance",
        }
    }

    /// The name shown to the user.
    pub fn display_name(self) -> (result: &'static str)
        ensures
            result@ == (match self {
                Base::Quiet => "Silent"@,
                Base::Balanced => "Balanced"@,
                Base::Performance => "Turbo"@,
            }),
    {
        match self {
            Base::Quiet => "Silent",
            Base::Balanced => "Balanced",
            Base::Performance => "Turbo",
        }
    }

    /// The label with the power-profiles-daemon profile that a base stands for.
    pub fn ppd_label(self) -> (result: &'static str)
        ensures
            result@ == (match self {
                Base::Quiet => "Quiet — PPD: power-saver"@,
                Base::Balanced => "Balanced — PPD: balanced"@,
                Base::Performance => "Performance — PPD: performance"@,
            }),
    {
        match self {
            Base::Quiet => "Quiet — PPD: power-saver",
            Base::Balanced => "Balanced — PPD: balanced",
            Base::Performance => "Performance — PPD: performance",
        }
    }

    /// The stock limits of a base: sustained, short and fast boost, in watts.
    pub open spec fn stock_limits(self) -> (u32, u32, u32) {
        match self {
            Base::Quiet => (40, 55, 55),
            Base::Balanced => (52, 71, 70),
            Base::Performance => (70, 86, 86),
        }
    }

    /// The stock limits of a base: sustained, short and fast boost, in watts.
    pub fn stock_ppt(self) -> (result: (u32, u32, u32))
        ensures
            result == self.stock_limits(),
    {
        match self {
            Base::Quiet => (40, 55, 55),
            Base::Balanced => (52, 71, 70),
            Base::Performance => (70, 86, 86),
        }
    }

    /// The base that a name stands for, whatever the case of its letters.
    pub open spec fn named(text: Seq<char>) -> Option<Base> {
        let name = lower_of(text);
        if name == "quiet"@ || name == "low-power"@ || name == "silent"@ {
            Some(Base::Quiet)
        } else if name == "balanced"@ {
            Some(Base::Balanced)
        } else if name == "performance"@ || name == "turbo"@ {
            Some(Base::Performance)
        } else {
            None
        }
    }

    /// The base that a name stands for, whatever the case of its letters.
    pub fn from_str_lossy(s: &str) -> (result: Option<Self>)
        ensures
            result == Base::named(s@),
    {
        if lowers_to(s, "quiet") || lowers_to(s, "low-power") || lowers_to(s, "silent") {
            Some(Base::Quiet)
        } else if lowers_to(s, "balanced") {
            Some(Base::Balanced)
        } else if lowers_to(s, "performance") || lowers_to(s, "turbo") {
            Some(Base::Performance)
        } else {
            None
        }
    }
}

/// A base is found again by the daemon's name of it.
pub proof fn law_base_survives_writing(base: Base)
    ensures
        Base::named(base.name()) == Some(base),
{
    reveal_strlit("quiet");
    reveal_strlit("low-power");
    reveal_strlit("silent");
    reveal_strlit("balanced");
    reveal_strlit("performance");
    reveal_strlit("turbo");
    assert(lower_of(base.name()) =~= base.name());
    assert("balanced"@.len() == 8);
    assert("performance"@.len() == 11);
    assert("quiet"@.len() == 5);
    assert("low-power"@.len() == 9);
    assert("silent"@.len() == 6);
    assert("turbo"@[0] == 't' && "quiet"@[0] == 'q');
}

/// A named set of settings.
#[derive(Debug)]
pub struct Profile {
    pub id: String,
    pub name: String,
    pub builtin: bool,
    pub base: Base,
    pub apply_power_limits: bool,
    pub pl1_spl: u32,
    pub pl2_sppt: u32,
    pub fppt: u32,
    pub apply_fan_curve: bool,
    pub fan_curve: [[i32; 2]; 8],
    pub apply_undervolt: bool,
    pub cpu_co: i32,
}

/// The model of a [`Profile`].
pub struct ProfileView {
    pub id: Seq<char>,
    pub name: Seq<char>,
    pub builtin: bool,
    pub base: Base,
    pub apply_power_limits: bool,
    pub pl1_spl: u32,
    pub pl2_sppt: u32,
    pub fppt: u32,
    pub apply_fan_curve: bool,
    pub fan_curve: [[i32; 2]; 8],
    pub apply_undervolt: bool,
    pub cpu_co: i32,
}

impl View for Profile {
    type V = ProfileView;

    open spec fn view(&self) -> ProfileView {
        ProfileView {
            id: self.id@,
            name: self.name@,
            builtin: self.builtin,
            base: self.base,
            apply_power_limits: self.apply_power_limits,
            pl1_spl: self.pl1_spl,
            pl2_sppt: self.pl2_sppt,
            fppt: self.fppt,
            apply_fan_curve: self.apply_fan_curve,
            fan_curve: self.fan_curve,
            apply_undervolt: self.apply_undervolt,
            cpu_co: self.cpu_co,
        }
    }
}

impl DeepView for Profile {
    type V = ProfileView;

    open spec fn deep_view(&self) -> ProfileView {
        self.view()
    }
}

impl Clone for Profile {
    fn clone(&self) -> (result: Self)
        ensures
            result@ == self@,
    {
        Profile {
            id: self.id.clone(),
            name: self.name.clone(),
            builtin: self.builtin,
            base: self.base,
            apply_power_limits: self.apply_power_limits,
            pl1_spl: self.pl1_spl,
            pl2_sppt: self.pl2_sppt,
            fppt: self.fppt,
            apply_fan_curve: self.apply_fan_curve,
            fan_curve: self.fan_curve,
            apply_undervolt: self.apply_undervolt,
            cpu_co: self.cpu_co,
        }
    }
}

/// A built-in profile: the stock settings of its base, with nothing applied on
/// top of them.
pub open spec fn builtin_profile(id: Seq<char>, name: Seq<char>, base: Base) -> ProfileView {
    ProfileView {
        id,
        name,
        builtin: true,
        base,
        apply_power_limits: false,
        pl1_spl: base.stock_limits().0,
        pl2_sppt: base.stock_limits().1,
        fppt: base.stock_limits().2,
        apply_fan_curve: false,
        fan_curve: DEFAULT_FAN_CURVE,
        apply_undervolt: false,
        cpu_co: 0,
    }
}

impl Profile {
    /// Makes a built-in profile.
    pub fn builtin(id: &str, name: &str, base: Base) -> (result: Self)
        ensures
            result@ == builtin_profile(id@, name@, base),
    {
        let (pl1, pl2, pl3) = base.stock_ppt();
        Profile {
            id: String::from_str(id),
            name: String::from_str(name),
            builtin: true,
            base,
            apply_power_limits: false,
            pl1_spl: pl1,
            pl2_sppt: pl2,
            fppt: pl3,
            apply_fan_curve: false,
            fan_curve: default_fan_curve(),
            apply_undervolt: false,
            cpu_co: 0,
        }
    }
}

/// The fan curve of a new profile, as `[temperature, pwm]` points.
pub const DEFAULT_FAN_CURVE: [[i32; 2]; 8] = [
    [48, 2],
    [53, 22],
    [57, 30],
    [60, 43],
    [63, 56],
    [65, 68],
    [70, 89],
    [76, 102],
];

/// The fan curve of a new profile.
pub fn default_fan_curve() -> (result: [[i32; 2]; 8])
    ensures
        result == DEFAULT_FAN_CURVE,
{
    DEFAULT_FAN_CURVE
}

/// Each base is found under its own name and the names that users give it, in either
/// case.
pub proof fn law_bases_are_found_by_their_names(text: Seq<char>)
    ensures
        lower_of(text) == "quiet"@ || lower_of(text) == "silent"@ || lower_of(text)
            == "low-power"@ <==> Base::named(text) == Some(Base::Quiet),
        lower_of(text) == "balanced"@ <==> Base::named(text) == Some(Base::Balanced),
        lower_of(text) == "performance"@ || lower_of(text) == "turbo"@ <==> Base::named(text)
            == Some(Base::Performance),
{
    reveal_strlit("quiet");
    reveal_strlit("low-power");
    reveal_strlit("silent");
    reveal_strlit("balanced");
    reveal_strlit("performance");
    reveal_strlit("turbo");
    assert("balanced"@.len() == 8);
    assert("performance"@.len() == 11);
    assert("quiet"@.len() == 5);
    assert("low-power"@.len() == 9);
    assert("silent"@.len() == 6);
    assert("turbo"@.len() == 5);
    assert("turbo"@[0] == 't' && "quiet"@[0] == 'q');
}

/// The stock limits of a base are those measured for its policy, so a faster base is
/// never given less.
pub proof fn law_stock_limits_are_those_of_the_policy()
    ensures
        Base::Quiet.stock_limits() == stock_ppt_of(Some("power-saver"@)),
        Base::Balanced.stock_limits() == stock_ppt_of(Some("balanced"@)),
        Base::Performance.stock_limits() == stock_ppt_of(Some("performance"@)),
{
    reveal_strlit("power-saver");
    reveal_strlit("balanced");
    reveal_strlit("performance");
    assert("power-saver"@[1] == 'o' && "performance"@[1] == 'e');
    assert("balanced"@.len() == 8 && "power-saver"@.len() == 11 && "performance"@.len() == 11);
}

/// A built-in profile applies nothing of its own, and its limits to edit from are
/// the stock ones of its base.
pub proof fn law_builtin_profiles_are_stock(id: Seq<char>, name: Seq<char>, base: Base)
    ensures
        ({
            let profile = builtin_profile(id, name, base);
            &&& profile.id == id && profile.name == name && profile.builtin && profile.base == base
            &&& !profile.apply_power_limits && !profile.apply_fan_curve && !profile.apply_undervolt
            &&& profile.cpu_co == 0
            &&& (profile.pl1_spl, profile.pl2_sppt, profile.fppt) == base.stock_limits()
            &&& profile.fan_curve == DEFAULT_FAN_CURVE
        }),
{
}

/// Two profiles with the same model hold the same settings.
pub proof fn law_profile_model_is_faithful(a: Profile, b: Profile)
    requires
        a@ == b@,
    ensures
        a.id@ == b.id@,
        a.name@ == b.name@,
        a.builtin == b.builtin,
        a.base == b.base,
        a.apply_power_limits == b.apply_power_limits,
        a.pl1_spl == b.pl1_spl,
        a.pl2_sppt == b.pl2_sppt,
        a.fppt == b.fppt,
        a.apply_fan_curve == b.apply_fan_curve,
        a.fan_curve == b.fan_curve,
        a.apply_undervolt == b.apply_undervolt,
        a.cpu_co == b.cpu_co,
{
}

} // verus!
