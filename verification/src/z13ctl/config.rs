//! The configuration of the front end for the z13ctl daemon.

use vstd::prelude::*;

use crate::z13ctl::profile::{builtin_profile, Base, Profile, ProfileView};

verus! {

/// The version of the configuration format.
pub const CONFIG_VERSION: u32 = 1;

/// What the user has configured.
#[derive(Clone, Debug)]
pub struct Config {
    pub version: u32,
    pub active_profile: String,
    pub auto_switch_on_power_source: bool,
    pub last_profile_on_ac: String,
    pub last_profile_on_battery: String,
    pub power_source_debounce_ms: u64,
    pub show_hud: bool,
    pub fan_clamp_to_grid: bool,
    pub profiles: Vec<Profile>,
}

/// The model of a [`Config`].
pub struct ConfigView {
    pub version: u32,
    pub active_profile: Seq<char>,
    pub auto_switch_on_power_source: bool,
    pub last_profile_on_ac: Seq<char>,
    pub last_profile_on_battery: Seq<char>,
    pub power_source_debounce_ms: u64,
    pub show_hud: bool,
    pub fan_clamp_to_grid: bool,
    pub profiles: Seq<ProfileView>,
}

impl View for Config {
    type V = ConfigView;

    open spec fn view(&self) -> ConfigView {
        ConfigView {
            version: self.version,
            active_profile: self.active_profile@,
            auto_switch_on_power_source: self.auto_switch_on_power_source,
            last_profile_on_ac: self.last_profile_on_ac@,
            last_profile_on_battery: self.last_profile_on_battery@,
            power_source_debounce_ms: self.power_source_debounce_ms,
            show_hud: self.show_hud,
            fan_clamp_to_grid: self.fan_clamp_to_grid,
            profiles: self.profiles.deep_view(),
        }
    }
}

/// The configuration before the user has changed anything.
pub open spec fn default_config() -> ConfigView {
    ConfigView {
        version: CONFIG_VERSION,
        active_profile: "balanced"@,
        auto_switch_on_power_source: true,
        last_profile_on_ac: "turbo"@,
        last_profile_on_battery: "silent"@,
        power_source_debounce_ms: 2000,
        show_hud: true,
        fan_clamp_to_grid: true,
        profiles: seq![
            builtin_profile("silent"@, "Silent"@, Base::Quiet),
            builtin_profile("balanced"@, "Balanced"@, Base::Balanced),
            builtin_profile("turbo"@, "Turbo"@, Base::Performance),
        ],
    }
}

impl Default for Config {
    fn default() -> (result: Self)
        ensures
            result@ == default_config(),
    {
        let profiles: Vec<Profile> = vec![
            Profile::builtin("silent", "Silent", Base::Quiet),
            Profile::builtin("balanced", "Balanced", Base::Balanced),
            Profile::builtin("turbo", "Turbo", Base::Performance),
        ];
        assert(profiles.deep_view() =~= default_config().profiles);
        Config {
            version: CONFIG_VERSION,
            active_profile: String::from_str("balanced"),
            auto_switch_on_power_source: true,
            last_profile_on_ac: String::from_str("turbo"),
            last_profile_on_battery: String::from_str("silent"),
            power_source_debounce_ms: 2000,
            show_hud: true,
            fan_clamp_to_grid: true,
            profiles,
        }
    }
}

/// The profiles that a new configuration refers to are among its profiles.
pub proof fn law_default_references_exist()
    ensures
        default_config().profiles[1].id == default_config().active_profile,
        default_config().profiles[2].id == default_config().last_profile_on_ac,
        default_config().profiles[0].id == default_config().last_profile_on_battery,
{
}

} // verus!
