//! The user's configuration: profiles, references to them and policies.

use vstd::prelude::*;

use crate::profile::{profile_error, Profile, ProfileView};
use crate::text::{blank, decimal, decimal_text, is_blank, quoted, quoted_text, same};

verus! {

pub const CONFIG_VERSION: u32 = 1;

/// The largest configuration that is read, in bytes.
pub const MAX_CONFIG_BYTES: u64 = 1048576;

/// Why a configuration is refused.
#[derive(Debug, PartialEq, Eq)]
pub enum ConfigError {
    Io(String),
    Json(String),
    Invalid(String),
    Preservation(String),
    UnsupportedVersion(u32),
}

/// The model of a [`ConfigError`].
pub enum ConfigErrorView {
    Io(Seq<char>),
    Json(Seq<char>),
    Invalid(Seq<char>),
    Preservation(Seq<char>),
    UnsupportedVersion(u32),
}

impl View for ConfigError {
    type V = ConfigErrorView;

    open spec fn view(&self) -> ConfigErrorView {
        match self {
            ConfigError::Io(text) => ConfigErrorView::Io(text@),
            ConfigError::Json(text) => ConfigErrorView::Json(text@),
            ConfigError::Invalid(text) => ConfigErrorView::Invalid(text@),
            ConfigError::Preservation(text) => ConfigErrorView::Preservation(text@),
            ConfigError::UnsupportedVersion(version) => ConfigErrorView::UnsupportedVersion(
                *version,
            ),
        }
    }
}

impl ConfigErrorView {
    /// The wording of [`ConfigError::message`].
    pub open spec fn message_text(self) -> Seq<char> {
        match self {
            ConfigErrorView::Io(text) => "io error: "@ + text,
            ConfigErrorView::Json(text) => "json error: "@ + text,
            ConfigErrorView::Invalid(text) => "invalid v1 config: "@ + text,
            ConfigErrorView::Preservation(text) => "could not preserve corrupt config: "@ + text,
            ConfigErrorView::UnsupportedVersion(version) => "unsupported config version "@
                + decimal(version as nat),
        }
    }
}

impl ConfigError {
    /// The message shown to the user.
    pub fn message(&self) -> (result: String)
        ensures
            result@ == self@.message_text(),
    {
        match self {
            ConfigError::Io(detail) => {
                let mut text: String = String::from_str("io error: ");
                text.append(detail.as_str());
                text
            },
            ConfigError::Json(detail) => {
                let mut text: String = String::from_str("json error: ");
                text.append(detail.as_str());
                text
            },
            ConfigError::Invalid(detail) => {
                let mut text: String = String::from_str("invalid v1 config: ");
                text.append(detail.as_str());
                text
            },
            ConfigError::Preservation(detail) => {
                let mut text: String = String::from_str("could not preserve corrupt config: ");
                text.append(detail.as_str());
                text
            },
            ConfigError::UnsupportedVersion(version) => {
                let mut text: String = String::from_str("unsupported config version ");
                text.append(decimal_text(*version as u128).as_str());
                text
            },
        }
    }
}

/// The user's configuration.
#[derive(Debug, PartialEq)]
pub struct Config {
    pub version: u32,
    pub active_profile: String,
    pub auto_switch_on_power_source: bool,
    pub last_profile_on_ac: String,
    pub last_profile_on_battery: String,
    pub power_source_debounce_ms: u64,
    pub show_hud: bool,
    pub panel_overdrive_always_on: bool,
    pub disable_high_power_fan_protection: bool,
    pub profiles: Vec<Profile>,
}

/// The model of a [`Config`].
pub struct ConfigView {
    pub version: u32,
    pub active_profile: Seq<char>,
    pub auto_switch_on_power_source: bool,
    pub last_profile_on_ac: Seq<char>,
    pub last_profile_on_battery: Seq<char>,
    pub power_source_debounce_ms: u64,
    pub show_hud: bool,
    pub panel_overdrive_always_on: bool,
    pub disable_high_power_fan_protection: bool,
    pub profiles: Seq<ProfileView>,
}

impl View for Config {
    type V = ConfigView;

    open spec fn view(&self) -> ConfigView {
        ConfigView {
            version: self.version,
            active_profile: self.active_profile@,
            auto_switch_on_power_source: self.auto_switch_on_power_source,
            last_profile_on_ac: self.last_profile_on_ac@,
            last_profile_on_battery: self.last_profile_on_battery@,
            power_source_debounce_ms: self.power_source_debounce_ms,
            show_hud: self.show_hud,
            panel_overdrive_always_on: self.panel_overdrive_always_on,
            disable_high_power_fan_protection: self.disable_high_power_fan_protection,
            profiles: self.profiles.deep_view(),
        }
    }
}

/// The built-in profiles.
pub open spec fn builtin_profile_list() -> Seq<ProfileView> {
    seq![
        crate::profile::builtin_profile("silent"@, "Silent"@),
        crate::profile::builtin_profile("balanced"@, "Balanced"@),
        crate::profile::builtin_profile("turbo"@, "Turbo"@),
    ]
}

/// The fresh configuration.
pub open spec fn default_config() -> ConfigView {
    ConfigView {
        version: CONFIG_VERSION,
        active_profile: "balanced"@,
        auto_switch_on_power_source: true,
        last_profile_on_ac: "turbo"@,
        last_profile_on_battery: "silent"@,
        power_source_debounce_ms: 2000,
        show_hud: true,
        panel_overdrive_always_on: false,
        disable_high_power_fan_protection: false,
        profiles: builtin_profile_list(),
    }
}

/// Creates the built-in profiles: silent, balanced and turbo.
pub fn builtin_profiles() -> (result: Vec<Profile>)
    ensures
        result.deep_view() == builtin_profile_list(),
{
    let mut profiles: Vec<Profile> = Vec::new();
    profiles.push(Profile::builtin("silent", "Silent"));
    profiles.push(Profile::builtin("balanced", "Balanced"));
    profiles.push(Profile::builtin("turbo", "Turbo"));
    assert(profiles.deep_view() =~= builtin_profile_list());
    profiles
}

impl Default for Config {
    fn default() -> (result: Self)
        ensures
            result@ == default_config(),
    {
        Config {
            version: CONFIG_VERSION,
            active_profile: String::from_str("balanced"),
            auto_switch_on_power_source: true,
            last_profile_on_ac: String::from_str("turbo"),
            last_profile_on_battery: String::from_str("silent"),
            power_source_debounce_ms: 2000,
            show_hud: true,
            panel_overdrive_always_on: false,
            disable_high_power_fan_protection: false,
            profiles: builtin_profiles(),
        }
    }
}

impl Clone for Config {
    fn clone(&self) -> (result: Self)
        ensures
            result@ == self@,
    {
        let mut profiles: Vec<Profile> = Vec::new();
        let mut i: usize = 0;
        while i < self.profiles.len()
            invariant
                i <= self.profiles@.len(),
                profiles@.len() == i,
                forall|k: int| 0 <= k < i ==> (#[trigger] profiles@[k])@ == self.profiles@[k]@,
            decreases self.profiles@.len() - i,
        {
            profiles.push(self.profiles[i].clone());
            i = i + 1;
        }
        assert(profiles.deep_view() =~= self.profiles.deep_view());
        Config {
            version: self.version,
            active_profile: self.active_profile.clone(),
            auto_switch_on_power_source: self.auto_switch_on_power_source,
            last_profile_on_ac: self.last_profile_on_ac.clone(),
            last_profile_on_battery: self.last_profile_on_battery.clone(),
            power_source_debounce_ms: self.power_source_debounce_ms,
            show_hud: self.show_hud,
            panel_overdrive_always_on: self.panel_overdrive_always_on,
            disable_high_power_fan_protection: self.disable_high_power_fan_protection,
            profiles,
        }
    }
}

// ---------------------------------------------------------------------------
// Lookup
// ---------------------------------------------------------------------------

/// Whether one of the profiles has an id.
pub open spec fn has_id(profiles: Seq<ProfileView>, id: Seq<char>) -> bool {
    exists|i: int| 0 <= i < profiles.len() && (#[trigger] profiles[i]).id == id
}

/// The position of the first profile with an id, or the length of the list.
pub open spec fn position_of(profiles: Seq<ProfileView>, id: Seq<char>) -> int
    decreases profiles.len(),
{
    if profiles.len() == 0 {
        0
    } else if profiles[0].id == id {
        0
    } else {
        1 + position_of(profiles.drop_first(), id)
    }
}

pub proof fn lemma_position_of(profiles: Seq<ProfileView>, id: Seq<char>)
    ensures
        0 <= position_of(profiles, id) <= profiles.len(),
        has_id(profiles, id) <==> position_of(profiles, id) < profiles.len(),
        has_id(profiles, id) ==> profiles[position_of(profiles, id)].id == id,
        forall|i: int|
            0 <= i < position_of(profiles, id) ==> (#[trigger] profiles[i]).id != id,
    decreases profiles.len(),
{
    if profiles.len() > 0 {
        let rest = profiles.drop_first();
        lemma_position_of(rest, id);
        if profiles[0].id != id {
            assert forall|i: int| 0 <= i < position_of(profiles, id) implies (
            #[trigger] profiles[i]).id != id by {
                if i > 0 {
                    assert(profiles[i] == rest[i - 1]);
                }
            }
            if has_id(profiles, id) {
                let i = choose|i: int| 0 <= i < profiles.len() && (#[trigger] profiles[i]).id == id;
                assert(rest[i - 1].id == id);
            }
            if position_of(rest, id) < rest.len() {
                assert(profiles[position_of(rest, id) + 1] == rest[position_of(rest, id)]);
            }
        }
    }
}

proof fn lemma_position_is(profiles: Seq<ProfileView>, id: Seq<char>, at: int)
    requires
        0 <= at < profiles.len(),
        profiles[at].id == id,
        forall|i: int| 0 <= i < at ==> (#[trigger] profiles[i]).id != id,
    ensures
        position_of(profiles, id) == at,
        has_id(profiles, id),
{
    lemma_position_of(profiles, id);
}

pub(crate) fn position(profiles: &Vec<Profile>, id: &str) -> (result: Option<usize>)
    ensures
        match result {
            Some(index) => index < profiles@.len() && index == position_of(
                profiles.deep_view(),
                id@,
            ) && has_id(profiles.deep_view(), id@),
            None => !has_id(profiles.deep_view(), id@),
        },
{
    let mut i: usize = 0;
    while i < profiles.len()
        invariant
            i <= profiles@.len(),
            forall|k: int| 0 <= k < i ==> (#[trigger] profiles.deep_view()[k]).id != id@,
        decreases profiles@.len() - i,
    {
        assert(profiles.deep_view()[i as int] == profiles@[i as int]@);
        if same(profiles[i].id.as_str(), id) {
            proof {
                lemma_position_is(profiles.deep_view(), id@, i as int);
            }
            return Some(i);
        }
        i = i + 1;
    }
    None
}

impl Config {
    /// The first profile with an id.
    pub fn find(&self, id: &str) -> (result: Option<&Profile>)
        ensures
            match result {
                Some(profile) => has_id(self@.profiles, id@) && profile@
                    == self@.profiles[position_of(self@.profiles, id@)],
                None => !has_id(self@.profiles, id@),
            },
    {
        match position(&self.profiles, id) {
            Some(index) => Some(&self.profiles[index]),
            None => None,
        }
    }

    /// The first profile with an id, for editing.
    pub fn find_mut(&mut self, id: &str) -> (result: Option<&mut Profile>)
        ensures
            match result {
                Some(profile) => has_id(old(self)@.profiles, id@) && profile@
                    == old(self)@.profiles[position_of(old(self)@.profiles, id@)] && final(self)@
                    == (ConfigView {
                    profiles: old(self)@.profiles.update(
                        position_of(old(self)@.profiles, id@),
                        final(profile)@,
                    ),
                    ..old(self)@
                }),
                None => !has_id(old(self)@.profiles, id@) && final(self)@ == old(self)@,
            },
    {
        match position(&self.profiles, id) {
            Some(index) => {
                let ghost before = self.profiles;
                assert forall|after: Vec<Profile>, edited: Profile|
                    #![trigger after.deep_view(), before@.update(index as int, edited)]
                    after@ == before@.update(index as int, edited) implies after.deep_view()
                    == before.deep_view().update(index as int, edited@) by {
                    assert(after.deep_view() =~= before.deep_view().update(
                        index as int,
                        edited@,
                    ));
                }
                Some(&mut self.profiles[index])
            },
            None => None,
        }
    }

    /// The active profile.
    pub fn active(&self) -> (result: Option<&Profile>)
        ensures
            match result {
                Some(profile) => has_id(self@.profiles, self@.active_profile) && profile@
                    == self@.profiles[position_of(self@.profiles, self@.active_profile)],
                None => !has_id(self@.profiles, self@.active_profile),
            },
    {
        self.find(self.active_profile.as_str())
    }
}

// ---------------------------------------------------------------------------
// Custom profiles
// ---------------------------------------------------------------------------

/// The id of the custom profile with a number.
pub open spec fn custom_id(number: nat) -> Seq<char> {
    "custom-"@ + decimal(number)
}

/// The first name of the custom profile with a number.
pub open spec fn custom_name(number: nat) -> Seq<char> {
    "Custom "@ + decimal(number)
}

/// Whether `number` is the least number, from one on, whose id is free.
pub open spec fn is_custom_number(profiles: Seq<ProfileView>, number: nat) -> bool {
    &&& number >= 1
    &&& !has_id(profiles, custom_id(number))
    &&& forall|m: nat| 1 <= m < number ==> has_id(profiles, #[trigger] custom_id(m))
}

/// The least number, from one on, whose id is free.
pub open spec fn custom_number(profiles: Seq<ProfileView>) -> nat {
    choose|number: nat| is_custom_number(profiles, number)
}

/// A copy of `source` as the custom profile with a number.
pub open spec fn custom_profile(source: ProfileView, number: nat) -> ProfileView {
    ProfileView { id: custom_id(number), name: custom_name(number), builtin: false, ..source }
}

/// The profile that a new custom one is copied from: the active one, else the
/// balanced built-in.
pub open spec fn custom_source(config: ConfigView) -> ProfileView {
    if has_id(config.profiles, config.active_profile) {
        config.profiles[position_of(config.profiles, config.active_profile)]
    } else {
        crate::profile::builtin_profile("balanced"@, "Balanced"@)
    }
}

/// The configuration with a new custom profile, which becomes active.
pub open spec fn with_custom(config: ConfigView) -> ConfigView {
    let number = custom_number(config.profiles);
    ConfigView {
        active_profile: custom_id(number),
        profiles: config.profiles.push(custom_profile(custom_source(config), number)),
        ..config
    }
}

proof fn lemma_custom_ids_differ(a: nat, b: nat)
    requires
        custom_id(a) == custom_id(b),
    ensures
        a == b,
{
    let prefix = "custom-"@;
    assert(custom_id(a).skip(prefix.len() as int) =~= decimal(a));
    assert(custom_id(b).skip(prefix.len() as int) =~= decimal(b));
    crate::text::lemma_decimal_is_injective(a, b);
}

proof fn lemma_custom_number_is_unique(profiles: Seq<ProfileView>, number: nat)
    requires
        is_custom_number(profiles, number),
    ensures
        custom_number(profiles) == number,
{
    let chosen = custom_number(profiles);
    assert(is_custom_number(profiles, chosen));
    if chosen < number {
        assert(has_id(profiles, custom_id(chosen)));
    } else if number < chosen {
        assert(has_id(profiles, custom_id(number)));
    }
}

proof fn lemma_taken_numbers_are_few(profiles: Seq<ProfileView>, count: nat)
    requires
        forall|m: nat| 1 <= m <= count ==> has_id(profiles, #[trigger] custom_id(m)),
    ensures
        count <= profiles.len(),
{
    let positions = Seq::new(count, |j: int| position_of(profiles, custom_id((j + 1) as nat)));
    assert forall|i: int, j: int| 0 <= i < j < positions.len() implies positions[i]
        != positions[j] by {
        let a = (i + 1) as nat;
        let b = (j + 1) as nat;
        assert(has_id(profiles, custom_id(a)) && has_id(profiles, custom_id(b)));
        lemma_position_of(profiles, custom_id(a));
        lemma_position_of(profiles, custom_id(b));
        if positions[i] == positions[j] {
            lemma_custom_ids_differ(a, b);
        }
    }
    assert(positions.no_duplicates());
    let range = vstd::set_lib::set_int_range(0, profiles.len() as int);
    vstd::set_lib::lemma_int_range(0, profiles.len() as int);
    assert(positions.to_set().subset_of(range)) by {
        assert forall|p: int| positions.to_set().contains(p) implies range.contains(p) by {
            let i = choose|i: int| 0 <= i < positions.len() && positions[i] == p;
            assert(has_id(profiles, custom_id((i + 1) as nat)));
            lemma_position_of(profiles, custom_id((i + 1) as nat));
        }
    }
    positions.unique_seq_to_set();
    vstd::set_lib::lemma_len_subset(positions.to_set(), range);
}

fn custom_id_text(number: u128) -> (result: String)
    ensures
        result@ == custom_id(number as nat),
{
    let mut text: String = String::from_str("custom-");
    text.append(decimal_text(number).as_str());
    text
}

fn free_custom_number(profiles: &Vec<Profile>) -> (result: u128)
    ensures
        is_custom_number(profiles.deep_view(), result as nat),
        custom_number(profiles.deep_view()) == result,
{
    let count: usize = profiles.len();
    let mut number: u128 = 1;
    while position(profiles, custom_id_text(number).as_str()).is_some()
        invariant
            count == profiles@.len(),
            1 <= number <= count + 1,
            forall|m: nat| 1 <= m < number ==> has_id(profiles.deep_view(), #[trigger] custom_id(m)),
        decreases count + 1 - number,
    {
        proof {
            lemma_taken_numbers_are_few(profiles.deep_view(), number as nat);
        }
        number = number + 1;
    }
    proof {
        lemma_custom_number_is_unique(profiles.deep_view(), number as nat);
    }
    number
}

impl Config {
    /// Creates a custom profile by copying the active one, and makes it active.
    pub fn add_custom(&mut self) -> (result: &Profile)
        ensures
            final(self)@ == with_custom(old(self)@),
            result@ == final(self)@.profiles.last(),
    {
        let number: u128 = free_custom_number(&self.profiles);
        let mut profile: Profile = match self.active() {
            Some(active) => active.clone(),
            None => Profile::builtin("balanced", "Balanced"),
        };
        profile.id = custom_id_text(number);
        let mut name: String = String::from_str("Custom ");
        name.append(decimal_text(number).as_str());
        profile.name = name;
        profile.builtin = false;
        self.profiles.push(profile);
        self.active_profile = custom_id_text(number);
        assert(self@.profiles =~= with_custom(old(self)@).profiles);
        &self.profiles[self.profiles.len() - 1]
    }

    /// Renames a custom profile; reports whether it was renamed.
    pub fn rename(&mut self, id: &str, name: &str) -> (result: bool)
        ensures
            result == (has_id(old(self)@.profiles, id@)
                && !old(self)@.profiles[position_of(old(self)@.profiles, id@)].builtin),
            final(self)@ == (if result {
                with_name(old(self)@, id@, name@)
            } else {
                old(self)@
            }),
    {
        match position(&self.profiles, id) {
            Some(index) => {
                assert(self.profiles.deep_view()[index as int] == self.profiles@[index as int]@);
                if self.profiles[index].builtin {
                    return false;
                }
                self.profiles[index].name = String::from_str(name);
                assert(self@.profiles =~= with_name(old(self)@, id@, name@).profiles);
                true
            },
            None => false,
        }
    }

    /// Removes a custom profile; reports whether it was removed.
    ///
    /// References to the removed profile return to the balanced built-in.
    pub fn remove(&mut self, id: &str) -> (result: bool)
        ensures
            result == (has_id(old(self)@.profiles, id@)
                && !old(self)@.profiles[position_of(old(self)@.profiles, id@)].builtin),
            final(self)@ == (if result {
                without(old(self)@, id@)
            } else {
                old(self)@
            }),
    {
        let index: usize = match position(&self.profiles, id) {
            Some(index) => index,
            None => {
                return false;
            },
        };
        assert(self.profiles.deep_view()[index as int] == self.profiles@[index as int]@);
        if self.profiles[index].builtin {
            return false;
        }
        let _removed: Profile = self.profiles.remove(index);
        if same(self.active_profile.as_str(), id) {
            self.active_profile = String::from_str("balanced");
        }
        if same(self.last_profile_on_ac.as_str(), id) {
            self.last_profile_on_ac = String::from_str("balanced");
        }
        if same(self.last_profile_on_battery.as_str(), id) {
            self.last_profile_on_battery = String::from_str("balanced");
        }
        assert(self@.profiles =~= without(old(self)@, id@).profiles);
        true
    }

    /// Makes a profile active and remembers it for the power source.
    pub fn set_active_for_power_source(&mut self, id: &str, on_battery: bool)
        ensures
            final(self)@ == with_active(old(self)@, id@, on_battery),
    {
        self.active_profile = String::from_str(id);
        if on_battery {
            self.last_profile_on_battery = String::from_str(id);
        } else {
            self.last_profile_on_ac = String::from_str(id);
        }
    }

    /// Whether panel overdrive is on for a power source: always, or on AC only.
    pub fn panel_overdrive_enabled(&self, on_battery: bool) -> (result: bool)
        ensures
            result == (self@.panel_overdrive_always_on || !on_battery),
    {
        self.panel_overdrive_always_on || !on_battery
    }
}

/// The configuration with a profile renamed.
pub open spec fn with_name(config: ConfigView, id: Seq<char>, name: Seq<char>) -> ConfigView {
    let at = position_of(config.profiles, id);
    ConfigView {
        profiles: config.profiles.update(at, ProfileView { name, ..config.profiles[at] }),
        ..config
    }
}

/// A reference after the removal of a profile.
pub open spec fn repaired(reference: Seq<char>, removed: Seq<char>) -> Seq<char> {
    if reference == removed {
        "balanced"@
    } else {
        reference
    }
}

/// The configuration without a profile.
pub open spec fn without(config: ConfigView, id: Seq<char>) -> ConfigView {
    ConfigView {
        active_profile: repaired(config.active_profile, id),
        last_profile_on_ac: repaired(config.last_profile_on_ac, id),
        last_profile_on_battery: repaired(config.last_profile_on_battery, id),
        profiles: config.profiles.remove(position_of(config.profiles, id)),
        ..config
    }
}

/// The configuration with a profile active and remembered.
pub open spec fn with_active(config: ConfigView, id: Seq<char>, on_battery: bool) -> ConfigView {
    ConfigView {
        active_profile: id,
        last_profile_on_battery: if on_battery {
            id
        } else {
            config.last_profile_on_battery
        },
        last_profile_on_ac: if on_battery {
            config.last_profile_on_ac
        } else {
            id
        },
        ..config
    }
}

// ---------------------------------------------------------------------------
// Validation
// ---------------------------------------------------------------------------

/// The ids of the built-in profiles.
pub open spec fn is_builtin_id(id: Seq<char>) -> bool {
    id == "silent"@ || id == "balanced"@ || id == "turbo"@
}

fn builtin_id(id: &str) -> (result: bool)
    ensures
        result == is_builtin_id(id@),
{
    same(id, "silent") || same(id, "balanced") || same(id, "turbo")
}

/// The first rule that the profile at `i` breaks, on its own or against the
/// profiles before it.
pub open spec fn entry_error(profiles: Seq<ProfileView>, i: int) -> Option<Seq<char>> {
    let profile = profiles[i];
    if is_blank(profile.id) {
        Some("profile id must not be empty"@)
    } else if has_id(profiles.take(i), profile.id) {
        Some("duplicate profile id "@ + quoted_text(profile.id))
    } else if profile.builtin != is_builtin_id(profile.id) {
        Some("profile "@ + quoted_text(profile.id) + " has an invalid builtin flag"@)
    } else {
        profile_error(profile)
    }
}

/// The error of the first profile, from `i` on, that breaks a rule.
pub open spec fn first_entry_error(profiles: Seq<ProfileView>, i: int) -> Option<Seq<char>>
    decreases profiles.len() - i,
{
    if i >= profiles.len() {
        None
    } else if entry_error(profiles, i) is Some {
        entry_error(profiles, i)
    } else {
        first_entry_error(profiles, i + 1)
    }
}

/// The error of a reference to a profile.
pub open spec fn reference_error(profiles: Seq<ProfileView>, id: Seq<char>) -> Option<Seq<char>> {
    if has_id(profiles, id) {
        None
    } else {
        Some("profile reference "@ + quoted_text(id) + " does not exist"@)
    }
}

/// The error of an absent built-in profile.
pub open spec fn missing_error(profiles: Seq<ProfileView>, id: Seq<char>) -> Option<Seq<char>> {
    if has_id(profiles, id) {
        None
    } else {
        Some("missing built-in profile "@ + quoted_text(id))
    }
}

/// The first of two optional errors.
pub open spec fn earlier(first: Option<Seq<char>>, second: Option<Seq<char>>) -> Option<Seq<char>> {
    if first is Some {
        first
    } else {
        second
    }
}

/// The first rule that a configuration of the right version breaks.
pub open spec fn content_error(config: ConfigView) -> Option<Seq<char>> {
    earlier(
        first_entry_error(config.profiles, 0),
        earlier(
            reference_error(config.profiles, config.active_profile),
            earlier(
                reference_error(config.profiles, config.last_profile_on_ac),
                earlier(
                    reference_error(config.profiles, config.last_profile_on_battery),
                    earlier(
                        missing_error(config.profiles, "silent"@),
                        earlier(
                            missing_error(config.profiles, "balanced"@),
                            missing_error(config.profiles, "turbo"@),
                        ),
                    ),
                ),
            ),
        ),
    )
}

/// The error that a configuration is refused with, if it breaks a rule.
pub open spec fn config_error(config: ConfigView) -> Option<ConfigErrorView> {
    if config.version != CONFIG_VERSION {
        Some(ConfigErrorView::UnsupportedVersion(config.version))
    } else {
        match content_error(config) {
            Some(text) => Some(ConfigErrorView::Invalid(text)),
            None => None,
        }
    }
}

/// A configuration that is accepted: the right version, profiles with distinct
/// ids that are valid on their own, the three built-ins among them, and
/// references that lead to a profile.
pub open spec fn config_valid(config: ConfigView) -> bool {
    &&& config.version == CONFIG_VERSION
    &&& forall|i: int|
        0 <= i < config.profiles.len() ==> entry_valid(#[trigger] config.profiles[i])
    &&& forall|i: int, j: int|
        0 <= i < j < config.profiles.len() ==> (#[trigger] config.profiles[i]).id != (
        #[trigger] config.profiles[j]).id
    &&& has_id(config.profiles, config.active_profile)
    &&& has_id(config.profiles, config.last_profile_on_ac)
    &&& has_id(config.profiles, config.last_profile_on_battery)
    &&& has_id(config.profiles, "silent"@)
    &&& has_id(config.profiles, "balanced"@)
    &&& has_id(config.profiles, "turbo"@)
}

/// A profile that is valid on its own within a configuration.
pub open spec fn entry_valid(profile: ProfileView) -> bool {
    &&& !is_blank(profile.id)
    &&& profile.builtin == is_builtin_id(profile.id)
    &&& profile_error(profile) is None
}

proof fn lemma_entries(profiles: Seq<ProfileView>, from: int)
    requires
        0 <= from <= profiles.len(),
    ensures
        first_entry_error(profiles, from) is None <==> forall|i: int|
            from <= i < profiles.len() ==> entry_error(profiles, i) is None,
    decreases profiles.len() - from,
{
    if from < profiles.len() {
        lemma_entries(profiles, from + 1);
        if first_entry_error(profiles, from) is None {
            assert forall|i: int| from <= i < profiles.len() implies entry_error(profiles, i)
                is None by {}
        }
        if forall|i: int| from <= i < profiles.len() ==> entry_error(profiles, i) is None {
            assert(entry_error(profiles, from) is None);
        }
    }
}

/// A configuration has no error exactly when it is accepted.
pub proof fn lemma_config_error(config: ConfigView)
    ensures
        config_error(config) is None <==> config_valid(config),
{
    let profiles = config.profiles;
    lemma_entries(profiles, 0);
    if config_error(config) is None {
        assert forall|i: int| 0 <= i < profiles.len() implies entry_valid(#[trigger] profiles[i]) by {
            assert(entry_error(profiles, i) is None);
        }
        assert forall|i: int, j: int| 0 <= i < j < profiles.len() implies (
        #[trigger] profiles[i]).id != (#[trigger] profiles[j]).id by {
            assert(entry_error(profiles, j) is None);
            assert(profiles.take(j)[i] == profiles[i]);
        }
    }
    if config_valid(config) {
        assert forall|i: int| 0 <= i < profiles.len() implies entry_error(profiles, i) is None by {
            assert(entry_valid(profiles[i]));
            if has_id(profiles.take(i), profiles[i].id) {
                let k = choose|k: int|
                    0 <= k < profiles.take(i).len() && (#[trigger] profiles.take(i)[k]).id
                        == profiles[i].id;
                assert(profiles[k].id == profiles[i].id);
            }
        }
    }
}

/// The refusal of a repeated profile id, given the id in quotes.
pub fn duplicate_id_message(quoted_id: &str) -> (result: String)
    ensures
        result@ == "duplicate profile id "@ + quoted_id@,
{
    let mut text: String = String::from_str("duplicate profile id ");
    text.append(quoted_id);
    text
}

/// The refusal of a wrong built-in flag, given the profile's id in quotes.
pub fn builtin_flag_message(quoted_id: &str) -> (result: String)
    ensures
        result@ == "profile "@ + quoted_id@ + " has an invalid builtin flag"@,
{
    let mut text: String = String::from_str("profile ");
    text.append(quoted_id);
    text.append(" has an invalid builtin flag");
    text
}

/// The refusal of a reference that leads nowhere, given the id in quotes.
pub fn reference_message(quoted_id: &str) -> (result: String)
    ensures
        result@ == "profile reference "@ + quoted_id@ + " does not exist"@,
{
    let mut text: String = String::from_str("profile reference ");
    text.append(quoted_id);
    text.append(" does not exist");
    text
}

/// The refusal of an absent built-in profile, given its id in quotes.
pub fn missing_builtin_message(quoted_id: &str) -> (result: String)
    ensures
        result@ == "missing built-in profile "@ + quoted_id@,
{
    let mut text: String = String::from_str("missing built-in profile ");
    text.append(quoted_id);
    text
}

fn occurs_before(profiles: &Vec<Profile>, end: usize) -> (result: bool)
    requires
        end < profiles@.len(),
    ensures
        result == has_id(profiles.deep_view().take(end as int), profiles@[end as int].id@),
{
    let ghost earlier = profiles.deep_view().take(end as int);
    let mut i: usize = 0;
    while i < end
        invariant
            i <= end,
            end < profiles@.len(),
            earlier == profiles.deep_view().take(end as int),
            forall|k: int| 0 <= k < i ==> (#[trigger] earlier[k]).id != profiles@[end as int].id@,
        decreases end - i,
    {
        assert(earlier[i as int] == profiles@[i as int]@);
        if same(profiles[i].id.as_str(), profiles[end].id.as_str()) {
            return true;
        }
        i = i + 1;
    }
    false
}

fn check_entry(profiles: &Vec<Profile>, index: usize) -> (result: Result<(), String>)
    requires
        index < profiles@.len(),
    ensures
        match entry_error(profiles.deep_view(), index as int) {
            Some(text) => result matches Err(message) && message@ == text,
            None => result is Ok,
        },
{
    let profile: &Profile = &profiles[index];
    assert(profiles.deep_view()[index as int] == profile@);
    if blank(profile.id.as_str()) {
        return Err(String::from_str("profile id must not be empty"));
    }
    if occurs_before(profiles, index) {
        return Err(duplicate_id_message(quoted(profile.id.as_str()).as_str()));
    }
    if profile.builtin != builtin_id(profile.id.as_str()) {
        return Err(builtin_flag_message(quoted(profile.id.as_str()).as_str()));
    }
    profile.validate()
}

fn check_reference(profiles: &Vec<Profile>, id: &str) -> (result: Result<(), String>)
    ensures
        match reference_error(profiles.deep_view(), id@) {
            Some(text) => result matches Err(message) && message@ == text,
            None => result is Ok,
        },
{
    if position(profiles, id).is_none() {
        return Err(reference_message(quoted(id).as_str()));
    }
    Ok(())
}

fn check_present(profiles: &Vec<Profile>, id: &str) -> (result: Result<(), String>)
    ensures
        match missing_error(profiles.deep_view(), id@) {
            Some(text) => result matches Err(message) && message@ == text,
            None => result is Ok,
        },
{
    if position(profiles, id).is_none() {
        return Err(missing_builtin_message(quoted(id).as_str()));
    }
    Ok(())
}

fn check_entries(profiles: &Vec<Profile>) -> (result: Result<(), String>)
    ensures
        match first_entry_error(profiles.deep_view(), 0) {
            Some(text) => result matches Err(message) && message@ == text,
            None => result is Ok,
        },
{
    let mut i: usize = 0;
    while i < profiles.len()
        invariant
            i <= profiles@.len(),
            first_entry_error(profiles.deep_view(), 0) == first_entry_error(
                profiles.deep_view(),
                i as int,
            ),
        decreases profiles@.len() - i,
    {
        let checked: Result<(), String> = check_entry(profiles, i);
        if checked.is_err() {
            return checked;
        }
        i = i + 1;
    }
    Ok(())
}

impl Config {
    fn check_content(&self) -> (result: Result<(), String>)
        ensures
            match content_error(self@) {
                Some(text) => result matches Err(message) && message@ == text,
                None => result is Ok,
            },
    {
        let entries: Result<(), String> = check_entries(&self.profiles);
        if entries.is_err() {
            return entries;
        }
        let active: Result<(), String> = check_reference(
            &self.profiles,
            self.active_profile.as_str(),
        );
        if active.is_err() {
            return active;
        }
        let on_ac: Result<(), String> = check_reference(
            &self.profiles,
            self.last_profile_on_ac.as_str(),
        );
        if on_ac.is_err() {
            return on_ac;
        }
        let on_battery: Result<(), String> = check_reference(
            &self.profiles,
            self.last_profile_on_battery.as_str(),
        );
        if on_battery.is_err() {
            return on_battery;
        }
        let silent: Result<(), String> = check_present(&self.profiles, "silent");
        if silent.is_err() {
            return silent;
        }
        let balanced: Result<(), String> = check_present(&self.profiles, "balanced");
        if balanced.is_err() {
            return balanced;
        }
        check_present(&self.profiles, "turbo")
    }

    /// Validates a configuration. The error is that of the first rule it breaks.
    pub fn validate(&self) -> (result: Result<(), ConfigError>)
        ensures
            match config_error(self@) {
                Some(error) => result matches Err(found) && found@ == error,
                None => result is Ok,
            },
            result is Ok <==> config_valid(self@),
    {
        proof {
            lemma_config_error(self@);
        }
        if self.version != CONFIG_VERSION {
            return Err(ConfigError::UnsupportedVersion(self.version));
        }
        match self.check_content() {
            Ok(_) => Ok(()),
            Err(text) => Err(ConfigError::Invalid(text)),
        }
    }
}

// ---------------------------------------------------------------------------
// Laws
// ---------------------------------------------------------------------------

proof fn lemma_builtin_names()
    ensures
        "silent"@ != "balanced"@,
        "silent"@ != "turbo"@,
        "balanced"@ != "turbo"@,
        !is_blank("silent"@),
        !is_blank("balanced"@),
        !is_blank("turbo"@),
        !is_blank("Silent"@),
        !is_blank("Balanced"@),
        !is_blank("Turbo"@),
{
    reveal_strlit("silent");
    reveal_strlit("balanced");
    reveal_strlit("turbo");
    reveal_strlit("Silent");
    reveal_strlit("Balanced");
    reveal_strlit("Turbo");
    assert("silent"@.len() == 6 && "balanced"@.len() == 8 && "turbo"@.len() == 5);
    assert(!crate::text::is_white_space("silent"@[0]));
    assert(!crate::text::is_white_space("balanced"@[0]));
    assert(!crate::text::is_white_space("turbo"@[0]));
    assert(!crate::text::is_white_space("Silent"@[0]));
    assert(!crate::text::is_white_space("Balanced"@[0]));
    assert(!crate::text::is_white_space("Turbo"@[0]));
}

/// The fresh configuration is accepted.
pub proof fn law_default_config_is_valid()
    ensures
        config_valid(default_config()),
{
    lemma_builtin_names();
    let profiles = builtin_profile_list();
    assert forall|i: int| 0 <= i < profiles.len() implies entry_valid(#[trigger] profiles[i]) by {
        crate::profile::law_factory_defaults_are_valid(profiles[i]);
        crate::profile::law_factory_defaults_restore_a_builtin(profiles[i]);
    }
    assert(profiles[0].id == "silent"@);
    assert(profiles[1].id == "balanced"@);
    assert(profiles[2].id == "turbo"@);
}

proof fn lemma_search_custom_number(profiles: Seq<ProfileView>, from: nat) -> (number: nat)
    requires
        1 <= from <= profiles.len() + 1,
        forall|m: nat| 1 <= m < from ==> has_id(profiles, #[trigger] custom_id(m)),
    ensures
        is_custom_number(profiles, number),
    decreases profiles.len() + 1 - from,
{
    if has_id(profiles, custom_id(from)) {
        assert forall|m: nat| 1 <= m <= from implies has_id(profiles, #[trigger] custom_id(m)) by {}
        lemma_taken_numbers_are_few(profiles, from);
        lemma_search_custom_number(profiles, from + 1)
    } else {
        from
    }
}

/// There is always a free custom number, and the id of a new custom profile
/// collides with no other.
pub proof fn law_custom_ids_never_collide(profiles: Seq<ProfileView>)
    ensures
        is_custom_number(profiles, custom_number(profiles)),
        !has_id(profiles, custom_id(custom_number(profiles))),
{
    let number = lemma_search_custom_number(profiles, 1);
    lemma_custom_number_is_unique(profiles, number);
}

proof fn lemma_custom_texts(number: nat)
    ensures
        !is_blank(custom_id(number)),
        !is_blank(custom_name(number)),
        !is_builtin_id(custom_id(number)),
{
    reveal_strlit("custom-");
    reveal_strlit("Custom ");
    reveal_strlit("silent");
    reveal_strlit("balanced");
    reveal_strlit("turbo");
    assert(custom_id(number)[0] == 'c');
    assert(custom_name(number)[0] == 'C');
    assert(!crate::text::is_white_space(custom_id(number)[0]));
    assert(!crate::text::is_white_space(custom_name(number)[0]));
}

proof fn lemma_has_id_after_push(profiles: Seq<ProfileView>, profile: ProfileView, id: Seq<char>)
    requires
        has_id(profiles, id) || profile.id == id,
    ensures
        has_id(profiles.push(profile), id),
{
    let longer = profiles.push(profile);
    if has_id(profiles, id) {
        let i = choose|i: int| 0 <= i < profiles.len() && (#[trigger] profiles[i]).id == id;
        assert(longer[i].id == id);
    } else {
        assert(longer[profiles.len() as int].id == id);
    }
}

/// Adding a custom profile keeps a configuration valid.
pub proof fn law_adding_keeps_a_config_valid(config: ConfigView)
    requires
        config_valid(config),
    ensures
        config_valid(with_custom(config)),
{
    let number = custom_number(config.profiles);
    law_custom_ids_never_collide(config.profiles);
    lemma_custom_texts(number);
    lemma_position_of(config.profiles, config.active_profile);
    let source = custom_source(config);
    assert(entry_valid(source));
    let added = custom_profile(source, number);
    assert(entry_valid(added));
    let after = with_custom(config);
    assert forall|i: int| 0 <= i < after.profiles.len() implies entry_valid(
        #[trigger] after.profiles[i],
    ) by {
        if i < config.profiles.len() {
            assert(after.profiles[i] == config.profiles[i]);
        }
    }
    assert forall|i: int, j: int| 0 <= i < j < after.profiles.len() implies (
    #[trigger] after.profiles[i]).id != (#[trigger] after.profiles[j]).id by {
        assert(after.profiles[i] == config.profiles[i]);
        if j < config.profiles.len() {
            assert(after.profiles[j] == config.profiles[j]);
        }
    }
    lemma_has_id_after_push(config.profiles, added, custom_id(number));
    lemma_has_id_after_push(config.profiles, added, config.last_profile_on_ac);
    lemma_has_id_after_push(config.profiles, added, config.last_profile_on_battery);
    lemma_has_id_after_push(config.profiles, added, "silent"@);
    lemma_has_id_after_push(config.profiles, added, "balanced"@);
    lemma_has_id_after_push(config.profiles, added, "turbo"@);
}

/// Renaming a profile to a name that is not blank keeps a configuration valid.
pub proof fn law_renaming_keeps_a_config_valid(config: ConfigView, id: Seq<char>, name: Seq<char>)
    requires
        config_valid(config),
        has_id(config.profiles, id),
        !is_blank(name),
    ensures
        config_valid(with_name(config, id, name)),
{
    let after = with_name(config, id, name).profiles;
    lemma_position_of(config.profiles, id);
    assert forall|i: int| 0 <= i < after.len() implies entry_valid(#[trigger] after[i]) && after[i].id
        == config.profiles[i].id by {
        assert(entry_valid(config.profiles[i]));
    }
    assert forall|key: Seq<char>| has_id(config.profiles, key) implies has_id(after, key) by {
        let i = choose|i: int|
            0 <= i < config.profiles.len() && (#[trigger] config.profiles[i]).id == key;
        assert(after[i].id == key);
    }
    assert(has_id(config.profiles, config.active_profile));
    assert(has_id(config.profiles, config.last_profile_on_ac));
    assert(has_id(config.profiles, config.last_profile_on_battery));
    assert(has_id(config.profiles, "silent"@));
    assert(has_id(config.profiles, "balanced"@));
    assert(has_id(config.profiles, "turbo"@));
}

proof fn lemma_has_id_after_remove(profiles: Seq<ProfileView>, id: Seq<char>, key: Seq<char>)
    requires
        has_id(profiles, id),
        has_id(profiles, key),
        key != id,
    ensures
        has_id(profiles.remove(position_of(profiles, id)), key),
{
    lemma_position_of(profiles, id);
    let at = position_of(profiles, id);
    let after = profiles.remove(at);
    let i = choose|i: int| 0 <= i < profiles.len() && (#[trigger] profiles[i]).id == key;
    if i < at {
        assert(after[i].id == key);
    } else {
        assert(after[i - 1] == profiles[i]);
    }
}

/// Removing a custom profile keeps a configuration valid: every reference to it
/// is repaired.
pub proof fn law_removing_keeps_a_config_valid(config: ConfigView, id: Seq<char>)
    requires
        config_valid(config),
        has_id(config.profiles, id),
        !config.profiles[position_of(config.profiles, id)].builtin,
    ensures
        config_valid(without(config, id)),
        !has_id(without(config, id).profiles, id),
{
    let profiles = config.profiles;
    let at = position_of(profiles, id);
    let after = profiles.remove(at);
    lemma_position_of(profiles, id);
    assert(entry_valid(profiles[at]));
    assert(!is_builtin_id(id));
    assert forall|i: int| 0 <= i < after.len() implies entry_valid(#[trigger] after[i]) && after[i].id
        != id by {
        if i < at {
            assert(after[i] == profiles[i]);
        } else {
            assert(after[i] == profiles[i + 1]);
        }
    }
    assert forall|i: int, j: int| 0 <= i < j < after.len() implies (#[trigger] after[i]).id != (
    #[trigger] after[j]).id by {
        let a = if i < at {
            i
        } else {
            i + 1
        };
        let b = if j < at {
            j
        } else {
            j + 1
        };
        assert(after[i] == profiles[a] && after[j] == profiles[b]);
    }
    lemma_has_id_after_remove(profiles, id, "silent"@);
    lemma_has_id_after_remove(profiles, id, "balanced"@);
    lemma_has_id_after_remove(profiles, id, "turbo"@);
    if config.active_profile != id {
        lemma_has_id_after_remove(profiles, id, config.active_profile);
    }
    if config.last_profile_on_ac != id {
        lemma_has_id_after_remove(profiles, id, config.last_profile_on_ac);
    }
    if config.last_profile_on_battery != id {
        lemma_has_id_after_remove(profiles, id, config.last_profile_on_battery);
    }
}

/// Activating an existing profile for a power source keeps a configuration
/// valid.
pub proof fn law_activating_keeps_a_config_valid(
    config: ConfigView,
    id: Seq<char>,
    on_battery: bool,
)
    requires
        config_valid(config),
        has_id(config.profiles, id),
    ensures
        config_valid(with_active(config, id, on_battery)),
{
}

/// Removing a profile that was just added restores the list of profiles, so that
/// the same custom number is free again.
pub proof fn law_removal_undoes_addition(config: ConfigView)
    ensures
        without(with_custom(config), with_custom(config).active_profile).profiles
            == config.profiles,
        custom_number(without(with_custom(config), with_custom(config).active_profile).profiles)
            == custom_number(config.profiles),
{
    law_custom_ids_never_collide(config.profiles);
    let number = custom_number(config.profiles);
    let longer = with_custom(config).profiles;
    assert forall|i: int| 0 <= i < config.profiles.len() implies (#[trigger] longer[i]).id
        != custom_id(number) by {
        assert(longer[i] == config.profiles[i]);
        if longer[i].id == custom_id(number) {
            assert(has_id(config.profiles, custom_id(number)));
        }
    }
    lemma_position_is(longer, custom_id(number), config.profiles.len() as int);
    assert(longer.remove(config.profiles.len() as int) =~= config.profiles);
}

/// A new custom profile is a copy of the active one under a new id and name, which
/// is the user's own and becomes active; nothing else changes.
pub proof fn law_new_profile_copies_the_active_one(config: ConfigView, at: int)
    requires
        0 <= at < config.profiles.len(),
        config.profiles[at].id == config.active_profile,
        forall|i: int| 0 <= i < at ==> (#[trigger] config.profiles[i]).id != config.active_profile,
    ensures
        ({
            let after = with_custom(config);
            let active = config.profiles[at];
            let added = after.profiles.last();
            &&& after.profiles.drop_last() == config.profiles
            &&& !added.builtin
            &&& after.active_profile == added.id
            &&& added == (ProfileView { id: added.id, name: added.name, builtin: false, ..active })
            &&& after == (ConfigView {
                active_profile: after.active_profile,
                profiles: after.profiles,
                ..config
            })
        }),
{
    lemma_position_is(config.profiles, config.active_profile, at);
    assert(with_custom(config).profiles.drop_last() =~= config.profiles);
}

/// Renaming changes the name of one profile and nothing else.
pub proof fn law_renaming_changes_one_name(config: ConfigView, id: Seq<char>, name: Seq<char>, at: int)
    requires
        0 <= at < config.profiles.len(),
        config.profiles[at].id == id,
        forall|i: int| 0 <= i < at ==> (#[trigger] config.profiles[i]).id != id,
    ensures
        ({
            let after = with_name(config, id, name);
            &&& after.profiles.len() == config.profiles.len()
            &&& after.profiles[at].name == name
            &&& after.profiles[at] == (ProfileView { name, ..config.profiles[at] })
            &&& forall|i: int|
                0 <= i < config.profiles.len() && i != at ==> #[trigger] after.profiles[i]
                    == config.profiles[i]
            &&& after == (ConfigView { profiles: after.profiles, ..config })
        }),
{
    lemma_position_is(config.profiles, id, at);
}

/// Removing takes out one profile, keeps the others in their order, and sends to
/// the balanced built-in exactly those references that led to it.
pub proof fn law_removing_takes_out_one_profile(config: ConfigView, id: Seq<char>, at: int)
    requires
        0 <= at < config.profiles.len(),
        config.profiles[at].id == id,
        forall|i: int| 0 <= i < at ==> (#[trigger] config.profiles[i]).id != id,
    ensures
        ({
            let after = without(config, id);
            &&& after.profiles == config.profiles.take(at) + config.profiles.skip(at + 1)
            &&& config.active_profile == id ==> after.active_profile == "balanced"@
            &&& config.active_profile != id ==> after.active_profile == config.active_profile
            &&& config.last_profile_on_ac == id ==> after.last_profile_on_ac == "balanced"@
            &&& config.last_profile_on_ac != id ==> after.last_profile_on_ac
                == config.last_profile_on_ac
            &&& config.last_profile_on_battery == id ==> after.last_profile_on_battery
                == "balanced"@
            &&& config.last_profile_on_battery != id ==> after.last_profile_on_battery
                == config.last_profile_on_battery
            &&& after == (ConfigView {
                active_profile: after.active_profile,
                last_profile_on_ac: after.last_profile_on_ac,
                last_profile_on_battery: after.last_profile_on_battery,
                profiles: after.profiles,
                ..config
            })
        }),
{
    lemma_position_is(config.profiles, id, at);
    assert(without(config, id).profiles =~= config.profiles.take(at) + config.profiles.skip(at + 1));
}

/// Activating a profile remembers it for the power source at hand and leaves what
/// is remembered for the other one.
pub proof fn law_activating_remembers_for_one_source(
    config: ConfigView,
    id: Seq<char>,
    on_battery: bool,
)
    ensures
        ({
            let after = with_active(config, id, on_battery);
            &&& after.active_profile == id
            &&& on_battery ==> after.last_profile_on_battery == id && after.last_profile_on_ac
                == config.last_profile_on_ac
            &&& !on_battery ==> after.last_profile_on_ac == id && after.last_profile_on_battery
                == config.last_profile_on_battery
            &&& after == (ConfigView {
                active_profile: after.active_profile,
                last_profile_on_ac: after.last_profile_on_ac,
                last_profile_on_battery: after.last_profile_on_battery,
                ..config
            })
        }),
{
}

/// What an accepted configuration can be relied on for: the version is the current
/// one, the active profile and the remembered ones exist, so do the three
/// built-ins, ids are neither blank nor repeated, exactly the built-ins are marked,
/// and every profile is accepted on its own. A configuration of which all that
/// holds is accepted.
pub proof fn law_accepted_configs_are_consistent(config: ConfigView)
    ensures
        config_error(config) is None <==> {
            let profiles = config.profiles;
            &&& config.version == 1
            &&& exists|i: int|
                0 <= i < profiles.len() && (#[trigger] profiles[i]).id == config.active_profile
            &&& exists|i: int|
                0 <= i < profiles.len() && (#[trigger] profiles[i]).id == config.last_profile_on_ac
            &&& exists|i: int|
                0 <= i < profiles.len() && (#[trigger] profiles[i]).id
                    == config.last_profile_on_battery
            &&& exists|i: int|
                0 <= i < profiles.len() && (#[trigger] profiles[i]).id == "silent"@
            &&& exists|i: int|
                0 <= i < profiles.len() && (#[trigger] profiles[i]).id == "balanced"@
            &&& exists|i: int| 0 <= i < profiles.len() && (#[trigger] profiles[i]).id == "turbo"@
            &&& forall|i: int|
                0 <= i < profiles.len() ==> !is_blank((#[trigger] profiles[i]).id)
                    && profile_error(profiles[i]) is None && (profiles[i].builtin
                    <==> profiles[i].id == "silent"@ || profiles[i].id == "balanced"@
                    || profiles[i].id == "turbo"@)
            &&& forall|i: int, j: int|
                0 <= i < j < profiles.len() ==> (#[trigger] profiles[i]).id != (
                #[trigger] profiles[j]).id
        },
{
    lemma_config_error(config);
    let profiles = config.profiles;
    if config_valid(config) {
        assert forall|i: int| 0 <= i < profiles.len() implies !is_blank(
            (#[trigger] profiles[i]).id,
        ) && profile_error(profiles[i]) is None && (profiles[i].builtin <==> profiles[i].id
            == "silent"@ || profiles[i].id == "balanced"@ || profiles[i].id == "turbo"@) by {
            assert(entry_valid(profiles[i]));
        }
    }
}

/// Two configurations with the same model hold the same settings.
pub proof fn law_config_model_is_faithful(a: Config, b: Config)
    requires
        a@ == b@,
    ensures
        a.version == b.version,
        a.active_profile@ == b.active_profile@,
        a.auto_switch_on_power_source == b.auto_switch_on_power_source,
        a.last_profile_on_ac@ == b.last_profile_on_ac@,
        a.last_profile_on_battery@ == b.last_profile_on_battery@,
        a.power_source_debounce_ms == b.power_source_debounce_ms,
        a.show_hud == b.show_hud,
        a.panel_overdrive_always_on == b.panel_overdrive_always_on,
        a.disable_high_power_fan_protection == b.disable_high_power_fan_protection,
        a.profiles@.len() == b.profiles@.len(),
        forall|i: int|
            0 <= i < a.profiles@.len() ==> (#[trigger] a.profiles@[i])@ == b.profiles@[i]@,
{
    assert(a.profiles.deep_view().len() == a.profiles@.len());
    assert(b.profiles.deep_view().len() == b.profiles@.len());
    assert forall|i: int| 0 <= i < a.profiles@.len() implies (#[trigger] a.profiles@[i])@
        == b.profiles@[i]@ by {
        assert(a.profiles.deep_view()[i] == a.profiles@[i]@);
        assert(b.profiles.deep_view()[i] == b.profiles@[i]@);
    }
}

} // verus!
