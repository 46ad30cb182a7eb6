//! The application: applying profiles, factory curves and controller input.

use vstd::prelude::*;

use crate::config::{with_active, Config, ConfigView};
use crate::curve::Curve;
use crate::profile::{Profile, ProfileView};
use crate::protocol::ControllerAction;
use crate::text::{ascending_texts, insert_text, join, joined_with, prefixed, same};
use crate::text_map::distinct_names;
use crate::ui::fans_window::{
    curves_for, factory_curves, law_every_power_profile_has_its_own_curves,
};

verus! {

// ---------------------------------------------------------------------------
// Applying
// ---------------------------------------------------------------------------

/// Lets one apply run at a time and remembers whether another one is due.
#[derive(Clone, Copy, Debug, PartialEq, Eq)]
pub struct ApplyGate {
    applying: bool,
    pending: bool,
}

/// The model of an [`ApplyGate`].
pub struct GateView {
    pub applying: bool,
    pub pending: bool,
}

impl View for ApplyGate {
    type V = GateView;

    closed spec fn view(&self) -> GateView {
        GateView { applying: self.applying, pending: self.pending }
    }
}

impl Default for ApplyGate {
    fn default() -> (result: Self)
        ensures
            result@ == (GateView { applying: false, pending: false }),
    {
        ApplyGate { applying: false, pending: false }
    }
}

impl ApplyGate {
    /// Asks for an apply. Returns whether it starts at once.
    pub fn request(&mut self) -> (result: bool)
        ensures
            result == !old(self)@.applying,
            final(self)@ == (GateView {
                applying: true,
                pending: old(self)@.pending || old(self)@.applying,
            }),
    {
        if self.applying {
            self.pending = true;
            return false;
        }
        self.applying = true;
        true
    }

    /// Ends an apply. Returns whether another one has to be requested.
    pub fn finish(&mut self) -> (result: bool)
        ensures
            result == old(self)@.pending,
            final(self)@ == (GateView { applying: false, pending: false }),
    {
        self.applying = false;
        let again: bool = self.pending;
        self.pending = false;
        again
    }
}

/// Records that the active profile was applied on a power source.
pub fn record_applied(config: &mut Config, on_battery: bool)
    ensures
        final(config)@ == with_active(old(config)@, old(config)@.active_profile, on_battery),
{
    let id: String = config.active_profile.clone();
    config.set_active_for_power_source(id.as_str(), on_battery);
}

/// The report of warnings, if there are any.
pub fn warnings_report(warnings: &Vec<String>) -> (result: Option<String>)
    ensures
        result.deep_view() == (if warnings@.len() == 0 {
            None
        } else {
            Some(joined_with(warnings.deep_view(), " · "@))
        }),
{
    if warnings.len() == 0 {
        None
    } else {
        Some(join(warnings, " · "))
    }
}

// ---------------------------------------------------------------------------
// Configuration
// ---------------------------------------------------------------------------

/// The report about a configuration that could not be loaded.
pub fn locked_report(error: &str) -> (result: String)
    ensures
        result@
            == "Configuration was preserved and locked because it could not be loaded: "@ + error@,
{
    prefixed("Configuration was preserved and locked because it could not be loaded: ", error)
}

/// Why a configuration is not saved: one that could not be loaded is locked.
pub fn save_refusal(writable: bool) -> (result: Option<&'static str>)
    ensures
        match result {
            Some(text) => !writable && text@
                == "Configuration changes cannot be saved until the unsupported file is moved away"@,
            None => writable,
        },
{
    if writable {
        None
    } else {
        Some("Configuration changes cannot be saved until the unsupported file is moved away")
    }
}

/// A built-in profile whose curves are still the bundled ones.
pub open spec fn awaits_curves(profile: ProfileView) -> bool {
    profile.builtin && !profile.factory_fan_curves_loaded && !profile.apply_fan_curve
}

/// Some profile awaits the firmware's curves.
pub open spec fn some_await_curves(profiles: Seq<ProfileView>) -> bool {
    exists|i: int| 0 <= i < profiles.len() && awaits_curves(#[trigger] profiles[i])
}

/// The power profile is that of a profile that awaits the firmware's curves.
pub open spec fn is_awaited(profiles: Seq<ProfileView>, ppd_profile: Seq<char>) -> bool {
    exists|i: int|
        0 <= i < profiles.len() && awaits_curves(#[trigger] profiles[i])
            && profiles[i].ppd_profile == Some(ppd_profile)
}

/// The power profiles whose factory curves have to be read, in their order; none
/// of it if no profile awaits its curves.
pub fn factory_profiles_to_read(config: &Config) -> (result: Option<Vec<String>>)
    ensures
        match result {
            Some(names) => {
                &&& some_await_curves(config@.profiles)
                &&& ascending_texts(names.deep_view())
                &&& forall|name: Seq<char>| #[trigger]
                    names.deep_view().contains(name) == is_awaited(config@.profiles, name)
            },
            None => !some_await_curves(config@.profiles),
        },
{
    let ghost profiles = config@.profiles;
    let mut names: Vec<String> = Vec::new();
    let mut awaited: bool = false;
    let mut i: usize = 0;
    while i < config.profiles.len()
        invariant
            profiles == config.profiles.deep_view(),
            i <= config.profiles@.len(),
            awaited == exists|k: int| 0 <= k < i && awaits_curves(#[trigger] profiles[k]),
            ascending_texts(names.deep_view()),
            forall|name: Seq<char>| #[trigger]
                names.deep_view().contains(name) == is_awaited(profiles.take(i as int), name),
        decreases config.profiles@.len() - i,
    {
        assert(profiles[i as int] == config.profiles@[i as int]@);
        let ghost before = names.deep_view();
        let profile: &Profile = &config.profiles[i];
        if profile.builtin && !profile.factory_fan_curves_loaded && !profile.apply_fan_curve {
            assert(awaits_curves(profiles[i as int]));
            awaited = true;
            if let Some(ppd) = &profile.ppd_profile {
                insert_text(&mut names, ppd.as_str());
            }
        }
        proof {
            let next = profiles.take(i + 1);
            let sofar = profiles.take(i as int);
            assert forall|name: Seq<char>| #[trigger]
                names.deep_view().contains(name) == is_awaited(next, name) by {
                assert(before.contains(name) == is_awaited(sofar, name));
                if is_awaited(sofar, name) {
                    let k = choose|k: int|
                        0 <= k < sofar.len() && awaits_curves(#[trigger] sofar[k])
                            && sofar[k].ppd_profile == Some(name);
                    assert(next[k] == sofar[k]);
                }
                if is_awaited(next, name) {
                    let k = choose|k: int|
                        0 <= k < next.len() && awaits_curves(#[trigger] next[k])
                            && next[k].ppd_profile == Some(name);
                    if k < i {
                        assert(sofar[k] == next[k]);
                    }
                }
                assert(next[i as int] == profiles[i as int]);
            }
        }
        i = i + 1;
    }
    assert(profiles.take(i as int) =~= profiles);
    if awaited {
        Some(names)
    } else {
        None
    }
}

/// A profile with the firmware's curves, if it takes them: only a built-in
/// without a custom curve does.
pub open spec fn seeded(profile: ProfileView, curves: Seq<(String, [Curve; 2])>) -> ProfileView {
    if !profile.builtin || profile.apply_fan_curve {
        profile
    } else {
        match profile.ppd_profile {
            Some(ppd) => match curves_for(curves, ppd) {
                Some(found) => ProfileView {
                    fan_curves: found,
                    factory_fan_curves_loaded: true,
                    ..profile
                },
                None => profile,
            },
            None => profile,
        }
    }
}

fn seed_profile(profile: &mut Profile, curves: &Vec<(String, [Curve; 2])>)
    ensures
        final(profile)@ == seeded(old(profile)@, curves@),
{
    if !profile.builtin || profile.apply_fan_curve {
        return;
    }
    let ppd: String = match &profile.ppd_profile {
        Some(ppd) => ppd.clone(),
        None => {
            return;
        },
    };
    if let Some(found) = factory_curves(curves, ppd.as_str()) {
        profile.fan_curves = found;
        profile.factory_fan_curves_loaded = true;
    }
}

/// Takes over the firmware's curves into the profiles that take them.
pub fn seed_factory_fan_curves(config: &mut Config, curves: &Vec<(String, [Curve; 2])>)
    ensures
        final(config)@ == (ConfigView {
            profiles: old(config)@.profiles.map_values(
                |profile: ProfileView| seeded(profile, curves@),
            ),
            ..old(config)@
        }),
{
    let ghost before = config@;
    let ghost wanted = before.profiles.map_values(|profile: ProfileView| seeded(profile, curves@));
    let mut profiles: Vec<Profile> = Vec::new();
    let mut i: usize = 0;
    while i < config.profiles.len()
        invariant
            config@ == before,
            before.profiles == config.profiles.deep_view(),
            wanted == before.profiles.map_values(|profile: ProfileView| seeded(profile, curves@)),
            i <= config.profiles@.len(),
            profiles.deep_view() == wanted.take(i as int),
        decreases config.profiles@.len() - i,
    {
        assert(before.profiles[i as int] == config.profiles@[i as int]@);
        let ghost sofar = profiles.deep_view();
        let mut profile: Profile = config.profiles[i].clone();
        seed_profile(&mut profile, curves);
        let ghost added = profile@;
        profiles.push(profile);
        assert(profiles.deep_view() =~= sofar.push(added));
        assert(profiles.deep_view() =~= wanted.take(i + 1));
        i = i + 1;
    }
    assert(wanted.take(i as int) =~= wanted);
    config.profiles = profiles;
}

/// Authored curves are never overwritten by the firmware's, and custom profiles
/// are left alone.
pub proof fn law_seeding_keeps_authored_curves(
    profile: ProfileView,
    curves: Seq<(String, [Curve; 2])>,
)
    ensures
        !profile.builtin || profile.apply_fan_curve ==> seeded(profile, curves) == profile,
        seeded(profile, curves) == (ProfileView {
            fan_curves: seeded(profile, curves).fan_curves,
            factory_fan_curves_loaded: seeded(profile, curves).factory_fan_curves_loaded,
            ..profile
        }),
        seeded(seeded(profile, curves), curves) == seeded(profile, curves),
{
}

/// A built-in profile without curves of its own gets the firmware's curves of its
/// policy, wherever they stand in the list, and waits for them no more; one whose
/// policy is not listed stays as it is.
pub proof fn law_seeding_fills_in_the_firmware_curves(
    profile: ProfileView,
    policy: Seq<char>,
    curves: Seq<(String, [Curve; 2])>,
    at: int,
)
    requires
        profile.builtin,
        !profile.apply_fan_curve,
        profile.ppd_profile == Some(policy),
        distinct_names(curves),
    ensures
        0 <= at < curves.len() && curves[at].0@ == policy ==> {
            &&& seeded(profile, curves).fan_curves == curves[at].1
            &&& seeded(profile, curves).factory_fan_curves_loaded
            &&& !awaits_curves(seeded(profile, curves))
        },
        curves.len() == 0 ==> seeded(profile, curves) == profile,
{
    if 0 <= at < curves.len() && curves[at].0@ == policy {
        law_every_power_profile_has_its_own_curves(curves, at);
    }
}

/// The policies to ask the firmware for are those of the built-in profiles that
/// neither have its curves yet nor apply their own.
pub proof fn law_only_untouched_builtins_await_curves(profile: ProfileView)
    ensures
        awaits_curves(profile) <==> profile.builtin && !profile.apply_fan_curve
            && !profile.factory_fan_curves_loaded,
{
}

// ---------------------------------------------------------------------------
// Controller
// ---------------------------------------------------------------------------

/// A direction of the focus.
#[derive(Clone, Copy, Debug, PartialEq, Eq, Structural)]
pub enum FocusMove {
    Up,
    Down,
    Left,
    Right,
    /// The first widget, where none has the focus.
    First,
}

/// What controller input does.
#[derive(Clone, Copy, Debug, PartialEq, Eq, Structural)]
pub enum ControllerCommand {
    Ignore,
    Focus(FocusMove),
    Activate,
    Back,
}

/// What controller input does: nothing while the overlay is hidden or has no
/// current window. Without a focused widget every input but Back focuses the
/// first one.
pub open spec fn command_for(
    action: ControllerAction,
    visible: bool,
    has_window: bool,
    has_focus: bool,
) -> ControllerCommand {
    if !visible || !has_window {
        ControllerCommand::Ignore
    } else if action == ControllerAction::Back {
        ControllerCommand::Back
    } else if !has_focus {
        ControllerCommand::Focus(FocusMove::First)
    } else {
        match action {
            ControllerAction::Up => ControllerCommand::Focus(FocusMove::Up),
            ControllerAction::Down => ControllerCommand::Focus(FocusMove::Down),
            ControllerAction::Left => ControllerCommand::Focus(FocusMove::Left),
            ControllerAction::Right => ControllerCommand::Focus(FocusMove::Right),
            ControllerAction::Accept => ControllerCommand::Activate,
            ControllerAction::Back => ControllerCommand::Back,
        }
    }
}

/// Decides what controller input does.
pub fn handle_controller_action(
    action: ControllerAction,
    visible: bool,
    has_window: bool,
    has_focus: bool,
) -> (result: ControllerCommand)
    ensures
        result == command_for(action, visible, has_window, has_focus),
{
    if !visible || !has_window {
        return ControllerCommand::Ignore;
    }
    match action {
        ControllerAction::Back => ControllerCommand::Back,
        _ if !has_focus => ControllerCommand::Focus(FocusMove::First),
        ControllerAction::Up => ControllerCommand::Focus(FocusMove::Up),
        ControllerAction::Down => ControllerCommand::Focus(FocusMove::Down),
        ControllerAction::Left => ControllerCommand::Focus(FocusMove::Left),
        ControllerAction::Right => ControllerCommand::Focus(FocusMove::Right),
        ControllerAction::Accept => ControllerCommand::Activate,
    }
}

/// A controller does nothing while no window is shown. Else going back always goes
/// back, any other button first finds something to focus, and then each direction
/// moves that way and accepting activates.
pub proof fn law_buttons_do_what_they_say(
    action: ControllerAction,
    visible: bool,
    has_window: bool,
    has_focus: bool,
)
    ensures
        ({
            let shown = visible && has_window;
            let command = command_for(action, visible, has_window, has_focus);
            &&& command is Ignore <==> !shown
            &&& shown ==> (command is Back <==> action == ControllerAction::Back)
            &&& shown && !has_focus && action != ControllerAction::Back ==> command
                == ControllerCommand::Focus(FocusMove::First)
            &&& shown && has_focus ==> {
                &&& command is Activate <==> action == ControllerAction::Accept
                &&& command == ControllerCommand::Focus(FocusMove::Up) <==> action
                    == ControllerAction::Up
                &&& command == ControllerCommand::Focus(FocusMove::Down) <==> action
                    == ControllerAction::Down
                &&& command == ControllerCommand::Focus(FocusMove::Left) <==> action
                    == ControllerAction::Left
                &&& command == ControllerCommand::Focus(FocusMove::Right) <==> action
                    == ControllerAction::Right
            }
        }),
{
}

/// What Back does.
#[derive(Clone, Copy, Debug, PartialEq, Eq, Structural)]
pub enum BackAction {
    CloseDialog,
    CloseWindow,
    ShowMainPage,
    HideWindow,
}

/// Decides what Back does: it closes a dialog, then a further window, then
/// returns to the main page, then hides the window. `page` is the page that is
/// shown, if the window has pages.
pub fn controller_back(in_dialog: bool, is_main: bool, page: Option<&str>) -> (result: BackAction)
    ensures
        result == (if in_dialog {
            BackAction::CloseDialog
        } else if !is_main {
            BackAction::CloseWindow
        } else if page is Some && page->0@ != "main"@ {
            BackAction::ShowMainPage
        } else {
            BackAction::HideWindow
        }),
{
    if in_dialog {
        return BackAction::CloseDialog;
    }
    if !is_main {
        return BackAction::CloseWindow;
    }
    if let Some(name) = page {
        if !same(name, "main") {
            return BackAction::ShowMainPage;
        }
    }
    BackAction::HideWindow
}

} // verus!
