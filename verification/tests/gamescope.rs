use z13helper::gamescope::displays::{
    desktop_names_gamescope, discover_gamescope_wayland, exactly_one, gamescope_wayland_name,
    gamescope_xwayland_server_id, resolve_gamescope_displays, select_primary_x11_display,
    session_is_gamescope, socket_path, start_resolving, wayland_found, x11_display_from_socket_name,
    x11_displays, x11_found, DirectoryEntry, DisplayStep, GamescopeDisplays,
};
use z13helper::gamescope::overlay::Gamescope;
use z13helper::gamescope::windows::{
    apply_snapshot, StateMailbox, WindowSet, WindowState, X11Call,
};

fn entry(name: &str, is_socket: bool) -> DirectoryEntry {
    DirectoryEntry {
        name: name.into(),
        is_socket,
    }
}

#[test]
fn socket_name_stays_inside_runtime_directory() {
    let runtime = "/run/user/1000";
    assert_eq!(
        socket_path(runtime, "gamescope-0").as_deref(),
        Some("/run/user/1000/gamescope-0")
    );
    for invalid in ["", "../gamescope-0", "/tmp/gamescope-0", "a/b"] {
        assert_eq!(socket_path(runtime, invalid), None);
    }
}

#[test]
fn gamescope_session_discovers_displays_when_environment_file_is_absent() {
    let found = discover_gamescope_wayland(&vec![
        entry("gamescope-0", true),
        entry("gamescope-0.lock", false),
        entry("wayland-0", true),
    ]);
    let displays = resolve_gamescope_displays(true, None, None, true, found, Some(":0".into()));
    assert_eq!(
        displays,
        Some(GamescopeDisplays {
            wayland: "gamescope-0".into(),
            x11: ":0".into(),
        })
    );
}

#[test]
fn ordinary_desktop_does_not_adopt_discovered_gamescope_displays() {
    let displays = resolve_gamescope_displays(
        true,
        None,
        Some(":2".into()),
        false,
        Some("gamescope-0".into()),
        Some(":0".into()),
    );
    assert_eq!(displays, None);
}

#[test]
fn gamescope_desktop_marker_accepts_colon_separated_names() {
    assert!(desktop_names_gamescope("gamescope"));
    assert!(desktop_names_gamescope("KDE:gamescope"));
    assert!(!desktop_names_gamescope("KDE"));
    assert!(!desktop_names_gamescope("gamescope-session"));
    assert!(session_is_gamescope(&vec!["KDE".into(), "gamescope".into()]));
    assert!(!session_is_gamescope(&Vec::new()));
}

#[test]
fn primary_xwayland_discovery_requires_one_gamescope_server_zero() {
    let with = |first: Option<u32>, second: Option<u32>| {
        vec![(":0".to_owned(), first), (":1".to_owned(), second)]
    };
    assert_eq!(
        select_primary_x11_display(&with(Some(0), None)).as_deref(),
        Some(":0")
    );
    assert_eq!(select_primary_x11_display(&with(Some(0), Some(0))), None);
    assert_eq!(select_primary_x11_display(&with(Some(1), None)), None);
    assert_eq!(gamescope_xwayland_server_id(32, true, Some(0)), Some(0));
    assert_eq!(gamescope_xwayland_server_id(8, true, Some(0)), None);
    assert_eq!(gamescope_xwayland_server_id(32, false, Some(0)), None);
}

#[test]
fn x11_socket_names_are_restricted_to_numeric_displays() {
    assert_eq!(x11_display_from_socket_name("X12").as_deref(), Some(":12"));
    for invalid in ["X", "Xfoo", "X1-lock", "gamescope-0"] {
        assert_eq!(x11_display_from_socket_name(invalid), None);
    }
    assert_eq!(
        x11_displays(&vec![entry("X0", true), entry("X1", false), entry("Y0", true)]),
        [":0"]
    );
}

#[test]
fn advertised_displays_are_taken_as_they_are() {
    assert_eq!(
        start_resolving(true, Some("gamescope-1".into()), Some(":3".into()), false),
        DisplayStep::Done(Some(GamescopeDisplays {
            wayland: "gamescope-1".into(),
            x11: ":3".into(),
        }))
    );
    assert_eq!(
        start_resolving(true, None, None, true),
        DisplayStep::FindWayland
    );
    assert_eq!(
        wayland_found(Some("gamescope-0".into())),
        DisplayStep::FindX11 {
            wayland: "gamescope-0".into()
        }
    );
    assert_eq!(wayland_found(None), DisplayStep::Done(None));
    assert_eq!(x11_found("gamescope-0".into(), None), None);
    assert_eq!(exactly_one(vec![1]), Some(1));
    assert_eq!(exactly_one(vec![1, 2]), None);
    assert!(gamescope_wayland_name("gamescope-0"));
    assert!(!gamescope_wayland_name("gamescope-x"));
}

fn state(xid: u32, active: bool) -> WindowState {
    WindowState {
        xid,
        active,
        mapped: true,
        external_overlay: false,
    }
}

fn written(calls: Vec<X11Call>) -> Vec<String> {
    calls
        .iter()
        .map(|call| match call {
            X11Call::Overlay { xid, external } => format!("overlay:{xid}:{external}"),
            X11Call::InputFocus { xid, focused } => format!("focus:{xid}:{focused}"),
            X11Call::Opacity { xid, opacity } => format!("opacity:{xid}:{opacity}"),
            X11Call::Flush => "flush".to_owned(),
        })
        .collect()
}

fn run(mailbox: &mut StateMailbox, applied: &mut WindowSet) -> Vec<String> {
    let snapshot = mailbox.take().expect("a snapshot is pending");
    written(apply_snapshot(applied, &snapshot))
}

#[test]
fn gtk_facing_mailbox_submit_does_not_run_x11_io_and_coalesces() {
    let mut mailbox = StateMailbox::new();
    let mut applied = WindowSet::new();
    assert!(mailbox.submit(&[state(7, true)]));
    let first = run(&mut mailbox, &mut applied);
    assert_eq!(
        &first[..3],
        ["overlay:7:false", "opacity:7:4294967295", "focus:7:true"]
    );
    assert!(mailbox.submit(&[state(9, false)]));
    let second = run(&mut mailbox, &mut applied);
    assert_eq!(second.last().unwrap(), "flush");
    assert!(second[..second.len() - 1].ends_with(&[
        "overlay:9:false".to_string(),
        "focus:9:false".to_string(),
        "opacity:9:0".to_string()
    ]));
    assert!(mailbox.take().is_none());
}

#[test]
fn hidden_window_clears_input_before_opacity_and_stays_mapped() {
    let mut mailbox = StateMailbox::new();
    let mut applied = WindowSet::new();
    mailbox.submit(&[state(11, true)]);
    run(&mut mailbox, &mut applied);
    mailbox.submit(&[state(11, false)]);
    assert_eq!(
        run(&mut mailbox, &mut applied),
        ["overlay:11:false", "focus:11:false", "opacity:11:0", "flush"]
    );
}

#[test]
fn coalesced_hide_show_still_clears_focus_before_showing_again() {
    let mut mailbox = StateMailbox::new();
    let mut applied = WindowSet::new();
    let active = state(21, true);
    mailbox.submit(&[active]);
    run(&mut mailbox, &mut applied);
    mailbox.submit(&[WindowState {
        active: false,
        ..active
    }]);
    mailbox.submit(&[active]);
    let operations = run(&mut mailbox, &mut applied);
    assert_eq!(
        &operations[0..3],
        ["overlay:21:false", "focus:21:false", "opacity:21:0"]
    );
    assert_eq!(
        &operations[3..6],
        ["overlay:21:false", "opacity:21:4294967295", "focus:21:true"]
    );
}

#[test]
fn brand_new_inactive_window_is_explicitly_hidden_and_mapped() {
    let mut mailbox = StateMailbox::new();
    let mut applied = WindowSet::new();
    let hidden = state(31, false);
    mailbox.submit(&[hidden]);
    assert_eq!(
        run(&mut mailbox, &mut applied),
        ["overlay:31:false", "focus:31:false", "opacity:31:0", "flush"]
    );
    assert!(hidden.mapped);
    assert!(!hidden.active);
}

#[test]
fn closed_mailboxes_take_nothing() {
    let mut mailbox = StateMailbox::new();
    assert!(mailbox.submit(&[state(1, true)]));
    assert!(mailbox.has_pending_state());
    mailbox.close();
    assert!(mailbox.is_closed());
    assert!(!mailbox.submit(&[state(2, true)]));
    assert_eq!(mailbox.take().unwrap().states, [state(1, true)]);
    assert!(mailbox.take().is_none());
}

#[test]
fn departed_windows_are_hidden() {
    let mut mailbox = StateMailbox::new();
    let mut applied = WindowSet::new();
    mailbox.submit(&[state(1, true), state(2, false)]);
    run(&mut mailbox, &mut applied);
    mailbox.submit(&[state(2, false)]);
    let calls = run(&mut mailbox, &mut applied);
    assert!(calls.contains(&"focus:1:false".to_owned()));
    assert!(calls.contains(&"opacity:1:0".to_owned()));
    mailbox.submit(&[state(2, false)]);
    assert_eq!(run(&mut mailbox, &mut applied), ["flush"]);
}

#[test]
fn overlays_of_others_get_no_input() {
    let mut mailbox = StateMailbox::new();
    let mut applied = WindowSet::new();
    mailbox.submit(&[WindowState {
        external_overlay: true,
        ..state(5, true)
    }]);
    let calls = run(&mut mailbox, &mut applied);
    assert!(calls.contains(&"overlay:5:true".to_owned()));
    assert!(!calls.contains(&"focus:5:true".to_owned()));
}

#[test]
fn window_sets_keep_one_state_per_window() {
    let mut set = WindowSet::of(&[state(1, true), state(2, true), state(1, false)]);
    assert_eq!(set.get(1), Some(state(1, false)));
    set.insert(state(2, false));
    assert_eq!(set.get(2), Some(state(2, false)));
    set.remove(1);
    assert_eq!(set.get(1), None);
}

#[test]
fn only_the_current_window_takes_input() {
    let mut overlay = Gamescope::new();
    overlay.prepare_main(1, true);
    overlay.show_auxiliary(2);
    overlay.register_hud(3);
    assert_eq!(overlay.current_window(), Some(2));
    let states = overlay.sync_windows(&vec![(1, 10), (2, 20), (3, 30)]);
    let active: Vec<u32> = states
        .iter()
        .filter(|state| state.active && !state.external_overlay)
        .map(|state| state.xid)
        .collect();
    assert_eq!(active, [20]);
    overlay.hide_auxiliary(2);
    assert_eq!(overlay.current_window(), Some(1));
    overlay.conceal();
    assert!(overlay
        .sync_windows(&vec![(1, 10), (2, 20)])
        .iter()
        .all(|state| !state.active && state.mapped));
    overlay.show();
    overlay.close_auxiliary(2);
    overlay.close_hud(3);
    overlay.prune(&vec![1]);
    assert_eq!(overlay.sync_windows(&vec![(1, 10), (2, 20), (3, 30)]).len(), 1);
}

#[test]
fn socket_names_are_judged_as_the_path_library_does() {
    let runtime = "/run/user/1000";
    for display in [
        "x", "x/", "x/.", "x//", "x/./", "./x", ".", "..", "", "/", "//x", "x/y", "x/..", "..x",
        "x.", "/x", " ",
    ] {
        let mut components = std::path::Path::new(display).components();
        let expected = match (components.next(), components.next()) {
            (Some(std::path::Component::Normal(_)), None) => Some(
                std::path::Path::new(runtime)
                    .join(display)
                    .into_os_string()
                    .into_string()
                    .unwrap(),
            ),
            _ => None,
        };
        assert_eq!(socket_path(runtime, display), expected, "{display:?}");
    }
}
