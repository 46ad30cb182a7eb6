//! Finding the displays of a gamescope session.

use vstd::prelude::*;

use crate::text::{
    all_digits, below, joined_with, lower_of, lowers_to, occurs_at, only_digits, path_below,
    prefixed, same, split, split_of, starts_with,
};

verus! {

/// The displays that the overlay uses.
#[derive(Debug, PartialEq, Eq)]
pub struct GamescopeDisplays {
    pub wayland: String,
    pub x11: String,
}

/// The model of [`GamescopeDisplays`].
pub struct DisplaysView {
    pub wayland: Seq<char>,
    pub x11: Seq<char>,
}

impl View for GamescopeDisplays {
    type V = DisplaysView;

    open spec fn view(&self) -> DisplaysView {
        DisplaysView { wayland: self.wayland@, x11: self.x11@ }
    }
}

impl DeepView for GamescopeDisplays {
    type V = DisplaysView;

    open spec fn deep_view(&self) -> DisplaysView {
        self.view()
    }
}

// ---------------------------------------------------------------------------
// Names
// ---------------------------------------------------------------------------

/// Some colon-separated name is gamescope's, whatever its case.
pub open spec fn names_gamescope(value: Seq<char>) -> bool {
    exists|i: int|
        0 <= i < split_of(value, ':').len() && lower_of(#[trigger] split_of(value, ':')[i])
            == "gamescope"@
}

/// Whether a list of desktop names holds gamescope's.
pub fn desktop_names_gamescope(value: &str) -> (result: bool)
    ensures
        result == names_gamescope(value@),
{
    let names: Vec<String> = split(value, ':');
    let mut i: usize = 0;
    while i < names.len()
        invariant
            names.deep_view() == split_of(value@, ':'),
            i <= names@.len(),
            forall|k: int| 0 <= k < i ==> lower_of(#[trigger] split_of(value@, ':')[k])
                != "gamescope"@,
        decreases names@.len() - i,
    {
        assert(names.deep_view()[i as int] == names@[i as int]@);
        if lowers_to(names[i].as_str(), "gamescope") {
            assert(lower_of(split_of(value@, ':')[i as int]) == "gamescope"@);
            return true;
        }
        i = i + 1;
    }
    false
}

/// Whether any of the session's desktop variables names gamescope.
pub fn session_is_gamescope(values: &Vec<String>) -> (result: bool)
    ensures
        result == exists|i: int|
            0 <= i < values@.len() && names_gamescope(#[trigger] values.deep_view()[i]),
{
    let mut i: usize = 0;
    while i < values.len()
        invariant
            i <= values@.len(),
            forall|k: int| 0 <= k < i ==> !names_gamescope(#[trigger] values.deep_view()[k]),
        decreases values@.len() - i,
    {
        assert(values.deep_view()[i as int] == values@[i as int]@);
        if desktop_names_gamescope(values[i].as_str()) {
            return true;
        }
        i = i + 1;
    }
    false
}

/// A name of the form `gamescope-N`.
pub open spec fn is_wayland_name(name: Seq<char>) -> bool {
    &&& occurs_at(name, "gamescope-"@, 0)
    &&& name.len() > 10
    &&& all_digits(name.skip(10))
}

/// Whether a socket name is one of gamescope's.
pub fn gamescope_wayland_name(name: &str) -> (result: bool)
    ensures
        result == is_wayland_name(name@),
{
    let length: usize = name.unicode_len();
    if !starts_with(name, "gamescope-") || length <= 10 {
        return false;
    }
    assert(name@.subrange(10, length as int) =~= name@.skip(10));
    only_digits(name.substring_char(10, length))
}

/// The display of a socket named `XN`.
pub open spec fn display_of(name: Seq<char>) -> Option<Seq<char>> {
    if name.len() > 1 && name[0] == 'X' && all_digits(name.skip(1)) {
        Some(seq![':'] + name.skip(1))
    } else {
        None
    }
}

/// The display that a socket of the X server stands for.
pub fn x11_display_from_socket_name(name: &str) -> (result: Option<String>)
    ensures
        result.deep_view() == display_of(name@),
{
    let length: usize = name.unicode_len();
    if length <= 1 || name.get_char(0) != 'X' {
        return None;
    }
    assert(name@.subrange(1, length as int) =~= name@.skip(1));
    let suffix: &str = name.substring_char(1, length);
    if !only_digits(suffix) {
        return None;
    }
    proof {
        reveal_strlit(":");
        assert(":"@ =~= seq![':']);
    }
    Some(prefixed(":", suffix))
}

/// The name of a display is an ordinary file name: its first component is
/// neither empty nor a step in the tree, and nothing follows it.
pub open spec fn is_plain_name(display: Seq<char>) -> bool {
    let parts = split_of(display, '/');
    &&& parts[0] != Seq::<char>::empty() && parts[0] != "."@ && parts[0] != ".."@
    &&& forall|i: int|
        0 < i < parts.len() ==> #[trigger] parts[i] == Seq::<char>::empty() || parts[i] == "."@
}

fn plain_name(display: &str) -> (result: bool)
    ensures
        result == is_plain_name(display@),
{
    let parts: Vec<String> = split(display, '/');
    assert(parts.deep_view()[0] == parts@[0]@);
    proof {
        reveal_strlit("");
        assert(""@ =~= Seq::<char>::empty());
    }
    let first: &str = parts[0].as_str();
    if same(first, "") || same(first, ".") || same(first, "..") {
        return false;
    }
    let mut i: usize = 1;
    while i < parts.len()
        invariant
            ""@ == Seq::<char>::empty(),
            parts.deep_view() == split_of(display@, '/'),
            1 <= i <= parts@.len(),
            forall|k: int|
                0 < k < i ==> #[trigger] split_of(display@, '/')[k] == Seq::<char>::empty()
                    || split_of(display@, '/')[k] == "."@,
        decreases parts@.len() - i,
    {
        assert(parts.deep_view()[i as int] == parts@[i as int]@);
        if !same(parts[i].as_str(), "") && !same(parts[i].as_str(), ".") {
            return false;
        }
        i = i + 1;
    }
    true
}

/// Where a display's socket lies; nothing for a name that would lead out of the
/// runtime directory.
pub fn socket_path(runtime: &str, display: &str) -> (result: Option<String>)
    ensures
        result.deep_view() == (if is_plain_name(display@) {
            Some(below(runtime@, display@))
        } else {
            None
        }),
{
    if !plain_name(display) {
        return None;
    }
    Some(path_below(runtime, display))
}

/// A display whose name is absolute or climbs out of the runtime directory has
/// no socket path.
pub proof fn law_socket_names_stay_inside(display: Seq<char>)
    requires
        is_plain_name(display),
    ensures
        display.len() > 0,
        display[0] != '/',
        split_of(display, '/')[0] != ".."@,
{
    if display.len() > 0 {
        lemma_first_part(display);
    }
}

proof fn lemma_first_part(text: Seq<char>)
    requires
        text.len() > 0,
    ensures
        text[0] == '/' ==> split_of(text, '/')[0] == Seq::<char>::empty(),
        text[0] == '/' ==> split_of(text, '/').len() >= 2,
    decreases text.len(),
{
    if text.len() == 1 {
        assert(text.drop_last().len() == 0);
        assert(split_of(text.drop_last(), '/') =~= seq![Seq::<char>::empty()]);
    } else {
        assert(text.drop_last()[0] == text[0]);
        lemma_first_part(text.drop_last());
    }
}

// ---------------------------------------------------------------------------
// Discovery
// ---------------------------------------------------------------------------

/// The only value of a list, if it holds exactly one.
pub fn exactly_one<T>(values: Vec<T>) -> (result: Option<T>)
    ensures
        result == (if values@.len() == 1 {
            Some(values@[0])
        } else {
            None
        }),
{
    let mut rest: Vec<T> = values;
    if rest.len() == 1 {
        rest.pop()
    } else {
        None
    }
}

/// An entry of a directory: its name and whether it is a socket.
#[derive(Debug, PartialEq, Eq)]
pub struct DirectoryEntry {
    pub name: String,
    pub is_socket: bool,
}

/// The names of gamescope's sockets in a directory.
pub open spec fn wayland_sockets(entries: Seq<DirectoryEntry>) -> Seq<Seq<char>>
    decreases entries.len(),
{
    if entries.len() == 0 {
        Seq::empty()
    } else {
        let rest = wayland_sockets(entries.drop_last());
        if is_wayland_name(entries.last().name@) && entries.last().is_socket {
            rest.push(entries.last().name@)
        } else {
            rest
        }
    }
}

/// The gamescope socket of a runtime directory, if there is exactly one.
pub fn discover_gamescope_wayland(entries: &Vec<DirectoryEntry>) -> (result: Option<String>)
    ensures
        result.deep_view() == (if wayland_sockets(entries@).len() == 1 {
            Some(wayland_sockets(entries@)[0])
        } else {
            None
        }),
{
    let mut names: Vec<String> = Vec::new();
    let mut i: usize = 0;
    assert(names.deep_view() =~= wayland_sockets(entries@.take(0)));
    while i < entries.len()
        invariant
            i <= entries@.len(),
            names.deep_view() == wayland_sockets(entries@.take(i as int)),
        decreases entries@.len() - i,
    {
        let ghost before = names.deep_view();
        assert(entries@.take(i + 1).drop_last() =~= entries@.take(i as int));
        if gamescope_wayland_name(entries[i].name.as_str()) && entries[i].is_socket {
            names.push(entries[i].name.clone());
            assert(names.deep_view() =~= before.push(entries@[i as int].name@));
        }
        i = i + 1;
    }
    assert(entries@.take(i as int) =~= entries@);
    assert(names@.len() == 1 ==> names.deep_view()[0] == names@[0]@);
    exactly_one(names)
}

/// The displays of the X servers with a socket in a directory.
pub open spec fn x11_sockets(entries: Seq<DirectoryEntry>) -> Seq<Seq<char>>
    decreases entries.len(),
{
    if entries.len() == 0 {
        Seq::empty()
    } else {
        let rest = x11_sockets(entries.drop_last());
        match display_of(entries.last().name@) {
            Some(display) => if entries.last().is_socket {
                rest.push(display)
            } else {
                rest
            },
            None => rest,
        }
    }
}

/// The displays of the X servers with a socket in a directory.
pub fn x11_displays(entries: &Vec<DirectoryEntry>) -> (result: Vec<String>)
    ensures
        result.deep_view() == x11_sockets(entries@),
{
    let mut displays: Vec<String> = Vec::new();
    let mut i: usize = 0;
    assert(displays.deep_view() =~= x11_sockets(entries@.take(0)));
    while i < entries.len()
        invariant
            i <= entries@.len(),
            displays.deep_view() == x11_sockets(entries@.take(i as int)),
        decreases entries@.len() - i,
    {
        let ghost before = displays.deep_view();
        assert(entries@.take(i + 1).drop_last() =~= entries@.take(i as int));
        if entries[i].is_socket {
            if let Some(display) = x11_display_from_socket_name(entries[i].name.as_str()) {
                let ghost found = display@;
                displays.push(display);
                assert(displays.deep_view() =~= before.push(found));
            }
        }
        i = i + 1;
    }
    assert(entries@.take(i as int) =~= entries@);
    displays
}

/// The X server's answer to the question for its gamescope server id: a property
/// of 32-bit cardinals, whose first value is the id.
pub fn gamescope_xwayland_server_id(format: u8, is_cardinal: bool, first: Option<u32>) -> (result:
    Option<u32>)
    ensures
        result == (if format == 32 && is_cardinal {
            first
        } else {
            None
        }),
{
    if format == 32 && is_cardinal {
        first
    } else {
        None
    }
}

/// The displays whose server is gamescope's first one.
pub open spec fn primary_displays(displays: Seq<(String, Option<u32>)>) -> Seq<Seq<char>>
    decreases displays.len(),
{
    if displays.len() == 0 {
        Seq::empty()
    } else {
        let rest = primary_displays(displays.drop_last());
        if displays.last().1 == Some(0u32) {
            rest.push(displays.last().0@)
        } else {
            rest
        }
    }
}

/// The display of gamescope's first X server, given the server id that each
/// display reports; nothing unless it is unique.
pub fn select_primary_x11_display(displays: &Vec<(String, Option<u32>)>) -> (result: Option<String>)
    ensures
        result.deep_view() == (if primary_displays(displays@).len() == 1 {
            Some(primary_displays(displays@)[0])
        } else {
            None
        }),
{
    let mut names: Vec<String> = Vec::new();
    let mut i: usize = 0;
    assert(names.deep_view() =~= primary_displays(displays@.take(0)));
    while i < displays.len()
        invariant
            i <= displays@.len(),
            names.deep_view() == primary_displays(displays@.take(i as int)),
        decreases displays@.len() - i,
    {
        let ghost before = names.deep_view();
        assert(displays@.take(i + 1).drop_last() =~= displays@.take(i as int));
        let primary: bool = match displays[i].1 {
            Some(id) => id == 0,
            None => false,
        };
        if primary {
            names.push(displays[i].0.clone());
            assert(names.deep_view() =~= before.push(displays@[i as int].0@));
        }
        i = i + 1;
    }
    assert(displays@.take(i as int) =~= displays@);
    assert(names@.len() == 1 ==> names.deep_view()[0] == names@[0]@);
    exactly_one(names)
}

// ---------------------------------------------------------------------------
// Resolution
// ---------------------------------------------------------------------------

/// What has to be found out next.
#[derive(Debug, PartialEq, Eq)]
pub enum DisplayStep {
    /// Look for a gamescope socket in the runtime directory.
    FindWayland,
    /// Look for gamescope's first X server.
    FindX11 { wayland: String },
    Done(Option<GamescopeDisplays>),
}

/// The displays that a session resolves to.
///
/// An advertised socket is taken if it is one; else a gamescope session is
/// searched for its socket. A display that was inherited from an earlier session
/// may still be advertised, so it is trusted only beside an advertised socket.
pub open spec fn resolved(
    has_runtime: bool,
    advertised_wayland: Option<Seq<char>>,
    advertised_x11: Option<Seq<char>>,
    session_is_gamescope: bool,
    found_wayland: Option<Seq<char>>,
    found_x11: Option<Seq<char>>,
) -> Option<DisplaysView> {
    if !has_runtime {
        None
    } else {
        let wayland = if advertised_wayland is Some {
            advertised_wayland
        } else if session_is_gamescope {
            found_wayland
        } else {
            None
        };
        let x11 = if advertised_wayland is Some && advertised_x11 is Some {
            advertised_x11
        } else {
            found_x11
        };
        match (wayland, x11) {
            (Some(wayland), Some(x11)) => Some(DisplaysView { wayland, x11 }),
            _ => None,
        }
    }
}

/// The displays that a step leads to, given what the searches would find.
pub open spec fn leads_to(
    step: DisplayStep,
    found_wayland: Option<Seq<char>>,
    found_x11: Option<Seq<char>>,
) -> Option<DisplaysView> {
    match step {
        DisplayStep::Done(displays) => displays.deep_view(),
        DisplayStep::FindX11 { wayland } => match found_x11 {
            Some(x11) => Some(DisplaysView { wayland: wayland@, x11 }),
            None => None,
        },
        DisplayStep::FindWayland => match (found_wayland, found_x11) {
            (Some(wayland), Some(x11)) => Some(DisplaysView { wayland, x11 }),
            _ => None,
        },
    }
}

/// Starts resolving the displays. `advertised_wayland` is the advertised name if
/// it is that of a socket.
pub fn start_resolving(
    has_runtime: bool,
    advertised_wayland: Option<String>,
    advertised_x11: Option<String>,
    session_is_gamescope: bool,
) -> (result: DisplayStep)
    ensures
        forall|found_wayland: Option<Seq<char>>, found_x11: Option<Seq<char>>| #[trigger]
            leads_to(result, found_wayland, found_x11) == resolved(
                has_runtime,
                advertised_wayland.deep_view(),
                advertised_x11.deep_view(),
                session_is_gamescope,
                found_wayland,
                found_x11,
            ),
        result is FindWayland ==> has_runtime && advertised_wayland is None
            && session_is_gamescope,
        result is FindX11 ==> has_runtime && advertised_wayland is Some && advertised_x11 is None,
{
    if !has_runtime {
        return DisplayStep::Done(None);
    }
    match advertised_wayland {
        Some(wayland) => match advertised_x11 {
            Some(x11) => {
                let displays = GamescopeDisplays { wayland, x11 };
                assert(Some(displays).deep_view() == Some(displays@));
                DisplayStep::Done(Some(displays))
            },
            None => DisplayStep::FindX11 { wayland },
        },
        None => {
            if session_is_gamescope {
                DisplayStep::FindWayland
            } else {
                DisplayStep::Done(None)
            }
        },
    }
}

/// Continues with what the search for a socket gave.
pub fn wayland_found(found: Option<String>) -> (result: DisplayStep)
    ensures
        match found {
            Some(wayland) => result == (DisplayStep::FindX11 { wayland }),
            None => result == DisplayStep::Done(None),
        },
{
    match found {
        Some(wayland) => DisplayStep::FindX11 { wayland },
        None => DisplayStep::Done(None),
    }
}

/// Finishes with what the search for an X server gave.
pub fn x11_found(wayland: String, found: Option<String>) -> (result: Option<GamescopeDisplays>)
    ensures
        match found {
            Some(x11) => result matches Some(displays) && displays == (GamescopeDisplays {
                wayland,
                x11,
            }),
            None => result is None,
        },
{
    match found {
        Some(x11) => Some(GamescopeDisplays { wayland, x11 }),
        None => None,
    }
}

/// Resolves the displays of a session whose searches are done.
pub fn resolve_gamescope_displays(
    has_runtime: bool,
    advertised_wayland: Option<String>,
    advertised_x11: Option<String>,
    session_is_gamescope: bool,
    found_wayland: Option<String>,
    found_x11: Option<String>,
) -> (result: Option<GamescopeDisplays>)
    ensures
        result.deep_view() == resolved(
            has_runtime,
            advertised_wayland.deep_view(),
            advertised_x11.deep_view(),
            session_is_gamescope,
            found_wayland.deep_view(),
            found_x11.deep_view(),
        ),
{
    let step: DisplayStep = start_resolving(
        has_runtime,
        advertised_wayland,
        advertised_x11,
        session_is_gamescope,
    );
    assert(leads_to(step, found_wayland.deep_view(), found_x11.deep_view()) == resolved(
        has_runtime,
        advertised_wayland.deep_view(),
        advertised_x11.deep_view(),
        session_is_gamescope,
        found_wayland.deep_view(),
        found_x11.deep_view(),
    ));
    let next: DisplayStep = match step {
        DisplayStep::FindWayland => wayland_found(found_wayland),
        other => other,
    };
    match next {
        DisplayStep::FindX11 { wayland } => x11_found(wayland, found_x11),
        DisplayStep::Done(displays) => displays,
        DisplayStep::FindWayland => None,
    }
}

/// An ordinary desktop never adopts displays that were found: without an
/// advertised socket only a gamescope session resolves to displays, and what is
/// advertised for the X server is not used there.
pub proof fn law_ordinary_desktops_adopt_nothing(
    has_runtime: bool,
    advertised_x11: Option<Seq<char>>,
    other_x11: Option<Seq<char>>,
    found_wayland: Option<Seq<char>>,
    found_x11: Option<Seq<char>>,
)
    ensures
        resolved(has_runtime, None, advertised_x11, false, found_wayland, found_x11) is None,
        resolved(has_runtime, None, advertised_x11, true, found_wayland, found_x11) == resolved(
            has_runtime,
            None,
            other_x11,
            true,
            found_wayland,
            found_x11,
        ),
{
}

/// Displays that the environment names are taken as they are; a display that it does
/// not name is the one that was found, the compositor's own only within its session.
pub proof fn law_named_displays_come_first(
    wayland: Seq<char>,
    x11: Seq<char>,
    named_x11: Option<Seq<char>>,
    in_session: bool,
    found_wayland: Option<Seq<char>>,
    found_x11: Option<Seq<char>>,
)
    ensures
        resolved(true, Some(wayland), Some(x11), in_session, found_wayland, found_x11) == Some(
            DisplaysView { wayland, x11 },
        ),
        resolved(true, Some(wayland), None, in_session, found_wayland, Some(x11)) == Some(
            DisplaysView { wayland, x11 },
        ),
        resolved(true, None, named_x11, true, Some(wayland), Some(x11)) == Some(
            DisplaysView { wayland, x11 },
        ),
        resolved(true, Some(wayland), None, in_session, found_wayland, None) is None,
        resolved(true, None, named_x11, true, None, found_x11) is None,
        resolved(true, None, named_x11, true, found_wayland, None) is None,
        resolved(false, Some(wayland), named_x11, in_session, found_wayland, found_x11) is None,
{
}

/// The sockets of the compositor bear its name and a number, those of an X server a
/// number behind an `X`, which is its display.
pub proof fn law_sockets_are_told_by_their_names(digits: Seq<char>)
    requires
        digits.len() > 0,
        all_digits(digits),
    ensures
        is_wayland_name("gamescope-"@ + digits),
        display_of(seq!['X'] + digits) == Some(seq![':'] + digits),
{
    reveal_strlit("gamescope-");
    let name = "gamescope-"@ + digits;
    assert(name.skip(10) =~= digits);
    assert(name.subrange(0, 10) =~= "gamescope-"@);
    assert((seq!['X'] + digits).skip(1) =~= digits);
}

/// The sockets that count are exactly those entries that are sockets and bear such a
/// name, and the primary displays those of the server with number zero, in their
/// order.
pub proof fn law_sockets_are_filtered(
    entries: Seq<DirectoryEntry>,
    displays: Seq<(String, Option<u32>)>,
)
    ensures
        wayland_sockets(entries) == entries.filter(
            |entry: DirectoryEntry| entry.is_socket && is_wayland_name(entry.name@),
        ).map_values(|entry: DirectoryEntry| entry.name@),
        x11_sockets(entries) == entries.filter(
            |entry: DirectoryEntry| entry.is_socket && display_of(entry.name@) is Some,
        ).map_values(|entry: DirectoryEntry| display_of(entry.name@)->0),
        primary_displays(displays) == displays.filter(
            |entry: (String, Option<u32>)| entry.1 == Some(0u32),
        ).map_values(|entry: (String, Option<u32>)| entry.0@),
    decreases entries.len() + displays.len(),
{
    reveal(Seq::filter);
    let is_wayland = |entry: DirectoryEntry| entry.is_socket && is_wayland_name(entry.name@);
    let is_x11 = |entry: DirectoryEntry| entry.is_socket && display_of(entry.name@) is Some;
    let is_primary = |entry: (String, Option<u32>)| entry.1 == Some(0u32);
    let fewer = if entries.len() > 0 {
        entries.drop_last()
    } else {
        entries
    };
    let less = if displays.len() > 0 {
        displays.drop_last()
    } else {
        displays
    };
    if entries.len() > 0 || displays.len() > 0 {
        law_sockets_are_filtered(fewer, less);
    }
    if entries.len() > 0 {
        if is_wayland(entries.last()) {
            assert(entries.filter(is_wayland) == fewer.filter(is_wayland).push(entries.last()));
        } else {
            assert(entries.filter(is_wayland) == fewer.filter(is_wayland));
        }
        if is_x11(entries.last()) {
            assert(entries.filter(is_x11) == fewer.filter(is_x11).push(entries.last()));
        } else {
            assert(entries.filter(is_x11) == fewer.filter(is_x11));
        }
    }
    if displays.len() > 0 {
        if is_primary(displays.last()) {
            assert(displays.filter(is_primary) == less.filter(is_primary).push(displays.last()));
        } else {
            assert(displays.filter(is_primary) == less.filter(is_primary));
        }
    }
    assert(wayland_sockets(entries) =~= entries.filter(is_wayland).map_values(
        |entry: DirectoryEntry| entry.name@,
    ));
    assert(x11_sockets(entries) =~= entries.filter(is_x11).map_values(
        |entry: DirectoryEntry| display_of(entry.name@)->0,
    ));
    assert(primary_displays(displays) =~= displays.filter(is_primary).map_values(
        |entry: (String, Option<u32>)| entry.0@,
    ));
}

/// A desktop is the compositor's exactly if one of its names, which colons separate,
/// is the compositor's in either case.
pub proof fn law_desktops_are_told_by_their_names(names: Seq<Seq<char>>)
    requires
        names.len() > 0,
        forall|i: int| 0 <= i < names.len() ==> !(#[trigger] names[i]).contains(':'),
    ensures
        names_gamescope(joined_with(names, seq![':'])) <==> exists|i: int|
            0 <= i < names.len() && lower_of(#[trigger] names[i]) == "gamescope"@,
{
    crate::text::law_joining_is_undone_by_splitting(names, ':');
}

/// Each step of the search leads on with what was found and ends without it.
pub proof fn law_search_ends_without_a_display(
    wayland: String,
    found: Option<Seq<char>>,
    x11: Seq<char>,
)
    ensures
        leads_to(DisplayStep::FindX11 { wayland }, found, Some(x11)) == Some(
            DisplaysView { wayland: wayland@, x11 },
        ),
        leads_to(DisplayStep::FindX11 { wayland }, found, None) is None,
        leads_to(DisplayStep::FindWayland, Some(wayland@), Some(x11)) == Some(
            DisplaysView { wayland: wayland@, x11 },
        ),
        leads_to(DisplayStep::FindWayland, None, Some(x11)) is None,
        leads_to(DisplayStep::Done(None), found, Some(x11)) is None,
{
}

} // verus!
