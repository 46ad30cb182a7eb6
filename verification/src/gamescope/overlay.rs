//! Which of the overlay's windows is current, and what they shall be.
//!
//! A window is known by a number that its toolkit gives it; its X identifier
//! exists only while it is realised.

use vstd::prelude::*;

use crate::gamescope::windows::WindowState;

verus! {

/// A window that takes part in the overlay.
#[derive(Clone, Copy, Debug, PartialEq, Eq, Structural)]
pub struct RegisteredWindow {
    pub window: u64,
    pub hidden: bool,
}

/// The windows of the overlay.
#[derive(Debug)]
pub struct Gamescope {
    windows: Vec<RegisteredWindow>,
    hud_windows: Vec<u64>,
    current: Option<u64>,
    visible: bool,
}

/// The model of [`Gamescope`].
pub struct OverlayView {
    pub windows: Seq<RegisteredWindow>,
    pub hud_windows: Seq<u64>,
    pub current: Option<u64>,
    pub visible: bool,
}

impl View for Gamescope {
    type V = OverlayView;

    closed spec fn view(&self) -> OverlayView {
        OverlayView {
            windows: self.windows@,
            hud_windows: self.hud_windows@,
            current: self.current,
            visible: self.visible,
        }
    }
}

/// Each window once.
pub open spec fn distinct(windows: Seq<RegisteredWindow>) -> bool {
    forall|i: int, j: int|
        0 <= i < j < windows.len() ==> (#[trigger] windows[i]).window != (
        #[trigger] windows[j]).window
}

/// The windows that are still alive.
pub open spec fn living(windows: Seq<RegisteredWindow>, alive: Seq<u64>) -> Seq<RegisteredWindow>
    decreases windows.len(),
{
    if windows.len() == 0 {
        windows
    } else {
        let rest = living(windows.drop_last(), alive);
        if alive.contains(windows.last().window) {
            rest.push(windows.last())
        } else {
            rest
        }
    }
}

/// The numbers that are still alive.
pub open spec fn living_numbers(numbers: Seq<u64>, alive: Seq<u64>) -> Seq<u64>
    decreases numbers.len(),
{
    if numbers.len() == 0 {
        numbers
    } else {
        let rest = living_numbers(numbers.drop_last(), alive);
        if alive.contains(numbers.last()) {
            rest.push(numbers.last())
        } else {
            rest
        }
    }
}

/// The windows with one that is marked; a new one comes last.
pub open spec fn marked(windows: Seq<RegisteredWindow>, window: u64, hidden: bool) -> Seq<
    RegisteredWindow,
>
    decreases windows.len(),
{
    if windows.len() == 0 {
        seq![RegisteredWindow { window, hidden }]
    } else if windows[0].window == window {
        windows.update(0, RegisteredWindow { window, hidden })
    } else {
        seq![windows[0]] + marked(windows.drop_first(), window, hidden)
    }
}

/// The window is registered.
pub open spec fn is_registered(windows: Seq<RegisteredWindow>, window: u64) -> bool {
    exists|i: int| 0 <= i < windows.len() && (#[trigger] windows[i]).window == window
}

/// The windows without one.
pub open spec fn unregistered(windows: Seq<RegisteredWindow>, window: u64) -> Seq<RegisteredWindow>
    decreases windows.len(),
{
    if windows.len() == 0 {
        windows
    } else {
        let rest = unregistered(windows.drop_last(), window);
        if windows.last().window != window {
            rest.push(windows.last())
        } else {
            rest
        }
    }
}

/// The numbers without one.
pub open spec fn dropped(numbers: Seq<u64>, number: u64) -> Seq<u64>
    decreases numbers.len(),
{
    if numbers.len() == 0 {
        numbers
    } else {
        let rest = dropped(numbers.drop_last(), number);
        if numbers.last() != number {
            rest.push(numbers.last())
        } else {
            rest
        }
    }
}

/// The window that was registered last and is not hidden.
pub open spec fn topmost(windows: Seq<RegisteredWindow>) -> Option<u64>
    decreases windows.len(),
{
    if windows.len() == 0 {
        None
    } else if !windows.last().hidden {
        Some(windows.last().window)
    } else {
        topmost(windows.drop_last())
    }
}

/// The X identifier of a window, if it is realised.
pub open spec fn xid_of(xids: Seq<(u64, u32)>, window: u64) -> Option<u32>
    decreases xids.len(),
{
    if xids.len() == 0 {
        None
    } else if xids[0].0 == window {
        Some(xids[0].1)
    } else {
        xid_of(xids.drop_first(), window)
    }
}

impl OverlayView {
    /// The overlay without the windows that are gone.
    pub open spec fn pruned(self, alive: Seq<u64>) -> OverlayView {
        OverlayView {
            windows: living(self.windows, alive),
            hud_windows: living_numbers(self.hud_windows, alive),
            current: match self.current {
                Some(window) => if alive.contains(window) {
                    Some(window)
                } else {
                    None
                },
                None => None,
            },
            ..self
        }
    }

    /// The overlay after a window was registered and made current.
    pub open spec fn presented(self, window: u64) -> OverlayView {
        OverlayView {
            windows: marked(self.windows, window, false),
            current: Some(window),
            ..self
        }
    }

    /// The overlay after a window was hidden: if it was current, the topmost one
    /// that is not hidden takes its place.
    pub open spec fn hidden(self, window: u64) -> OverlayView {
        let windows = if is_registered(self.windows, window) {
            marked(self.windows, window, true)
        } else {
            self.windows
        };
        OverlayView {
            windows,
            current: if self.current == Some(window) {
                topmost(windows)
            } else {
                self.current
            },
            ..self
        }
    }

    /// The overlay after a window was closed.
    pub open spec fn closed(self, window: u64) -> OverlayView {
        let windows = unregistered(self.windows, window);
        OverlayView {
            windows,
            current: if self.current == Some(window) {
                topmost(windows)
            } else {
                self.current
            },
            ..self
        }
    }

    /// What the first `count` registered windows that are realised shall be: only
    /// the current one takes input, and only while the overlay is visible.
    pub open spec fn window_states(self, xids: Seq<(u64, u32)>, count: int) -> Seq<WindowState>
        decreases count,
    {
        if count <= 0 {
            Seq::empty()
        } else {
            let rest = self.window_states(xids, count - 1);
            let entry = self.windows[count - 1];
            match xid_of(xids, entry.window) {
                Some(xid) => rest.push(
                    WindowState {
                        xid,
                        active: self.visible && !entry.hidden && self.current == Some(entry.window),
                        mapped: true,
                        external_overlay: false,
                    },
                ),
                None => rest,
            }
        }
    }

    /// What the first `count` notification windows that are realised shall be.
    pub open spec fn hud_states(self, xids: Seq<(u64, u32)>, count: int) -> Seq<WindowState>
        decreases count,
    {
        if count <= 0 {
            Seq::empty()
        } else {
            let rest = self.hud_states(xids, count - 1);
            match xid_of(xids, self.hud_windows[count - 1]) {
                Some(xid) => rest.push(
                    WindowState { xid, active: true, mapped: true, external_overlay: true },
                ),
                None => rest,
            }
        }
    }

    /// What all windows shall be.
    pub open spec fn states(self, xids: Seq<(u64, u32)>) -> Seq<WindowState> {
        self.window_states(xids, self.windows.len() as int) + self.hud_states(
            xids,
            self.hud_windows.len() as int,
        )
    }
}

fn holds(numbers: &Vec<u64>, number: u64) -> (result: bool)
    ensures
        result == numbers@.contains(number),
{
    let mut i: usize = 0;
    while i < numbers.len()
        invariant
            i <= numbers@.len(),
            forall|k: int| 0 <= k < i ==> numbers@[k] != number,
        decreases numbers@.len() - i,
    {
        if numbers[i] == number {
            return true;
        }
        i = i + 1;
    }
    false
}

fn realised(xids: &Vec<(u64, u32)>, window: u64) -> (result: Option<u32>)
    ensures
        result == xid_of(xids@, window),
{
    let mut i: usize = 0;
    assert(xids@.skip(0) =~= xids@);
    while i < xids.len()
        invariant
            i <= xids@.len(),
            xid_of(xids@, window) == xid_of(xids@.skip(i as int), window),
        decreases xids@.len() - i,
    {
        assert(xids@.skip(i as int).drop_first() =~= xids@.skip(i + 1));
        if xids[i].0 == window {
            return Some(xids[i].1);
        }
        i = i + 1;
    }
    None
}

proof fn lemma_marked(
    windows: Seq<RegisteredWindow>,
    window: u64,
    hidden: bool,
    at: int,
)
    requires
        0 <= at <= windows.len(),
        forall|k: int| 0 <= k < at ==> (#[trigger] windows[k]).window != window,
        at < windows.len() ==> windows[at].window == window,
    ensures
        marked(windows, window, hidden) == (if at < windows.len() {
            windows.update(at, RegisteredWindow { window, hidden })
        } else {
            windows.push(RegisteredWindow { window, hidden })
        }),
    decreases windows.len(),
{
    if windows.len() == 0 {
        assert(marked(windows, window, hidden) =~= windows.push(
            RegisteredWindow { window, hidden },
        ));
    } else if at > 0 {
        let rest = windows.drop_first();
        assert(windows[0].window != window);
        assert forall|k: int| 0 <= k < at - 1 implies (#[trigger] rest[k]).window != window by {
            assert(rest[k] == windows[k + 1]);
        }
        lemma_marked(rest, window, hidden, at - 1);
        if at < windows.len() {
            assert(seq![windows[0]] + rest.update(at - 1, RegisteredWindow { window, hidden })
                =~= windows.update(at, RegisteredWindow { window, hidden }));
        } else {
            assert(seq![windows[0]] + rest.push(RegisteredWindow { window, hidden })
                =~= windows.push(RegisteredWindow { window, hidden }));
        }
    }
}

impl Gamescope {
    pub fn new() -> (result: Self)
        ensures
            result@ == (OverlayView {
                windows: Seq::empty(),
                hud_windows: Seq::empty(),
                current: None,
                visible: false,
            }),
    {
        Gamescope {
            windows: Vec::new(),
            hud_windows: Vec::new(),
            current: None,
            visible: false,
        }
    }

    /// Forgets the windows that are gone.
    pub fn prune(&mut self, alive: &Vec<u64>)
        ensures
            final(self)@ == old(self)@.pruned(alive@),
    {
        let mut windows: Vec<RegisteredWindow> = Vec::new();
        let mut i: usize = 0;
        assert(living(self.windows@.take(0), alive@) =~= Seq::<RegisteredWindow>::empty());
        while i < self.windows.len()
            invariant
                *self == *old(self),
                i <= self.windows@.len(),
                windows@ == living(self.windows@.take(i as int), alive@),
            decreases self.windows@.len() - i,
        {
            assert(self.windows@.take(i + 1).drop_last() =~= self.windows@.take(i as int));
            let entry: RegisteredWindow = self.windows[i];
            if holds(alive, entry.window) {
                windows.push(entry);
            }
            i = i + 1;
        }
        assert(self.windows@.take(i as int) =~= self.windows@);
        let mut hud_windows: Vec<u64> = Vec::new();
        let mut j: usize = 0;
        assert(living_numbers(self.hud_windows@.take(0), alive@) =~= Seq::<u64>::empty());
        while j < self.hud_windows.len()
            invariant
                *self == *old(self),
                j <= self.hud_windows@.len(),
                hud_windows@ == living_numbers(self.hud_windows@.take(j as int), alive@),
            decreases self.hud_windows@.len() - j,
        {
            assert(self.hud_windows@.take(j + 1).drop_last() =~= self.hud_windows@.take(j as int));
            let number: u64 = self.hud_windows[j];
            if holds(alive, number) {
                hud_windows.push(number);
            }
            j = j + 1;
        }
        assert(self.hud_windows@.take(j as int) =~= self.hud_windows@);
        self.windows = windows;
        self.hud_windows = hud_windows;
        if let Some(window) = self.current {
            if !holds(alive, window) {
                self.current = None;
            }
        }
    }

    fn position(&self, window: u64) -> (result: usize)
        ensures
            result <= self.windows@.len(),
            forall|k: int| 0 <= k < result ==> (#[trigger] self.windows@[k]).window != window,
            result < self.windows@.len() ==> self.windows@[result as int].window == window,
    {
        let mut i: usize = 0;
        while i < self.windows.len() && self.windows[i].window != window
            invariant
                i <= self.windows@.len(),
                forall|k: int| 0 <= k < i ==> (#[trigger] self.windows@[k]).window != window,
            decreases self.windows@.len() - i,
        {
            i = i + 1;
        }
        i
    }

    /// Registers a window, or marks one that is registered.
    fn register(&mut self, window: u64, hidden: bool)
        ensures
            final(self)@ == (OverlayView {
                windows: marked(old(self)@.windows, window, hidden),
                ..old(self)@
            }),
    {
        let at: usize = self.position(window);
        proof {
            lemma_marked(self.windows@, window, hidden, at as int);
        }
        if at < self.windows.len() {
            self.windows.set(at, RegisteredWindow { window, hidden });
        } else {
            self.windows.push(RegisteredWindow { window, hidden });
        }
    }

    /// Starts the overlay with its main window.
    pub fn prepare_main(&mut self, window: u64, visible: bool)
        ensures
            final(self)@ == (OverlayView { visible, ..old(self)@.presented(window) }),
    {
        self.visible = visible;
        self.show_auxiliary(window);
    }

    /// Registers a further window and makes it current.
    pub fn show_auxiliary(&mut self, window: u64)
        ensures
            final(self)@ == old(self)@.presented(window),
    {
        self.register(window, false);
        self.current = Some(window);
    }

    fn topmost_window(&self) -> (result: Option<u64>)
        ensures
            result == topmost(self@.windows),
    {
        let mut i: usize = self.windows.len();
        assert(self.windows@.take(i as int) =~= self.windows@);
        while i > 0
            invariant
                i <= self.windows@.len(),
                topmost(self.windows@) == topmost(self.windows@.take(i as int)),
            decreases i,
        {
            assert(self.windows@.take(i as int).drop_last() =~= self.windows@.take(i - 1));
            let entry: RegisteredWindow = self.windows[i - 1];
            if !entry.hidden {
                return Some(entry.window);
            }
            i = i - 1;
        }
        None
    }

    /// Hides a window. It stays mapped; if it was current, the topmost window
    /// that is not hidden becomes current.
    pub fn hide_auxiliary(&mut self, window: u64)
        ensures
            final(self)@ == old(self)@.hidden(window),
    {
        let at: usize = self.position(window);
        let registered: bool = at < self.windows.len();
        if registered {
            assert(self@.windows[at as int].window == window);
            self.register(window, true);
        }
        let was_current: bool = match self.current {
            Some(current) => current == window,
            None => false,
        };
        if was_current {
            self.current = self.topmost_window();
        }
    }

    /// Forgets a window that closes; if it was current, the topmost window that
    /// is not hidden becomes current.
    pub fn close_auxiliary(&mut self, closing: u64)
        ensures
            final(self)@ == old(self)@.closed(closing),
    {
        let mut windows: Vec<RegisteredWindow> = Vec::new();
        let mut i: usize = 0;
        assert(unregistered(self.windows@.take(0), closing) =~= Seq::<RegisteredWindow>::empty());
        while i < self.windows.len()
            invariant
                *self == *old(self),
                i <= self.windows@.len(),
                windows@ == unregistered(self.windows@.take(i as int), closing),
            decreases self.windows@.len() - i,
        {
            assert(self.windows@.take(i + 1).drop_last() =~= self.windows@.take(i as int));
            let entry: RegisteredWindow = self.windows[i];
            if entry.window != closing {
                windows.push(entry);
            }
            i = i + 1;
        }
        assert(self.windows@.take(i as int) =~= self.windows@);
        self.windows = windows;
        let was_current: bool = match self.current {
            Some(current) => current == closing,
            None => false,
        };
        if was_current {
            self.current = self.topmost_window();
        }
    }

    /// Registers a notification window.
    pub fn register_hud(&mut self, window: u64)
        ensures
            final(self)@ == (OverlayView {
                hud_windows: if old(self)@.hud_windows.contains(window) {
                    old(self)@.hud_windows
                } else {
                    old(self)@.hud_windows.push(window)
                },
                ..old(self)@
            }),
    {
        if !holds(&self.hud_windows, window) {
            self.hud_windows.push(window);
        }
    }

    /// Forgets a notification window that closes.
    pub fn close_hud(&mut self, closing: u64)
        ensures
            final(self)@ == (OverlayView {
                hud_windows: dropped(old(self)@.hud_windows, closing),
                ..old(self)@
            }),
    {
        let mut hud_windows: Vec<u64> = Vec::new();
        let mut i: usize = 0;
        assert(dropped(self.hud_windows@.take(0), closing) =~= Seq::<u64>::empty());
        while i < self.hud_windows.len()
            invariant
                *self == *old(self),
                i <= self.hud_windows@.len(),
                hud_windows@ == dropped(self.hud_windows@.take(i as int), closing),
            decreases self.hud_windows@.len() - i,
        {
            assert(self.hud_windows@.take(i + 1).drop_last() =~= self.hud_windows@.take(i as int));
            let number: u64 = self.hud_windows[i];
            if number != closing {
                hud_windows.push(number);
            }
            i = i + 1;
        }
        assert(self.hud_windows@.take(i as int) =~= self.hud_windows@);
        self.hud_windows = hud_windows;
    }

    /// Shows the overlay.
    pub fn show(&mut self)
        ensures
            final(self)@ == (OverlayView { visible: true, ..old(self)@ }),
    {
        self.visible = true;
    }

    /// Hides the overlay.
    pub fn conceal(&mut self)
        ensures
            final(self)@ == (OverlayView { visible: false, ..old(self)@ }),
    {
        self.visible = false;
    }

    /// The window that takes input while the overlay is visible.
    pub fn current_window(&self) -> (result: Option<u64>)
        ensures
            result == self@.current,
    {
        self.current
    }

    /// What all realised windows shall be, given their X identifiers.
    pub fn sync_windows(&self, xids: &Vec<(u64, u32)>) -> (result: Vec<WindowState>)
        ensures
            result@ == self@.states(xids@),
    {
        let mut states: Vec<WindowState> = Vec::new();
        let mut i: usize = 0;
        while i < self.windows.len()
            invariant
                i <= self.windows@.len(),
                self@.windows == self.windows@,
                states@ == self@.window_states(xids@, i as int),
            decreases self.windows@.len() - i,
        {
            let entry: RegisteredWindow = self.windows[i];
            let is_current: bool = match self.current {
                Some(current) => current == entry.window,
                None => false,
            };
            if let Some(xid) = realised(xids, entry.window) {
                states.push(
                    WindowState {
                        xid,
                        active: self.visible && !entry.hidden && is_current,
                        mapped: true,
                        external_overlay: false,
                    },
                );
            }
            i = i + 1;
        }
        let ghost windows = states@;
        let mut j: usize = 0;
        assert(states@ =~= windows + self@.hud_states(xids@, 0));
        while j < self.hud_windows.len()
            invariant
                j <= self.hud_windows@.len(),
                self@.hud_windows == self.hud_windows@,
                states@ == windows + self@.hud_states(xids@, j as int),
            decreases self.hud_windows@.len() - j,
        {
            if let Some(xid) = realised(xids, self.hud_windows[j]) {
                states.push(
                    WindowState { xid, active: true, mapped: true, external_overlay: true },
                );
            }
            assert(states@ =~= windows + self@.hud_states(xids@, j + 1));
            j = j + 1;
        }
        states
    }
}

// ---------------------------------------------------------------------------
// Laws
// ---------------------------------------------------------------------------

proof fn lemma_states(overlay: OverlayView, xids: Seq<(u64, u32)>, count: int)
    requires
        0 <= count <= overlay.windows.len(),
    ensures
        forall|i: int|
            0 <= i < overlay.window_states(xids, count).len() ==> !(
            #[trigger] overlay.window_states(xids, count)[i]).external_overlay
                && overlay.window_states(xids, count)[i].mapped && (
            overlay.window_states(xids, count)[i].active ==> overlay.visible && overlay.current
                is Some && xid_of(xids, overlay.current->0) == Some(
                overlay.window_states(xids, count)[i].xid,
            )),
    decreases count,
{
    if count > 0 {
        lemma_states(overlay, xids, count - 1);
        let rest = overlay.window_states(xids, count - 1);
        let all = overlay.window_states(xids, count);
        assert forall|i: int| 0 <= i < all.len() implies !(#[trigger] all[i]).external_overlay
            && all[i].mapped && (all[i].active ==> overlay.visible && overlay.current is Some
            && xid_of(xids, overlay.current->0) == Some(all[i].xid)) by {
            if i < rest.len() {
                assert(all[i] == rest[i]);
            }
        }
    }
}

/// An interactive window takes input only while the overlay is visible, and only
/// if it is the current one.
pub proof fn law_only_the_current_window_takes_input(
    overlay: OverlayView,
    xids: Seq<(u64, u32)>,
    at: int,
)
    requires
        0 <= at < overlay.states(xids).len(),
        overlay.states(xids)[at].active,
        !overlay.states(xids)[at].external_overlay,
    ensures
        overlay.visible,
        overlay.current is Some,
        xid_of(xids, overlay.current->0) == Some(overlay.states(xids)[at].xid),
{
    let count = overlay.windows.len() as int;
    lemma_states(overlay, xids, count);
    let windows = overlay.window_states(xids, count);
    if at < windows.len() {
        assert(overlay.states(xids)[at] == windows[at]);
    } else {
        lemma_hud_states(overlay, xids, overlay.hud_windows.len() as int);
        assert(overlay.states(xids)[at] == overlay.hud_states(
            xids,
            overlay.hud_windows.len() as int,
        )[at - windows.len()]);
    }
}

proof fn lemma_hud_states(overlay: OverlayView, xids: Seq<(u64, u32)>, count: int)
    requires
        0 <= count <= overlay.hud_windows.len(),
    ensures
        forall|i: int|
            0 <= i < overlay.hud_states(xids, count).len() ==> (#[trigger] overlay.hud_states(
                xids,
                count,
            )[i]).external_overlay && overlay.hud_states(xids, count)[i].mapped,
    decreases count,
{
    if count > 0 {
        lemma_hud_states(overlay, xids, count - 1);
        let rest = overlay.hud_states(xids, count - 1);
        let all = overlay.hud_states(xids, count);
        assert forall|i: int| 0 <= i < all.len() implies (#[trigger] all[i]).external_overlay
            && all[i].mapped by {
            if i < rest.len() {
                assert(all[i] == rest[i]);
            }
        }
    }
}

/// Every window stays mapped, hidden or not.
pub proof fn law_windows_stay_mapped(overlay: OverlayView, xids: Seq<(u64, u32)>, at: int)
    requires
        0 <= at < overlay.states(xids).len(),
    ensures
        overlay.states(xids)[at].mapped,
{
    let count = overlay.windows.len() as int;
    lemma_states(overlay, xids, count);
    lemma_hud_states(overlay, xids, overlay.hud_windows.len() as int);
    let windows = overlay.window_states(xids, count);
    if at < windows.len() {
        assert(overlay.states(xids)[at] == windows[at]);
    } else {
        assert(overlay.states(xids)[at] == overlay.hud_states(
            xids,
            overlay.hud_windows.len() as int,
        )[at - windows.len()]);
    }
}

proof fn lemma_topmost(windows: Seq<RegisteredWindow>)
    ensures
        topmost(windows) matches Some(window) ==> exists|i: int|
            0 <= i < windows.len() && (#[trigger] windows[i]).window == window
                && !windows[i].hidden,
    decreases windows.len(),
{
    if windows.len() > 0 {
        if windows.last().hidden {
            lemma_topmost(windows.drop_last());
            if topmost(windows) is Some {
                let i = choose|i: int|
                    0 <= i < windows.drop_last().len() && (
                    #[trigger] windows.drop_last()[i]).window == topmost(windows)->0
                        && !windows.drop_last()[i].hidden;
                assert(windows[i] == windows.drop_last()[i]);
            }
        } else {
            assert(windows[windows.len() - 1] == windows.last());
        }
    }
}

proof fn lemma_unregistered(windows: Seq<RegisteredWindow>, window: u64)
    ensures
        forall|i: int|
            0 <= i < unregistered(windows, window).len() ==> (#[trigger] unregistered(
                windows,
                window,
            )[i]).window != window,
    decreases windows.len(),
{
    if windows.len() > 0 {
        lemma_unregistered(windows.drop_last(), window);
        let rest = unregistered(windows.drop_last(), window);
        let all = unregistered(windows, window);
        assert forall|i: int| 0 <= i < all.len() implies (#[trigger] all[i]).window != window by {
            if i < rest.len() {
                assert(all[i] == rest[i]);
            }
        }
    }
}

proof fn lemma_marked_hidden(windows: Seq<RegisteredWindow>, window: u64, at: int)
    requires
        distinct(windows),
        0 <= at < windows.len(),
        windows[at].window == window,
    ensures
        marked(windows, window, true) == windows.update(
            at,
            RegisteredWindow { window, hidden: true },
        ),
{
    assert forall|k: int| 0 <= k < at implies (#[trigger] windows[k]).window != window by {
        assert(windows[k].window != windows[at].window);
    }
    lemma_marked(windows, window, true, at);
}

/// A window that was hidden or closed is not current afterwards, if each window
/// is registered once.
pub proof fn law_hidden_and_closed_windows_are_not_current(overlay: OverlayView, window: u64)
    requires
        distinct(overlay.windows),
    ensures
        is_registered(overlay.windows, window) ==> overlay.hidden(window).current != Some(window),
        overlay.closed(window).current != Some(window),
{
    let closed = unregistered(overlay.windows, window);
    lemma_unregistered(overlay.windows, window);
    lemma_topmost(closed);
    if topmost(closed) is Some {
        let i = choose|i: int|
            0 <= i < closed.len() && (#[trigger] closed[i]).window == topmost(closed)->0
                && !closed[i].hidden;
        assert(closed[i].window != window);
    }
    if is_registered(overlay.windows, window) {
        let at = choose|i: int|
            0 <= i < overlay.windows.len() && (#[trigger] overlay.windows[i]).window == window;
        lemma_marked_hidden(overlay.windows, window, at);
        let hidden = marked(overlay.windows, window, true);
        lemma_topmost(hidden);
        if topmost(hidden) is Some {
            let i = choose|i: int|
                0 <= i < hidden.len() && (#[trigger] hidden[i]).window == topmost(hidden)->0
                    && !hidden[i].hidden;
            assert(i != at);
            assert(hidden[i] == overlay.windows[i]);
            assert(overlay.windows[i].window != overlay.windows[at].window);
        }
    }
}

/// Registering keeps every window registered once, whatever was there.
pub proof fn law_windows_stay_distinct(overlay: OverlayView, window: u64)
    requires
        distinct(overlay.windows),
    ensures
        distinct(overlay.presented(window).windows),
        distinct(overlay.hidden(window).windows),
        distinct(overlay.closed(window).windows),
{
    let windows = overlay.windows;
    if is_registered(windows, window) {
        let at = choose|i: int| 0 <= i < windows.len() && (#[trigger] windows[i]).window == window;
        lemma_marked_hidden(windows, window, at);
        assert forall|k: int| 0 <= k < at implies (#[trigger] windows[k]).window != window by {
            assert(windows[k].window != windows[at].window);
        }
        lemma_marked(windows, window, false, at);
        assert(forall|i: int| 0 <= i < windows.len() ==> (#[trigger] marked(
            windows,
            window,
            false,
        )[i]).window == windows[i].window);
        assert(forall|i: int| 0 <= i < windows.len() ==> (#[trigger] marked(
            windows,
            window,
            true,
        )[i]).window == windows[i].window);
    } else {
        lemma_marked(windows, window, false, windows.len() as int);
    }
    lemma_unregistered_distinct(windows, window);
}

proof fn lemma_unregistered_distinct(windows: Seq<RegisteredWindow>, window: u64)
    requires
        distinct(windows),
    ensures
        distinct(unregistered(windows, window)),
        forall|i: int|
            0 <= i < unregistered(windows, window).len() ==> windows.contains(
                #[trigger] unregistered(windows, window)[i],
            ),
    decreases windows.len(),
{
    if windows.len() > 0 {
        let shorter = windows.drop_last();
        lemma_unregistered_distinct(shorter, window);
        let rest = unregistered(shorter, window);
        let all = unregistered(windows, window);
        assert forall|i: int| 0 <= i < all.len() implies windows.contains(#[trigger] all[i]) by {
            if i < rest.len() {
                assert(all[i] == rest[i]);
                let at = shorter.index_of(rest[i]);
                assert(windows[at] == rest[i]);
            } else {
                assert(windows[windows.len() - 1] == all[i]);
            }
        }
        assert forall|i: int, j: int| 0 <= i < j < all.len() implies (#[trigger] all[i]).window != (
        #[trigger] all[j]).window by {
            assert(all[i] == rest[i]);
            if j < rest.len() {
                assert(all[j] == rest[j]);
            } else {
                let at = shorter.index_of(rest[i]);
                assert(windows[at] == rest[i]);
                assert(windows[at].window != windows[windows.len() - 1].window);
            }
        }
    }
}

proof fn lemma_states_hold(overlay: OverlayView, xids: Seq<(u64, u32)>, count: int, i: int) -> (at:
    int)
    requires
        0 <= i < count <= overlay.windows.len(),
        xid_of(xids, overlay.windows[i].window) is Some,
    ensures
        0 <= at < overlay.window_states(xids, count).len(),
        overlay.window_states(xids, count)[at] == (WindowState {
            xid: xid_of(xids, overlay.windows[i].window)->0,
            active: overlay.visible && !overlay.windows[i].hidden && overlay.current == Some(
                overlay.windows[i].window,
            ),
            mapped: true,
            external_overlay: false,
        }),
    decreases count,
{
    let rest = overlay.window_states(xids, count - 1);
    if i == count - 1 {
        rest.len() as int
    } else {
        let at = lemma_states_hold(overlay, xids, count - 1, i);
        assert(overlay.window_states(xids, count)[at] == rest[at]);
        at
    }
}

/// Every registered window is told of, and the one that is presented last takes the
/// input while the interface is shown.
pub proof fn law_presented_window_takes_input(
    overlay: OverlayView,
    xids: Seq<(u64, u32)>,
    window: u64,
    xid: u32,
) -> (at: int)
    requires
        overlay.visible,
        xid_of(xids, window) == Some(xid),
    ensures
        overlay.presented(window).current == Some(window),
        0 <= at < overlay.presented(window).states(xids).len(),
        overlay.presented(window).states(xids)[at].xid == xid,
        overlay.presented(window).states(xids)[at].active,
        !overlay.presented(window).states(xids)[at].external_overlay,
{
    let after = overlay.presented(window);
    let i = lemma_marked_place(overlay.windows, window, false);
    let count = after.windows.len() as int;
    let at = lemma_states_hold(after, xids, count, i);
    assert(after.states(xids)[at] == after.window_states(xids, count)[at]);
    at
}

proof fn lemma_marked_place(windows: Seq<RegisteredWindow>, window: u64, hidden: bool) -> (at: int)
    ensures
        0 <= at < marked(windows, window, hidden).len(),
        marked(windows, window, hidden)[at] == (RegisteredWindow { window, hidden }),
    decreases windows.len(),
{
    if windows.len() == 0 || windows[0].window == window {
        0
    } else {
        let rest = lemma_marked_place(windows.drop_first(), window, hidden);
        assert(marked(windows, window, hidden)[rest + 1] == marked(
            windows.drop_first(),
            window,
            hidden,
        )[rest]);
        rest + 1
    }
}

/// Presenting or hiding a window marks that one, where it stands or, if it is new,
/// on top, and leaves the others as they are.
pub proof fn law_marking_touches_one_window(
    windows: Seq<RegisteredWindow>,
    window: u64,
    hidden: bool,
    at: int,
)
    requires
        0 <= at <= windows.len(),
        forall|k: int| 0 <= k < at ==> (#[trigger] windows[k]).window != window,
        at < windows.len() ==> windows[at].window == window,
    ensures
        at < windows.len() ==> marked(windows, window, hidden) == windows.update(
            at,
            RegisteredWindow { window, hidden },
        ),
        at == windows.len() ==> marked(windows, window, hidden) == windows.push(
            RegisteredWindow { window, hidden },
        ),
{
    lemma_marked(windows, window, hidden, at);
}

/// When the current window is hidden or closed, the topmost one that is not hidden
/// becomes current, and none where all are.
pub proof fn law_topmost_visible_window_follows(windows: Seq<RegisteredWindow>, at: int)
    ensures
        0 <= at < windows.len() && !windows[at].hidden && (forall|k: int|
            at < k < windows.len() ==> (#[trigger] windows[k]).hidden) ==> topmost(windows) == Some(
            windows[at].window,
        ),
        (forall|k: int| 0 <= k < windows.len() ==> (#[trigger] windows[k]).hidden) ==> topmost(
            windows,
        ) is None,
    decreases windows.len(),
{
    if windows.len() > 0 {
        let shorter = windows.drop_last();
        law_topmost_visible_window_follows(shorter, at);
        if 0 <= at < windows.len() - 1 && forall|k: int|
            at < k < windows.len() ==> (#[trigger] windows[k]).hidden {
            assert(windows[windows.len() - 1].hidden);
            assert forall|k: int| at < k < shorter.len() implies (#[trigger] shorter[k]).hidden by {
                assert(shorter[k] == windows[k]);
            }
        }
        if forall|k: int| 0 <= k < windows.len() ==> (#[trigger] windows[k]).hidden {
            assert(windows[windows.len() - 1].hidden);
            assert forall|k: int| 0 <= k < shorter.len() implies (#[trigger] shorter[k]).hidden by {
                assert(shorter[k] == windows[k]);
            }
        }
    }
}

/// Closing takes out exactly the window that is closed, and pruning exactly those
/// that live no more; the others keep their order.
pub proof fn law_only_gone_windows_are_dropped(
    windows: Seq<RegisteredWindow>,
    numbers: Seq<u64>,
    window: u64,
    alive: Seq<u64>,
)
    ensures
        unregistered(windows, window) == windows.filter(
            |entry: RegisteredWindow| entry.window != window,
        ),
        dropped(numbers, window) == numbers.filter(|number: u64| number != window),
        living(windows, alive) == windows.filter(
            |entry: RegisteredWindow| alive.contains(entry.window),
        ),
        living_numbers(numbers, alive) == numbers.filter(|number: u64| alive.contains(number)),
    decreases windows.len() + numbers.len(),
{
    reveal(Seq::filter);
    if windows.len() > 0 && numbers.len() > 0 {
        law_only_gone_windows_are_dropped(
            windows.drop_last(),
            numbers.drop_last(),
            window,
            alive,
        );
    } else if windows.len() > 0 {
        law_only_gone_windows_are_dropped(windows.drop_last(), numbers, window, alive);
    } else if numbers.len() > 0 {
        law_only_gone_windows_are_dropped(windows, numbers.drop_last(), window, alive);
    }
}

proof fn lemma_hud_states_hold(
    overlay: OverlayView,
    xids: Seq<(u64, u32)>,
    count: int,
    i: int,
) -> (at: int)
    requires
        0 <= i < count <= overlay.hud_windows.len(),
        xid_of(xids, overlay.hud_windows[i]) is Some,
    ensures
        0 <= at < overlay.hud_states(xids, count).len(),
        overlay.hud_states(xids, count)[at].xid == xid_of(xids, overlay.hud_windows[i])->0,
        overlay.hud_states(xids, count)[at].active,
        overlay.hud_states(xids, count)[at].external_overlay,
    decreases count,
{
    let rest = overlay.hud_states(xids, count - 1);
    if i == count - 1 {
        rest.len() as int
    } else {
        let at = lemma_hud_states_hold(overlay, xids, count - 1, i);
        assert(overlay.hud_states(xids, count)[at] == rest[at]);
        at
    }
}

/// A notification window is shown as an external overlay, whether the interface is
/// shown or not.
pub proof fn law_notifications_are_always_shown(
    overlay: OverlayView,
    xids: Seq<(u64, u32)>,
    i: int,
) -> (at: int)
    requires
        0 <= i < overlay.hud_windows.len(),
        xid_of(xids, overlay.hud_windows[i]) is Some,
    ensures
        0 <= at < overlay.states(xids).len(),
        overlay.states(xids)[at].xid == xid_of(xids, overlay.hud_windows[i])->0,
        overlay.states(xids)[at].active,
        overlay.states(xids)[at].external_overlay,
{
    let count = overlay.hud_windows.len() as int;
    let inner = lemma_hud_states_hold(overlay, xids, count, i);
    let windows = overlay.window_states(xids, overlay.windows.len() as int);
    let at = windows.len() + inner;
    assert(overlay.states(xids)[at] == overlay.hud_states(xids, count)[inner]);
    at
}

/// Pruning keeps the current window exactly if it lives, and does not change whether
/// the interface is shown.
pub proof fn law_pruning_keeps_a_living_window_current(
    overlay: OverlayView,
    alive: Seq<u64>,
    window: u64,
)
    requires
        overlay.current == Some(window),
    ensures
        alive.contains(window) ==> overlay.pruned(alive).current == Some(window),
        !alive.contains(window) ==> overlay.pruned(alive).current is None,
        overlay.pruned(alive).visible == overlay.visible,
        overlay.pruned(alive).windows == living(overlay.windows, alive),
        overlay.pruned(alive).hud_windows == living_numbers(overlay.hud_windows, alive),
{
}

} // verus!
