//! What the X server is told of the overlay's windows.
//!
//! The interface submits snapshots of its windows; the owner of the connection
//! takes the latest one and brings the server in step with it. Windows stay
//! mapped: a hidden window has no input and no opacity.

use vstd::prelude::*;

verus! {

/// How many windows a snapshot holds at most.
pub const MAX_WINDOWS: usize = 32;

/// The opacity of a visible window.
pub const FULL_OPACITY: u32 = 0xffff_ffff;

/// What a window shall be.
#[derive(Clone, Copy, Debug, PartialEq, Eq, Structural)]
pub struct WindowState {
    pub xid: u32,
    /// The window takes input, or, as an external overlay, is shown.
    pub active: bool,
    pub mapped: bool,
    /// Shown above everything and never given input.
    pub external_overlay: bool,
}

/// A request to the X server.
#[derive(Clone, Copy, Debug, PartialEq, Eq, Structural)]
pub enum X11Call {
    Overlay { xid: u32, external: bool },
    InputFocus { xid: u32, focused: bool },
    Opacity { xid: u32, opacity: u32 },
    Flush,
}

impl WindowState {
    pub open spec fn visible(self) -> bool {
        self.active && self.mapped
    }

    /// The window without input and opacity.
    pub open spec fn hidden(self) -> WindowState {
        WindowState { active: false, mapped: true, ..self }
    }
}

/// The requests that bring one window into a state. A window that is not visible
/// loses its input before its opacity.
pub open spec fn window_calls(state: WindowState) -> Seq<X11Call> {
    let overlay = X11Call::Overlay { xid: state.xid, external: state.external_overlay };
    let opaque = X11Call::Opacity { xid: state.xid, opacity: FULL_OPACITY };
    let without_input = X11Call::InputFocus { xid: state.xid, focused: false };
    if !state.visible() {
        seq![overlay, without_input, X11Call::Opacity { xid: state.xid, opacity: 0 }]
    } else if state.external_overlay {
        seq![overlay, without_input, opaque]
    } else {
        seq![overlay, opaque, X11Call::InputFocus { xid: state.xid, focused: true }]
    }
}

fn apply_one(calls: &mut Vec<X11Call>, state: WindowState)
    ensures
        final(calls)@ == old(calls)@ + window_calls(state),
{
    let visible: bool = state.active && state.mapped;
    calls.push(X11Call::Overlay { xid: state.xid, external: state.external_overlay });
    if !visible {
        calls.push(X11Call::InputFocus { xid: state.xid, focused: false });
        calls.push(X11Call::Opacity { xid: state.xid, opacity: 0 });
    } else if state.external_overlay {
        calls.push(X11Call::InputFocus { xid: state.xid, focused: false });
        calls.push(X11Call::Opacity { xid: state.xid, opacity: FULL_OPACITY });
    } else {
        calls.push(X11Call::Opacity { xid: state.xid, opacity: FULL_OPACITY });
        calls.push(X11Call::InputFocus { xid: state.xid, focused: true });
    }
    assert(calls@ =~= old(calls)@ + window_calls(state));
}

// ---------------------------------------------------------------------------
// Windows by identifier
// ---------------------------------------------------------------------------

/// Windows in ascending order of their identifiers, each once.
pub open spec fn ascending(windows: Seq<WindowState>) -> bool {
    forall|i: int, j: int|
        0 <= i < j < windows.len() ==> (#[trigger] windows[i]).xid < (#[trigger] windows[j]).xid
}

/// The windows with one more, which replaces the one with its identifier.
pub open spec fn with_window(windows: Seq<WindowState>, state: WindowState) -> Seq<WindowState>
    decreases windows.len(),
{
    if windows.len() == 0 || windows.last().xid < state.xid {
        windows.push(state)
    } else if windows.last().xid == state.xid {
        windows.drop_last().push(state)
    } else {
        with_window(windows.drop_last(), state).push(windows.last())
    }
}

/// The windows without the one with an identifier.
pub open spec fn without_window(windows: Seq<WindowState>, xid: u32) -> Seq<WindowState>
    decreases windows.len(),
{
    if windows.len() == 0 {
        windows
    } else if windows.last().xid == xid {
        windows.drop_last()
    } else {
        without_window(windows.drop_last(), xid).push(windows.last())
    }
}

/// The window with an identifier.
pub open spec fn window_with(windows: Seq<WindowState>, xid: u32) -> Option<WindowState>
    decreases windows.len(),
{
    if windows.len() == 0 {
        None
    } else if windows.last().xid == xid {
        Some(windows.last())
    } else {
        window_with(windows.drop_last(), xid)
    }
}

/// The windows of a list by identifier; of several with one identifier the last
/// one counts.
pub open spec fn by_identifier(states: Seq<WindowState>) -> Seq<WindowState>
    decreases states.len(),
{
    if states.len() == 0 {
        Seq::empty()
    } else {
        with_window(by_identifier(states.drop_last()), states.last())
    }
}

proof fn lemma_with_window(windows: Seq<WindowState>, state: WindowState)
    requires
        ascending(windows),
    ensures
        ascending(with_window(windows, state)),
        forall|k: int|
            0 <= k < with_window(windows, state).len() ==> (#[trigger] with_window(
                windows,
                state,
            )[k]).xid <= state.xid || (windows.len() > 0 && with_window(windows, state)[k].xid
                <= windows.last().xid),
        forall|xid: u32| #[trigger]
            window_with(with_window(windows, state), xid) == (if xid == state.xid {
                Some(state)
            } else {
                window_with(windows, xid)
            }),
    decreases windows.len(),
{
    let after = with_window(windows, state);
    if windows.len() == 0 || windows.last().xid < state.xid {
        assert(after.drop_last() =~= windows);
    } else if windows.last().xid == state.xid {
        assert(after.drop_last() =~= windows.drop_last());
    } else {
        lemma_with_window(windows.drop_last(), state);
        assert(after.drop_last() =~= with_window(windows.drop_last(), state));
        assert forall|i: int, j: int| 0 <= i < j < after.len() implies (#[trigger] after[i]).xid < (
        #[trigger] after[j]).xid by {
            let rest = with_window(windows.drop_last(), state);
            if j == rest.len() {
                assert(after[i] == rest[i]);
                assert(windows.drop_last().len() > 0 ==> windows.drop_last().last().xid
                    < windows.last().xid);
            } else {
                assert(after[i] == rest[i] && after[j] == rest[j]);
            }
        }
        assert forall|k: int| 0 <= k < after.len() implies (#[trigger] after[k]).xid
            <= windows.last().xid by {
            if k < after.len() - 1 {
                assert(after[k].xid < after[after.len() - 1].xid);
            }
        }
    }
    assert forall|xid: u32| #[trigger] window_with(after, xid) == (if xid == state.xid {
        Some(state)
    } else {
        window_with(windows, xid)
    }) by {
        assert(window_with(after, xid) == (if after.last().xid == xid {
            Some(after.last())
        } else {
            window_with(after.drop_last(), xid)
        }));
        if windows.len() > 0 {
            assert(window_with(windows, xid) == (if windows.last().xid == xid {
                Some(windows.last())
            } else {
                window_with(windows.drop_last(), xid)
            }));
        }
    }
}

proof fn lemma_absent(windows: Seq<WindowState>, xid: u32)
    requires
        forall|k: int| 0 <= k < windows.len() ==> (#[trigger] windows[k]).xid != xid,
    ensures
        window_with(windows, xid) is None,
        without_window(windows, xid) == windows,
    decreases windows.len(),
{
    if windows.len() > 0 {
        assert forall|k: int| 0 <= k < windows.drop_last().len() implies (
        #[trigger] windows.drop_last()[k]).xid != xid by {
            assert(windows.drop_last()[k] == windows[k]);
        }
        lemma_absent(windows.drop_last(), xid);
        assert(windows.last() == windows[windows.len() - 1]);
        assert(windows.drop_last().push(windows.last()) =~= windows);
    }
}

proof fn lemma_found(windows: Seq<WindowState>, at: int)
    requires
        ascending(windows),
        0 <= at < windows.len(),
    ensures
        window_with(windows, windows[at].xid) == Some(windows[at]),
    decreases windows.len(),
{
    if at < windows.len() - 1 {
        assert(windows[at].xid < windows[windows.len() - 1].xid);
        assert(windows.drop_last()[at] == windows[at]);
        lemma_found(windows.drop_last(), at);
    }
}

proof fn lemma_by_identifier(states: Seq<WindowState>)
    ensures
        ascending(by_identifier(states)),
    decreases states.len(),
{
    if states.len() > 0 {
        lemma_by_identifier(states.drop_last());
        lemma_with_window(by_identifier(states.drop_last()), states.last());
    }
}

proof fn lemma_inserted(windows: Seq<WindowState>, state: WindowState, at: int)
    requires
        ascending(windows),
        0 <= at <= windows.len(),
        forall|k: int| 0 <= k < at ==> (#[trigger] windows[k]).xid < state.xid,
        at < windows.len() ==> windows[at].xid >= state.xid,
    ensures
        with_window(windows, state) == (if at < windows.len() && windows[at].xid == state.xid {
            windows.update(at, state)
        } else {
            windows.insert(at, state)
        }),
    decreases windows.len(),
{
    if windows.len() == 0 || windows.last().xid < state.xid {
        if at < windows.len() {
            assert(windows[at].xid <= windows.last().xid);
        }
        assert(windows.push(state) =~= windows.insert(at, state));
    } else if windows.last().xid == state.xid {
        if at < windows.len() - 1 {
            assert(windows[at].xid < windows[windows.len() - 1].xid);
        }
        assert(at == windows.len() - 1);
        assert(windows.drop_last().push(state) =~= windows.update(at, state));
    } else {
        if at == windows.len() {
            assert(windows[windows.len() - 1].xid < state.xid);
        }
        let shorter = windows.drop_last();
        assert forall|k: int| 0 <= k < at implies (#[trigger] shorter[k]).xid < state.xid by {
            assert(shorter[k] == windows[k]);
        }
        lemma_inserted(shorter, state, at);
        if at < shorter.len() && shorter[at].xid == state.xid {
            assert(shorter.update(at, state).push(windows.last()) =~= windows.update(at, state));
        } else {
            assert(shorter.insert(at, state).push(windows.last()) =~= windows.insert(at, state));
        }
    }
}

proof fn lemma_removed(windows: Seq<WindowState>, at: int)
    requires
        ascending(windows),
        0 <= at < windows.len(),
    ensures
        without_window(windows, windows[at].xid) == windows.remove(at),
    decreases windows.len(),
{
    if at == windows.len() - 1 {
        assert(windows.drop_last() =~= windows.remove(at));
    } else {
        assert(windows[at].xid < windows[windows.len() - 1].xid);
        assert(windows.drop_last()[at] == windows[at]);
        lemma_removed(windows.drop_last(), at);
        assert(windows.drop_last().remove(at).push(windows.last()) =~= windows.remove(at));
    }
}

/// Windows by identifier.
#[derive(Debug)]
pub struct WindowSet {
    windows: Vec<WindowState>,
}

impl View for WindowSet {
    type V = Seq<WindowState>;

    closed spec fn view(&self) -> Seq<WindowState> {
        self.windows@
    }
}

impl WindowSet {
    #[verifier::type_invariant]
    spec fn well_formed(self) -> bool {
        ascending(self.windows@)
    }

    pub fn new() -> (result: Self)
        ensures
            result@ == Seq::<WindowState>::empty(),
    {
        WindowSet { windows: Vec::new() }
    }

    /// The windows of the first states of a list.
    pub fn of(states: &[WindowState]) -> (result: Self)
        ensures
            result@ == by_identifier(states@),
    {
        let mut set: WindowSet = WindowSet::new();
        let mut i: usize = 0;
        assert(by_identifier(states@.take(0)) =~= Seq::<WindowState>::empty());
        while i < states.len()
            invariant
                i <= states@.len(),
                set@ == by_identifier(states@.take(i as int)),
            decreases states@.len() - i,
        {
            assert(states@.take(i + 1).drop_last() =~= states@.take(i as int));
            set.insert(states[i]);
            i = i + 1;
        }
        assert(states@.take(i as int) =~= states@);
        set
    }

    /// Where a window stands, or would stand.
    fn place(&self, xid: u32) -> (result: usize)
        ensures
            result <= self@.len(),
            forall|k: int| 0 <= k < result ==> (#[trigger] self@[k]).xid < xid,
            result < self@.len() ==> self@[result as int].xid >= xid,
    {
        let mut i: usize = 0;
        while i < self.windows.len() && self.windows[i].xid < xid
            invariant
                i <= self@.len(),
                forall|k: int| 0 <= k < i ==> (#[trigger] self@[k]).xid < xid,
                self@ == self.windows@,
            decreases self@.len() - i,
        {
            i = i + 1;
        }
        i
    }

    /// The window with an identifier.
    pub fn get(&self, xid: u32) -> (result: Option<WindowState>)
        ensures
            result == window_with(self@, xid),
    {
        proof {
            use_type_invariant(self);
        }
        let at: usize = self.place(xid);
        if at < self.windows.len() && self.windows[at].xid == xid {
            proof {
                lemma_found(self@, at as int);
            }
            return Some(self.windows[at]);
        }
        proof {
            assert forall|k: int| 0 <= k < self@.len() implies (#[trigger] self@[k]).xid != xid by {
                if k > at {
                    assert(self@[at as int].xid < self@[k].xid);
                }
            }
            lemma_absent(self@, xid);
        }
        None
    }

    /// Adds a window, in place of the one with its identifier.
    pub fn insert(&mut self, state: WindowState)
        ensures
            final(self)@ == with_window(old(self)@, state),
    {
        proof {
            use_type_invariant(&*self);
            lemma_with_window(self@, state);
        }
        let at: usize = self.place(state.xid);
        proof {
            lemma_inserted(self@, state, at as int);
        }
        let mut whole: WindowSet = WindowSet::new();
        std::mem::swap(&mut whole, self);
        let mut windows: Vec<WindowState> = whole.windows;
        if at < windows.len() && windows[at].xid == state.xid {
            windows.set(at, state);
        } else {
            windows.insert(at, state);
        }
        *self = WindowSet { windows };
    }

    /// Removes the window with an identifier.
    pub fn remove(&mut self, xid: u32)
        ensures
            final(self)@ == without_window(old(self)@, xid),
    {
        proof {
            use_type_invariant(&*self);
        }
        let at: usize = self.place(xid);
        if at < self.windows.len() && self.windows[at].xid == xid {
            proof {
                lemma_removed(self@, at as int);
            }
            let mut whole: WindowSet = WindowSet::new();
            std::mem::swap(&mut whole, self);
            let mut windows: Vec<WindowState> = whole.windows;
            let _removed: WindowState = windows.remove(at);
            proof {
                assert forall|i: int, j: int| 0 <= i < j < windows@.len() implies (
                #[trigger] windows@[i]).xid < (#[trigger] windows@[j]).xid by {
                    let old_i = if i < at {
                        i
                    } else {
                        i + 1
                    };
                    let old_j = if j < at {
                        j
                    } else {
                        j + 1
                    };
                    assert(whole.windows@[old_i].xid < whole.windows@[old_j].xid);
                }
            }
            *self = WindowSet { windows };
        } else {
            proof {
                assert forall|k: int| 0 <= k < self@.len() implies (#[trigger] self@[k]).xid
                    != xid by {
                    if k > at {
                        assert(self@[at as int].xid < self@[k].xid);
                    }
                }
                lemma_absent(self@, xid);
            }
        }
    }
}

// ---------------------------------------------------------------------------
// Identifiers
// ---------------------------------------------------------------------------

/// Identifiers in ascending order, each once.
pub open spec fn ascending_xids(xids: Seq<u32>) -> bool {
    forall|i: int, j: int| 0 <= i < j < xids.len() ==> #[trigger] xids[i] < #[trigger] xids[j]
}

/// The identifiers with one more.
pub open spec fn with_xid(xids: Seq<u32>, xid: u32) -> Seq<u32>
    decreases xids.len(),
{
    if xids.len() == 0 || xids.last() < xid {
        xids.push(xid)
    } else if xids.last() == xid {
        xids
    } else {
        with_xid(xids.drop_last(), xid).push(xids.last())
    }
}

proof fn lemma_with_xid(xids: Seq<u32>, xid: u32)
    ensures
        with_xid(xids, xid).contains(xid),
        forall|x: u32| #[trigger] xids.contains(x) ==> with_xid(xids, xid).contains(x),
    decreases xids.len(),
{
    let after = with_xid(xids, xid);
    if xids.len() == 0 || xids.last() < xid {
        assert(after[xids.len() as int] == xid);
        assert forall|x: u32| #[trigger] xids.contains(x) implies after.contains(x) by {
            assert(after[xids.index_of(x)] == x);
        }
    } else if xids.last() == xid {
        assert(xids[xids.len() - 1] == xid);
    } else {
        let rest = xids.drop_last();
        lemma_with_xid(rest, xid);
        let shorter = with_xid(rest, xid);
        assert(after[shorter.index_of(xid)] == xid);
        assert forall|x: u32| #[trigger] xids.contains(x) implies after.contains(x) by {
            let at = xids.index_of(x);
            if at == xids.len() - 1 {
                assert(after[shorter.len() as int] == x);
            } else {
                assert(rest[at] == x);
                assert(rest.contains(x));
                assert(after[shorter.index_of(x)] == x);
            }
        }
    }
}

proof fn lemma_xid_placed(xids: Seq<u32>, xid: u32, at: int)
    requires
        ascending_xids(xids),
        0 <= at <= xids.len(),
        forall|k: int| 0 <= k < at ==> #[trigger] xids[k] < xid,
        at < xids.len() ==> xids[at] >= xid,
    ensures
        with_xid(xids, xid) == (if at < xids.len() && xids[at] == xid {
            xids
        } else {
            xids.insert(at, xid)
        }),
        ascending_xids(with_xid(xids, xid)),
    decreases xids.len(),
{
    if xids.len() == 0 || xids.last() < xid {
        if at < xids.len() {
            assert(xids[at] <= xids.last());
        }
        assert(xids.push(xid) =~= xids.insert(at, xid));
    } else if xids.last() == xid {
        if at < xids.len() - 1 {
            assert(xids[at] < xids[xids.len() - 1]);
        }
    } else {
        if at == xids.len() {
            assert(xids[xids.len() - 1] < xid);
        }
        let shorter = xids.drop_last();
        assert forall|k: int| 0 <= k < at implies #[trigger] shorter[k] < xid by {
            assert(shorter[k] == xids[k]);
        }
        lemma_xid_placed(shorter, xid, at);
        if at < shorter.len() && shorter[at] == xid {
            assert(shorter.push(xids.last()) =~= xids);
        } else {
            assert(shorter.insert(at, xid).push(xids.last()) =~= xids.insert(at, xid));
        }
        let after = with_xid(xids, xid);
        assert forall|i: int, j: int| 0 <= i < j < after.len() implies #[trigger] after[i]
            < #[trigger] after[j] by {
            if !(at < xids.len() && xids[at] == xid) {
                let old_j = if j < at {
                    j
                } else {
                    j - 1
                };
                if i == at {
                    assert(after[j] == xids[old_j]);
                    assert(xids[at] <= xids[old_j]);
                } else if j == at {
                    assert(after[i] == xids[i]);
                } else {
                    let old_i = if i < at {
                        i
                    } else {
                        i - 1
                    };
                    assert(xids[old_i] < xids[old_j]);
                }
            }
        }
    }
}

fn insert_xid(xids: &mut Vec<u32>, xid: u32)
    requires
        ascending_xids(old(xids)@),
    ensures
        final(xids)@ == with_xid(old(xids)@, xid),
        ascending_xids(final(xids)@),
{
    let mut at: usize = 0;
    while at < xids.len() && xids[at] < xid
        invariant
            at <= xids@.len(),
            xids@ == old(xids)@,
            forall|k: int| 0 <= k < at ==> #[trigger] xids@[k] < xid,
        decreases xids@.len() - at,
    {
        at = at + 1;
    }
    proof {
        lemma_xid_placed(xids@, xid, at as int);
    }
    if !(at < xids.len() && xids[at] == xid) {
        xids.insert(at, xid);
    }
}

// ---------------------------------------------------------------------------
// The mailbox
// ---------------------------------------------------------------------------

/// What the owner of the connection has to do.
#[derive(Debug)]
pub struct PendingSnapshot {
    pub states: Vec<WindowState>,
    /// Windows that were hidden since the last snapshot, in ascending order,
    /// even if they are shown again.
    pub forced_hidden: Vec<u32>,
}

/// Holds the latest snapshot until the owner of the connection takes it.
#[derive(Debug)]
pub struct StateMailbox {
    latest: Option<Vec<WindowState>>,
    last_submitted: WindowSet,
    forced_hidden: Vec<u32>,
    closed: bool,
}

/// The model of a [`StateMailbox`].
pub struct StateView {
    pub latest: Option<Seq<WindowState>>,
    pub last_submitted: Seq<WindowState>,
    pub forced_hidden: Seq<u32>,
    pub closed: bool,
}

impl View for StateMailbox {
    type V = StateView;

    closed spec fn view(&self) -> StateView {
        StateView {
            latest: match self.latest {
                Some(states) => Some(states@),
                None => None,
            },
            last_submitted: self.last_submitted@,
            forced_hidden: self.forced_hidden@,
            closed: self.closed,
        }
    }
}

/// The part of a list that counts.
pub open spec fn bounded(states: Seq<WindowState>) -> Seq<WindowState> {
    if states.len() > MAX_WINDOWS {
        states.take(MAX_WINDOWS as int)
    } else {
        states
    }
}

/// The window stays visible.
pub open spec fn remains_visible(next: Seq<WindowState>, xid: u32) -> bool {
    window_with(next, xid) matches Some(state) && state.visible()
}

/// The forced windows together with the first `count` old windows that are
/// visible and do not stay so.
pub open spec fn forced_after(
    forced: Seq<u32>,
    last: Seq<WindowState>,
    next: Seq<WindowState>,
    count: int,
) -> Seq<u32>
    decreases count,
{
    if count <= 0 {
        forced
    } else {
        let before = forced_after(forced, last, next, count - 1);
        let window = last[count - 1];
        if window.visible() && !remains_visible(next, window.xid) {
            with_xid(before, window.xid)
        } else {
            before
        }
    }
}

impl StateView {
    /// The mailbox after a snapshot was submitted; a closed one takes none.
    pub open spec fn submitted(self, states: Seq<WindowState>) -> StateView {
        if self.closed {
            self
        } else {
            let next = by_identifier(bounded(states));
            StateView {
                latest: Some(bounded(states)),
                last_submitted: next,
                forced_hidden: forced_after(
                    self.forced_hidden,
                    self.last_submitted,
                    next,
                    self.last_submitted.len() as int,
                ),
                closed: false,
            }
        }
    }

    /// Something waits for the owner.
    pub open spec fn pending(self) -> bool {
        self.latest is Some || self.forced_hidden.len() > 0
    }

    /// The mailbox after the owner took what waits.
    pub open spec fn taken(self) -> StateView {
        StateView { latest: None, forced_hidden: Seq::empty(), ..self }
    }
}

fn first_windows(states: &[WindowState]) -> (result: Vec<WindowState>)
    ensures
        result@ == bounded(states@),
{
    let mut kept: Vec<WindowState> = Vec::new();
    let mut i: usize = 0;
    while i < states.len() && i < MAX_WINDOWS
        invariant
            i <= states@.len(),
            i <= MAX_WINDOWS,
            kept@ == states@.take(i as int),
        decreases states@.len() - i,
    {
        kept.push(states[i]);
        assert(kept@ =~= states@.take(i + 1));
        i = i + 1;
    }
    assert(kept@ =~= bounded(states@));
    kept
}

impl StateMailbox {
    #[verifier::type_invariant]
    spec fn well_formed(self) -> bool {
        ascending_xids(self.forced_hidden@)
    }

    pub fn new() -> (result: Self)
        ensures
            result@ == (StateView {
                latest: None,
                last_submitted: Seq::empty(),
                forced_hidden: Seq::empty(),
                closed: false,
            }),
    {
        StateMailbox {
            latest: None,
            last_submitted: WindowSet::new(),
            forced_hidden: Vec::new(),
            closed: false,
        }
    }

    /// Submits a snapshot, in place of one that was not taken yet. The owner has
    /// to be woken if it is accepted.
    ///
    /// A window that was visible and is not any more stays marked even when a
    /// newer snapshot replaces this one before the owner wakes up.
    pub fn submit(&mut self, states: &[WindowState]) -> (result: bool)
        ensures
            result == !old(self)@.closed,
            final(self)@ == old(self)@.submitted(states@),
    {
        if self.closed {
            return false;
        }
        proof {
            use_type_invariant(&*self);
        }
        let kept: Vec<WindowState> = first_windows(states);
        let next: WindowSet = WindowSet::of(&kept);
        let mut whole: StateMailbox = StateMailbox::new();
        std::mem::swap(&mut whole, self);
        let mut forced: Vec<u32> = whole.forced_hidden;
        let last: WindowSet = whole.last_submitted;
        let mut i: usize = 0;
        while i < last.windows.len()
            invariant
                i <= last@.len(),
                last@ == last.windows@,
                ascending_xids(forced@),
                forced@ == forced_after(whole.forced_hidden@, last@, next@, i as int),
            decreases last@.len() - i,
        {
            let old: WindowState = last.windows[i];
            let remains: bool = match next.get(old.xid) {
                Some(new) => new.active && new.mapped,
                None => false,
            };
            if old.active && old.mapped && !remains {
                insert_xid(&mut forced, old.xid);
            }
            i = i + 1;
        }
        *self = StateMailbox {
            latest: Some(kept),
            last_submitted: next,
            forced_hidden: forced,
            closed: false,
        };
        true
    }

    /// Whether something waits for the owner.
    pub fn has_pending_state(&self) -> (result: bool)
        ensures
            result == self@.pending(),
    {
        self.latest.is_some() || self.forced_hidden.len() > 0
    }

    /// Takes what waits.
    pub fn take(&mut self) -> (result: Option<PendingSnapshot>)
        ensures
            match result {
                Some(snapshot) => {
                    &&& old(self)@.pending()
                    &&& snapshot.states@ == (match old(self)@.latest {
                        Some(states) => states,
                        None => Seq::empty(),
                    })
                    &&& snapshot.forced_hidden@ == old(self)@.forced_hidden
                    &&& ascending_xids(snapshot.forced_hidden@)
                },
                None => !old(self)@.pending(),
            },
            final(self)@ == old(self)@.taken(),
    {
        proof {
            use_type_invariant(&*self);
        }
        let mut whole: StateMailbox = StateMailbox::new();
        std::mem::swap(&mut whole, self);
        *self = StateMailbox {
            latest: None,
            last_submitted: whole.last_submitted,
            forced_hidden: Vec::new(),
            closed: whole.closed,
        };
        match whole.latest {
            Some(states) => Some(PendingSnapshot { states, forced_hidden: whole.forced_hidden }),
            None => {
                if whole.forced_hidden.len() == 0 {
                    None
                } else {
                    Some(
                        PendingSnapshot {
                            states: Vec::new(),
                            forced_hidden: whole.forced_hidden,
                        },
                    )
                }
            },
        }
    }

    /// Whether the owner stops.
    pub fn is_closed(&self) -> (result: bool)
        ensures
            result == self@.closed,
    {
        self.closed
    }

    /// Stops the owner.
    pub fn close(&mut self)
        ensures
            final(self)@ == (StateView { closed: true, ..old(self)@ }),
    {
        proof {
            use_type_invariant(&*self);
        }
        self.closed = true;
    }
}

// ---------------------------------------------------------------------------
// Snapshots
// ---------------------------------------------------------------------------

/// What is known of a window that is hidden by force.
pub open spec fn prior(applied: Seq<WindowState>, next: Seq<WindowState>, xid: u32) -> WindowState {
    match window_with(applied, xid) {
        Some(state) => state,
        None => match window_with(next, xid) {
            Some(state) => state,
            None => WindowState { xid, active: false, mapped: true, external_overlay: false },
        },
    }
}

/// The applied windows and the requests after the first `count` forced windows
/// were hidden.
pub open spec fn forced_phase(
    applied: Seq<WindowState>,
    next: Seq<WindowState>,
    forced: Seq<u32>,
    count: int,
) -> (Seq<WindowState>, Seq<X11Call>)
    decreases count,
{
    if count <= 0 {
        (applied, Seq::empty())
    } else {
        let before = forced_phase(applied, next, forced, count - 1);
        let xid = forced[count - 1];
        let hidden = prior(before.0, next, xid).hidden();
        (
            if window_with(next, xid) is Some {
                with_window(before.0, hidden)
            } else {
                without_window(before.0, xid)
            },
            before.1 + window_calls(hidden),
        )
    }
}

/// The requests that hide those of the first `count` applied windows that are
/// gone.
pub open spec fn departing_calls(
    applied: Seq<WindowState>,
    next: Seq<WindowState>,
    count: int,
) -> Seq<X11Call>
    decreases count,
{
    if count <= 0 {
        Seq::empty()
    } else {
        let before = departing_calls(applied, next, count - 1);
        let old = applied[count - 1];
        if window_with(next, old.xid) is None {
            before + window_calls(WindowState { active: false, ..old })
        } else {
            before
        }
    }
}

/// The requests for those of the first `count` next windows that are not in
/// their state yet.
pub open spec fn arriving_calls(
    applied: Seq<WindowState>,
    next: Seq<WindowState>,
    count: int,
) -> Seq<X11Call>
    decreases count,
{
    if count <= 0 {
        Seq::empty()
    } else {
        let before = arriving_calls(applied, next, count - 1);
        let state = next[count - 1];
        if window_with(applied, state.xid) != Some(state) {
            before + window_calls(state)
        } else {
            before
        }
    }
}

/// The requests that bring the server from the applied windows to the next ones:
/// hidden edges first, then windows that are gone, then the others, each in
/// ascending order.
pub open spec fn snapshot_calls(
    applied: Seq<WindowState>,
    next: Seq<WindowState>,
    forced: Seq<u32>,
) -> Seq<X11Call> {
    let (left, edges) = forced_phase(applied, next, forced, forced.len() as int);
    (edges + departing_calls(left, next, left.len() as int) + arriving_calls(
        left,
        next,
        next.len() as int,
    )).push(X11Call::Flush)
}

/// Brings the server in step with a snapshot; returns the requests in order.
/// A request that fails is skipped, so the rest is sent whatever happens.
pub fn apply_snapshot(applied: &mut WindowSet, snapshot: &PendingSnapshot) -> (result: Vec<X11Call>)
    ensures
        result@ == snapshot_calls(
            old(applied)@,
            by_identifier(bounded(snapshot.states@)),
            snapshot.forced_hidden@,
        ),
        final(applied)@ == by_identifier(bounded(snapshot.states@)),
{
    let kept: Vec<WindowState> = first_windows(&snapshot.states);
    let next: WindowSet = WindowSet::of(&kept);
    let mut calls: Vec<X11Call> = Vec::new();
    let ghost start = applied@;
    let ghost forced = snapshot.forced_hidden@;
    let mut i: usize = 0;
    while i < snapshot.forced_hidden.len()
        invariant
            forced == snapshot.forced_hidden@,
            i <= forced.len(),
            (applied@, calls@) == forced_phase(start, next@, forced, i as int),
        decreases forced.len() - i,
    {
        let xid: u32 = snapshot.forced_hidden[i];
        let known: WindowState = match applied.get(xid) {
            Some(state) => state,
            None => match next.get(xid) {
                Some(state) => state,
                None => WindowState { xid, active: false, mapped: true, external_overlay: false },
            },
        };
        let hidden = WindowState {
            xid: known.xid,
            active: false,
            mapped: true,
            external_overlay: known.external_overlay,
        };
        apply_one(&mut calls, hidden);
        if next.get(xid).is_some() {
            applied.insert(hidden);
        } else {
            applied.remove(xid);
        }
        i = i + 1;
    }
    let ghost left = applied@;
    let ghost edges = calls@;
    let mut j: usize = 0;
    assert(calls@ =~= edges + departing_calls(left, next@, 0));
    while j < applied.windows.len()
        invariant
            applied@ == left,
            left == applied.windows@,
            j <= left.len(),
            calls@ == edges + departing_calls(left, next@, j as int),
        decreases left.len() - j,
    {
        let old: WindowState = applied.windows[j];
        if next.get(old.xid).is_none() {
            apply_one(
                &mut calls,
                WindowState {
                    xid: old.xid,
                    active: false,
                    mapped: old.mapped,
                    external_overlay: old.external_overlay,
                },
            );
            assert(calls@ =~= edges + departing_calls(left, next@, j + 1));
        }
        j = j + 1;
    }
    let ghost departed = calls@;
    let mut k: usize = 0;
    assert(calls@ =~= departed + arriving_calls(left, next@, 0));
    while k < next.windows.len()
        invariant
            applied@ == left,
            next@ == next.windows@,
            k <= next@.len(),
            calls@ == departed + arriving_calls(left, next@, k as int),
        decreases next@.len() - k,
    {
        let state: WindowState = next.windows[k];
        let settled: bool = match applied.get(state.xid) {
            Some(known) => known == state,
            None => false,
        };
        if !settled {
            apply_one(&mut calls, state);
            assert(calls@ =~= departed + arriving_calls(left, next@, k + 1));
        }
        k = k + 1;
    }
    calls.push(X11Call::Flush);
    *applied = next;
    calls
}

// ---------------------------------------------------------------------------
// Laws
// ---------------------------------------------------------------------------

/// A window that is not visible loses its input before its opacity, and never
/// gets input.
pub proof fn law_hidden_windows_lose_input_first(state: WindowState)
    requires
        !state.visible(),
    ensures
        window_calls(state)[1] == (X11Call::InputFocus { xid: state.xid, focused: false }),
        window_calls(state)[2] == (X11Call::Opacity { xid: state.xid, opacity: 0 }),
        window_calls(state).len() == 3,
{
}

/// An external overlay never gets input.
pub proof fn law_external_overlays_get_no_input(state: WindowState)
    requires
        state.external_overlay,
    ensures
        !window_calls(state).contains(X11Call::InputFocus { xid: state.xid, focused: true }),
{
}

/// A closed mailbox takes nothing.
pub proof fn law_closed_mailbox_takes_nothing(mailbox: StateView, states: Seq<WindowState>)
    requires
        mailbox.closed,
    ensures
        mailbox.submitted(states) == mailbox,
{
}

proof fn lemma_forced_grows(
    forced: Seq<u32>,
    last: Seq<WindowState>,
    next: Seq<WindowState>,
    count: int,
    xid: u32,
)
    ensures
        forced.contains(xid) ==> forced_after(forced, last, next, count).contains(xid),
    decreases count,
{
    if count > 0 {
        lemma_forced_grows(forced, last, next, count - 1, xid);
        let before = forced_after(forced, last, next, count - 1);
        lemma_with_xid(before, last[count - 1].xid);
    }
}

proof fn lemma_forced_holds(
    forced: Seq<u32>,
    last: Seq<WindowState>,
    next: Seq<WindowState>,
    count: int,
    at: int,
)
    requires
        0 <= at < count <= last.len(),
        last[at].visible(),
        !remains_visible(next, last[at].xid),
    ensures
        forced_after(forced, last, next, count).contains(last[at].xid),
    decreases count,
{
    let before = forced_after(forced, last, next, count - 1);
    lemma_with_xid(before, last[count - 1].xid);
    if at < count - 1 {
        lemma_forced_holds(forced, last, next, count - 1, at);
    }
}

/// A hidden edge survives coalescing: a window that was submitted as visible and
/// then as hidden is hidden by the next snapshot that is taken, whatever is
/// submitted in between.
pub proof fn law_hidden_edge_survives_coalescing(
    mailbox: StateView,
    at: int,
    hidden: Seq<WindowState>,
    later: Seq<WindowState>,
)
    requires
        !mailbox.closed,
        0 <= at < mailbox.last_submitted.len(),
        mailbox.last_submitted[at].visible(),
        !remains_visible(by_identifier(bounded(hidden)), mailbox.last_submitted[at].xid),
    ensures
        mailbox.submitted(hidden).forced_hidden.contains(mailbox.last_submitted[at].xid),
        mailbox.submitted(hidden).submitted(later).forced_hidden.contains(
            mailbox.last_submitted[at].xid,
        ),
{
    let first = mailbox.submitted(hidden);
    lemma_forced_holds(
        mailbox.forced_hidden,
        mailbox.last_submitted,
        first.last_submitted,
        mailbox.last_submitted.len() as int,
        at,
    );
    lemma_forced_grows(
        first.forced_hidden,
        first.last_submitted,
        by_identifier(bounded(later)),
        first.last_submitted.len() as int,
        mailbox.last_submitted[at].xid,
    );
}

proof fn lemma_found_xid(windows: Seq<WindowState>, xid: u32)
    ensures
        window_with(windows, xid) matches Some(state) ==> state.xid == xid,
    decreases windows.len(),
{
    if windows.len() > 0 && windows.last().xid != xid {
        lemma_found_xid(windows.drop_last(), xid);
    }
}

/// The requests that take the input and the opacity from a window, one after the
/// other.
pub open spec fn hides_at(calls: Seq<X11Call>, xid: u32, at: int) -> bool {
    &&& 0 <= at
    &&& at + 1 < calls.len()
    &&& calls[at] == (X11Call::InputFocus { xid, focused: false })
    &&& calls[at + 1] == (X11Call::Opacity { xid, opacity: 0 })
}

proof fn lemma_forced_hides(
    applied: Seq<WindowState>,
    next: Seq<WindowState>,
    forced: Seq<u32>,
    count: int,
    at: int,
) -> (place: int)
    requires
        0 <= at < count <= forced.len(),
    ensures
        hides_at(forced_phase(applied, next, forced, count).1, forced[at], place),
    decreases count,
{
    let before = forced_phase(applied, next, forced, count - 1);
    let xid = forced[count - 1];
    let hidden = prior(before.0, next, xid).hidden();
    lemma_found_xid(before.0, xid);
    lemma_found_xid(next, xid);
    assert(hidden.xid == xid);
    if at == count - 1 {
        let place: int = before.1.len() as int + 1;
        let calls = before.1 + window_calls(hidden);
        assert(calls[place] == window_calls(hidden)[1]);
        assert(calls[place + 1] == window_calls(hidden)[2]);
        place
    } else {
        let place = lemma_forced_hides(applied, next, forced, count - 1, at);
        let calls = before.1 + window_calls(hidden);
        assert(calls[place] == before.1[place]);
        assert(calls[place + 1] == before.1[place + 1]);
        place
    }
}

/// A window whose hiding was forced loses its input and then its opacity before
/// any window is shown: the requests that hide it stand before all requests for
/// the windows of the snapshot.
pub proof fn law_forced_windows_are_hidden_first(
    applied: Seq<WindowState>,
    next: Seq<WindowState>,
    forced: Seq<u32>,
    at: int,
) -> (place: int)
    requires
        0 <= at < forced.len(),
    ensures
        hides_at(snapshot_calls(applied, next, forced), forced[at], place),
        place + 1 < forced_phase(applied, next, forced, forced.len() as int).1.len(),
{
    let place = lemma_forced_hides(applied, next, forced, forced.len() as int, at);
    let (left, edges) = forced_phase(applied, next, forced, forced.len() as int);
    let calls = snapshot_calls(applied, next, forced);
    assert(calls[place] == edges[place]);
    assert(calls[place + 1] == edges[place + 1]);
    place
}

proof fn lemma_departing_hides(
    applied: Seq<WindowState>,
    next: Seq<WindowState>,
    count: int,
    at: int,
) -> (place: int)
    requires
        0 <= at < count <= applied.len(),
        window_with(next, applied[at].xid) is None,
    ensures
        hides_at(departing_calls(applied, next, count), applied[at].xid, place),
    decreases count,
{
    let before = departing_calls(applied, next, count - 1);
    let gone = WindowState { active: false, ..applied[count - 1] };
    let calls = departing_calls(applied, next, count);
    if at == count - 1 {
        let place: int = before.len() as int + 1;
        assert(calls[place] == window_calls(gone)[1]);
        assert(calls[place + 1] == window_calls(gone)[2]);
        place
    } else {
        let place = lemma_departing_hides(applied, next, count - 1, at);
        assert(calls[place] == before[place]);
        assert(calls[place + 1] == before[place + 1]);
        place
    }
}

/// A window that is left after the forced ones were hidden, and that is gone from
/// the snapshot, loses its input and then its opacity.
pub proof fn law_departed_windows_are_hidden(
    applied: Seq<WindowState>,
    next: Seq<WindowState>,
    forced: Seq<u32>,
    at: int,
) -> (place: int)
    requires
        ({
            let left = forced_phase(applied, next, forced, forced.len() as int).0;
            0 <= at < left.len() && window_with(next, left[at].xid) is None
        }),
    ensures
        hides_at(
            snapshot_calls(applied, next, forced),
            forced_phase(applied, next, forced, forced.len() as int).0[at].xid,
            place,
        ),
{
    let (left, edges) = forced_phase(applied, next, forced, forced.len() as int);
    let departing = departing_calls(left, next, left.len() as int);
    let found = lemma_departing_hides(left, next, left.len() as int, at);
    let place: int = edges.len() as int + found;
    let calls = snapshot_calls(applied, next, forced);
    assert(calls[place] == departing[found]);
    assert(calls[place + 1] == departing[found + 1]);
    place
}

proof fn lemma_nothing_departs(windows: Seq<WindowState>, count: int)
    requires
        ascending(windows),
        0 <= count <= windows.len(),
    ensures
        departing_calls(windows, windows, count) == Seq::<X11Call>::empty(),
        arriving_calls(windows, windows, count) == Seq::<X11Call>::empty(),
    decreases count,
{
    if count > 0 {
        lemma_nothing_departs(windows, count - 1);
        lemma_found(windows, count - 1);
    }
}

/// A snapshot that changes nothing only flushes.
pub proof fn law_unchanged_snapshot_only_flushes(states: Seq<WindowState>)
    ensures
        snapshot_calls(
            by_identifier(bounded(states)),
            by_identifier(bounded(states)),
            Seq::empty(),
        ) == seq![X11Call::Flush],
{
    let windows = by_identifier(bounded(states));
    lemma_by_identifier(bounded(states));
    lemma_nothing_departs(windows, windows.len() as int);
    assert(snapshot_calls(windows, windows, Seq::empty()) =~= seq![X11Call::Flush]);
}

/// Windows by identifier hold, for every identifier, the last window of the list
/// that has it.
pub proof fn law_last_state_of_a_window_counts(states: Seq<WindowState>, xid: u32)
    ensures
        window_with(by_identifier(states), xid) == window_with(states, xid),
    decreases states.len(),
{
    if states.len() > 0 {
        law_last_state_of_a_window_counts(states.drop_last(), xid);
        lemma_by_identifier(states.drop_last());
        lemma_with_window(by_identifier(states.drop_last()), states.last());
    }
}

/// A window that is shown becomes opaque and, unless it is an external overlay, is
/// the last to get the input; each request names the window itself.
pub proof fn law_shown_windows_become_opaque(state: WindowState)
    ensures
        window_calls(state).len() == 3,
        window_calls(state)[0] == (X11Call::Overlay {
            xid: state.xid,
            external: state.external_overlay,
        }),
        state.active && state.mapped && !state.external_overlay ==> window_calls(state)[1] == (
        X11Call::Opacity { xid: state.xid, opacity: 0xffff_ffff }) && window_calls(state)[2] == (
        X11Call::InputFocus { xid: state.xid, focused: true }),
        state.active && state.mapped && state.external_overlay ==> window_calls(state)[1] == (
        X11Call::InputFocus { xid: state.xid, focused: false }) && window_calls(state)[2] == (
        X11Call::Opacity { xid: state.xid, opacity: 0xffff_ffff }),
        !state.active || !state.mapped ==> window_calls(state)[2] == (X11Call::Opacity {
            xid: state.xid,
            opacity: 0,
        }),
{
}

proof fn lemma_arriving(
    applied: Seq<WindowState>,
    next: Seq<WindowState>,
    count: int,
    at: int,
) -> (place: int)
    requires
        0 <= at < count <= next.len(),
        window_with(applied, next[at].xid) != Some(next[at]),
    ensures
        0 <= place,
        place + 3 <= arriving_calls(applied, next, count).len(),
        arriving_calls(applied, next, count).subrange(place, place + 3) == window_calls(next[at]),
    decreases count,
{
    let before = arriving_calls(applied, next, count - 1);
    let all = arriving_calls(applied, next, count);
    if at == count - 1 {
        let place = before.len() as int;
        assert(all.subrange(place, place + 3) =~= window_calls(next[at]));
        place
    } else {
        let place = lemma_arriving(applied, next, count - 1, at);
        assert(all.subrange(place, place + 3) =~= before.subrange(place, place + 3));
        place
    }
}

/// A window of a snapshot that is new, or stands otherwise than before, is set as the
/// snapshot says, and the requests end in a flush.
pub proof fn law_changed_windows_are_set(
    applied: Seq<WindowState>,
    next: Seq<WindowState>,
    forced: Seq<u32>,
    at: int,
) -> (place: int)
    requires
        0 <= at < next.len(),
        window_with(
            forced_phase(applied, next, forced, forced.len() as int).0,
            next[at].xid,
        ) != Some(next[at]),
    ensures
        0 <= place,
        place + 3 < snapshot_calls(applied, next, forced).len(),
        snapshot_calls(applied, next, forced).subrange(place, place + 3) == window_calls(next[at]),
        snapshot_calls(applied, next, forced).last() == X11Call::Flush,
{
    let (left, edges) = forced_phase(applied, next, forced, forced.len() as int);
    let departing = departing_calls(left, next, left.len() as int);
    let arriving = arriving_calls(left, next, next.len() as int);
    let inner = lemma_arriving(left, next, next.len() as int, at);
    let place = edges.len() + departing.len() + inner;
    assert(snapshot_calls(applied, next, forced).subrange(place, place + 3) =~= arriving.subrange(
        inner,
        inner + 3,
    ));
    place
}

/// Of several submissions the owner gets the latest one, with its first 32 windows.
pub proof fn law_latest_submission_is_taken(
    mailbox: StateView,
    first: Seq<WindowState>,
    second: Seq<WindowState>,
)
    requires
        !mailbox.closed,
    ensures
        second.len() <= 32 ==> mailbox.submitted(first).submitted(second).latest == Some(second),
        second.len() > 32 ==> mailbox.submitted(first).submitted(second).latest == Some(
            second.take(32),
        ),
        mailbox.submitted(first).submitted(second).pending(),
        !mailbox.submitted(first).submitted(second).taken().pending(),
{
}

/// A set of windows holds for each identifier what was put in last, until it is
/// taken out, and in ascending order.
pub proof fn law_windows_are_kept_by_identifier(
    windows: Seq<WindowState>,
    state: WindowState,
    other: u32,
)
    requires
        ascending(windows),
        other != state.xid,
    ensures
        ascending(with_window(windows, state)),
        window_with(with_window(windows, state), state.xid) == Some(state),
        window_with(with_window(windows, state), other) == window_with(windows, other),
{
    lemma_with_window(windows, state);
}

proof fn lemma_forced_was_visible(
    forced: Seq<u32>,
    last: Seq<WindowState>,
    next: Seq<WindowState>,
    count: int,
    xid: u32,
)
    requires
        0 <= count <= last.len(),
        forced_after(forced, last, next, count).contains(xid),
        !forced.contains(xid),
    ensures
        !remains_visible(next, xid),
        exists|at: int| 0 <= at < count && (#[trigger] last[at]).xid == xid && last[at].visible(),
    decreases count,
{
    if count > 0 {
        let before = forced_after(forced, last, next, count - 1);
        let window = last[count - 1];
        if before.contains(xid) {
            lemma_forced_was_visible(forced, last, next, count - 1, xid);
        } else {
            lemma_only_xid_is_new(before, window.xid, xid);
            assert(last[count - 1].xid == xid);
        }
    }
}

proof fn lemma_only_xid_is_new(xids: Seq<u32>, added: u32, xid: u32)
    requires
        with_xid(xids, added).contains(xid),
        !xids.contains(xid),
    ensures
        xid == added,
    decreases xids.len(),
{
    let after = with_xid(xids, added);
    let i = choose|i: int| 0 <= i < after.len() && after[i] == xid;
    if xids.len() == 0 || xids.last() < added {
        if i < xids.len() {
            assert(xids[i] == xid);
        }
    } else if xids.last() != added {
        let shorter = with_xid(xids.drop_last(), added);
        if i < shorter.len() {
            assert(shorter[i] == xid);
            if xids.drop_last().contains(xid) {
                let j = choose|j: int| 0 <= j < xids.drop_last().len() && xids.drop_last()[j] == xid;
                assert(xids[j] == xid);
            }
            lemma_only_xid_is_new(xids.drop_last(), added, xid);
        } else {
            assert(xids[xids.len() - 1] == xid);
        }
    }
}

/// Hiding is forced on no window but one that was visible and does not stay so.
pub proof fn law_only_vanished_windows_are_forced(
    mailbox: StateView,
    states: Seq<WindowState>,
    xid: u32,
)
    requires
        !mailbox.closed,
        !mailbox.forced_hidden.contains(xid),
        mailbox.submitted(states).forced_hidden.contains(xid),
    ensures
        !remains_visible(by_identifier(bounded(states)), xid),
        exists|at: int|
            0 <= at < mailbox.last_submitted.len() && (#[trigger] mailbox.last_submitted[at]).xid
                == xid && mailbox.last_submitted[at].visible(),
{
    lemma_forced_was_visible(
        mailbox.forced_hidden,
        mailbox.last_submitted,
        by_identifier(bounded(states)),
        mailbox.last_submitted.len() as int,
        xid,
    );
}

} // verus!
