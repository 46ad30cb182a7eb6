//! Profile identity and coordination of asynchronous work.
//!
//! The coordinator hands out tokens for work that runs elsewhere and decides,
//! when a completion comes back, whether it still describes what the user wants.

use vstd::prelude::*;

use crate::debounce::{following, generation_after};
use crate::text::same;
use crate::text_map::TextMap;

verus! {

/// The right to report the result of an operation on a profile.
#[derive(Debug, PartialEq, Eq)]
pub struct ProfileOperationToken {
    pub id: String,
    pub revision: u64,
    pub operation: u64,
    pub editing_epoch: u64,
}

/// The model of a [`ProfileOperationToken`].
pub struct OperationView {
    pub id: Seq<char>,
    pub revision: u64,
    pub operation: u64,
    pub editing_epoch: u64,
}

impl View for ProfileOperationToken {
    type V = OperationView;

    open spec fn view(&self) -> OperationView {
        OperationView {
            id: self.id@,
            revision: self.revision,
            operation: self.operation,
            editing_epoch: self.editing_epoch,
        }
    }
}

impl Clone for ProfileOperationToken {
    fn clone(&self) -> (result: Self)
        ensures
            result@ == self@,
    {
        ProfileOperationToken {
            id: self.id.clone(),
            revision: self.revision,
            operation: self.operation,
            editing_epoch: self.editing_epoch,
        }
    }
}

/// The right to apply a profile to the hardware.
#[derive(Debug, PartialEq, Eq)]
pub struct ApplyToken {
    pub id: String,
    pub revision: u64,
    pub on_battery: bool,
    pub serial: u64,
}

/// The model of an [`ApplyToken`].
pub struct ApplyView {
    pub id: Seq<char>,
    pub revision: u64,
    pub on_battery: bool,
    pub serial: u64,
}

impl View for ApplyToken {
    type V = ApplyView;

    open spec fn view(&self) -> ApplyView {
        ApplyView {
            id: self.id@,
            revision: self.revision,
            on_battery: self.on_battery,
            serial: self.serial,
        }
    }
}

impl DeepView for ApplyToken {
    type V = ApplyView;

    open spec fn deep_view(&self) -> ApplyView {
        self.view()
    }
}

impl Clone for ApplyToken {
    fn clone(&self) -> (result: Self)
        ensures
            result@ == self@,
    {
        ApplyToken {
            id: self.id.clone(),
            revision: self.revision,
            on_battery: self.on_battery,
            serial: self.serial,
        }
    }
}

/// What becomes of a request to apply the active profile.
#[derive(Clone, Debug, PartialEq, Eq)]
pub enum ApplyRequest {
    Started(ApplyToken),
    Queued,
}

/// What follows a finished apply.
#[derive(Clone, Debug, PartialEq, Eq)]
pub struct ApplyCompletion {
    pub current: bool,
    pub next: Option<ApplyToken>,
}

/// The runtime state behind profile selection; none of it is stored.
#[derive(Debug)]
pub struct ProfileCoordinator {
    active_id: String,
    editing_id: String,
    editing_epoch: u64,
    config_revision: u64,
    profile_revisions: TextMap,
    operation_serials: TextMap,
    next_serial: u64,
    applying: Option<ApplyToken>,
    pending_apply: Option<ApplyToken>,
}

/// The model of a [`ProfileCoordinator`]: the profiles are the keys of
/// `revisions`.
pub struct CoordinatorView {
    pub active_id: Seq<char>,
    pub editing_id: Seq<char>,
    pub editing_epoch: u64,
    pub config_revision: u64,
    pub revisions: Map<Seq<char>, u64>,
    pub operations: Map<Seq<char>, u64>,
    pub next_serial: u64,
    pub applying: Option<ApplyView>,
    pub pending: Option<ApplyView>,
}

impl View for ProfileCoordinator {
    type V = CoordinatorView;

    closed spec fn view(&self) -> CoordinatorView {
        CoordinatorView {
            active_id: self.active_id@,
            editing_id: self.editing_id@,
            editing_epoch: self.editing_epoch,
            config_revision: self.config_revision,
            revisions: self.profile_revisions@,
            operations: self.operation_serials@,
            next_serial: self.next_serial,
            applying: self.applying.deep_view(),
            pending: self.pending_apply.deep_view(),
        }
    }
}

/// A counter map as a partial function.
pub open spec fn counter(map: Map<Seq<char>, u64>, name: Seq<char>) -> Option<u64> {
    if map.contains_key(name) {
        Some(map[name])
    } else {
        None
    }
}

impl CoordinatorView {
    /// The state after a change of the configuration.
    pub open spec fn changed(self) -> CoordinatorView {
        CoordinatorView { config_revision: following(self.config_revision), ..self }
    }

    /// The state after a profile is activated, if it is one and not active yet.
    pub open spec fn activated(self, id: Seq<char>) -> Option<CoordinatorView> {
        if !self.revisions.contains_key(id) || self.active_id == id {
            None
        } else {
            Some((CoordinatorView { active_id: id, ..self }).changed())
        }
    }

    /// The state after a profile is selected for editing, if it is one and not
    /// selected yet.
    pub open spec fn selected(self, id: Seq<char>) -> Option<CoordinatorView> {
        if !self.revisions.contains_key(id) || self.editing_id == id {
            None
        } else {
            Some(
                (CoordinatorView {
                    editing_id: id,
                    editing_epoch: following(self.editing_epoch),
                    ..self
                }).changed(),
            )
        }
    }

    /// The state after an edit of a profile, if it is one.
    pub open spec fn edited(self, id: Seq<char>) -> Option<CoordinatorView> {
        if !self.revisions.contains_key(id) {
            None
        } else {
            Some(
                (CoordinatorView {
                    revisions: self.revisions.insert(id, following(self.revisions[id])),
                    ..self
                }).changed(),
            )
        }
    }

    /// The state after a profile is added; a known one keeps its revision.
    pub open spec fn added(self, id: Seq<char>) -> CoordinatorView {
        (CoordinatorView {
            revisions: if self.revisions.contains_key(id) {
                self.revisions
            } else {
                self.revisions.insert(id, 0)
            },
            ..self
        }).changed()
    }

    /// The state after a profile is removed, if it is one: the fallbacks take
    /// its place where it was active or being edited.
    pub open spec fn removed(
        self,
        id: Seq<char>,
        fallback_active: Seq<char>,
        fallback_editing: Seq<char>,
    ) -> Option<CoordinatorView> {
        if !self.revisions.contains_key(id) {
            None
        } else {
            Some(
                (CoordinatorView {
                    revisions: self.revisions.remove(id),
                    operations: self.operations.remove(id),
                    active_id: if self.active_id == id {
                        fallback_active
                    } else {
                        self.active_id
                    },
                    editing_id: if self.editing_id == id {
                        fallback_editing
                    } else {
                        self.editing_id
                    },
                    editing_epoch: if self.editing_id == id {
                        following(self.editing_epoch)
                    } else {
                        self.editing_epoch
                    },
                    ..self
                }).changed(),
            )
        }
    }

    /// The number of the next operation on a profile.
    pub open spec fn next_operation(self, id: Seq<char>) -> u64 {
        if self.operations.contains_key(id) {
            following(self.operations[id])
        } else {
            0
        }
    }

    /// The state after an operation on a profile has begun, and its token.
    pub open spec fn begun(self, id: Seq<char>) -> (CoordinatorView, OperationView) {
        (
            CoordinatorView {
                operations: self.operations.insert(id, self.next_operation(id)),
                ..self
            },
            OperationView {
                id,
                revision: self.revisions[id],
                operation: self.next_operation(id),
                editing_epoch: self.editing_epoch,
            },
        )
    }

    /// The newest operation on a profile that has not been edited since.
    pub open spec fn current_operation(self, token: OperationView) -> bool {
        &&& counter(self.revisions, token.id) == Some(token.revision)
        &&& counter(self.operations, token.id) == Some(token.operation)
    }

    /// A current operation on the profile that is still being edited.
    pub open spec fn current_editor(self, token: OperationView) -> bool {
        &&& self.current_operation(token)
        &&& self.editing_id == token.id
        &&& self.editing_epoch == token.editing_epoch
    }

    /// The token for applying the active profile, and the state that has issued
    /// it.
    pub open spec fn issued(self, on_battery: bool) -> (CoordinatorView, ApplyView) {
        (
            CoordinatorView { next_serial: following(self.next_serial), ..self },
            ApplyView {
                id: self.active_id,
                revision: match counter(self.revisions, self.active_id) {
                    Some(revision) => revision,
                    None => 0,
                },
                on_battery,
                serial: following(self.next_serial),
            },
        )
    }

    /// The state after a request to apply the active profile, and the token of
    /// the work that starts at once.
    pub open spec fn requested(self, on_battery: bool) -> (CoordinatorView, Option<ApplyView>) {
        let (next, token) = self.issued(on_battery);
        if self.applying is Some {
            (CoordinatorView { pending: Some(token), ..next }, None)
        } else {
            (CoordinatorView { applying: Some(token), ..next }, Some(token))
        }
    }

    /// The token describes the active profile as it is, on this power source.
    pub open spec fn current_apply(self, token: ApplyView, on_battery: bool) -> bool {
        &&& self.active_id == token.id
        &&& counter(self.revisions, token.id) == Some(token.revision)
        &&& token.on_battery == on_battery
    }

    /// The state after an apply has finished, whether it was current, and the
    /// work that follows at once.
    ///
    /// The pending request follows if it is still current. If it is not, or if
    /// the finished work was stale, a new request for the active profile follows.
    pub open spec fn completed(self, token: ApplyView, on_battery: bool) -> (
        CoordinatorView,
        bool,
        Option<ApplyView>,
    ) {
        if self.applying != Some(token) {
            (self, false, None)
        } else {
            let idle = CoordinatorView { applying: None, pending: None, ..self };
            let current = self.current_apply(token, on_battery);
            if self.pending is Some && self.current_apply(self.pending->0, on_battery) {
                (CoordinatorView { applying: self.pending, ..idle }, current, self.pending)
            } else if self.pending is Some || !current {
                let (next, fresh) = idle.issued(on_battery);
                (CoordinatorView { applying: Some(fresh), ..next }, current, Some(fresh))
            } else {
                (idle, current, None)
            }
        }
    }
}

fn has_revision(found: Option<u64>, wanted: u64) -> (result: bool)
    ensures
        result == (found == Some(wanted)),
{
    match found {
        Some(value) => value == wanted,
        None => false,
    }
}

fn same_apply(a: &ApplyToken, b: &ApplyToken) -> (result: bool)
    ensures
        result == (a@ == b@),
{
    same(a.id.as_str(), b.id.as_str()) && a.revision == b.revision && a.on_battery == b.on_battery
        && a.serial == b.serial
}

impl ProfileCoordinator {
    /// Starts with nothing in progress. The active profile is edited if it is
    /// one of the profiles, else any of them, if there is one.
    pub fn new(active_id: String, profile_ids: Vec<String>) -> (result: Self)
        ensures
            ({
                let ids = profile_ids.deep_view();
                let state = result@;
                &&& state.active_id == active_id@
                &&& if ids.contains(active_id@) || ids.len() == 0 {
                    state.editing_id == active_id@
                } else {
                    ids.contains(state.editing_id)
                }
                &&& state.editing_epoch == 0
                &&& state.config_revision == 0
                &&& forall|id: Seq<char>| #[trigger]
                    state.revisions.contains_key(id) == ids.contains(id)
                &&& forall|id: Seq<char>| #[trigger]
                    state.revisions.contains_key(id) ==> state.revisions[id] == 0
                &&& state.operations == Map::<Seq<char>, u64>::empty()
                &&& state.next_serial == 0
                &&& state.applying is None
                &&& state.pending is None
            }),
    {
        let mut revisions: TextMap = TextMap::new();
        let ghost ids = profile_ids.deep_view();
        let mut i: usize = 0;
        while i < profile_ids.len()
            invariant
                ids == profile_ids.deep_view(),
                i <= profile_ids@.len(),
                forall|id: Seq<char>| #[trigger]
                    revisions@.contains_key(id) == ids.take(i as int).contains(id),
                forall|id: Seq<char>| #[trigger]
                    revisions@.contains_key(id) ==> revisions@[id] == 0,
            decreases profile_ids@.len() - i,
        {
            let ghost before = revisions@;
            revisions.insert(profile_ids[i].as_str(), 0);
            proof {
                assert(ids[i as int] == profile_ids@[i as int]@);
                assert(ids.take(i + 1) =~= ids.take(i as int).push(ids[i as int]));
                assert forall|id: Seq<char>| #[trigger]
                    revisions@.contains_key(id) == ids.take(i + 1).contains(id) by {
                    let known = ids.take(i as int);
                    if known.contains(id) {
                        assert(known.push(ids[i as int])[known.index_of(id)] == id);
                    }
                    if id == ids[i as int] {
                        assert(known.push(ids[i as int])[i as int] == id);
                    }
                    if ids.take(i + 1).contains(id) && id != ids[i as int] {
                        let at = ids.take(i + 1).index_of(id);
                        assert(known[at] == id);
                    }
                }
            }
            i = i + 1;
        }
        assert(ids.take(i as int) =~= ids);
        let known: bool = revisions.get(active_id.as_str()).is_some();
        let editing_id: String = if known || profile_ids.len() == 0 {
            active_id.clone()
        } else {
            assert(ids[0] == profile_ids@[0]@);
            profile_ids[0].clone()
        };
        ProfileCoordinator {
            active_id,
            editing_id,
            editing_epoch: 0,
            config_revision: 0,
            profile_revisions: revisions,
            operation_serials: TextMap::new(),
            next_serial: 0,
            applying: None,
            pending_apply: None,
        }
    }

    pub fn active_id(&self) -> (result: &str)
        ensures
            result@ == self@.active_id,
    {
        self.active_id.as_str()
    }

    pub fn editing_id(&self) -> (result: &str)
        ensures
            result@ == self@.editing_id,
    {
        self.editing_id.as_str()
    }

    /// Activates another profile; the profile being edited stays the same.
    pub fn activate(&mut self, id: &str) -> (result: bool)
        ensures
            match old(self)@.activated(id@) {
                Some(next) => result && final(self)@ == next,
                None => !result && final(self)@ == old(self)@,
            },
    {
        if self.profile_revisions.get(id).is_none() || same(self.active_id.as_str(), id) {
            return false;
        }
        self.active_id = String::from_str(id);
        self.mark_config_changed();
        true
    }

    /// Selects another profile for editing.
    pub fn select_editing(&mut self, id: &str) -> (result: bool)
        ensures
            match old(self)@.selected(id@) {
                Some(next) => result && final(self)@ == next,
                None => !result && final(self)@ == old(self)@,
            },
    {
        if self.profile_revisions.get(id).is_none() || same(self.editing_id.as_str(), id) {
            return false;
        }
        self.editing_id = String::from_str(id);
        self.editing_epoch = self.editing_epoch.wrapping_add(1);
        self.mark_config_changed();
        true
    }

    pub fn mark_config_changed(&mut self)
        ensures
            final(self)@ == old(self)@.changed(),
    {
        self.config_revision = self.config_revision.wrapping_add(1);
    }

    /// Records an edit of a profile, which outdates the work on it.
    pub fn mark_profile_changed(&mut self, id: &str) -> (result: bool)
        ensures
            match old(self)@.edited(id@) {
                Some(next) => result && final(self)@ == next,
                None => !result && final(self)@ == old(self)@,
            },
    {
        let revision: u64 = match self.profile_revisions.get(id) {
            Some(revision) => revision,
            None => {
                return false;
            },
        };
        self.profile_revisions.insert(id, revision.wrapping_add(1));
        self.mark_config_changed();
        true
    }

    pub fn add_profile(&mut self, id: &str)
        ensures
            final(self)@ == old(self)@.added(id@),
    {
        if self.profile_revisions.get(id).is_none() {
            self.profile_revisions.insert(id, 0);
        }
        self.mark_config_changed();
    }

    /// Removes a profile; the fallbacks take its place where it was active or
    /// being edited.
    pub fn remove_profile(
        &mut self,
        id: &str,
        fallback_active: &str,
        fallback_editing: &str,
    ) -> (result: bool)
        ensures
            match old(self)@.removed(id@, fallback_active@, fallback_editing@) {
                Some(next) => result && final(self)@ == next,
                None => !result && final(self)@ == old(self)@,
            },
    {
        if self.profile_revisions.get(id).is_none() {
            return false;
        }
        self.profile_revisions.remove(id);
        self.operation_serials.remove(id);
        if same(self.active_id.as_str(), id) {
            self.active_id = String::from_str(fallback_active);
        }
        if same(self.editing_id.as_str(), id) {
            self.editing_id = String::from_str(fallback_editing);
            self.editing_epoch = self.editing_epoch.wrapping_add(1);
        }
        self.mark_config_changed();
        true
    }

    /// Begins an operation on a profile; it supersedes the ones before it.
    pub fn begin_operation(&mut self, id: &str) -> (result: Option<ProfileOperationToken>)
        ensures
            if old(self)@.revisions.contains_key(id@) {
                &&& result matches Some(token)
                &&& token@ == old(self)@.begun(id@).1
                &&& final(self)@ == old(self)@.begun(id@).0
            } else {
                result is None && final(self)@ == old(self)@
            },
    {
        let revision: u64 = match self.profile_revisions.get(id) {
            Some(revision) => revision,
            None => {
                return None;
            },
        };
        let operation: u64 = match self.operation_serials.get(id) {
            Some(serial) => serial.wrapping_add(1),
            None => 0,
        };
        self.operation_serials.insert(id, operation);
        Some(
            ProfileOperationToken {
                id: String::from_str(id),
                revision,
                operation,
                editing_epoch: self.editing_epoch,
            },
        )
    }

    pub fn is_current_operation(&self, token: &ProfileOperationToken) -> (result: bool)
        ensures
            result == self@.current_operation(token@),
    {
        has_revision(self.profile_revisions.get(token.id.as_str()), token.revision) && has_revision(
            self.operation_serials.get(token.id.as_str()),
            token.operation,
        )
    }

    pub fn is_current_editor(&self, token: &ProfileOperationToken) -> (result: bool)
        ensures
            result == self@.current_editor(token@),
    {
        self.is_current_operation(token) && same(self.editing_id.as_str(), token.id.as_str())
            && self.editing_epoch == token.editing_epoch
    }

    fn new_apply_token(&mut self, on_battery: bool) -> (result: ApplyToken)
        ensures
            (final(self)@, result@) == old(self)@.issued(on_battery),
    {
        let revision: u64 = match self.profile_revisions.get(self.active_id.as_str()) {
            Some(revision) => revision,
            None => 0,
        };
        self.next_serial = self.next_serial.wrapping_add(1);
        ApplyToken {
            id: self.active_id.clone(),
            revision,
            on_battery,
            serial: self.next_serial,
        }
    }

    /// Asks for the active profile to be applied: at once if nothing is being
    /// applied, else when that is finished, in place of an older request.
    pub fn request_apply(&mut self, on_battery: bool) -> (result: ApplyRequest)
        ensures
            final(self)@ == old(self)@.requested(on_battery).0,
            match old(self)@.requested(on_battery).1 {
                Some(token) => result matches ApplyRequest::Started(started) && started@ == token,
                None => result is Queued,
            },
    {
        let token: ApplyToken = self.new_apply_token(on_battery);
        if self.applying.is_some() {
            self.pending_apply = Some(token);
            ApplyRequest::Queued
        } else {
            self.applying = Some(token.clone());
            ApplyRequest::Started(token)
        }
    }

    pub fn is_current_apply(&self, token: &ApplyToken, on_battery: bool) -> (result: bool)
        ensures
            result == self@.current_apply(token@, on_battery),
    {
        same(self.active_id.as_str(), token.id.as_str()) && has_revision(
            self.profile_revisions.get(token.id.as_str()),
            token.revision,
        ) && token.on_battery == on_battery
    }

    /// Finishes a started apply. Started work is never cancelled. A newer request
    /// that is still current is returned for immediate scheduling; if the
    /// finished work was stale, a request for the active profile is made, so that
    /// the hardware converges to what the user wants.
    pub fn complete_apply(&mut self, token: &ApplyToken, on_battery: bool) -> (result:
        ApplyCompletion)
        ensures
            (final(self)@, result.current, result.next.deep_view()) == old(self)@.completed(
                token@,
                on_battery,
            ),
    {
        let owned: bool = match &self.applying {
            Some(applying) => same_apply(applying, token),
            None => false,
        };
        if !owned {
            return ApplyCompletion { current: false, next: None };
        }
        self.applying = None;
        let current: bool = self.is_current_apply(token, on_battery);
        let pending: Option<ApplyToken> = self.pending_apply.take();
        let had_pending: bool = pending.is_some();
        let mut next: Option<ApplyToken> = None;
        if let Some(request) = pending {
            if self.is_current_apply(&request, on_battery) {
                next = Some(request);
            }
        }
        if next.is_none() && (had_pending || !current) {
            next = Some(self.new_apply_token(on_battery));
        }
        if let Some(request) = &next {
            self.applying = Some(request.clone());
        }
        ApplyCompletion { current, next }
    }
}

// ---------------------------------------------------------------------------
// Laws
// ---------------------------------------------------------------------------

/// A fresh token is current, and current for the editor where it edits the
/// profile.
pub proof fn law_fresh_operation_is_current(state: CoordinatorView, id: Seq<char>)
    requires
        state.revisions.contains_key(id),
    ensures
        state.begun(id).0.current_operation(state.begun(id).1),
        state.editing_id == id ==> state.begun(id).0.current_editor(state.begun(id).1),
{
}

/// Activating a profile, selecting another one for editing and edits of other
/// profiles leave an operation current; activation also leaves the editor alone.
pub proof fn law_unrelated_changes_keep_an_operation(
    state: CoordinatorView,
    token: OperationView,
    other: Seq<char>,
)
    ensures
        state.activated(other) matches Some(next) ==> next.editing_id == state.editing_id
            && next.current_operation(token) == state.current_operation(token)
            && next.current_editor(token) == state.current_editor(token),
        state.selected(other) matches Some(next) ==> next.active_id == state.active_id
            && next.current_operation(token) == state.current_operation(token),
        other != token.id ==> (state.edited(other) matches Some(next) ==> next.current_operation(
            token,
        ) == state.current_operation(token)),
{
}

/// An edit of its profile outdates an operation, and so do a newer operation on
/// the profile and its removal.
pub proof fn law_outdated_operation_is_rejected(
    state: CoordinatorView,
    token: OperationView,
    fallback_active: Seq<char>,
    fallback_editing: Seq<char>,
)
    requires
        state.current_operation(token),
    ensures
        state.edited(token.id) matches Some(next) && !next.current_operation(token),
        !state.begun(token.id).0.current_operation(token),
        state.removed(token.id, fallback_active, fallback_editing) matches Some(next)
            && !next.current_operation(token),
{
}

/// Selecting another profile ends the editor's claim on an operation, and so
/// does coming back to its profile.
pub proof fn law_changed_selection_ends_the_editor(
    state: CoordinatorView,
    token: OperationView,
    other: Seq<char>,
)
    requires
        state.current_editor(token),
        other != token.id,
        state.revisions.contains_key(other),
    ensures
        state.selected(other) matches Some(away) && !away.current_editor(token) && (away.selected(
            token.id,
        ) matches Some(back) && !back.current_editor(token)),
{
}

/// A call of the coordinator.
pub enum CoordinatorCall {
    Activate(Seq<char>),
    SelectEditing(Seq<char>),
    MarkConfigChanged,
    MarkProfileChanged(Seq<char>),
    AddProfile(Seq<char>),
    RemoveProfile(Seq<char>, Seq<char>, Seq<char>),
    BeginOperation(Seq<char>),
    RequestApply(bool),
    CompleteApply(ApplyView, bool),
}

impl CoordinatorView {
    /// The state after a change, or the present one where nothing changes.
    pub open spec fn or_same(self, next: Option<CoordinatorView>) -> CoordinatorView {
        match next {
            Some(next) => next,
            None => self,
        }
    }

    /// The state after a call.
    pub open spec fn after(self, call: CoordinatorCall) -> CoordinatorView {
        match call {
            CoordinatorCall::Activate(id) => self.or_same(self.activated(id)),
            CoordinatorCall::SelectEditing(id) => self.or_same(self.selected(id)),
            CoordinatorCall::MarkConfigChanged => self.changed(),
            CoordinatorCall::MarkProfileChanged(id) => self.or_same(self.edited(id)),
            CoordinatorCall::AddProfile(id) => self.added(id),
            CoordinatorCall::RemoveProfile(id, fallback_active, fallback_editing) => self.or_same(
                self.removed(id, fallback_active, fallback_editing),
            ),
            CoordinatorCall::BeginOperation(id) => if self.revisions.contains_key(id) {
                self.begun(id).0
            } else {
                self
            },
            CoordinatorCall::RequestApply(on_battery) => self.requested(on_battery).0,
            CoordinatorCall::CompleteApply(token, on_battery) => self.completed(
                token,
                on_battery,
            ).0,
        }
    }

    /// The state after calls.
    pub open spec fn after_all(self, calls: Seq<CoordinatorCall>) -> CoordinatorView
        decreases calls.len(),
    {
        if calls.len() == 0 {
            self
        } else {
            self.after_all(calls.drop_last()).after(calls.last())
        }
    }

    /// How many epochs of the editor calls have begun.
    pub open spec fn epochs(self, calls: Seq<CoordinatorCall>) -> nat
        decreases calls.len(),
    {
        if calls.len() == 0 {
            0
        } else {
            let before = self.after_all(calls.drop_last());
            self.epochs(calls.drop_last()) + if before.after(calls.last()).editing_epoch
                == before.editing_epoch {
                0nat
            } else {
                1nat
            }
        }
    }
}

proof fn lemma_epoch_after_calls(state: CoordinatorView, calls: Seq<CoordinatorCall>)
    ensures
        state.after_all(calls).editing_epoch == generation_after(
            state.editing_epoch,
            state.epochs(calls),
        ),
    decreases calls.len(),
{
    if calls.len() > 0 {
        lemma_epoch_after_calls(state, calls.drop_last());
    }
}

/// Selecting another profile for editing ends the editor's claim on every
/// operation that was begun before, and nothing brings it back, not even coming
/// back to its profile, as long as fewer than 2^64 selections have been made since
/// the operation was begun. The active profile and the operations stay as they
/// are.
pub proof fn law_selection_ends_every_earlier_claim(
    begin: CoordinatorView,
    token: OperationView,
    earlier: Seq<CoordinatorCall>,
    id: Seq<char>,
    later: Seq<CoordinatorCall>,
)
    requires
        token.editing_epoch == begin.editing_epoch,
        begin.after_all(earlier).selected(id) is Some,
        begin.epochs(earlier) + 1 + begin.after_all(earlier).selected(id)->0.epochs(later)
            <= u64::MAX,
    ensures
        ({
            let before = begin.after_all(earlier);
            let chosen = before.selected(id)->0;
            &&& chosen.editing_id == id
            &&& chosen.active_id == before.active_id
            &&& forall|other: OperationView| #[trigger]
                chosen.current_operation(other) == before.current_operation(other)
            &&& !chosen.current_editor(token)
            &&& !chosen.after_all(later).current_editor(token)
        }),
{
    let before = begin.after_all(earlier);
    let chosen = before.selected(id)->0;
    lemma_epoch_after_calls(begin, earlier);
    lemma_epoch_after_calls(chosen, later);
}

/// The active and the edited profile are profiles.
pub open spec fn refers_to_profiles(state: CoordinatorView) -> bool {
    state.revisions.contains_key(state.active_id) && state.revisions.contains_key(state.editing_id)
}

/// Every operation keeps the active and the edited profile among the profiles,
/// a removal if its fallbacks are other profiles.
pub proof fn law_references_stay_valid(
    state: CoordinatorView,
    id: Seq<char>,
    fallback_active: Seq<char>,
    fallback_editing: Seq<char>,
    token: ApplyView,
    on_battery: bool,
)
    requires
        refers_to_profiles(state),
    ensures
        refers_to_profiles(state.changed()),
        state.activated(id) matches Some(next) ==> refers_to_profiles(next),
        state.selected(id) matches Some(next) ==> refers_to_profiles(next),
        state.edited(id) matches Some(next) ==> refers_to_profiles(next),
        refers_to_profiles(state.added(id)),
        refers_to_profiles(state.begun(id).0),
        refers_to_profiles(state.requested(on_battery).0),
        refers_to_profiles(state.completed(token, on_battery).0),
        state.revisions.contains_key(fallback_active) && fallback_active != id
            && state.revisions.contains_key(fallback_editing) && fallback_editing != id ==> (
        state.removed(id, fallback_active, fallback_editing) matches Some(next)
            ==> refers_to_profiles(next)),
{
}

/// Started work is never cancelled or joined by other work: a request that comes
/// while something is applied leaves it in place and waits.
pub proof fn law_started_work_is_never_cancelled(state: CoordinatorView, on_battery: bool)
    requires
        state.applying is Some,
    ensures
        state.requested(on_battery).0.applying == state.applying,
        state.requested(on_battery).1 is None,
        state.requested(on_battery).0.pending == Some(state.issued(on_battery).1),
{
}

/// A completion that does not belong to the work in progress changes nothing.
pub proof fn law_foreign_completion_changes_nothing(
    state: CoordinatorView,
    token: ApplyView,
    on_battery: bool,
)
    requires
        state.applying != Some(token),
    ensures
        state.completed(token, on_battery) == (state, false, None::<ApplyView>),
{
}

/// The hardware converges: when work finishes, either it was current and nothing
/// is left to do, or work that is current follows at once and is in progress.
pub proof fn law_completion_converges(state: CoordinatorView, token: ApplyView, on_battery: bool)
    requires
        state.applying == Some(token),
        state.revisions.contains_key(state.active_id),
    ensures
        ({
            let (next, current, following_work) = state.completed(token, on_battery);
            &&& current == state.current_apply(token, on_battery)
            &&& next.pending is None
            &&& next.applying == following_work
            &&& match following_work {
                Some(work) => next.current_apply(work, on_battery),
                None => current && state.pending is None,
            }
        }),
{
}

/// The newest request wins: after a request was queued, finishing the work in
/// progress starts that request, as long as nothing has changed since.
pub proof fn law_newest_request_wins(state: CoordinatorView, token: ApplyView, on_battery: bool)
    requires
        state.applying == Some(token),
        state.revisions.contains_key(state.active_id),
    ensures
        ({
            let queued = state.requested(on_battery).0;
            let (next, current, following_work) = queued.completed(token, on_battery);
            &&& following_work == Some(state.issued(on_battery).1)
            &&& following_work->0.id == state.active_id
        }),
{
}

/// Activating and selecting move one reference each, to a known profile that it
/// does not show yet, and to no other.
pub proof fn law_references_move_one_at_a_time(state: CoordinatorView, id: Seq<char>)
    ensures
        state.activated(id) is Some <==> state.revisions.contains_key(id) && state.active_id != id,
        state.activated(id) matches Some(next) ==> next.active_id == id && next.editing_id
            == state.editing_id && next.revisions == state.revisions && next.operations
            == state.operations && next.applying == state.applying && next.pending == state.pending,
        state.selected(id) is Some <==> state.revisions.contains_key(id) && state.editing_id != id,
        state.selected(id) matches Some(next) ==> next.editing_id == id && next.active_id
            == state.active_id && next.revisions == state.revisions && next.operations
            == state.operations && next.applying == state.applying && next.pending == state.pending,
{
}

/// An edit renews the revision of its profile and of no other; a profile that is
/// added is known afterwards, one that is removed is not, and the references of a
/// removed profile go to its fallbacks.
pub proof fn law_profiles_come_and_go(
    state: CoordinatorView,
    id: Seq<char>,
    other: Seq<char>,
    fallback_active: Seq<char>,
    fallback_editing: Seq<char>,
)
    requires
        other != id,
    ensures
        state.edited(id) is Some <==> state.revisions.contains_key(id),
        state.edited(id) matches Some(next) ==> counter(next.revisions, id) != counter(
            state.revisions,
            id,
        ) && counter(next.revisions, other) == counter(state.revisions, other),
        state.added(id).revisions.contains_key(id),
        state.revisions.contains_key(id) ==> state.added(id).revisions == state.revisions,
        counter(state.added(id).revisions, other) == counter(state.revisions, other),
        state.removed(id, fallback_active, fallback_editing) is Some
            <==> state.revisions.contains_key(id),
        state.removed(id, fallback_active, fallback_editing) matches Some(next) ==> {
            &&& !next.revisions.contains_key(id)
            &&& counter(next.revisions, other) == counter(state.revisions, other)
            &&& counter(next.operations, other) == counter(state.operations, other)
            &&& next.active_id == (if state.active_id == id {
                fallback_active
            } else {
                state.active_id
            })
            &&& next.editing_id == (if state.editing_id == id {
                fallback_editing
            } else {
                state.editing_id
            })
        },
{
}

/// A request on idle hardware starts at once, for the active profile as it is and
/// the source it is made for.
pub proof fn law_a_request_starts_at_once(state: CoordinatorView, on_battery: bool)
    requires
        state.applying is None,
        state.revisions.contains_key(state.active_id),
    ensures
        ({
            let (busy, started) = state.requested(on_battery);
            &&& started matches Some(token) && token.id == state.active_id && token.revision
                == state.revisions[state.active_id] && token.on_battery == on_battery
            &&& busy.applying == started
            &&& busy.active_id == state.active_id && busy.revisions == state.revisions
        }),
{
}

/// What changes while a profile is applied is applied afterwards: an edit of it,
/// another profile, or another power source makes the finished work outdated, and
/// work for the present state follows. Without a change nothing follows.
pub proof fn law_changes_during_an_apply_are_applied(
    state: CoordinatorView,
    other: Seq<char>,
    on_battery: bool,
)
    requires
        state.applying is None,
        state.pending is None,
        state.revisions.contains_key(state.active_id),
        state.revisions.contains_key(other),
        other != state.active_id,
    ensures
        ({
            let (busy, started) = state.requested(on_battery);
            let token = started->0;
            let unchanged = busy.completed(token, on_battery);
            let edited = (busy.edited(state.active_id)->0).completed(token, on_battery);
            let switched = (busy.activated(other)->0).completed(token, on_battery);
            let replugged = busy.completed(token, !on_battery);
            &&& unchanged.1 && unchanged.2 is None && unchanged.0.applying is None
            &&& !edited.1 && (edited.2 matches Some(work) && work.id == state.active_id
                && work.revision != token.revision)
            &&& !switched.1 && (switched.2 matches Some(work) && work.id == other)
            &&& !replugged.1 && (replugged.2 matches Some(work) && work.id == state.active_id
                && work.on_battery != on_battery)
        }),
{
}

} // verus!
