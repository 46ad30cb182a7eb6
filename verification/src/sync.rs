//! A guard against reacting to changes that the program itself makes.

use vstd::prelude::*;

verus! {

/// Counts the nested operations that update the interface.
///
/// A guard has one depth and is not copied: whoever has to see it shares it.
#[derive(Debug, PartialEq, Eq)]
pub struct SyncGuard {
    depth: u32,
}

impl View for SyncGuard {
    type V = nat;

    closed spec fn view(&self) -> nat {
        self.depth as nat
    }
}

/// The depth inside an operation; it saturates.
pub open spec fn deeper(depth: nat) -> nat {
    if depth >= u32::MAX {
        u32::MAX as nat
    } else {
        depth + 1
    }
}

/// The depth behind an operation; it saturates.
pub open spec fn shallower(depth: nat) -> nat {
    if depth == 0 {
        0
    } else {
        (depth - 1) as nat
    }
}

impl SyncGuard {
    /// Whether an operation is running.
    pub fn active(&self) -> (result: bool)
        ensures
            result == (self@ != 0),
    {
        self.depth != 0
    }

    /// Enters an operation.
    pub fn enter(&mut self)
        ensures
            final(self)@ == deeper(old(self)@),
            final(self)@ != 0,
    {
        self.depth = self.depth.saturating_add(1);
    }

    /// Leaves an operation.
    pub fn leave(&mut self)
        ensures
            final(self)@ == shallower(old(self)@),
    {
        self.depth = self.depth.saturating_sub(1);
    }

    /// Runs an operation inside the guard, which it sees as active.
    pub fn run<T, F: FnOnce(&SyncGuard) -> T>(&mut self, operation: F) -> (result: T)
        requires
            forall|inside: &SyncGuard|
                inside@ == deeper(old(self)@) ==> #[trigger] operation.requires((inside,)),
        ensures
            exists|inside: &SyncGuard|
                inside@ == deeper(old(self)@) && inside@ != 0 && #[trigger] operation.ensures(
                    (inside,),
                    result,
                ),
            final(self)@ == shallower(deeper(old(self)@)),
    {
        self.enter();
        let result: T = operation(&*self);
        self.leave();
        result
    }
}

impl Default for SyncGuard {
    fn default() -> (result: Self)
        ensures
            result@ == 0,
    {
        SyncGuard { depth: 0 }
    }
}

/// Leaving undoes entering, as long as fewer than `u32::MAX` operations are
/// nested.
pub proof fn law_leaving_undoes_entering(depth: nat)
    requires
        depth < u32::MAX,
    ensures
        shallower(deeper(depth)) == depth,
{
}

} // verus!
