//! The loop-local bindings of one iteration.

use vstd::prelude::*;

verus! {

/// The three loop-local bindings that one iteration of the `repeat` block
/// exposes to the template body.
///
/// The bindings are mutually consistent by construction: `first` holds
/// exactly when `index == 0` and `last` exactly when `index == count - 1`
/// (see [`locals_for`] and [`LoopLocals::new`]).
#[derive(Clone, Copy, Debug, PartialEq, Eq, Structural)]
pub struct LoopLocals {
    /// 0-based position of the current iteration.
    pub index: u64,
    /// Whether this is the first iteration.
    pub first: bool,
    /// Whether this is the last iteration.
    pub last: bool,
}

/// The loop-locals of iteration `index` in a run of `count` iterations.
pub open spec fn locals_for(index: u64, count: u64) -> LoopLocals {
    LoopLocals { index, first: index == 0, last: index == count - 1 }
}

impl LoopLocals {
    /// Compute the loop-locals of iteration `index` in a run of `count`
    /// iterations.
    pub fn new(index: u64, count: u64) -> (r: LoopLocals)
        requires
            index < count,
        ensures
            r == locals_for(index, count),
    {
        LoopLocals { index, first: index == 0, last: index == count - 1 }
    }
}

/// Law: in a run of `count` iterations, `first` holds exactly on index 0 and
/// `last` exactly on index `count - 1`; in a run of a single iteration both
/// hold for its sole iteration.
pub proof fn lemma_first_last(index: u64, count: u64)
    requires
        index < count,
    ensures
        locals_for(index, count).first <==> index == 0,
        locals_for(index, count).last <==> index == count - 1,
        count == 1 ==> locals_for(index, count).first && locals_for(index, count).last,
{
}

} // verus!
