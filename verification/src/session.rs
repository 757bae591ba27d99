//! The state machine of one `repeat` invocation.
//!
//! After validation, an invocation is a short dialogue between the helper's
//! core and the engine: render the body under fresh loop-locals, `count`
//! times in ascending order, or render the fallback once when the count is
//! zero, stopping at the first failure. [`RepeatSession`] is that dialogue's
//! state: the driver asks [`RepeatSession::next_step`] what to do, performs
//! the render it names, and reports the outcome back. A ghost history
//! records every render call made, and the laws at the bottom pin down what
//! that history is for each kind of run.

use vstd::prelude::*;

use crate::invocation::{ParamValue, RepeatError, spec_validate, validate};
use crate::locals::{LoopLocals, locals_for};

verus! {

/// One render call the helper asked the engine to make.
#[derive(Clone, Copy, Debug, PartialEq, Eq, Structural)]
pub enum RenderCall {
    /// The primary body, rendered under these loop-locals.
    Body(LoopLocals),
    /// The fallback body, rendered with no loop-locals introduced.
    Fallback,
}

/// What the driver of an invocation must do next.
#[derive(Clone, Copy, Debug, PartialEq, Eq, Structural)]
pub enum Step {
    /// Push a scope frame holding these loop-locals, render the primary
    /// body, pop the frame again, and report the outcome through
    /// [`RepeatSession::record_body`].
    Iterate(LoopLocals),
    /// Render the fallback body once, against the scope stack exactly as it
    /// stood on entry, and report the outcome through
    /// [`RepeatSession::record_fallback`].
    Fallback,
    /// A render failed: propagate that failure; nothing more is rendered.
    Failed,
    /// The invocation is complete.
    Done,
}

/// The body render calls of the first `n` iterations of a run of `count`.
pub open spec fn body_calls(count: u64, n: int) -> Seq<RenderCall> {
    Seq::new(n as nat, |i: int| RenderCall::Body(locals_for(i as u64, count)))
}

/// The state of one validated `repeat` invocation.
pub struct RepeatSession {
    /// How many times the primary body is to be rendered.
    pub count: u64,
    /// Whether a fallback body is attached to the call site.
    pub has_fallback: bool,
    /// How many body renders have been asked for so far.
    pub next_index: u64,
    /// Whether the fallback render has been asked for.
    pub rendered_fallback: bool,
    /// Whether a render reported failure.
    pub failed: bool,
    /// The render calls asked for so far, in order.
    pub history: Ghost<Seq<RenderCall>>,
}

impl RepeatSession {
    /// The session's invariant: the history is exactly what the counters
    /// say. A fallback render happens only for a zero count with a fallback
    /// attached, and a failure only after some render was asked for.
    pub open spec fn wf(self) -> bool {
        &&& self.next_index <= self.count
        &&& (self.rendered_fallback ==> self.count == 0 && self.has_fallback)
        &&& (if self.rendered_fallback {
            self.history@ == seq![RenderCall::Fallback]
        } else {
            self.history@ == body_calls(self.count, self.next_index as int)
        })
        &&& (self.failed ==> self.next_index > 0 || self.rendered_fallback)
    }

    /// The next step of the invocation state machine: propagate a failure,
    /// else iterate while iterations remain, else render the fallback for a
    /// zero count with one attached, else finish.
    pub open spec fn spec_step(self) -> Step {
        if self.failed {
            Step::Failed
        } else if self.next_index < self.count {
            Step::Iterate(locals_for(self.next_index, self.count))
        } else if self.count == 0 && self.has_fallback && !self.rendered_fallback {
            Step::Fallback
        } else {
            Step::Done
        }
    }

    /// Validate an invocation and, on success, begin its session: nothing
    /// rendered yet, no failure recorded. On a rejected invocation the
    /// validation error is returned unchanged.
    pub fn start(param: Option<ParamValue>, has_body: bool, has_fallback: bool) -> (r: Result<
        RepeatSession,
        RepeatError,
    >)
        ensures
            match spec_validate(param, has_body) {
                Err(e) => r == Err::<RepeatSession, RepeatError>(e),
                Ok(count) => match r {
                    Ok(s) => {
                        &&& s.wf()
                        &&& s.count == count
                        &&& s.has_fallback == has_fallback
                        &&& s.next_index == 0
                        &&& !s.failed
                        &&& !s.rendered_fallback
                        &&& s.history@ == Seq::<RenderCall>::empty()
                    },
                    Err(_) => false,
                },
            },
    {
        let count = match validate(param, has_body) {
            Ok(c) => c,
            Err(e) => {
                return Err(e);
            },
        };
        proof {
            assert(body_calls(count, 0) =~= Seq::<RenderCall>::empty());
        }
        Ok(
            RepeatSession {
                count,
                has_fallback,
                next_index: 0,
                rendered_fallback: false,
                failed: false,
                history: Ghost(Seq::empty()),
            },
        )
    }

    /// Tell the driver what to do next.
    pub fn next_step(&self) -> (s: Step)
        ensures
            s == self.spec_step(),
    {
        if self.failed {
            Step::Failed
        } else if self.next_index < self.count {
            Step::Iterate(LoopLocals::new(self.next_index, self.count))
        } else if self.count == 0 && self.has_fallback && !self.rendered_fallback {
            Step::Fallback
        } else {
            Step::Done
        }
    }

    /// Record the outcome of the body render that the pending
    /// [`Step::Iterate`] asked for: the iteration is counted, and on failure
    /// the session moves to `Failed`, asking for no further render.
    pub fn record_body(&mut self, ok: bool)
        requires
            old(self).wf(),
            old(self).spec_step() is Iterate,
        ensures
            final(self).wf(),
            final(self).count == old(self).count,
            final(self).has_fallback == old(self).has_fallback,
            final(self).next_index == old(self).next_index + 1,
            final(self).rendered_fallback == old(self).rendered_fallback,
            final(self).failed == !ok,
            final(self).history@ == old(self).history@.push(
                RenderCall::Body(locals_for(old(self).next_index, old(self).count)),
            ),
    {
        proof {
            assert(body_calls(self.count, self.next_index + 1) =~= body_calls(
                self.count,
                self.next_index as int,
            ).push(RenderCall::Body(locals_for(self.next_index, self.count))));
        }
        self.history = Ghost(
            self.history@.push(RenderCall::Body(locals_for(self.next_index, self.count))),
        );
        self.next_index = self.next_index + 1;
        if !ok {
            self.failed = true;
        }
    }

    /// Record the outcome of the fallback render that the pending
    /// [`Step::Fallback`] asked for.
    pub fn record_fallback(&mut self, ok: bool)
        requires
            old(self).wf(),
            old(self).spec_step() is Fallback,
        ensures
            final(self).wf(),
            final(self).count == old(self).count,
            final(self).has_fallback == old(self).has_fallback,
            final(self).next_index == old(self).next_index,
            final(self).rendered_fallback,
            final(self).failed == !ok,
            final(self).history@ == old(self).history@.push(RenderCall::Fallback),
    {
        proof {
            assert(old(self).history@ =~= Seq::<RenderCall>::empty());
            assert(old(self).history@.push(RenderCall::Fallback) =~= seq![RenderCall::Fallback]);
        }
        self.history = Ghost(self.history@.push(RenderCall::Fallback));
        self.rendered_fallback = true;
        if !ok {
            self.failed = true;
        }
    }
}

/// Law: a run of `count >= 1` iterations driven to `Done` without failure
/// rendered the primary body exactly `count` times and nothing else, at
/// indexes 0, 1, …, count-1 in strictly ascending order, each under the
/// loop-locals of its index.
pub proof fn lemma_complete_run(s: RepeatSession)
    requires
        s.wf(),
        s.count >= 1,
        s.spec_step() is Done,
    ensures
        s.history@.len() == s.count,
        forall|i: int|
            0 <= i < s.count ==> s.history@[i] == RenderCall::Body(locals_for(i as u64, s.count)),
{
}

/// Law: a zero-count run driven to `Done` rendered the fallback exactly once
/// when one was attached, and rendered nothing at all — and recorded no
/// failure — when none was. In neither case was the primary body rendered.
pub proof fn lemma_zero_count_run(s: RepeatSession)
    requires
        s.wf(),
        s.count == 0,
        s.spec_step() is Done,
    ensures
        !s.failed,
        s.has_fallback ==> s.history@ == seq![RenderCall::Fallback],
        !s.has_fallback ==> s.history@ == Seq::<RenderCall>::empty(),
        forall|i: int| 0 <= i < s.history@.len() ==> s.history@[i] is Fallback,
{
    if !s.has_fallback {
        assert(s.history@ =~= Seq::<RenderCall>::empty());
    }
}

/// Law: with a zero count the state machine never asks for an iteration, so
/// no scope frame is pushed and no loop-local is ever defined — the fallback
/// (if any) renders against the scope stack exactly as it stood on entry.
pub proof fn lemma_zero_count_no_iteration(s: RepeatSession)
    requires
        s.count == 0,
    ensures
        !(s.spec_step() is Iterate),
{
}

/// Law: after a failed render the machine asks for nothing further: the only
/// step it ever yields is `Failed`, so the remaining iterations are
/// abandoned and no output past the failing point is produced.
pub proof fn lemma_failure_aborts(s: RepeatSession)
    requires
        s.failed,
    ensures
        s.spec_step() == Step::Failed,
{
}

} // verus!
