//! A verified counted-repetition block helper for the handlebars template
//! engine.
//!
//! The helper renders its block body `count` times, binding the loop-locals
//! `@index`, `@first` and `@last` inside each iteration, and renders an
//! optional `{{else}}` section instead when the count is zero:
//!
//! ```notrust
//! {{#repeat 3}}hi {{else}}none{{/repeat}}
//! ```
//!
//! produces `hi hi hi `.
//!
//! The crate verifies the helper's core: argument validation
//! ([`invocation`]), the per-iteration loop-local values ([`locals`]), the
//! invocation state machine that sequences the renders ([`session`]), and
//! the scope-frame discipline on the engine's render context ([`scope`]).
//! The engine-facing registration glue drives these through
//! [`session::RepeatSession`].

use vstd::prelude::*;

pub mod invocation;
pub mod locals;
pub mod scope;
pub mod session;

verus! {

/// The `repeat` helper.
///
/// The helper holds no state of its own: every invocation is fully
/// self-contained, driven by a fresh [`session::RepeatSession`].
#[derive(Clone, Copy)]
pub struct RepeatHelper;

impl RepeatHelper {
    /// The name under which the helper is registered with an engine.
    pub fn name(&self) -> (r: &'static str)
        ensures
            r@ == "repeat"@,
    {
        "repeat"
    }
}

} // verus!
