//! Scope-frame discipline on the engine's render context.
//!
//! The engine owns a stack of scope frames ([`handlebars::BlockContext`]
//! values inside a [`handlebars::RenderContext`]); the helper's whole
//! access to it is strict LIFO: build a frame for one iteration — the
//! innermost live frame's bindings with the three loop-locals bound on top —
//! push it, let the engine render the body, pop it again. The stack is
//! modelled as a sequence of frames, innermost last, each frame viewed as
//! the map from loop-local names to bound values; the trusted wrappers
//! around the engine's calls state what each call does to that model, and
//! [`enter_frame`] / [`exit_frame`] are verified against them.

use vstd::prelude::*;

use handlebars::{BlockContext, RenderContext};

use crate::locals::LoopLocals;

verus! {

/// The engine's render context, owner of the scope-frame stack.
#[verifier::external_type_specification]
#[verifier::external_body]
pub struct ExRenderContext<'reg, 'rc>(RenderContext<'reg, 'rc>);

/// One scope frame of the engine: a layer of loop-local bindings.
#[verifier::external_type_specification]
#[verifier::external_body]
pub struct ExBlockContext<'rc>(BlockContext<'rc>);

/// A value bound to a loop-local name. The engine stores dynamic values;
/// this helper only ever binds non-negative integers and booleans.
#[derive(Clone, Copy, Debug, PartialEq, Eq, Structural)]
pub enum LocalValue {
    /// A non-negative integer binding (`index`).
    Uint(u64),
    /// A boolean binding (`first`, `last`).
    Bool(bool),
}

/// The scope frames live in a render context, innermost last, each viewed
/// as its map from loop-local names to bound values.
pub uninterp spec fn rc_blocks(rc: RenderContext) -> Seq<Map<Seq<char>, LocalValue>>;

/// The loop-local bindings of one scope frame.
pub uninterp spec fn block_locals(b: BlockContext) -> Map<Seq<char>, LocalValue>;

/// The bindings a new frame starts from: those of the innermost live frame,
/// or none when no frame is live.
pub open spec fn base_locals(blocks: Seq<Map<Seq<char>, LocalValue>>) -> Map<Seq<char>, LocalValue> {
    if blocks.len() > 0 {
        blocks.last()
    } else {
        Map::empty()
    }
}

/// The frame one iteration renders under: the inherited base bindings with
/// the three loop-locals bound on top, shadowing any base binding of the
/// same name.
pub open spec fn frame_for(base: Map<Seq<char>, LocalValue>, l: LoopLocals) -> Map<
    Seq<char>,
    LocalValue,
> {
    base.insert("index"@, LocalValue::Uint(l.index)).insert(
        "first"@,
        LocalValue::Bool(l.first),
    ).insert("last"@, LocalValue::Bool(l.last))
}

/// Relies on `handlebars::RenderContext::block`, on `BlockContext`'s derived
/// `Clone`, and on its derived `Default`: `block` returns the innermost live
/// frame if any, cloning preserves its bindings, and a default frame has no
/// bindings.
#[verifier::external_body]
fn base_frame<'reg, 'rc>(rc: &RenderContext<'reg, 'rc>) -> (b: BlockContext<'rc>)
    ensures
        block_locals(b) == base_locals(rc_blocks(*rc)),
{
    rc.block().cloned().unwrap_or_default()
}

/// Relies on `handlebars::BlockContext::set_local_var`: it binds `name` in
/// this frame to the given value, replacing any previous binding of that
/// name and leaving every other binding alone.
#[verifier::external_body]
fn set_local(b: &mut BlockContext, name: &str, v: LocalValue)
    ensures
        block_locals(*final(b)) == block_locals(*old(b)).insert(name@, v),
{
    b.set_local_var(
        name,
        match v {
            LocalValue::Uint(n) => n.into(),
            LocalValue::Bool(x) => x.into(),
        },
    )
}

/// Relies on `handlebars::RenderContext::push_block`: the pushed frame
/// becomes the innermost live frame and the frames beneath are untouched.
#[verifier::external_body]
fn push_frame<'reg, 'rc>(rc: &mut RenderContext<'reg, 'rc>, b: BlockContext<'rc>)
    ensures
        rc_blocks(*final(rc)) == rc_blocks(*old(rc)).push(block_locals(b)),
{
    rc.push_block(b)
}

/// Relies on `handlebars::RenderContext::pop_block`: it removes the
/// innermost live frame, exposing the one beneath again.
#[verifier::external_body]
fn pop_frame(rc: &mut RenderContext)
    requires
        rc_blocks(*old(rc)).len() > 0,
    ensures
        rc_blocks(*final(rc)) == rc_blocks(*old(rc)).drop_last(),
{
    rc.pop_block()
}

/// Build and push the scope frame of one iteration: the innermost live
/// frame's bindings (so enclosing loop-locals stay visible unless
/// shadowed) with this iteration's three loop-locals bound on top.
pub fn enter_frame<'reg, 'rc>(rc: &mut RenderContext<'reg, 'rc>, l: &LoopLocals)
    ensures
        rc_blocks(*final(rc)) == rc_blocks(*old(rc)).push(
            frame_for(base_locals(rc_blocks(*old(rc))), *l),
        ),
{
    let mut b = base_frame(rc);
    set_local(&mut b, "index", LocalValue::Uint(l.index));
    set_local(&mut b, "first", LocalValue::Bool(l.first));
    set_local(&mut b, "last", LocalValue::Bool(l.last));
    push_frame(rc, b);
}

/// Pop the frame that [`enter_frame`] pushed, restoring the scope stack
/// that stood before the iteration.
pub fn exit_frame(rc: &mut RenderContext)
    requires
        rc_blocks(*old(rc)).len() > 0,
    ensures
        rc_blocks(*final(rc)) == rc_blocks(*old(rc)).drop_last(),
{
    pop_frame(rc);
}

/// Law: the frame discipline of one iteration. Pushing a frame and popping
/// it again restores the scope stack exactly: no binding of the popped
/// frame stays visible, and every enclosing frame — the innermost included,
/// with whatever loop-locals it holds — is exactly what it was. Nested
/// invocations therefore leave each other's frames untouched.
pub proof fn lemma_scope_restored(
    blocks: Seq<Map<Seq<char>, LocalValue>>,
    frame: Map<Seq<char>, LocalValue>,
)
    ensures
        blocks.push(frame).drop_last() =~= blocks,
        blocks.len() > 0 ==> blocks.push(frame).drop_last().last() == blocks.last(),
{
}

/// Law: inside an iteration the three loop-locals are bound to that
/// iteration's values, shadowing same-named bindings of the enclosing
/// frame, while every other inherited binding shows through unchanged.
pub proof fn lemma_frame_shadowing(base: Map<Seq<char>, LocalValue>, l: LoopLocals)
    ensures
        frame_for(base, l)["index"@] == LocalValue::Uint(l.index),
        frame_for(base, l)["first"@] == LocalValue::Bool(l.first),
        frame_for(base, l)["last"@] == LocalValue::Bool(l.last),
        forall|name: Seq<char>|
            base.contains_key(name) ==> #[trigger] frame_for(base, l).contains_key(name),
        forall|name: Seq<char>|
            #[trigger] base.contains_key(name) && name != "index"@ && name != "first"@ && name
                != "last"@ ==> frame_for(base, l)[name] == base[name],
{
    reveal_strlit("index");
    reveal_strlit("first");
    reveal_strlit("last");
    assert("index"@ != "first"@) by {
        assert("index"@[0] == 'i' && "first"@[0] == 'f');
    }
    assert("index"@ != "last"@) by {
        assert("index"@.len() == 5 && "last"@.len() == 4);
    }
    assert("first"@ != "last"@) by {
        assert("first"@.len() == 5 && "last"@.len() == 4);
    }
}

} // verus!
