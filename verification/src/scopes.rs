//! Scoping and shadowing demonstrations.
//!
//! Lexical scoping is modelled explicitly: a [`ScopeStack`] keeps one
//! binding per nesting level, innermost last. Declaring a shadow pushes a
//! new binding; leaving a block pops it, and the outer binding becomes
//! visible again unchanged. The demonstration functions return the
//! sequence of values a reader of the program would see printed, so their
//! contracts pin the whole observable behaviour.

use vstd::prelude::*;

verus! {

/// A stack of same-named bindings, innermost binding last. At every
/// point exactly the last binding is visible; the ones below it are
/// hidden until the blocks that shadowed them end.
pub struct ScopeStack {
    bindings: Vec<u32>,
}

impl ScopeStack {
    /// The stack of bindings, outermost first.
    pub closed spec fn view(&self) -> Seq<u32> {
        self.bindings@
    }

    /// Opens the outermost scope with its initial binding.
    pub fn new(initial: u32) -> (stack: ScopeStack)
        ensures
            stack@ =~= seq![initial],
    {
        let mut bindings: Vec<u32> = Vec::new();
        bindings.push(initial);
        ScopeStack { bindings }
    }

    /// Declares a shadow: a new binding of the same name that hides the
    /// current one for the rest of its block.
    pub fn declare_shadow(&mut self, value: u32)
        ensures
            final(self)@ =~= old(self)@.push(value),
    {
        self.bindings.push(value);
    }

    /// Ends the innermost block: its binding disappears and every
    /// binding beneath it survives untouched.
    pub fn exit_block(&mut self)
        requires
            old(self)@.len() > 1,
        ensures
            final(self)@ =~= old(self)@.drop_last(),
    {
        let _ = self.bindings.pop();
    }

    /// The binding that name lookup finds: the innermost one.
    pub fn visible(&self) -> (value: u32)
        requires
            self@.len() > 0,
        ensures
            value == self@.last(),
    {
        self.bindings[self.bindings.len() - 1]
    }
}

/// Shadows never mutate the binding they hide: declaring a shadow makes
/// the new value the visible one, and ending the shadowing block
/// restores the stack, and with it the outer binding, exactly as it was.
pub proof fn lemma_shadow_restores(bindings: Seq<u32>, shadow: u32)
    requires
        bindings.len() > 0,
    ensures
        bindings.push(shadow).last() == shadow,
        bindings.push(shadow).drop_last() =~= bindings,
        bindings.push(shadow).drop_last().last() == bindings.last(),
{
}

/// A function-local binding: the value is visible only inside the
/// function, and this is the one value it ever holds.
pub fn scope_value() -> (value: u32)
    ensures
        value == 10_000,
{
    let scope_var: u32 = 10_000;
    scope_var
}

/// A nested block may read and reassign a binding of its enclosing
/// scope. The pair returned is what is observed before the nested block
/// runs and after it has closed: the reassignment inside the block is
/// seen outside it.
pub fn more_scope_values() -> (values: (u32, u32))
    ensures
        values.0 == 10_000,
        values.1 == 20_000,
{
    let mut a: u32 = 10_000;
    let before: u32 = a;
    {
        a = 20_000;
    }
    (before, a)
}

/// The shadowing demonstration, played on an explicit [`ScopeStack`]:
/// an outer binding, then two sequentially nested blocks that each
/// shadow it with a new value. The result is the sequence of visible
/// values in observation order — the outer value, each shadow while its
/// block is open, and the outer value again, unchanged, after both
/// blocks have closed.
pub fn shadowing_values() -> (values: Vec<u32>)
    ensures
        values@ =~= seq![10_000u32, 20_000u32, 30_000u32, 10_000u32],
{
    let mut observed: Vec<u32> = Vec::new();
    let mut stack = ScopeStack::new(10_000);
    observed.push(stack.visible());
    stack.declare_shadow(20_000);
    observed.push(stack.visible());
    stack.exit_block();
    stack.declare_shadow(30_000);
    observed.push(stack.visible());
    stack.exit_block();
    observed.push(stack.visible());
    observed
}

} // verus!
