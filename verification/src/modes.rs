//! The compliance mode: strict (the default) or relaxed.
//!
//! The mode lives in a context variable whose default is strict. `set_strict` changes
//! it in place; `strict()` and `relaxed()` give context managers that set it on entry
//! and restore the exact prior value on exit, including when nested.

use vstd::prelude::*;
use crate::context::{ContextVar, ScopedSet, spec_enter, spec_exit};

verus! {

/// The mode variable in its initial state: strict.
pub fn strict_var() -> (r: ContextVar<bool>)
    ensures
        r@ == true,
{
    ContextVar::new(true)
}

/// Set the mode for the rest of the current context.
pub fn set_strict(var: &mut ContextVar<bool>, strict: bool)
    ensures
        final(var)@ == strict,
{
    let _ = var.set(strict);
}

/// Is strict mode in force?
pub fn is_strict(var: &ContextVar<bool>) -> (r: bool)
    ensures
        r == var@,
{
    var.get()
}

/// A context manager that enforces strict mode inside its block.
pub struct StrictCtx {
    scope: ScopedSet<bool>,
}

impl View for StrictCtx {
    type V = Option<bool>;

    closed spec fn view(&self) -> Option<bool> {
        self.scope@
    }
}

impl StrictCtx {
    /// A manager that has not been entered.
    pub fn new() -> (r: StrictCtx)
        ensures
            r@ is None,
    {
        StrictCtx { scope: ScopedSet::new() }
    }

    /// `__enter__`: strict from here on.
    pub fn enter(&mut self, var: &mut ContextVar<bool>)
        ensures
            (final(self)@, final(var)@) == spec_enter(old(var)@, true),
    {
        self.scope.enter(var, true);
    }

    /// `__exit__`: restore the mode in force on entry. Never suppresses an exception.
    pub fn exit(&mut self, var: &mut ContextVar<bool>) -> (suppress: bool)
        ensures
            (final(self)@, final(var)@) == spec_exit(old(self)@, old(var)@),
            !suppress,
    {
        self.scope.exit(var);
        false
    }
}

/// A context manager that allows relaxed mode inside its block.
pub struct RelaxedCtx {
    scope: ScopedSet<bool>,
}

impl View for RelaxedCtx {
    type V = Option<bool>;

    closed spec fn view(&self) -> Option<bool> {
        self.scope@
    }
}

impl RelaxedCtx {
    /// A manager that has not been entered.
    pub fn new() -> (r: RelaxedCtx)
        ensures
            r@ is None,
    {
        RelaxedCtx { scope: ScopedSet::new() }
    }

    /// `__enter__`: relaxed from here on.
    pub fn enter(&mut self, var: &mut ContextVar<bool>)
        ensures
            (final(self)@, final(var)@) == spec_enter(old(var)@, false),
    {
        self.scope.enter(var, false);
    }

    /// `__exit__`: restore the mode in force on entry. Never suppresses an exception.
    pub fn exit(&mut self, var: &mut ContextVar<bool>) -> (suppress: bool)
        ensures
            (final(self)@, final(var)@) == spec_exit(old(self)@, old(var)@),
            !suppress,
    {
        self.scope.exit(var);
        false
    }
}

/// `hurray.strict()`.
pub fn strict() -> (r: StrictCtx)
    ensures
        r@ is None,
{
    StrictCtx::new()
}

/// `hurray.relaxed()`.
pub fn relaxed() -> (r: RelaxedCtx)
    ensures
        r@ is None,
{
    RelaxedCtx::new()
}

} // verus!
