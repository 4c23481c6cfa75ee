//! Context variables as the binding uses them: a current value, changed by `set`, which
//! hands back a token remembering the value it replaced; `reset` with that token puts
//! the replaced value back. Context managers keep the token from `__enter__` and reset
//! with it in `__exit__`, which restores the exact prior value, nesting included.

use vstd::prelude::*;

verus! {

/// A context variable holding a value of `T`.
pub struct ContextVar<T> {
    value: T,
}

/// What a `set` replaced, to be put back by `reset`. A token is used at most once.
pub struct Token<T> {
    previous: T,
}

impl<T> View for ContextVar<T> {
    type V = T;

    closed spec fn view(&self) -> T {
        self.value
    }
}

impl<T> Token<T> {
    /// The value the `set` that made this token replaced.
    pub closed spec fn previous(&self) -> T {
        self.previous
    }
}

impl<T: Copy> ContextVar<T> {
    /// A variable whose current value is its default.
    pub fn new(default: T) -> (r: ContextVar<T>)
        ensures
            r@ == default,
    {
        ContextVar { value: default }
    }

    /// The current value.
    pub fn get(&self) -> (r: T)
        ensures
            r == self@,
    {
        self.value
    }

    /// Make `v` current; the token remembers the value it replaced.
    pub fn set(&mut self, v: T) -> (tok: Token<T>)
        ensures
            final(self)@ == v,
            tok.previous() == old(self)@,
    {
        let previous = self.value;
        self.value = v;
        Token { previous }
    }

    /// Put back the value the token's `set` replaced.
    pub fn reset(&mut self, tok: Token<T>)
        ensures
            final(self)@ == tok.previous(),
    {
        self.value = tok.previous;
    }
}

/// The state a context manager keeps between `__enter__` and `__exit__`: the token of
/// the `set` it made on entry, if it made one.
pub struct ScopedSet<T> {
    token: Option<Token<T>>,
}

impl<T> View for ScopedSet<T> {
    type V = Option<T>;

    /// The value the manager will restore on exit, if it holds a token.
    closed spec fn view(&self) -> Option<T> {
        match self.token {
            Some(t) => Some(t.previous),
            None => None,
        }
    }
}

/// Entering with `v`: the variable takes `v`, and the manager remembers the value it
/// held before.
pub open spec fn spec_enter<T>(var: T, v: T) -> (Option<T>, T) {
    (Some(var), v)
}

/// Exiting: a manager holding a token restores the remembered value and drops the
/// token; one holding none leaves the variable alone.
pub open spec fn spec_exit<T>(held: Option<T>, var: T) -> (Option<T>, T) {
    match held {
        Some(p) => (None, p),
        None => (None, var),
    }
}

impl<T: Copy> ScopedSet<T> {
    /// A manager that has not been entered.
    pub fn new() -> (r: ScopedSet<T>)
        ensures
            r@ is None,
    {
        ScopedSet { token: None }
    }

    /// Set `v` and keep the token.
    pub fn enter(&mut self, var: &mut ContextVar<T>, v: T)
        ensures
            (final(self)@, final(var)@) == spec_enter(old(var)@, v),
    {
        let tok = var.set(v);
        self.token = Some(tok);
    }

    /// Reset with the kept token, if any.
    pub fn exit(&mut self, var: &mut ContextVar<T>)
        ensures
            (final(self)@, final(var)@) == spec_exit(old(self)@, old(var)@),
    {
        let tok = self.token.take();
        match tok {
            Some(t) => var.reset(t),
            None => {},
        }
    }
}

/// Entering a manager and then exiting it leaves the variable as it was, whatever the
/// value set.
pub proof fn lemma_enter_exit_restores<T>(var: T, v: T)
    ensures
        spec_exit(spec_enter(var, v).0, spec_enter(var, v).1) == (None::<T>, var),
{
}

/// Nested managers unwind in order: after the inner one exits the variable holds the
/// outer one's value, and after the outer one exits it holds the value it had before either.
pub proof fn lemma_nested_scopes_restore<T>(var: T, outer: T, inner: T)
    ensures
        ({
            let (o1, v1) = spec_enter(var, outer);
            let (i1, v2) = spec_enter(v1, inner);
            let (_i2, v3) = spec_exit(i1, v2);
            let (_o2, v4) = spec_exit(o1, v3);
            v3 == outer && v4 == var
        }),
{
}

} // verus!
