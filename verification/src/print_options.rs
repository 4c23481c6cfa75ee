//! Display options, held in context variables like the compliance mode.
//!
//! | Key | Values | Default | Effect |
//! |-----|--------|---------|--------|
//! | `sparse_display` | `"metadata"` \| `"content"` | `"metadata"` | what a sparse tensor's `repr` shows |
//!
//! An option given to `print_options(...)` is validated when the manager is built, so a
//! bad value surfaces at the `with` line rather than inside `__enter__`.

use vstd::prelude::*;
use crate::context::{ContextVar, ScopedSet, spec_enter, spec_exit};
use crate::errors::ErrorClass;
use crate::text::str_eq;

verus! {

/// What a sparse tensor's `repr` shows.
#[derive(Clone, Copy, Debug, PartialEq, Eq, Structural)]
pub enum SparseDisplay {
    /// Layout, shape, nnz and dtype only.
    Metadata,
    /// The metadata followed by the component arrays.
    Content,
}

/// The option's spelling.
pub open spec fn spec_sparse_display_name(d: SparseDisplay) -> Seq<char> {
    match d {
        SparseDisplay::Metadata => "metadata"@,
        SparseDisplay::Content => "content"@,
    }
}

/// The value a spelling names, if any.
pub open spec fn spec_sparse_display_of(s: Seq<char>) -> Option<SparseDisplay> {
    if s == "metadata"@ {
        Some(SparseDisplay::Metadata)
    } else if s == "content"@ {
        Some(SparseDisplay::Content)
    } else {
        None
    }
}

/// A `sparse_display` value other than `"metadata"` and `"content"`; raises `ValueError`.
#[derive(Clone, Copy, Debug, PartialEq, Eq, Structural)]
pub struct InvalidSparseDisplay;

impl InvalidSparseDisplay {
    /// The error raises a plain `ValueError`.
    pub fn class(&self) -> (r: ErrorClass)
        ensures
            r == ErrorClass::Value,
    {
        ErrorClass::Value
    }
}

/// Validate a `sparse_display` value.
pub fn validate_sparse_display(value: &str) -> (r: Result<SparseDisplay, InvalidSparseDisplay>)
    ensures
        match spec_sparse_display_of(value@) {
            Some(d) => r == Ok::<SparseDisplay, InvalidSparseDisplay>(d),
            None => r == Err::<SparseDisplay, InvalidSparseDisplay>(InvalidSparseDisplay),
        },
{
    if str_eq(value, "metadata") {
        Ok(SparseDisplay::Metadata)
    } else if str_eq(value, "content") {
        Ok(SparseDisplay::Content)
    } else {
        Err(InvalidSparseDisplay)
    }
}

/// The spelling of a display value.
pub fn sparse_display_name(d: SparseDisplay) -> (r: &'static str)
    ensures
        r@ == spec_sparse_display_name(d),
{
    match d {
        SparseDisplay::Metadata => "metadata",
        SparseDisplay::Content => "content",
    }
}

/// The `sparse_display` variable in its initial state: metadata.
pub fn sparse_display_var() -> (r: ContextVar<SparseDisplay>)
    ensures
        r@ == SparseDisplay::Metadata,
{
    ContextVar::new(SparseDisplay::Metadata)
}

/// `set_print_options(sparse_display=...)`: an omitted option leaves the variable as it
/// is; an invalid one is refused and changes nothing.
pub fn set_print_options(var: &mut ContextVar<SparseDisplay>, sparse_display: Option<&str>) -> (r:
    Result<(), InvalidSparseDisplay>)
    ensures
        match sparse_display {
            None => r is Ok && final(var)@ == old(var)@,
            Some(s) => match spec_sparse_display_of(s@) {
                Some(d) => r is Ok && final(var)@ == d,
                None => r == Err::<(), InvalidSparseDisplay>(InvalidSparseDisplay) && final(var)@
                    == old(var)@,
            },
        },
{
    match sparse_display {
        None => Ok(()),
        Some(s) => {
            let d = validate_sparse_display(s)?;
            let _ = var.set(d);
            Ok(())
        },
    }
}

/// `get_print_options()["sparse_display"]`.
pub fn get_sparse_display(var: &ContextVar<SparseDisplay>) -> (r: &'static str)
    ensures
        r@ == spec_sparse_display_name(var@),
{
    sparse_display_name(var.get())
}

/// Should a sparse `repr` show its component arrays?
pub fn sparse_display_is_content(var: &ContextVar<SparseDisplay>) -> (r: bool)
    ensures
        r == (var@ == SparseDisplay::Content),
{
    var.get() == SparseDisplay::Content
}

/// `hurray.print_options(...)`: a context manager that applies the given options inside
/// its block.
pub struct PrintOptionsCtx {
    sparse_display: Option<SparseDisplay>,
    scope: ScopedSet<SparseDisplay>,
}

impl PrintOptionsCtx {
    /// The option this manager applies, if one was given.
    pub closed spec fn option(&self) -> Option<SparseDisplay> {
        self.sparse_display
    }

    /// The value it will restore on exit, if it holds a token.
    pub closed spec fn held(&self) -> Option<SparseDisplay> {
        self.scope@
    }

    /// Build a manager, validating the option now.
    pub fn new(sparse_display: Option<&str>) -> (r: Result<PrintOptionsCtx, InvalidSparseDisplay>)
        ensures
            match sparse_display {
                None => r matches Ok(c) && c.option() is None && c.held() is None,
                Some(s) => match spec_sparse_display_of(s@) {
                    Some(d) => r matches Ok(c) && c.option() == Some(d) && c.held() is None,
                    None => r == Err::<PrintOptionsCtx, InvalidSparseDisplay>(InvalidSparseDisplay),
                },
            },
    {
        let option = match sparse_display {
            None => None,
            Some(s) => Some(validate_sparse_display(s)?),
        };
        Ok(PrintOptionsCtx { sparse_display: option, scope: ScopedSet::new() })
    }

    /// `__enter__`: apply the option, keeping the token; with no option, hold none.
    pub fn enter(&mut self, var: &mut ContextVar<SparseDisplay>)
        ensures
            final(self).option() == old(self).option(),
            match old(self).option() {
                Some(d) => (final(self).held(), final(var)@) == spec_enter(old(var)@, d),
                None => final(self).held() is None && final(var)@ == old(var)@,
            },
    {
        match self.sparse_display {
            Some(d) => self.scope.enter(var, d),
            None => {
                self.scope = ScopedSet::new();
            },
        }
    }

    /// `__exit__`: restore the value in force on entry. Never suppresses an exception.
    pub fn exit(&mut self, var: &mut ContextVar<SparseDisplay>) -> (suppress: bool)
        ensures
            final(self).option() == old(self).option(),
            (final(self).held(), final(var)@) == spec_exit(old(self).held(), old(var)@),
            !suppress,
    {
        self.scope.exit(var);
        false
    }
}

/// `hurray.print_options(sparse_display=...)`.
pub fn print_options(sparse_display: Option<&str>) -> (r: Result<PrintOptionsCtx, InvalidSparseDisplay>)
    ensures
        match sparse_display {
            None => r matches Ok(c) && c.option() is None && c.held() is None,
            Some(s) => match spec_sparse_display_of(s@) {
                Some(d) => r matches Ok(c) && c.option() == Some(d) && c.held() is None,
                None => r == Err::<PrintOptionsCtx, InvalidSparseDisplay>(InvalidSparseDisplay),
            },
        },
{
    PrintOptionsCtx::new(sparse_display)
}

} // verus!
