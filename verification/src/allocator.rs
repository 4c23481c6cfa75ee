//! The 64-byte-aligned NumPy data-memory allocator (NEP 49): its block arithmetic, the
//! NumPy version gate, its handler name, and the context manager that installs it.
//!
//! Every block is one 64-byte header followed by the payload, allocated at 64-byte
//! alignment, so the payload starts on a 64-byte boundary and the header records the
//! payload size for `realloc` and `free`.

use vstd::prelude::*;
use crate::errors::ErrorClass;

verus! {

/// The header in front of every payload: one alignment unit.
pub const HEADER: usize = 64;

/// The block size for a payload, when it can be allocated: the header plus the
/// payload, provided that rounded up to the 64-byte alignment it still fits an
/// `isize` (the standard allocator's limit).
pub open spec fn spec_block_size(payload: nat) -> Option<nat> {
    if payload + 64 + 63 <= isize::MAX {
        Some(payload + 64)
    } else {
        None
    }
}

/// The size of the block holding `payload` bytes; `None` when no allocation can be
/// made for it (the allocator then returns null, and NumPy raises `MemoryError`).
pub fn block_size(payload: usize) -> (r: Option<usize>)
    ensures
        match spec_block_size(payload as nat) {
            Some(n) => r == Some(n as usize),
            None => r is None,
        },
{
    let total = match HEADER.checked_add(payload) {
        Some(t) => t,
        None => return None,
    };
    if total > (isize::MAX as usize) - 63 {
        return None;
    }
    Some(total)
}

/// The payload size `calloc` allocates for `nelem` elements of `elsize` bytes; `None`
/// when the product overflows.
pub fn calloc_payload(nelem: usize, elsize: usize) -> (r: Option<usize>)
    ensures
        match r {
            Some(n) => n == nelem * elsize,
            None => nelem * elsize > usize::MAX,
        },
{
    nelem.checked_mul(elsize)
}

/// The payload address of a block: just past its header.
pub fn payload_offset() -> (r: usize)
    ensures
        r == HEADER,
        r % 64 == 0,
{
    HEADER
}

/// NumPy is too old for pluggable allocators.
#[derive(Clone, Copy, Debug, PartialEq, Eq, Structural)]
pub struct NumpyTooOld {
    pub major: u8,
    pub minor: u8,
}

impl NumpyTooOld {
    /// The error raises `UnsupportedError`.
    pub fn class(&self) -> (r: ErrorClass)
        ensures
            r == ErrorClass::Unsupported,
    {
        ErrorClass::Unsupported
    }
}

/// The module holding NumPy's C API table: NumPy 1.22 is the first with NEP 49, and
/// NumPy 2 renamed the private core module.
pub open spec fn spec_multiarray_module(major: u8, minor: u8) -> Result<Seq<char>, NumpyTooOld> {
    if major < 1 || (major == 1 && minor < 22) {
        Err(NumpyTooOld { major, minor })
    } else if major >= 2 {
        Ok("numpy._core.multiarray"@)
    } else {
        Ok("numpy.core.multiarray"@)
    }
}

/// Pick the module that exports `_ARRAY_API` for a NumPy version.
pub fn multiarray_module(major: u8, minor: u8) -> (r: Result<&'static str, NumpyTooOld>)
    ensures
        match (r, spec_multiarray_module(major, minor)) {
            (Ok(name), Ok(s)) => name@ == s,
            (Err(e), Err(se)) => e == se,
            _ => false,
        },
{
    if major < 1 || (major == 1 && minor < 22) {
        return Err(NumpyTooOld { major, minor });
    }
    if major >= 2 {
        Ok("numpy._core.multiarray")
    } else {
        Ok("numpy.core.multiarray")
    }
}

/// The length of NumPy's fixed handler-name field.
pub const HANDLER_NAME_LEN: usize = 127;

/// The handler's name field: the name's bytes, then zeros to the field's length.
pub open spec fn spec_handler_name(name: Seq<u8>) -> Seq<u8> {
    Seq::new(127, |i: int| if i < name.len() { name[i] } else { 0u8 })
}

/// Lay a name out in NumPy's 127-byte handler-name field.
pub fn handler_name(name: &[u8]) -> (r: Vec<u8>)
    requires
        name@.len() <= 127,
    ensures
        r@ == spec_handler_name(name@),
{
    let mut out: Vec<u8> = Vec::new();
    let mut i: usize = 0;
    while i < HANDLER_NAME_LEN
        invariant
            i <= 127,
            name@.len() <= 127,
            out@ == spec_handler_name(name@).subrange(0, i as int),
        decreases 127 - i,
    {
        let b = if i < name.len() {
            name[i]
        } else {
            0u8
        };
        out.push(b);
        i = i + 1;
    }
    assert(out@ =~= spec_handler_name(name@));
    out
}

/// The name this allocator registers under.
pub fn aligned_handler_name() -> (r: Vec<u8>)
    ensures
        r@ == spec_handler_name(seq![
            0x68u8, 0x75, 0x72, 0x72, 0x61, 0x79, 0x5f, 0x61, 0x6c, 0x69, 0x67, 0x6e, 0x65, 0x64,
        ]),
{
    let name: [u8; 14] = [
        0x68u8, 0x75, 0x72, 0x72, 0x61, 0x79, 0x5f, 0x61, 0x6c, 0x69, 0x67, 0x6e, 0x65, 0x64,
    ];
    let r = handler_name(&name);
    assert(name@ =~= seq![
        0x68u8, 0x75, 0x72, 0x72, 0x61, 0x79, 0x5f, 0x61, 0x6c, 0x69, 0x67, 0x6e, 0x65, 0x64,
    ]);
    r
}

/// The handler's version.
pub const HANDLER_VERSION: u8 = 1;

/// Re-entering the same `aligned_allocator()` object while it is active.
#[derive(Clone, Copy, Debug, PartialEq, Eq, Structural)]
pub struct AlreadyActive;

impl AlreadyActive {
    /// The error raises `RuntimeError`.
    pub fn class(&self) -> (r: ErrorClass)
        ensures
            r == ErrorClass::Runtime,
    {
        ErrorClass::Runtime
    }
}

/// `hurray.aligned_allocator()`: installs the aligned handler on entry and puts back
/// the handler it replaced on exit. `H` stands for a handler object.
pub struct AlignedAllocatorCtx<H> {
    previous: Option<H>,
}

impl<H> View for AlignedAllocatorCtx<H> {
    type V = Option<H>;

    /// The handler that was in force on entry, while the manager is active.
    closed spec fn view(&self) -> Option<H> {
        self.previous
    }
}

impl<H> AlignedAllocatorCtx<H> {
    /// A manager that is not active.
    pub fn new() -> (r: AlignedAllocatorCtx<H>)
        ensures
            r@ is None,
    {
        AlignedAllocatorCtx { previous: None }
    }

    /// May `__enter__` proceed? Nesting takes a second object; re-entering an active
    /// one is refused before anything is installed.
    pub fn check_enter(&self) -> (r: Result<(), AlreadyActive>)
        ensures
            r is Ok <==> self@ is None,
    {
        if self.previous.is_some() {
            return Err(AlreadyActive);
        }
        Ok(())
    }

    /// `__enter__`, after installing the aligned handler: remember what it replaced.
    pub fn entered(&mut self, replaced: H)
        requires
            old(self)@ is None,
        ensures
            final(self)@ == Some(replaced),
    {
        self.previous = Some(replaced);
    }

    /// `__exit__`: the handler to reinstall, if the manager is active; afterwards it
    /// is inactive and may be entered again.
    pub fn exit(&mut self) -> (restore: Option<H>)
        ensures
            restore == old(self)@,
            final(self)@ is None,
    {
        self.previous.take()
    }
}

} // verus!
