//! The exception classes the binding raises and where each sits in Python's hierarchy.
//!
//! ```text
//! ValueError
//! ├── InvalidDescriptorError  — parse / validation errors
//! ├── BufferError             — buffer size / alignment errors
//! └── CopyRequiredError       — copy=False requested but a copy is needed
//! NotImplementedError
//! └── UnsupportedError        — unsupported element type, layout or device
//! RuntimeError
//! └── InternalError           — an unexpected failure inside the binding
//! OSError
//! ├── FileError               — container-file I/O errors
//! └── StreamError             — stream framing errors
//! ```

use vstd::prelude::*;

verus! {

/// A class of Python exception the library's errors map onto.
#[derive(Clone, Copy, Debug, PartialEq, Eq, Structural)]
pub enum ErrorClass {
    InvalidDescriptor,
    Buffer,
    CopyRequired,
    Unsupported,
    Internal,
    File,
    Stream,
    /// The built-in `ValueError` itself.
    Value,
    /// The built-in `TypeError`.
    Type,
    /// The built-in `AttributeError`.
    Attribute,
    /// The built-in `NotImplementedError` itself.
    NotImplemented,
    /// The built-in `RuntimeError` itself.
    Runtime,
    /// The built-in `BufferError` (not the library's `BufferError`).
    BuiltinBuffer,
    /// The built-in `MemoryError`.
    Memory,
    /// The built-in `ImportError`.
    Import,
}

/// The built-in Python exception an error class derives from.
#[derive(Clone, Copy, Debug, PartialEq, Eq, Structural)]
pub enum BuiltinBase {
    ValueError,
    NotImplementedError,
    RuntimeError,
    OSError,
    TypeError,
    AttributeError,
    BufferError,
    MemoryError,
    ImportError,
}

/// The built-in base of each class.
pub open spec fn spec_base_of(c: ErrorClass) -> BuiltinBase {
    match c {
        ErrorClass::InvalidDescriptor | ErrorClass::Buffer | ErrorClass::CopyRequired
        | ErrorClass::Value => BuiltinBase::ValueError,
        ErrorClass::Unsupported | ErrorClass::NotImplemented => BuiltinBase::NotImplementedError,
        ErrorClass::Internal | ErrorClass::Runtime => BuiltinBase::RuntimeError,
        ErrorClass::File | ErrorClass::Stream => BuiltinBase::OSError,
        ErrorClass::Type => BuiltinBase::TypeError,
        ErrorClass::Attribute => BuiltinBase::AttributeError,
        ErrorClass::BuiltinBuffer => BuiltinBase::BufferError,
        ErrorClass::Memory => BuiltinBase::MemoryError,
        ErrorClass::Import => BuiltinBase::ImportError,
    }
}

/// The built-in exception that callers not interested in the sub-type can catch.
pub fn base_of(c: ErrorClass) -> (r: BuiltinBase)
    ensures
        r == spec_base_of(c),
{
    match c {
        ErrorClass::InvalidDescriptor | ErrorClass::Buffer | ErrorClass::CopyRequired
        | ErrorClass::Value => BuiltinBase::ValueError,
        ErrorClass::Unsupported | ErrorClass::NotImplemented => BuiltinBase::NotImplementedError,
        ErrorClass::Internal | ErrorClass::Runtime => BuiltinBase::RuntimeError,
        ErrorClass::File | ErrorClass::Stream => BuiltinBase::OSError,
        ErrorClass::Type => BuiltinBase::TypeError,
        ErrorClass::Attribute => BuiltinBase::AttributeError,
        ErrorClass::BuiltinBuffer => BuiltinBase::BufferError,
        ErrorClass::Memory => BuiltinBase::MemoryError,
        ErrorClass::Import => BuiltinBase::ImportError,
    }
}

/// The Python name of each class the library defines; `None` for the built-ins.
pub open spec fn spec_class_name(c: ErrorClass) -> Option<Seq<char>> {
    match c {
        ErrorClass::InvalidDescriptor => Some("InvalidDescriptorError"@),
        ErrorClass::Buffer => Some("BufferError"@),
        ErrorClass::CopyRequired => Some("CopyRequiredError"@),
        ErrorClass::Unsupported => Some("UnsupportedError"@),
        ErrorClass::Internal => Some("InternalError"@),
        ErrorClass::File => Some("FileError"@),
        ErrorClass::Stream => Some("StreamError"@),
        _ => None,
    }
}

/// The name under which a library-defined class is registered on the module.
pub fn class_name(c: ErrorClass) -> (r: Option<&'static str>)
    ensures
        match r {
            Some(n) => spec_class_name(c) == Some(n@),
            None => spec_class_name(c) is None,
        },
{
    match c {
        ErrorClass::InvalidDescriptor => Some("InvalidDescriptorError"),
        ErrorClass::Buffer => Some("BufferError"),
        ErrorClass::CopyRequired => Some("CopyRequiredError"),
        ErrorClass::Unsupported => Some("UnsupportedError"),
        ErrorClass::Internal => Some("InternalError"),
        ErrorClass::File => Some("FileError"),
        ErrorClass::Stream => Some("StreamError"),
        _ => None,
    }
}

/// The classes the module registers, in registration order.
pub fn registered_classes() -> (r: Vec<ErrorClass>)
    ensures
        r@ == seq![
            ErrorClass::InvalidDescriptor,
            ErrorClass::Buffer,
            ErrorClass::CopyRequired,
            ErrorClass::Unsupported,
            ErrorClass::Internal,
            ErrorClass::File,
            ErrorClass::Stream,
        ],
        forall|i: int| 0 <= i < r@.len() ==> spec_class_name(#[trigger] r@[i]) is Some,
{
    let v = vec![
        ErrorClass::InvalidDescriptor,
        ErrorClass::Buffer,
        ErrorClass::CopyRequired,
        ErrorClass::Unsupported,
        ErrorClass::Internal,
        ErrorClass::File,
        ErrorClass::Stream,
    ];
    assert(v@ =~= seq![
        ErrorClass::InvalidDescriptor,
        ErrorClass::Buffer,
        ErrorClass::CopyRequired,
        ErrorClass::Unsupported,
        ErrorClass::Internal,
        ErrorClass::File,
        ErrorClass::Stream,
    ]);
    v
}

} // verus!
