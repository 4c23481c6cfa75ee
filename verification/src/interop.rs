//! NumPy interop: the `__array_interface__` type string and the checks `from_numpy`
//! makes before wrapping an array's buffer.
//!
//! A NumPy typestr is `<endian><kind><bytes>`, for example `"<f4"`, `">i2"` or `"|u1"`.
//! The endianness character is not interpreted; the kind and byte count select the
//! element type, and the byte count is read as a Rust `usize` would parse it.

use vstd::prelude::*;
use vstd::utf8::is_continuation_byte;
use vstd::string::*;
use crate::buffer::{
    declarable, lemma_aligned_address_measures, lemma_measured_fits_u32, measured_alignment,
    must_copy, spec_aligned_offset, spec_measured_alignment, MIN_BUFFER_ALIGNMENT,
};
use crate::descriptor::{BufferHandle, SyncMode, TensorDescriptor, host_handle, spec_handle_on};
use crate::device::{DeviceTag, MemoryClass};
use crate::dtype::ElementType;
use crate::errors::ErrorClass;
use crate::layout::LayoutDescriptor;

verus! {

/// Is `b` an ASCII decimal digit?
pub open spec fn is_digit(b: u8) -> bool {
    0x30 <= b <= 0x39
}

/// The value of a run of decimal digits, most significant first.
pub open spec fn digits_value(d: Seq<u8>) -> nat
    decreases d.len(),
{
    if d.len() == 0 {
        0
    } else {
        digits_value(d.drop_last()) * 10 + (d.last() - 0x30) as nat
    }
}

/// Every byte of `d` is a decimal digit.
pub open spec fn all_digits(d: Seq<u8>) -> bool {
    forall|i: int| 0 <= i < d.len() ==> is_digit(#[trigger] d[i])
}

/// The text after an optional leading `+`.
pub open spec fn without_plus(b: Seq<u8>) -> Seq<u8> {
    if b.len() > 0 && b[0] == 0x2Bu8 {
        b.drop_first()
    } else {
        b
    }
}

/// How a `usize` parses from text: an optional `+`, then one or more decimal digits
/// whose value fits in a `usize`.
pub open spec fn parse_usize(b: Seq<u8>) -> Option<nat> {
    let d = without_plus(b);
    if d.len() > 0 && all_digits(d) && digits_value(d) <= usize::MAX {
        Some(digits_value(d))
    } else {
        None
    }
}

/// The element type of a NumPy kind character and byte count.
pub open spec fn typestr_type(kind: u8, n: nat) -> Option<ElementType> {
    if kind == 0x62u8 && n == 1 {
        Some(ElementType::Bool)
    } else if kind == 0x69u8 {
        if n == 1 {
            Some(ElementType::Int8)
        } else if n == 2 {
            Some(ElementType::Int16)
        } else if n == 4 {
            Some(ElementType::Int32)
        } else if n == 8 {
            Some(ElementType::Int64)
        } else {
            None
        }
    } else if kind == 0x75u8 {
        if n == 1 {
            Some(ElementType::Uint8)
        } else if n == 2 {
            Some(ElementType::Uint16)
        } else if n == 4 {
            Some(ElementType::Uint32)
        } else if n == 8 {
            Some(ElementType::Uint64)
        } else {
            None
        }
    } else if kind == 0x66u8 {
        if n == 2 {
            Some(ElementType::Float16)
        } else if n == 4 {
            Some(ElementType::Float32)
        } else if n == 8 {
            Some(ElementType::Float64)
        } else {
            None
        }
    } else if kind == 0x63u8 {
        if n == 8 {
            Some(ElementType::Complex64)
        } else if n == 16 {
            Some(ElementType::Complex128)
        } else {
            None
        }
    } else {
        None
    }
}

/// The element type a typestr (as UTF-8 bytes) names: shorter than three bytes names
/// none; otherwise byte 1 is the kind and the bytes from 2 on are the byte count.
/// `bfloat16` arrives as a void type and is not recognised.
pub open spec fn spec_typestr_element(b: Seq<u8>) -> Option<ElementType> {
    if b.len() < 3 {
        None
    } else {
        match parse_usize(b.subrange(2, b.len() as int)) {
            Some(n) => typestr_type(b[1], n),
            None => None,
        }
    }
}

/// Parse the bytes `b[start..]` as a `usize`, returning the spec's result.
#[verifier::loop_isolation(false)]
fn parse_usize_from(b: &[u8], start: usize) -> (r: Option<usize>)
    requires
        start <= b@.len(),
    ensures
        match parse_usize(b@.subrange(start as int, b@.len() as int)) {
            Some(n) => r == Some(n as usize),
            None => r is None,
        },
{
    let ghost whole = b@.subrange(start as int, b@.len() as int);
    let mut i = start;
    if i < b.len() && b[i] == 0x2Bu8 {
        i = i + 1;
    }
    let ghost d = b@.subrange(i as int, b@.len() as int);
    assert(d =~= without_plus(whole));
    if i == b.len() {
        assert(d.len() == 0);
        return None;
    }
    let first = i;
    let mut acc: usize = 0;
    let mut overflow = false;
    while i < b.len()
        invariant
            first <= i <= b@.len(),
            d == b@.subrange(first as int, b@.len() as int),
            forall|k: int| 0 <= k < i - first ==> is_digit(#[trigger] d[k]),
            !overflow ==> acc == digits_value(d.subrange(0, i - first)),
            overflow ==> digits_value(d.subrange(0, i - first)) > usize::MAX,
        decreases b.len() - i,
    {
        let c = b[i];
        if c < 0x30u8 || c > 0x39u8 {
            assert(!is_digit(d[i - first]));
            return None;
        }
        let ghost prev = d.subrange(0, i - first);
        let ghost next = d.subrange(0, i - first + 1);
        assert(next.drop_last() =~= prev);
        assert(next.last() == c);
        if !overflow {
            let digit = (c - 0x30u8) as usize;
            match acc.checked_mul(10) {
                Some(m) => match m.checked_add(digit) {
                    Some(s) => {
                        acc = s;
                    },
                    None => {
                        overflow = true;
                    },
                },
                None => {
                    overflow = true;
                },
            }
        }
        i = i + 1;
    }
    assert(d.subrange(0, d.len() as int) =~= d);
    if overflow {
        None
    } else {
        Some(acc)
    }
}

/// The element type of a NumPy typestr, or `None` when it has no Hurray equivalent.
pub fn numpy_typestr_to_element_type(typestr: &str) -> (r: Option<ElementType>)
    requires
        typestr.spec_bytes().len() >= 3 ==> !is_continuation_byte(typestr.spec_bytes()[2]),
    ensures
        r == spec_typestr_element(typestr.spec_bytes()),
{
    let b = typestr.as_bytes();
    if b.len() < 3 {
        return None;
    }
    let n = match parse_usize_from(b, 2) {
        Some(n) => n,
        None => return None,
    };
    let kind = b[1];
    if kind == 0x62u8 && n == 1 {
        Some(ElementType::Bool)
    } else if kind == 0x69u8 {
        if n == 1 {
            Some(ElementType::Int8)
        } else if n == 2 {
            Some(ElementType::Int16)
        } else if n == 4 {
            Some(ElementType::Int32)
        } else if n == 8 {
            Some(ElementType::Int64)
        } else {
            None
        }
    } else if kind == 0x75u8 {
        if n == 1 {
            Some(ElementType::Uint8)
        } else if n == 2 {
            Some(ElementType::Uint16)
        } else if n == 4 {
            Some(ElementType::Uint32)
        } else if n == 8 {
            Some(ElementType::Uint64)
        } else {
            None
        }
    } else if kind == 0x66u8 {
        if n == 2 {
            Some(ElementType::Float16)
        } else if n == 4 {
            Some(ElementType::Float32)
        } else if n == 8 {
            Some(ElementType::Float64)
        } else {
            None
        }
    } else if kind == 0x63u8 {
        if n == 8 {
            Some(ElementType::Complex64)
        } else if n == 16 {
            Some(ElementType::Complex128)
        } else {
            None
        }
    } else {
        None
    }
}

/// Why `from_numpy` refused an array; both raise `UnsupportedError`.
#[derive(Clone, Copy, Debug, PartialEq, Eq, Structural)]
pub enum NumpyImportError {
    /// The array is not C-contiguous; no silent copy is made.
    NotContiguous,
    /// The array's dtype has no Hurray equivalent.
    UnknownDtype,
}

impl NumpyImportError {
    /// Both raise `UnsupportedError`.
    pub fn class(&self) -> (r: ErrorClass)
        ensures
            r == ErrorClass::Unsupported,
    {
        ErrorClass::Unsupported
    }
}

/// The buffer-table row `from_numpy` declares for an array of `nbytes` at `address`.
/// An array whose address meets the format's floor is borrowed and declares the
/// alignment its address actually satisfies; any other array is copied into an owned
/// allocation over-aligned to 64 bytes, which declares the floor (`1` when empty).
pub open spec fn spec_numpy_handle(address: usize, nbytes: usize) -> BufferHandle {
    if declarable(address, nbytes) {
        BufferHandle {
            byte_size: nbytes as u64,
            alignment: spec_measured_alignment(address, nbytes) as u32,
            device_tag: DeviceTag::Cpu,
            sync_mode: SyncMode::ProducerSynced,
            memory_class: MemoryClass::Standard,
        }
    } else {
        spec_handle_on(nbytes as u64, DeviceTag::Cpu, MemoryClass::Standard)
    }
}

/// What `from_numpy` builds: the descriptor, and whether the array's bytes must be
/// copied into an owned, 64-byte-aligned buffer rather than borrowed.
pub struct NumpyImport {
    pub descriptor: TensorDescriptor,
    pub copied: bool,
}

/// The descriptor `from_numpy` builds over an array's buffer: contiguity is checked
/// first, then the dtype; the shape's extents are taken as unsigned values. The array
/// at `address` is borrowed exactly when its measured alignment meets the format's
/// floor (or it is empty); otherwise it is copied. The one host buffer of `nbytes`
/// declares what the buffer used actually satisfies.
pub fn numpy_descriptor(
    c_contiguous: bool,
    element_type: Option<ElementType>,
    shape: &Vec<i64>,
    address: usize,
    nbytes: usize,
) -> (r: Result<NumpyImport, NumpyImportError>)
    ensures
        !c_contiguous ==> r == Err::<NumpyImport, NumpyImportError>(
            NumpyImportError::NotContiguous,
        ),
        c_contiguous && element_type is None ==> r == Err::<NumpyImport, NumpyImportError>(
            NumpyImportError::UnknownDtype,
        ),
        c_contiguous ==> (element_type matches Some(t) ==> r matches Ok(imp) && {
            &&& imp.copied == !declarable(address, nbytes)
            &&& imp.descriptor.element_type == t
            &&& imp.descriptor.shape@ == shape@.map_values(|x: i64| x as u64)
            &&& imp.descriptor.byte_offset == 0
            &&& imp.descriptor.layout is RowMajor
            &&& imp.descriptor.buffers@ == seq![spec_numpy_handle(address, nbytes)]
        }),
{
    if !c_contiguous {
        return Err(NumpyImportError::NotContiguous);
    }
    let t = match element_type {
        Some(t) => t,
        None => return Err(NumpyImportError::UnknownDtype),
    };
    let mut dims: Vec<u64> = Vec::new();
    let mut i: usize = 0;
    while i < shape.len()
        invariant
            i <= shape.len(),
            dims@ == shape@.subrange(0, i as int).map_values(|x: i64| x as u64),
        decreases shape.len() - i,
    {
        dims.push(shape[i] as u64);
        assert(shape@.subrange(0, i + 1 as int) =~= shape@.subrange(0, i as int).push(shape@[i as int]));
        i = i + 1;
    }
    assert(shape@.subrange(0, shape@.len() as int) =~= shape@);
    let copied = match must_copy(address, nbytes, None) {
        Ok(c) => c,
        Err(_) => true,
    };
    let handle = if copied {
        host_handle(nbytes as u64)
    } else {
        BufferHandle {
            byte_size: nbytes as u64,
            alignment: measured_alignment(address, nbytes),
            device_tag: DeviceTag::Cpu,
            sync_mode: SyncMode::ProducerSynced,
            memory_class: MemoryClass::Standard,
        }
    };
    let buffers = vec![handle];
    Ok(NumpyImport {
        descriptor: TensorDescriptor {
            element_type: t,
            shape: dims,
            byte_offset: 0,
            layout: LayoutDescriptor::RowMajor,
            buffers,
        },
        copied,
    })
}

/// What `from_numpy` declares is true of the buffer it uses: the array itself when
/// borrowed, or, when copied, the owned buffer placed at the first 64-byte boundary of
/// an allocation at `storage_base` with 63 bytes to spare. A non-empty buffer declares
/// at least the format's floor and never more than its address satisfies; an empty one
/// declares `1`.
pub proof fn lemma_numpy_declaration_holds(address: usize, nbytes: usize, storage_base: usize)
    requires
        storage_base <= usize::MAX - 63,
    ensures
        ({
            let copy_address = (storage_base + spec_aligned_offset(storage_base)) as usize;
            let base = if declarable(address, nbytes) { address } else { copy_address };
            let declared = spec_numpy_handle(address, nbytes).alignment;
            &&& copy_address % 64 == 0
            &&& nbytes > 0 ==> MIN_BUFFER_ALIGNMENT <= declared
                <= spec_measured_alignment(base, nbytes)
            &&& nbytes == 0 ==> declared == 1
        }),
{
    let copy_address = (storage_base + spec_aligned_offset(storage_base)) as usize;
    assert(copy_address % 64 == 0);
    if nbytes > 0 {
        lemma_measured_fits_u32(address, nbytes);
        if !declarable(address, nbytes) {
            lemma_aligned_address_measures(copy_address, nbytes);
        }
    }
}

/// The NumPy kind character of a type NumPy holds natively.
pub open spec fn numpy_kind(t: ElementType) -> u8 {
    match t {
        ElementType::Bool => 0x62u8,
        ElementType::Int8 | ElementType::Int16 | ElementType::Int32 | ElementType::Int64 => 0x69u8,
        ElementType::Uint8 | ElementType::Uint16 | ElementType::Uint32 | ElementType::Uint64 => 0x75u8,
        ElementType::Complex64 | ElementType::Complex128 => 0x63u8,
        _ => 0x66u8,
    }
}

/// The decimal digits of a byte count below 100.
pub open spec fn count_digits(n: nat) -> Seq<u8> {
    if n < 10 {
        seq![(0x30 + n) as u8]
    } else {
        seq![(0x30 + n / 10) as u8, (0x30 + n % 10) as u8]
    }
}

/// The typestr NumPy writes for a native type: little-endian marker, kind, byte count
/// (`|b1` is written with `<` here; the endianness character is not read).
pub open spec fn typestr_of(t: ElementType) -> Seq<u8> {
    seq![0x3Cu8, numpy_kind(t)] + count_digits(
        if t == ElementType::Bool {
            1
        } else {
            crate::dtype::spec_bit_width(t) / 8
        },
    )
}

proof fn lemma_parse_small(n: nat)
    requires
        1 <= n < 100,
    ensures
        parse_usize(count_digits(n)) == Some(n),
{
    let d = count_digits(n);
    assert(without_plus(d) == d);
    assert(digits_value(Seq::<u8>::empty()) == 0);
    if n < 10 {
        let x: u8 = (0x30 + n) as u8;
        assert(x as nat == 0x30 + n);
        assert(d.drop_last() =~= Seq::<u8>::empty());
        assert(d.last() == x);
        assert(digits_value(d) == digits_value(d.drop_last()) * 10 + (x - 0x30) as nat);
    } else {
        let hi: u8 = (0x30 + n / 10) as u8;
        let lo: u8 = (0x30 + n % 10) as u8;
        assert(hi as nat == 0x30 + n / 10);
        assert(lo as nat == 0x30 + n % 10);
        let first = d.drop_last();
        assert(first =~= seq![hi]);
        assert(first.drop_last() =~= Seq::<u8>::empty());
        assert(first.last() == hi);
        assert(digits_value(first) == digits_value(first.drop_last()) * 10 + (hi - 0x30) as nat);
        assert(digits_value(first) == n / 10);
        assert(d.last() == lo);
        assert(digits_value(d) == digits_value(first) * 10 + (lo - 0x30) as nat);
    }
    assert(all_digits(d));
}

/// Every type NumPy holds natively reads back from the typestr NumPy writes for it.
pub proof fn lemma_typestr_round_trip(t: ElementType)
    requires
        crate::creation::spec_numpy_name(t) is Some,
    ensures
        spec_typestr_element(typestr_of(t)) == Some(t),
{
    let n: nat = if t == ElementType::Bool {
        1
    } else {
        crate::dtype::spec_bit_width(t) / 8
    };
    lemma_parse_small(n);
    let b = typestr_of(t);
    assert(b.subrange(2, b.len() as int) =~= count_digits(n));
    assert(b[1] == numpy_kind(t));
}

} // verus!
