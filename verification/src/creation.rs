//! Construction fills: the bytes `zeros`, `ones`, `full` and `eye` lay down, and the
//! argument checks they share.
//!
//! Constructors accept Tier 1 types only. Booleans are bit-packed least significant
//! bit first, and the padding bits of the last byte stay zero.

use vstd::prelude::*;
use crate::dtype::{
    ElementType, Dtype, buffer_size_bytes, element_name, packed_size, saturated_size,
    spec_bit_width, spec_tier,
};
use crate::layout::validate::{two_pow, spec_element_count, element_count};
use crate::descriptor::{TensorDescriptor, owned_descriptor, spec_handle_on};
use crate::device::{Device, DeviceTag, MemoryClass};

verus! {

/// Why a construction request was refused.
#[derive(Clone, Copy, Debug, PartialEq, Eq, Structural)]
pub enum CreationError {
    /// A Tier 2 element type; constructors build Tier 1 tensors only.
    Tier2(ElementType),
    /// A negative dimension.
    NegativeDimension(i64),
    /// A negative `num` for `linspace`, or a negative row or column count for `eye`.
    NegativeCount(i64),
    /// A boolean sequence for `arange` or `linspace`.
    BoolSequence,
    /// A `bfloat16` target for `asarray`, which NumPy cannot represent natively.
    Bfloat16Target,
    /// A fill value whose Python type implies no element type.
    UninferableScalar,
}

impl CreationError {
    /// Tier 2, boolean sequences and bfloat16 targets are unsupported; the rest are
    /// descriptor errors.
    pub fn class(&self) -> (r: crate::errors::ErrorClass)
        ensures
            r == (match *self {
                CreationError::Tier2(_) | CreationError::BoolSequence
                | CreationError::Bfloat16Target => crate::errors::ErrorClass::Unsupported,
                _ => crate::errors::ErrorClass::InvalidDescriptor,
            }),
    {
        match self {
            CreationError::Tier2(_) | CreationError::BoolSequence
            | CreationError::Bfloat16Target => crate::errors::ErrorClass::Unsupported,
            _ => crate::errors::ErrorClass::InvalidDescriptor,
        }
    }
}

/// Reject a Tier 2 type.
pub fn check_tier1(t: ElementType) -> (r: Result<(), CreationError>)
    ensures
        r == (if spec_tier(t) == 1 {
            Ok::<(), CreationError>(())
        } else {
            Err::<(), CreationError>(CreationError::Tier2(t))
        }),
{
    if (Dtype { inner: t }).tier() != 1 {
        return Err(CreationError::Tier2(t));
    }
    Ok(())
}

/// The Python type of a fill value, for dtype inference.
#[derive(Clone, Copy, Debug, PartialEq, Eq, Structural)]
pub enum ScalarKind {
    Bool,
    Complex,
    Float,
    Int,
    Other,
}

/// The element type a fill value implies: bool, complex128, float64, int64.
pub fn infer_scalar_dtype(kind: ScalarKind) -> (r: Result<ElementType, CreationError>)
    ensures
        r == (match kind {
            ScalarKind::Bool => Ok::<ElementType, CreationError>(ElementType::Bool),
            ScalarKind::Complex => Ok(ElementType::Complex128),
            ScalarKind::Float => Ok(ElementType::Float64),
            ScalarKind::Int => Ok(ElementType::Int64),
            ScalarKind::Other => Err(CreationError::UninferableScalar),
        }),
{
    match kind {
        ScalarKind::Bool => Ok(ElementType::Bool),
        ScalarKind::Complex => Ok(ElementType::Complex128),
        ScalarKind::Float => Ok(ElementType::Float64),
        ScalarKind::Int => Ok(ElementType::Int64),
        ScalarKind::Other => Err(CreationError::UninferableScalar),
    }
}

/// Dimensions as unsigned extents; the first negative one is refused.
pub open spec fn spec_parse_shape(shape: Seq<i64>) -> Result<Seq<u64>, CreationError> {
    if exists|k: int| 0 <= k < shape.len() && shape[k] < 0 {
        let k = choose|k: int|
            0 <= k < shape.len() && shape[k] < 0 && forall|j: int| 0 <= j < k ==> shape[j] >= 0;
        Err(CreationError::NegativeDimension(shape[k]))
    } else {
        Ok(Seq::new(shape.len(), |i: int| shape[i] as u64))
    }
}

/// Parse a Python shape list.
pub fn parse_shape(shape: &Vec<i64>) -> (r: Result<Vec<u64>, CreationError>)
    ensures
        match r {
            Ok(dims) => forall|k: int| 0 <= k < shape@.len() ==> shape@[k] >= 0,
            Err(_) => exists|k: int| 0 <= k < shape@.len() && shape@[k] < 0,
        },
        match r {
            Ok(dims) => dims@ == Seq::new(shape@.len(), |i: int| shape@[i] as u64),
            Err(e) => exists|k: int|
                0 <= k < shape@.len() && shape@[k] < 0 && e == CreationError::NegativeDimension(
                    shape@[k],
                ) && forall|j: int| 0 <= j < k ==> shape@[j] >= 0,
        },
{
    let mut dims: Vec<u64> = Vec::new();
    let mut i: usize = 0;
    while i < shape.len()
        invariant
            i <= shape.len(),
            dims@ == Seq::new(i as nat, |j: int| shape@[j] as u64),
            forall|j: int| 0 <= j < i ==> shape@[j] >= 0,
        decreases shape.len() - i,
    {
        let d = shape[i];
        if d < 0 {
            return Err(CreationError::NegativeDimension(d));
        }
        dims.push(d as u64);
        assert(dims@ =~= Seq::new((i + 1) as nat, |j: int| shape@[j] as u64));
        i = i + 1;
    }
    Ok(dims)
}

/// Types with a fixed little-endian encoding of one: the integers, the four
/// floats and the two complex types.
pub open spec fn spec_has_one_pattern(t: ElementType) -> bool {
    match t {
        ElementType::Int8 | ElementType::Uint8 | ElementType::Int16 | ElementType::Uint16
        | ElementType::Int32 | ElementType::Uint32 | ElementType::Int64 | ElementType::Uint64
        | ElementType::Float16 | ElementType::BFloat16 | ElementType::Float32
        | ElementType::Float64 | ElementType::Complex64 | ElementType::Complex128 => true,
        _ => false,
    }
}

/// The little-endian bytes of the value one (`1 + 0i` for complex types).
pub open spec fn spec_one_bytes(t: ElementType) -> Seq<u8> {
    match t {
        ElementType::Int8 | ElementType::Uint8 => seq![0x01u8],
        ElementType::Int16 | ElementType::Uint16 => seq![0x01u8, 0x00],
        ElementType::Int32 | ElementType::Uint32 => seq![0x01u8, 0x00, 0x00, 0x00],
        ElementType::Int64 | ElementType::Uint64 => seq![0x01u8, 0, 0, 0, 0, 0, 0, 0],
        ElementType::Float16 => seq![0x00u8, 0x3c],
        ElementType::BFloat16 => seq![0x80u8, 0x3f],
        ElementType::Float32 => seq![0x00u8, 0x00, 0x80, 0x3f],
        ElementType::Float64 => seq![0x00u8, 0, 0, 0, 0, 0, 0xf0, 0x3f],
        ElementType::Complex64 => seq![0x00u8, 0x00, 0x80, 0x3f, 0, 0, 0, 0],
        ElementType::Complex128 => seq![
            0x00u8, 0, 0, 0, 0, 0, 0xf0, 0x3f, 0, 0, 0, 0, 0, 0, 0, 0,
        ],
        _ => Seq::empty(),
    }
}

/// Bytes per element of a whole-byte type.
pub open spec fn elem_bytes(t: ElementType) -> nat {
    spec_bit_width(t) / 8
}

/// The encoding of one for `t`.
pub fn one_bytes(t: ElementType) -> (r: Vec<u8>)
    requires
        spec_has_one_pattern(t),
    ensures
        r@ == spec_one_bytes(t),
        r@.len() == elem_bytes(t),
{
    let v = match t {
        ElementType::Int8 | ElementType::Uint8 => vec![0x01u8],
        ElementType::Int16 | ElementType::Uint16 => vec![0x01u8, 0x00],
        ElementType::Int32 | ElementType::Uint32 => vec![0x01u8, 0x00, 0x00, 0x00],
        ElementType::Int64 | ElementType::Uint64 => vec![0x01u8, 0, 0, 0, 0, 0, 0, 0],
        ElementType::Float16 => vec![0x00u8, 0x3c],
        ElementType::BFloat16 => vec![0x80u8, 0x3f],
        ElementType::Float32 => vec![0x00u8, 0x00, 0x80, 0x3f],
        ElementType::Float64 => vec![0x00u8, 0, 0, 0, 0, 0, 0xf0, 0x3f],
        ElementType::Complex64 => vec![0x00u8, 0x00, 0x80, 0x3f, 0, 0, 0, 0],
        _ => vec![0x00u8, 0, 0, 0, 0, 0, 0xf0, 0x3f, 0, 0, 0, 0, 0, 0, 0, 0],
    };
    assert(v@ =~= spec_one_bytes(t));
    v
}

// ── Bit packing ──────────────────────────────────────────────────────────────

/// The value of the low `t` bits of byte `b` of a packed boolean buffer whose bit
/// `j` (least significant first) is `bit(j)`.
pub open spec fn packed_bits(bit: spec_fn(int) -> bool, b: int, t: nat) -> nat
    decreases t,
{
    if t == 0 {
        0
    } else {
        packed_bits(bit, b, (t - 1) as nat) + if bit(8 * b + t - 1) {
            two_pow((t - 1) as nat)
        } else {
            0
        }
    }
}

/// Byte `b` of a packed boolean buffer holding `bit`.
pub open spec fn packed_byte(bit: spec_fn(int) -> bool, b: int) -> nat {
    packed_bits(bit, b, 8)
}

proof fn lemma_packed_bits_bound(bit: spec_fn(int) -> bool, b: int, t: nat)
    ensures
        packed_bits(bit, b, t) < two_pow(t),
    decreases t,
{
    if t > 0 {
        lemma_packed_bits_bound(bit, b, (t - 1) as nat);
    }
}

proof fn lemma_small_two_pows()
    ensures
        two_pow(0) == 1,
        two_pow(1) == 2,
        two_pow(2) == 4,
        two_pow(3) == 8,
        two_pow(4) == 16,
        two_pow(5) == 32,
        two_pow(6) == 64,
        two_pow(7) == 128,
        two_pow(8) == 256,
{
    reveal_with_fuel(two_pow, 9);
}

/// For `t < 8`, `1 << t` is `2 ** t`, and setting that bit of a value below it adds it.
proof fn lemma_set_bit(cur: u8, t: u8)
    requires
        t < 8,
        (cur as nat) < two_pow(t as nat),
    ensures
        (1u8 << t) as nat == two_pow(t as nat),
        (cur | (1u8 << t)) as nat == cur as nat + two_pow(t as nat),
{
    lemma_small_two_pows();
    if t == 0 {
        assert((1u8 << 0u8) == 1) by (bit_vector);
        assert(cur < 1 ==> (cur | (1u8 << 0u8)) == cur + 1) by (bit_vector);
    } else if t == 1 {
        assert((1u8 << 1u8) == 2) by (bit_vector);
        assert(cur < 2 ==> (cur | (1u8 << 1u8)) == cur + 2) by (bit_vector);
    } else if t == 2 {
        assert((1u8 << 2u8) == 4) by (bit_vector);
        assert(cur < 4 ==> (cur | (1u8 << 2u8)) == cur + 4) by (bit_vector);
    } else if t == 3 {
        assert((1u8 << 3u8) == 8) by (bit_vector);
        assert(cur < 8 ==> (cur | (1u8 << 3u8)) == cur + 8) by (bit_vector);
    } else if t == 4 {
        assert((1u8 << 4u8) == 16) by (bit_vector);
        assert(cur < 16 ==> (cur | (1u8 << 4u8)) == cur + 16) by (bit_vector);
    } else if t == 5 {
        assert((1u8 << 5u8) == 32) by (bit_vector);
        assert(cur < 32 ==> (cur | (1u8 << 5u8)) == cur + 32) by (bit_vector);
    } else if t == 6 {
        assert((1u8 << 6u8) == 64) by (bit_vector);
        assert(cur < 64 ==> (cur | (1u8 << 6u8)) == cur + 64) by (bit_vector);
    } else {
        assert((1u8 << 7u8) == 128) by (bit_vector);
        assert(cur < 128 ==> (cur | (1u8 << 7u8)) == cur + 128) by (bit_vector);
    }
}

/// A byte whose low `m` bits are set and the rest clear is `2 ** m - 1`.
proof fn lemma_packed_prefix(bit: spec_fn(int) -> bool, b: int, t: nat, m: nat)
    requires
        t <= 8,
        m <= 8,
        forall|j: int| 8 * b <= j < 8 * b + 8 ==> #[trigger] bit(j) == (j - 8 * b < m),
    ensures
        packed_bits(bit, b, t) + 1 == two_pow(if t < m { t } else { m }),
    decreases t,
{
    if t > 0 {
        lemma_packed_prefix(bit, b, (t - 1) as nat, m);
        assert(bit(8 * b + (t - 1)) == (t - 1 < m));
        if t <= m {
            assert(two_pow(t) == 2 * two_pow((t - 1) as nat));
        }
    }
}

// ── Fills ────────────────────────────────────────────────────────────────────

/// The bits of a boolean buffer of `n` true elements: exactly the first `n`.
pub open spec fn first_n(n: nat) -> spec_fn(int) -> bool {
    |j: int| 0 <= j < n
}

/// The buffer `ones` lays down: for `bool`, the first `count` bits set and padding
/// clear; otherwise the encoding of one repeated `count` times.
pub open spec fn spec_fill_ones(t: ElementType, count: nat) -> Seq<u8> {
    if t == ElementType::Bool {
        Seq::new(packed_size(t, count), |b: int| packed_byte(first_n(count), b) as u8)
    } else {
        let one = spec_one_bytes(t);
        Seq::new(packed_size(t, count), |b: int| one[b % (one.len() as int)])
    }
}

proof fn lemma_packed_sizes(t: ElementType, count: nat)
    ensures
        t == ElementType::Bool ==> packed_size(t, count) == (count + 7) / 8,
        spec_has_one_pattern(t) ==> packed_size(t, count) == count * elem_bytes(t),
{
}

/// Fill a buffer with `count` ones of `t`.
pub fn fill_ones(t: ElementType, count: u64) -> (r: Vec<u8>)
    requires
        t == ElementType::Bool || spec_has_one_pattern(t),
        packed_size(t, count as nat) <= usize::MAX,
    ensures
        r@ == spec_fill_ones(t, count as nat),
{
    proof {
        lemma_packed_sizes(t, count as nat);
    }
    let size = buffer_size_bytes(t, count) as usize;
    let mut buf: Vec<u8> = Vec::new();
    if t == ElementType::Bool {
        let full_bytes = (count / 8) as usize;
        let tail = (count % 8) as u8;
        let ghost bit = first_n(count as nat);
        let mut b: usize = 0;
        while b < size
            invariant
                b <= size,
                size == (count as nat + 7) / 8,
                full_bytes == count / 8,
                tail == count % 8,
                bit == first_n(count as nat),
                buf@.len() == b,
                forall|k: int| 0 <= k < b ==> buf@[k] as nat == packed_byte(bit, k),
            decreases size - b,
        {
            let byte: u8 = if b < full_bytes {
                proof {
                    lemma_packed_prefix(bit, b as int, 8, 8);
                    lemma_small_two_pows();
                }
                0xFF
            } else {
                assert(b == full_bytes && tail > 0);
                proof {
                    lemma_packed_prefix(bit, b as int, 8, tail as nat);
                    lemma_set_bit(0, tail);
                }
                (1u8 << tail) - 1
            };
            buf.push(byte);
            b = b + 1;
        }
        assert(buf@ =~= spec_fill_ones(t, count as nat));
        return buf;
    }
    let one = one_bytes(t);
    let width = one.len();
    let mut k: usize = 0;
    while k < size
        invariant
            k <= size,
            size == count * elem_bytes(t),
            one@ == spec_one_bytes(t),
            width == one@.len(),
            width == elem_bytes(t),
            width > 0,
            buf@.len() == k,
            forall|j: int| 0 <= j < k ==> buf@[j] == one@[j % (width as int)],
        decreases size - k,
    {
        buf.push(one[k % width]);
        k = k + 1;
    }
    assert(buf@ =~= spec_fill_ones(t, count as nat));
    buf
}

/// A fill value: a boolean, or the little-endian encoding of one element.
#[derive(Debug)]
pub enum FillValue {
    Bool(bool),
    Encoded(Vec<u8>),
}

/// The buffer `full` lays down: for `bool`, all-ones or all-zeros; otherwise the
/// encoded value in every whole element slot of the buffer (any remainder stays zero).
pub open spec fn spec_fill_scalar(t: ElementType, value: FillValue, count: nat) -> Seq<u8> {
    match value {
        FillValue::Bool(true) => spec_fill_ones(ElementType::Bool, count),
        FillValue::Bool(false) => Seq::new(packed_size(t, count), |b: int| 0u8),
        FillValue::Encoded(p) => {
            let size = packed_size(t, count);
            let whole = (size / p@.len()) * p@.len();
            Seq::new(size, |b: int| if b < whole { p@[b % (p@.len() as int)] } else { 0u8 })
        },
    }
}

/// Fill a buffer with `count` copies of a scalar.
pub fn fill_scalar(t: ElementType, value: &FillValue, count: u64) -> (r: Vec<u8>)
    requires
        value is Bool ==> t == ElementType::Bool,
        value matches FillValue::Encoded(p) ==> p@.len() > 0,
        packed_size(t, count as nat) <= usize::MAX,
    ensures
        r@ == spec_fill_scalar(t, *value, count as nat),
{
    let size = buffer_size_bytes(t, count) as usize;
    match value {
        FillValue::Bool(v) => {
            if *v {
                return fill_ones(ElementType::Bool, count);
            }
            let mut buf: Vec<u8> = Vec::new();
            let mut k: usize = 0;
            while k < size
                invariant
                    k <= size,
                    buf@.len() == k,
                    forall|j: int| 0 <= j < k ==> buf@[j] == 0u8,
                decreases size - k,
            {
                buf.push(0u8);
                k = k + 1;
            }
            assert(buf@ =~= spec_fill_scalar(t, *value, count as nat));
            buf
        },
        FillValue::Encoded(p) => {
            let width = p.len();
            let q = size / width;
            assert(q * width <= size) by (nonlinear_arith)
                requires q == size / width, width > 0;
            let whole = q * width;
            let mut buf: Vec<u8> = Vec::new();
            let mut k: usize = 0;
            while k < size
                invariant
                    k <= size,
                    whole <= size,
                    width == p@.len(),
                    width > 0,
                    buf@.len() == k,
                    forall|j: int|
                        0 <= j < k ==> buf@[j] == (if j < whole {
                            p@[j % (width as int)]
                        } else {
                            0u8
                        }),
                decreases size - k,
            {
                let byte = if k < whole {
                    p[k % width]
                } else {
                    0u8
                };
                buf.push(byte);
                k = k + 1;
            }
            assert(buf@ =~= spec_fill_scalar(t, *value, count as nat));
            buf
        },
    }
}

/// Is element `e` of a row-major `rows x cols` matrix on diagonal `k` (column = row + k)?
pub open spec fn on_diagonal(e: int, cols: nat, k: int) -> bool {
    cols > 0 && e % (cols as int) == e / (cols as int) + k
}

/// The buffer `eye` lays down for a whole-byte type: one on diagonal `k`, zero elsewhere.
pub open spec fn spec_fill_eye(rows: nat, cols: nat, k: int, t: ElementType) -> Seq<u8> {
    let w = elem_bytes(t);
    let one = spec_one_bytes(t);
    Seq::new(
        rows * cols * w,
        |b: int|
            if on_diagonal(b / (w as int), cols, k) {
                one[b % (w as int)]
            } else {
                0u8
            },
    )
}

proof fn lemma_elem_index(e: int, w: int, t: int)
    requires
        w > 0,
        0 <= t < w,
        e >= 0,
    ensures
        (e * w + t) / w == e,
        (e * w + t) % w == t,
{
    vstd::arithmetic::div_mod::lemma_fundamental_div_mod_converse(e * w + t, w, e, t);
}

proof fn lemma_row_col(e: int, cols: int, i: int, j: int)
    requires
        cols > 0,
        0 <= j < cols,
        e == i * cols + j,
    ensures
        e / cols == i,
        e % cols == j,
{
    vstd::arithmetic::div_mod::lemma_fundamental_div_mod_converse(e, cols, i, j);
}

/// Fill a `rows x cols` identity-like matrix of a whole-byte type.
pub fn fill_eye(rows: u64, cols: u64, k: i64, t: ElementType) -> (r: Vec<u8>)
    requires
        spec_has_one_pattern(t),
        rows * cols * elem_bytes(t) <= usize::MAX,
    ensures
        r@ == spec_fill_eye(rows as nat, cols as nat, k as int, t),
{
    let one = one_bytes(t);
    let w = one.len();
    let ghost total = rows * cols * w;
    let mut buf: Vec<u8> = Vec::new();
    let mut i: u64 = 0;
    assert(rows * cols * w == (rows * cols) * w);
    while i < rows
        invariant
            i <= rows,
            w == elem_bytes(t),
            w > 0,
            one@ == spec_one_bytes(t),
            one@.len() == w,
            rows * cols * w <= usize::MAX,
            buf@.len() == i * cols * w,
            forall|b: int|
                0 <= b < buf@.len() ==> buf@[b] == (if on_diagonal(
                    b / (w as int),
                    cols as nat,
                    k as int,
                ) {
                    one@[b % (w as int)]
                } else {
                    0u8
                }),
        decreases rows - i,
    {
        let mut j: u64 = 0;
        while j < cols
            invariant
                i < rows,
                j <= cols,
                w == elem_bytes(t),
                w > 0,
                one@ == spec_one_bytes(t),
                one@.len() == w,
                rows * cols * w <= usize::MAX,
                buf@.len() == (i * cols + j) * w,
                forall|b: int|
                    0 <= b < buf@.len() ==> buf@[b] == (if on_diagonal(
                        b / (w as int),
                        cols as nat,
                        k as int,
                    ) {
                        one@[b % (w as int)]
                    } else {
                        0u8
                    }),
            decreases cols - j,
        {
            let diag = (j as i128) == (i as i128) + (k as i128);
            let ghost e = i * cols + j;
            proof {
                lemma_row_col(e, cols as int, i as int, j as int);
                assert(diag == on_diagonal(e, cols as nat, k as int));
                assert((i * cols + j + 1) * w <= rows * cols * w) by (nonlinear_arith)
                    requires i < rows, j < cols, w > 0;
            }
            let mut q: usize = 0;
            while q < w
                invariant
                    q <= w,
                    w == one@.len(),
                    w > 0,
                    e == i * cols + j,
                    e >= 0,
                    diag == on_diagonal(e, cols as nat, k as int),
                    buf@.len() == e * w + q,
                    forall|b: int|
                        0 <= b < buf@.len() ==> buf@[b] == (if on_diagonal(
                            b / (w as int),
                            cols as nat,
                            k as int,
                        ) {
                            one@[b % (w as int)]
                        } else {
                            0u8
                        }),
                decreases w - q,
            {
                proof {
                    lemma_elem_index(e, w as int, q as int);
                }
                let byte = if diag {
                    one[q]
                } else {
                    0u8
                };
                buf.push(byte);
                q = q + 1;
            }
            assert((i * cols + j + 1) * w == (i * cols + j) * w + w) by (nonlinear_arith);
            j = j + 1;
        }
        assert((i + 1) * cols * w == (i * cols + cols) * w) by (nonlinear_arith);
        i = i + 1;
    }
    assert(buf@ =~= spec_fill_eye(rows as nat, cols as nat, k as int, t));
    buf
}

/// Bit `e` of a boolean `eye` matrix: inside the matrix and on diagonal `k`.
pub open spec fn eye_bit(rows: nat, cols: nat, k: int) -> spec_fn(int) -> bool {
    |e: int| 0 <= e < rows * cols && on_diagonal(e, cols, k)
}

/// The buffer `eye` lays down for `bool`: the diagonal bits packed least significant
/// bit first, padding bits clear.
pub open spec fn spec_fill_eye_bool(rows: nat, cols: nat, k: int) -> Seq<u8> {
    Seq::new(
        packed_size(ElementType::Bool, rows * cols),
        |b: int| packed_byte(eye_bit(rows, cols, k), b) as u8,
    )
}

fn eye_bit_at(e: u128, n: u128, cols: u64, k: i64) -> (r: bool)
    requires
        n == 0 || cols > 0,
        n <= u64::MAX,
    ensures
        r == (0 <= e < n && cols > 0 && (e as int) % (cols as int) == (e as int) / (cols as int)
            + k),
{
    if e >= n || cols == 0 {
        return false;
    }
    let c = cols as u128;
    let col = e % c;
    let row = e / c;
    assert(row <= e);
    (col as i128) == (row as i128) + (k as i128)
}

/// Fill a `rows x cols` boolean identity-like matrix, bit-packed.
pub fn fill_eye_bool(rows: u64, cols: u64, k: i64) -> (r: Vec<u8>)
    requires
        rows * cols <= u64::MAX,
        packed_size(ElementType::Bool, (rows * cols) as nat) <= usize::MAX,
    ensures
        r@ == spec_fill_eye_bool(rows as nat, cols as nat, k as int),
{
    let n: u64 = rows * cols;
    proof {
        lemma_packed_sizes(ElementType::Bool, n as nat);
        if cols == 0 {
            assert(n == 0);
        }
    }
    let size = buffer_size_bytes(ElementType::Bool, n) as usize;
    let ghost bit = eye_bit(rows as nat, cols as nat, k as int);
    let mut buf: Vec<u8> = Vec::new();
    let mut b: usize = 0;
    while b < size
        invariant
            b <= size,
            size == (n as nat + 7) / 8,
            n == rows * cols,
            n == 0 || cols > 0,
            bit == eye_bit(rows as nat, cols as nat, k as int),
            buf@.len() == b,
            forall|j: int| 0 <= j < b ==> buf@[j] as nat == packed_byte(bit, j),
        decreases size - b,
    {
        let mut cur: u8 = 0;
        let mut t: u8 = 0;
        while t < 8
            invariant
                t <= 8,
                b < size,
                n == rows * cols,
                n == 0 || cols > 0,
                bit == eye_bit(rows as nat, cols as nat, k as int),
                cur as nat == packed_bits(bit, b as int, t as nat),
            decreases 8 - t,
        {
            proof {
                lemma_packed_bits_bound(bit, b as int, t as nat);
            }
            let e: u128 = 8 * (b as u128) + (t as u128);
            if eye_bit_at(e, n as u128, cols, k) {
                proof {
                    lemma_set_bit(cur, t);
                }
                cur = cur | (1u8 << t);
            }
            t = t + 1;
        }
        buf.push(cur);
        b = b + 1;
    }
    assert(buf@ =~= spec_fill_eye_bool(rows as nat, cols as nat, k as int));
    buf
}

// ── Constructors ─────────────────────────────────────────────────────────────

/// `dtype=None` means `float64`.
pub fn resolve_dtype(dtype: Option<ElementType>) -> (r: ElementType)
    ensures
        r == (match dtype {
            Some(t) => t,
            None => ElementType::Float64,
        }),
{
    match dtype {
        Some(t) => t,
        None => ElementType::Float64,
    }
}

/// `device=None` means standard CPU memory.
pub fn resolve_device(device: Option<Device>) -> (r: (DeviceTag, MemoryClass))
    ensures
        r == (match device {
            Some(d) => (d.tag, d.memory_class),
            None => (DeviceTag::Cpu, MemoryClass::Standard),
        }),
{
    match device {
        Some(d) => (d.tag, d.memory_class),
        None => (DeviceTag::Cpu, MemoryClass::Standard),
    }
}

/// The number of elements a constructor fills: the shape's element count, or zero when
/// it has none (a dynamic extent or an overflowing product).
pub open spec fn fill_count(dims: Seq<u64>) -> nat {
    match spec_element_count(dims) {
        Some(n) => n,
        None => 0,
    }
}

/// A new tensor's descriptor and bytes.
pub struct NewTensor {
    pub descriptor: TensorDescriptor,
    pub data: Vec<u8>,
}

/// The buffer of `count` zero elements of `t`.
pub fn zero_buffer(t: ElementType, count: u64) -> (r: Vec<u8>)
    requires
        saturated_size(t, count as nat) <= usize::MAX,
    ensures
        r@ == Seq::new(saturated_size(t, count as nat) as nat, |i: int| 0u8),
{
    let size = buffer_size_bytes(t, count) as usize;
    let mut buf: Vec<u8> = Vec::new();
    let mut k: usize = 0;
    while k < size
        invariant
            k <= size,
            buf@ == Seq::new(k as nat, |i: int| 0u8),
        decreases size - k,
    {
        buf.push(0u8);
        k = k + 1;
        assert(buf@ =~= Seq::new(k as nat, |i: int| 0u8));
    }
    buf
}

/// The shared prologue of `zeros`, `ones`, `full` and `empty`: resolve the dtype,
/// refuse Tier 2, resolve the device, parse the shape.
fn prologue(shape: &Vec<i64>, t: ElementType, device: Option<Device>) -> (r: Result<
    (Vec<u64>, DeviceTag, MemoryClass),
    CreationError,
>)
    ensures
        spec_tier(t) != 1 ==> r == Err::<(Vec<u64>, DeviceTag, MemoryClass), CreationError>(
            CreationError::Tier2(t),
        ),
        spec_tier(t) == 1 ==> match (r, spec_parse_shape(shape@)) {
            (Ok((dims, tag, mc)), Ok(d)) => dims@ == d && (tag, mc) == resolve_device_spec(device),
            (Err(e), Err(se)) => e == se,
            _ => false,
        },
{
    check_tier1(t)?;
    let (tag, mc) = resolve_device(device);
    let parsed = parse_shape(shape);
    proof {
        lemma_parse_shape_result(shape@, parsed);
    }
    let dims = parsed?;
    Ok((dims, tag, mc))
}

/// The device a constructor uses.
pub open spec fn resolve_device_spec(device: Option<Device>) -> (DeviceTag, MemoryClass) {
    match device {
        Some(d) => (d.tag, d.memory_class),
        None => (DeviceTag::Cpu, MemoryClass::Standard),
    }
}

proof fn lemma_parse_shape_result(shape: Seq<i64>, r: Result<Vec<u64>, CreationError>)
    requires
        match r {
            Ok(dims) => forall|k: int| 0 <= k < shape.len() ==> shape[k] >= 0,
            Err(_) => exists|k: int| 0 <= k < shape.len() && shape[k] < 0,
        },
        match r {
            Ok(dims) => dims@ == Seq::new(shape.len(), |i: int| shape[i] as u64),
            Err(e) => exists|k: int|
                0 <= k < shape.len() && shape[k] < 0 && e == CreationError::NegativeDimension(
                    shape[k],
                ) && forall|j: int| 0 <= j < k ==> shape[j] >= 0,
        },
    ensures
        match (r, spec_parse_shape(shape)) {
            (Ok(dims), Ok(d)) => dims@ == d,
            (Err(e), Err(se)) => e == se,
            _ => false,
        },
{
    if let Err(e) = r {
        let k = choose|k: int|
            0 <= k < shape.len() && shape[k] < 0 && e == CreationError::NegativeDimension(shape[k])
                && forall|j: int| 0 <= j < k ==> shape[j] >= 0;
        let c = choose|c: int|
            0 <= c < shape.len() && shape[c] < 0 && forall|j: int| 0 <= j < c ==> shape[j] >= 0;
        if k < c {
            assert(shape[k] >= 0);
        }
        if c < k {
            assert(shape[c] >= 0);
        }
    }
}

/// Where a constructor's checks lead: Tier 2 is refused, then a negative extent;
/// otherwise the unsigned shape and the device to build on.
pub open spec fn spec_constructor(shape: Seq<i64>, t: ElementType, device: Option<Device>) -> Result<
    (Seq<u64>, DeviceTag, MemoryClass),
    CreationError,
> {
    if spec_tier(t) != 1 {
        Err(CreationError::Tier2(t))
    } else {
        match spec_parse_shape(shape) {
            Err(e) => Err(e),
            Ok(d) => Ok((d, resolve_device_spec(device).0, resolve_device_spec(device).1)),
        }
    }
}

/// `t` is a new owned row-major tensor of element type `et` and shape `dims` on the
/// given device, holding exactly `data`.
pub open spec fn describes(
    t: NewTensor,
    et: ElementType,
    dims: Seq<u64>,
    tag: DeviceTag,
    mc: MemoryClass,
    data: Seq<u8>,
) -> bool {
    &&& t.descriptor.element_type == et
    &&& t.descriptor.shape@ == dims
    &&& t.descriptor.byte_offset == 0
    &&& t.descriptor.layout is RowMajor
    &&& t.descriptor.buffers@ == seq![spec_handle_on(data.len() as u64, tag, mc)]
    &&& t.data@ == data
}

/// The shape a constructor would build, were every extent non-negative.
pub open spec fn unsigned_shape(shape: Seq<i64>) -> Seq<u64> {
    Seq::new(shape.len(), |i: int| shape[i] as u64)
}

fn new_tensor(et: ElementType, dims: Vec<u64>, data: Vec<u8>, tag: DeviceTag, mc: MemoryClass) -> (r: NewTensor)
    ensures
        describes(r, et, dims@, tag, mc, data@),
{
    let len = data.len() as u64;
    let descriptor = owned_descriptor(et, dims, len, tag, mc);
    NewTensor { descriptor, data }
}

proof fn lemma_parsed_is_unsigned(shape: Seq<i64>)
    requires
        spec_parse_shape(shape) is Ok,
    ensures
        spec_parse_shape(shape) == Ok::<Seq<u64>, CreationError>(unsigned_shape(shape)),
{
}

/// `hurray.zeros(shape, dtype=None, device=None)`.
pub fn zeros(shape: &Vec<i64>, dtype: Option<ElementType>, device: Option<Device>) -> (r: Result<
    NewTensor,
    CreationError,
>)
    requires
        saturated_size(resolve_dtype_spec(dtype), fill_count(unsigned_shape(shape@))) <= usize::MAX,
    ensures
        match (r, spec_constructor(shape@, resolve_dtype_spec(dtype), device)) {
            (Ok(t), Ok((d, tag, mc))) => describes(
                t,
                resolve_dtype_spec(dtype),
                d,
                tag,
                mc,
                Seq::new(
                    saturated_size(resolve_dtype_spec(dtype), fill_count(d)) as nat,
                    |i: int| 0u8,
                ),
            ),
            (Err(e), Err(se)) => e == se,
            _ => false,
        },
{
    let et = resolve_dtype(dtype);
    let (dims, tag, mc) = prologue(shape, et, device)?;
    proof {
        lemma_parsed_is_unsigned(shape@);
    }
    let n = match element_count(&dims) {
        Some(n) => n,
        None => 0,
    };
    let data = zero_buffer(et, n);
    Ok(new_tensor(et, dims, data, tag, mc))
}

/// `hurray.empty(...)`: the contents are unspecified; they are zero-filled.
pub fn empty(shape: &Vec<i64>, dtype: Option<ElementType>, device: Option<Device>) -> (r: Result<
    NewTensor,
    CreationError,
>)
    requires
        saturated_size(resolve_dtype_spec(dtype), fill_count(unsigned_shape(shape@))) <= usize::MAX,
    ensures
        match (r, spec_constructor(shape@, resolve_dtype_spec(dtype), device)) {
            (Ok(t), Ok((d, tag, mc))) => describes(
                t,
                resolve_dtype_spec(dtype),
                d,
                tag,
                mc,
                Seq::new(
                    saturated_size(resolve_dtype_spec(dtype), fill_count(d)) as nat,
                    |i: int| 0u8,
                ),
            ),
            (Err(e), Err(se)) => e == se,
            _ => false,
        },
{
    zeros(shape, dtype, device)
}

/// The element type `dtype=None` resolves to.
pub open spec fn resolve_dtype_spec(dtype: Option<ElementType>) -> ElementType {
    match dtype {
        Some(t) => t,
        None => ElementType::Float64,
    }
}

/// `hurray.ones(shape, dtype=None, device=None)`.
pub fn ones(shape: &Vec<i64>, dtype: Option<ElementType>, device: Option<Device>) -> (r: Result<
    NewTensor,
    CreationError,
>)
    requires
        packed_size(resolve_dtype_spec(dtype), fill_count(unsigned_shape(shape@))) <= usize::MAX,
    ensures
        match (r, spec_constructor(shape@, resolve_dtype_spec(dtype), device)) {
            (Ok(t), Ok((d, tag, mc))) => describes(
                t,
                resolve_dtype_spec(dtype),
                d,
                tag,
                mc,
                spec_fill_ones(resolve_dtype_spec(dtype), fill_count(d)),
            ),
            (Err(e), Err(se)) => e == se,
            _ => false,
        },
{
    let et = resolve_dtype(dtype);
    let (dims, tag, mc) = prologue(shape, et, device)?;
    proof {
        lemma_parsed_is_unsigned(shape@);
    }
    let n = match element_count(&dims) {
        Some(n) => n,
        None => 0,
    };
    let data = fill_ones(et, n);
    Ok(new_tensor(et, dims, data, tag, mc))
}

/// The element type `full` uses: the stated one, or the one the fill value implies.
pub open spec fn full_type(dtype: Option<ElementType>, kind: ScalarKind) -> Result<ElementType, CreationError> {
    match dtype {
        Some(t) => Ok(t),
        None => match kind {
            ScalarKind::Bool => Ok(ElementType::Bool),
            ScalarKind::Complex => Ok(ElementType::Complex128),
            ScalarKind::Float => Ok(ElementType::Float64),
            ScalarKind::Int => Ok(ElementType::Int64),
            ScalarKind::Other => Err(CreationError::UninferableScalar),
        },
    }
}

/// `hurray.full(shape, fill_value, dtype=None, device=None)`, with the fill value given
/// by its Python type and its encoding in the element type `full` resolves to.
pub fn full(
    shape: &Vec<i64>,
    kind: ScalarKind,
    fill: &FillValue,
    dtype: Option<ElementType>,
    device: Option<Device>,
) -> (r: Result<NewTensor, CreationError>)
    requires
        full_type(dtype, kind) matches Ok(t) ==> {
            &&& (fill is Bool <==> t == ElementType::Bool)
            &&& (fill matches FillValue::Encoded(p) ==> p@.len() > 0)
            &&& packed_size(t, fill_count(unsigned_shape(shape@))) <= usize::MAX
        },
    ensures
        match full_type(dtype, kind) {
            Err(e) => r == Err::<NewTensor, CreationError>(e),
            Ok(et) => match (r, spec_constructor(shape@, et, device)) {
                (Ok(t), Ok((d, tag, mc))) => describes(
                    t,
                    et,
                    d,
                    tag,
                    mc,
                    spec_fill_scalar(et, *fill, fill_count(d)),
                ),
                (Err(e), Err(se)) => e == se,
                _ => false,
            },
        },
{
    let et = match dtype {
        Some(t) => t,
        None => infer_scalar_dtype(kind)?,
    };
    let (dims, tag, mc) = prologue(shape, et, device)?;
    proof {
        lemma_parsed_is_unsigned(shape@);
    }
    let n = match element_count(&dims) {
        Some(n) => n,
        None => 0,
    };
    let data = fill_scalar(et, fill, n);
    Ok(new_tensor(et, dims, data, tag, mc))
}

/// `eye`'s row and column counts: neither may be negative, and the column count
/// defaults to the row count.
pub open spec fn spec_eye_dims(n_rows: i64, n_cols: Option<i64>) -> Result<(u64, u64), CreationError> {
    if n_rows < 0 {
        Err(CreationError::NegativeCount(n_rows))
    } else {
        match n_cols {
            None => Ok((n_rows as u64, n_rows as u64)),
            Some(c) => if c >= 0 {
                Ok((n_rows as u64, c as u64))
            } else {
                Err(CreationError::NegativeCount(c))
            },
        }
    }
}

/// Check `eye`'s row and column counts.
pub fn eye_dims(n_rows: i64, n_cols: Option<i64>) -> (r: Result<(u64, u64), CreationError>)
    ensures
        r == spec_eye_dims(n_rows, n_cols),
{
    if n_rows < 0 {
        return Err(CreationError::NegativeCount(n_rows));
    }
    let rows = n_rows as u64;
    match n_cols {
        None => Ok((rows, rows)),
        Some(c) => if c >= 0 {
            Ok((rows, c as u64))
        } else {
            Err(CreationError::NegativeCount(c))
        },
    }
}

/// The bytes `eye` lays down for element type `t`.
pub open spec fn spec_eye_data(rows: nat, cols: nat, k: int, t: ElementType) -> Seq<u8> {
    if t == ElementType::Bool {
        spec_fill_eye_bool(rows, cols, k)
    } else {
        spec_fill_eye(rows, cols, k, t)
    }
}

/// `hurray.eye(n_rows, n_cols=None, k=0, dtype=None, device=None)`.
pub fn eye(
    n_rows: i64,
    n_cols: Option<i64>,
    k: i64,
    dtype: Option<ElementType>,
    device: Option<Device>,
) -> (r: Result<NewTensor, CreationError>)
    requires
        spec_eye_dims(n_rows, n_cols) matches Ok((rows, cols)) ==> {
            &&& rows * cols <= u64::MAX
            &&& rows * cols * elem_bytes(resolve_dtype_spec(dtype)) <= usize::MAX
            &&& packed_size(ElementType::Bool, (rows * cols) as nat) <= usize::MAX
        },
    ensures
        match spec_eye_dims(n_rows, n_cols) {
            Err(e) => r == Err::<NewTensor, CreationError>(e),
            Ok((rows, cols)) => if spec_tier(resolve_dtype_spec(dtype)) != 1 {
                r == Err::<NewTensor, CreationError>(
                    CreationError::Tier2(resolve_dtype_spec(dtype)),
                )
            } else {
                r matches Ok(t) && describes(
                    t,
                    resolve_dtype_spec(dtype),
                    seq![rows, cols],
                    resolve_device_spec(device).0,
                    resolve_device_spec(device).1,
                    spec_eye_data(rows as nat, cols as nat, k as int, resolve_dtype_spec(dtype)),
                )
            },
        },
{
    let (rows, cols) = eye_dims(n_rows, n_cols)?;
    let et = resolve_dtype(dtype);
    check_tier1(et)?;
    let (tag, mc) = resolve_device(device);
    let data = if et == ElementType::Bool {
        fill_eye_bool(rows, cols, k)
    } else {
        fill_eye(rows, cols, k, et)
    };
    let dims = vec![rows, cols];
    assert(dims@ =~= seq![rows, cols]);
    Ok(new_tensor(et, dims, data, tag, mc))
}

/// `linspace`'s argument checks: a negative count is refused, then Tier 2, then
/// `bool` (a boolean sequence has no sensible spacing). Returns the count.
pub fn check_linspace(num: i64, t: ElementType) -> (r: Result<u64, CreationError>)
    ensures
        r == (if num < 0 {
            Err::<u64, CreationError>(CreationError::NegativeCount(num))
        } else if spec_tier(t) != 1 {
            Err(CreationError::Tier2(t))
        } else if t == ElementType::Bool {
            Err(CreationError::BoolSequence)
        } else {
            Ok(num as u64)
        }),
{
    if num < 0 {
        return Err(CreationError::NegativeCount(num));
    }
    check_tier1(t)?;
    if t == ElementType::Bool {
        return Err(CreationError::BoolSequence);
    }
    Ok(num as u64)
}

/// `arange`'s element type: the stated one, else `int64` when every bound and the step
/// is a Python int, else `float64` (`any_non_int` says some argument is not an int).
pub fn arange_dtype(dtype: Option<ElementType>, any_non_int: bool) -> (r: ElementType)
    ensures
        r == (match dtype {
            Some(t) => t,
            None => if any_non_int {
                ElementType::Float64
            } else {
                ElementType::Int64
            },
        }),
{
    match dtype {
        Some(t) => t,
        None => if any_non_int {
            ElementType::Float64
        } else {
            ElementType::Int64
        },
    }
}

/// Sequences (`arange`, `linspace`) cannot be boolean.
pub fn check_not_bool_sequence(t: ElementType) -> (r: Result<(), CreationError>)
    ensures
        r == (if t == ElementType::Bool {
            Err::<(), CreationError>(CreationError::BoolSequence)
        } else {
            Ok(())
        }),
{
    if t == ElementType::Bool {
        return Err(CreationError::BoolSequence);
    }
    Ok(())
}

/// The NumPy dtype name of a type NumPy supports natively: the Tier 1 types except
/// `bfloat16`, plus the two complex types.
pub open spec fn spec_numpy_name(t: ElementType) -> Option<Seq<char>> {
    match t {
        ElementType::Bool | ElementType::Int8 | ElementType::Int16 | ElementType::Int32
        | ElementType::Int64 | ElementType::Uint8 | ElementType::Uint16 | ElementType::Uint32
        | ElementType::Uint64 | ElementType::Float16 | ElementType::Float32
        | ElementType::Float64 | ElementType::Complex64 | ElementType::Complex128 => Some(
            element_name(t),
        ),
        _ => None,
    }
}

/// The NumPy dtype name of an element type, or `None` where NumPy has none.
pub fn to_numpy_dtype_name(t: ElementType) -> (r: Option<&'static str>)
    ensures
        match spec_numpy_name(t) {
            Some(n) => r matches Some(s) && s@ == n,
            None => r is None,
        },
{
    match t {
        ElementType::Bool | ElementType::Int8 | ElementType::Int16 | ElementType::Int32
        | ElementType::Int64 | ElementType::Uint8 | ElementType::Uint16 | ElementType::Uint32
        | ElementType::Uint64 | ElementType::Float16 | ElementType::Float32
        | ElementType::Float64 | ElementType::Complex64 | ElementType::Complex128 => Some(
            crate::dtype::element_type_name(t),
        ),
        _ => None,
    }
}

/// `asarray`'s target dtype: Tier 1 only, and not `bfloat16`, which NumPy cannot hold.
pub fn check_asarray_dtype(t: ElementType) -> (r: Result<(), CreationError>)
    ensures
        r == (if spec_tier(t) != 1 {
            Err::<(), CreationError>(CreationError::Tier2(t))
        } else if t == ElementType::BFloat16 {
            Err(CreationError::Bfloat16Target)
        } else {
            Ok(())
        }),
        r is Ok ==> spec_numpy_name(t) is Some,
{
    check_tier1(t)?;
    if t == ElementType::BFloat16 {
        return Err(CreationError::Bfloat16Target);
    }
    Ok(())
}

// ── *_like ───────────────────────────────────────────────────────────────────

/// Where a `*_like` constructor's checks lead: the stated dtype or `x`'s, refused if
/// Tier 2; the stated device or `x`'s; and `x`'s shape.
pub open spec fn spec_like(x_type: ElementType, x_device: Device, dtype: Option<ElementType>, device: Option<Device>) -> Result<
    (ElementType, DeviceTag, MemoryClass),
    CreationError,
> {
    let et = match dtype {
        Some(t) => t,
        None => x_type,
    };
    if spec_tier(et) != 1 {
        Err(CreationError::Tier2(et))
    } else {
        let d = match device {
            Some(d) => d,
            None => x_device,
        };
        Ok((et, d.tag, d.memory_class))
    }
}

fn like_prologue(x_type: ElementType, x_device: Device, dtype: Option<ElementType>, device: Option<Device>) -> (r: Result<
    (ElementType, DeviceTag, MemoryClass),
    CreationError,
>)
    ensures
        r == spec_like(x_type, x_device, dtype, device),
{
    let et = match dtype {
        Some(t) => t,
        None => x_type,
    };
    check_tier1(et)?;
    let d = match device {
        Some(d) => d,
        None => x_device,
    };
    Ok((et, d.tag, d.memory_class))
}

/// `hurray.zeros_like(x, dtype=None, device=None)`; `empty_like` is the same.
pub fn zeros_like(x: &TensorDescriptor, x_device: Device, dtype: Option<ElementType>, device: Option<Device>) -> (r:
    Result<NewTensor, CreationError>)
    requires
        saturated_size(
            match dtype {
                Some(t) => t,
                None => x.element_type,
            },
            fill_count(x.shape@),
        ) <= usize::MAX,
    ensures
        match (r, spec_like(x.element_type, x_device, dtype, device)) {
            (Ok(t), Ok((et, tag, mc))) => describes(
                t,
                et,
                x.shape@,
                tag,
                mc,
                Seq::new(saturated_size(et, fill_count(x.shape@)) as nat, |i: int| 0u8),
            ),
            (Err(e), Err(se)) => e == se,
            _ => false,
        },
{
    let (et, tag, mc) = like_prologue(x.element_type, x_device, dtype, device)?;
    let n = match element_count(&x.shape) {
        Some(n) => n,
        None => 0,
    };
    let data = zero_buffer(et, n);
    let dims = crate::descriptor::copy_dims(&x.shape);
    Ok(new_tensor(et, dims, data, tag, mc))
}

/// `hurray.ones_like(x, dtype=None, device=None)`.
pub fn ones_like(x: &TensorDescriptor, x_device: Device, dtype: Option<ElementType>, device: Option<Device>) -> (r:
    Result<NewTensor, CreationError>)
    requires
        packed_size(
            match dtype {
                Some(t) => t,
                None => x.element_type,
            },
            fill_count(x.shape@),
        ) <= usize::MAX,
    ensures
        match (r, spec_like(x.element_type, x_device, dtype, device)) {
            (Ok(t), Ok((et, tag, mc))) => describes(
                t,
                et,
                x.shape@,
                tag,
                mc,
                spec_fill_ones(et, fill_count(x.shape@)),
            ),
            (Err(e), Err(se)) => e == se,
            _ => false,
        },
{
    let (et, tag, mc) = like_prologue(x.element_type, x_device, dtype, device)?;
    let n = match element_count(&x.shape) {
        Some(n) => n,
        None => 0,
    };
    let data = fill_ones(et, n);
    let dims = crate::descriptor::copy_dims(&x.shape);
    Ok(new_tensor(et, dims, data, tag, mc))
}

/// `hurray.full_like(x, fill_value, dtype=None, device=None)`, with the fill value
/// encoded in the element type it resolves to.
pub fn full_like(
    x: &TensorDescriptor,
    x_device: Device,
    fill: &FillValue,
    dtype: Option<ElementType>,
    device: Option<Device>,
) -> (r: Result<NewTensor, CreationError>)
    requires
        ({
            let t = match dtype {
                Some(t) => t,
                None => x.element_type,
            };
            &&& (fill is Bool <==> t == ElementType::Bool)
            &&& (fill matches FillValue::Encoded(p) ==> p@.len() > 0)
            &&& packed_size(t, fill_count(x.shape@)) <= usize::MAX
        }),
    ensures
        match (r, spec_like(x.element_type, x_device, dtype, device)) {
            (Ok(t), Ok((et, tag, mc))) => describes(
                t,
                et,
                x.shape@,
                tag,
                mc,
                spec_fill_scalar(et, *fill, fill_count(x.shape@)),
            ),
            (Err(e), Err(se)) => e == se,
            _ => false,
        },
{
    let (et, tag, mc) = like_prologue(x.element_type, x_device, dtype, device)?;
    let n = match element_count(&x.shape) {
        Some(n) => n,
        None => 0,
    };
    let data = fill_scalar(et, fill, n);
    let dims = crate::descriptor::copy_dims(&x.shape);
    Ok(new_tensor(et, dims, data, tag, mc))
}

// ── Integer fill values ──────────────────────────────────────────────────────

/// `256 ** k`.
pub open spec fn pow256(k: nat) -> nat
    decreases k,
{
    if k == 0 {
        1
    } else {
        256 * pow256((k - 1) as nat)
    }
}

/// The inclusive range and byte width of each integer type.
pub open spec fn int_range(t: ElementType) -> Option<(int, int, nat)> {
    match t {
        ElementType::Int8 => Some((-128, 127, 1nat)),
        ElementType::Uint8 => Some((0, 255, 1nat)),
        ElementType::Int16 => Some((-32768, 32767, 2nat)),
        ElementType::Uint16 => Some((0, 65535, 2nat)),
        ElementType::Int32 => Some((-2147483648, 2147483647, 4nat)),
        ElementType::Uint32 => Some((0, 4294967295, 4nat)),
        ElementType::Int64 => Some((-9223372036854775808, 9223372036854775807, 8nat)),
        ElementType::Uint64 => Some((0, 18446744073709551615, 8nat)),
        _ => None,
    }
}

/// The little-endian two's-complement encoding of `v` in `w` bytes.
pub open spec fn le_bytes(v: int, w: nat) -> Seq<u8> {
    let u = if v < 0 {
        v + pow256(w)
    } else {
        v
    };
    Seq::new(w, |k: int| ((u / (pow256(k as nat) as int)) % 256) as u8)
}

/// A Python integer that does not fit the target integer type (`OverflowError`).
#[derive(Clone, Copy, Debug, PartialEq, Eq, Structural)]
pub struct IntOutOfRange;

/// Encode an integer fill value for an integer element type.
pub fn encode_int_scalar(t: ElementType, v: i128) -> (r: Result<Vec<u8>, IntOutOfRange>)
    requires
        int_range(t) is Some,
    ensures
        match int_range(t) {
            Some((lo, hi, w)) => if lo <= v <= hi {
                r matches Ok(b) && b@ == le_bytes(v as int, w)
            } else {
                r == Err::<Vec<u8>, IntOutOfRange>(IntOutOfRange)
            },
            None => false,
        },
{
    let (lo, hi, w): (i128, i128, usize) = match t {
        ElementType::Int8 => (-128, 127, 1),
        ElementType::Uint8 => (0, 255, 1),
        ElementType::Int16 => (-32768, 32767, 2),
        ElementType::Uint16 => (0, 65535, 2),
        ElementType::Int32 => (-2147483648, 2147483647, 4),
        ElementType::Uint32 => (0, 4294967295, 4),
        ElementType::Int64 => (-9223372036854775808, 9223372036854775807, 8),
        _ => (0, 18446744073709551615, 8),
    };
    if v < lo || v > hi {
        return Err(IntOutOfRange);
    }
    proof {
        reveal_with_fuel(pow256, 9);
    }
    let span: i128 = match w {
        1 => 256,
        2 => 65536,
        4 => 4294967296,
        _ => 18446744073709551616,
    };
    assert(span == pow256(w as nat));
    let u: i128 = if v < 0 {
        v + span
    } else {
        v
    };
    let ghost u0 = u as int;
    assert(pow256(0) == 1);
    assert(u0 / 1 == u0);
    let mut rest: i128 = u;
    let mut out: Vec<u8> = Vec::new();
    let mut k: usize = 0;
    while k < w
        invariant
            k <= w,
            w <= 8,
            0 <= u0,
            rest >= 0,
            rest as int == u0 / (pow256(k as nat) as int),
            pow256(k as nat) > 0,
            out@ == Seq::new(k as nat, |j: int| ((u0 / (pow256(j as nat) as int)) % 256) as u8),
        decreases w - k,
    {
        let byte = (rest % 256) as u8;
        out.push(byte);
        proof {
            let p = pow256(k as nat) as int;
            assert(pow256((k + 1) as nat) == 256 * pow256(k as nat));
            vstd::arithmetic::div_mod::lemma_div_denominator(u0, p, 256);
            assert(u0 / (p * 256) == (u0 / p) / 256);
            assert(p * 256 == pow256((k + 1) as nat));
        }
        rest = rest / 256;
        k = k + 1;
        assert(out@ =~= Seq::new(k as nat, |j: int| ((u0 / (pow256(j as nat) as int)) % 256) as u8));
    }
    Ok(out)
}

// ── Laws ─────────────────────────────────────────────────────────────────────

/// A row-major buffer exactly as large as the packed element grid passes every tier of
/// layout validation: this is the buffer `zeros`, `ones`, `full`, `empty` and `eye`
/// build (see [`lemma_constructed_sizes`]).
pub proof fn lemma_constructed_tensors_validate(et: ElementType, dims: Seq<u64>, len: usize)
    requires
        len as nat == saturated_size(et, fill_count(dims)) as nat,
    ensures
        crate::layout::validate::spec_validate_layout(
            crate::layout::LayoutDescriptor::RowMajor,
            dims,
            et,
            seq![len],
        ) is Ok,
{
    let mins = crate::layout::validate::spec_buffer_minimums(
        crate::layout::LayoutDescriptor::RowMajor,
        dims,
        et,
    );
    assert(mins.len() == 1);
    assert(!crate::layout::validate::short_at(mins, seq![len], 0));
    assert(crate::layout::validate::first_short_from(mins, seq![len], 1) is None);
    assert(crate::layout::validate::first_short_from(mins, seq![len], 0) is None);
}

/// The buffers the constructors lay down have the packed size of their element grid:
/// the fills of `ones` and `full`, and `eye`'s for every element type it accepts.
pub proof fn lemma_constructed_sizes(et: ElementType, count: nat, rows: nat, cols: nat, k: int, value: FillValue)
    requires
        spec_tier(et) == 1,
        packed_size(et, count) <= u64::MAX,
        value matches FillValue::Encoded(p) ==> p@.len() > 0,
        value is Bool ==> et == ElementType::Bool,
    ensures
        spec_fill_ones(et, count).len() == saturated_size(et, count),
        spec_fill_scalar(et, value, count).len() == saturated_size(et, count),
        spec_eye_data(rows, cols, k, et).len() == packed_size(et, rows * cols),
{
    assert(packed_size(ElementType::Bool, count) == (count + 7) / 8);
    if et == ElementType::Bool {
        assert(packed_size(et, rows * cols) == (rows * cols + 7) / 8);
    } else {
        assert(packed_size(et, rows * cols) == rows * cols * elem_bytes(et));
        assert(spec_eye_data(rows, cols, k, et).len() == rows * cols * elem_bytes(et));
    }
}

proof fn lemma_pow256_bounds(k: nat)
    ensures
        pow256(k) >= 1,
        k >= 1 ==> pow256(k) >= 256,
    decreases k,
{
    if k >= 1 {
        lemma_pow256_bounds((k - 1) as nat);
    }
}

/// The little-endian encoding of one: a first byte of `1` and every other byte `0`.
proof fn lemma_le_bytes_of_one(w: nat)
    ensures
        le_bytes(1, w).len() == w,
        forall|k: int| 0 <= k < w ==> #[trigger] le_bytes(1, w)[k] == (if k == 0 {
            1u8
        } else {
            0u8
        }),
{
    assert forall|k: int| 0 <= k < w implies #[trigger] le_bytes(1, w)[k] == (if k == 0 {
        1u8
    } else {
        0u8
    }) by {
        lemma_pow256_bounds(k as nat);
        let p = pow256(k as nat) as int;
        if k == 0 {
            assert(p == 1);
        } else {
            assert(1int / p == 0) by (nonlinear_arith)
                requires
                    p >= 256,
            ;
        }
    }
}

/// Every element `ones` lays down for an integer type is that type's one: its bytes are
/// the little-endian two's-complement encoding of the value `1`, the same bytes `full`
/// writes for a fill value of `1`.
pub proof fn lemma_ones_are_one(t: ElementType, count: nat, e: int)
    requires
        int_range(t) is Some,
        0 <= e < count,
    ensures
        match int_range(t) {
            Some((lo, hi, w)) => {
                &&& e * w + w <= spec_fill_ones(t, count).len()
                &&& spec_fill_ones(t, count).subrange(e * w, e * w + w) == le_bytes(1, w)
            },
            None => false,
        },
{
    lemma_packed_sizes(t, count);
    lemma_le_bytes_of_one(elem_bytes(t));
    let w = elem_bytes(t);
    assert(int_range(t) matches Some((lo, hi, ww)) && ww == w);
    assert(w >= 1);
    let one = spec_one_bytes(t);
    assert(one =~= le_bytes(1, w));
    let fill = spec_fill_ones(t, count);
    assert(fill.len() == count * w);
    assert(e * w + w <= count * w) by (nonlinear_arith)
        requires
            0 <= e < count,
            w >= 1,
    ;
    assert forall|j: int| 0 <= j < w implies #[trigger] fill.subrange(e * w, e * w + w)[j]
        == one[j] by {
        assert((e * w + j) % (w as int) == j) by (nonlinear_arith)
            requires
                0 <= j < w,
                e >= 0,
        ;
        assert(fill[e * w + j] == one[(e * w + j) % (one.len() as int)]);
    }
    assert(fill.subrange(e * w, e * w + w) =~= le_bytes(1, w));
}

/// The IEEE 754 binary interchange formats among the element types: exponent and
/// mantissa widths (the sign takes one more bit).
pub open spec fn ieee_binary_format(t: ElementType) -> Option<(nat, nat)> {
    match t {
        ElementType::Float16 => Some((5nat, 10nat)),
        ElementType::BFloat16 => Some((8nat, 7nat)),
        ElementType::Float32 => Some((8nat, 23nat)),
        ElementType::Float64 => Some((11nat, 52nat)),
        _ => None,
    }
}

/// The bit pattern of `1.0` in a binary format: sign clear, the biased exponent equal to
/// the bias `2 ** (e - 1) - 1`, and a zero mantissa.
pub open spec fn ieee_one_bits(e: nat, m: nat) -> int {
    (two_pow((e - 1) as nat) - 1) * two_pow(m)
}

proof fn lemma_two_pow_is_pow2(n: nat)
    ensures
        two_pow(n) == vstd::arithmetic::power2::pow2(n),
    decreases n,
{
    vstd::arithmetic::power2::lemma2_to64();
    if n > 0 {
        lemma_two_pow_is_pow2((n - 1) as nat);
        vstd::arithmetic::power2::lemma_pow2_unfold(n);
    }
}

proof fn lemma_le_bytes_at(v: int, w: nat, k: int)
    requires
        0 <= v,
        0 <= k < w,
    ensures
        le_bytes(v, w)[k] == ((v / (pow256(k as nat) as int)) % 256) as u8,
{
}

/// The bytes `ones` repeats for a floating-point type are the little-endian encoding of
/// `1.0`: for an IEEE binary format, the pattern with the biased exponent equal to the
/// bias and a zero mantissa; for a complex type, that of its component type followed by
/// a zero imaginary part.
pub proof fn lemma_float_ones_are_one(t: ElementType)
    ensures
        ieee_binary_format(t) matches Some((e, m)) ==> spec_one_bytes(t) == le_bytes(
            ieee_one_bits(e, m),
            (1 + e + m) / 8,
        ),
        t == ElementType::Complex64 ==> spec_one_bytes(t) == spec_one_bytes(ElementType::Float32)
            + le_bytes(0, 4),
        t == ElementType::Complex128 ==> spec_one_bytes(t) == spec_one_bytes(
            ElementType::Float64,
        ) + le_bytes(0, 8),
{
    vstd::arithmetic::power2::lemma2_to64();
    vstd::arithmetic::power2::lemma2_to64_rest();
    lemma_two_pow_is_pow2(4);
    lemma_two_pow_is_pow2(7);
    lemma_two_pow_is_pow2(10);
    lemma_two_pow_is_pow2(23);
    lemma_two_pow_is_pow2(52);
    reveal_with_fuel(pow256, 9);
    assert(pow256(0) == 1 && pow256(1) == 0x100 && pow256(2) == 0x10000 && pow256(3) == 0x1000000
        && pow256(4) == 0x100000000 && pow256(5) == 0x10000000000 && pow256(6)
        == 0x1000000000000 && pow256(7) == 0x100000000000000);
    match t {
        ElementType::Float16 => {
            let v = ieee_one_bits(5, 10);
            assert(v == 0x3c00);
            lemma_le_bytes_at(v, 2, 0);
            lemma_le_bytes_at(v, 2, 1);
            assert(le_bytes(v, 2) =~= spec_one_bytes(t));
        },
        ElementType::BFloat16 => {
            let v = ieee_one_bits(8, 7);
            assert(v == 0x3f80);
            lemma_le_bytes_at(v, 2, 0);
            lemma_le_bytes_at(v, 2, 1);
            assert(le_bytes(v, 2) =~= spec_one_bytes(t));
        },
        ElementType::Float32 => {
            let v = ieee_one_bits(8, 23);
            assert(v == 0x3f800000);
            lemma_le_bytes_at(v, 4, 0);
            lemma_le_bytes_at(v, 4, 1);
            lemma_le_bytes_at(v, 4, 2);
            lemma_le_bytes_at(v, 4, 3);
            assert(le_bytes(v, 4) =~= spec_one_bytes(t));
        },
        ElementType::Float64 => {
            let v = ieee_one_bits(11, 52);
            assert(two_pow(10) == 1024);
            assert(two_pow(52) == 0x10000000000000);
            assert(v == 1023 * 0x10000000000000);
            assert(v == 0x3ff0000000000000);
            lemma_le_bytes_at(v, 8, 0);
            lemma_le_bytes_at(v, 8, 1);
            lemma_le_bytes_at(v, 8, 2);
            lemma_le_bytes_at(v, 8, 3);
            lemma_le_bytes_at(v, 8, 4);
            lemma_le_bytes_at(v, 8, 5);
            lemma_le_bytes_at(v, 8, 6);
            lemma_le_bytes_at(v, 8, 7);
            assert(0x3ff0000000000000int / 0x1 % 256 == 0x0);
            assert(le_bytes(v, 8)[0] == 0x0u8);
            assert(0x3ff0000000000000int / 0x100 % 256 == 0x0);
            assert(le_bytes(v, 8)[1] == 0x0u8);
            assert(0x3ff0000000000000int / 0x10000 % 256 == 0x0);
            assert(le_bytes(v, 8)[2] == 0x0u8);
            assert(0x3ff0000000000000int / 0x1000000 % 256 == 0x0);
            assert(le_bytes(v, 8)[3] == 0x0u8);
            assert(0x3ff0000000000000int / 0x100000000 % 256 == 0x0);
            assert(le_bytes(v, 8)[4] == 0x0u8);
            assert(0x3ff0000000000000int / 0x10000000000 % 256 == 0x0);
            assert(le_bytes(v, 8)[5] == 0x0u8);
            assert(0x3ff0000000000000int / 0x1000000000000 % 256 == 0xf0);
            assert(le_bytes(v, 8)[6] == 0xf0u8);
            assert(0x3ff0000000000000int / 0x100000000000000 % 256 == 0x3f);
            assert(le_bytes(v, 8)[7] == 0x3fu8);
            assert(le_bytes(v, 8) =~= spec_one_bytes(t));
        },
        ElementType::Complex64 => {
            lemma_le_bytes_at(0, 4, 0);
            lemma_le_bytes_at(0, 4, 1);
            lemma_le_bytes_at(0, 4, 2);
            lemma_le_bytes_at(0, 4, 3);
            assert(le_bytes(0, 4) =~= seq![0u8, 0, 0, 0]);
            assert(spec_one_bytes(t) =~= spec_one_bytes(ElementType::Float32) + le_bytes(0, 4));
        },
        ElementType::Complex128 => {
            lemma_le_bytes_at(0, 8, 0);
            lemma_le_bytes_at(0, 8, 1);
            lemma_le_bytes_at(0, 8, 2);
            lemma_le_bytes_at(0, 8, 3);
            lemma_le_bytes_at(0, 8, 4);
            lemma_le_bytes_at(0, 8, 5);
            lemma_le_bytes_at(0, 8, 6);
            lemma_le_bytes_at(0, 8, 7);
            assert(le_bytes(0, 8) =~= seq![0u8, 0, 0, 0, 0, 0, 0, 0]);
            assert(spec_one_bytes(t) =~= spec_one_bytes(ElementType::Float64) + le_bytes(0, 8));
        },
        _ => {},
    }
}

} // verus!
