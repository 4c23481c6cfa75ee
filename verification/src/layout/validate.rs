//! Three-tier validation of a layout against the buffers supplied with it.
//!
//! The layout is a declaration; the buffers are evidence; they must agree:
//!
//! | Tier | Check | Error class |
//! |---|---|---|
//! | Shape | rank and extent rules of the layout | `InvalidDescriptorError` |
//! | Buffer count | supplied buffers at least the layout's required count | `InvalidDescriptorError` |
//! | Buffer size | each buffer at least as large as the layout's parameters imply | `BufferError` |
//!
//! An under-sized buffer is refused, never reinterpreted; over-sized buffers are
//! accepted (alignment and padding slack are legitimate). Private and unknown
//! layouts state no buffer count, so the count and size tiers cannot run for them.

use vstd::prelude::*;
use crate::dtype::{ElementType, buffer_size_bytes, saturated_size};
use crate::errors::ErrorClass;
use crate::layout::{
    BlockTableIndexType, LayoutDescriptor, index_type_bytes, required_buffers,
    spec_index_bytes, spec_required_buffers,
};
use crate::quantization::{QuantizationDescriptor, quantization_buffer_indices, spec_quantization_indices};

verus! {

/// The extent that marks a dimension as dynamic (unknown until the data arrives).
pub const DYNAMIC: u64 = 0xFFFF_FFFF_FFFF_FFFF;

/// Bytes per index element: every sparse index buffer holds `uint64`.
pub const INDEX_ELEMENT_BYTES: u64 = 8;

/// Why a layout does not fit a tensor's shape.
#[derive(Clone, Copy, Debug, PartialEq, Eq, Structural)]
pub enum ShapeError {
    /// A strided layout whose stride count differs from the rank.
    StridesRank,
    /// A CSR or CSC layout on a tensor that is not rank 2.
    SparseMatrixRank,
    /// A CSF layout on a tensor of rank below 3.
    CsfRank,
    /// A CSF mode order that is not a permutation of `0..rank`.
    CsfModeOrder,
    /// A Hilbert layout whose rank differs from the tensor's.
    HilbertRank,
    /// A dimension that is not `2 ** hilbert_order` long.
    HilbertExtent,
    /// A Morton layout whose bit-count list differs in length from the rank.
    MortonRank,
    /// A dimension longer than `2 ** morton_bits[k]`.
    MortonExtent,
}

/// Why a layout and its buffers disagree.
#[derive(Clone, Copy, Debug, PartialEq, Eq, Structural)]
pub enum ValidateError {
    Shape(ShapeError),
    /// Fewer buffers supplied than the layout requires.
    TooFewBuffers { required: u8, supplied: usize },
    /// The buffer at `index` is smaller than the layout implies.
    BufferTooSmall { index: usize, actual: usize, minimum: u64 },
}

impl ValidateError {
    /// Shape and count errors are descriptor errors; a short buffer is a buffer error.
    pub fn class(&self) -> (r: ErrorClass)
        ensures
            r == (if *self is BufferTooSmall {
                ErrorClass::Buffer
            } else {
                ErrorClass::InvalidDescriptor
            }),
    {
        match self {
            ValidateError::BufferTooSmall { .. } => ErrorClass::Buffer,
            _ => ErrorClass::InvalidDescriptor,
        }
    }
}

/// A quantization buffer index that falls inside the layout's own buffers.
#[derive(Clone, Copy, Debug, PartialEq, Eq, Structural)]
pub struct QuantizationIndexError {
    pub index: u32,
    pub owned: u32,
}

// ── Arithmetic ───────────────────────────────────────────────────────────────

/// `a * b`, held at `u64::MAX`.
pub open spec fn sat_mul(a: nat, b: nat) -> u64 {
    if a * b > u64::MAX {
        u64::MAX
    } else {
        (a * b) as u64
    }
}

/// `2 ** n`.
pub open spec fn two_pow(n: nat) -> nat
    decreases n,
{
    if n == 0 {
        1
    } else {
        2 * two_pow((n - 1) as nat)
    }
}

/// The product of the dimensions, multiplied left to right; `None` once a partial
/// product overflows `u64`.
pub open spec fn checked_product(dims: Seq<u64>) -> Option<nat>
    decreases dims.len(),
{
    if dims.len() == 0 {
        Some(1)
    } else {
        match checked_product(dims.drop_last()) {
            Some(p) => if p * dims.last() <= u64::MAX {
                Some((p * dims.last()) as nat)
            } else {
                None
            },
            None => None,
        }
    }
}

/// The same product leaving out the dimension at `axis`.
pub open spec fn checked_product_skipping(dims: Seq<u64>, axis: int) -> Option<nat>
    decreases dims.len(),
{
    if dims.len() == 0 {
        Some(1)
    } else {
        match checked_product_skipping(dims.drop_last(), axis) {
            Some(p) => if dims.len() - 1 == axis {
                Some(p)
            } else if p * dims.last() <= u64::MAX {
                Some((p * dims.last()) as nat)
            } else {
                None
            },
            None => None,
        }
    }
}

/// The number of elements a shape holds: `None` when a dimension is dynamic or the
/// count overflows `u64`.
pub open spec fn spec_element_count(dims: Seq<u64>) -> Option<nat> {
    if exists|k: int| 0 <= k < dims.len() && dims[k] == DYNAMIC {
        None
    } else {
        checked_product(dims)
    }
}

/// The number of elements a shape holds (dynamic or overflowing: `None`).
pub fn element_count(dims: &Vec<u64>) -> (r: Option<u64>)
    ensures
        match r {
            Some(n) => spec_element_count(dims@) == Some(n as nat),
            None => spec_element_count(dims@) is None,
        },
{
    let mut acc: Option<u64> = Some(1);
    let mut i: usize = 0;
    while i < dims.len()
        invariant
            i <= dims.len(),
            forall|k: int| 0 <= k < i ==> dims@[k] != DYNAMIC,
            match acc {
                Some(p) => checked_product(dims@.take(i as int)) == Some(p as nat),
                None => checked_product(dims@.take(i as int)) is None,
            },
        decreases dims.len() - i,
    {
        let d = dims[i];
        if d == DYNAMIC {
            assert(dims@[i as int] == DYNAMIC);
            return None;
        }
        assert(dims@.take(i + 1).drop_last() =~= dims@.take(i as int));
        acc = match acc {
            Some(p) => p.checked_mul(d),
            None => None,
        };
        i = i + 1;
    }
    assert(dims@.take(dims@.len() as int) =~= dims@);
    acc
}

/// The product of every dimension but the one at `axis` (overflow: `None`).
pub fn product_skipping(dims: &Vec<u64>, axis: usize) -> (r: Option<u64>)
    ensures
        match r {
            Some(n) => checked_product_skipping(dims@, axis as int) == Some(n as nat),
            None => checked_product_skipping(dims@, axis as int) is None,
        },
{
    let mut acc: Option<u64> = Some(1);
    let mut i: usize = 0;
    while i < dims.len()
        invariant
            i <= dims.len(),
            match acc {
                Some(p) => checked_product_skipping(dims@.take(i as int), axis as int) == Some(
                    p as nat,
                ),
                None => checked_product_skipping(dims@.take(i as int), axis as int) is None,
            },
        decreases dims.len() - i,
    {
        let d = dims[i];
        assert(dims@.take(i + 1).drop_last() =~= dims@.take(i as int));
        if i != axis {
            acc = match acc {
                Some(p) => p.checked_mul(d),
                None => None,
            };
        }
        i = i + 1;
    }
    assert(dims@.take(dims@.len() as int) =~= dims@);
    acc
}

fn sat_mul_exec(a: u64, b: u64) -> (r: u64)
    ensures
        r == sat_mul(a as nat, b as nat),
{
    match a.checked_mul(b) {
        Some(n) => n,
        None => u64::MAX,
    }
}

// ── Tier 1: shape ────────────────────────────────────────────────────────────

/// Is `m` a permutation of `0..n`?
pub open spec fn is_permutation(m: Seq<u32>, n: nat) -> bool {
    &&& m.len() == n
    &&& forall|i: int| 0 <= i < m.len() ==> m[i] < n
    &&& forall|i: int, j: int| 0 <= i < j < m.len() ==> m[i] != m[j]
}

/// The shape rules a layout places on a tensor: CSR and CSC are rank 2; CSF is rank
/// 3 or more, its mode order a permutation of the dimensions; a strided layout has one
/// stride per dimension; a Hilbert layout covers the tensor's rank with every
/// dimension `2 ** order` long; a Morton layout has one bit count per dimension and
/// each dimension at most `2 ** bits` long. Other layouts accept any shape.
pub open spec fn spec_validate_against_shape(l: LayoutDescriptor, dims: Seq<u64>) -> Result<
    (),
    ShapeError,
> {
    let rank = dims.len();
    match l {
        LayoutDescriptor::Strided { strides } => if strides@.len() != rank {
            Err(ShapeError::StridesRank)
        } else {
            Ok(())
        },
        LayoutDescriptor::Csr { .. } | LayoutDescriptor::Csc { .. } => if rank != 2 {
            Err(ShapeError::SparseMatrixRank)
        } else {
            Ok(())
        },
        LayoutDescriptor::Csf { mode_order, .. } => if rank < 3 {
            Err(ShapeError::CsfRank)
        } else if !is_permutation(mode_order@, rank) {
            Err(ShapeError::CsfModeOrder)
        } else {
            Ok(())
        },
        LayoutDescriptor::Hilbert { hilbert_order, hilbert_rank } => if hilbert_rank != rank {
            Err(ShapeError::HilbertRank)
        } else if exists|k: int| 0 <= k < rank && #[trigger] dims[k] != two_pow(hilbert_order as nat) {
            Err(ShapeError::HilbertExtent)
        } else {
            Ok(())
        },
        LayoutDescriptor::Morton { morton_bits } => if morton_bits@.len() != rank {
            Err(ShapeError::MortonRank)
        } else if exists|k: int| 0 <= k < rank && #[trigger] dims[k] > two_pow(morton_bits@[k] as nat) {
            Err(ShapeError::MortonExtent)
        } else {
            Ok(())
        },
        _ => Ok(()),
    }
}

proof fn lemma_two_pow_64()
    ensures
        two_pow(64) == 0x1_0000_0000_0000_0000,
{
    reveal_with_fuel(two_pow, 65);
}

proof fn lemma_two_pow_monotone(a: nat, b: nat)
    requires
        a <= b,
    ensures
        two_pow(a) <= two_pow(b),
    decreases b,
{
    if a < b {
        lemma_two_pow_monotone(a, (b - 1) as nat);
    }
}

proof fn lemma_two_pow_positive(a: nat)
    ensures
        two_pow(a) >= 1,
    decreases a,
{
    if a > 0 {
        lemma_two_pow_positive((a - 1) as nat);
    }
}

/// `2 ** n` when it fits in a `u64`.
fn two_pow_u64(n: u32) -> (r: Option<u64>)
    ensures
        match r {
            Some(p) => p == two_pow(n as nat),
            None => two_pow(n as nat) > u64::MAX,
        },
{
    if n >= 64 {
        proof {
            lemma_two_pow_64();
            lemma_two_pow_monotone(64, n as nat);
        }
        return None;
    }
    let mut p: u64 = 1;
    let mut i: u32 = 0;
    while i < n
        invariant
            i <= n,
            n < 64,
            p == two_pow(i as nat),
        decreases n - i,
    {
        proof {
            lemma_two_pow_monotone((i + 1) as nat, 63);
            lemma_two_pow_64();
            assert(two_pow(64) == 2 * two_pow(63));
        }
        p = p * 2;
        i = i + 1;
    }
    Some(p)
}

fn mode_order_is_permutation(m: &Vec<u32>, n: usize) -> (r: bool)
    ensures
        r == is_permutation(m@, n as nat),
{
    if m.len() != n {
        return false;
    }
    let mut i: usize = 0;
    while i < m.len()
        invariant
            i <= m.len(),
            m.len() == n,
            forall|a: int| 0 <= a < i ==> m@[a] < n,
            forall|a: int, b: int| 0 <= a < b < i ==> m@[a] != m@[b],
        decreases m.len() - i,
    {
        if (m[i] as usize) >= n {
            return false;
        }
        let mut j: usize = 0;
        while j < i
            invariant
                j <= i,
                i < m.len(),
                forall|a: int| 0 <= a < j ==> m@[a] != m@[i as int],
            decreases i - j,
        {
            if m[j] == m[i] {
                return false;
            }
            j = j + 1;
        }
        i = i + 1;
    }
    true
}

/// Tier 1: does the layout fit the shape?
#[verifier::loop_isolation(false)]
pub fn validate_against_shape(l: &LayoutDescriptor, dims: &Vec<u64>) -> (r: Result<(), ShapeError>)
    ensures
        r == spec_validate_against_shape(*l, dims@),
{
    let rank = dims.len();
    match l {
        LayoutDescriptor::Strided { strides } => {
            if strides.len() != rank {
                Err(ShapeError::StridesRank)
            } else {
                Ok(())
            }
        },
        LayoutDescriptor::Csr { .. } | LayoutDescriptor::Csc { .. } => {
            if rank != 2 {
                Err(ShapeError::SparseMatrixRank)
            } else {
                Ok(())
            }
        },
        LayoutDescriptor::Csf { mode_order, .. } => {
            if rank < 3 {
                Err(ShapeError::CsfRank)
            } else if !mode_order_is_permutation(mode_order, rank) {
                Err(ShapeError::CsfModeOrder)
            } else {
                Ok(())
            }
        },
        LayoutDescriptor::Hilbert { hilbert_order, hilbert_rank } => {
            if (*hilbert_rank as usize) != rank {
                return Err(ShapeError::HilbertRank);
            }
            let side = two_pow_u64(*hilbert_order);
            let mut k: usize = 0;
            while k < rank
                invariant
                    k <= rank,
                    rank == dims@.len(),
                    match side {
                        Some(p) => p == two_pow(*hilbert_order as nat),
                        None => two_pow(*hilbert_order as nat) > u64::MAX,
                    },
                    forall|j: int| 0 <= j < k ==> dims@[j] == two_pow(*hilbert_order as nat),
                decreases rank - k,
            {
                let ok = match side {
                    Some(p) => dims[k] == p,
                    None => false,
                };
                if !ok {
                    assert(dims@[k as int] != two_pow(*hilbert_order as nat));
                    return Err(ShapeError::HilbertExtent);
                }
                k = k + 1;
            }
            Ok(())
        },
        LayoutDescriptor::Morton { morton_bits } => {
            if morton_bits.len() != rank {
                return Err(ShapeError::MortonRank);
            }
            let mut k: usize = 0;
            while k < rank
                invariant
                    k <= rank,
                    rank == dims@.len(),
                    rank == morton_bits@.len(),
                    forall|j: int| 0 <= j < k ==> dims@[j] <= two_pow(morton_bits@[j] as nat),
                decreases rank - k,
            {
                let fits = match two_pow_u64(morton_bits[k]) {
                    Some(p) => dims[k] <= p,
                    None => true,
                };
                if !fits {
                    assert(dims@[k as int] > two_pow(morton_bits@[k as int] as nat));
                    return Err(ShapeError::MortonExtent);
                }
                k = k + 1;
            }
            Ok(())
        },
        _ => Ok(()),
    }
}

// ── Tier 3: sizes ────────────────────────────────────────────────────────────

/// Bytes of an index buffer holding `count` `uint64` entries.
pub open spec fn index_bytes(count: nat) -> Option<u64> {
    Some(sat_mul(count, INDEX_ELEMENT_BYTES as nat))
}

/// Bytes of a pointer array with one entry per slice along a dimension, plus one; a
/// missing or dynamic dimension leaves the size unknown.
pub open spec fn pointer_array_bytes(dim: Option<u64>) -> Option<u64> {
    match dim {
        Some(d) => if d != DYNAMIC {
            Some(sat_mul((d + 1) as nat, INDEX_ELEMENT_BYTES as nat))
        } else {
            None
        },
        None => None,
    }
}

/// The dimension at `k`, if the shape has one.
pub open spec fn dim_at(dims: Seq<u64>, k: int) -> Option<u64> {
    if 0 <= k < dims.len() {
        Some(dims[k])
    } else {
        None
    }
}

/// The CSF minimums: values, then `(pos, crd)` per level; only `pos_0` (two entries)
/// and the leaf `crd` (one entry per non-zero) follow from the descriptor.
pub open spec fn csf_minimums(values: Option<u64>, nnz: u64, levels: nat) -> Seq<Option<u64>> {
    Seq::new(
        2 * levels + 1,
        |k: int|
            if k == 0 {
                values
            } else if (k - 1) % 2 == 0 {
                if (k - 1) / 2 == 0 {
                    index_bytes(2)
                } else {
                    None
                }
            } else if (k - 1) / 2 + 1 == levels {
                index_bytes(nnz as nat)
            } else {
                None
            },
    )
}

/// The block-paged page pool: every page of `page_size` slices along the paged axis,
/// each slice holding the product of the other dimensions; unknown on overflow.
pub open spec fn page_pool_bytes(
    dims: Seq<u64>,
    paged_axis: u32,
    num_pages: u64,
    page_size: u32,
    et: ElementType,
) -> Option<u64> {
    match checked_product_skipping(dims, paged_axis as int) {
        Some(per) => if per * num_pages > u64::MAX {
            None
        } else if per * num_pages * page_size > u64::MAX {
            None
        } else {
            Some(saturated_size(et, (per * num_pages * page_size) as nat))
        },
        None => None,
    }
}

/// The minimum byte size of each buffer the layout implies; `None` where the size
/// is not derivable from the descriptor alone.
pub open spec fn spec_buffer_minimums(l: LayoutDescriptor, dims: Seq<u64>, et: ElementType) -> Seq<
    Option<u64>,
> {
    let values = |nnz: u64| Some(saturated_size(et, nnz as nat));
    match l {
        LayoutDescriptor::RowMajor | LayoutDescriptor::ColMajor | LayoutDescriptor::Strided { .. }
        | LayoutDescriptor::Tiled { .. } | LayoutDescriptor::Morton { .. }
        | LayoutDescriptor::Hilbert { .. } => seq![
            match spec_element_count(dims) {
                Some(n) => Some(saturated_size(et, n)),
                None => None,
            },
        ],
        LayoutDescriptor::Coo { nnz, .. } => seq![
            values(nnz),
            index_bytes(sat_mul(nnz as nat, dims.len()) as nat),
        ],
        LayoutDescriptor::Csr { nnz } => seq![
            values(nnz),
            index_bytes(nnz as nat),
            pointer_array_bytes(dim_at(dims, 0)),
        ],
        LayoutDescriptor::Csc { nnz } => seq![
            values(nnz),
            index_bytes(nnz as nat),
            pointer_array_bytes(dim_at(dims, 1)),
        ],
        LayoutDescriptor::Csf { nnz, mode_order } => csf_minimums(
            values(nnz),
            nnz,
            mode_order@.len(),
        ),
        LayoutDescriptor::BlockPaged { paged } => seq![
            page_pool_bytes(dims, paged.paged_axis, paged.num_pages, paged.page_size, et),
            None,
            Some(
                sat_mul(
                    paged.num_seqs as nat + 1,
                    spec_index_bytes(paged.block_table_index_type),
                ),
            ),
        ],
        _ => Seq::empty(),
    }
}

fn pointer_array(dims: &Vec<u64>, k: usize) -> (r: Option<u64>)
    ensures
        r == pointer_array_bytes(dim_at(dims@, k as int)),
{
    if k < dims.len() && dims[k] != DYNAMIC {
        Some(sat_mul_exec(dims[k] + 1, INDEX_ELEMENT_BYTES))
    } else {
        None
    }
}

/// The minimum byte size of each buffer the layout implies.
pub fn buffer_minimums(l: &LayoutDescriptor, dims: &Vec<u64>, et: ElementType) -> (r: Vec<
    Option<u64>,
>)
    ensures
        r@ == spec_buffer_minimums(*l, dims@, et),
{
    let rank = dims.len() as u64;
    match l {
        LayoutDescriptor::RowMajor | LayoutDescriptor::ColMajor | LayoutDescriptor::Strided { .. }
        | LayoutDescriptor::Tiled { .. } | LayoutDescriptor::Morton { .. }
        | LayoutDescriptor::Hilbert { .. } => {
            let m = match element_count(dims) {
                Some(n) => Some(buffer_size_bytes(et, n)),
                None => None,
            };
            let v = vec![m];
            assert(v@ =~= spec_buffer_minimums(*l, dims@, et));
            v
        },
        LayoutDescriptor::Coo { nnz, .. } => {
            let v = vec![
                Some(buffer_size_bytes(et, *nnz)),
                Some(sat_mul_exec(sat_mul_exec(*nnz, rank), INDEX_ELEMENT_BYTES)),
            ];
            assert(v@ =~= spec_buffer_minimums(*l, dims@, et));
            v
        },
        LayoutDescriptor::Csr { nnz } => {
            let v = vec![
                Some(buffer_size_bytes(et, *nnz)),
                Some(sat_mul_exec(*nnz, INDEX_ELEMENT_BYTES)),
                pointer_array(dims, 0),
            ];
            assert(v@ =~= spec_buffer_minimums(*l, dims@, et));
            v
        },
        LayoutDescriptor::Csc { nnz } => {
            let v = vec![
                Some(buffer_size_bytes(et, *nnz)),
                Some(sat_mul_exec(*nnz, INDEX_ELEMENT_BYTES)),
                pointer_array(dims, 1),
            ];
            assert(v@ =~= spec_buffer_minimums(*l, dims@, et));
            v
        },
        LayoutDescriptor::Csf { nnz, mode_order } => {
            let levels = mode_order.len();
            let values = Some(buffer_size_bytes(et, *nnz));
            let mut v: Vec<Option<u64>> = Vec::new();
            v.push(values);
            let ghost target = csf_minimums(values, *nnz, levels as nat);
            let mut level: usize = 0;
            while level < levels
                invariant
                    level <= levels,
                    levels == mode_order@.len(),
                    target == csf_minimums(values, *nnz, levels as nat),
                    v@.len() == 2 * level + 1,
                    forall|k: int| 0 <= k < v@.len() ==> v@[k] == target[k],
                decreases levels - level,
            {
                let pos = if level == 0 {
                    Some(2 * INDEX_ELEMENT_BYTES)
                } else {
                    None
                };
                let crd = if level + 1 == levels {
                    Some(sat_mul_exec(*nnz, INDEX_ELEMENT_BYTES))
                } else {
                    None
                };
                v.push(pos);
                v.push(crd);
                proof {
                    let k1 = 2 * level + 1;
                    let k2 = 2 * level + 2;
                    assert((k1 - 1) % 2 == 0 && (k1 - 1) / 2 == level);
                    assert((k2 - 1) % 2 == 1 && (k2 - 1) / 2 == level);
                }
                level = level + 1;
            }
            assert(v@ =~= spec_buffer_minimums(*l, dims@, et));
            v
        },
        LayoutDescriptor::BlockPaged { paged } => {
            let pool = match product_skipping(dims, paged.paged_axis as usize) {
                Some(per) => match per.checked_mul(paged.num_pages) {
                    Some(n) => match n.checked_mul(paged.page_size as u64) {
                        Some(n2) => Some(buffer_size_bytes(et, n2)),
                        None => None,
                    },
                    None => None,
                },
                None => None,
            };
            let seqs = sat_mul_exec(
                paged.num_seqs as u64 + 1,
                index_type_bytes(paged.block_table_index_type),
            );
            let v = vec![pool, None, Some(seqs)];
            assert(v@ =~= spec_buffer_minimums(*l, dims@, et));
            v
        },
        _ => {
            let v: Vec<Option<u64>> = Vec::new();
            assert(v@ =~= spec_buffer_minimums(*l, dims@, et));
            v
        },
    }
}

/// The buffer at `i` is supplied, has a derivable minimum, and falls short of it.
pub open spec fn short_at(mins: Seq<Option<u64>>, lens: Seq<usize>, i: int) -> bool {
    &&& 0 <= i < mins.len()
    &&& i < lens.len()
    &&& mins[i] is Some
    &&& (lens[i] as nat) < mins[i].unwrap()
}

/// The first short buffer at or after `i`.
pub open spec fn first_short_from(mins: Seq<Option<u64>>, lens: Seq<usize>, i: nat) -> Option<nat>
    decreases mins.len() - i,
{
    if i >= mins.len() {
        None
    } else if short_at(mins, lens, i as int) {
        Some(i)
    } else {
        first_short_from(mins, lens, i + 1)
    }
}

/// The outcome of the three tiers, in order.
pub open spec fn spec_validate_layout(
    l: LayoutDescriptor,
    dims: Seq<u64>,
    et: ElementType,
    lens: Seq<usize>,
) -> Result<(), ValidateError> {
    match spec_validate_against_shape(l, dims) {
        Err(e) => Err(ValidateError::Shape(e)),
        Ok(()) => {
            let required = spec_required_buffers(l);
            if required is Some && lens.len() < required.unwrap() {
                Err(
                    ValidateError::TooFewBuffers {
                        required: required.unwrap() as u8,
                        supplied: lens.len() as usize,
                    },
                )
            } else {
                let mins = spec_buffer_minimums(l, dims, et);
                match first_short_from(mins, lens, 0) {
                    Some(i) => Err(
                        ValidateError::BufferTooSmall {
                            index: i as usize,
                            actual: lens[i as int],
                            minimum: mins[i as int].unwrap(),
                        },
                    ),
                    None => Ok(()),
                }
            }
        },
    }
}

/// Run the three tiers for `l` against the supplied buffer lengths.
pub fn validate_layout(
    l: &LayoutDescriptor,
    dims: &Vec<u64>,
    et: ElementType,
    buffer_lens: &Vec<usize>,
) -> (r: Result<(), ValidateError>)
    ensures
        r == spec_validate_layout(*l, dims@, et, buffer_lens@),
{
    match validate_against_shape(l, dims) {
        Err(e) => return Err(ValidateError::Shape(e)),
        Ok(()) => {},
    }
    match required_buffers(l) {
        Some(required) => {
            if buffer_lens.len() < required as usize {
                return Err(
                    ValidateError::TooFewBuffers { required, supplied: buffer_lens.len() },
                );
            }
        },
        None => {},
    }
    let mins = buffer_minimums(l, dims, et);
    let mut i: usize = 0;
    while i < mins.len()
        invariant
            i <= mins.len(),
            mins@ == spec_buffer_minimums(*l, dims@, et),
            spec_validate_against_shape(*l, dims@) is Ok,
            !(spec_required_buffers(*l) is Some && buffer_lens@.len() < spec_required_buffers(
                *l,
            ).unwrap()),
            first_short_from(mins@, buffer_lens@, 0) == first_short_from(
                mins@,
                buffer_lens@,
                i as nat,
            ),
        decreases mins.len() - i,
    {
        if i < buffer_lens.len() {
            match mins[i] {
                Some(minimum) => {
                    if (buffer_lens[i] as u64) < minimum {
                        return Err(
                            ValidateError::BufferTooSmall {
                                index: i,
                                actual: buffer_lens[i],
                                minimum,
                            },
                        );
                    }
                },
                None => {},
            }
        }
        i = i + 1;
    }
    Ok(())
}

/// The spec's name for the buffer at `index` under a layout, for error messages.
pub open spec fn spec_buffer_role(l: LayoutDescriptor, index: nat) -> Seq<char> {
    match l {
        LayoutDescriptor::Coo { .. } => if index == 0 {
            "values"@
        } else if index == 1 {
            "indices"@
        } else {
            "data"@
        },
        LayoutDescriptor::Csr { .. } => if index == 0 {
            "values"@
        } else if index == 1 {
            "col_indices"@
        } else if index == 2 {
            "row_ptr"@
        } else {
            "data"@
        },
        LayoutDescriptor::Csc { .. } => if index == 0 {
            "values"@
        } else if index == 1 {
            "row_indices"@
        } else if index == 2 {
            "col_ptr"@
        } else {
            "data"@
        },
        LayoutDescriptor::Csf { .. } => if index == 0 {
            "values"@
        } else if index % 2 == 1 {
            "pos"@
        } else {
            "crd"@
        },
        LayoutDescriptor::BlockPaged { .. } => if index == 0 {
            "page_pool"@
        } else if index == 1 {
            "block_table"@
        } else if index == 2 {
            "seq_ptr"@
        } else {
            "data"@
        },
        _ => "data"@,
    }
}

/// The spec's name for the buffer at `index` under a layout.
pub fn buffer_role(l: &LayoutDescriptor, index: usize) -> (r: &'static str)
    ensures
        r@ == spec_buffer_role(*l, index as nat),
{
    match l {
        LayoutDescriptor::Coo { .. } => if index == 0 {
            "values"
        } else if index == 1 {
            "indices"
        } else {
            "data"
        },
        LayoutDescriptor::Csr { .. } => if index == 0 {
            "values"
        } else if index == 1 {
            "col_indices"
        } else if index == 2 {
            "row_ptr"
        } else {
            "data"
        },
        LayoutDescriptor::Csc { .. } => if index == 0 {
            "values"
        } else if index == 1 {
            "row_indices"
        } else if index == 2 {
            "col_ptr"
        } else {
            "data"
        },
        LayoutDescriptor::Csf { .. } => if index == 0 {
            "values"
        } else if index % 2 == 1 {
            "pos"
        } else {
            "crd"
        },
        LayoutDescriptor::BlockPaged { .. } => if index == 0 {
            "page_pool"
        } else if index == 1 {
            "block_table"
        } else if index == 2 {
            "seq_ptr"
        } else {
            "data"
        },
        _ => "data",
    }
}

/// The first quantization index inside the layout's own buffers, if any.
pub open spec fn spec_validate_quantization_indices(
    l: LayoutDescriptor,
    q: QuantizationDescriptor,
) -> Result<(), QuantizationIndexError> {
    match spec_required_buffers(l) {
        None => Ok(()),
        Some(owned) => {
            let idx = spec_quantization_indices(q);
            if idx.len() > 0 && idx[0] < owned {
                Err(QuantizationIndexError { index: idx[0], owned: owned as u32 })
            } else if idx.len() > 1 && idx[1] < owned {
                Err(QuantizationIndexError { index: idx[1], owned: owned as u32 })
            } else {
                Ok(())
            }
        },
    }
}

/// Reject a quantization parameter buffer that designates one of the layout's own
/// buffers (a CSR layout owns indices 0 to 2, so a scale index of 2 would read the
/// row pointers as scales).
pub fn validate_quantization_indices(l: &LayoutDescriptor, q: &QuantizationDescriptor) -> (r:
    Result<(), QuantizationIndexError>)
    ensures
        r == spec_validate_quantization_indices(*l, *q),
{
    let owned = match required_buffers(l) {
        Some(n) => n as u32,
        None => return Ok(()),
    };
    let idx = quantization_buffer_indices(q);
    let mut i: usize = 0;
    while i < idx.len()
        invariant
            i <= idx.len(),
            idx@ == spec_quantization_indices(*q),
            idx@.len() <= 2,
            spec_required_buffers(*l) == Some(owned as nat),
            forall|j: int| 0 <= j < i ==> idx@[j] >= owned,
        decreases idx.len() - i,
    {
        if idx[i] < owned {
            return Err(QuantizationIndexError { index: idx[i], owned });
        }
        i = i + 1;
    }
    Ok(())
}

// ── Laws ─────────────────────────────────────────────────────────────────────

/// The first short buffer found from `i` on is short, and every buffer between `i`
/// and it is not.
proof fn lemma_first_short_from(mins: Seq<Option<u64>>, lens: Seq<usize>, i: nat)
    ensures
        match first_short_from(mins, lens, i) {
            Some(k) => i <= k && short_at(mins, lens, k as int) && forall|j: int|
                i <= j < k ==> !short_at(mins, lens, j),
            None => forall|j: int| i <= j ==> !short_at(mins, lens, j),
        },
    decreases mins.len() - i,
{
    if i < mins.len() && !short_at(mins, lens, i as int) {
        lemma_first_short_from(mins, lens, i + 1);
    }
}

/// A layout is never accepted with an under-sized buffer: every supplied buffer that
/// has a derivable minimum is at least that large.
pub proof fn lemma_accepted_buffers_meet_minimums(
    l: LayoutDescriptor,
    dims: Seq<u64>,
    et: ElementType,
    lens: Seq<usize>,
    i: int,
)
    requires
        spec_validate_layout(l, dims, et, lens) is Ok,
        0 <= i < lens.len(),
        i < spec_buffer_minimums(l, dims, et).len(),
        spec_buffer_minimums(l, dims, et)[i] is Some,
    ensures
        lens[i] as nat >= spec_buffer_minimums(l, dims, et)[i].unwrap(),
{
    lemma_first_short_from(spec_buffer_minimums(l, dims, et), lens, 0);
    assert(!short_at(spec_buffer_minimums(l, dims, et), lens, i));
}

/// Over-sized buffers are accepted: enlarging any accepted buffer keeps the layout
/// accepted.
pub proof fn lemma_larger_buffers_still_accepted(
    l: LayoutDescriptor,
    dims: Seq<u64>,
    et: ElementType,
    lens: Seq<usize>,
    bigger: Seq<usize>,
)
    requires
        spec_validate_layout(l, dims, et, lens) is Ok,
        bigger.len() == lens.len(),
        forall|i: int| 0 <= i < lens.len() ==> bigger[i] >= lens[i],
    ensures
        spec_validate_layout(l, dims, et, bigger) is Ok,
{
    let mins = spec_buffer_minimums(l, dims, et);
    lemma_first_short_from(mins, lens, 0);
    lemma_first_short_from(mins, bigger, 0);
    if first_short_from(mins, bigger, 0) is Some {
        let k = first_short_from(mins, bigger, 0).unwrap();
        assert(short_at(mins, lens, k as int));
    }
}

/// The size tier covers exactly the buffers the layout requires: where the format
/// states a count, there is one minimum per required buffer.
pub proof fn lemma_minimums_match_required_count(
    l: LayoutDescriptor,
    dims: Seq<u64>,
    et: ElementType,
)
    requires
        spec_required_buffers(l) is Some,
    ensures
        spec_buffer_minimums(l, dims, et).len() == spec_required_buffers(l).unwrap(),
{
}

/// A strided layout places no sign or size rule on its strides: with one stride per
/// dimension, any strides, negative and zero ones included, satisfy the shape rules.
pub proof fn lemma_any_strides_accepted(strides: Vec<i64>, dims: Seq<u64>)
    requires
        strides@.len() == dims.len(),
    ensures
        spec_validate_against_shape(LayoutDescriptor::Strided { strides }, dims) == Ok::<
            (),
            ShapeError,
        >(()),
{
}

/// A coordinate `i` fits in `bits` bits of a Morton index.
pub open spec fn coordinate_fits(i: int, bits: u32) -> bool {
    0 <= i < two_pow(bits as nat)
}

/// A Morton layout with one bit count per dimension accepts a shape exactly when every
/// coordinate along every dimension fits in that dimension's bit count, so an extent of
/// exactly `2 ** morton_bits[k]` is accepted and one more is refused as an extent error.
pub proof fn lemma_morton_accepts_fitting_coordinates(morton_bits: Vec<u32>, dims: Seq<u64>)
    requires
        morton_bits@.len() == dims.len(),
    ensures
        spec_validate_against_shape(LayoutDescriptor::Morton { morton_bits }, dims) is Ok
            <==> forall|k: int, i: int|
            0 <= k < dims.len() && 0 <= i < dims[k] ==> #[trigger] coordinate_fits(
                i,
                morton_bits@[k],
            ),
        spec_validate_against_shape(LayoutDescriptor::Morton { morton_bits }, dims) is Err
            ==> spec_validate_against_shape(LayoutDescriptor::Morton { morton_bits }, dims)
            == Err::<(), ShapeError>(ShapeError::MortonExtent),
{
    let l = LayoutDescriptor::Morton { morton_bits };
    if spec_validate_against_shape(l, dims) is Ok {
        assert forall|k: int, i: int|
            0 <= k < dims.len() && 0 <= i < dims[k] implies #[trigger] coordinate_fits(
            i,
            morton_bits@[k],
        ) by {
            assert(!(dims[k] > two_pow(morton_bits@[k] as nat)));
        }
    } else {
        let k = choose|k: int|
            0 <= k < dims.len() && #[trigger] dims[k] > two_pow(morton_bits@[k] as nat);
        let i = two_pow(morton_bits@[k] as nat) as int;
        assert(0 <= i < dims[k]);
        assert(!coordinate_fits(i, morton_bits@[k]));
    }
}

} // verus!
