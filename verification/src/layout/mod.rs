//! The layout descriptor hierarchy: a tag plus each layout's own parameters.
//!
//! A layout is a declaration about buffers supplied alongside it; it owns none. Layouts
//! compare by value. Private (`0xF0`–`0xFE`) and unrecognised tags both report the name
//! `"extension"` but stay distinct variants, because a permissive relay needs to know
//! which one it holds.

pub mod classes;
pub mod repr;
pub mod validate;

use vstd::prelude::*;
use crate::errors::ErrorClass;
use crate::text::str_eq;

verus! {

pub const TAG_ROW_MAJOR: u8 = 0x01;
pub const TAG_COL_MAJOR: u8 = 0x02;
pub const TAG_STRIDED: u8 = 0x03;
pub const TAG_TILED: u8 = 0x04;
pub const TAG_MORTON: u8 = 0x05;
pub const TAG_COO: u8 = 0x06;
pub const TAG_CSR: u8 = 0x07;
pub const TAG_CSC: u8 = 0x08;
pub const TAG_CSF: u8 = 0x09;
pub const TAG_BLOCK_PAGED: u8 = 0x0A;
pub const TAG_COMPOSITE: u8 = 0x0B;
pub const TAG_HILBERT: u8 = 0x40;

/// Tags in `0xF0`–`0xFE` are reserved for implementation-private layouts.
pub open spec fn spec_is_private_tag(tag: u8) -> bool {
    0xF0 <= tag <= 0xFE
}

/// Is `tag` in the private range?
pub fn is_private_tag(tag: u8) -> (r: bool)
    ensures
        r == spec_is_private_tag(tag),
{
    0xF0 <= tag && tag <= 0xFE
}

/// A tiled layout: tiles of `tile_shape`, ordered by `outer_layout`, with elements
/// inside a tile ordered by `inner_layout` (both tag bytes). A tiled inner layout
/// nests another tiled layout.
#[derive(Debug)]
pub struct TiledLayout {
    pub tile_shape: Vec<u64>,
    pub outer_layout: u8,
    pub inner_layout: u8,
    pub outer_strides: Option<Vec<i64>>,
    pub inner_strides: Option<Vec<i64>>,
    pub inner_tiled: Option<Box<TiledLayout>>,
}

/// The KV-cache role of a block-paged tensor.
#[derive(Clone, Copy, Debug, PartialEq, Eq, Structural)]
pub enum KvRole {
    Key,
    Value,
    Fused,
}

/// The integer type of a block table.
#[derive(Clone, Copy, Debug, PartialEq, Eq, Structural)]
pub enum BlockTableIndexType {
    U32,
    U64,
}

/// A block-paged (PagedAttention KV cache) layout.
#[derive(Clone, Copy, Debug, PartialEq, Eq, Structural)]
pub struct BlockPagedLayout {
    pub page_size: u32,
    pub num_pages: u64,
    pub paged_axis: u32,
    pub num_seqs: u32,
    pub kv_role: KvRole,
    pub layer_index: Option<u32>,
    pub block_table_index_type: BlockTableIndexType,
}

/// How an overlay composite combines its members.
#[derive(Clone, Copy, Debug, PartialEq, Eq, Structural)]
pub enum CombineOp {
    Replace,
    Add,
}

/// How a composite's members make up its logical view.
#[derive(Clone, Copy, Debug, PartialEq, Eq, Structural)]
pub enum CompositionRule {
    Partition,
    Overlay(CombineOp),
    Group,
}

/// A layout descriptor.
#[derive(Debug)]
pub enum LayoutDescriptor {
    RowMajor,
    ColMajor,
    Strided { strides: Vec<i64> },
    Tiled { tiled: Box<TiledLayout> },
    Morton { morton_bits: Vec<u32> },
    Hilbert { hilbert_order: u32, hilbert_rank: u32 },
    Coo { nnz: u64, is_sorted: bool },
    Csr { nnz: u64 },
    Csc { nnz: u64 },
    Csf { nnz: u64, mode_order: Vec<u32> },
    BlockPaged { paged: BlockPagedLayout },
    Composite { rule: CompositionRule, member_count: u32 },
    PrivateExtension { tag: u8, extension_layout_id: u64, extension_data: Vec<u8> },
    Unknown { tag: u8, raw_bytes: Vec<u8> },
}

/// Why a layout could not be built.
#[derive(Clone, Copy, Debug, PartialEq, Eq, Structural)]
pub enum LayoutError {
    /// A tile ordering name other than row_major, col_major, strided or tiled.
    InvalidTileOrdering,
    /// A tile shape that is empty or has a zero extent.
    EmptyTileShape,
    /// An outer ordering of `tiled`: only the inner ordering may nest.
    TiledOuterLayout,
    /// Strides supplied for an ordering that is not strided, or missing for one that is.
    StridesMismatch,
    /// A nested tiled layout supplied without `tiled` inner ordering, or missing with it.
    InnerTiledMismatch,
    /// A `kv_role` other than key, value or fused.
    InvalidKvRole,
    /// A block-table index type other than uint32 or uint64.
    InvalidIndexType,
    /// A composition rule other than partition, overlay or group.
    InvalidCompositionRule,
    /// A `combine_op` other than replace or add.
    InvalidCombineOp,
    /// An overlay composition without a `combine_op`.
    MissingCombineOp,
    /// A `combine_op` given for a partition or group composition.
    CombineOpNotApplicable,
    /// A private layout tag outside `0xF0`–`0xFE`.
    TagNotPrivate,
    /// An "unknown" layout built with a tag this build recognises.
    TagIsKnown(u8),
    /// The permanently invalid tags `0x00` and `0xFF`.
    InvalidTag,
}

impl LayoutError {
    /// The Python exception this error raises.
    pub fn class(&self) -> (r: ErrorClass)
        ensures
            r == spec_layout_error_class(*self),
    {
        match self {
            LayoutError::InvalidTileOrdering | LayoutError::InvalidKvRole
            | LayoutError::InvalidIndexType | LayoutError::InvalidCompositionRule
            | LayoutError::InvalidCombineOp | LayoutError::MissingCombineOp
            | LayoutError::CombineOpNotApplicable | LayoutError::TagIsKnown(_) => ErrorClass::Value,
            _ => ErrorClass::InvalidDescriptor,
        }
    }
}

/// Argument errors are plain `ValueError`s; rules of the format raise
/// `InvalidDescriptorError`.
pub open spec fn spec_layout_error_class(e: LayoutError) -> ErrorClass {
    match e {
        LayoutError::InvalidTileOrdering | LayoutError::InvalidKvRole
        | LayoutError::InvalidIndexType | LayoutError::InvalidCompositionRule
        | LayoutError::InvalidCombineOp | LayoutError::MissingCombineOp
        | LayoutError::CombineOpNotApplicable | LayoutError::TagIsKnown(_) => ErrorClass::Value,
        _ => ErrorClass::InvalidDescriptor,
    }
}

// ── Tags, names, counts ──────────────────────────────────────────────────────

/// The tag byte of a layout.
pub open spec fn spec_tag(l: LayoutDescriptor) -> u8 {
    match l {
        LayoutDescriptor::RowMajor => TAG_ROW_MAJOR,
        LayoutDescriptor::ColMajor => TAG_COL_MAJOR,
        LayoutDescriptor::Strided { .. } => TAG_STRIDED,
        LayoutDescriptor::Tiled { .. } => TAG_TILED,
        LayoutDescriptor::Morton { .. } => TAG_MORTON,
        LayoutDescriptor::Hilbert { .. } => TAG_HILBERT,
        LayoutDescriptor::Coo { .. } => TAG_COO,
        LayoutDescriptor::Csr { .. } => TAG_CSR,
        LayoutDescriptor::Csc { .. } => TAG_CSC,
        LayoutDescriptor::Csf { .. } => TAG_CSF,
        LayoutDescriptor::BlockPaged { .. } => TAG_BLOCK_PAGED,
        LayoutDescriptor::Composite { .. } => TAG_COMPOSITE,
        LayoutDescriptor::PrivateExtension { tag, .. } => tag,
        LayoutDescriptor::Unknown { tag, .. } => tag,
    }
}

/// The Python-visible name of a layout, decided by the variant, never by the tag.
pub open spec fn spec_layout_name(l: LayoutDescriptor) -> Seq<char> {
    match l {
        LayoutDescriptor::RowMajor => "row_major"@,
        LayoutDescriptor::ColMajor => "col_major"@,
        LayoutDescriptor::Strided { .. } => "strided"@,
        LayoutDescriptor::Tiled { .. } => "tiled"@,
        LayoutDescriptor::Morton { .. } => "morton"@,
        LayoutDescriptor::Hilbert { .. } => "hilbert"@,
        LayoutDescriptor::Coo { .. } => "coo"@,
        LayoutDescriptor::Csr { .. } => "csr"@,
        LayoutDescriptor::Csc { .. } => "csc"@,
        LayoutDescriptor::Csf { .. } => "csf"@,
        LayoutDescriptor::BlockPaged { .. } => "block_paged"@,
        LayoutDescriptor::Composite { .. } => "composite"@,
        LayoutDescriptor::PrivateExtension { .. } => "extension"@,
        LayoutDescriptor::Unknown { .. } => "extension"@,
    }
}

/// Dense layouts hold every element in one directly addressable buffer.
pub open spec fn spec_is_dense(l: LayoutDescriptor) -> bool {
    match l {
        LayoutDescriptor::RowMajor | LayoutDescriptor::ColMajor | LayoutDescriptor::Strided { .. }
        | LayoutDescriptor::Tiled { .. } | LayoutDescriptor::Morton { .. }
        | LayoutDescriptor::Hilbert { .. } => true,
        _ => false,
    }
}

/// Only a composite head owns no buffer of its own.
pub open spec fn spec_is_virtual(l: LayoutDescriptor) -> bool {
    l is Composite
}

/// The number of buffers the format requires of a layout, when that is statically
/// known and non-zero: dense layouts 1, COO 2, CSR and CSC 3, CSF one values buffer
/// plus a `pos` and a `crd` per level, block-paged 3. A composite head (which owns no
/// buffers) and private or unknown layouts have none to report.
pub open spec fn spec_required_buffers(l: LayoutDescriptor) -> Option<nat> {
    match l {
        LayoutDescriptor::RowMajor | LayoutDescriptor::ColMajor | LayoutDescriptor::Strided { .. }
        | LayoutDescriptor::Tiled { .. } | LayoutDescriptor::Morton { .. }
        | LayoutDescriptor::Hilbert { .. } => Some(1),
        LayoutDescriptor::Coo { .. } => Some(2),
        LayoutDescriptor::Csr { .. } | LayoutDescriptor::Csc { .. } => Some(3),
        LayoutDescriptor::Csf { mode_order, .. } => if 2 * mode_order@.len() + 1 <= u8::MAX {
            Some(2 * mode_order@.len() + 1)
        } else {
            None
        },
        LayoutDescriptor::BlockPaged { .. } => Some(3),
        _ => None,
    }
}

/// The buffer count Python reports: a composite head's known zero, otherwise the
/// required count (`None` where it is not statically knowable).
pub open spec fn spec_buffer_count(l: LayoutDescriptor) -> Option<nat> {
    if spec_is_virtual(l) {
        Some(0)
    } else {
        spec_required_buffers(l)
    }
}

/// The tag byte of a layout.
pub fn layout_tag(l: &LayoutDescriptor) -> (r: u8)
    ensures
        r == spec_tag(*l),
{
    match l {
        LayoutDescriptor::RowMajor => TAG_ROW_MAJOR,
        LayoutDescriptor::ColMajor => TAG_COL_MAJOR,
        LayoutDescriptor::Strided { .. } => TAG_STRIDED,
        LayoutDescriptor::Tiled { .. } => TAG_TILED,
        LayoutDescriptor::Morton { .. } => TAG_MORTON,
        LayoutDescriptor::Hilbert { .. } => TAG_HILBERT,
        LayoutDescriptor::Coo { .. } => TAG_COO,
        LayoutDescriptor::Csr { .. } => TAG_CSR,
        LayoutDescriptor::Csc { .. } => TAG_CSC,
        LayoutDescriptor::Csf { .. } => TAG_CSF,
        LayoutDescriptor::BlockPaged { .. } => TAG_BLOCK_PAGED,
        LayoutDescriptor::Composite { .. } => TAG_COMPOSITE,
        LayoutDescriptor::PrivateExtension { tag, .. } => *tag,
        LayoutDescriptor::Unknown { tag, .. } => *tag,
    }
}

/// The Python-visible name of a layout.
pub fn layout_name(l: &LayoutDescriptor) -> (r: &'static str)
    ensures
        r@ == spec_layout_name(*l),
{
    match l {
        LayoutDescriptor::RowMajor => "row_major",
        LayoutDescriptor::ColMajor => "col_major",
        LayoutDescriptor::Strided { .. } => "strided",
        LayoutDescriptor::Tiled { .. } => "tiled",
        LayoutDescriptor::Morton { .. } => "morton",
        LayoutDescriptor::Hilbert { .. } => "hilbert",
        LayoutDescriptor::Coo { .. } => "coo",
        LayoutDescriptor::Csr { .. } => "csr",
        LayoutDescriptor::Csc { .. } => "csc",
        LayoutDescriptor::Csf { .. } => "csf",
        LayoutDescriptor::BlockPaged { .. } => "block_paged",
        LayoutDescriptor::Composite { .. } => "composite",
        LayoutDescriptor::PrivateExtension { .. } => "extension",
        LayoutDescriptor::Unknown { .. } => "extension",
    }
}

/// The name of a dense ordering given by tag byte, as the tiled layout stores its
/// outer and inner orderings; other tags read as `"extension"`.
pub open spec fn spec_tag_name(tag: u8) -> Seq<char> {
    if tag == TAG_ROW_MAJOR { "row_major"@ }
    else if tag == TAG_COL_MAJOR { "col_major"@ }
    else if tag == TAG_STRIDED { "strided"@ }
    else if tag == TAG_TILED { "tiled"@ }
    else if tag == TAG_MORTON { "morton"@ }
    else if tag == TAG_HILBERT { "hilbert"@ }
    else { "extension"@ }
}

/// The name of a dense ordering given by tag byte.
pub fn tag_name(tag: u8) -> (r: &'static str)
    ensures
        r@ == spec_tag_name(tag),
{
    if tag == TAG_ROW_MAJOR { "row_major" }
    else if tag == TAG_COL_MAJOR { "col_major" }
    else if tag == TAG_STRIDED { "strided" }
    else if tag == TAG_TILED { "tiled" }
    else if tag == TAG_MORTON { "morton" }
    else if tag == TAG_HILBERT { "hilbert" }
    else { "extension" }
}

/// Dense?
pub fn is_dense(l: &LayoutDescriptor) -> (r: bool)
    ensures
        r == spec_is_dense(*l),
{
    match l {
        LayoutDescriptor::RowMajor | LayoutDescriptor::ColMajor | LayoutDescriptor::Strided { .. }
        | LayoutDescriptor::Tiled { .. } | LayoutDescriptor::Morton { .. }
        | LayoutDescriptor::Hilbert { .. } => true,
        _ => false,
    }
}

/// Virtual (a composite head)?
pub fn is_virtual(l: &LayoutDescriptor) -> (r: bool)
    ensures
        r == spec_is_virtual(*l),
{
    match l {
        LayoutDescriptor::Composite { .. } => true,
        _ => false,
    }
}

/// The required buffer count, as the format states it for validation.
pub fn required_buffers(l: &LayoutDescriptor) -> (r: Option<u8>)
    ensures
        match r {
            Some(n) => spec_required_buffers(*l) == Some(n as nat) && n >= 1,
            None => spec_required_buffers(*l) is None,
        },
{
    match l {
        LayoutDescriptor::RowMajor | LayoutDescriptor::ColMajor | LayoutDescriptor::Strided { .. }
        | LayoutDescriptor::Tiled { .. } | LayoutDescriptor::Morton { .. }
        | LayoutDescriptor::Hilbert { .. } => Some(1),
        LayoutDescriptor::Coo { .. } => Some(2),
        LayoutDescriptor::Csr { .. } | LayoutDescriptor::Csc { .. } => Some(3),
        LayoutDescriptor::Csf { mode_order, .. } => {
            if mode_order.len() <= 127 {
                Some((2 * mode_order.len() + 1) as u8)
            } else {
                None
            }
        },
        LayoutDescriptor::BlockPaged { .. } => Some(3),
        _ => None,
    }
}

/// The buffer count Python reports (`Layout.buffer_count`).
pub fn buffer_count(l: &LayoutDescriptor) -> (r: Option<u8>)
    ensures
        match r {
            Some(n) => spec_buffer_count(*l) == Some(n as nat),
            None => spec_buffer_count(*l) is None,
        },
{
    if is_virtual(l) {
        return Some(0);
    }
    required_buffers(l)
}

/// A known tag's layout name; private tags read as `"private extension"`.
pub open spec fn spec_known_tag_name(tag: u8) -> Option<Seq<char>> {
    if tag == TAG_ROW_MAJOR { Some("row_major"@) }
    else if tag == TAG_COL_MAJOR { Some("col_major"@) }
    else if tag == TAG_STRIDED { Some("strided"@) }
    else if tag == TAG_TILED { Some("tiled"@) }
    else if tag == TAG_MORTON { Some("morton"@) }
    else if tag == TAG_COO { Some("coo"@) }
    else if tag == TAG_CSR { Some("csr"@) }
    else if tag == TAG_CSC { Some("csc"@) }
    else if tag == TAG_CSF { Some("csf"@) }
    else if tag == TAG_BLOCK_PAGED { Some("block_paged"@) }
    else if tag == TAG_COMPOSITE { Some("composite"@) }
    else if tag == TAG_HILBERT { Some("hilbert"@) }
    else if spec_is_private_tag(tag) { Some("private extension"@) }
    else { None }
}

/// The layout a recognised tag belongs to, for refusing it as "unknown".
pub fn known_tag_name(tag: u8) -> (r: Option<&'static str>)
    ensures
        match r {
            Some(n) => spec_known_tag_name(tag) == Some(n@),
            None => spec_known_tag_name(tag) is None,
        },
{
    if tag == TAG_ROW_MAJOR { Some("row_major") }
    else if tag == TAG_COL_MAJOR { Some("col_major") }
    else if tag == TAG_STRIDED { Some("strided") }
    else if tag == TAG_TILED { Some("tiled") }
    else if tag == TAG_MORTON { Some("morton") }
    else if tag == TAG_COO { Some("coo") }
    else if tag == TAG_CSR { Some("csr") }
    else if tag == TAG_CSC { Some("csc") }
    else if tag == TAG_CSF { Some("csf") }
    else if tag == TAG_BLOCK_PAGED { Some("block_paged") }
    else if tag == TAG_COMPOSITE { Some("composite") }
    else if tag == TAG_HILBERT { Some("hilbert") }
    else if is_private_tag(tag) { Some("private extension") }
    else { None }
}

/// The Python class to use instead, for a recognised tag.
pub open spec fn spec_known_tag_class(tag: u8) -> Seq<char> {
    if tag == TAG_ROW_MAJOR { "RowMajorLayout"@ }
    else if tag == TAG_COL_MAJOR { "ColMajorLayout"@ }
    else if tag == TAG_STRIDED { "StridedLayout"@ }
    else if tag == TAG_TILED { "TiledLayout"@ }
    else if tag == TAG_MORTON { "MortonLayout"@ }
    else if tag == TAG_COO { "CooLayout"@ }
    else if tag == TAG_CSR { "CsrLayout"@ }
    else if tag == TAG_CSC { "CscLayout"@ }
    else if tag == TAG_CSF { "CsfLayout"@ }
    else if tag == TAG_BLOCK_PAGED { "BlockPagedLayout"@ }
    else if tag == TAG_COMPOSITE { "CompositeLayout"@ }
    else if tag == TAG_HILBERT { "HilbertLayout"@ }
    else { "PrivateExtensionLayout"@ }
}

/// The Python class a recognised tag belongs to.
pub fn known_tag_class(tag: u8) -> (r: &'static str)
    ensures
        r@ == spec_known_tag_class(tag),
{
    if tag == TAG_ROW_MAJOR { "RowMajorLayout" }
    else if tag == TAG_COL_MAJOR { "ColMajorLayout" }
    else if tag == TAG_STRIDED { "StridedLayout" }
    else if tag == TAG_TILED { "TiledLayout" }
    else if tag == TAG_MORTON { "MortonLayout" }
    else if tag == TAG_COO { "CooLayout" }
    else if tag == TAG_CSR { "CsrLayout" }
    else if tag == TAG_CSC { "CscLayout" }
    else if tag == TAG_CSF { "CsfLayout" }
    else if tag == TAG_BLOCK_PAGED { "BlockPagedLayout" }
    else if tag == TAG_COMPOSITE { "CompositeLayout" }
    else if tag == TAG_HILBERT { "HilbertLayout" }
    else { "PrivateExtensionLayout" }
}

// ── Names of the block-paged and composite parameters ────────────────────────

/// The tile ordering tag a name denotes.
pub open spec fn spec_tile_tag(name: Seq<char>) -> Option<u8> {
    if name == "row_major"@ { Some(TAG_ROW_MAJOR) }
    else if name == "col_major"@ { Some(TAG_COL_MAJOR) }
    else if name == "strided"@ { Some(TAG_STRIDED) }
    else if name == "tiled"@ { Some(TAG_TILED) }
    else { None }
}

/// Parse a tile ordering name.
pub fn tag_for_tile_name(name: &str) -> (r: Result<u8, LayoutError>)
    ensures
        match spec_tile_tag(name@) {
            Some(t) => r == Ok::<u8, LayoutError>(t),
            None => r == Err::<u8, LayoutError>(LayoutError::InvalidTileOrdering),
        },
{
    if str_eq(name, "row_major") { Ok(TAG_ROW_MAJOR) }
    else if str_eq(name, "col_major") { Ok(TAG_COL_MAJOR) }
    else if str_eq(name, "strided") { Ok(TAG_STRIDED) }
    else if str_eq(name, "tiled") { Ok(TAG_TILED) }
    else { Err(LayoutError::InvalidTileOrdering) }
}

pub open spec fn spec_kv_role_name(r: KvRole) -> Seq<char> {
    match r {
        KvRole::Key => "key"@,
        KvRole::Value => "value"@,
        KvRole::Fused => "fused"@,
    }
}

pub open spec fn spec_kv_role_of(name: Seq<char>) -> Option<KvRole> {
    if name == "key"@ { Some(KvRole::Key) }
    else if name == "value"@ { Some(KvRole::Value) }
    else if name == "fused"@ { Some(KvRole::Fused) }
    else { None }
}

/// The name of a KV role.
pub fn kv_role_name(r: KvRole) -> (s: &'static str)
    ensures
        s@ == spec_kv_role_name(r),
{
    match r {
        KvRole::Key => "key",
        KvRole::Value => "value",
        KvRole::Fused => "fused",
    }
}

/// Parse a KV role name.
pub fn kv_role_from_name(name: &str) -> (r: Result<KvRole, LayoutError>)
    ensures
        match spec_kv_role_of(name@) {
            Some(k) => r == Ok::<KvRole, LayoutError>(k),
            None => r == Err::<KvRole, LayoutError>(LayoutError::InvalidKvRole),
        },
{
    if str_eq(name, "key") { Ok(KvRole::Key) }
    else if str_eq(name, "value") { Ok(KvRole::Value) }
    else if str_eq(name, "fused") { Ok(KvRole::Fused) }
    else { Err(LayoutError::InvalidKvRole) }
}

pub open spec fn spec_index_type_name(t: BlockTableIndexType) -> Seq<char> {
    match t {
        BlockTableIndexType::U32 => "uint32"@,
        BlockTableIndexType::U64 => "uint64"@,
    }
}

pub open spec fn spec_index_type_of(name: Seq<char>) -> Option<BlockTableIndexType> {
    if name == "uint32"@ { Some(BlockTableIndexType::U32) }
    else if name == "uint64"@ { Some(BlockTableIndexType::U64) }
    else { None }
}

/// Bytes per block-table entry.
pub open spec fn spec_index_bytes(t: BlockTableIndexType) -> nat {
    match t {
        BlockTableIndexType::U32 => 4,
        BlockTableIndexType::U64 => 8,
    }
}

/// The name of a block-table index type.
pub fn index_type_name(t: BlockTableIndexType) -> (s: &'static str)
    ensures
        s@ == spec_index_type_name(t),
{
    match t {
        BlockTableIndexType::U32 => "uint32",
        BlockTableIndexType::U64 => "uint64",
    }
}

/// Parse a block-table index type name.
pub fn index_type_from_name(name: &str) -> (r: Result<BlockTableIndexType, LayoutError>)
    ensures
        match spec_index_type_of(name@) {
            Some(k) => r == Ok::<BlockTableIndexType, LayoutError>(k),
            None => r == Err::<BlockTableIndexType, LayoutError>(LayoutError::InvalidIndexType),
        },
{
    if str_eq(name, "uint32") { Ok(BlockTableIndexType::U32) }
    else if str_eq(name, "uint64") { Ok(BlockTableIndexType::U64) }
    else { Err(LayoutError::InvalidIndexType) }
}

/// Bytes per block-table entry.
pub fn index_type_bytes(t: BlockTableIndexType) -> (r: u64)
    ensures
        r == spec_index_bytes(t),
{
    match t {
        BlockTableIndexType::U32 => 4,
        BlockTableIndexType::U64 => 8,
    }
}

pub open spec fn spec_rule_name(r: CompositionRule) -> Seq<char> {
    match r {
        CompositionRule::Partition => "partition"@,
        CompositionRule::Overlay(_) => "overlay"@,
        CompositionRule::Group => "group"@,
    }
}

pub open spec fn spec_combine_name(op: CombineOp) -> Seq<char> {
    match op {
        CombineOp::Replace => "replace"@,
        CombineOp::Add => "add"@,
    }
}

/// The composition rule named by `rule` (with `combine_op` for an overlay), or why not.
pub open spec fn spec_parse_rule(rule: Seq<char>, combine: Option<Seq<char>>) -> Result<
    CompositionRule,
    LayoutError,
> {
    if rule == "overlay"@ {
        match combine {
            Some(op) => if op == "replace"@ {
                Ok(CompositionRule::Overlay(CombineOp::Replace))
            } else if op == "add"@ {
                Ok(CompositionRule::Overlay(CombineOp::Add))
            } else {
                Err(LayoutError::InvalidCombineOp)
            },
            None => Err(LayoutError::MissingCombineOp),
        }
    } else if rule == "partition"@ || rule == "group"@ {
        if combine is Some {
            Err(LayoutError::CombineOpNotApplicable)
        } else if rule == "partition"@ {
            Ok(CompositionRule::Partition)
        } else {
            Ok(CompositionRule::Group)
        }
    } else {
        Err(LayoutError::InvalidCompositionRule)
    }
}

/// The name of a composition rule.
pub fn rule_name(r: &CompositionRule) -> (s: &'static str)
    ensures
        s@ == spec_rule_name(*r),
{
    match r {
        CompositionRule::Partition => "partition",
        CompositionRule::Overlay(_) => "overlay",
        CompositionRule::Group => "group",
    }
}

/// The name of an overlay combine operation.
pub fn combine_name(op: CombineOp) -> (s: &'static str)
    ensures
        s@ == spec_combine_name(op),
{
    match op {
        CombineOp::Replace => "replace",
        CombineOp::Add => "add",
    }
}

/// Parse a composition rule and its combine operation.
pub fn parse_composition_rule(rule: &str, combine: Option<&str>) -> (r: Result<
    CompositionRule,
    LayoutError,
>)
    ensures
        r == spec_parse_rule(
            rule@,
            match combine {
                Some(c) => Some(c@),
                None => None,
            },
        ),
{
    if str_eq(rule, "overlay") {
        match combine {
            Some(op) => {
                if str_eq(op, "replace") {
                    Ok(CompositionRule::Overlay(CombineOp::Replace))
                } else if str_eq(op, "add") {
                    Ok(CompositionRule::Overlay(CombineOp::Add))
                } else {
                    Err(LayoutError::InvalidCombineOp)
                }
            },
            None => Err(LayoutError::MissingCombineOp),
        }
    } else if str_eq(rule, "partition") || str_eq(rule, "group") {
        if combine.is_some() {
            Err(LayoutError::CombineOpNotApplicable)
        } else if str_eq(rule, "partition") {
            Ok(CompositionRule::Partition)
        } else {
            Ok(CompositionRule::Group)
        }
    } else {
        Err(LayoutError::InvalidCompositionRule)
    }
}

} // verus!
