//! The per-layout classes: constructors and the getters that read a layout's own
//! parameters back. A getter asked of a layout of another kind reports
//! `VariantMismatch`, the façade-over-the-wrong-variant case.

use vstd::prelude::*;
use crate::layout::{
    BlockPagedLayout as PagedParams, BlockTableIndexType, CombineOp, CompositionRule, KvRole,
    LayoutDescriptor, LayoutError, TiledLayout as TiledParams, TAG_STRIDED, TAG_TILED,
    combine_name, index_type_from_name, index_type_name, is_private_tag, known_tag_name,
    kv_role_from_name, kv_role_name, parse_composition_rule, rule_name, spec_combine_name,
    spec_index_type_name, spec_index_type_of, spec_is_private_tag, spec_known_tag_name,
    spec_kv_role_name, spec_kv_role_of, spec_parse_rule, spec_rule_name, spec_tag_name,
    spec_tile_tag, tag_for_tile_name, tag_name,
};

verus! {

/// A getter was asked of a layout of a different kind.
#[derive(Clone, Copy, Debug, PartialEq, Eq, Structural)]
pub struct VariantMismatch;

pub struct RowMajorLayout;

impl RowMajorLayout {
    /// The row-major (C-order) layout.
    pub fn new() -> (r: LayoutDescriptor)
        ensures
            r is RowMajor,
    {
        LayoutDescriptor::RowMajor
    }
}

pub struct ColMajorLayout;

impl ColMajorLayout {
    /// The column-major (Fortran-order) layout.
    pub fn new() -> (r: LayoutDescriptor)
        ensures
            r is ColMajor,
    {
        LayoutDescriptor::ColMajor
    }
}

pub struct StridedLayout;

impl StridedLayout {
    /// A strided layout; strides are in logical elements and may be negative or zero.
    pub fn new(strides: Vec<i64>) -> (r: LayoutDescriptor)
        ensures
            r matches LayoutDescriptor::Strided { strides: s } && s@ == strides@,
    {
        LayoutDescriptor::Strided { strides }
    }

    /// The strides, in logical elements.
    pub fn strides(l: &LayoutDescriptor) -> (r: Result<&Vec<i64>, VariantMismatch>)
        ensures
            match *l {
                LayoutDescriptor::Strided { strides } => r matches Ok(s) && s@ == strides@,
                _ => r == Err::<&Vec<i64>, VariantMismatch>(VariantMismatch),
            },
    {
        match l {
            LayoutDescriptor::Strided { strides } => Ok(strides),
            _ => Err(VariantMismatch),
        }
    }
}

/// What `TiledLayout(...)` builds, given the parsed orderings, or why it fails: a
/// ordering name is checked first (outer, then inner), then the tile shape, then that
/// the outer ordering is not itself tiled, then that strides come exactly with a
/// strided ordering (outer, then inner), then that a nested layout comes exactly with
/// a tiled inner ordering.
pub open spec fn spec_tiled_check(
    tile_shape: Seq<u64>,
    outer: Seq<char>,
    inner: Seq<char>,
    has_outer_strides: bool,
    has_inner_strides: bool,
    has_inner_tiled: bool,
) -> Result<(u8, u8), LayoutError> {
    match spec_tile_tag(outer) {
        None => Err(LayoutError::InvalidTileOrdering),
        Some(o) => match spec_tile_tag(inner) {
            None => Err(LayoutError::InvalidTileOrdering),
            Some(i) => if tile_shape.len() == 0 || exists|k: int|
                0 <= k < tile_shape.len() && tile_shape[k] == 0 {
                Err(LayoutError::EmptyTileShape)
            } else if o == TAG_TILED {
                Err(LayoutError::TiledOuterLayout)
            } else if has_outer_strides != (o == TAG_STRIDED) || has_inner_strides != (i
                == TAG_STRIDED) {
                Err(LayoutError::StridesMismatch)
            } else if has_inner_tiled != (i == TAG_TILED) {
                Err(LayoutError::InnerTiledMismatch)
            } else {
                Ok((o, i))
            },
        },
    }
}

pub struct TiledLayout;

impl TiledLayout {
    /// A tiled layout. Orderings are `"row_major"`, `"col_major"`, `"strided"` and, for
    /// the inner ordering only, `"tiled"`.
    pub fn new(
        tile_shape: Vec<u64>,
        outer_layout: &str,
        inner_layout: &str,
        outer_strides: Option<Vec<i64>>,
        inner_strides: Option<Vec<i64>>,
        inner_tiled: Option<TiledParams>,
    ) -> (r: Result<LayoutDescriptor, LayoutError>)
        ensures
            match spec_tiled_check(
                tile_shape@,
                outer_layout@,
                inner_layout@,
                outer_strides is Some,
                inner_strides is Some,
                inner_tiled is Some,
            ) {
                Err(e) => r == Err::<LayoutDescriptor, LayoutError>(e),
                Ok((o, i)) => r matches Ok(LayoutDescriptor::Tiled { tiled }) && tiled.tile_shape@
                    == tile_shape@ && tiled.outer_layout == o && tiled.inner_layout == i
                    && tiled.outer_strides == outer_strides && tiled.inner_strides
                    == inner_strides && tiled.inner_tiled == (match inner_tiled {
                    Some(t) => Some(Box::new(t)),
                    None => None,
                }),
            },
    {
        let o = match tag_for_tile_name(outer_layout) {
            Ok(t) => t,
            Err(e) => return Err(e),
        };
        let i = match tag_for_tile_name(inner_layout) {
            Ok(t) => t,
            Err(e) => return Err(e),
        };
        if tile_shape.len() == 0 {
            return Err(LayoutError::EmptyTileShape);
        }
        let mut k: usize = 0;
        while k < tile_shape.len()
            invariant
                k <= tile_shape.len(),
                tile_shape.len() > 0,
                spec_tile_tag(outer_layout@) == Some(o),
                spec_tile_tag(inner_layout@) == Some(i),
                forall|j: int| 0 <= j < k ==> tile_shape@[j] != 0,
            decreases tile_shape.len() - k,
        {
            if tile_shape[k] == 0 {
                assert(tile_shape@[k as int] == 0);
                return Err(LayoutError::EmptyTileShape);
            }
            k = k + 1;
        }
        if o == TAG_TILED {
            return Err(LayoutError::TiledOuterLayout);
        }
        if outer_strides.is_some() != (o == TAG_STRIDED) || inner_strides.is_some() != (i
            == TAG_STRIDED) {
            return Err(LayoutError::StridesMismatch);
        }
        if inner_tiled.is_some() != (i == TAG_TILED) {
            return Err(LayoutError::InnerTiledMismatch);
        }
        let nested = match inner_tiled {
            Some(t) => Some(Box::new(t)),
            None => None,
        };
        Ok(
            LayoutDescriptor::Tiled {
                tiled: Box::new(
                    TiledParams {
                        tile_shape,
                        outer_layout: o,
                        inner_layout: i,
                        outer_strides,
                        inner_strides,
                        inner_tiled: nested,
                    },
                ),
            },
        )
    }

    /// The tiled parameters of a tiled layout.
    pub fn params(l: &LayoutDescriptor) -> (r: Result<&TiledParams, VariantMismatch>)
        ensures
            match *l {
                LayoutDescriptor::Tiled { tiled } => r == Ok::<&TiledParams, VariantMismatch>(
                    &*tiled,
                ),
                _ => r == Err::<&TiledParams, VariantMismatch>(VariantMismatch),
            },
    {
        match l {
            LayoutDescriptor::Tiled { tiled } => Ok(&**tiled),
            _ => Err(VariantMismatch),
        }
    }

    /// The name of the ordering between tiles.
    pub fn outer_layout(l: &LayoutDescriptor) -> (r: Result<&'static str, VariantMismatch>)
        ensures
            match *l {
                LayoutDescriptor::Tiled { tiled } => r matches Ok(n) && n@ == spec_tag_name(
                    tiled.outer_layout,
                ),
                _ => r == Err::<&'static str, VariantMismatch>(VariantMismatch),
            },
    {
        match l {
            LayoutDescriptor::Tiled { tiled } => Ok(tag_name(tiled.outer_layout)),
            _ => Err(VariantMismatch),
        }
    }

    /// The name of the ordering within a tile.
    pub fn inner_layout(l: &LayoutDescriptor) -> (r: Result<&'static str, VariantMismatch>)
        ensures
            match *l {
                LayoutDescriptor::Tiled { tiled } => r matches Ok(n) && n@ == spec_tag_name(
                    tiled.inner_layout,
                ),
                _ => r == Err::<&'static str, VariantMismatch>(VariantMismatch),
            },
    {
        match l {
            LayoutDescriptor::Tiled { tiled } => Ok(tag_name(tiled.inner_layout)),
            _ => Err(VariantMismatch),
        }
    }
}

pub struct MortonLayout;

impl MortonLayout {
    /// A Morton (Z-order) layout with `morton_bits[k]` index bits for dimension `k`.
    pub fn new(morton_bits: Vec<u32>) -> (r: LayoutDescriptor)
        ensures
            r matches LayoutDescriptor::Morton { morton_bits: b } && b@ == morton_bits@,
    {
        LayoutDescriptor::Morton { morton_bits }
    }

    /// The per-dimension bit counts.
    pub fn morton_bits(l: &LayoutDescriptor) -> (r: Result<&Vec<u32>, VariantMismatch>)
        ensures
            match *l {
                LayoutDescriptor::Morton { morton_bits } => r matches Ok(b) && b@
                    == morton_bits@,
                _ => r == Err::<&Vec<u32>, VariantMismatch>(VariantMismatch),
            },
    {
        match l {
            LayoutDescriptor::Morton { morton_bits } => Ok(morton_bits),
            _ => Err(VariantMismatch),
        }
    }
}

pub struct HilbertLayout;

impl HilbertLayout {
    /// A Hilbert-curve layout of the given order and rank.
    pub fn new(hilbert_order: u32, hilbert_rank: u32) -> (r: LayoutDescriptor)
        ensures
            r == (LayoutDescriptor::Hilbert { hilbert_order, hilbert_rank }),
    {
        LayoutDescriptor::Hilbert { hilbert_order, hilbert_rank }
    }

    /// The curve order: each dimension is `2 ** hilbert_order` long.
    pub fn hilbert_order(l: &LayoutDescriptor) -> (r: Result<u32, VariantMismatch>)
        ensures
            match *l {
                LayoutDescriptor::Hilbert { hilbert_order, .. } => r == Ok::<
                    u32,
                    VariantMismatch,
                >(hilbert_order),
                _ => r == Err::<u32, VariantMismatch>(VariantMismatch),
            },
    {
        match l {
            LayoutDescriptor::Hilbert { hilbert_order, .. } => Ok(*hilbert_order),
            _ => Err(VariantMismatch),
        }
    }

    /// The rank the curve covers.
    pub fn hilbert_rank(l: &LayoutDescriptor) -> (r: Result<u32, VariantMismatch>)
        ensures
            match *l {
                LayoutDescriptor::Hilbert { hilbert_rank, .. } => r == Ok::<u32, VariantMismatch>(
                    hilbert_rank,
                ),
                _ => r == Err::<u32, VariantMismatch>(VariantMismatch),
            },
    {
        match l {
            LayoutDescriptor::Hilbert { hilbert_rank, .. } => Ok(*hilbert_rank),
            _ => Err(VariantMismatch),
        }
    }
}

pub struct CooLayout;

impl CooLayout {
    /// A coordinate-list layout with `nnz` stored elements.
    pub fn new(nnz: u64, is_sorted: bool) -> (r: LayoutDescriptor)
        ensures
            r == (LayoutDescriptor::Coo { nnz, is_sorted }),
    {
        LayoutDescriptor::Coo { nnz, is_sorted }
    }

    /// The number of stored elements.
    pub fn nnz(l: &LayoutDescriptor) -> (r: Result<u64, VariantMismatch>)
        ensures
            match *l {
                LayoutDescriptor::Coo { nnz, .. } => r == Ok::<u64, VariantMismatch>(nnz),
                _ => r == Err::<u64, VariantMismatch>(VariantMismatch),
            },
    {
        match l {
            LayoutDescriptor::Coo { nnz, .. } => Ok(*nnz),
            _ => Err(VariantMismatch),
        }
    }

    /// Whether the coordinates are sorted.
    pub fn is_sorted(l: &LayoutDescriptor) -> (r: Result<bool, VariantMismatch>)
        ensures
            match *l {
                LayoutDescriptor::Coo { is_sorted, .. } => r == Ok::<bool, VariantMismatch>(
                    is_sorted,
                ),
                _ => r == Err::<bool, VariantMismatch>(VariantMismatch),
            },
    {
        match l {
            LayoutDescriptor::Coo { is_sorted, .. } => Ok(*is_sorted),
            _ => Err(VariantMismatch),
        }
    }
}

pub struct CsrLayout;

impl CsrLayout {
    /// A compressed-sparse-row layout with `nnz` stored elements.
    pub fn new(nnz: u64) -> (r: LayoutDescriptor)
        ensures
            r == (LayoutDescriptor::Csr { nnz }),
    {
        LayoutDescriptor::Csr { nnz }
    }

    /// The number of stored elements.
    pub fn nnz(l: &LayoutDescriptor) -> (r: Result<u64, VariantMismatch>)
        ensures
            match *l {
                LayoutDescriptor::Csr { nnz } => r == Ok::<u64, VariantMismatch>(nnz),
                _ => r == Err::<u64, VariantMismatch>(VariantMismatch),
            },
    {
        match l {
            LayoutDescriptor::Csr { nnz } => Ok(*nnz),
            _ => Err(VariantMismatch),
        }
    }
}

pub struct CscLayout;

impl CscLayout {
    /// A compressed-sparse-column layout with `nnz` stored elements.
    pub fn new(nnz: u64) -> (r: LayoutDescriptor)
        ensures
            r == (LayoutDescriptor::Csc { nnz }),
    {
        LayoutDescriptor::Csc { nnz }
    }

    /// The number of stored elements.
    pub fn nnz(l: &LayoutDescriptor) -> (r: Result<u64, VariantMismatch>)
        ensures
            match *l {
                LayoutDescriptor::Csc { nnz } => r == Ok::<u64, VariantMismatch>(nnz),
                _ => r == Err::<u64, VariantMismatch>(VariantMismatch),
            },
    {
        match l {
            LayoutDescriptor::Csc { nnz } => Ok(*nnz),
            _ => Err(VariantMismatch),
        }
    }
}

pub struct CsfLayout;

impl CsfLayout {
    /// A compressed-sparse-fiber layout; `mode_order` is the nesting order of the
    /// dimensions.
    pub fn new(nnz: u64, mode_order: Vec<u32>) -> (r: LayoutDescriptor)
        ensures
            r matches LayoutDescriptor::Csf { nnz: n, mode_order: m } && n == nnz && m@
                == mode_order@,
    {
        LayoutDescriptor::Csf { nnz, mode_order }
    }

    /// The number of stored elements.
    pub fn nnz(l: &LayoutDescriptor) -> (r: Result<u64, VariantMismatch>)
        ensures
            match *l {
                LayoutDescriptor::Csf { nnz, .. } => r == Ok::<u64, VariantMismatch>(nnz),
                _ => r == Err::<u64, VariantMismatch>(VariantMismatch),
            },
    {
        match l {
            LayoutDescriptor::Csf { nnz, .. } => Ok(*nnz),
            _ => Err(VariantMismatch),
        }
    }

    /// The nesting order of the dimensions.
    pub fn mode_order(l: &LayoutDescriptor) -> (r: Result<&Vec<u32>, VariantMismatch>)
        ensures
            match *l {
                LayoutDescriptor::Csf { mode_order, .. } => r matches Ok(m) && m@
                    == mode_order@,
                _ => r == Err::<&Vec<u32>, VariantMismatch>(VariantMismatch),
            },
    {
        match l {
            LayoutDescriptor::Csf { mode_order, .. } => Ok(mode_order),
            _ => Err(VariantMismatch),
        }
    }
}

pub struct BlockPagedLayout;

impl BlockPagedLayout {
    /// A block-paged layout; `kv_role` is key, value or fused and the block-table
    /// index type uint32 or uint64 (the role is checked first).
    pub fn new(
        page_size: u32,
        num_pages: u64,
        paged_axis: u32,
        num_seqs: u32,
        kv_role: &str,
        layer_index: Option<u32>,
        block_table_index_type: &str,
    ) -> (r: Result<LayoutDescriptor, LayoutError>)
        ensures
            match spec_kv_role_of(kv_role@) {
                None => r == Err::<LayoutDescriptor, LayoutError>(LayoutError::InvalidKvRole),
                Some(role) => match spec_index_type_of(block_table_index_type@) {
                    None => r == Err::<LayoutDescriptor, LayoutError>(
                        LayoutError::InvalidIndexType,
                    ),
                    Some(t) => r == Ok::<LayoutDescriptor, LayoutError>(
                        LayoutDescriptor::BlockPaged {
                            paged: PagedParams {
                                page_size,
                                num_pages,
                                paged_axis,
                                num_seqs,
                                kv_role: role,
                                layer_index,
                                block_table_index_type: t,
                            },
                        },
                    ),
                },
            },
    {
        let role = match kv_role_from_name(kv_role) {
            Ok(r) => r,
            Err(e) => return Err(e),
        };
        let t = match index_type_from_name(block_table_index_type) {
            Ok(t) => t,
            Err(e) => return Err(e),
        };
        Ok(
            LayoutDescriptor::BlockPaged {
                paged: PagedParams {
                    page_size,
                    num_pages,
                    paged_axis,
                    num_seqs,
                    kv_role: role,
                    layer_index,
                    block_table_index_type: t,
                },
            },
        )
    }

    /// The block-paged parameters.
    pub fn params(l: &LayoutDescriptor) -> (r: Result<PagedParams, VariantMismatch>)
        ensures
            match *l {
                LayoutDescriptor::BlockPaged { paged } => r == Ok::<PagedParams, VariantMismatch>(
                    paged,
                ),
                _ => r == Err::<PagedParams, VariantMismatch>(VariantMismatch),
            },
    {
        match l {
            LayoutDescriptor::BlockPaged { paged } => Ok(*paged),
            _ => Err(VariantMismatch),
        }
    }

    /// The KV role name.
    pub fn kv_role(l: &LayoutDescriptor) -> (r: Result<&'static str, VariantMismatch>)
        ensures
            match *l {
                LayoutDescriptor::BlockPaged { paged } => r matches Ok(n) && n@
                    == spec_kv_role_name(paged.kv_role),
                _ => r == Err::<&'static str, VariantMismatch>(VariantMismatch),
            },
    {
        match l {
            LayoutDescriptor::BlockPaged { paged } => Ok(kv_role_name(paged.kv_role)),
            _ => Err(VariantMismatch),
        }
    }

    /// The block-table index type name.
    pub fn block_table_index_type(l: &LayoutDescriptor) -> (r: Result<
        &'static str,
        VariantMismatch,
    >)
        ensures
            match *l {
                LayoutDescriptor::BlockPaged { paged } => r matches Ok(n) && n@
                    == spec_index_type_name(paged.block_table_index_type),
                _ => r == Err::<&'static str, VariantMismatch>(VariantMismatch),
            },
    {
        match l {
            LayoutDescriptor::BlockPaged { paged } => Ok(
                index_type_name(paged.block_table_index_type),
            ),
            _ => Err(VariantMismatch),
        }
    }
}

pub struct CompositeLayout;

impl CompositeLayout {
    /// A composite head: the rule (with `combine_op` for an overlay) and member count.
    pub fn new(composition_rule: &str, member_count: u32, combine_op: Option<&str>) -> (r: Result<
        LayoutDescriptor,
        LayoutError,
    >)
        ensures
            match spec_parse_rule(
                composition_rule@,
                match combine_op {
                    Some(c) => Some(c@),
                    None => None,
                },
            ) {
                Err(e) => r == Err::<LayoutDescriptor, LayoutError>(e),
                Ok(rule) => r == Ok::<LayoutDescriptor, LayoutError>(
                    LayoutDescriptor::Composite { rule, member_count },
                ),
            },
    {
        match parse_composition_rule(composition_rule, combine_op) {
            Ok(rule) => Ok(LayoutDescriptor::Composite { rule, member_count }),
            Err(e) => Err(e),
        }
    }

    /// The composition rule name.
    pub fn composition_rule(l: &LayoutDescriptor) -> (r: Result<&'static str, VariantMismatch>)
        ensures
            match *l {
                LayoutDescriptor::Composite { rule, .. } => r matches Ok(n) && n@
                    == spec_rule_name(rule),
                _ => r == Err::<&'static str, VariantMismatch>(VariantMismatch),
            },
    {
        match l {
            LayoutDescriptor::Composite { rule, .. } => Ok(rule_name(rule)),
            _ => Err(VariantMismatch),
        }
    }

    /// The overlay combine operation name, `None` for other rules.
    pub fn combine_op(l: &LayoutDescriptor) -> (r: Result<Option<&'static str>, VariantMismatch>)
        ensures
            match *l {
                LayoutDescriptor::Composite { rule, .. } => match rule {
                    CompositionRule::Overlay(op) => r matches Ok(Some(n)) && n@
                        == spec_combine_name(op),
                    _ => r == Ok::<Option<&'static str>, VariantMismatch>(None),
                },
                _ => r == Err::<Option<&'static str>, VariantMismatch>(VariantMismatch),
            },
    {
        match l {
            LayoutDescriptor::Composite { rule, .. } => match rule {
                CompositionRule::Overlay(op) => Ok(Some(combine_name(*op))),
                _ => Ok(None),
            },
            _ => Err(VariantMismatch),
        }
    }

    /// The number of members.
    pub fn member_count(l: &LayoutDescriptor) -> (r: Result<u32, VariantMismatch>)
        ensures
            match *l {
                LayoutDescriptor::Composite { member_count, .. } => r == Ok::<
                    u32,
                    VariantMismatch,
                >(member_count),
                _ => r == Err::<u32, VariantMismatch>(VariantMismatch),
            },
    {
        match l {
            LayoutDescriptor::Composite { member_count, .. } => Ok(*member_count),
            _ => Err(VariantMismatch),
        }
    }
}

pub struct PrivateExtensionLayout;

impl PrivateExtensionLayout {
    /// A private layout; its tag must lie in `0xF0`–`0xFE`.
    pub fn new(tag: u8, extension_layout_id: u64, extension_data: Option<Vec<u8>>) -> (r: Result<
        LayoutDescriptor,
        LayoutError,
    >)
        ensures
            !spec_is_private_tag(tag) ==> r == Err::<LayoutDescriptor, LayoutError>(
                LayoutError::TagNotPrivate,
            ),
            spec_is_private_tag(tag) ==> (r matches Ok(
                LayoutDescriptor::PrivateExtension { tag: t, extension_layout_id: id, extension_data: d },
            ) && t == tag && id == extension_layout_id && d@ == (match extension_data {
                Some(v) => v@,
                None => Seq::<u8>::empty(),
            })),
    {
        if !is_private_tag(tag) {
            return Err(LayoutError::TagNotPrivate);
        }
        let data = match extension_data {
            Some(v) => v,
            None => Vec::new(),
        };
        Ok(LayoutDescriptor::PrivateExtension { tag, extension_layout_id, extension_data: data })
    }

    /// The extension's own layout identifier.
    pub fn extension_layout_id(l: &LayoutDescriptor) -> (r: Result<u64, VariantMismatch>)
        ensures
            match *l {
                LayoutDescriptor::PrivateExtension { extension_layout_id, .. } => r == Ok::<
                    u64,
                    VariantMismatch,
                >(extension_layout_id),
                _ => r == Err::<u64, VariantMismatch>(VariantMismatch),
            },
    {
        match l {
            LayoutDescriptor::PrivateExtension { extension_layout_id, .. } => Ok(
                *extension_layout_id,
            ),
            _ => Err(VariantMismatch),
        }
    }

    /// The extension's opaque parameter bytes.
    pub fn extension_data(l: &LayoutDescriptor) -> (r: Result<&Vec<u8>, VariantMismatch>)
        ensures
            match *l {
                LayoutDescriptor::PrivateExtension { extension_data, .. } => r matches Ok(d)
                    && d@ == extension_data@,
                _ => r == Err::<&Vec<u8>, VariantMismatch>(VariantMismatch),
            },
    {
        match l {
            LayoutDescriptor::PrivateExtension { extension_data, .. } => Ok(extension_data),
            _ => Err(VariantMismatch),
        }
    }
}

pub struct UnknownLayout;

impl UnknownLayout {
    /// A passthrough for a tag this build does not recognise. A recognised tag is
    /// refused (use its own class), as are the permanently invalid `0x00` and `0xFF`.
    pub fn new(tag: u8, raw_bytes: Option<Vec<u8>>) -> (r: Result<LayoutDescriptor, LayoutError>)
        ensures
            spec_known_tag_name(tag) is Some ==> r == Err::<LayoutDescriptor, LayoutError>(
                LayoutError::TagIsKnown(tag),
            ),
            spec_known_tag_name(tag) is None && (tag == 0 || tag == 0xFF) ==> r == Err::<
                LayoutDescriptor,
                LayoutError,
            >(LayoutError::InvalidTag),
            spec_known_tag_name(tag) is None && tag != 0 && tag != 0xFF ==> (r matches Ok(
                LayoutDescriptor::Unknown { tag: t, raw_bytes: b },
            ) && t == tag && b@ == (match raw_bytes {
                Some(v) => v@,
                None => Seq::<u8>::empty(),
            })),
    {
        if known_tag_name(tag).is_some() {
            return Err(LayoutError::TagIsKnown(tag));
        }
        if tag == 0 || tag == 0xFF {
            return Err(LayoutError::InvalidTag);
        }
        let raw = match raw_bytes {
            Some(v) => v,
            None => Vec::new(),
        };
        Ok(LayoutDescriptor::Unknown { tag, raw_bytes: raw })
    }

    /// The raw parameter bytes carried through unchanged.
    pub fn raw_bytes(l: &LayoutDescriptor) -> (r: Result<&Vec<u8>, VariantMismatch>)
        ensures
            match *l {
                LayoutDescriptor::Unknown { raw_bytes, .. } => r matches Ok(d) && d@
                    == raw_bytes@,
                _ => r == Err::<&Vec<u8>, VariantMismatch>(VariantMismatch),
            },
    {
        match l {
            LayoutDescriptor::Unknown { raw_bytes, .. } => Ok(raw_bytes),
            _ => Err(VariantMismatch),
        }
    }
}

} // verus!
