//! `repr()` strings and value equality of layouts.

use vstd::prelude::*;
use crate::layout::{
    CompositionRule, LayoutDescriptor, TiledLayout, combine_name, index_type_name,
    kv_role_name, layout_name, layout_tag, rule_name, spec_combine_name, spec_index_type_name,
    spec_kv_role_name, spec_layout_name, spec_rule_name, spec_tag, spec_tag_name, tag_name,
};
use crate::text::{
    decimal, decimals_i64, decimals_u32, decimals_u64, hex2, push_decimal, push_hex2,
    push_py_bool, push_py_tuple, py_bool, py_tuple, signed_decimal, views,
};

verus! {

/// Element-wise equality of two vectors.
pub fn vec_eq_u64(a: &Vec<u64>, b: &Vec<u64>) -> (r: bool)
    ensures
        r == (a@ == b@),
{
    if a.len() != b.len() {
        return false;
    }
    let mut i: usize = 0;
    while i < a.len()
        invariant
            i <= a.len(),
            a.len() == b.len(),
            forall|j: int| 0 <= j < i ==> a@[j] == b@[j],
        decreases a.len() - i,
    {
        if a[i] != b[i] {
            assert(a@[i as int] != b@[i as int]);
            return false;
        }
        i = i + 1;
    }
    assert(a@ =~= b@);
    true
}

/// Element-wise equality of two vectors.
pub fn vec_eq_i64(a: &Vec<i64>, b: &Vec<i64>) -> (r: bool)
    ensures
        r == (a@ == b@),
{
    if a.len() != b.len() {
        return false;
    }
    let mut i: usize = 0;
    while i < a.len()
        invariant
            i <= a.len(),
            a.len() == b.len(),
            forall|j: int| 0 <= j < i ==> a@[j] == b@[j],
        decreases a.len() - i,
    {
        if a[i] != b[i] {
            assert(a@[i as int] != b@[i as int]);
            return false;
        }
        i = i + 1;
    }
    assert(a@ =~= b@);
    true
}

/// Element-wise equality of two vectors.
pub fn vec_eq_u32(a: &Vec<u32>, b: &Vec<u32>) -> (r: bool)
    ensures
        r == (a@ == b@),
{
    if a.len() != b.len() {
        return false;
    }
    let mut i: usize = 0;
    while i < a.len()
        invariant
            i <= a.len(),
            a.len() == b.len(),
            forall|j: int| 0 <= j < i ==> a@[j] == b@[j],
        decreases a.len() - i,
    {
        if a[i] != b[i] {
            assert(a@[i as int] != b@[i as int]);
            return false;
        }
        i = i + 1;
    }
    assert(a@ =~= b@);
    true
}

/// Element-wise equality of two vectors.
pub fn vec_eq_u8(a: &Vec<u8>, b: &Vec<u8>) -> (r: bool)
    ensures
        r == (a@ == b@),
{
    if a.len() != b.len() {
        return false;
    }
    let mut i: usize = 0;
    while i < a.len()
        invariant
            i <= a.len(),
            a.len() == b.len(),
            forall|j: int| 0 <= j < i ==> a@[j] == b@[j],
        decreases a.len() - i,
    {
        if a[i] != b[i] {
            assert(a@[i as int] != b@[i as int]);
            return false;
        }
        i = i + 1;
    }
    assert(a@ =~= b@);
    true
}

/// Two optional stride lists are equal.
pub open spec fn same_strides(a: Option<Vec<i64>>, b: Option<Vec<i64>>) -> bool {
    match (a, b) {
        (None, None) => true,
        (Some(x), Some(y)) => x@ == y@,
        _ => false,
    }
}

/// Two tiled layouts describe the same tiling.
pub open spec fn same_tiled(a: TiledLayout, b: TiledLayout) -> bool
    decreases a,
{
    &&& a.tile_shape@ == b.tile_shape@
    &&& a.outer_layout == b.outer_layout
    &&& a.inner_layout == b.inner_layout
    &&& same_strides(a.outer_strides, b.outer_strides)
    &&& same_strides(a.inner_strides, b.inner_strides)
    &&& match (a.inner_tiled, b.inner_tiled) {
        (None, None) => true,
        (Some(x), Some(y)) => same_tiled(*x, *y),
        _ => false,
    }
}

/// Two layouts are equal: same variant, equal parameters.
pub open spec fn same_layout(a: LayoutDescriptor, b: LayoutDescriptor) -> bool {
    match (a, b) {
        (LayoutDescriptor::RowMajor, LayoutDescriptor::RowMajor) => true,
        (LayoutDescriptor::ColMajor, LayoutDescriptor::ColMajor) => true,
        (LayoutDescriptor::Strided { strides: x }, LayoutDescriptor::Strided { strides: y }) => x@
            == y@,
        (LayoutDescriptor::Tiled { tiled: x }, LayoutDescriptor::Tiled { tiled: y }) => same_tiled(
            *x,
            *y,
        ),
        (LayoutDescriptor::Morton { morton_bits: x }, LayoutDescriptor::Morton { morton_bits: y }) => x@
            == y@,
        (
            LayoutDescriptor::Hilbert { hilbert_order: o1, hilbert_rank: r1 },
            LayoutDescriptor::Hilbert { hilbert_order: o2, hilbert_rank: r2 },
        ) => o1 == o2 && r1 == r2,
        (LayoutDescriptor::Coo { nnz: n1, is_sorted: s1 }, LayoutDescriptor::Coo { nnz: n2, is_sorted: s2 }) => n1
            == n2 && s1 == s2,
        (LayoutDescriptor::Csr { nnz: n1 }, LayoutDescriptor::Csr { nnz: n2 }) => n1 == n2,
        (LayoutDescriptor::Csc { nnz: n1 }, LayoutDescriptor::Csc { nnz: n2 }) => n1 == n2,
        (
            LayoutDescriptor::Csf { nnz: n1, mode_order: m1 },
            LayoutDescriptor::Csf { nnz: n2, mode_order: m2 },
        ) => n1 == n2 && m1@ == m2@,
        (LayoutDescriptor::BlockPaged { paged: p1 }, LayoutDescriptor::BlockPaged { paged: p2 }) => p1
            == p2,
        (
            LayoutDescriptor::Composite { rule: r1, member_count: c1 },
            LayoutDescriptor::Composite { rule: r2, member_count: c2 },
        ) => r1 == r2 && c1 == c2,
        (
            LayoutDescriptor::PrivateExtension { tag: t1, extension_layout_id: i1, extension_data: d1 },
            LayoutDescriptor::PrivateExtension { tag: t2, extension_layout_id: i2, extension_data: d2 },
        ) => t1 == t2 && i1 == i2 && d1@ == d2@,
        (LayoutDescriptor::Unknown { tag: t1, raw_bytes: b1 }, LayoutDescriptor::Unknown { tag: t2, raw_bytes: b2 }) => t1
            == t2 && b1@ == b2@,
        _ => false,
    }
}

fn strides_eq(a: &Option<Vec<i64>>, b: &Option<Vec<i64>>) -> (r: bool)
    ensures
        r == same_strides(*a, *b),
{
    match (a, b) {
        (None, None) => true,
        (Some(x), Some(y)) => vec_eq_i64(x, y),
        _ => false,
    }
}

/// Structural equality of two tiled layouts.
pub fn tiled_eq(a: &TiledLayout, b: &TiledLayout) -> (r: bool)
    ensures
        r == same_tiled(*a, *b),
    decreases a,
{
    if !vec_eq_u64(&a.tile_shape, &b.tile_shape) || a.outer_layout != b.outer_layout
        || a.inner_layout != b.inner_layout || !strides_eq(&a.outer_strides, &b.outer_strides)
        || !strides_eq(&a.inner_strides, &b.inner_strides) {
        return false;
    }
    match (&a.inner_tiled, &b.inner_tiled) {
        (None, None) => true,
        (Some(x), Some(y)) => tiled_eq(&**x, &**y),
        _ => false,
    }
}

/// Value equality of layouts: `Layout.__eq__` between two layouts.
pub fn layout_eq(a: &LayoutDescriptor, b: &LayoutDescriptor) -> (r: bool)
    ensures
        r == same_layout(*a, *b),
{
    match (a, b) {
        (LayoutDescriptor::RowMajor, LayoutDescriptor::RowMajor) => true,
        (LayoutDescriptor::ColMajor, LayoutDescriptor::ColMajor) => true,
        (LayoutDescriptor::Strided { strides: x }, LayoutDescriptor::Strided { strides: y }) => vec_eq_i64(x, y),
        (LayoutDescriptor::Tiled { tiled: x }, LayoutDescriptor::Tiled { tiled: y }) => tiled_eq(&**x, &**y),
        (LayoutDescriptor::Morton { morton_bits: x }, LayoutDescriptor::Morton { morton_bits: y }) => vec_eq_u32(x, y),
        (
            LayoutDescriptor::Hilbert { hilbert_order: o1, hilbert_rank: r1 },
            LayoutDescriptor::Hilbert { hilbert_order: o2, hilbert_rank: r2 },
        ) => *o1 == *o2 && *r1 == *r2,
        (LayoutDescriptor::Coo { nnz: n1, is_sorted: s1 }, LayoutDescriptor::Coo { nnz: n2, is_sorted: s2 }) => *n1
            == *n2 && *s1 == *s2,
        (LayoutDescriptor::Csr { nnz: n1 }, LayoutDescriptor::Csr { nnz: n2 }) => *n1 == *n2,
        (LayoutDescriptor::Csc { nnz: n1 }, LayoutDescriptor::Csc { nnz: n2 }) => *n1 == *n2,
        (
            LayoutDescriptor::Csf { nnz: n1, mode_order: m1 },
            LayoutDescriptor::Csf { nnz: n2, mode_order: m2 },
        ) => *n1 == *n2 && vec_eq_u32(m1, m2),
        (LayoutDescriptor::BlockPaged { paged: p1 }, LayoutDescriptor::BlockPaged { paged: p2 }) => *p1 == *p2,
        (
            LayoutDescriptor::Composite { rule: r1, member_count: c1 },
            LayoutDescriptor::Composite { rule: r2, member_count: c2 },
        ) => *r1 == *r2 && *c1 == *c2,
        (
            LayoutDescriptor::PrivateExtension { tag: t1, extension_layout_id: i1, extension_data: d1 },
            LayoutDescriptor::PrivateExtension { tag: t2, extension_layout_id: i2, extension_data: d2 },
        ) => *t1 == *t2 && *i1 == *i2 && vec_eq_u8(d1, d2),
        (LayoutDescriptor::Unknown { tag: t1, raw_bytes: b1 }, LayoutDescriptor::Unknown { tag: t2, raw_bytes: b2 }) => *t1
            == *t2 && vec_eq_u8(b1, b2),
        _ => false,
    }
}

// ── repr ─────────────────────────────────────────────────────────────────────

/// The spelling of an unsigned list as a Python tuple.
pub open spec fn tuple_of(items: Seq<nat>) -> Seq<char> {
    py_tuple(Seq::new(items.len(), |i: int| decimal(items[i])))
}

/// The fallback `Layout(tag=0x01, name='row_major')`.
pub open spec fn spec_base_repr(l: LayoutDescriptor) -> Seq<char> {
    "Layout(tag=0x"@ + hex2(spec_tag(l)) + ", name='"@ + spec_layout_name(l) + "')"@
}

/// The representation of the base `Layout` object, carrying only tag and name.
pub fn base_repr(l: &LayoutDescriptor) -> (r: String)
    ensures
        r@ == spec_base_repr(*l),
{
    let mut s = String::new();
    s.append("Layout(tag=0x");
    push_hex2(&mut s, layout_tag(l));
    s.append(", name='");
    s.append(layout_name(l));
    s.append("')");
    s
}

/// The deepest nesting a tiled `repr` spells out before writing `...`.
pub const MAX_TILED_REPR_DEPTH: usize = 4;

/// `TiledLayout(tile_shape=(4, 4), outer_layout='row_major', inner_layout='col_major'[, inner_tiled=...])`,
/// nested layouts spelt out down to the depth bound.
pub open spec fn spec_tiled_repr(t: TiledLayout, depth: int) -> Seq<char>
    decreases 4 - depth,
{
    let shape = py_tuple(Seq::new(t.tile_shape@.len(), |i: int| decimal(t.tile_shape@[i] as nat)));
    let inner = match t.inner_tiled {
        None => Seq::<char>::empty(),
        Some(i) => if depth + 1 >= 4 {
            ", inner_tiled=..."@
        } else {
            ", inner_tiled="@ + spec_tiled_repr(*i, depth + 1)
        },
    };
    "TiledLayout(tile_shape="@ + shape + ", outer_layout='"@ + spec_tag_name(t.outer_layout)
        + "', inner_layout='"@ + spec_tag_name(t.inner_layout) + "'"@ + inner + ")"@
}

/// The representation of a tiled layout at nesting `depth`.
pub fn tiled_repr(t: &TiledLayout, depth: usize) -> (r: String)
    requires
        depth < 4,
    ensures
        r@ == spec_tiled_repr(*t, depth as int),
    decreases 4 - depth,
{
    let mut s = String::new();
    s.append("TiledLayout(tile_shape=");
    let parts = decimals_u64(&t.tile_shape);
    push_py_tuple(&mut s, &parts);
    s.append(", outer_layout='");
    s.append(tag_name(t.outer_layout));
    s.append("', inner_layout='");
    s.append(tag_name(t.inner_layout));
    s.append("'");
    match &t.inner_tiled {
        None => {},
        Some(i) => {
            if depth + 1 >= MAX_TILED_REPR_DEPTH {
                s.append(", inner_tiled=...");
            } else {
                s.append(", inner_tiled=");
                let inner = tiled_repr(&**i, depth + 1);
                s.append(inner.as_str());
            }
        },
    }
    s.append(")");
    s
}

/// The class `repr()` of a layout: what `repr(t.layout)` prints.
pub open spec fn spec_layout_repr(l: LayoutDescriptor) -> Seq<char> {
    match l {
        LayoutDescriptor::RowMajor => "RowMajorLayout()"@,
        LayoutDescriptor::ColMajor => "ColMajorLayout()"@,
        LayoutDescriptor::Strided { strides } => "StridedLayout(strides="@ + py_tuple(
            Seq::new(strides@.len(), |i: int| signed_decimal(strides@[i] as int)),
        ) + ")"@,
        LayoutDescriptor::Tiled { tiled } => spec_tiled_repr(*tiled, 0),
        LayoutDescriptor::Morton { morton_bits } => "MortonLayout(morton_bits="@ + py_tuple(
            Seq::new(morton_bits@.len(), |i: int| decimal(morton_bits@[i] as nat)),
        ) + ")"@,
        LayoutDescriptor::Hilbert { hilbert_order, hilbert_rank } => "HilbertLayout(hilbert_order="@
            + decimal(hilbert_order as nat) + ", hilbert_rank="@ + decimal(hilbert_rank as nat)
            + ")"@,
        LayoutDescriptor::Coo { nnz, is_sorted } => "CooLayout(nnz="@ + decimal(nnz as nat)
            + ", is_sorted="@ + py_bool(is_sorted) + ")"@,
        LayoutDescriptor::Csr { nnz } => "CsrLayout(nnz="@ + decimal(nnz as nat) + ")"@,
        LayoutDescriptor::Csc { nnz } => "CscLayout(nnz="@ + decimal(nnz as nat) + ")"@,
        LayoutDescriptor::Csf { nnz, mode_order } => "CsfLayout(nnz="@ + decimal(nnz as nat)
            + ", mode_order="@ + py_tuple(
            Seq::new(mode_order@.len(), |i: int| decimal(mode_order@[i] as nat)),
        ) + ")"@,
        LayoutDescriptor::BlockPaged { paged } => "BlockPagedLayout(page_size="@ + decimal(
            paged.page_size as nat,
        ) + ", num_pages="@ + decimal(paged.num_pages as nat) + ", paged_axis="@ + decimal(
            paged.paged_axis as nat,
        ) + ", num_seqs="@ + decimal(paged.num_seqs as nat) + ", kv_role='"@ + spec_kv_role_name(
            paged.kv_role,
        ) + "', layer_index="@ + (match paged.layer_index {
            Some(i) => decimal(i as nat),
            None => "None"@,
        }) + ", block_table_index_type='"@ + spec_index_type_name(paged.block_table_index_type)
            + "')"@,
        LayoutDescriptor::Composite { rule, member_count } => "CompositeLayout(composition_rule='"@
            + spec_rule_name(rule) + "', member_count="@ + decimal(member_count as nat) + (match rule {
            CompositionRule::Overlay(op) => ", combine_op='"@ + spec_combine_name(op) + "'"@,
            _ => Seq::<char>::empty(),
        }) + ")"@,
        LayoutDescriptor::PrivateExtension { tag, extension_layout_id, extension_data } =>
            "PrivateExtensionLayout(tag=0x"@ + hex2(tag) + ", extension_layout_id="@ + decimal(
            extension_layout_id as nat,
        ) + ", extension_data="@ + decimal(extension_data@.len()) + " bytes)"@,
        LayoutDescriptor::Unknown { tag, raw_bytes } => "UnknownLayout(tag=0x"@ + hex2(tag)
            + ", raw_bytes="@ + decimal(raw_bytes@.len()) + " bytes)"@,
    }
}

/// The class `repr()` of a layout.
pub fn layout_repr(l: &LayoutDescriptor) -> (r: String)
    ensures
        r@ == spec_layout_repr(*l),
{
    let mut s = String::new();
    match l {
        LayoutDescriptor::RowMajor => {
            s.append("RowMajorLayout()");
        },
        LayoutDescriptor::ColMajor => {
            s.append("ColMajorLayout()");
        },
        LayoutDescriptor::Strided { strides } => {
            s.append("StridedLayout(strides=");
            let parts = decimals_i64(strides);
            push_py_tuple(&mut s, &parts);
            s.append(")");
        },
        LayoutDescriptor::Tiled { tiled } => {
            s = tiled_repr(&**tiled, 0);
        },
        LayoutDescriptor::Morton { morton_bits } => {
            s.append("MortonLayout(morton_bits=");
            let parts = decimals_u32(morton_bits);
            push_py_tuple(&mut s, &parts);
            s.append(")");
        },
        LayoutDescriptor::Hilbert { hilbert_order, hilbert_rank } => {
            s.append("HilbertLayout(hilbert_order=");
            push_decimal(&mut s, *hilbert_order as u64);
            s.append(", hilbert_rank=");
            push_decimal(&mut s, *hilbert_rank as u64);
            s.append(")");
        },
        LayoutDescriptor::Coo { nnz, is_sorted } => {
            s.append("CooLayout(nnz=");
            push_decimal(&mut s, *nnz);
            s.append(", is_sorted=");
            push_py_bool(&mut s, *is_sorted);
            s.append(")");
        },
        LayoutDescriptor::Csr { nnz } => {
            s.append("CsrLayout(nnz=");
            push_decimal(&mut s, *nnz);
            s.append(")");
        },
        LayoutDescriptor::Csc { nnz } => {
            s.append("CscLayout(nnz=");
            push_decimal(&mut s, *nnz);
            s.append(")");
        },
        LayoutDescriptor::Csf { nnz, mode_order } => {
            s.append("CsfLayout(nnz=");
            push_decimal(&mut s, *nnz);
            s.append(", mode_order=");
            let parts = decimals_u32(mode_order);
            push_py_tuple(&mut s, &parts);
            s.append(")");
        },
        LayoutDescriptor::BlockPaged { paged } => {
            s.append("BlockPagedLayout(page_size=");
            push_decimal(&mut s, paged.page_size as u64);
            s.append(", num_pages=");
            push_decimal(&mut s, paged.num_pages);
            s.append(", paged_axis=");
            push_decimal(&mut s, paged.paged_axis as u64);
            s.append(", num_seqs=");
            push_decimal(&mut s, paged.num_seqs as u64);
            s.append(", kv_role='");
            s.append(kv_role_name(paged.kv_role));
            s.append("', layer_index=");
            match paged.layer_index {
                Some(i) => push_decimal(&mut s, i as u64),
                None => s.append("None"),
            }
            s.append(", block_table_index_type='");
            s.append(index_type_name(paged.block_table_index_type));
            s.append("')");
        },
        LayoutDescriptor::Composite { rule, member_count } => {
            s.append("CompositeLayout(composition_rule='");
            s.append(rule_name(rule));
            s.append("', member_count=");
            push_decimal(&mut s, *member_count as u64);
            match rule {
                CompositionRule::Overlay(op) => {
                    s.append(", combine_op='");
                    s.append(combine_name(*op));
                    s.append("'");
                },
                _ => {},
            }
            s.append(")");
        },
        LayoutDescriptor::PrivateExtension { tag, extension_layout_id, extension_data } => {
            s.append("PrivateExtensionLayout(tag=0x");
            push_hex2(&mut s, *tag);
            s.append(", extension_layout_id=");
            push_decimal(&mut s, *extension_layout_id);
            s.append(", extension_data=");
            push_decimal(&mut s, extension_data.len() as u64);
            s.append(" bytes)");
        },
        LayoutDescriptor::Unknown { tag, raw_bytes } => {
            s.append("UnknownLayout(tag=0x");
            push_hex2(&mut s, *tag);
            s.append(", raw_bytes=");
            push_decimal(&mut s, raw_bytes.len() as u64);
            s.append(" bytes)");
        },
    }
    proof {
        assert(s@ =~= spec_layout_repr(*l));
    }
    s
}

} // verus!
