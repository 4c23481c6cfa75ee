//! Sparse tensors: the argument checks of `sparse_coo` and `from_scipy`, the
//! descriptors they build, and the sparse `repr`.
//!
//! | Layout | Buffers, in descriptor order |
//! |--------|------------------------------|
//! | COO | values, indices `[nnz, rank]` uint64 |
//! | CSR | values, col_indices `[nnz]` uint64, row_ptr `[nrows+1]` uint64 |
//! | CSC | values, row_indices `[nnz]` uint64, col_ptr `[ncols+1]` uint64 |
//!
//! SciPy COO matrices are refused: SciPy keeps rows and columns in two arrays while
//! the format needs one packed `[nnz, rank]` index buffer.

use vstd::prelude::*;
use crate::descriptor::{
    BufferHandle, TensorDescriptor, host_handle, push_shape, shape_repr, spec_handle_on,
};
use crate::device::{DeviceTag, MemoryClass};
use crate::dtype::{ElementType, element_name, element_type_name};
use crate::errors::ErrorClass;
use crate::layout::{LayoutDescriptor, layout_name, spec_layout_name, spec_required_buffers};
use crate::text::{decimal, push_decimal, str_eq};

verus! {

/// What `sparse_coo` and `from_scipy` read of a NumPy array.
pub struct ArrayInfo {
    /// The array's `C_CONTIGUOUS` flag.
    pub c_contiguous: bool,
    /// The `__array_interface__` shape.
    pub dims: Vec<i64>,
    /// The element type its typestr names, if any.
    pub element_type: Option<ElementType>,
}

/// Which argument an error is about.
#[derive(Clone, Copy, Debug, PartialEq, Eq, Structural)]
pub enum SparseArg {
    Values,
    Indices,
    Indptr,
}

/// Why a sparse tensor could not be built.
#[derive(Clone, Copy, Debug, PartialEq, Eq, Structural)]
pub enum SparseError {
    /// A negative extent in the requested shape.
    NegativeDimension,
    /// An input array that is not C-contiguous.
    NotContiguous(SparseArg),
    /// COO indices that are not two-dimensional; carries the dimensionality.
    IndicesNotMatrix(usize),
    /// COO indices whose second extent is not the tensor rank.
    IndicesRankMismatch { columns: u64, rank: usize },
    /// An array whose NumPy dtype has no Hurray equivalent.
    UnknownDtype(SparseArg),
    /// An index array that is not uint64.
    IndexNotUint64(SparseArg, ElementType),
    /// COO values that are not one-dimensional of length `nnz`.
    ValuesShapeMismatch { nnz: u64 },
    /// A SciPy COO matrix.
    ScipyCoo,
    /// A SciPy format other than csr, csc and coo.
    ScipyFormat,
    /// A SciPy matrix whose shape is not two-dimensional.
    ScipyNotMatrix,
}

impl SparseError {
    /// Shape errors are descriptor errors; the rest are unsupported inputs.
    pub fn class(&self) -> (r: ErrorClass)
        ensures
            r == spec_sparse_error_class(*self),
    {
        match self {
            SparseError::NegativeDimension | SparseError::IndicesNotMatrix(_)
            | SparseError::IndicesRankMismatch { .. } | SparseError::ValuesShapeMismatch { .. }
            | SparseError::ScipyNotMatrix => ErrorClass::InvalidDescriptor,
            _ => ErrorClass::Unsupported,
        }
    }
}

/// The Python exception each sparse error raises.
pub open spec fn spec_sparse_error_class(e: SparseError) -> ErrorClass {
    match e {
        SparseError::NegativeDimension | SparseError::IndicesNotMatrix(_)
        | SparseError::IndicesRankMismatch { .. } | SparseError::ValuesShapeMismatch { .. }
        | SparseError::ScipyNotMatrix => ErrorClass::InvalidDescriptor,
        _ => ErrorClass::Unsupported,
    }
}

/// An array extent as `sparse_coo` reads it: negative extents count as zero.
pub open spec fn clamped(d: i64) -> u64 {
    if d < 0 {
        0
    } else {
        d as u64
    }
}

/// Some extent of `shape` is negative.
pub open spec fn has_negative(shape: Seq<i64>) -> bool {
    exists|k: int| 0 <= k < shape.len() && shape[k] < 0
}

/// The extents of a shape with no negative entry, as unsigned values.
pub open spec fn unsigned_dims(shape: Seq<i64>) -> Seq<u64> {
    shape.map_values(|d: i64| d as u64)
}

/// The outcome of `sparse_coo`'s checks, in the order it makes them: the shape, the
/// indices array (contiguous, `[nnz, rank]`, a known dtype, uint64), then the values
/// array (contiguous, `[nnz]`, a known dtype). On success, the unsigned shape, `nnz`
/// and the values' element type.
pub open spec fn spec_check_coo(shape: Seq<i64>, indices: ArrayInfo, values: ArrayInfo) -> Result<
    (Seq<u64>, u64, ElementType),
    SparseError,
> {
    if has_negative(shape) {
        Err(SparseError::NegativeDimension)
    } else if !indices.c_contiguous {
        Err(SparseError::NotContiguous(SparseArg::Indices))
    } else if indices.dims@.len() != 2 {
        Err(SparseError::IndicesNotMatrix(indices.dims@.len() as usize))
    } else if clamped(indices.dims@[1]) != shape.len() {
        Err(
            SparseError::IndicesRankMismatch {
                columns: clamped(indices.dims@[1]),
                rank: shape.len() as usize,
            },
        )
    } else if indices.element_type is None {
        Err(SparseError::UnknownDtype(SparseArg::Indices))
    } else if indices.element_type != Some(ElementType::Uint64) {
        Err(SparseError::IndexNotUint64(SparseArg::Indices, indices.element_type->0))
    } else if !values.c_contiguous {
        Err(SparseError::NotContiguous(SparseArg::Values))
    } else if values.dims@.len() != 1 || clamped(values.dims@[0]) != clamped(indices.dims@[0]) {
        Err(SparseError::ValuesShapeMismatch { nnz: clamped(indices.dims@[0]) })
    } else if values.element_type is None {
        Err(SparseError::UnknownDtype(SparseArg::Values))
    } else {
        Ok((unsigned_dims(shape), clamped(indices.dims@[0]), values.element_type->0))
    }
}

fn clamp(d: i64) -> (r: u64)
    ensures
        r == clamped(d),
{
    if d < 0 {
        0
    } else {
        d as u64
    }
}

/// Reject a shape with a negative extent; otherwise its extents as unsigned values.
pub fn unsigned_shape(shape: &Vec<i64>) -> (r: Option<Vec<u64>>)
    ensures
        match r {
            Some(v) => !has_negative(shape@) && v@ == unsigned_dims(shape@),
            None => has_negative(shape@),
        },
{
    let mut out: Vec<u64> = Vec::new();
    let mut i: usize = 0;
    while i < shape.len()
        invariant
            i <= shape.len(),
            out@ == unsigned_dims(shape@.subrange(0, i as int)),
            forall|k: int| 0 <= k < i ==> shape@[k] >= 0,
        decreases shape.len() - i,
    {
        if shape[i] < 0 {
            return None;
        }
        out.push(shape[i] as u64);
        assert(unsigned_dims(shape@.subrange(0, i + 1 as int)) =~= unsigned_dims(
            shape@.subrange(0, i as int),
        ).push(shape@[i as int] as u64));
        i = i + 1;
    }
    assert(shape@.subrange(0, shape@.len() as int) =~= shape@);
    Some(out)
}

/// Check `sparse_coo`'s arguments.
pub fn check_coo(shape: &Vec<i64>, indices: &ArrayInfo, values: &ArrayInfo) -> (r: Result<
    (Vec<u64>, u64, ElementType),
    SparseError,
>)
    ensures
        match (r, spec_check_coo(shape@, *indices, *values)) {
            (Ok((dims, nnz, t)), Ok((sdims, snnz, st))) => dims@ == sdims && nnz == snnz && t
                == st,
            (Err(e), Err(se)) => e == se,
            _ => false,
        },
{
    let dims = match unsigned_shape(shape) {
        Some(d) => d,
        None => return Err(SparseError::NegativeDimension),
    };
    if !indices.c_contiguous {
        return Err(SparseError::NotContiguous(SparseArg::Indices));
    }
    if indices.dims.len() != 2 {
        return Err(SparseError::IndicesNotMatrix(indices.dims.len()));
    }
    let nnz = clamp(indices.dims[0]);
    let columns = clamp(indices.dims[1]);
    if columns != shape.len() as u64 {
        return Err(SparseError::IndicesRankMismatch { columns, rank: shape.len() });
    }
    match indices.element_type {
        None => return Err(SparseError::UnknownDtype(SparseArg::Indices)),
        Some(t) => {
            if t != ElementType::Uint64 {
                return Err(SparseError::IndexNotUint64(SparseArg::Indices, t));
            }
        },
    }
    if !values.c_contiguous {
        return Err(SparseError::NotContiguous(SparseArg::Values));
    }
    if values.dims.len() != 1 || clamp(values.dims[0]) != nnz {
        return Err(SparseError::ValuesShapeMismatch { nnz });
    }
    match values.element_type {
        None => Err(SparseError::UnknownDtype(SparseArg::Values)),
        Some(t) => Ok((dims, nnz, t)),
    }
}

/// The descriptor of a COO tensor: unsorted, values then indices, both host buffers.
pub fn coo_descriptor(t: ElementType, dims: Vec<u64>, nnz: u64, values_len: u64, indices_len: u64) -> (r:
    TensorDescriptor)
    ensures
        r.element_type == t,
        r.shape@ == dims@,
        r.byte_offset == 0,
        r.layout == (LayoutDescriptor::Coo { nnz, is_sorted: false }),
        spec_required_buffers(r.layout) == Some(r.buffers@.len()),
        r.buffers@ == seq![
            spec_handle_on(values_len, DeviceTag::Cpu, MemoryClass::Standard),
            spec_handle_on(indices_len, DeviceTag::Cpu, MemoryClass::Standard),
        ],
{
    let buffers = vec![host_handle(values_len), host_handle(indices_len)];
    TensorDescriptor {
        element_type: t,
        shape: dims,
        byte_offset: 0,
        layout: LayoutDescriptor::Coo { nnz, is_sorted: false },
        buffers,
    }
}

/// The three host handles of a compressed (CSR or CSC) tensor.
fn three_handles(values_len: u64, aux0_len: u64, aux1_len: u64) -> (r: Vec<BufferHandle>)
    ensures
        r@ == seq![
            spec_handle_on(values_len, DeviceTag::Cpu, MemoryClass::Standard),
            spec_handle_on(aux0_len, DeviceTag::Cpu, MemoryClass::Standard),
            spec_handle_on(aux1_len, DeviceTag::Cpu, MemoryClass::Standard),
        ],
{
    vec![host_handle(values_len), host_handle(aux0_len), host_handle(aux1_len)]
}

/// The descriptor of a CSR tensor: values, column indices, row pointers.
pub fn csr_descriptor(t: ElementType, dims: Vec<u64>, nnz: u64, values_len: u64, aux0_len: u64, aux1_len: u64) -> (r:
    TensorDescriptor)
    ensures
        r.element_type == t,
        r.shape@ == dims@,
        r.byte_offset == 0,
        r.layout == (LayoutDescriptor::Csr { nnz }),
        spec_required_buffers(r.layout) == Some(r.buffers@.len()),
        r.buffers@ == seq![
            spec_handle_on(values_len, DeviceTag::Cpu, MemoryClass::Standard),
            spec_handle_on(aux0_len, DeviceTag::Cpu, MemoryClass::Standard),
            spec_handle_on(aux1_len, DeviceTag::Cpu, MemoryClass::Standard),
        ],
{
    TensorDescriptor {
        element_type: t,
        shape: dims,
        byte_offset: 0,
        layout: LayoutDescriptor::Csr { nnz },
        buffers: three_handles(values_len, aux0_len, aux1_len),
    }
}

/// The descriptor of a CSC tensor: values, row indices, column pointers.
pub fn csc_descriptor(t: ElementType, dims: Vec<u64>, nnz: u64, values_len: u64, aux0_len: u64, aux1_len: u64) -> (r:
    TensorDescriptor)
    ensures
        r.element_type == t,
        r.shape@ == dims@,
        r.byte_offset == 0,
        r.layout == (LayoutDescriptor::Csc { nnz }),
        spec_required_buffers(r.layout) == Some(r.buffers@.len()),
        r.buffers@ == seq![
            spec_handle_on(values_len, DeviceTag::Cpu, MemoryClass::Standard),
            spec_handle_on(aux0_len, DeviceTag::Cpu, MemoryClass::Standard),
            spec_handle_on(aux1_len, DeviceTag::Cpu, MemoryClass::Standard),
        ],
{
    TensorDescriptor {
        element_type: t,
        shape: dims,
        byte_offset: 0,
        layout: LayoutDescriptor::Csc { nnz },
        buffers: three_handles(values_len, aux0_len, aux1_len),
    }
}

/// The compressed formats `from_scipy` accepts.
#[derive(Clone, Copy, Debug, PartialEq, Eq, Structural)]
pub enum CompressedFormat {
    Csr,
    Csc,
}

/// The outcome of `from_scipy`'s checks, in its order: the format name, the rank-2
/// shape, the dtypes of `.data`, `.indices` and `.indptr` (each must be known), and
/// both index arrays uint64. On success the format, rows, columns and value type.
pub open spec fn spec_check_scipy(
    format: Seq<char>,
    shape: Seq<i64>,
    data: Option<ElementType>,
    indices: Option<ElementType>,
    indptr: Option<ElementType>,
) -> Result<(CompressedFormat, u64, u64, ElementType), SparseError> {
    if format == "coo"@ {
        Err(SparseError::ScipyCoo)
    } else if format != "csr"@ && format != "csc"@ {
        Err(SparseError::ScipyFormat)
    } else if shape.len() != 2 {
        Err(SparseError::ScipyNotMatrix)
    } else if shape[0] < 0 || shape[1] < 0 {
        Err(SparseError::NegativeDimension)
    } else if data is None {
        Err(SparseError::UnknownDtype(SparseArg::Values))
    } else if indices is None {
        Err(SparseError::UnknownDtype(SparseArg::Indices))
    } else if indptr is None {
        Err(SparseError::UnknownDtype(SparseArg::Indptr))
    } else if indices != Some(ElementType::Uint64) {
        Err(SparseError::IndexNotUint64(SparseArg::Indices, indices->0))
    } else if indptr != Some(ElementType::Uint64) {
        Err(SparseError::IndexNotUint64(SparseArg::Indptr, indptr->0))
    } else {
        Ok(
            (
                if format == "csr"@ {
                    CompressedFormat::Csr
                } else {
                    CompressedFormat::Csc
                },
                shape[0] as u64,
                shape[1] as u64,
                data->0,
            ),
        )
    }
}

/// Check a SciPy matrix's format, shape and array dtypes.
pub fn check_scipy(
    format: &str,
    shape: &Vec<i64>,
    data: Option<ElementType>,
    indices: Option<ElementType>,
    indptr: Option<ElementType>,
) -> (r: Result<(CompressedFormat, u64, u64, ElementType), SparseError>)
    ensures
        r == spec_check_scipy(format@, shape@, data, indices, indptr),
        r matches Ok((f, rows, cols, t)) ==> {
            &&& shape@.len() == 2
            &&& rows as int == shape@[0]
            &&& cols as int == shape@[1]
            &&& data == Some(t)
        },
{
    proof {
        lemma_scipy_keeps_orientation(format@, shape@, data, indices, indptr);
    }
    if str_eq(format, "coo") {
        return Err(SparseError::ScipyCoo);
    }
    let is_csr = str_eq(format, "csr");
    if !is_csr && !str_eq(format, "csc") {
        return Err(SparseError::ScipyFormat);
    }
    if shape.len() != 2 {
        return Err(SparseError::ScipyNotMatrix);
    }
    if shape[0] < 0 || shape[1] < 0 {
        return Err(SparseError::NegativeDimension);
    }
    let t = match data {
        Some(t) => t,
        None => return Err(SparseError::UnknownDtype(SparseArg::Values)),
    };
    let it = match indices {
        Some(t) => t,
        None => return Err(SparseError::UnknownDtype(SparseArg::Indices)),
    };
    let pt = match indptr {
        Some(t) => t,
        None => return Err(SparseError::UnknownDtype(SparseArg::Indptr)),
    };
    if it != ElementType::Uint64 {
        return Err(SparseError::IndexNotUint64(SparseArg::Indices, it));
    }
    if pt != ElementType::Uint64 {
        return Err(SparseError::IndexNotUint64(SparseArg::Indptr, pt));
    }
    let f = if is_csr {
        CompressedFormat::Csr
    } else {
        CompressedFormat::Csc
    };
    Ok((f, shape[0] as u64, shape[1] as u64, t))
}

/// On success `from_scipy` keeps the matrix as SciPy holds it: the rows are the
/// shape's first extent and the columns its second, for CSR and CSC alike; the values
/// keep the type of `.data`; and the format is the one named.
pub proof fn lemma_scipy_keeps_orientation(
    format: Seq<char>,
    shape: Seq<i64>,
    data: Option<ElementType>,
    indices: Option<ElementType>,
    indptr: Option<ElementType>,
)
    ensures
        spec_check_scipy(format, shape, data, indices, indptr) matches Ok((f, rows, cols, t))
            ==> {
            &&& shape.len() == 2
            &&& rows as int == shape[0]
            &&& cols as int == shape[1]
            &&& data == Some(t)
            &&& (f == CompressedFormat::Csr <==> format == "csr"@)
            &&& (f == CompressedFormat::Csc <==> format == "csc"@)
        },
{
    reveal_strlit("csr");
    reveal_strlit("csc");
    assert("csr"@[2] != "csc"@[2]);
    assert("csr"@ != "csc"@);
}

// ── repr ─────────────────────────────────────────────────────────────────────

/// The stored-element count of a sparse layout.
pub open spec fn spec_sparse_nnz(l: LayoutDescriptor) -> u64 {
    match l {
        LayoutDescriptor::Coo { nnz, .. } => nnz,
        LayoutDescriptor::Csr { nnz } => nnz,
        LayoutDescriptor::Csc { nnz } => nnz,
        _ => 0,
    }
}

/// The metadata every sparse `repr` starts with (without its closing bracket).
pub open spec fn spec_sparse_metadata(l: LayoutDescriptor, dims: Seq<u64>, t: ElementType) -> Seq<char> {
    "hurray.Tensor(layout='"@ + spec_layout_name(l) + "', shape="@ + shape_repr(dims) + ", nnz="@
        + decimal(spec_sparse_nnz(l) as nat) + ", dtype="@ + element_name(t)
}

/// The component arrays of content mode, each already rendered: for COO `first` is
/// the indices; for CSR the column indices then row pointers; for CSC the row indices
/// then column pointers.
pub struct SparseContent {
    pub values: String,
    pub first: String,
    pub second: String,
}

/// The content part of a sparse `repr`, per layout.
pub open spec fn spec_content_part(l: LayoutDescriptor, c: SparseContent) -> Seq<char> {
    match l {
        LayoutDescriptor::Coo { .. } => "indices="@ + c.first@ + ", values="@ + c.values@,
        LayoutDescriptor::Csr { .. } => "values="@ + c.values@ + ", col_indices="@ + c.first@
            + ", row_ptr="@ + c.second@,
        _ => "values="@ + c.values@ + ", row_indices="@ + c.first@ + ", col_ptr="@ + c.second@,
    }
}

/// The `repr` of a sparse tensor: metadata only, or metadata followed by the rendered
/// component arrays when content display is on and rendering succeeded.
pub open spec fn spec_sparse_repr(
    l: LayoutDescriptor,
    dims: Seq<u64>,
    t: ElementType,
    content: Option<SparseContent>,
) -> Seq<char> {
    match content {
        None => spec_sparse_metadata(l, dims, t) + ")"@,
        Some(c) => spec_sparse_metadata(l, dims, t) + ", "@ + spec_content_part(l, c) + ")"@,
    }
}

/// Build the `repr` of a COO, CSR or CSC tensor.
pub fn sparse_repr(
    l: &LayoutDescriptor,
    dims: &Vec<u64>,
    t: ElementType,
    content: Option<SparseContent>,
) -> (r: String)
    requires
        *l is Coo || *l is Csr || *l is Csc,
    ensures
        r@ == spec_sparse_repr(*l, dims@, t, content),
{
    let nnz = match l {
        LayoutDescriptor::Coo { nnz, .. } => *nnz,
        LayoutDescriptor::Csr { nnz } => *nnz,
        LayoutDescriptor::Csc { nnz } => *nnz,
        _ => 0,
    };
    let mut s = String::new();
    s.append("hurray.Tensor(layout='");
    s.append(layout_name(l));
    s.append("', shape=");
    push_shape(&mut s, dims);
    s.append(", nnz=");
    push_decimal(&mut s, nnz);
    s.append(", dtype=");
    s.append(element_type_name(t));
    proof {
        reveal_strlit("hurray.Tensor(layout='");
        reveal_strlit("', shape=");
        reveal_strlit(", nnz=");
        reveal_strlit(", dtype=");
        reveal_strlit(")");
        reveal_strlit(", ");
        reveal_strlit("indices=");
        reveal_strlit(", values=");
        reveal_strlit("values=");
        reveal_strlit(", col_indices=");
        reveal_strlit(", row_ptr=");
        reveal_strlit(", row_indices=");
        reveal_strlit(", col_ptr=");
    }
    assert(s@ =~= spec_sparse_metadata(*l, dims@, t));
    match content {
        None => {
            s.append(")");
        },
        Some(c) => {
            s.append(", ");
            match l {
                LayoutDescriptor::Coo { .. } => {
                    s.append("indices=");
                    s.append(c.first.as_str());
                    s.append(", values=");
                    s.append(c.values.as_str());
                },
                LayoutDescriptor::Csr { .. } => {
                    s.append("values=");
                    s.append(c.values.as_str());
                    s.append(", col_indices=");
                    s.append(c.first.as_str());
                    s.append(", row_ptr=");
                    s.append(c.second.as_str());
                },
                _ => {
                    s.append("values=");
                    s.append(c.values.as_str());
                    s.append(", row_indices=");
                    s.append(c.first.as_str());
                    s.append(", col_ptr=");
                    s.append(c.second.as_str());
                },
            }
            s.append(")");
        },
    }
    assert(s@ =~= spec_sparse_repr(*l, dims@, t, content));
    s
}

} // verus!
