use hurray::descriptor::{SyncMode, TensorDescriptor};
use hurray::device::{DeviceTag, MemoryClass};
use hurray::dtype::ElementType;
use hurray::errors::ErrorClass;
use hurray::layout::validate::{buffer_minimums, buffer_role, validate_against_shape, ShapeError};
use hurray::layout::{BlockPagedLayout, BlockTableIndexType, KvRole, LayoutDescriptor};
use hurray::print_options::{
    get_sparse_display, set_print_options, sparse_display_is_content, sparse_display_var,
    InvalidSparseDisplay, PrintOptionsCtx,
};
use hurray::sparse::{
    check_coo, check_scipy, coo_descriptor, csc_descriptor, csr_descriptor, sparse_repr,
    ArrayInfo, CompressedFormat, SparseArg, SparseContent, SparseError,
};

#[test]
fn dense_minimum_is_the_whole_element_grid() {
    let minimums = buffer_minimums(&LayoutDescriptor::RowMajor, &vec![2, 3], ElementType::Float32);
    assert_eq!(minimums, vec![Some(24)]);
}

#[test]
fn coo_sizes_both_of_its_buffers() {
    let layout = LayoutDescriptor::Coo { nnz: 3, is_sorted: false };
    assert_eq!(
        buffer_minimums(&layout, &vec![2, 2], ElementType::Float32),
        vec![Some(12), Some(48)]
    );
}

#[test]
fn csr_row_ptr_has_one_entry_per_row_plus_one() {
    let layout = LayoutDescriptor::Csr { nnz: 4 };
    assert_eq!(
        buffer_minimums(&layout, &vec![3, 5], ElementType::Float32),
        vec![Some(16), Some(32), Some(32)]
    );
}

#[test]
fn csc_col_ptr_uses_the_second_dimension() {
    let layout = LayoutDescriptor::Csc { nnz: 4 };
    assert_eq!(
        buffer_minimums(&layout, &vec![3, 5], ElementType::Float32),
        vec![Some(16), Some(32), Some(48)]
    );
}

#[test]
fn csf_sizes_only_what_the_descriptor_states() {
    let layout = LayoutDescriptor::Csf { nnz: 4, mode_order: vec![0, 1, 2] };
    let minimums = buffer_minimums(&layout, &vec![2, 3, 4], ElementType::Float32);
    assert_eq!(minimums.len(), 7, "2 * rank + 1 buffers");
    assert_eq!(minimums[0], Some(16), "values: nnz * 4 bytes");
    assert_eq!(minimums[1], Some(16), "pos_0 is always two entries");
    assert_eq!(minimums[6], Some(32), "leaf crd: one entry per non-zero");
    assert_eq!(minimums[2], None);
    assert_eq!(minimums[3], None);
    assert_eq!(minimums[4], None);
    assert_eq!(minimums[5], None);
}

#[test]
fn block_paged_cannot_size_its_block_table() {
    let layout = LayoutDescriptor::BlockPaged {
        paged: BlockPagedLayout {
            page_size: 2,
            num_pages: 2,
            paged_axis: 0,
            num_seqs: 1,
            kv_role: KvRole::Key,
            layer_index: None,
            block_table_index_type: BlockTableIndexType::U32,
        },
    };
    let minimums = buffer_minimums(&layout, &vec![4, 2], ElementType::Float32);
    assert_eq!(minimums[0], Some(32));
    assert_eq!(minimums[1], None);
    assert_eq!(minimums[2], Some(8));
}

#[test]
fn an_extension_layout_declares_no_sizes() {
    let layout = LayoutDescriptor::Unknown { tag: 0x0C, raw_bytes: vec![] };
    assert!(buffer_minimums(&layout, &vec![4], ElementType::Float32).is_empty());
}

#[test]
fn buffer_roles_name_the_spec_fields() {
    let csr = LayoutDescriptor::Csr { nnz: 1 };
    assert_eq!(buffer_role(&csr, 0), "values");
    assert_eq!(buffer_role(&csr, 1), "col_indices");
    assert_eq!(buffer_role(&csr, 2), "row_ptr");
    let csf = LayoutDescriptor::Csf { nnz: 1, mode_order: vec![0, 1, 2] };
    assert_eq!(buffer_role(&csf, 1), "pos");
    assert_eq!(buffer_role(&csf, 2), "crd");
}

fn info(c_contiguous: bool, dims: Vec<i64>, t: Option<ElementType>) -> ArrayInfo {
    ArrayInfo { c_contiguous, dims, element_type: t }
}

fn make_csr() -> TensorDescriptor {
    csr_descriptor(ElementType::Float32, vec![3, 3], 4, 16, 32, 32)
}

#[test]
fn sparse_coo_constructs_from_packed_arrays() {
    let values = info(true, vec![2], Some(ElementType::Float32));
    let indices = info(true, vec![2, 2], Some(ElementType::Uint64));
    let (dims, nnz, t) = check_coo(&vec![2, 2], &indices, &values).unwrap();
    let d = coo_descriptor(t, dims, nnz, 8, 32);
    assert!(matches!(d.layout, LayoutDescriptor::Coo { nnz: 2, is_sorted: false }));
    assert_eq!(d.ndim(), 2);
    assert_eq!(d.buffers.len(), 2);
    assert_eq!(d.element_type, ElementType::Float32);
}

#[test]
fn sparse_coo_rejects_non_uint64_indices() {
    let values = info(true, vec![1], Some(ElementType::Float64));
    let indices = info(true, vec![1, 2], Some(ElementType::Int32));
    let err = check_coo(&vec![2, 2], &indices, &values).err().unwrap();
    assert_eq!(err, SparseError::IndexNotUint64(SparseArg::Indices, ElementType::Int32));
    assert_eq!(err.class(), ErrorClass::Unsupported);
}

#[test]
fn sparse_coo_checks_in_order() {
    let good_v = info(true, vec![3], Some(ElementType::Float32));
    let good_i = info(true, vec![3, 2], Some(ElementType::Uint64));
    assert_eq!(
        check_coo(&vec![2, -2], &good_i, &good_v).err(),
        Some(SparseError::NegativeDimension)
    );
    assert_eq!(
        check_coo(&vec![2, 2], &info(false, vec![3, 2], None), &good_v).err(),
        Some(SparseError::NotContiguous(SparseArg::Indices))
    );
    assert_eq!(
        check_coo(&vec![2, 2], &info(true, vec![6], None), &good_v).err(),
        Some(SparseError::IndicesNotMatrix(1))
    );
    assert_eq!(
        check_coo(&vec![2, 2, 2], &good_i, &good_v).err(),
        Some(SparseError::IndicesRankMismatch { columns: 2, rank: 3 })
    );
    assert_eq!(
        check_coo(&vec![2, 2], &info(true, vec![3, 2], None), &good_v).err(),
        Some(SparseError::UnknownDtype(SparseArg::Indices))
    );
    assert_eq!(
        check_coo(&vec![2, 2], &good_i, &info(false, vec![3], None)).err(),
        Some(SparseError::NotContiguous(SparseArg::Values))
    );
    assert_eq!(
        check_coo(&vec![2, 2], &good_i, &info(true, vec![4], None)).err(),
        Some(SparseError::ValuesShapeMismatch { nnz: 3 })
    );
    assert_eq!(
        check_coo(&vec![2, 2], &good_i, &info(true, vec![3], None)).err(),
        Some(SparseError::UnknownDtype(SparseArg::Values))
    );
    // Negative array extents read as zero.
    let empty_i = info(true, vec![-5, 2], Some(ElementType::Uint64));
    let empty_v = info(true, vec![0], Some(ElementType::Int8));
    assert_eq!(check_coo(&vec![2, 2], &empty_i, &empty_v).unwrap().1, 0);
}

#[test]
fn from_scipy_rejects_coo() {
    let err = check_scipy("coo", &vec![3, 3], None, None, None).err().unwrap();
    assert_eq!(err, SparseError::ScipyCoo);
    assert_eq!(err.class(), ErrorClass::Unsupported);
}

#[test]
fn from_scipy_rejects_lil() {
    let err = check_scipy("lil", &vec![2, 2], None, None, None).err().unwrap();
    assert_eq!(err, SparseError::ScipyFormat);
    assert_eq!(err.class(), ErrorClass::Unsupported);
}

#[test]
fn from_scipy_rejects_non_uint64_indices() {
    let r = check_scipy(
        "csr",
        &vec![2, 2],
        Some(ElementType::Float32),
        Some(ElementType::Int32),
        Some(ElementType::Int32),
    );
    let err = r.err().unwrap();
    assert_eq!(err, SparseError::IndexNotUint64(SparseArg::Indices, ElementType::Int32));
    assert_eq!(err.class(), ErrorClass::Unsupported);
}

#[test]
fn from_scipy_csr_succeeds_with_uint64_indices() {
    let r = check_scipy(
        "csr",
        &vec![2, 2],
        Some(ElementType::Float32),
        Some(ElementType::Uint64),
        Some(ElementType::Uint64),
    )
    .unwrap();
    assert_eq!(r, (CompressedFormat::Csr, 2, 2, ElementType::Float32));
    let d = csr_descriptor(r.3, vec![r.1, r.2], 2, 8, 16, 24);
    assert!(matches!(d.layout, LayoutDescriptor::Csr { nnz: 2 }));
    assert_eq!(d.buffers.len(), 3);
}

#[test]
fn scipy_shape_and_dtype_checks() {
    assert_eq!(
        check_scipy("csc", &vec![2, 2, 2], None, None, None).err(),
        Some(SparseError::ScipyNotMatrix)
    );
    assert_eq!(
        check_scipy("csc", &vec![2, -2], None, None, None).err(),
        Some(SparseError::NegativeDimension)
    );
    assert_eq!(
        check_scipy("csc", &vec![2, 2], Some(ElementType::Int8), Some(ElementType::Uint64), None).err(),
        Some(SparseError::UnknownDtype(SparseArg::Indptr))
    );
    let ok = check_scipy(
        "csc",
        &vec![4, 5],
        Some(ElementType::Int8),
        Some(ElementType::Uint64),
        Some(ElementType::Uint64),
    );
    assert_eq!(ok, Ok((CompressedFormat::Csc, 4, 5, ElementType::Int8)));
}

#[test]
fn csr_properties() {
    let d = make_csr();
    assert_eq!(hurray::layout::layout_name(&d.layout), "csr");
    assert_eq!(d.ndim(), 2);
    assert!(matches!(d.layout, LayoutDescriptor::Csr { nnz: 4 }));
}

#[test]
fn csr_repr_contains_fields() {
    let d = make_csr();
    let r = sparse_repr(&d.layout, &d.shape, d.element_type, None);
    assert!(r.contains("csr"), "repr should contain format");
    assert!(r.contains("float32"), "repr should contain dtype");
    assert!(r.contains("nnz=4"), "repr should contain nnz");
    assert!(!r.contains("hurray.Dtype"), "repr dtype should be unquoted");
    assert_eq!(r, "hurray.Tensor(layout='csr', shape=(3, 3), nnz=4, dtype=float32)");
}

#[test]
fn default_display_is_metadata_csr() {
    let var = sparse_display_var();
    assert!(!sparse_display_is_content(&var));
    let d = make_csr();
    let r = sparse_repr(&d.layout, &d.shape, d.element_type, None);
    assert!(r.starts_with("hurray.Tensor("));
    assert!(r.contains("layout='csr'"));
    assert!(r.contains("nnz=4"));
    assert!(r.contains("dtype=float32"));
    assert!(!r.contains("values="));
    assert!(!r.contains("col_indices="));
    assert!(!r.contains("row_ptr="));
}

#[test]
fn default_display_is_metadata_coo() {
    let var = sparse_display_var();
    assert!(!sparse_display_is_content(&var));
    let d = coo_descriptor(ElementType::Float32, vec![2, 2], 2, 8, 32);
    let r = sparse_repr(&d.layout, &d.shape, d.element_type, None);
    assert!(r.contains("layout='coo'"));
    assert!(!r.contains("indices="));
    assert!(!r.contains("values="));
}

#[test]
fn default_display_is_metadata_csc() {
    let var = sparse_display_var();
    assert!(!sparse_display_is_content(&var));
    let d = csc_descriptor(ElementType::Float32, vec![2, 2], 2, 8, 16, 24);
    let r = sparse_repr(&d.layout, &d.shape, d.element_type, None);
    assert!(r.contains("layout='csc'"));
    assert!(!r.contains("values="));
    assert!(!r.contains("row_indices="));
    assert!(!r.contains("col_ptr="));
}

fn content(values: &str, first: &str, second: &str) -> SparseContent {
    SparseContent {
        values: values.to_string(),
        first: first.to_string(),
        second: second.to_string(),
    }
}

#[test]
fn content_mode_csr_contextvar_is_set_and_repr_does_not_raise() {
    let mut var = sparse_display_var();
    set_print_options(&mut var, Some("content")).unwrap();
    assert!(sparse_display_is_content(&var));
    let d = make_csr();
    let r = sparse_repr(
        &d.layout,
        &d.shape,
        d.element_type,
        Some(content("[1. 2. 3. 4.]", "[0 2 1 2]", "[0 1 3 4]")),
    );
    assert!(r.contains("layout='csr'"));
    assert!(r.contains("nnz=4"));
    assert!(r.contains("dtype=float32"));
    assert!(r.contains("values=[1. 2. 3. 4.]"));
    assert!(r.contains("col_indices=[0 2 1 2]"));
    assert!(r.contains("row_ptr=[0 1 3 4]"));
}

#[test]
fn content_mode_coo_contextvar_is_set_and_repr_does_not_raise() {
    let mut var = sparse_display_var();
    set_print_options(&mut var, Some("content")).unwrap();
    assert!(sparse_display_is_content(&var));
    let d = coo_descriptor(ElementType::Float32, vec![2, 2], 2, 8, 32);
    let r = sparse_repr(
        &d.layout,
        &d.shape,
        d.element_type,
        Some(content("[5. 7.]", "[[0 0]\n [1 1]]", "")),
    );
    assert_eq!(
        r,
        "hurray.Tensor(layout='coo', shape=(2, 2), nnz=2, dtype=float32, indices=[[0 0]\n [1 1]], values=[5. 7.])"
    );
}

#[test]
fn content_mode_csc_contextvar_is_set_and_repr_does_not_raise() {
    let mut var = sparse_display_var();
    set_print_options(&mut var, Some("content")).unwrap();
    assert!(sparse_display_is_content(&var));
    let d = csc_descriptor(ElementType::Float32, vec![2, 2], 2, 8, 16, 24);
    let r = sparse_repr(&d.layout, &d.shape, d.element_type, Some(content("[3. 6.]", "[0 1]", "[0 1 2]")));
    assert!(r.contains("values=[3. 6.], row_indices=[0 1], col_ptr=[0 1 2]"));
}

#[test]
fn get_print_options_returns_metadata_by_default() {
    let var = sparse_display_var();
    assert_eq!(get_sparse_display(&var), "metadata");
}

#[test]
fn get_print_options_reflects_content_after_set() {
    let mut var = sparse_display_var();
    set_print_options(&mut var, Some("content")).unwrap();
    assert_eq!(get_sparse_display(&var), "content");
    set_print_options(&mut var, None).unwrap();
    assert_eq!(get_sparse_display(&var), "content");
}

#[test]
fn print_options_ctx_scopes_and_restores() {
    let mut var = sparse_display_var();
    assert!(!sparse_display_is_content(&var));
    let mut ctx = PrintOptionsCtx::new(Some("content")).unwrap();
    ctx.enter(&mut var);
    assert!(sparse_display_is_content(&var));
    assert!(!ctx.exit(&mut var));
    assert!(!sparse_display_is_content(&var));
}

#[test]
fn print_options_ctx_nested_restores_correctly() {
    let mut var = sparse_display_var();
    let mut outer = PrintOptionsCtx::new(Some("content")).unwrap();
    outer.enter(&mut var);
    assert!(sparse_display_is_content(&var));
    let mut inner = PrintOptionsCtx::new(Some("metadata")).unwrap();
    inner.enter(&mut var);
    assert!(!sparse_display_is_content(&var));
    inner.exit(&mut var);
    assert!(sparse_display_is_content(&var));
    outer.exit(&mut var);
    assert!(!sparse_display_is_content(&var));
}

#[test]
fn set_print_options_invalid_value_raises_value_error() {
    let mut var = sparse_display_var();
    let result = set_print_options(&mut var, Some("foo"));
    assert_eq!(result, Err(InvalidSparseDisplay));
    assert_eq!(InvalidSparseDisplay.class(), ErrorClass::Value);
    assert_eq!(get_sparse_display(&var), "metadata");
}

#[test]
fn print_options_ctx_invalid_value_raises_value_error() {
    let result = PrintOptionsCtx::new(Some("bad"));
    assert!(result.is_err());
    assert_eq!(result.err().unwrap().class(), ErrorClass::Value);
}

#[test]
fn print_options_ctx_without_an_option_changes_nothing() {
    let mut var = sparse_display_var();
    set_print_options(&mut var, Some("content")).unwrap();
    let mut ctx = PrintOptionsCtx::new(None).unwrap();
    ctx.enter(&mut var);
    assert!(sparse_display_is_content(&var));
    ctx.exit(&mut var);
    assert!(sparse_display_is_content(&var));
}

#[test]
fn sparse_buffers_are_host_handles_in_descriptor_order() {
    let d = csc_descriptor(ElementType::Float32, vec![2, 2], 2, 8, 0, 24);
    assert_eq!(d.buffers[0].byte_size, 8);
    assert_eq!(d.buffers[1].byte_size, 0);
    assert_eq!(d.buffers[1].alignment, 1);
    assert_eq!(d.buffers[2].alignment, 64);
    assert_eq!(d.buffers[2].device_tag, DeviceTag::Cpu);
    assert_eq!(d.buffers[2].memory_class, MemoryClass::Standard);
    assert_eq!(d.buffers[2].sync_mode, SyncMode::ProducerSynced);
}

#[test]
fn negative_and_zero_strides_are_valid() {
    let l = LayoutDescriptor::Strided { strides: vec![-3, 0, 1] };
    assert_eq!(validate_against_shape(&l, &vec![2, 4, 3]), Ok(()));
    assert_eq!(validate_against_shape(&l, &vec![2, 4]), Err(ShapeError::StridesRank));
}
