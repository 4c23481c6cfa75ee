use hurray::creation::{
    check_asarray_dtype, check_linspace, encode_int_scalar, eye, eye_dims, fill_eye, fill_eye_bool,
    fill_ones, full, infer_scalar_dtype, ones, parse_shape, to_numpy_dtype_name, zeros,
    zeros_like, CreationError, FillValue, IntOutOfRange, ScalarKind,
};
use hurray::descriptor::SyncMode;
use hurray::device::{Device, DeviceTag, MemoryClass};
use hurray::dtype::{buffer_size_bytes, ElementType};
use hurray::errors::ErrorClass;
use hurray::layout::LayoutDescriptor;

#[test]
fn zeros_float64_default_dtype() {
    let t = zeros(&vec![2, 3], None, None).unwrap();
    assert_eq!(t.descriptor.element_type, ElementType::Float64);
    assert_eq!(t.descriptor.shape, vec![2, 3]);
    let buf_size = buffer_size_bytes(ElementType::Float64, 6) as usize;
    assert_eq!(t.data.len(), buf_size);
    assert!(t.data.iter().all(|&b| b == 0));
}

#[test]
fn ones_float32_pattern() {
    let t = ones(&vec![2], Some(ElementType::Float32), None).unwrap();
    assert_eq!(&t.data[0..4], &[0x00, 0x00, 0x80, 0x3f]);
    assert_eq!(&t.data[4..8], &[0x00, 0x00, 0x80, 0x3f]);
}

#[test]
fn ones_bool_bit_packing() {
    let t = ones(&vec![9], Some(ElementType::Bool), None).unwrap();
    assert_eq!(t.data.len(), 2);
    assert_eq!(t.data[0], 0xFF);
    assert_eq!(t.data[1], 0x01);
}

#[test]
fn full_int32_scalar() {
    let encoded = encode_int_scalar(ElementType::Int32, 42).unwrap();
    let t = full(
        &vec![3],
        ScalarKind::Int,
        &FillValue::Encoded(encoded),
        Some(ElementType::Int32),
        None,
    )
    .unwrap();
    assert_eq!(&t.data[0..4], &[0x2a, 0x00, 0x00, 0x00]);
    assert_eq!(t.data.len(), 12);
}

#[test]
fn eye_3x3_float64() {
    let t = eye(3, None, 0, None, None).unwrap();
    assert_eq!(t.descriptor.shape, vec![3, 3]);
    assert_eq!(&t.data[0..8], &1.0f64.to_le_bytes());
    assert_eq!(&t.data[8..16], &0.0f64.to_le_bytes());
    assert_eq!(&t.data[32..40], &1.0f64.to_le_bytes());
}

#[test]
fn eye_bool_diagonal() {
    let t = eye(3, None, 0, Some(ElementType::Bool), None).unwrap();
    assert_eq!(t.data.len(), 2);
    assert_eq!(t.data[0], 0x11);
    assert_eq!(t.data[1], 0x01);
}

#[test]
fn tier2_dtype_rejected() {
    let result = zeros(&vec![4], Some(ElementType::Int4), None);
    let err = result.err().unwrap();
    assert_eq!(err, CreationError::Tier2(ElementType::Int4));
    assert_eq!(err.class(), ErrorClass::Unsupported);
}

#[test]
fn zeros_empty_shape() {
    let t = zeros(&vec![0], None, None).unwrap();
    assert_eq!(t.data.len(), 0);
    // An empty buffer declares alignment 1.
    assert_eq!(t.descriptor.buffers[0].alignment, 1);
}

#[test]
fn owned_tensor_declares_the_alignment_floor_and_device() {
    let dev = Device { tag: DeviceTag::Cuda, memory_class: MemoryClass::Unified, device_id: 0 };
    let t = zeros(&vec![4], Some(ElementType::Int8), Some(dev)).unwrap();
    let h = t.descriptor.buffers[0];
    assert_eq!(h.byte_size, 4);
    assert_eq!(h.alignment, 64);
    assert_eq!(h.device_tag, DeviceTag::Cuda);
    assert_eq!(h.memory_class, MemoryClass::Unified);
    assert_eq!(h.sync_mode, SyncMode::ProducerSynced);
    assert!(matches!(t.descriptor.layout, LayoutDescriptor::RowMajor));
    assert_eq!(t.descriptor.byte_offset, 0);
}

#[test]
fn negative_dimension_is_refused_at_the_first_one() {
    assert_eq!(parse_shape(&vec![2, -3, -4]).err(), Some(CreationError::NegativeDimension(-3)));
    let err = zeros(&vec![-1], None, None).err().unwrap();
    assert_eq!(err, CreationError::NegativeDimension(-1));
    assert_eq!(err.class(), ErrorClass::InvalidDescriptor);
}

#[test]
fn tier2_is_checked_before_the_shape() {
    assert_eq!(
        zeros(&vec![-1], Some(ElementType::Uint2), None).err(),
        Some(CreationError::Tier2(ElementType::Uint2))
    );
}

#[test]
fn ones_bool_padding_bits_stay_clear() {
    assert_eq!(fill_ones(ElementType::Bool, 3), vec![0x07]);
    assert_eq!(fill_ones(ElementType::Bool, 16), vec![0xFF, 0xFF]);
    assert_eq!(fill_ones(ElementType::Bool, 0), Vec::<u8>::new());
}

#[test]
fn ones_encodings_of_half_and_complex() {
    assert_eq!(fill_ones(ElementType::Float16, 1), vec![0x00, 0x3c]);
    assert_eq!(fill_ones(ElementType::BFloat16, 1), vec![0x80, 0x3f]);
    assert_eq!(
        fill_ones(ElementType::Complex64, 1),
        vec![0x00, 0x00, 0x80, 0x3f, 0, 0, 0, 0]
    );
}

#[test]
fn full_infers_the_type_from_the_value() {
    assert_eq!(infer_scalar_dtype(ScalarKind::Bool), Ok(ElementType::Bool));
    assert_eq!(infer_scalar_dtype(ScalarKind::Int), Ok(ElementType::Int64));
    assert_eq!(infer_scalar_dtype(ScalarKind::Float), Ok(ElementType::Float64));
    assert_eq!(infer_scalar_dtype(ScalarKind::Complex), Ok(ElementType::Complex128));
    let err = full(&vec![2], ScalarKind::Other, &FillValue::Bool(true), None, None).err().unwrap();
    assert_eq!(err, CreationError::UninferableScalar);
    // A complex fill value infers complex128, which constructors refuse as Tier 2.
    let bytes = vec![0u8; 16];
    assert_eq!(
        full(&vec![1], ScalarKind::Complex, &FillValue::Encoded(bytes), None, None).err(),
        Some(CreationError::Tier2(ElementType::Complex128))
    );
}

#[test]
fn full_bool_false_is_all_zero_and_true_masks_padding() {
    let t = full(&vec![10], ScalarKind::Bool, &FillValue::Bool(false), None, None).unwrap();
    assert_eq!(t.data, vec![0, 0]);
    let t = full(&vec![10], ScalarKind::Bool, &FillValue::Bool(true), None, None).unwrap();
    assert_eq!(t.data, vec![0xFF, 0x03]);
    assert_eq!(t.descriptor.element_type, ElementType::Bool);
}

#[test]
fn integer_fill_values_are_little_endian_twos_complement() {
    assert_eq!(encode_int_scalar(ElementType::Int16, -2), Ok(vec![0xFE, 0xFF]));
    assert_eq!(encode_int_scalar(ElementType::Uint8, 255), Ok(vec![0xFF]));
    assert_eq!(encode_int_scalar(ElementType::Uint8, 256), Err(IntOutOfRange));
    assert_eq!(encode_int_scalar(ElementType::Int8, -129), Err(IntOutOfRange));
    assert_eq!(encode_int_scalar(ElementType::Uint64, -1), Err(IntOutOfRange));
    assert_eq!(
        encode_int_scalar(ElementType::Int64, -1),
        Ok(vec![0xFF; 8])
    );
    assert_eq!(
        encode_int_scalar(ElementType::Uint32, 0x0102_0304),
        Ok(vec![0x04, 0x03, 0x02, 0x01])
    );
}

#[test]
fn eye_offsets_and_rectangles() {
    // k = 1 on a 2x3 int8 matrix: ones at (0,1) and (1,2).
    assert_eq!(fill_eye(2, 3, 1, ElementType::Int8), vec![0, 1, 0, 0, 0, 1]);
    // k = -1 on a 3x2 matrix: ones at (1,0) and (2,1).
    assert_eq!(fill_eye(3, 2, -1, ElementType::Uint8), vec![0, 0, 1, 0, 0, 1]);
    // A boolean 2x5 eye: bits 0 and 6.
    assert_eq!(fill_eye_bool(2, 5, 0), vec![0x41, 0x00]);
    let t = eye(2, Some(5), 0, Some(ElementType::Bool), None).unwrap();
    assert_eq!(t.descriptor.shape, vec![2, 5]);
}

#[test]
fn eye_counts_must_not_be_negative() {
    assert_eq!(eye_dims(-2, None), Err(CreationError::NegativeCount(-2)));
    assert_eq!(eye_dims(2, Some(-1)), Err(CreationError::NegativeCount(-1)));
    assert_eq!(eye_dims(2, None), Ok((2, 2)));
    assert_eq!(eye(-1, None, 0, None, None).err(), Some(CreationError::NegativeCount(-1)));
}

#[test]
fn sequences_cannot_be_boolean() {
    assert_eq!(check_linspace(5, ElementType::Bool), Err(CreationError::BoolSequence));
    assert_eq!(check_linspace(-1, ElementType::Bool), Err(CreationError::NegativeCount(-1)));
    assert_eq!(check_linspace(4, ElementType::Int4), Err(CreationError::Tier2(ElementType::Int4)));
    assert_eq!(check_linspace(4, ElementType::Float64), Ok(4));
    assert_eq!(CreationError::BoolSequence.class(), ErrorClass::Unsupported);
}

#[test]
fn asarray_refuses_bfloat16_and_names_numpy_dtypes() {
    assert_eq!(check_asarray_dtype(ElementType::BFloat16), Err(CreationError::Bfloat16Target));
    assert_eq!(check_asarray_dtype(ElementType::Float16), Ok(()));
    assert_eq!(to_numpy_dtype_name(ElementType::Float16), Some("float16"));
    assert_eq!(to_numpy_dtype_name(ElementType::Bool), Some("bool"));
    assert_eq!(to_numpy_dtype_name(ElementType::Complex128), Some("complex128"));
    assert_eq!(to_numpy_dtype_name(ElementType::BFloat16), None);
    assert_eq!(to_numpy_dtype_name(ElementType::Int4), None);
}

#[test]
fn like_constructors_inherit_type_shape_and_device() {
    let x = zeros(&vec![2, 2], Some(ElementType::Int16), None).unwrap();
    let dev = Device { tag: DeviceTag::Metal, memory_class: MemoryClass::Standard, device_id: 0 };
    let y = zeros_like(&x.descriptor, dev, None, None).unwrap();
    assert_eq!(y.descriptor.element_type, ElementType::Int16);
    assert_eq!(y.descriptor.shape, vec![2, 2]);
    assert_eq!(y.data.len(), 8);
    assert_eq!(y.descriptor.buffers[0].device_tag, DeviceTag::Metal);
    assert_eq!(
        zeros_like(&x.descriptor, dev, Some(ElementType::Int4), None).err(),
        Some(CreationError::Tier2(ElementType::Int4))
    );
}
