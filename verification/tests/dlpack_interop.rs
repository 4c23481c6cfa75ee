use hurray::dlpack::{
    device_to_dlpack, element_type_to_dlpack, plan_dlpack, strides_for_layout, DLDeviceType,
    DlpackError,
};
use hurray::device::{DeviceTag, MemoryClass};
use hurray::dtype::ElementType;
use hurray::errors::ErrorClass;
use hurray::interop::{numpy_descriptor, numpy_typestr_to_element_type, NumpyImportError};
use hurray::layout::LayoutDescriptor;
use hurray::layout::validate::DYNAMIC;

#[test]
fn float32_maps_to_dlpack() {
    let dt = element_type_to_dlpack(ElementType::Float32).unwrap();
    assert_eq!(dt.code, 2);
    assert_eq!(dt.bits, 32);
    assert_eq!(dt.lanes, 1);
}

#[test]
fn bfloat16_maps_to_dlpack() {
    let dt = element_type_to_dlpack(ElementType::BFloat16).unwrap();
    assert_eq!(dt.code, 4);
    assert_eq!(dt.bits, 16);
}

#[test]
fn complex128_maps_to_dlpack() {
    let dt = element_type_to_dlpack(ElementType::Complex128).unwrap();
    assert_eq!(dt.code, 5);
    assert_eq!(dt.bits, 128);
}

#[test]
fn bool_has_no_dlpack_mapping() {
    assert!(element_type_to_dlpack(ElementType::Bool).is_none());
}

#[test]
fn int4_has_no_dlpack_mapping() {
    assert!(element_type_to_dlpack(ElementType::Int4).is_none());
}

#[test]
fn row_major_returns_null_strides() {
    let result = strides_for_layout(&LayoutDescriptor::RowMajor, &vec![2, 3]);
    assert!(result.is_none());
}

#[test]
fn column_major_strides() {
    let result = strides_for_layout(&LayoutDescriptor::ColMajor, &vec![2, 3]).unwrap();
    assert_eq!(result, vec![1, 2]);
}

#[test]
fn cpu_standard_dlpack_device() {
    let code = device_to_dlpack(DeviceTag::Cpu, MemoryClass::Standard).unwrap();
    assert_eq!(code, DLDeviceType::Cpu.code());
    assert_eq!(code, 1);
}

#[test]
fn rocm_unified_raises_unsupported() {
    let result = device_to_dlpack(DeviceTag::Rocm, MemoryClass::Unified);
    let err = result.unwrap_err();
    assert_eq!(err, DlpackError::UnsupportedDevice(DeviceTag::Rocm, MemoryClass::Unified));
    assert_eq!(err.class(), ErrorClass::Unsupported);
}

#[test]
fn device_codes_follow_the_dlpack_table() {
    assert_eq!(device_to_dlpack(DeviceTag::Cuda, MemoryClass::Standard), Ok(2));
    assert_eq!(device_to_dlpack(DeviceTag::Cuda, MemoryClass::HostPinned), Ok(3));
    assert_eq!(device_to_dlpack(DeviceTag::Cuda, MemoryClass::Unified), Ok(13));
    assert!(device_to_dlpack(DeviceTag::Cuda, MemoryClass::Peer).is_err());
    assert_eq!(device_to_dlpack(DeviceTag::Rocm, MemoryClass::HostPinned), Ok(11));
    assert_eq!(device_to_dlpack(DeviceTag::Vulkan, MemoryClass::Unified), Ok(7));
    assert!(device_to_dlpack(DeviceTag::Vulkan, MemoryClass::Peer).is_err());
    assert_eq!(device_to_dlpack(DeviceTag::LevelZero, MemoryClass::Standard), Ok(14));
    assert_eq!(device_to_dlpack(DeviceTag::OpenCl, MemoryClass::Peer), Ok(4));
    assert!(device_to_dlpack(DeviceTag::Private(0x80), MemoryClass::Standard).is_err());
}

#[test]
fn strided_and_unsupported_layouts() {
    let strided = LayoutDescriptor::Strided { strides: vec![-3, 1] };
    assert_eq!(strides_for_layout(&strided, &vec![2, 3]), Some(vec![-3, 1]));
    let coo = LayoutDescriptor::Coo { nnz: 1, is_sorted: false };
    assert_eq!(strides_for_layout(&coo, &vec![2]), Some(vec![]));
    assert_eq!(strides_for_layout(&LayoutDescriptor::ColMajor, &vec![]), None);
    assert_eq!(strides_for_layout(&LayoutDescriptor::ColMajor, &vec![2, 3, 4]), Some(vec![1, 2, 6]));
}

#[test]
fn capsule_plan_maps_dynamic_extents_and_refuses_inexpressible_layouts() {
    let plan = plan_dlpack(ElementType::Int16, &vec![4, DYNAMIC], &LayoutDescriptor::RowMajor).unwrap();
    assert_eq!(plan.shape, vec![4, -1]);
    assert!(plan.strides.is_none());
    assert_eq!(plan.dtype.code, 0);
    let morton = LayoutDescriptor::Morton { morton_bits: vec![] };
    assert_eq!(
        plan_dlpack(ElementType::Int16, &vec![4], &morton).err(),
        Some(DlpackError::UnsupportedLayout)
    );
    // A rank-0 tensor has no strides to express, so any layout passes.
    assert!(plan_dlpack(ElementType::Int16, &vec![], &morton).is_ok());
    let err = plan_dlpack(ElementType::Bool, &vec![4], &LayoutDescriptor::RowMajor).err().unwrap();
    assert_eq!(err, DlpackError::UnrepresentableType(ElementType::Bool));
    assert_eq!(err.class(), ErrorClass::BuiltinBuffer);
}

#[test]
fn typestr_float32() {
    assert_eq!(numpy_typestr_to_element_type("<f4"), Some(ElementType::Float32));
}

#[test]
fn typestr_int64() {
    assert_eq!(numpy_typestr_to_element_type("<i8"), Some(ElementType::Int64));
}

#[test]
fn typestr_uint8() {
    assert_eq!(numpy_typestr_to_element_type("|u1"), Some(ElementType::Uint8));
}

#[test]
fn typestr_complex128() {
    assert_eq!(numpy_typestr_to_element_type("<c16"), Some(ElementType::Complex128));
}

#[test]
fn typestr_unknown_returns_none() {
    assert!(numpy_typestr_to_element_type("<U4").is_none());
}

#[test]
fn typestr_bool() {
    assert_eq!(numpy_typestr_to_element_type("|b1"), Some(ElementType::Bool));
}

#[test]
fn typestr_byte_counts_parse_as_usize_does() {
    assert_eq!(numpy_typestr_to_element_type(">f+8"), Some(ElementType::Float64));
    assert_eq!(numpy_typestr_to_element_type("<i004"), Some(ElementType::Int32));
    assert_eq!(numpy_typestr_to_element_type("<f"), None);
    assert_eq!(numpy_typestr_to_element_type("<f+"), None);
    assert_eq!(numpy_typestr_to_element_type("<f-4"), None);
    assert_eq!(numpy_typestr_to_element_type("<f4 "), None);
    assert_eq!(numpy_typestr_to_element_type("<f99999999999999999999999"), None);
    assert_eq!(numpy_typestr_to_element_type("<V2"), None);
}

#[test]
fn from_numpy_checks_contiguity_then_dtype() {
    assert_eq!(
        numpy_descriptor(false, None, &vec![2], 4096, 8).err(),
        Some(NumpyImportError::NotContiguous)
    );
    assert_eq!(
        numpy_descriptor(true, None, &vec![2], 4096, 8).err(),
        Some(NumpyImportError::UnknownDtype)
    );
    let imp = numpy_descriptor(true, Some(ElementType::Float32), &vec![2, 3], 192, 24).unwrap();
    assert!(!imp.copied);
    assert_eq!(imp.descriptor.shape, vec![2, 3]);
    assert_eq!(imp.descriptor.buffers[0].byte_size, 24);
    assert_eq!(imp.descriptor.buffers[0].alignment, 64);
    let empty = numpy_descriptor(true, Some(ElementType::Float32), &vec![0], 7, 0).unwrap();
    assert!(!empty.copied);
    assert_eq!(empty.descriptor.buffers[0].alignment, 1);
}

#[test]
fn from_numpy_declares_the_measured_alignment_of_a_borrowed_array() {
    let imp = numpy_descriptor(true, Some(ElementType::Float64), &vec![4], 8192, 32).unwrap();
    assert!(!imp.copied);
    assert_eq!(imp.descriptor.buffers[0].alignment, 4096);
    let imp = numpy_descriptor(true, Some(ElementType::Float64), &vec![4], 128, 32).unwrap();
    assert_eq!(imp.descriptor.buffers[0].alignment, 128);
}

#[test]
fn from_numpy_copies_an_under_aligned_array() {
    let imp = numpy_descriptor(true, Some(ElementType::Uint8), &vec![3], 4104, 3).unwrap();
    assert!(imp.copied);
    assert_eq!(imp.descriptor.buffers[0].alignment, 64);
    assert_eq!(imp.descriptor.buffers[0].byte_size, 3);
}
