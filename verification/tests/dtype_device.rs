use hurray::device::{CompareOp, Device, DeviceError, DeviceTag, MemoryClass};
use hurray::dtype::{element_type_from_name, element_type_name, Dtype, ElementType};
use hurray::errors::{base_of, class_name, BuiltinBase, ErrorClass};

const TIER1: [ElementType; 13] = [
    ElementType::Float16,
    ElementType::BFloat16,
    ElementType::Float32,
    ElementType::Float64,
    ElementType::Int8,
    ElementType::Uint8,
    ElementType::Int16,
    ElementType::Uint16,
    ElementType::Int32,
    ElementType::Uint32,
    ElementType::Int64,
    ElementType::Uint64,
    ElementType::Bool,
];

#[test]
fn constructor_succeeds_for_all_known_kinds() {
    let kinds = [
        "cpu",
        "cuda",
        "rocm",
        "metal",
        "vulkan",
        "webgpu",
        "hexagon",
        "level_zero",
        "opencl",
    ];
    for kind in kinds {
        assert!(Device::new(kind, None, None).is_ok(), "kind {kind}");
    }
}

#[test]
fn constructor_fails_unknown_kind() {
    let result = Device::new("tpu", None, None);
    assert_eq!(result, Err(DeviceError::UnknownKind));
    assert_eq!(result.unwrap_err().class(), ErrorClass::InvalidDescriptor);
}

#[test]
fn constructor_fails_unknown_memory_class() {
    let result = Device::new("cpu", None, Some("device_local"));
    assert_eq!(result, Err(DeviceError::UnknownMemoryClass));
    assert_eq!(result.unwrap_err().class(), ErrorClass::InvalidDescriptor);
}

#[test]
fn constructor_fails_negative_device_id() {
    let result = Device::new("cuda", Some(-1), None);
    assert_eq!(result, Err(DeviceError::NegativeDeviceId(-1)));
    assert_eq!(result.unwrap_err().class(), ErrorClass::InvalidDescriptor);
}

#[test]
fn properties_round_trip() {
    let d = Device::new("cuda", Some(2), Some("unified")).unwrap();
    assert_eq!(d.kind(), "cuda");
    assert_eq!(d.device_id(), 2);
    assert_eq!(d.memory_class(), "unified");
}

#[test]
fn eq_covers_all_three_fields() {
    let a = Device::new("cuda", Some(0), Some("standard")).unwrap();
    let b = Device::new("cuda", Some(0), Some("standard")).unwrap();
    let c = Device::new("cuda", Some(1), Some("standard")).unwrap();
    let d_dev = Device::new("rocm", Some(0), Some("standard")).unwrap();
    let e = Device::new("cuda", Some(0), Some("unified")).unwrap();
    assert!(a.richcmp(&b, CompareOp::Eq).unwrap());
    assert!(!a.richcmp(&c, CompareOp::Eq).unwrap());
    assert!(!a.richcmp(&d_dev, CompareOp::Eq).unwrap());
    assert!(!a.richcmp(&e, CompareOp::Eq).unwrap());
}

#[test]
fn device_repr_format() {
    let d = Device::new("cuda", Some(1), Some("unified")).unwrap();
    let r = d.repr();
    assert!(r.contains("cuda"), "repr should contain kind: got '{r}'");
    assert!(r.contains('1'), "repr should contain device_id: got '{r}'");
    assert!(r.contains("unified"), "repr should contain memory_class: got '{r}'");
}

#[test]
fn device_ordering_is_refused_and_ne_is_eq_negated() {
    let a = Device::new("cpu", None, None).unwrap();
    let b = Device::new("cpu", Some(3), None).unwrap();
    assert!(a.richcmp(&b, CompareOp::Lt).is_err());
    assert_eq!(a.richcmp(&b, CompareOp::Ne), Ok(true));
    assert_eq!(a.tag, DeviceTag::Cpu);
    assert_eq!(a.memory_class, MemoryClass::Standard);
    assert_eq!(a.device_id, 0);
}

#[test]
fn name_round_trip() {
    for ty in TIER1 {
        let name = element_type_name(ty);
        let roundtripped = element_type_from_name(name)
            .unwrap_or_else(|| panic!("from_name should succeed for '{name}'"));
        assert_eq!(element_type_name(roundtripped), name, "round-trip failed for {name}");
    }
}

#[test]
fn tier1_is_array_api() {
    for ty in TIER1 {
        let d = Dtype { inner: ty };
        assert!(d.is_array_api(), "{} should be is_array_api", d.name());
    }
}

#[test]
fn tier2_not_array_api() {
    let tier2 = [
        ElementType::Int4,
        ElementType::Uint4,
        ElementType::Float8E4M3,
        ElementType::Float8E5M2,
        ElementType::Float8E8M0,
        ElementType::Float4E2M1,
        ElementType::Float6E2M3,
        ElementType::Float6E3M2,
        ElementType::Float128,
        ElementType::Int2,
        ElementType::Uint2,
        ElementType::Complex64,
        ElementType::Complex128,
    ];
    for ty in tier2 {
        let d = Dtype { inner: ty };
        assert!(!d.is_array_api(), "{} should NOT be is_array_api", d.name());
    }
}

#[test]
fn bit_width_float32() {
    let d = Dtype { inner: ElementType::Float32 };
    assert_eq!(d.bit_width(), 32);
}

#[test]
fn bit_width_int4() {
    let d = Dtype { inner: ElementType::Int4 };
    assert_eq!(d.bit_width(), 4);
}

#[test]
fn eq_same_type() {
    let a = Dtype { inner: ElementType::Float32 };
    let b = Dtype { inner: ElementType::Float32 };
    assert_eq!(a.inner, b.inner);
    assert_eq!(a.richcmp(&b, CompareOp::Eq), Ok(true));
}

#[test]
fn ne_different_types() {
    let a = Dtype { inner: ElementType::Float32 };
    let b = Dtype { inner: ElementType::Int32 };
    assert_ne!(a.inner, b.inner);
    assert_eq!(a.richcmp(&b, CompareOp::Ne), Ok(true));
}

#[test]
fn from_name_unknown() {
    assert!(element_type_from_name("garbage").is_none());
}

#[test]
fn dtype_repr_format() {
    let d = Dtype { inner: ElementType::Float32 };
    let r = d.repr();
    assert!(r.contains("float32"), "repr should contain canonical name: got '{r}'");
}

#[test]
fn invalid_descriptor_error_is_value_error() {
    assert_eq!(class_name(ErrorClass::InvalidDescriptor), Some("InvalidDescriptorError"));
    assert_eq!(base_of(ErrorClass::InvalidDescriptor), BuiltinBase::ValueError);
}

#[test]
fn buffer_error_is_value_error() {
    assert_eq!(class_name(ErrorClass::Buffer), Some("BufferError"));
    assert_eq!(base_of(ErrorClass::Buffer), BuiltinBase::ValueError);
}

#[test]
fn copy_required_error_is_value_error() {
    assert_eq!(class_name(ErrorClass::CopyRequired), Some("CopyRequiredError"));
    assert_eq!(base_of(ErrorClass::CopyRequired), BuiltinBase::ValueError);
}

#[test]
fn unsupported_error_is_not_implemented_error() {
    assert_eq!(class_name(ErrorClass::Unsupported), Some("UnsupportedError"));
    assert_eq!(base_of(ErrorClass::Unsupported), BuiltinBase::NotImplementedError);
}

#[test]
fn internal_error_is_runtime_error() {
    assert_eq!(class_name(ErrorClass::Internal), Some("InternalError"));
    assert_eq!(base_of(ErrorClass::Internal), BuiltinBase::RuntimeError);
}

#[test]
fn file_error_is_os_error() {
    assert_eq!(class_name(ErrorClass::File), Some("FileError"));
    assert_eq!(base_of(ErrorClass::File), BuiltinBase::OSError);
}

#[test]
fn stream_error_is_os_error() {
    assert_eq!(class_name(ErrorClass::Stream), Some("StreamError"));
    assert_eq!(base_of(ErrorClass::Stream), BuiltinBase::OSError);
}

#[test]
fn file_and_stream_error_are_os_errors() {
    assert_eq!(base_of(ErrorClass::File), BuiltinBase::OSError);
    assert_eq!(base_of(ErrorClass::Stream), BuiltinBase::OSError);
}

#[test]
fn builtin_classes_have_no_registered_name() {
    assert_eq!(class_name(ErrorClass::BuiltinBuffer), None);
    assert_eq!(base_of(ErrorClass::BuiltinBuffer), BuiltinBase::BufferError);
    assert_eq!(base_of(ErrorClass::Type), BuiltinBase::TypeError);
}
