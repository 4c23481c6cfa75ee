use hurray::composite::{
    check_member, composite_repr, member_count, member_name, name_members, CompositeNode,
    MemberKind, MemberNode, NotAMember, TooManyMembers,
};
use hurray::descriptor::{owned_descriptor, BufferHandle, SyncMode, TensorDescriptor};
use hurray::device::{DeviceTag, MemoryClass};
use hurray::dtype::ElementType;
use hurray::errors::ErrorClass;
use hurray::file_io::{
    check_save_value, file_error_class, load_keys, IoFailure, ItemNames, LoadSelection,
    MissingEntry, NotSaveable, SaveValue,
};
use hurray::errors::class_name;
use hurray::buffer::aligned_offset;
use hurray::kv::{py_to_kv_value, KvError, KvValue, PyValue};
use hurray::layout::{CombineOp, CompositionRule, LayoutDescriptor};
use hurray::metadata::{
    derive_packing_factor, shard_repr, ExtensionError, ExtensionType, ExtensionWidthError,
    RenderedFloats, Shard, ShardRankMismatch, Statistics, StatisticsError,
};

fn int_of(k: &KvValue) -> i64 {
    match k {
        KvValue::Int64(v) => *v,
        _ => panic!("expected an int64, got {k:?}"),
    }
}

#[test]
fn py_to_kv_value_bool() {
    let kv = py_to_kv_value(&PyValue::Bool(true)).unwrap();
    assert!(matches!(kv, KvValue::Bool(true)));
}

#[test]
fn py_to_kv_value_int() {
    let kv = py_to_kv_value(&PyValue::Int(42)).unwrap();
    assert_eq!(int_of(&kv), 42);
}

#[test]
fn py_to_kv_value_float() {
    let kv = py_to_kv_value(&PyValue::Float(2.5f64.to_bits())).unwrap();
    match kv {
        KvValue::Float64(bits) => assert!((f64::from_bits(bits) - 2.5).abs() < 1e-10),
        other => panic!("expected a float, got {other:?}"),
    }
}

#[test]
fn py_to_kv_value_str() {
    let kv = py_to_kv_value(&PyValue::Str("hello".to_string())).unwrap();
    match kv {
        KvValue::String(s) => assert_eq!(s, "hello"),
        other => panic!("expected a string, got {other:?}"),
    }
}

#[test]
fn py_to_kv_value_bytes() {
    let kv = py_to_kv_value(&PyValue::Bytes(b"raw".to_vec())).unwrap();
    match kv {
        KvValue::Bytes(b) => assert_eq!(b, b"raw".to_vec()),
        other => panic!("expected bytes, got {other:?}"),
    }
}

#[test]
fn py_to_kv_value_list_of_ints() {
    let list = PyValue::List(vec![PyValue::Int(1), PyValue::Int(2), PyValue::Int(3)]);
    let kv = py_to_kv_value(&list).unwrap();
    match kv {
        KvValue::Array(items) => {
            let ints: Vec<i64> = items.iter().map(int_of).collect();
            assert_eq!(ints, vec![1, 2, 3]);
        },
        other => panic!("expected an array, got {other:?}"),
    }
}

#[test]
fn py_to_kv_value_empty_list_is_error() {
    let result = py_to_kv_value(&PyValue::List(vec![]));
    assert!(result.is_err());
    assert_eq!(result.unwrap_err(), KvError::EmptyArray);
}

#[test]
fn kv_errors_come_from_the_first_bad_element() {
    let nested = PyValue::List(vec![
        PyValue::Int(1),
        PyValue::List(vec![PyValue::Other]),
        PyValue::List(vec![]),
    ]);
    assert_eq!(py_to_kv_value(&nested).unwrap_err(), KvError::UnsupportedType);
    assert_eq!(KvError::UnsupportedType.class(), ErrorClass::File);
    let ok = PyValue::List(vec![PyValue::List(vec![PyValue::Bool(false)])]);
    assert!(py_to_kv_value(&ok).is_ok());
}

#[test]
fn statistics_groups_must_be_complete() {
    let s = Statistics::new(
        Some(4),
        None,
        Some(0),
        Some(1),
        Some(1),
        None,
        None,
        None,
        None,
        Some(false),
        Some(true),
    )
    .unwrap();
    assert_eq!(s.nnz(), Some(4));
    assert_eq!(s.sparsity_ratio(), None);
    assert_eq!(s.value_max(), Some(1));
    assert_eq!(s.value_mean(), None);
    assert_eq!(s.nm_n(), None);
    assert_eq!(s.has_inf(), Some(true));
    assert_eq!(
        Statistics::new(None, None, Some(0), None, None, None, None, None, None, None, None),
        Err(StatisticsError::PartialValueRange)
    );
    assert_eq!(
        Statistics::new(None, None, None, None, None, Some(0), None, None, None, None, None),
        Err(StatisticsError::PartialValueStats)
    );
    assert_eq!(
        Statistics::new(None, None, None, None, None, None, None, Some(2), None, None, None),
        Err(StatisticsError::PartialNmSparsity)
    );
    assert_eq!(
        Statistics::new(None, None, None, None, None, None, None, None, None, None, Some(true)),
        Err(StatisticsError::PartialNanInf)
    );
    assert_eq!(StatisticsError::PartialNanInf.class(), ErrorClass::InvalidDescriptor);
}

#[test]
fn statistics_repr_names_only_the_claims() {
    let s = Statistics::new(Some(4), None, None, None, None, None, None, Some(2), Some(4), Some(false), Some(false))
        .unwrap();
    let f = RenderedFloats {
        sparsity_ratio: String::new(),
        value_min: String::new(),
        value_max: String::new(),
        value_abs_max: String::new(),
        value_mean: String::new(),
        value_stddev: String::new(),
    };
    assert_eq!(s.repr(&f), "Statistics(nnz=4, nm_n=2, nm_m=4, has_nan=False, has_inf=False)");
    let r = Statistics::new(None, Some(0.5f64.to_bits()), None, None, None, None, None, None, None, None, None).unwrap();
    let f = RenderedFloats {
        sparsity_ratio: "0.5".to_string(),
        value_min: String::new(),
        value_max: String::new(),
        value_abs_max: String::new(),
        value_mean: String::new(),
        value_stddev: String::new(),
    };
    assert_eq!(r.repr(&f), "Statistics(sparsity_ratio=0.5)");
}

#[test]
fn packing_factors_follow_the_bit_width() {
    assert_eq!(derive_packing_factor(0), Err(ExtensionWidthError::Zero));
    assert_eq!(derive_packing_factor(1), Ok(8));
    assert_eq!(derive_packing_factor(2), Ok(4));
    assert_eq!(derive_packing_factor(3), Err(ExtensionWidthError::ReservedSubByte(3)));
    assert_eq!(derive_packing_factor(4), Ok(2));
    assert_eq!(derive_packing_factor(6), Err(ExtensionWidthError::ReservedSubByte(6)));
    assert_eq!(derive_packing_factor(8), Ok(1));
    assert_eq!(derive_packing_factor(12), Ok(1));
}

#[test]
fn extension_type_repr_names_what_was_supplied() {
    let e = ExtensionType::new(4, false, true, 0, 0, 0, 0, false, false).unwrap();
    assert_eq!(e.packing_factor(), 2);
    assert!(e.is_signed());
    assert_eq!(e.repr(), "ExtensionType(bit_width=4, is_signed=True)");
    let wide = ExtensionType::new(24, false, true, 0, 0, 0, 0, false, false).unwrap();
    assert_eq!(wide.packing_factor(), 1);
    assert_eq!(wide.bit_width(), 24);
    let f = ExtensionType::new(16, true, false, 1, 5, 10, 15, true, true).unwrap();
    assert_eq!(
        f.repr(),
        "ExtensionType(bit_width=16, is_float=True, sign_bits=1, exponent_bits=5, mantissa_bits=10, exponent_bias=15, has_nan=True, has_inf=True)"
    );
    assert_eq!(
        ExtensionType::new(5, false, false, 0, 0, 0, 0, false, false),
        Err(ExtensionError::Width(ExtensionWidthError::ReservedSubByte(5)))
    );
    // A float's sign is sign_bits, never is_signed.
    assert_eq!(
        ExtensionType::new(8, true, true, 1, 4, 3, 7, false, false),
        Err(ExtensionError::Fields)
    );
    assert_eq!(
        ExtensionType::new(8, true, false, 2, 4, 3, 7, false, false),
        Err(ExtensionError::Fields)
    );
    // Float-only fields on an integer type.
    assert_eq!(
        ExtensionType::new(8, false, false, 0, 3, 0, 0, false, false),
        Err(ExtensionError::Fields)
    );
    assert_eq!(
        ExtensionType::new(8, false, true, 1, 0, 0, 0, false, false),
        Err(ExtensionError::Fields)
    );
    // An unsigned float is expressible.
    assert!(ExtensionType::new(8, true, false, 0, 8, 0, 127, true, false).is_ok());
    assert_eq!(ExtensionError::Fields.class(), ErrorClass::InvalidDescriptor);
}

#[test]
fn shard_repr_uses_list_spelling() {
    assert_eq!(shard_repr(&vec![8, 8], &vec![0, 4]), "Shard(parent_shape=[8, 8], shard_offset=[0, 4])");
    assert_eq!(shard_repr(&vec![], &vec![]), "Shard(parent_shape=[], shard_offset=[])");
    let s = Shard::new(vec![1024, 512], vec![512, 0]).unwrap();
    assert_eq!(s.parent_shape(), &vec![1024, 512]);
    assert_eq!(s.shard_offset(), &vec![512, 0]);
    assert_eq!(s.repr(), "Shard(parent_shape=[1024, 512], shard_offset=[512, 0])");
    assert_eq!(Shard::new(vec![8, 8], vec![4]).err(), Some(ShardRankMismatch));
}

fn group(members: Vec<MemberNode>) -> CompositeNode {
    CompositeNode { rule: CompositionRule::Group, shape: vec![4], members }
}

#[test]
fn composite_repr_nests_with_a_depth_budget() {
    let c = group(vec![MemberNode::Tensor]);
    assert_eq!(composite_repr(&c), "hurray.Composite(rule='group', shape=(4,), members=[Tensor])");
    let deep = CompositeNode {
        rule: CompositionRule::Overlay(CombineOp::Add),
        shape: vec![2, 2],
        members: vec![
            MemberNode::Tensor,
            MemberNode::Composite(Box::new(group(vec![MemberNode::Composite(Box::new(group(vec![
                MemberNode::Tensor,
            ])))]))),
        ],
    };
    assert_eq!(
        composite_repr(&deep),
        "hurray.Composite(rule='overlay', shape=(2, 2), members=[Tensor, hurray.Composite(rule='group', shape=(4,), members=[hurray.Composite(rule='group', shape=(4,), members=[\u{2026}])])])"
    );
    assert!(composite_repr(&c).starts_with("hurray.Composite(rule='group'"));
}

#[test]
fn composite_members_are_named_after_their_parent() {
    assert_eq!(member_name("weights", 3), "weights.3");
    let c = group(vec![
        MemberNode::Tensor,
        MemberNode::Composite(Box::new(group(vec![MemberNode::Tensor, MemberNode::Tensor]))),
    ]);
    let names = name_members(&c, "w");
    assert_eq!(names.len(), 2);
    assert_eq!(names[0].name, "w.0");
    assert!(names[0].children.is_empty());
    assert_eq!(names[1].name, "w.1");
    assert_eq!(names[1].children[1].name, "w.1.1");
}

#[test]
fn composite_members_must_be_tensors_or_composites() {
    assert_eq!(check_member(MemberKind::Other, 2), Err(NotAMember { index: 2 }));
    assert_eq!(NotAMember { index: 2 }.class(), ErrorClass::Type);
    assert_eq!(check_member(MemberKind::Tensor, 0), Ok(MemberKind::Tensor));
    assert_eq!(member_count(3), Ok(3));
    assert_eq!(member_count(u32::MAX as usize + 1), Err(TooManyMembers));
    assert_eq!(TooManyMembers.class(), ErrorClass::InvalidDescriptor);
}

#[test]
fn load_skips_names_a_composite_already_claimed() {
    let mut sel = LoadSelection::new();
    assert!(sel.should_load("c"));
    let item = ItemNames::Composite(
        "c".to_string(),
        vec![ItemNames::Tensor("c.0".to_string()), ItemNames::Tensor("c.1".to_string())],
    );
    sel.claim(&item);
    assert!(!sel.should_load("c.0"));
    assert!(!sel.should_load("c.1"));
    assert!(sel.should_load("other"));
    assert_eq!(check_save_value(SaveValue::Other), Err(NotSaveable));
    assert_eq!(NotSaveable.class(), ErrorClass::Unsupported);
    assert_eq!(check_save_value(SaveValue::Composite), Ok(SaveValue::Composite));
}

#[test]
fn descriptors_report_their_first_buffers_device() {
    let d = owned_descriptor(ElementType::Int8, vec![2, 3], 6, DeviceTag::Rocm, MemoryClass::HostPinned);
    let dev = d.device();
    assert_eq!(dev.tag, DeviceTag::Rocm);
    assert_eq!(dev.memory_class, MemoryClass::HostPinned);
    assert_eq!(dev.device_id, 0);
    assert_eq!(
        d.repr(),
        "hurray.Descriptor(dtype=int8, shape=(2, 3), layout='row_major', buffers=1)"
    );
    let head = TensorDescriptor {
        element_type: ElementType::Float32,
        shape: vec![4],
        byte_offset: 0,
        layout: LayoutDescriptor::Composite { rule: CompositionRule::Group, member_count: 1 },
        buffers: vec![],
    };
    assert_eq!(head.device().tag, DeviceTag::Cpu);
    assert_eq!(
        head.repr(),
        "hurray.Descriptor(dtype=float32, shape=(4,), layout='composite', buffers=0)"
    );
    let h = BufferHandle {
        byte_size: 0,
        alignment: 1,
        device_tag: DeviceTag::Cpu,
        sync_mode: SyncMode::ProducerSynced,
        memory_class: MemoryClass::Standard,
    };
    assert!(h.is_empty());
    assert!(h.eq(&d.buffers[0]) == false);
}

fn saved_file() -> Vec<(String, ItemNames)> {
    let composite = || {
        ItemNames::Composite(
            "c".to_string(),
            vec![ItemNames::Tensor("c.0".to_string()), ItemNames::Tensor("c.1".to_string())],
        )
    };
    vec![
        ("c".to_string(), composite()),
        ("c.0".to_string(), ItemNames::Tensor("c.0".to_string())),
        ("c.1".to_string(), ItemNames::Tensor("c.1".to_string())),
        ("t".to_string(), ItemNames::Tensor("t".to_string())),
    ]
}

#[test]
fn load_returns_exactly_the_saved_names() {
    let file = saved_file();
    assert_eq!(load_keys(None, &file), Ok(vec!["c".to_string(), "t".to_string()]));
}

#[test]
fn load_of_named_entries_keeps_the_request_and_refuses_a_missing_name() {
    let file = saved_file();
    let asked = vec!["t".to_string(), "c.0".to_string()];
    assert_eq!(load_keys(Some(&asked), &file), Ok(asked.clone()));
    let asked = vec!["c".to_string(), "c.1".to_string()];
    assert_eq!(load_keys(Some(&asked), &file), Ok(vec!["c".to_string()]));
    let missing = vec!["t".to_string(), "nope".to_string()];
    assert_eq!(load_keys(Some(&missing), &file), Err(MissingEntry));
    assert_eq!(MissingEntry.class(), ErrorClass::File);
}

/// Does opening (or, with `create`, creating) `path` fail at the operating system?
fn os_refuses(path: &str, create: bool) -> bool {
    let rt = tokio::runtime::Builder::new_current_thread().build().unwrap();
    rt.block_on(async {
        if create {
            tokio::fs::File::create(path).await.is_err()
        } else {
            tokio::fs::File::open(path).await.is_err()
        }
    })
}

#[test]
fn load_nonexistent_file_raises_file_error() {
    assert!(os_refuses("/nonexistent/path/does_not_exist.hrry", false));
    let class = file_error_class(IoFailure::Io);
    assert!(class == ErrorClass::File, "expected FileError, got: {class:?}");
    assert_eq!(class_name(class), Some("FileError"));
}

#[test]
fn save_to_invalid_path_raises_file_error() {
    assert!(os_refuses("/nonexistent/dir/out.hrry", true));
    let class = file_error_class(IoFailure::Io);
    assert!(class == ErrorClass::File, "expected FileError, got: {class:?}");
    assert_eq!(class_name(class), Some("FileError"));
}

#[test]
fn owned_copies_start_on_a_64_byte_boundary() {
    for base in [0usize, 1, 63, 64, 65, 4095, 4096] {
        let off = aligned_offset(base);
        assert!(off < 64);
        assert_eq!((base + off) % 64, 0);
    }
    assert_eq!(aligned_offset(65), 63);
    assert_eq!(aligned_offset(128), 0);
}
