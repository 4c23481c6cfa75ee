//! DLPack v1.0 mapping: element types to `DLDataType`, devices to `DLDeviceType`
//! codes, layouts to strides, and the shape/strides/type plan a capsule carries.
//!
//! Row-major tensors travel with NULL strides (the DLPack convention for C-contiguous
//! data); explicit strides are emitted only for column-major and strided layouts.
//! Hurray booleans are bit-packed while DLPack booleans take a byte, so `bool` has no
//! zero-copy mapping.

use vstd::prelude::*;
use crate::device::{DeviceTag, MemoryClass};
use crate::dtype::{element_name, has_prefix, lemma_name_families};
use crate::dtype::ElementType;
use crate::errors::ErrorClass;
use crate::layout::LayoutDescriptor;
use crate::layout::validate::DYNAMIC;

verus! {

/// The DLPack device types Hurray maps onto.
#[derive(Clone, Copy, Debug, PartialEq, Eq, Structural)]
pub enum DLDeviceType {
    Cpu,
    Cuda,
    CudaHost,
    OpenCl,
    Vulkan,
    Metal,
    Rocm,
    RocmHost,
    OneApi,
    WebGpu,
    Hexagon,
    CudaManaged,
}

/// The DLPack integer constant of each device type.
pub open spec fn spec_dl_device_code(d: DLDeviceType) -> i32 {
    match d {
        DLDeviceType::Cpu => 1,
        DLDeviceType::Cuda => 2,
        DLDeviceType::CudaHost => 3,
        DLDeviceType::OpenCl => 4,
        DLDeviceType::Vulkan => 7,
        DLDeviceType::Metal => 8,
        DLDeviceType::Rocm => 10,
        DLDeviceType::RocmHost => 11,
        DLDeviceType::OneApi => 14,
        DLDeviceType::WebGpu => 15,
        DLDeviceType::Hexagon => 16,
        DLDeviceType::CudaManaged => 13,
    }
}

impl DLDeviceType {
    /// The DLPack integer constant.
    pub fn code(self) -> (r: i32)
        ensures
            r == spec_dl_device_code(self),
    {
        match self {
            DLDeviceType::Cpu => 1,
            DLDeviceType::Cuda => 2,
            DLDeviceType::CudaHost => 3,
            DLDeviceType::OpenCl => 4,
            DLDeviceType::Vulkan => 7,
            DLDeviceType::Metal => 8,
            DLDeviceType::Rocm => 10,
            DLDeviceType::RocmHost => 11,
            DLDeviceType::OneApi => 14,
            DLDeviceType::WebGpu => 15,
            DLDeviceType::Hexagon => 16,
            DLDeviceType::CudaManaged => 13,
        }
    }
}

/// A DLPack data type: code (0 int, 1 uint, 2 float, 4 bfloat, 5 complex), bits per
/// element, and vector lanes.
#[derive(Clone, Copy, Debug, PartialEq, Eq, Structural)]
pub struct DLDataType {
    pub code: u8,
    pub bits: u8,
    pub lanes: u16,
}

/// Why a tensor cannot travel as a DLPack capsule.
#[derive(Clone, Copy, Debug, PartialEq, Eq, Structural)]
pub enum DlpackError {
    /// The element type has no DLPack representation (bool, sub-byte, float8, ...).
    UnrepresentableType(ElementType),
    /// The layout cannot be expressed as strides (tiled, Morton, sparse, ...).
    UnsupportedLayout,
    /// The device and memory class have no DLPack device type.
    UnsupportedDevice(DeviceTag, MemoryClass),
}

impl DlpackError {
    /// An unrepresentable type raises the built-in `BufferError`, as the Array API
    /// requires; the rest raise `UnsupportedError`.
    pub fn class(&self) -> (r: ErrorClass)
        ensures
            r == (match *self {
                DlpackError::UnrepresentableType(_) => ErrorClass::BuiltinBuffer,
                _ => ErrorClass::Unsupported,
            }),
    {
        match self {
            DlpackError::UnrepresentableType(_) => ErrorClass::BuiltinBuffer,
            _ => ErrorClass::Unsupported,
        }
    }
}

/// The (code, bits) pair of each representable type.
pub open spec fn spec_dl_code_bits(t: ElementType) -> Option<(u8, u8)> {
    match t {
        ElementType::Int8 => Some((0u8, 8u8)),
        ElementType::Int16 => Some((0u8, 16u8)),
        ElementType::Int32 => Some((0u8, 32u8)),
        ElementType::Int64 => Some((0u8, 64u8)),
        ElementType::Uint8 => Some((1u8, 8u8)),
        ElementType::Uint16 => Some((1u8, 16u8)),
        ElementType::Uint32 => Some((1u8, 32u8)),
        ElementType::Uint64 => Some((1u8, 64u8)),
        ElementType::Float16 => Some((2u8, 16u8)),
        ElementType::Float32 => Some((2u8, 32u8)),
        ElementType::Float64 => Some((2u8, 64u8)),
        ElementType::BFloat16 => Some((4u8, 16u8)),
        ElementType::Complex64 => Some((5u8, 64u8)),
        ElementType::Complex128 => Some((5u8, 128u8)),
        _ => None,
    }
}

/// Translate an element type to its DLPack data type, one lane wide; `None` for types
/// DLPack cannot hold zero-copy.
pub fn element_type_to_dlpack(t: ElementType) -> (r: Option<DLDataType>)
    ensures
        match spec_dl_code_bits(t) {
            Some((code, bits)) => r == Some(DLDataType { code, bits, lanes: 1 }),
            None => r is None,
        },
{
    let (code, bits): (u8, u8) = match t {
        ElementType::Int8 => (0, 8),
        ElementType::Int16 => (0, 16),
        ElementType::Int32 => (0, 32),
        ElementType::Int64 => (0, 64),
        ElementType::Uint8 => (1, 8),
        ElementType::Uint16 => (1, 16),
        ElementType::Uint32 => (1, 32),
        ElementType::Uint64 => (1, 64),
        ElementType::Float16 => (2, 16),
        ElementType::Float32 => (2, 32),
        ElementType::Float64 => (2, 64),
        ElementType::BFloat16 => (4, 16),
        ElementType::Complex64 => (5, 64),
        ElementType::Complex128 => (5, 128),
        _ => return None,
    };
    Some(DLDataType { code, bits, lanes: 1 })
}

/// The DLPack device type of a (device, memory class) pair, if it has one.
pub open spec fn spec_dl_device(tag: DeviceTag, mc: MemoryClass) -> Option<DLDeviceType> {
    match tag {
        DeviceTag::Cpu => Some(DLDeviceType::Cpu),
        DeviceTag::Cuda => match mc {
            MemoryClass::Standard => Some(DLDeviceType::Cuda),
            MemoryClass::HostPinned => Some(DLDeviceType::CudaHost),
            MemoryClass::Unified => Some(DLDeviceType::CudaManaged),
            _ => None,
        },
        DeviceTag::Rocm => match mc {
            MemoryClass::Standard => Some(DLDeviceType::Rocm),
            MemoryClass::HostPinned => Some(DLDeviceType::RocmHost),
            _ => None,
        },
        DeviceTag::Metal => Some(DLDeviceType::Metal),
        DeviceTag::Vulkan => if mc == MemoryClass::Peer {
            None
        } else {
            Some(DLDeviceType::Vulkan)
        },
        DeviceTag::WebGpu => Some(DLDeviceType::WebGpu),
        DeviceTag::Hexagon => Some(DLDeviceType::Hexagon),
        DeviceTag::LevelZero => if mc == MemoryClass::Peer {
            None
        } else {
            Some(DLDeviceType::OneApi)
        },
        DeviceTag::OpenCl => Some(DLDeviceType::OpenCl),
        DeviceTag::Private(_) => None,
    }
}

/// Translate a device and memory class to a DLPack device-type code.
pub fn device_to_dlpack(tag: DeviceTag, mc: MemoryClass) -> (r: Result<i32, DlpackError>)
    ensures
        match spec_dl_device(tag, mc) {
            Some(d) => r == Ok::<i32, DlpackError>(spec_dl_device_code(d)),
            None => r == Err::<i32, DlpackError>(DlpackError::UnsupportedDevice(tag, mc)),
        },
{
    let d = match tag {
        DeviceTag::Cpu => DLDeviceType::Cpu,
        DeviceTag::Cuda => match mc {
            MemoryClass::Standard => DLDeviceType::Cuda,
            MemoryClass::HostPinned => DLDeviceType::CudaHost,
            MemoryClass::Unified => DLDeviceType::CudaManaged,
            _ => return Err(DlpackError::UnsupportedDevice(tag, mc)),
        },
        DeviceTag::Rocm => match mc {
            MemoryClass::Standard => DLDeviceType::Rocm,
            MemoryClass::HostPinned => DLDeviceType::RocmHost,
            _ => return Err(DlpackError::UnsupportedDevice(tag, mc)),
        },
        DeviceTag::Metal => DLDeviceType::Metal,
        DeviceTag::Vulkan => match mc {
            MemoryClass::Peer => return Err(DlpackError::UnsupportedDevice(tag, mc)),
            _ => DLDeviceType::Vulkan,
        },
        DeviceTag::WebGpu => DLDeviceType::WebGpu,
        DeviceTag::Hexagon => DLDeviceType::Hexagon,
        DeviceTag::LevelZero => match mc {
            MemoryClass::Peer => return Err(DlpackError::UnsupportedDevice(tag, mc)),
            _ => DLDeviceType::OneApi,
        },
        DeviceTag::OpenCl => DLDeviceType::OpenCl,
        DeviceTag::Private(_) => return Err(DlpackError::UnsupportedDevice(tag, mc)),
    };
    Ok(d.code())
}

/// Stride `i` (in elements) of a column-major tensor: the product of the extents
/// before axis `i`, each read as a signed 64-bit DLPack extent.
pub open spec fn col_major_stride(shape: Seq<u64>, i: nat) -> int
    decreases i,
{
    if i == 0 {
        1
    } else {
        col_major_stride(shape, (i - 1) as nat) * ((shape[i - 1] as i64) as int)
    }
}

/// Every column-major stride of `shape` fits in an `i64`.
pub open spec fn col_major_strides_fit(shape: Seq<u64>) -> bool {
    forall|i: nat| i < shape.len() ==> i64::MIN <= #[trigger] col_major_stride(shape, i) <= i64::MAX
}

/// The strides a layout travels with: `None` (NULL, C-contiguous) for row-major and for
/// a rank-0 column-major tensor, the stated strides for a strided layout, the
/// column-major products for column-major, and an empty sequence for every layout
/// strides cannot express.
pub open spec fn spec_strides_for_layout(l: LayoutDescriptor, shape: Seq<u64>) -> Option<Seq<int>> {
    match l {
        LayoutDescriptor::RowMajor => None,
        LayoutDescriptor::Strided { strides } => Some(strides@.map_values(|s: i64| s as int)),
        LayoutDescriptor::ColMajor => if shape.len() == 0 {
            None
        } else {
            Some(Seq::new(shape.len(), |i: int| col_major_stride(shape, i as nat)))
        },
        _ => Some(Seq::empty()),
    }
}

/// The view of an `i64` vector as integers.
pub open spec fn ints(v: Seq<i64>) -> Seq<int> {
    v.map_values(|s: i64| s as int)
}

/// Compute the DLPack strides of a layout over `shape`.
pub fn strides_for_layout(l: &LayoutDescriptor, shape: &Vec<u64>) -> (r: Option<Vec<i64>>)
    requires
        *l is ColMajor ==> col_major_strides_fit(shape@),
    ensures
        match r {
            Some(v) => spec_strides_for_layout(*l, shape@) == Some(ints(v@)),
            None => spec_strides_for_layout(*l, shape@) is None,
        },
{
    match l {
        LayoutDescriptor::RowMajor => None,
        LayoutDescriptor::Strided { strides } => {
            let mut out: Vec<i64> = Vec::new();
            let mut i: usize = 0;
            while i < strides.len()
                invariant
                    i <= strides.len(),
                    out@ == strides@.subrange(0, i as int),
                decreases strides.len() - i,
            {
                out.push(strides[i]);
                i = i + 1;
            }
            assert(out@ =~= strides@);
            assert(ints(out@) =~= strides@.map_values(|s: i64| s as int));
            Some(out)
        },
        LayoutDescriptor::ColMajor => {
            let n = shape.len();
            if n == 0 {
                return None;
            }
            let mut out: Vec<i64> = Vec::new();
            out.push(1i64);
            let mut i: usize = 1;
            while i < n
                invariant
                    1 <= i <= n,
                    n == shape@.len(),
                    col_major_strides_fit(shape@),
                    out@.len() == i,
                    forall|j: int| 0 <= j < i ==> out@[j] as int == col_major_stride(shape@, j as nat),
                decreases n - i,
            {
                let prev = out[i - 1];
                let ext = shape[i - 1] as i64;
                proof {
                    assert(out@[i - 1] as int == col_major_stride(shape@, (i - 1) as nat));
                    assert(col_major_stride(shape@, i as nat) == prev * ext);
                    assert(i64::MIN <= col_major_stride(shape@, i as nat) <= i64::MAX);
                }
                out.push(prev * ext);
                i = i + 1;
            }
            assert(ints(out@) =~= Seq::new(shape@.len(), |i: int| col_major_stride(shape@, i as nat)));
            Some(out)
        },
        _ => Some(Vec::new()),
    }
}

/// A DLPack extent: `DYNAMIC` travels as `-1`, every other extent as a signed 64-bit
/// value.
pub open spec fn dl_extent(d: u64) -> i64 {
    if d == DYNAMIC {
        -1i64
    } else {
        d as i64
    }
}

/// The DLPack shape array of `shape`.
pub fn dl_shape(shape: &Vec<u64>) -> (r: Vec<i64>)
    ensures
        r@ == shape@.map_values(|d: u64| dl_extent(d)),
{
    let mut out: Vec<i64> = Vec::new();
    let mut i: usize = 0;
    while i < shape.len()
        invariant
            i <= shape.len(),
            out@ == shape@.subrange(0, i as int).map_values(|d: u64| dl_extent(d)),
        decreases shape.len() - i,
    {
        let d = shape[i];
        let e: i64 = if d == DYNAMIC {
            -1
        } else {
            d as i64
        };
        out.push(e);
        assert(shape@.subrange(0, i + 1 as int) =~= shape@.subrange(0, i as int).push(d));
        i = i + 1;
    }
    assert(shape@.subrange(0, shape@.len() as int) =~= shape@);
    out
}

/// What a DLPack capsule for a tensor carries besides its data pointer and device.
pub struct DlpackPlan {
    pub dtype: DLDataType,
    pub shape: Vec<i64>,
    pub strides: Option<Vec<i64>>,
}

/// Plan a capsule: the element type must be representable, and a layout strides cannot
/// express is refused unless the tensor is rank 0.
pub fn plan_dlpack(t: ElementType, shape: &Vec<u64>, l: &LayoutDescriptor) -> (r: Result<
    DlpackPlan,
    DlpackError,
>)
    requires
        *l is ColMajor ==> col_major_strides_fit(shape@),
    ensures
        spec_dl_code_bits(t) is None ==> r == Err::<DlpackPlan, DlpackError>(
            DlpackError::UnrepresentableType(t),
        ),
        spec_dl_code_bits(t) is Some ==> match spec_strides_for_layout(*l, shape@) {
            Some(s) => if s.len() == 0 && shape@.len() > 0 {
                r == Err::<DlpackPlan, DlpackError>(DlpackError::UnsupportedLayout)
            } else {
                r matches Ok(p) && p.strides matches Some(v) && ints(v@) == s
            },
            None => r matches Ok(p) && p.strides is None,
        },
        r matches Ok(p) ==> {
            &&& spec_dl_code_bits(t) == Some((p.dtype.code, p.dtype.bits))
            &&& p.dtype.lanes == 1
            &&& p.shape@ == shape@.map_values(|d: u64| dl_extent(d))
        },
{
    let dtype = match element_type_to_dlpack(t) {
        Some(d) => d,
        None => return Err(DlpackError::UnrepresentableType(t)),
    };
    let dims = dl_shape(shape);
    let strides = strides_for_layout(l, shape);
    let unsupported = match &strides {
        Some(v) => v.len() == 0 && shape.len() > 0,
        None => false,
    };
    if unsupported {
        return Err(DlpackError::UnsupportedLayout);
    }
    Ok(DlpackPlan { dtype, shape: dims, strides })
}

/// Every type DLPack can carry travels with its own element width, one lane wide, and
/// with the type code of its family: signed integers 0, unsigned 1, IEEE floats 2,
/// `bfloat16` 4, complex 5.
pub proof fn lemma_dlpack_type_matches_element(t: ElementType)
    requires
        spec_dl_code_bits(t) is Some,
    ensures
        spec_dl_code_bits(t) matches Some((code, bits)) && {
            &&& bits as nat == crate::dtype::spec_bit_width(t)
            &&& (crate::dtype::spec_is_integer(t) && crate::dtype::spec_is_signed(t) ==> code == 0)
            &&& (crate::dtype::spec_is_integer(t) && !crate::dtype::spec_is_signed(t) ==> code
                == 1)
        },
        t != ElementType::Bool,
{
}

/// A DLPack type code says how an element's bits are read, and it follows the
/// element's family: `0` for the `int*` types, `1` for `uint*`, `2` (IEEE binary
/// float) for `float*`, `4` for `bfloat*` alone and `5` for `complex*`; the bit count is
/// the element's width and there is one lane.
pub proof fn lemma_dlpack_code_follows_name(t: ElementType)
    ensures
        spec_dl_code_bits(t) matches Some((code, bits)) ==> {
            &&& bits as nat == crate::dtype::spec_bit_width(t)
            &&& (code == 0 <==> has_prefix(element_name(t), "int"@))
            &&& (code == 1 <==> has_prefix(element_name(t), "uint"@))
            &&& (code == 2 <==> has_prefix(element_name(t), "float"@))
            &&& (code == 4 <==> has_prefix(element_name(t), "bfloat"@))
            &&& (code == 5 <==> has_prefix(element_name(t), "complex"@))
        },
{
    lemma_name_families(t);
}

} // verus!
