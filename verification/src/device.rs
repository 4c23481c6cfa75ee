//! Devices: the (kind, device ordinal, memory class) triple every buffer records.
//!
//! The kind and memory-class names are the strings Python callers pass to
//! `hurray.Device(kind, device_id=0, memory_class="standard")`.

use vstd::prelude::*;
use crate::text::{push_signed_decimal, signed_decimal, str_eq};

verus! {

/// The device a buffer lives on.
#[derive(Clone, Copy, Debug, PartialEq, Eq, Structural)]
pub enum DeviceTag {
    Cpu,
    Cuda,
    Rocm,
    Metal,
    Vulkan,
    WebGpu,
    Hexagon,
    LevelZero,
    OpenCl,
    /// An implementation-private device tag; it has no public name.
    Private(u8),
}

/// How a buffer's memory may be accessed.
#[derive(Clone, Copy, Debug, PartialEq, Eq, Structural)]
pub enum MemoryClass {
    Standard,
    HostPinned,
    Unified,
    Peer,
    /// An implementation-private memory class; it has no public name.
    Private(u8),
}

/// A device descriptor: kind, ordinal and memory class.
#[derive(Clone, Copy, Debug, PartialEq, Eq, Structural)]
pub struct Device {
    pub tag: DeviceTag,
    pub memory_class: MemoryClass,
    pub device_id: i32,
}

/// Why a device could not be built.
#[derive(Clone, Copy, Debug, PartialEq, Eq, Structural)]
pub enum DeviceError {
    /// The kind string names no device.
    UnknownKind,
    /// The memory-class string names no memory class.
    UnknownMemoryClass,
    /// The ordinal is negative.
    NegativeDeviceId(i32),
}

impl DeviceError {
    /// Every device error raises `InvalidDescriptorError`.
    pub fn class(&self) -> (r: crate::errors::ErrorClass)
        ensures
            r == crate::errors::ErrorClass::InvalidDescriptor,
    {
        crate::errors::ErrorClass::InvalidDescriptor
    }
}

/// A Python rich-comparison operator.
#[derive(Clone, Copy, Debug, PartialEq, Eq, Structural)]
pub enum CompareOp {
    Lt,
    Le,
    Eq,
    Ne,
    Gt,
    Ge,
}

/// An ordering comparison was asked of a type that has no order.
#[derive(Clone, Copy, Debug, PartialEq, Eq, Structural)]
pub struct OrderingUnsupported;

/// The public name of a device kind.
pub open spec fn kind_name(t: DeviceTag) -> Seq<char> {
    match t {
        DeviceTag::Cpu => "cpu"@,
        DeviceTag::Cuda => "cuda"@,
        DeviceTag::Rocm => "rocm"@,
        DeviceTag::Metal => "metal"@,
        DeviceTag::Vulkan => "vulkan"@,
        DeviceTag::WebGpu => "webgpu"@,
        DeviceTag::Hexagon => "hexagon"@,
        DeviceTag::LevelZero => "level_zero"@,
        DeviceTag::OpenCl => "opencl"@,
        DeviceTag::Private(_) => "private"@,
    }
}

/// The device kind a name denotes, if any. Private tags have no name.
pub open spec fn kind_of_name(s: Seq<char>) -> Option<DeviceTag> {
    if s == "cpu"@ { Some(DeviceTag::Cpu) }
    else if s == "cuda"@ { Some(DeviceTag::Cuda) }
    else if s == "rocm"@ { Some(DeviceTag::Rocm) }
    else if s == "metal"@ { Some(DeviceTag::Metal) }
    else if s == "vulkan"@ { Some(DeviceTag::Vulkan) }
    else if s == "webgpu"@ { Some(DeviceTag::WebGpu) }
    else if s == "hexagon"@ { Some(DeviceTag::Hexagon) }
    else if s == "level_zero"@ { Some(DeviceTag::LevelZero) }
    else if s == "opencl"@ { Some(DeviceTag::OpenCl) }
    else { None }
}

/// The public name of a memory class.
pub open spec fn memory_class_name(m: MemoryClass) -> Seq<char> {
    match m {
        MemoryClass::Standard => "standard"@,
        MemoryClass::HostPinned => "host_pinned"@,
        MemoryClass::Unified => "unified"@,
        MemoryClass::Peer => "peer"@,
        MemoryClass::Private(_) => "private"@,
    }
}

/// The memory class a name denotes, if any.
pub open spec fn memory_class_of_name(s: Seq<char>) -> Option<MemoryClass> {
    if s == "standard"@ { Some(MemoryClass::Standard) }
    else if s == "host_pinned"@ { Some(MemoryClass::HostPinned) }
    else if s == "unified"@ { Some(MemoryClass::Unified) }
    else if s == "peer"@ { Some(MemoryClass::Peer) }
    else { None }
}

/// The device that `Device(kind, device_id, memory_class)` builds, or why it fails.
/// The kind is checked first, then the memory class (default `"standard"`), then the
/// ordinal (default 0).
pub open spec fn spec_new_device(
    kind: Seq<char>,
    device_id: Option<i32>,
    memory_class: Option<Seq<char>>,
) -> Result<Device, DeviceError> {
    let mc_name = match memory_class {
        Some(m) => m,
        None => "standard"@,
    };
    let id: i32 = match device_id {
        Some(i) => i,
        None => 0,
    };
    match kind_of_name(kind) {
        None => Err(DeviceError::UnknownKind),
        Some(tag) => match memory_class_of_name(mc_name) {
            None => Err(DeviceError::UnknownMemoryClass),
            Some(mc) => if id < 0 {
                Err(DeviceError::NegativeDeviceId(id))
            } else {
                Ok(Device { tag, memory_class: mc, device_id: id })
            },
        },
    }
}

/// The `repr()` of a device.
pub open spec fn device_repr_spec(d: Device) -> Seq<char> {
    "hurray.Device(kind='"@ + kind_name(d.tag) + "', device_id="@ + signed_decimal(
        d.device_id as int,
    ) + ", memory_class='"@ + memory_class_name(d.memory_class) + "')"@
}

/// Parse a device kind name.
pub fn device_tag_from_str(s: &str) -> (r: Option<DeviceTag>)
    ensures
        r == kind_of_name(s@),
{
    if str_eq(s, "cpu") { Some(DeviceTag::Cpu) }
    else if str_eq(s, "cuda") { Some(DeviceTag::Cuda) }
    else if str_eq(s, "rocm") { Some(DeviceTag::Rocm) }
    else if str_eq(s, "metal") { Some(DeviceTag::Metal) }
    else if str_eq(s, "vulkan") { Some(DeviceTag::Vulkan) }
    else if str_eq(s, "webgpu") { Some(DeviceTag::WebGpu) }
    else if str_eq(s, "hexagon") { Some(DeviceTag::Hexagon) }
    else if str_eq(s, "level_zero") { Some(DeviceTag::LevelZero) }
    else if str_eq(s, "opencl") { Some(DeviceTag::OpenCl) }
    else { None }
}

/// The public name of a device kind; private tags read as `"private"`.
pub fn device_tag_to_str(tag: DeviceTag) -> (r: &'static str)
    ensures
        r@ == kind_name(tag),
{
    match tag {
        DeviceTag::Cpu => "cpu",
        DeviceTag::Cuda => "cuda",
        DeviceTag::Rocm => "rocm",
        DeviceTag::Metal => "metal",
        DeviceTag::Vulkan => "vulkan",
        DeviceTag::WebGpu => "webgpu",
        DeviceTag::Hexagon => "hexagon",
        DeviceTag::LevelZero => "level_zero",
        DeviceTag::OpenCl => "opencl",
        DeviceTag::Private(_) => "private",
    }
}

/// Parse a memory-class name.
pub fn memory_class_from_str(s: &str) -> (r: Option<MemoryClass>)
    ensures
        r == memory_class_of_name(s@),
{
    if str_eq(s, "standard") { Some(MemoryClass::Standard) }
    else if str_eq(s, "host_pinned") { Some(MemoryClass::HostPinned) }
    else if str_eq(s, "unified") { Some(MemoryClass::Unified) }
    else if str_eq(s, "peer") { Some(MemoryClass::Peer) }
    else { None }
}

/// The public name of a memory class; private classes read as `"private"`.
pub fn memory_class_to_str(mc: MemoryClass) -> (r: &'static str)
    ensures
        r@ == memory_class_name(mc),
{
    match mc {
        MemoryClass::Standard => "standard",
        MemoryClass::HostPinned => "host_pinned",
        MemoryClass::Unified => "unified",
        MemoryClass::Peer => "peer",
        MemoryClass::Private(_) => "private",
    }
}

impl Device {
    /// Build a device from its kind name, optional ordinal and optional memory-class name.
    pub fn new(kind: &str, device_id: Option<i32>, memory_class: Option<&str>) -> (r: Result<
        Device,
        DeviceError,
    >)
        ensures
            r == spec_new_device(
                kind@,
                device_id,
                match memory_class {
                    Some(m) => Some(m@),
                    None => None,
                },
            ),
    {
        let tag = match device_tag_from_str(kind) {
            Some(t) => t,
            None => return Err(DeviceError::UnknownKind),
        };
        let mc_name = match memory_class {
            Some(m) => m,
            None => "standard",
        };
        let mc = match memory_class_from_str(mc_name) {
            Some(m) => m,
            None => return Err(DeviceError::UnknownMemoryClass),
        };
        let id = match device_id {
            Some(i) => i,
            None => 0,
        };
        if id < 0 {
            return Err(DeviceError::NegativeDeviceId(id));
        }
        Ok(Device { tag, memory_class: mc, device_id: id })
    }

    /// The device kind name.
    pub fn kind(&self) -> (r: &'static str)
        ensures
            r@ == kind_name(self.tag),
    {
        device_tag_to_str(self.tag)
    }

    /// The device ordinal.
    pub fn device_id(&self) -> (r: i32)
        ensures
            r == self.device_id,
    {
        self.device_id
    }

    /// The memory-class name.
    pub fn memory_class(&self) -> (r: &'static str)
        ensures
            r@ == memory_class_name(self.memory_class),
    {
        memory_class_to_str(self.memory_class)
    }

    /// Python rich comparison: equality over all three fields; no ordering.
    pub fn richcmp(&self, other: &Device, op: CompareOp) -> (r: Result<bool, OrderingUnsupported>)
        ensures
            op == CompareOp::Eq ==> r == Ok::<bool, OrderingUnsupported>(*self == *other),
            op == CompareOp::Ne ==> r == Ok::<bool, OrderingUnsupported>(*self != *other),
            (op != CompareOp::Eq && op != CompareOp::Ne) ==> r == Err::<bool, OrderingUnsupported>(
                OrderingUnsupported,
            ),
    {
        match op {
            CompareOp::Eq => Ok(self.tag == other.tag && self.memory_class == other.memory_class
                && self.device_id == other.device_id),
            CompareOp::Ne => Ok(self.tag != other.tag || self.memory_class != other.memory_class
                || self.device_id != other.device_id),
            _ => Err(OrderingUnsupported),
        }
    }

    /// The `repr()` string: `hurray.Device(kind='cuda', device_id=1, memory_class='unified')`.
    pub fn repr(&self) -> (r: String)
        ensures
            r@ == device_repr_spec(*self),
    {
        device_repr(self)
    }
}

/// The `repr()` string of a device, usable by every module that prints one.
pub fn device_repr(dev: &Device) -> (r: String)
    ensures
        r@ == device_repr_spec(*dev),
{
    let mut s = String::new();
    s.append("hurray.Device(kind='");
    s.append(device_tag_to_str(dev.tag));
    s.append("', device_id=");
    push_signed_decimal(&mut s, dev.device_id as i64);
    s.append(", memory_class='");
    s.append(memory_class_to_str(dev.memory_class));
    s.append("')");
    s
}

/// The well-known devices published as constants: every named kind, ordinal 0,
/// standard memory, under the kind's own name.
pub fn well_known_devices() -> (r: Vec<(&'static str, Device)>)
    ensures
        r@.len() == 9,
        forall|i: int|
            0 <= i < 9 ==> {
                let (name, dev) = #[trigger] r@[i];
                &&& kind_of_name(name@) == Some(dev.tag)
                &&& kind_name(dev.tag) == name@
                &&& dev.memory_class == MemoryClass::Standard
                &&& dev.device_id == 0
            },
{
    let names = ["cpu", "cuda", "rocm", "metal", "vulkan", "webgpu", "hexagon", "level_zero", "opencl"];
    let mut out: Vec<(&'static str, Device)> = Vec::new();
    let mut i: usize = 0;
    while i < 9
        invariant
            i <= 9,
            out@.len() == i,
            names@ == seq!["cpu", "cuda", "rocm", "metal", "vulkan", "webgpu", "hexagon", "level_zero", "opencl"],
            forall|j: int|
                0 <= j < i ==> {
                    let (name, dev) = #[trigger] out@[j];
                    &&& kind_of_name(name@) == Some(dev.tag)
                    &&& kind_name(dev.tag) == name@
                    &&& dev.memory_class == MemoryClass::Standard
                    &&& dev.device_id == 0
                },
        decreases 9 - i,
    {
        let name = names[i];
        match device_tag_from_str(name) {
            Some(tag) => {
                proof { lemma_kind_name_round_trip(tag); }
                proof { lemma_kind_names_distinct(); }
                assert(kind_name(tag) == name@);
                out.push((name, Device { tag, memory_class: MemoryClass::Standard, device_id: 0 }));
            },
            None => {
                proof { lemma_kind_names_distinct(); }
                assert(false);
            },
        }
        i = i + 1;
    }
    out
}

proof fn lemma_kind_names_distinct()
    ensures
        "cpu"@.len() == 3,
        "cuda"@.len() == 4 && "cuda"@[0] == 'c',
        "rocm"@.len() == 4 && "rocm"@[0] == 'r',
        "metal"@.len() == 5,
        "vulkan"@.len() == 6 && "vulkan"@[0] == 'v',
        "webgpu"@.len() == 6 && "webgpu"@[0] == 'w',
        "hexagon"@.len() == 7,
        "level_zero"@.len() == 10,
        "opencl"@.len() == 6 && "opencl"@[0] == 'o',
{
    reveal_strlit("cpu");
    reveal_strlit("cuda");
    reveal_strlit("rocm");
    reveal_strlit("metal");
    reveal_strlit("vulkan");
    reveal_strlit("webgpu");
    reveal_strlit("hexagon");
    reveal_strlit("level_zero");
    reveal_strlit("opencl");
}

/// Every public device kind is parsed back from its own name.
pub proof fn lemma_kind_name_round_trip(t: DeviceTag)
    requires
        !(t is Private),
    ensures
        kind_of_name(kind_name(t)) == Some(t),
{
    lemma_kind_names_distinct();
}

/// A name that parses as a device kind is that kind's name.
pub proof fn lemma_kind_of_name_inverts(s: Seq<char>)
    requires
        kind_of_name(s) is Some,
    ensures
        kind_name(kind_of_name(s).unwrap()) == s,
{
    let t = kind_of_name(s).unwrap();
    if s == "cpu"@ {
        assert(t == DeviceTag::Cpu);
    } else if s == "cuda"@ {
        assert(t == DeviceTag::Cuda);
    } else if s == "rocm"@ {
        assert(t == DeviceTag::Rocm);
    } else if s == "metal"@ {
        assert(t == DeviceTag::Metal);
    } else if s == "vulkan"@ {
        assert(t == DeviceTag::Vulkan);
    } else if s == "webgpu"@ {
        assert(t == DeviceTag::WebGpu);
    } else if s == "hexagon"@ {
        assert(t == DeviceTag::Hexagon);
    } else if s == "level_zero"@ {
        assert(t == DeviceTag::LevelZero);
    } else {
        assert(t == DeviceTag::OpenCl);
    }
}

/// Every public memory class is parsed back from its own name.
pub proof fn lemma_memory_class_name_round_trip(m: MemoryClass)
    requires
        !(m is Private),
    ensures
        memory_class_of_name(memory_class_name(m)) == Some(m),
{
    reveal_strlit("standard");
    reveal_strlit("host_pinned");
    reveal_strlit("unified");
    reveal_strlit("peer");
    assert("standard"@.len() == 8);
    assert("host_pinned"@.len() == 11);
    assert("unified"@.len() == 7);
    assert("peer"@.len() == 4);
}

/// A name that parses as a memory class is that class's name.
pub proof fn lemma_memory_class_of_name_inverts(s: Seq<char>)
    requires
        memory_class_of_name(s) is Some,
    ensures
        memory_class_name(memory_class_of_name(s).unwrap()) == s,
{
    let m = memory_class_of_name(s).unwrap();
    if s == "standard"@ {
        assert(m == MemoryClass::Standard);
    } else if s == "host_pinned"@ {
        assert(m == MemoryClass::HostPinned);
    } else if s == "unified"@ {
        assert(m == MemoryClass::Unified);
    } else {
        assert(m == MemoryClass::Peer);
    }
}

} // verus!
