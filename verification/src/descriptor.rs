//! Tensor descriptors as the binding builds and reads them: element type, shape,
//! layout and the buffer table, one handle per buffer in descriptor order.
//!
//! A buffer handle is a value: five scalars copied out of a buffer-table row, holding
//! no reference to any tensor or byte. The device a descriptor reports is the one its
//! first buffer records; a descriptor without buffers (a composite head) reports the
//! CPU with standard memory.

use vstd::prelude::*;
use crate::device::{Device, DeviceTag, MemoryClass};
use crate::dtype::{ElementType, element_name, element_type_name};
use crate::layout::{LayoutDescriptor, layout_name, spec_layout_name};
use crate::text::{decimal, decimals_u64, push_decimal, push_py_tuple, py_tuple, views};

verus! {

/// Who synchronises a buffer's producer and consumer.
#[derive(Clone, Copy, Debug, PartialEq, Eq, Structural)]
pub enum SyncMode {
    /// The producer finished writing before handing the buffer over.
    ProducerSynced,
    /// A device event exists for the consumer to wait on.
    Event,
}

/// One row of a descriptor's buffer table.
#[derive(Clone, Copy, Debug, PartialEq, Eq, Structural)]
pub struct BufferHandle {
    pub byte_size: u64,
    pub alignment: u32,
    pub device_tag: DeviceTag,
    pub sync_mode: SyncMode,
    pub memory_class: MemoryClass,
}

impl BufferHandle {
    /// A handle over zero bytes.
    pub fn is_empty(&self) -> (r: bool)
        ensures
            r == (self.byte_size == 0),
    {
        self.byte_size == 0
    }

    /// Handles compare by all five fields.
    pub fn eq(&self, other: &BufferHandle) -> (r: bool)
        ensures
            r == (*self == *other),
    {
        self.byte_size == other.byte_size && self.alignment == other.alignment
            && self.device_tag == other.device_tag && self.sync_mode == other.sync_mode
            && self.memory_class == other.memory_class
    }
}

/// The alignment a producer-owned or freshly wrapped buffer declares: the format's
/// 64-byte floor, or `1` for an empty buffer.
pub open spec fn spec_declared_alignment(byte_size: u64) -> u32 {
    if byte_size == 0 {
        1
    } else {
        64
    }
}

/// The declared alignment of a buffer of `byte_size` bytes.
pub fn declared_alignment(byte_size: u64) -> (r: u32)
    ensures
        r == spec_declared_alignment(byte_size),
{
    if byte_size == 0 {
        1
    } else {
        64
    }
}

/// A producer-synchronised handle on a given device and memory class.
pub open spec fn spec_handle_on(byte_size: u64, tag: DeviceTag, mc: MemoryClass) -> BufferHandle {
    BufferHandle {
        byte_size,
        alignment: spec_declared_alignment(byte_size),
        device_tag: tag,
        sync_mode: SyncMode::ProducerSynced,
        memory_class: mc,
    }
}

/// Build a producer-synchronised handle on a device.
pub fn handle_on(byte_size: u64, tag: DeviceTag, mc: MemoryClass) -> (r: BufferHandle)
    ensures
        r == spec_handle_on(byte_size, tag, mc),
{
    BufferHandle {
        byte_size,
        alignment: declared_alignment(byte_size),
        device_tag: tag,
        sync_mode: SyncMode::ProducerSynced,
        memory_class: mc,
    }
}

/// A producer-synchronised handle in standard CPU memory.
pub fn host_handle(byte_size: u64) -> (r: BufferHandle)
    ensures
        r == spec_handle_on(byte_size, DeviceTag::Cpu, MemoryClass::Standard),
{
    handle_on(byte_size, DeviceTag::Cpu, MemoryClass::Standard)
}

/// A tensor descriptor.
pub struct TensorDescriptor {
    pub element_type: ElementType,
    pub shape: Vec<u64>,
    pub byte_offset: u64,
    pub layout: LayoutDescriptor,
    pub buffers: Vec<BufferHandle>,
}

/// The device a descriptor reports: its first buffer's, or standard CPU memory.
pub open spec fn spec_descriptor_device(buffers: Seq<BufferHandle>) -> Device {
    if buffers.len() > 0 {
        Device { tag: buffers[0].device_tag, memory_class: buffers[0].memory_class, device_id: 0 }
    } else {
        Device { tag: DeviceTag::Cpu, memory_class: MemoryClass::Standard, device_id: 0 }
    }
}

impl TensorDescriptor {
    /// The device the descriptor's buffers live on.
    pub fn device(&self) -> (r: Device)
        ensures
            r == spec_descriptor_device(self.buffers@),
    {
        if self.buffers.len() > 0 {
            Device {
                tag: self.buffers[0].device_tag,
                memory_class: self.buffers[0].memory_class,
                device_id: 0,
            }
        } else {
            Device { tag: DeviceTag::Cpu, memory_class: MemoryClass::Standard, device_id: 0 }
        }
    }

    /// Number of dimensions.
    pub fn ndim(&self) -> (r: usize)
        ensures
            r == self.shape@.len(),
    {
        self.shape.len()
    }

    /// Number of buffers in the table.
    pub fn buffer_count(&self) -> (r: usize)
        ensures
            r == self.buffers@.len(),
    {
        self.buffers.len()
    }

    /// `hurray.Descriptor(dtype=float32, shape=(2, 3), layout='row_major', buffers=1)`.
    pub fn repr(&self) -> (r: String)
        ensures
            r@ == spec_descriptor_repr(
                self.element_type,
                self.shape@,
                self.layout,
                self.buffers@.len(),
            ),
    {
        let mut s = String::new();
        s.append("hurray.Descriptor(dtype=");
        s.append(element_type_name(self.element_type));
        s.append(", shape=");
        push_shape(&mut s, &self.shape);
        s.append(", layout='");
        s.append(layout_name(&self.layout));
        s.append("', buffers=");
        push_decimal(&mut s, self.buffers.len() as u64);
        s.append(")");
        proof {
            reveal_strlit("hurray.Descriptor(dtype=");
            reveal_strlit(", shape=");
            reveal_strlit(", layout='");
            reveal_strlit("', buffers=");
            reveal_strlit(")");
        }
        assert(s@ =~= spec_descriptor_repr(
            self.element_type,
            self.shape@,
            self.layout,
            self.buffers@.len(),
        ));
        s
    }
}

/// Python's spelling of a shape tuple: `()`, `(4,)`, `(2, 3)`.
pub open spec fn shape_repr(dims: Seq<u64>) -> Seq<char> {
    py_tuple(Seq::new(dims.len(), |i: int| decimal(dims[i] as nat)))
}

/// Append the Python spelling of a shape tuple.
pub fn push_shape(s: &mut String, dims: &Vec<u64>)
    ensures
        final(s)@ == old(s)@ + shape_repr(dims@),
{
    let parts = decimals_u64(dims);
    push_py_tuple(s, &parts);
}

/// The `repr` of a descriptor.
pub open spec fn spec_descriptor_repr(
    t: ElementType,
    dims: Seq<u64>,
    l: LayoutDescriptor,
    buffers: nat,
) -> Seq<char> {
    "hurray.Descriptor(dtype="@ + element_name(t) + ", shape="@ + shape_repr(dims) + ", layout='"@
        + spec_layout_name(l) + "', buffers="@ + decimal(buffers) + ")"@
}

/// Copy a shape vector.
pub fn copy_dims(dims: &Vec<u64>) -> (r: Vec<u64>)
    ensures
        r@ == dims@,
{
    let mut out: Vec<u64> = Vec::new();
    let mut i: usize = 0;
    while i < dims.len()
        invariant
            i <= dims.len(),
            out@ == dims@.subrange(0, i as int),
        decreases dims.len() - i,
    {
        out.push(dims[i]);
        i = i + 1;
    }
    assert(out@ =~= dims@);
    out
}

/// The descriptor of a freshly filled, owned, row-major tensor: one buffer of
/// `data_len` bytes on the requested device, declaring the format's alignment floor
/// (or `1` when empty), at byte offset zero.
pub fn owned_descriptor(
    t: ElementType,
    dims: Vec<u64>,
    data_len: u64,
    tag: DeviceTag,
    mc: MemoryClass,
) -> (r: TensorDescriptor)
    ensures
        r.element_type == t,
        r.shape@ == dims@,
        r.byte_offset == 0,
        r.layout is RowMajor,
        r.buffers@ == seq![spec_handle_on(data_len, tag, mc)],
        crate::layout::spec_required_buffers(r.layout) == Some(r.buffers@.len()),
{
    let h = handle_on(data_len, tag, mc);
    let buffers = vec![h];
    TensorDescriptor {
        element_type: t,
        shape: dims,
        byte_offset: 0,
        layout: LayoutDescriptor::RowMajor,
        buffers,
    }
}

} // verus!
