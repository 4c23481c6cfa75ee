//! The five quantization schemes. Every scheme but per-tensor affine references its
//! scale (and optional zero point) by index into the tensor's buffer table; a
//! symmetric scheme has no zero-point buffer.

use vstd::prelude::*;
use crate::dtype::{ElementType, Dtype, element_name};
use crate::text::{decimal, push_decimal};

verus! {

/// Per-tensor affine: one inline scale and zero point. The scale is an `f32`, held
/// here by its IEEE-754 bit pattern.
#[derive(Clone, Copy, Debug, PartialEq, Eq, Structural)]
pub struct PerTensorAffine {
    pub scale_bits: u32,
    pub zero_point: i32,
}

/// Per-channel affine along `axis`.
#[derive(Clone, Copy, Debug, PartialEq, Eq, Structural)]
pub struct PerChannelAffine {
    pub axis: u32,
    pub scale_buffer_index: u32,
    pub zero_point_buffer_index: Option<u32>,
}

/// Per-block affine: blocks of `block_size` along `axis`, scales of `scale_type`.
#[derive(Clone, Copy, Debug, PartialEq, Eq, Structural)]
pub struct PerBlockAffine {
    pub axis: u32,
    pub block_size: u32,
    pub scale_buffer_index: u32,
    pub zero_point_buffer_index: Option<u32>,
    pub scale_type: ElementType,
}

/// NF4: 4-bit normal-float codes with per-block scales.
#[derive(Clone, Copy, Debug, PartialEq, Eq, Structural)]
pub struct Nf4 {
    pub axis: u32,
    pub block_size: u32,
    pub scale_buffer_index: u32,
}

/// MXFP: microscaling floats with per-block shared exponents.
#[derive(Clone, Copy, Debug, PartialEq, Eq, Structural)]
pub struct Mxfp {
    pub axis: u32,
    pub block_size: u32,
    pub scale_buffer_index: u32,
}

/// A quantization descriptor.
#[derive(Clone, Copy, Debug, PartialEq, Eq, Structural)]
pub enum QuantizationDescriptor {
    PerTensorAffine(PerTensorAffine),
    PerChannelAffine(PerChannelAffine),
    PerBlockAffine(PerBlockAffine),
    Nf4(Nf4),
    Mxfp(Mxfp),
}

/// The buffer indices a scheme references, scale before zero point.
pub open spec fn spec_quantization_indices(q: QuantizationDescriptor) -> Seq<u32> {
    match q {
        QuantizationDescriptor::PerTensorAffine(_) => Seq::empty(),
        QuantizationDescriptor::PerChannelAffine(x) => match x.zero_point_buffer_index {
            Some(z) => seq![x.scale_buffer_index, z],
            None => seq![x.scale_buffer_index],
        },
        QuantizationDescriptor::PerBlockAffine(x) => match x.zero_point_buffer_index {
            Some(z) => seq![x.scale_buffer_index, z],
            None => seq![x.scale_buffer_index],
        },
        QuantizationDescriptor::Nf4(x) => seq![x.scale_buffer_index],
        QuantizationDescriptor::Mxfp(x) => seq![x.scale_buffer_index],
    }
}

/// The buffer indices a quantization scheme references.
pub fn quantization_buffer_indices(q: &QuantizationDescriptor) -> (r: Vec<u32>)
    ensures
        r@ == spec_quantization_indices(*q),
{
    let mut v: Vec<u32> = Vec::new();
    match q {
        QuantizationDescriptor::PerTensorAffine(_) => {},
        QuantizationDescriptor::PerChannelAffine(x) => {
            v.push(x.scale_buffer_index);
            if let Some(z) = x.zero_point_buffer_index {
                v.push(z);
            }
        },
        QuantizationDescriptor::PerBlockAffine(x) => {
            v.push(x.scale_buffer_index);
            if let Some(z) = x.zero_point_buffer_index {
                v.push(z);
            }
        },
        QuantizationDescriptor::Nf4(x) => v.push(x.scale_buffer_index),
        QuantizationDescriptor::Mxfp(x) => v.push(x.scale_buffer_index),
    }
    assert(v@ =~= spec_quantization_indices(*q));
    v
}

impl PerTensorAffine {
    /// An inline scale (as `f32` bits) and zero point.
    pub fn new(scale_bits: u32, zero_point: i32) -> (r: PerTensorAffine)
        ensures
            r == (PerTensorAffine { scale_bits, zero_point }),
    {
        PerTensorAffine { scale_bits, zero_point }
    }

    /// The scale's `f32` bit pattern.
    pub fn scale_bits(&self) -> (r: u32)
        ensures
            r == self.scale_bits,
    {
        self.scale_bits
    }

    /// The zero point.
    pub fn zero_point(&self) -> (r: i32)
        ensures
            r == self.zero_point,
    {
        self.zero_point
    }
}

/// `Some(3)` / `None`, as Rust's `Debug` spells an optional index.
pub open spec fn debug_option(v: Option<u32>) -> Seq<char> {
    match v {
        Some(i) => "Some("@ + decimal(i as nat) + ")"@,
        None => "None"@,
    }
}

impl PerChannelAffine {
    /// Symmetric: no zero-point buffer.
    pub fn symmetric(axis: u32, scale_buffer_index: u32) -> (r: PerChannelAffine)
        ensures
            r == (PerChannelAffine { axis, scale_buffer_index, zero_point_buffer_index: None }),
    {
        PerChannelAffine { axis, scale_buffer_index, zero_point_buffer_index: None }
    }

    /// Asymmetric: scales and zero points, each in a buffer of its own.
    pub fn asymmetric(axis: u32, scale_buffer_index: u32, zero_point_buffer_index: u32) -> (r:
        PerChannelAffine)
        ensures
            r == (PerChannelAffine {
                axis,
                scale_buffer_index,
                zero_point_buffer_index: Some(zero_point_buffer_index),
            }),
    {
        PerChannelAffine {
            axis,
            scale_buffer_index,
            zero_point_buffer_index: Some(zero_point_buffer_index),
        }
    }

    pub fn axis(&self) -> (r: u32)
        ensures
            r == self.axis,
    {
        self.axis
    }

    pub fn scale_buffer_index(&self) -> (r: u32)
        ensures
            r == self.scale_buffer_index,
    {
        self.scale_buffer_index
    }

    pub fn zero_point_buffer_index(&self) -> (r: Option<u32>)
        ensures
            r == self.zero_point_buffer_index,
    {
        self.zero_point_buffer_index
    }

    /// `PerChannelAffine.asymmetric(axis=.., scale_buffer_index=.., zero_point_buffer_index=..)`
    /// or `PerChannelAffine.symmetric(axis=.., scale_buffer_index=..)`.
    pub fn repr(&self) -> (r: String)
        ensures
            r@ == match self.zero_point_buffer_index {
                Some(z) => "PerChannelAffine.asymmetric(axis="@ + decimal(self.axis as nat)
                    + ", scale_buffer_index="@ + decimal(self.scale_buffer_index as nat)
                    + ", zero_point_buffer_index="@ + decimal(z as nat) + ")"@,
                None => "PerChannelAffine.symmetric(axis="@ + decimal(self.axis as nat)
                    + ", scale_buffer_index="@ + decimal(self.scale_buffer_index as nat) + ")"@,
            },
    {
        let mut s = String::new();
        match self.zero_point_buffer_index {
            Some(z) => {
                s.append("PerChannelAffine.asymmetric(axis=");
                push_decimal(&mut s, self.axis as u64);
                s.append(", scale_buffer_index=");
                push_decimal(&mut s, self.scale_buffer_index as u64);
                s.append(", zero_point_buffer_index=");
                push_decimal(&mut s, z as u64);
                s.append(")");
            },
            None => {
                s.append("PerChannelAffine.symmetric(axis=");
                push_decimal(&mut s, self.axis as u64);
                s.append(", scale_buffer_index=");
                push_decimal(&mut s, self.scale_buffer_index as u64);
                s.append(")");
            },
        }
        s
    }
}

impl PerBlockAffine {
    /// Symmetric: no zero-point buffer.
    pub fn symmetric(axis: u32, block_size: u32, scale_buffer_index: u32, scale_type: &Dtype) -> (r:
        PerBlockAffine)
        ensures
            r == (PerBlockAffine {
                axis,
                block_size,
                scale_buffer_index,
                zero_point_buffer_index: None,
                scale_type: scale_type.inner,
            }),
    {
        PerBlockAffine {
            axis,
            block_size,
            scale_buffer_index,
            zero_point_buffer_index: None,
            scale_type: scale_type.inner,
        }
    }

    /// Asymmetric: scales and zero points, each in a buffer of its own.
    pub fn asymmetric(
        axis: u32,
        block_size: u32,
        scale_buffer_index: u32,
        zero_point_buffer_index: u32,
        scale_type: &Dtype,
    ) -> (r: PerBlockAffine)
        ensures
            r == (PerBlockAffine {
                axis,
                block_size,
                scale_buffer_index,
                zero_point_buffer_index: Some(zero_point_buffer_index),
                scale_type: scale_type.inner,
            }),
    {
        PerBlockAffine {
            axis,
            block_size,
            scale_buffer_index,
            zero_point_buffer_index: Some(zero_point_buffer_index),
            scale_type: scale_type.inner,
        }
    }

    pub fn axis(&self) -> (r: u32)
        ensures
            r == self.axis,
    {
        self.axis
    }

    pub fn block_size(&self) -> (r: u32)
        ensures
            r == self.block_size,
    {
        self.block_size
    }

    pub fn scale_buffer_index(&self) -> (r: u32)
        ensures
            r == self.scale_buffer_index,
    {
        self.scale_buffer_index
    }

    pub fn zero_point_buffer_index(&self) -> (r: Option<u32>)
        ensures
            r == self.zero_point_buffer_index,
    {
        self.zero_point_buffer_index
    }

    /// The element type of the scales.
    pub fn scale_type(&self) -> (r: Dtype)
        ensures
            r.inner == self.scale_type,
    {
        Dtype { inner: self.scale_type }
    }

    /// `PerBlockAffine(axis=.., block_size=.., scale_buffer_index=.., zero_point_buffer_index=Some(..)|None)`.
    pub fn repr(&self) -> (r: String)
        ensures
            r@ == "PerBlockAffine(axis="@ + decimal(self.axis as nat) + ", block_size="@ + decimal(
                self.block_size as nat,
            ) + ", scale_buffer_index="@ + decimal(self.scale_buffer_index as nat)
                + ", zero_point_buffer_index="@ + debug_option(self.zero_point_buffer_index)
                + ")"@,
    {
        let mut s = String::new();
        s.append("PerBlockAffine(axis=");
        push_decimal(&mut s, self.axis as u64);
        s.append(", block_size=");
        push_decimal(&mut s, self.block_size as u64);
        s.append(", scale_buffer_index=");
        push_decimal(&mut s, self.scale_buffer_index as u64);
        s.append(", zero_point_buffer_index=");
        match self.zero_point_buffer_index {
            Some(z) => {
                s.append("Some(");
                push_decimal(&mut s, z as u64);
                s.append(")");
            },
            None => s.append("None"),
        }
        s.append(")");
        s
    }
}

/// `NAME(axis=.., block_size=.., scale_buffer_index=..)`.
pub open spec fn block_scheme_repr(name: Seq<char>, axis: u32, block_size: u32, scale: u32) -> Seq<
    char,
> {
    name + "(axis="@ + decimal(axis as nat) + ", block_size="@ + decimal(block_size as nat)
        + ", scale_buffer_index="@ + decimal(scale as nat) + ")"@
}

fn block_scheme_repr_string(name: &str, axis: u32, block_size: u32, scale: u32) -> (r: String)
    ensures
        r@ == block_scheme_repr(name@, axis, block_size, scale),
{
    let mut s = String::new();
    s.append(name);
    s.append("(axis=");
    push_decimal(&mut s, axis as u64);
    s.append(", block_size=");
    push_decimal(&mut s, block_size as u64);
    s.append(", scale_buffer_index=");
    push_decimal(&mut s, scale as u64);
    s.append(")");
    s
}

impl Nf4 {
    pub fn new(axis: u32, block_size: u32, scale_buffer_index: u32) -> (r: Nf4)
        ensures
            r == (Nf4 { axis, block_size, scale_buffer_index }),
    {
        Nf4 { axis, block_size, scale_buffer_index }
    }

    pub fn axis(&self) -> (r: u32)
        ensures
            r == self.axis,
    {
        self.axis
    }

    pub fn block_size(&self) -> (r: u32)
        ensures
            r == self.block_size,
    {
        self.block_size
    }

    pub fn scale_buffer_index(&self) -> (r: u32)
        ensures
            r == self.scale_buffer_index,
    {
        self.scale_buffer_index
    }

    /// `NF4(axis=.., block_size=.., scale_buffer_index=..)`.
    pub fn repr(&self) -> (r: String)
        ensures
            r@ == block_scheme_repr("NF4"@, self.axis, self.block_size, self.scale_buffer_index),
    {
        block_scheme_repr_string("NF4", self.axis, self.block_size, self.scale_buffer_index)
    }
}

impl Mxfp {
    pub fn new(axis: u32, block_size: u32, scale_buffer_index: u32) -> (r: Mxfp)
        ensures
            r == (Mxfp { axis, block_size, scale_buffer_index }),
    {
        Mxfp { axis, block_size, scale_buffer_index }
    }

    pub fn axis(&self) -> (r: u32)
        ensures
            r == self.axis,
    {
        self.axis
    }

    pub fn block_size(&self) -> (r: u32)
        ensures
            r == self.block_size,
    {
        self.block_size
    }

    pub fn scale_buffer_index(&self) -> (r: u32)
        ensures
            r == self.scale_buffer_index,
    {
        self.scale_buffer_index
    }

    /// `MXFP(axis=.., block_size=.., scale_buffer_index=..)`.
    pub fn repr(&self) -> (r: String)
        ensures
            r@ == block_scheme_repr("MXFP"@, self.axis, self.block_size, self.scale_buffer_index),
    {
        block_scheme_repr_string("MXFP", self.axis, self.block_size, self.scale_buffer_index)
    }
}

} // verus!
