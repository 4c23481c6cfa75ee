//! Element types: names, widths, classification and packed buffer sizes.
//!
//! Tier 1 types are the Array API-compatible ones (`float16` through `uint64` and
//! `bool`); Tier 2 holds the extended and sub-byte types. Sub-byte types pack several
//! elements per byte, so a buffer's size is not simply `count * bit_width / 8`.

use vstd::prelude::*;
use crate::device::{CompareOp, OrderingUnsupported};
use crate::text::str_eq;

verus! {

/// A scalar element type of the format.
#[derive(Clone, Copy, Debug, PartialEq, Eq, Structural)]
pub enum ElementType {
    Float16,
    BFloat16,
    Float32,
    Float64,
    Int8,
    Uint8,
    Int16,
    Uint16,
    Int32,
    Uint32,
    Int64,
    Uint64,
    Bool,
    Float8E4M3,
    Float8E5M2,
    Float8E8M0,
    Float4E2M1,
    Float6E2M3,
    Float6E3M2,
    Float128,
    Int4,
    Uint4,
    Int2,
    Uint2,
    Complex64,
    Complex128,
}

/// The canonical lowercase name of an element type.
pub open spec fn element_name(t: ElementType) -> Seq<char> {
    match t {
        ElementType::Float16 => "float16"@,
        ElementType::BFloat16 => "bfloat16"@,
        ElementType::Float32 => "float32"@,
        ElementType::Float64 => "float64"@,
        ElementType::Int8 => "int8"@,
        ElementType::Uint8 => "uint8"@,
        ElementType::Int16 => "int16"@,
        ElementType::Uint16 => "uint16"@,
        ElementType::Int32 => "int32"@,
        ElementType::Uint32 => "uint32"@,
        ElementType::Int64 => "int64"@,
        ElementType::Uint64 => "uint64"@,
        ElementType::Bool => "bool"@,
        ElementType::Float8E4M3 => "float8_e4m3"@,
        ElementType::Float8E5M2 => "float8_e5m2"@,
        ElementType::Float8E8M0 => "float8_e8m0"@,
        ElementType::Float4E2M1 => "float4_e2m1"@,
        ElementType::Float6E2M3 => "float6_e2m3"@,
        ElementType::Float6E3M2 => "float6_e3m2"@,
        ElementType::Float128 => "float128"@,
        ElementType::Int4 => "int4"@,
        ElementType::Uint4 => "uint4"@,
        ElementType::Int2 => "int2"@,
        ElementType::Uint2 => "uint2"@,
        ElementType::Complex64 => "complex64"@,
        ElementType::Complex128 => "complex128"@,
    }
}

/// The element type a canonical name denotes, if any.
pub open spec fn element_of_name(s: Seq<char>) -> Option<ElementType> {
    if s == "float16"@ { Some(ElementType::Float16) }
    else if s == "bfloat16"@ { Some(ElementType::BFloat16) }
    else if s == "float32"@ { Some(ElementType::Float32) }
    else if s == "float64"@ { Some(ElementType::Float64) }
    else if s == "int8"@ { Some(ElementType::Int8) }
    else if s == "uint8"@ { Some(ElementType::Uint8) }
    else if s == "int16"@ { Some(ElementType::Int16) }
    else if s == "uint16"@ { Some(ElementType::Uint16) }
    else if s == "int32"@ { Some(ElementType::Int32) }
    else if s == "uint32"@ { Some(ElementType::Uint32) }
    else if s == "int64"@ { Some(ElementType::Int64) }
    else if s == "uint64"@ { Some(ElementType::Uint64) }
    else if s == "bool"@ { Some(ElementType::Bool) }
    else if s == "float8_e4m3"@ { Some(ElementType::Float8E4M3) }
    else if s == "float8_e5m2"@ { Some(ElementType::Float8E5M2) }
    else if s == "float8_e8m0"@ { Some(ElementType::Float8E8M0) }
    else if s == "float4_e2m1"@ { Some(ElementType::Float4E2M1) }
    else if s == "float6_e2m3"@ { Some(ElementType::Float6E2M3) }
    else if s == "float6_e3m2"@ { Some(ElementType::Float6E3M2) }
    else if s == "float128"@ { Some(ElementType::Float128) }
    else if s == "int4"@ { Some(ElementType::Int4) }
    else if s == "uint4"@ { Some(ElementType::Uint4) }
    else if s == "int2"@ { Some(ElementType::Int2) }
    else if s == "uint2"@ { Some(ElementType::Uint2) }
    else if s == "complex64"@ { Some(ElementType::Complex64) }
    else if s == "complex128"@ { Some(ElementType::Complex128) }
    else { None }
}

/// The width of one element in bits.
pub open spec fn spec_bit_width(t: ElementType) -> nat {
    match t {
        ElementType::Float16 => 16,
        ElementType::BFloat16 => 16,
        ElementType::Float32 => 32,
        ElementType::Float64 => 64,
        ElementType::Int8 => 8,
        ElementType::Uint8 => 8,
        ElementType::Int16 => 16,
        ElementType::Uint16 => 16,
        ElementType::Int32 => 32,
        ElementType::Uint32 => 32,
        ElementType::Int64 => 64,
        ElementType::Uint64 => 64,
        ElementType::Bool => 1,
        ElementType::Float8E4M3 => 8,
        ElementType::Float8E5M2 => 8,
        ElementType::Float8E8M0 => 8,
        ElementType::Float4E2M1 => 4,
        ElementType::Float6E2M3 => 6,
        ElementType::Float6E3M2 => 6,
        ElementType::Float128 => 128,
        ElementType::Int4 => 4,
        ElementType::Uint4 => 4,
        ElementType::Int2 => 2,
        ElementType::Uint2 => 2,
        ElementType::Complex64 => 64,
        ElementType::Complex128 => 128,
    }
}

/// The tier: 1 for the Array API-compatible types, 2 for the extended ones.
pub open spec fn spec_tier(t: ElementType) -> nat {
    match t {
        ElementType::Float16 => 1,
        ElementType::BFloat16 => 1,
        ElementType::Float32 => 1,
        ElementType::Float64 => 1,
        ElementType::Int8 => 1,
        ElementType::Uint8 => 1,
        ElementType::Int16 => 1,
        ElementType::Uint16 => 1,
        ElementType::Int32 => 1,
        ElementType::Uint32 => 1,
        ElementType::Int64 => 1,
        ElementType::Uint64 => 1,
        ElementType::Bool => 1,
        ElementType::Float8E4M3 => 2,
        ElementType::Float8E5M2 => 2,
        ElementType::Float8E8M0 => 2,
        ElementType::Float4E2M1 => 2,
        ElementType::Float6E2M3 => 2,
        ElementType::Float6E3M2 => 2,
        ElementType::Float128 => 2,
        ElementType::Int4 => 2,
        ElementType::Uint4 => 2,
        ElementType::Int2 => 2,
        ElementType::Uint2 => 2,
        ElementType::Complex64 => 2,
        ElementType::Complex128 => 2,
    }
}

/// Signed or unsigned integers of any width (not bool, not floats).
pub open spec fn spec_is_integer(t: ElementType) -> bool {
    match t {
        ElementType::Float16 => false,
        ElementType::BFloat16 => false,
        ElementType::Float32 => false,
        ElementType::Float64 => false,
        ElementType::Int8 => true,
        ElementType::Uint8 => true,
        ElementType::Int16 => true,
        ElementType::Uint16 => true,
        ElementType::Int32 => true,
        ElementType::Uint32 => true,
        ElementType::Int64 => true,
        ElementType::Uint64 => true,
        ElementType::Bool => false,
        ElementType::Float8E4M3 => false,
        ElementType::Float8E5M2 => false,
        ElementType::Float8E8M0 => false,
        ElementType::Float4E2M1 => false,
        ElementType::Float6E2M3 => false,
        ElementType::Float6E3M2 => false,
        ElementType::Float128 => false,
        ElementType::Int4 => true,
        ElementType::Uint4 => true,
        ElementType::Int2 => true,
        ElementType::Uint2 => true,
        ElementType::Complex64 => false,
        ElementType::Complex128 => false,
    }
}

/// Floating-point and complex types.
pub open spec fn spec_is_float(t: ElementType) -> bool {
    match t {
        ElementType::Float16 => true,
        ElementType::BFloat16 => true,
        ElementType::Float32 => true,
        ElementType::Float64 => true,
        ElementType::Int8 => false,
        ElementType::Uint8 => false,
        ElementType::Int16 => false,
        ElementType::Uint16 => false,
        ElementType::Int32 => false,
        ElementType::Uint32 => false,
        ElementType::Int64 => false,
        ElementType::Uint64 => false,
        ElementType::Bool => false,
        ElementType::Float8E4M3 => true,
        ElementType::Float8E5M2 => true,
        ElementType::Float8E8M0 => true,
        ElementType::Float4E2M1 => true,
        ElementType::Float6E2M3 => true,
        ElementType::Float6E3M2 => true,
        ElementType::Float128 => true,
        ElementType::Int4 => false,
        ElementType::Uint4 => false,
        ElementType::Int2 => false,
        ElementType::Uint2 => false,
        ElementType::Complex64 => true,
        ElementType::Complex128 => true,
    }
}

/// Types with a sign: signed integers and every float but `float8_e8m0`.
pub open spec fn spec_is_signed(t: ElementType) -> bool {
    match t {
        ElementType::Float16 => true,
        ElementType::BFloat16 => true,
        ElementType::Float32 => true,
        ElementType::Float64 => true,
        ElementType::Int8 => true,
        ElementType::Uint8 => false,
        ElementType::Int16 => true,
        ElementType::Uint16 => false,
        ElementType::Int32 => true,
        ElementType::Uint32 => false,
        ElementType::Int64 => true,
        ElementType::Uint64 => false,
        ElementType::Bool => false,
        ElementType::Float8E4M3 => true,
        ElementType::Float8E5M2 => true,
        ElementType::Float8E8M0 => false,
        ElementType::Float4E2M1 => true,
        ElementType::Float6E2M3 => true,
        ElementType::Float6E3M2 => true,
        ElementType::Float128 => true,
        ElementType::Int4 => true,
        ElementType::Uint4 => false,
        ElementType::Int2 => true,
        ElementType::Uint2 => false,
        ElementType::Complex64 => true,
        ElementType::Complex128 => true,
    }
}

/// The natural alignment of one element in bytes; packed sub-byte types report 1.
pub open spec fn spec_element_alignment(t: ElementType) -> nat {
    match t {
        ElementType::Float16 => 2,
        ElementType::BFloat16 => 2,
        ElementType::Float32 => 4,
        ElementType::Float64 => 8,
        ElementType::Int8 => 1,
        ElementType::Uint8 => 1,
        ElementType::Int16 => 2,
        ElementType::Uint16 => 2,
        ElementType::Int32 => 4,
        ElementType::Uint32 => 4,
        ElementType::Int64 => 8,
        ElementType::Uint64 => 8,
        ElementType::Bool => 1,
        ElementType::Float8E4M3 => 1,
        ElementType::Float8E5M2 => 1,
        ElementType::Float8E8M0 => 1,
        ElementType::Float4E2M1 => 1,
        ElementType::Float6E2M3 => 1,
        ElementType::Float6E3M2 => 1,
        ElementType::Float128 => 16,
        ElementType::Int4 => 1,
        ElementType::Uint4 => 1,
        ElementType::Int2 => 1,
        ElementType::Uint2 => 1,
        ElementType::Complex64 => 4,
        ElementType::Complex128 => 8,
    }
}

/// Ceiling division.
pub open spec fn ceil_div(n: nat, d: nat) -> nat
    recommends
        d > 0,
{
    ((n + d - 1) / (d as int)) as nat
}

/// The bytes `count` packed elements occupy: 1-bit types pack eight per byte, 2-bit
/// types four, 4-bit types two, 6-bit types four elements per three bytes; every
/// other type takes `bit_width / 8` bytes per element.
pub open spec fn packed_size(t: ElementType, count: nat) -> nat {
    let w = spec_bit_width(t);
    if w == 1 {
        ceil_div(count, 8)
    } else if w == 2 {
        ceil_div(count, 4)
    } else if w == 4 {
        ceil_div(count, 2)
    } else if w == 6 {
        ceil_div(count, 4) * 3
    } else {
        count * (w / 8)
    }
}

/// `packed_size`, held at `u64::MAX` where it would not fit.
pub open spec fn saturated_size(t: ElementType, count: nat) -> u64 {
    if packed_size(t, count) > u64::MAX {
        u64::MAX
    } else {
        packed_size(t, count) as u64
    }
}

/// Every element type, in declaration order.
pub open spec fn all_types() -> Seq<ElementType> {
    seq![ElementType::Float16, ElementType::BFloat16, ElementType::Float32, ElementType::Float64, ElementType::Int8, ElementType::Uint8, ElementType::Int16, ElementType::Uint16, ElementType::Int32, ElementType::Uint32, ElementType::Int64, ElementType::Uint64, ElementType::Bool, ElementType::Float8E4M3, ElementType::Float8E5M2, ElementType::Float8E8M0, ElementType::Float4E2M1, ElementType::Float6E2M3, ElementType::Float6E3M2, ElementType::Float128, ElementType::Int4, ElementType::Uint4, ElementType::Int2, ElementType::Uint2, ElementType::Complex64, ElementType::Complex128]
}

/// Parse a canonical element-type name.
pub fn element_type_from_name(name: &str) -> (r: Option<ElementType>)
    ensures
        r == element_of_name(name@),
{
    if str_eq(name, "float16") { Some(ElementType::Float16) }
    else if str_eq(name, "bfloat16") { Some(ElementType::BFloat16) }
    else if str_eq(name, "float32") { Some(ElementType::Float32) }
    else if str_eq(name, "float64") { Some(ElementType::Float64) }
    else if str_eq(name, "int8") { Some(ElementType::Int8) }
    else if str_eq(name, "uint8") { Some(ElementType::Uint8) }
    else if str_eq(name, "int16") { Some(ElementType::Int16) }
    else if str_eq(name, "uint16") { Some(ElementType::Uint16) }
    else if str_eq(name, "int32") { Some(ElementType::Int32) }
    else if str_eq(name, "uint32") { Some(ElementType::Uint32) }
    else if str_eq(name, "int64") { Some(ElementType::Int64) }
    else if str_eq(name, "uint64") { Some(ElementType::Uint64) }
    else if str_eq(name, "bool") { Some(ElementType::Bool) }
    else if str_eq(name, "float8_e4m3") { Some(ElementType::Float8E4M3) }
    else if str_eq(name, "float8_e5m2") { Some(ElementType::Float8E5M2) }
    else if str_eq(name, "float8_e8m0") { Some(ElementType::Float8E8M0) }
    else if str_eq(name, "float4_e2m1") { Some(ElementType::Float4E2M1) }
    else if str_eq(name, "float6_e2m3") { Some(ElementType::Float6E2M3) }
    else if str_eq(name, "float6_e3m2") { Some(ElementType::Float6E3M2) }
    else if str_eq(name, "float128") { Some(ElementType::Float128) }
    else if str_eq(name, "int4") { Some(ElementType::Int4) }
    else if str_eq(name, "uint4") { Some(ElementType::Uint4) }
    else if str_eq(name, "int2") { Some(ElementType::Int2) }
    else if str_eq(name, "uint2") { Some(ElementType::Uint2) }
    else if str_eq(name, "complex64") { Some(ElementType::Complex64) }
    else if str_eq(name, "complex128") { Some(ElementType::Complex128) }
    else { None }
}

/// The canonical name of an element type.
pub fn element_type_name(t: ElementType) -> (r: &'static str)
    ensures
        r@ == element_name(t),
{
    match t {
        ElementType::Float16 => "float16",
        ElementType::BFloat16 => "bfloat16",
        ElementType::Float32 => "float32",
        ElementType::Float64 => "float64",
        ElementType::Int8 => "int8",
        ElementType::Uint8 => "uint8",
        ElementType::Int16 => "int16",
        ElementType::Uint16 => "uint16",
        ElementType::Int32 => "int32",
        ElementType::Uint32 => "uint32",
        ElementType::Int64 => "int64",
        ElementType::Uint64 => "uint64",
        ElementType::Bool => "bool",
        ElementType::Float8E4M3 => "float8_e4m3",
        ElementType::Float8E5M2 => "float8_e5m2",
        ElementType::Float8E8M0 => "float8_e8m0",
        ElementType::Float4E2M1 => "float4_e2m1",
        ElementType::Float6E2M3 => "float6_e2m3",
        ElementType::Float6E3M2 => "float6_e3m2",
        ElementType::Float128 => "float128",
        ElementType::Int4 => "int4",
        ElementType::Uint4 => "uint4",
        ElementType::Int2 => "int2",
        ElementType::Uint2 => "uint2",
        ElementType::Complex64 => "complex64",
        ElementType::Complex128 => "complex128",
    }
}

/// The bytes a buffer needs to hold `count` elements of `t`, packing sub-byte types;
/// a size beyond `u64::MAX` is reported as `u64::MAX`.
pub fn buffer_size_bytes(t: ElementType, count: u64) -> (r: u64)
    ensures
        r == saturated_size(t, count as nat),
{
    let d = Dtype { inner: t };
    let w = d.bit_width();
    if w == 1 {
        count / 8 + if count % 8 != 0 { 1 } else { 0 }
    } else if w == 2 {
        count / 4 + if count % 4 != 0 { 1 } else { 0 }
    } else if w == 4 {
        count / 2 + if count % 2 != 0 { 1 } else { 0 }
    } else if w == 6 {
        let groups = count / 4 + if count % 4 != 0 { 1 } else { 0 };
        assert(groups * 3 <= u64::MAX) by (nonlinear_arith)
            requires groups <= u64::MAX / 4 + 1;
        groups * 3
    } else {
        let per = (w / 8) as u64;
        match count.checked_mul(per) {
            Some(n) => n,
            None => u64::MAX,
        }
    }
}

/// A `Dtype` object: one element type, with the getters Python reads.
#[derive(Clone, Copy, Debug, PartialEq, Eq, Structural)]
pub struct Dtype {
    pub inner: ElementType,
}

impl Dtype {
    /// The canonical name, e.g. `"float32"`.
    pub fn name(&self) -> (r: &'static str)
        ensures
            r@ == element_name(self.inner),
    {
        element_type_name(self.inner)
    }

    /// Bits per element, e.g. 32 for `float32` and 4 for `int4`.
    pub fn bit_width(&self) -> (r: u32)
        ensures
            r == spec_bit_width(self.inner),
    {
        match self.inner {
            ElementType::Float16 => 16,
            ElementType::BFloat16 => 16,
            ElementType::Float32 => 32,
            ElementType::Float64 => 64,
            ElementType::Int8 => 8,
            ElementType::Uint8 => 8,
            ElementType::Int16 => 16,
            ElementType::Uint16 => 16,
            ElementType::Int32 => 32,
            ElementType::Uint32 => 32,
            ElementType::Int64 => 64,
            ElementType::Uint64 => 64,
            ElementType::Bool => 1,
            ElementType::Float8E4M3 => 8,
            ElementType::Float8E5M2 => 8,
            ElementType::Float8E8M0 => 8,
            ElementType::Float4E2M1 => 4,
            ElementType::Float6E2M3 => 6,
            ElementType::Float6E3M2 => 6,
            ElementType::Float128 => 128,
            ElementType::Int4 => 4,
            ElementType::Uint4 => 4,
            ElementType::Int2 => 2,
            ElementType::Uint2 => 2,
            ElementType::Complex64 => 64,
            ElementType::Complex128 => 128,
        }
    }

    /// Integer (signed or unsigned, any width)?
    pub fn is_integer(&self) -> (r: bool)
        ensures
            r == spec_is_integer(self.inner),
    {
        match self.inner {
            ElementType::Float16 => false,
            ElementType::BFloat16 => false,
            ElementType::Float32 => false,
            ElementType::Float64 => false,
            ElementType::Int8 => true,
            ElementType::Uint8 => true,
            ElementType::Int16 => true,
            ElementType::Uint16 => true,
            ElementType::Int32 => true,
            ElementType::Uint32 => true,
            ElementType::Int64 => true,
            ElementType::Uint64 => true,
            ElementType::Bool => false,
            ElementType::Float8E4M3 => false,
            ElementType::Float8E5M2 => false,
            ElementType::Float8E8M0 => false,
            ElementType::Float4E2M1 => false,
            ElementType::Float6E2M3 => false,
            ElementType::Float6E3M2 => false,
            ElementType::Float128 => false,
            ElementType::Int4 => true,
            ElementType::Uint4 => true,
            ElementType::Int2 => true,
            ElementType::Uint2 => true,
            ElementType::Complex64 => false,
            ElementType::Complex128 => false,
        }
    }

    /// Floating-point or complex?
    pub fn is_float(&self) -> (r: bool)
        ensures
            r == spec_is_float(self.inner),
    {
        match self.inner {
            ElementType::Float16 => true,
            ElementType::BFloat16 => true,
            ElementType::Float32 => true,
            ElementType::Float64 => true,
            ElementType::Int8 => false,
            ElementType::Uint8 => false,
            ElementType::Int16 => false,
            ElementType::Uint16 => false,
            ElementType::Int32 => false,
            ElementType::Uint32 => false,
            ElementType::Int64 => false,
            ElementType::Uint64 => false,
            ElementType::Bool => false,
            ElementType::Float8E4M3 => true,
            ElementType::Float8E5M2 => true,
            ElementType::Float8E8M0 => true,
            ElementType::Float4E2M1 => true,
            ElementType::Float6E2M3 => true,
            ElementType::Float6E3M2 => true,
            ElementType::Float128 => true,
            ElementType::Int4 => false,
            ElementType::Uint4 => false,
            ElementType::Int2 => false,
            ElementType::Uint2 => false,
            ElementType::Complex64 => true,
            ElementType::Complex128 => true,
        }
    }

    /// Signed? Unsigned integers, `bool` and `float8_e8m0` are not.
    pub fn is_signed(&self) -> (r: bool)
        ensures
            r == spec_is_signed(self.inner),
    {
        match self.inner {
            ElementType::Float16 => true,
            ElementType::BFloat16 => true,
            ElementType::Float32 => true,
            ElementType::Float64 => true,
            ElementType::Int8 => true,
            ElementType::Uint8 => false,
            ElementType::Int16 => true,
            ElementType::Uint16 => false,
            ElementType::Int32 => true,
            ElementType::Uint32 => false,
            ElementType::Int64 => true,
            ElementType::Uint64 => false,
            ElementType::Bool => false,
            ElementType::Float8E4M3 => true,
            ElementType::Float8E5M2 => true,
            ElementType::Float8E8M0 => false,
            ElementType::Float4E2M1 => true,
            ElementType::Float6E2M3 => true,
            ElementType::Float6E3M2 => true,
            ElementType::Float128 => true,
            ElementType::Int4 => true,
            ElementType::Uint4 => false,
            ElementType::Int2 => true,
            ElementType::Uint2 => false,
            ElementType::Complex64 => true,
            ElementType::Complex128 => true,
        }
    }

    /// Fewer than 8 bits per element?
    pub fn is_sub_byte(&self) -> (r: bool)
        ensures
            r == (spec_bit_width(self.inner) < 8),
    {
        self.bit_width() < 8
    }

    /// 1 for Array API-compatible types, 2 for extended ones.
    pub fn tier(&self) -> (r: u8)
        ensures
            r == spec_tier(self.inner),
    {
        match self.inner {
            ElementType::Float16 => 1,
            ElementType::BFloat16 => 1,
            ElementType::Float32 => 1,
            ElementType::Float64 => 1,
            ElementType::Int8 => 1,
            ElementType::Uint8 => 1,
            ElementType::Int16 => 1,
            ElementType::Uint16 => 1,
            ElementType::Int32 => 1,
            ElementType::Uint32 => 1,
            ElementType::Int64 => 1,
            ElementType::Uint64 => 1,
            ElementType::Bool => 1,
            ElementType::Float8E4M3 => 2,
            ElementType::Float8E5M2 => 2,
            ElementType::Float8E8M0 => 2,
            ElementType::Float4E2M1 => 2,
            ElementType::Float6E2M3 => 2,
            ElementType::Float6E3M2 => 2,
            ElementType::Float128 => 2,
            ElementType::Int4 => 2,
            ElementType::Uint4 => 2,
            ElementType::Int2 => 2,
            ElementType::Uint2 => 2,
            ElementType::Complex64 => 2,
            ElementType::Complex128 => 2,
        }
    }

    /// Tier 1?
    pub fn is_array_api(&self) -> (r: bool)
        ensures
            r == (spec_tier(self.inner) == 1),
    {
        self.tier() == 1
    }

    /// The natural alignment of one element in bytes (1 for packed sub-byte types).
    pub fn element_alignment(&self) -> (r: usize)
        ensures
            r == spec_element_alignment(self.inner),
    {
        match self.inner {
            ElementType::Float16 => 2,
            ElementType::BFloat16 => 2,
            ElementType::Float32 => 4,
            ElementType::Float64 => 8,
            ElementType::Int8 => 1,
            ElementType::Uint8 => 1,
            ElementType::Int16 => 2,
            ElementType::Uint16 => 2,
            ElementType::Int32 => 4,
            ElementType::Uint32 => 4,
            ElementType::Int64 => 8,
            ElementType::Uint64 => 8,
            ElementType::Bool => 1,
            ElementType::Float8E4M3 => 1,
            ElementType::Float8E5M2 => 1,
            ElementType::Float8E8M0 => 1,
            ElementType::Float4E2M1 => 1,
            ElementType::Float6E2M3 => 1,
            ElementType::Float6E3M2 => 1,
            ElementType::Float128 => 16,
            ElementType::Int4 => 1,
            ElementType::Uint4 => 1,
            ElementType::Int2 => 1,
            ElementType::Uint2 => 1,
            ElementType::Complex64 => 4,
            ElementType::Complex128 => 8,
        }
    }

    /// `str()`: the canonical name.
    pub fn str_(&self) -> (r: &'static str)
        ensures
            r@ == element_name(self.inner),
    {
        self.name()
    }

    /// `repr()`: `hurray.Dtype('float32')`.
    pub fn repr(&self) -> (r: String)
        ensures
            r@ == "hurray.Dtype('"@ + element_name(self.inner) + "')"@,
    {
        let mut s = String::new();
        s.append("hurray.Dtype('");
        s.append(self.name());
        s.append("')");
        s
    }

    /// Python rich comparison: equality of element types; no ordering.
    pub fn richcmp(&self, other: &Dtype, op: CompareOp) -> (r: Result<bool, OrderingUnsupported>)
        ensures
            op == CompareOp::Eq ==> r == Ok::<bool, OrderingUnsupported>(self.inner == other.inner),
            op == CompareOp::Ne ==> r == Ok::<bool, OrderingUnsupported>(self.inner != other.inner),
            (op != CompareOp::Eq && op != CompareOp::Ne) ==> r == Err::<bool, OrderingUnsupported>(
                OrderingUnsupported,
            ),
    {
        match op {
            CompareOp::Eq => Ok(self.inner == other.inner),
            CompareOp::Ne => Ok(self.inner != other.inner),
            _ => Err(OrderingUnsupported),
        }
    }

    /// `Dtype.from_name`: the type a canonical name denotes, or `None` for an unknown name.
    pub fn from_name(name: &str) -> (r: Option<Dtype>)
        ensures
            match r {
                Some(d) => element_of_name(name@) == Some(d.inner),
                None => element_of_name(name@) is None,
            },
    {
        match element_type_from_name(name) {
            Some(t) => Some(Dtype { inner: t }),
            None => None,
        }
    }
}

/// Every element type in declaration order: Tier 1 first, then Tier 2.
pub fn all_element_types() -> (r: Vec<ElementType>)
    ensures
        r@ == all_types(),
{
    let v = vec![ElementType::Float16, ElementType::BFloat16, ElementType::Float32, ElementType::Float64, ElementType::Int8, ElementType::Uint8, ElementType::Int16, ElementType::Uint16, ElementType::Int32, ElementType::Uint32, ElementType::Int64, ElementType::Uint64, ElementType::Bool, ElementType::Float8E4M3, ElementType::Float8E5M2, ElementType::Float8E8M0, ElementType::Float4E2M1, ElementType::Float6E2M3, ElementType::Float6E3M2, ElementType::Float128, ElementType::Int4, ElementType::Uint4, ElementType::Int2, ElementType::Uint2, ElementType::Complex64, ElementType::Complex128];
    assert(v@ =~= all_types());
    v
}

proof fn lemma_names_distinct()
    ensures
        "float16"@.len() == 7 && "float16"@[3] == 'a' && "float16"@[4] == 't' && "float16"@[5] == '1',
        "bfloat16"@.len() == 8 && "bfloat16"@[3] == 'o' && "bfloat16"@[4] == 'a' && "bfloat16"@[5] == 't',
        "float32"@.len() == 7 && "float32"@[3] == 'a' && "float32"@[4] == 't' && "float32"@[5] == '3',
        "float64"@.len() == 7 && "float64"@[3] == 'a' && "float64"@[4] == 't' && "float64"@[5] == '6',
        "int8"@.len() == 4 && "int8"@[3] == '8',
        "uint8"@.len() == 5 && "uint8"@[3] == 't' && "uint8"@[4] == '8',
        "int16"@.len() == 5 && "int16"@[3] == '1' && "int16"@[4] == '6',
        "uint16"@.len() == 6 && "uint16"@[3] == 't' && "uint16"@[4] == '1' && "uint16"@[5] == '6',
        "int32"@.len() == 5 && "int32"@[3] == '3' && "int32"@[4] == '2',
        "uint32"@.len() == 6 && "uint32"@[3] == 't' && "uint32"@[4] == '3' && "uint32"@[5] == '2',
        "int64"@.len() == 5 && "int64"@[3] == '6' && "int64"@[4] == '4',
        "uint64"@.len() == 6 && "uint64"@[3] == 't' && "uint64"@[4] == '6' && "uint64"@[5] == '4',
        "bool"@.len() == 4 && "bool"@[3] == 'l',
        "float8_e4m3"@.len() == 11 && "float8_e4m3"@[3] == 'a' && "float8_e4m3"@[4] == 't' && "float8_e4m3"@[5] == '8' && "float8_e4m3"@[8] == '4',
        "float8_e5m2"@.len() == 11 && "float8_e5m2"@[3] == 'a' && "float8_e5m2"@[4] == 't' && "float8_e5m2"@[5] == '8' && "float8_e5m2"@[8] == '5',
        "float8_e8m0"@.len() == 11 && "float8_e8m0"@[3] == 'a' && "float8_e8m0"@[4] == 't' && "float8_e8m0"@[5] == '8' && "float8_e8m0"@[8] == '8',
        "float4_e2m1"@.len() == 11 && "float4_e2m1"@[3] == 'a' && "float4_e2m1"@[4] == 't' && "float4_e2m1"@[5] == '4' && "float4_e2m1"@[8] == '2',
        "float6_e2m3"@.len() == 11 && "float6_e2m3"@[3] == 'a' && "float6_e2m3"@[4] == 't' && "float6_e2m3"@[5] == '6' && "float6_e2m3"@[8] == '2',
        "float6_e3m2"@.len() == 11 && "float6_e3m2"@[3] == 'a' && "float6_e3m2"@[4] == 't' && "float6_e3m2"@[5] == '6' && "float6_e3m2"@[8] == '3',
        "float128"@.len() == 8 && "float128"@[3] == 'a' && "float128"@[4] == 't' && "float128"@[5] == '1',
        "int4"@.len() == 4 && "int4"@[3] == '4',
        "uint4"@.len() == 5 && "uint4"@[3] == 't' && "uint4"@[4] == '4',
        "int2"@.len() == 4 && "int2"@[3] == '2',
        "uint2"@.len() == 5 && "uint2"@[3] == 't' && "uint2"@[4] == '2',
        "complex64"@.len() == 9 && "complex64"@[3] == 'p' && "complex64"@[4] == 'l' && "complex64"@[5] == 'e' && "complex64"@[8] == '4',
        "complex128"@.len() == 10 && "complex128"@[3] == 'p' && "complex128"@[4] == 'l' && "complex128"@[5] == 'e' && "complex128"@[8] == '2',
{
    reveal_strlit("float16");
    reveal_strlit("bfloat16");
    reveal_strlit("float32");
    reveal_strlit("float64");
    reveal_strlit("int8");
    reveal_strlit("uint8");
    reveal_strlit("int16");
    reveal_strlit("uint16");
    reveal_strlit("int32");
    reveal_strlit("uint32");
    reveal_strlit("int64");
    reveal_strlit("uint64");
    reveal_strlit("bool");
    reveal_strlit("float8_e4m3");
    reveal_strlit("float8_e5m2");
    reveal_strlit("float8_e8m0");
    reveal_strlit("float4_e2m1");
    reveal_strlit("float6_e2m3");
    reveal_strlit("float6_e3m2");
    reveal_strlit("float128");
    reveal_strlit("int4");
    reveal_strlit("uint4");
    reveal_strlit("int2");
    reveal_strlit("uint2");
    reveal_strlit("complex64");
    reveal_strlit("complex128");
}

/// Every element type is parsed back from its own name.
pub proof fn lemma_name_round_trip(t: ElementType)
    ensures
        element_of_name(element_name(t)) == Some(t),
{
    lemma_names_distinct();
}

/// A name that parses is the canonical name of what it parses to.
pub proof fn lemma_name_of_parsed(s: Seq<char>)
    requires
        element_of_name(s) is Some,
    ensures
        element_name(element_of_name(s).unwrap()) == s,
{
    let t = element_of_name(s).unwrap();
    lemma_name_round_trip(t);
}

/// Tier 1 is exactly the Array API set, and it is the first thirteen types.
pub proof fn lemma_tier_one_is_prefix(i: int)
    requires
        0 <= i < 26,
    ensures
        (spec_tier(all_types()[i]) == 1) == (i < 13),
{
}

/// Packing never loses an element: the packed size holds at least `count * bit_width`
/// bits, and zero elements take zero bytes.
pub proof fn lemma_packed_size_holds_all_bits(t: ElementType, count: nat)
    ensures
        packed_size(t, count) * 8 >= count * spec_bit_width(t),
        packed_size(t, 0) == 0,
{
    let w = spec_bit_width(t);
    if w == 1 {
        assert(ceil_div(count, 8) * 8 >= count) by (nonlinear_arith);
    } else if w == 2 {
        assert(ceil_div(count, 4) * 8 >= count * 2) by (nonlinear_arith);
    } else if w == 4 {
        assert(ceil_div(count, 2) * 8 >= count * 4) by (nonlinear_arith);
    } else if w == 6 {
        assert(ceil_div(count, 4) * 3 * 8 >= count * 6) by (nonlinear_arith);
    } else {
        assert(w % 8 == 0);
        assert(count * (w / 8) * 8 == count * w) by (nonlinear_arith)
            requires w % 8 == 0;
    }
}

/// `s` begins with `p`.
pub open spec fn has_prefix(s: Seq<char>, p: Seq<char>) -> bool {
    p.len() <= s.len() && s.subrange(0, p.len() as int) =~= p
}

proof fn lemma_char_rules_out_prefix(s: Seq<char>, p: Seq<char>, i: int)
    requires
        0 <= i < p.len(),
        i < s.len(),
        s[i] != p[i],
    ensures
        !has_prefix(s, p),
{
    if has_prefix(s, p) {
        assert(s.subrange(0, p.len() as int)[i] == s[i]);
    }
}

/// Which of the name families `float`, `bfloat`, `complex`, `int` and `uint` an
/// element type's name begins with.
pub(crate) proof fn lemma_name_families(t: ElementType)
    ensures
        has_prefix(element_name(t), "float"@) <==> (t == ElementType::Float16
            || t == ElementType::Float32 || t == ElementType::Float64
            || t == ElementType::Float8E4M3 || t == ElementType::Float8E5M2
            || t == ElementType::Float8E8M0 || t == ElementType::Float4E2M1
            || t == ElementType::Float6E2M3 || t == ElementType::Float6E3M2
            || t == ElementType::Float128),
        has_prefix(element_name(t), "bfloat"@) <==> t == ElementType::BFloat16,
        has_prefix(element_name(t), "complex"@) <==> (t == ElementType::Complex64
            || t == ElementType::Complex128),
        has_prefix(element_name(t), "int"@) <==> (t == ElementType::Int8 || t == ElementType::Int16
            || t == ElementType::Int32 || t == ElementType::Int64 || t == ElementType::Int4
            || t == ElementType::Int2),
        has_prefix(element_name(t), "uint"@) <==> (t == ElementType::Uint8
            || t == ElementType::Uint16 || t == ElementType::Uint32 || t == ElementType::Uint64
            || t == ElementType::Uint4 || t == ElementType::Uint2),
{
    reveal_strlit("float");
    reveal_strlit("bfloat");
    reveal_strlit("complex");
    reveal_strlit("int");
    reveal_strlit("uint");
    match t {
        ElementType::Float16 => {
            reveal_strlit("float16");
        },
        ElementType::BFloat16 => {
            reveal_strlit("bfloat16");
        },
        ElementType::Float32 => {
            reveal_strlit("float32");
        },
        ElementType::Float64 => {
            reveal_strlit("float64");
        },
        ElementType::Int8 => {
            reveal_strlit("int8");
        },
        ElementType::Uint8 => {
            reveal_strlit("uint8");
        },
        ElementType::Int16 => {
            reveal_strlit("int16");
        },
        ElementType::Uint16 => {
            reveal_strlit("uint16");
        },
        ElementType::Int32 => {
            reveal_strlit("int32");
        },
        ElementType::Uint32 => {
            reveal_strlit("uint32");
        },
        ElementType::Int64 => {
            reveal_strlit("int64");
        },
        ElementType::Uint64 => {
            reveal_strlit("uint64");
        },
        ElementType::Bool => {
            reveal_strlit("bool");
        },
        ElementType::Float8E4M3 => {
            reveal_strlit("float8_e4m3");
        },
        ElementType::Float8E5M2 => {
            reveal_strlit("float8_e5m2");
        },
        ElementType::Float8E8M0 => {
            reveal_strlit("float8_e8m0");
        },
        ElementType::Float4E2M1 => {
            reveal_strlit("float4_e2m1");
        },
        ElementType::Float6E2M3 => {
            reveal_strlit("float6_e2m3");
        },
        ElementType::Float6E3M2 => {
            reveal_strlit("float6_e3m2");
        },
        ElementType::Float128 => {
            reveal_strlit("float128");
        },
        ElementType::Int4 => {
            reveal_strlit("int4");
        },
        ElementType::Uint4 => {
            reveal_strlit("uint4");
        },
        ElementType::Int2 => {
            reveal_strlit("int2");
        },
        ElementType::Uint2 => {
            reveal_strlit("uint2");
        },
        ElementType::Complex64 => {
            reveal_strlit("complex64");
        },
        ElementType::Complex128 => {
            reveal_strlit("complex128");
        },
    }
    let s = element_name(t);
    if s[0] != "float"@[0] {
        lemma_char_rules_out_prefix(s, "float"@, 0);
    }
    if s[0] != "bfloat"@[0] {
        lemma_char_rules_out_prefix(s, "bfloat"@, 0);
    } else if s[1] != "bfloat"@[1] {
        lemma_char_rules_out_prefix(s, "bfloat"@, 1);
    }
    if s[0] != "complex"@[0] {
        lemma_char_rules_out_prefix(s, "complex"@, 0);
    }
    if s[0] != "int"@[0] {
        lemma_char_rules_out_prefix(s, "int"@, 0);
    }
    if s[0] != "uint"@[0] {
        lemma_char_rules_out_prefix(s, "uint"@, 0);
    }
}

/// The floating-point types are exactly the `float*`, `bfloat*` and `complex*` types,
/// the integer types exactly the `int*` and `uint*` ones, and every type is exactly one
/// of floating point, integer or `bool`. An integer type is signed exactly when it is an
/// `int*` type, and `bool` is unsigned.
pub proof fn lemma_float_and_integer_by_name(t: ElementType)
    ensures
        spec_is_float(t) <==> (has_prefix(element_name(t), "float"@) || has_prefix(
            element_name(t),
            "bfloat"@,
        ) || has_prefix(element_name(t), "complex"@)),
        spec_is_integer(t) <==> (has_prefix(element_name(t), "int"@) || has_prefix(
            element_name(t),
            "uint"@,
        )),
        (spec_is_float(t) && !spec_is_integer(t) && t != ElementType::Bool) || (!spec_is_float(t)
            && spec_is_integer(t) && t != ElementType::Bool) || (!spec_is_float(t)
            && !spec_is_integer(t) && t == ElementType::Bool),
        spec_is_integer(t) ==> (spec_is_signed(t) <==> has_prefix(element_name(t), "int"@)),
        t == ElementType::Bool ==> !spec_is_signed(t),
{
    lemma_name_families(t);
}

} // verus!
