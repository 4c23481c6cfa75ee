//! The optional descriptor sections: statistics, shard and extension type.
//!
//! Statistics fields that share one validity bit must be given together: the value
//! range (`value_min`, `value_max`, `value_abs_max`), the value statistics
//! (`value_mean`, `value_stddev`), N:M sparsity (`nm_n`, `nm_m`) and NaN/Inf
//! (`has_nan`, `has_inf`). A partial group cannot be encoded honestly, so it is refused
//! rather than zero-filled. Floating-point statistics travel as their IEEE-754 bits.

use vstd::prelude::*;
use crate::errors::ErrorClass;
use crate::text::{
    decimal, decimals_u64, joined, push_debug_list, push_decimal, push_py_bool, py_bool,
    debug_list, views,
};

verus! {

/// Which statistics claims are valid.
#[derive(Clone, Copy, Debug, PartialEq, Eq, Structural)]
pub struct StatisticsValidity {
    pub nnz: bool,
    pub sparsity: bool,
    pub value_range: bool,
    pub value_stats: bool,
    pub nm_sparsity: bool,
    pub nan_inf: bool,
}

/// A statistics group given only in part; raises `InvalidDescriptorError`.
#[derive(Clone, Copy, Debug, PartialEq, Eq, Structural)]
pub enum StatisticsError {
    PartialValueRange,
    PartialValueStats,
    PartialNmSparsity,
    PartialNanInf,
}

impl StatisticsError {
    /// All raise `InvalidDescriptorError`.
    pub fn class(&self) -> (r: ErrorClass)
        ensures
            r == ErrorClass::InvalidDescriptor,
    {
        ErrorClass::InvalidDescriptor
    }
}

/// A statistics section. Claims not covered by a validity flag hold zero.
#[derive(Clone, Copy, Debug, PartialEq, Eq, Structural)]
pub struct Statistics {
    pub validity: StatisticsValidity,
    pub nnz: u64,
    pub sparsity_ratio: u64,
    pub value_min: u64,
    pub value_max: u64,
    pub value_abs_max: u64,
    pub value_mean: u64,
    pub value_stddev: u64,
    pub nm_n: u8,
    pub nm_m: u8,
    pub has_nan: bool,
    pub has_inf: bool,
}

/// How many of three options are present.
pub open spec fn count3<A, B, C>(a: Option<A>, b: Option<B>, c: Option<C>) -> nat {
    (if a is Some { 1nat } else { 0nat }) + (if b is Some { 1nat } else { 0nat }) + (if c
        is Some { 1nat } else { 0nat })
}

/// The value in an option, or a default.
pub open spec fn or_default<T>(o: Option<T>, d: T) -> T {
    match o {
        Some(v) => v,
        None => d,
    }
}

fn unwrap_or_u64(o: Option<u64>, d: u64) -> (r: u64)
    ensures
        r == or_default(o, d),
{
    match o {
        Some(v) => v,
        None => d,
    }
}

fn unwrap_or_u8(o: Option<u8>, d: u8) -> (r: u8)
    ensures
        r == or_default(o, d),
{
    match o {
        Some(v) => v,
        None => d,
    }
}

fn unwrap_or_bool(o: Option<bool>, d: bool) -> (r: bool)
    ensures
        r == or_default(o, d),
{
    match o {
        Some(v) => v,
        None => d,
    }
}

impl Statistics {
    /// Build a statistics section from the claims supplied, checking the groups in
    /// order: value range, value statistics, N:M sparsity, NaN/Inf.
    pub fn new(
        nnz: Option<u64>,
        sparsity_ratio: Option<u64>,
        value_min: Option<u64>,
        value_max: Option<u64>,
        value_abs_max: Option<u64>,
        value_mean: Option<u64>,
        value_stddev: Option<u64>,
        nm_n: Option<u8>,
        nm_m: Option<u8>,
        has_nan: Option<bool>,
        has_inf: Option<bool>,
    ) -> (r: Result<Statistics, StatisticsError>)
        ensures
            count3(value_min, value_max, value_abs_max) != 0 && count3(value_min, value_max, value_abs_max) != 3
                ==> r == Err::<Statistics, StatisticsError>(StatisticsError::PartialValueRange),
            (count3(value_min, value_max, value_abs_max) == 0 || count3(value_min, value_max, value_abs_max) == 3)
                && (value_mean is Some != value_stddev is Some)
                ==> r == Err::<Statistics, StatisticsError>(StatisticsError::PartialValueStats),
            (count3(value_min, value_max, value_abs_max) == 0 || count3(value_min, value_max, value_abs_max) == 3)
                && (value_mean is Some == value_stddev is Some)
                && (nm_n is Some != nm_m is Some)
                ==> r == Err::<Statistics, StatisticsError>(StatisticsError::PartialNmSparsity),
            (count3(value_min, value_max, value_abs_max) == 0 || count3(value_min, value_max, value_abs_max) == 3)
                && (value_mean is Some == value_stddev is Some)
                && (nm_n is Some == nm_m is Some)
                && (has_nan is Some != has_inf is Some)
                ==> r == Err::<Statistics, StatisticsError>(StatisticsError::PartialNanInf),
            (count3(value_min, value_max, value_abs_max) == 0 || count3(value_min, value_max, value_abs_max) == 3)
                && (value_mean is Some == value_stddev is Some)
                && (nm_n is Some == nm_m is Some)
                && (has_nan is Some == has_inf is Some)
                ==> r == Ok::<Statistics, StatisticsError>(Statistics {
                    validity: StatisticsValidity {
                        nnz: nnz is Some,
                        sparsity: sparsity_ratio is Some,
                        value_range: value_min is Some,
                        value_stats: value_mean is Some,
                        nm_sparsity: nm_n is Some,
                        nan_inf: has_nan is Some,
                    },
                    nnz: or_default(nnz, 0),
                    sparsity_ratio: or_default(sparsity_ratio, 0),
                    value_min: or_default(value_min, 0),
                    value_max: or_default(value_max, 0),
                    value_abs_max: or_default(value_abs_max, 0),
                    value_mean: or_default(value_mean, 0),
                    value_stddev: or_default(value_stddev, 0),
                    nm_n: or_default(nm_n, 0),
                    nm_m: or_default(nm_m, 0),
                    has_nan: or_default(has_nan, false),
                    has_inf: or_default(has_inf, false),
                }),
    {
        let mut present: u8 = 0;
        if value_min.is_some() {
            present = present + 1;
        }
        if value_max.is_some() {
            present = present + 1;
        }
        if value_abs_max.is_some() {
            present = present + 1;
        }
        if present != 0 && present != 3 {
            return Err(StatisticsError::PartialValueRange);
        }
        if value_mean.is_some() != value_stddev.is_some() {
            return Err(StatisticsError::PartialValueStats);
        }
        if nm_n.is_some() != nm_m.is_some() {
            return Err(StatisticsError::PartialNmSparsity);
        }
        if has_nan.is_some() != has_inf.is_some() {
            return Err(StatisticsError::PartialNanInf);
        }
        let validity = StatisticsValidity {
            nnz: nnz.is_some(),
            sparsity: sparsity_ratio.is_some(),
            value_range: present == 3,
            value_stats: value_mean.is_some(),
            nm_sparsity: nm_n.is_some(),
            nan_inf: has_nan.is_some(),
        };
        Ok(Statistics {
            validity,
            nnz: unwrap_or_u64(nnz, 0),
            sparsity_ratio: unwrap_or_u64(sparsity_ratio, 0),
            value_min: unwrap_or_u64(value_min, 0),
            value_max: unwrap_or_u64(value_max, 0),
            value_abs_max: unwrap_or_u64(value_abs_max, 0),
            value_mean: unwrap_or_u64(value_mean, 0),
            value_stddev: unwrap_or_u64(value_stddev, 0),
            nm_n: unwrap_or_u8(nm_n, 0),
            nm_m: unwrap_or_u8(nm_m, 0),
            has_nan: unwrap_or_bool(has_nan, false),
            has_inf: unwrap_or_bool(has_inf, false),
        })
    }

    /// The stored-element count, if claimed.
    pub fn nnz(&self) -> (r: Option<u64>)
        ensures
            r == (if self.validity.nnz { Some(self.nnz) } else { None }),
    {
        if self.validity.nnz { Some(self.nnz) } else { None }
    }

    /// The sparsity ratio's bits, if claimed.
    pub fn sparsity_ratio(&self) -> (r: Option<u64>)
        ensures
            r == (if self.validity.sparsity { Some(self.sparsity_ratio) } else { None }),
    {
        if self.validity.sparsity { Some(self.sparsity_ratio) } else { None }
    }

    /// The minimum's bits, if the value range is claimed.
    pub fn value_min(&self) -> (r: Option<u64>)
        ensures
            r == (if self.validity.value_range { Some(self.value_min) } else { None }),
    {
        if self.validity.value_range { Some(self.value_min) } else { None }
    }

    /// The maximum's bits, if the value range is claimed.
    pub fn value_max(&self) -> (r: Option<u64>)
        ensures
            r == (if self.validity.value_range { Some(self.value_max) } else { None }),
    {
        if self.validity.value_range { Some(self.value_max) } else { None }
    }

    /// The absolute maximum's bits, if the value range is claimed.
    pub fn value_abs_max(&self) -> (r: Option<u64>)
        ensures
            r == (if self.validity.value_range { Some(self.value_abs_max) } else { None }),
    {
        if self.validity.value_range { Some(self.value_abs_max) } else { None }
    }

    /// The mean's bits, if the value statistics are claimed.
    pub fn value_mean(&self) -> (r: Option<u64>)
        ensures
            r == (if self.validity.value_stats { Some(self.value_mean) } else { None }),
    {
        if self.validity.value_stats { Some(self.value_mean) } else { None }
    }

    /// The standard deviation's bits, if the value statistics are claimed.
    pub fn value_stddev(&self) -> (r: Option<u64>)
        ensures
            r == (if self.validity.value_stats { Some(self.value_stddev) } else { None }),
    {
        if self.validity.value_stats { Some(self.value_stddev) } else { None }
    }

    /// N of N:M sparsity, if claimed.
    pub fn nm_n(&self) -> (r: Option<u8>)
        ensures
            r == (if self.validity.nm_sparsity { Some(self.nm_n) } else { None }),
    {
        if self.validity.nm_sparsity { Some(self.nm_n) } else { None }
    }

    /// M of N:M sparsity, if claimed.
    pub fn nm_m(&self) -> (r: Option<u8>)
        ensures
            r == (if self.validity.nm_sparsity { Some(self.nm_m) } else { None }),
    {
        if self.validity.nm_sparsity { Some(self.nm_m) } else { None }
    }

    /// Whether NaNs occur, if claimed.
    pub fn has_nan(&self) -> (r: Option<bool>)
        ensures
            r == (if self.validity.nan_inf { Some(self.has_nan) } else { None }),
    {
        if self.validity.nan_inf { Some(self.has_nan) } else { None }
    }

    /// Whether infinities occur, if claimed.
    pub fn has_inf(&self) -> (r: Option<bool>)
        ensures
            r == (if self.validity.nan_inf { Some(self.has_inf) } else { None }),
    {
        if self.validity.nan_inf { Some(self.has_inf) } else { None }
    }
}

/// Building statistics and reading them back returns exactly the claims supplied.
pub proof fn lemma_statistics_round_trip(
    nnz: Option<u64>,
    sparsity_ratio: Option<u64>,
    value_range: Option<(u64, u64, u64)>,
    value_stats: Option<(u64, u64)>,
    nm: Option<(u8, u8)>,
    nan_inf: Option<(bool, bool)>,
    s: Statistics,
)
    requires
        s.validity == (StatisticsValidity {
            nnz: nnz is Some,
            sparsity: sparsity_ratio is Some,
            value_range: value_range is Some,
            value_stats: value_stats is Some,
            nm_sparsity: nm is Some,
            nan_inf: nan_inf is Some,
        }),
        nnz matches Some(v) ==> s.nnz == v,
        sparsity_ratio matches Some(v) ==> s.sparsity_ratio == v,
        value_range matches Some((a, b, c)) ==> s.value_min == a && s.value_max == b && s.value_abs_max == c,
        value_stats matches Some((a, b)) ==> s.value_mean == a && s.value_stddev == b,
        nm matches Some((a, b)) ==> s.nm_n == a && s.nm_m == b,
        nan_inf matches Some((a, b)) ==> s.has_nan == a && s.has_inf == b,
    ensures
        (if s.validity.nnz { Some(s.nnz) } else { None }) == nnz,
        (if s.validity.sparsity { Some(s.sparsity_ratio) } else { None }) == sparsity_ratio,
        (if s.validity.value_range { Some((s.value_min, s.value_max, s.value_abs_max)) } else { None }) == value_range,
        (if s.validity.value_stats { Some((s.value_mean, s.value_stddev)) } else { None }) == value_stats,
        (if s.validity.nm_sparsity { Some((s.nm_n, s.nm_m)) } else { None }) == nm,
        (if s.validity.nan_inf { Some((s.has_nan, s.has_inf)) } else { None }) == nan_inf,
{
}

/// The six floating-point claims, each already spelled as Python would print it.
pub struct RenderedFloats {
    pub sparsity_ratio: String,
    pub value_min: String,
    pub value_max: String,
    pub value_abs_max: String,
    pub value_mean: String,
    pub value_stddev: String,
}

/// The fields a statistics `repr` names: the claims that are valid, in constructor
/// order.
pub open spec fn statistics_fields(s: Statistics, f: RenderedFloats) -> Seq<Seq<char>> {
    opt(s.validity.nnz, field("nnz"@, decimal(s.nnz as nat)))
        + opt(s.validity.sparsity, field("sparsity_ratio"@, f.sparsity_ratio@))
        + opt(s.validity.value_range, field("value_min"@, f.value_min@))
        + opt(s.validity.value_range, field("value_max"@, f.value_max@))
        + opt(s.validity.value_range, field("value_abs_max"@, f.value_abs_max@))
        + opt(s.validity.value_stats, field("value_mean"@, f.value_mean@))
        + opt(s.validity.value_stats, field("value_stddev"@, f.value_stddev@))
        + opt(s.validity.nm_sparsity, field("nm_n"@, decimal(s.nm_n as nat)))
        + opt(s.validity.nm_sparsity, field("nm_m"@, decimal(s.nm_m as nat)))
        + opt(s.validity.nan_inf, field("has_nan"@, py_bool(s.has_nan)))
        + opt(s.validity.nan_inf, field("has_inf"@, py_bool(s.has_inf)))
}

/// `Statistics(nnz=4, value_min=0.0, ...)`.
pub open spec fn spec_statistics_repr(s: Statistics, f: RenderedFloats) -> Seq<char> {
    "Statistics("@ + joined(statistics_fields(s, f)) + ")"@
}

fn text_field(name: &str, value: &String) -> (r: String)
    ensures
        r@ == field(name@, value@),
{
    let mut s = String::new();
    s.append(name);
    s.append("=");
    s.append(value.as_str());
    proof {
        reveal_strlit("=");
    }
    assert(s@ =~= field(name@, value@));
    s
}

fn bool_field(name: &str, value: bool) -> (r: String)
    ensures
        r@ == field(name@, py_bool(value)),
{
    let mut s = String::new();
    s.append(name);
    s.append("=");
    push_py_bool(&mut s, value);
    proof {
        reveal_strlit("=");
    }
    assert(s@ =~= field(name@, py_bool(value)));
    s
}

impl Statistics {
    /// The `repr`, naming the claims that are valid so that it rebuilds the object.
    pub fn repr(&self, f: &RenderedFloats) -> (r: String)
        ensures
            r@ == spec_statistics_repr(*self, *f),
    {
        proof {
            reveal_strlit("nnz");
            reveal_strlit("sparsity_ratio");
            reveal_strlit("value_min");
            reveal_strlit("value_max");
            reveal_strlit("value_abs_max");
            reveal_strlit("value_mean");
            reveal_strlit("value_stddev");
            reveal_strlit("nm_n");
            reveal_strlit("nm_m");
            reveal_strlit("has_nan");
            reveal_strlit("has_inf");
        }
        let v = self.validity;
        let mut fields: Vec<String> = Vec::new();
        assert(views(fields@) =~= Seq::<Seq<char>>::empty());
        push_if(&mut fields, v.nnz, field_string("nnz", self.nnz));
        push_if(&mut fields, v.sparsity, text_field("sparsity_ratio", &f.sparsity_ratio));
        push_if(&mut fields, v.value_range, text_field("value_min", &f.value_min));
        push_if(&mut fields, v.value_range, text_field("value_max", &f.value_max));
        push_if(&mut fields, v.value_range, text_field("value_abs_max", &f.value_abs_max));
        push_if(&mut fields, v.value_stats, text_field("value_mean", &f.value_mean));
        push_if(&mut fields, v.value_stats, text_field("value_stddev", &f.value_stddev));
        push_if(&mut fields, v.nm_sparsity, field_string("nm_n", self.nm_n as u64));
        push_if(&mut fields, v.nm_sparsity, field_string("nm_m", self.nm_m as u64));
        push_if(&mut fields, v.nan_inf, bool_field("has_nan", self.has_nan));
        push_if(&mut fields, v.nan_inf, bool_field("has_inf", self.has_inf));
        assert(views(fields@) =~= statistics_fields(*self, *f));
        let mut s = String::new();
        s.append("Statistics(");
        crate::text::push_joined(&mut s, &fields);
        s.append(")");
        proof {
            reveal_strlit("Statistics(");
            reveal_strlit(")");
        }
        assert(s@ =~= spec_statistics_repr(*self, *f));
        s
    }
}

// ── Extension types ──────────────────────────────────────────────────────────

/// Why an extension type's bit width was refused; raises `InvalidDescriptorError`.
#[derive(Clone, Copy, Debug, PartialEq, Eq, Structural)]
pub enum ExtensionWidthError {
    /// A zero bit width.
    Zero,
    /// A sub-byte width other than 1, 2 or 4; the rest are reserved to built-in types.
    ReservedSubByte(u32),
}

/// Elements per byte: 8, 4 and 2 for the 1-, 2- and 4-bit widths, 1 for a byte or
/// wider.
pub open spec fn spec_packing_factor(bit_width: u32) -> Result<u8, ExtensionWidthError> {
    if bit_width == 0 {
        Err(ExtensionWidthError::Zero)
    } else if bit_width == 1 {
        Ok(8u8)
    } else if bit_width == 2 {
        Ok(4u8)
    } else if bit_width == 4 {
        Ok(2u8)
    } else if bit_width < 8 {
        Err(ExtensionWidthError::ReservedSubByte(bit_width))
    } else {
        Ok(1u8)
    }
}

/// Derive how many elements of an extension type pack into a byte.
pub fn derive_packing_factor(bit_width: u32) -> (r: Result<u8, ExtensionWidthError>)
    ensures
        r == spec_packing_factor(bit_width),
{
    if bit_width == 0 {
        Err(ExtensionWidthError::Zero)
    } else if bit_width == 1 {
        Ok(8)
    } else if bit_width == 2 {
        Ok(4)
    } else if bit_width == 4 {
        Ok(2)
    } else if bit_width < 8 {
        Err(ExtensionWidthError::ReservedSubByte(bit_width))
    } else {
        Ok(1)
    }
}

/// A packing factor never splits an element across bytes: factor times width is
/// exactly one byte below a byte's width, and one element per byte from there up.
pub proof fn lemma_packing_fills_a_byte(bit_width: u32)
    requires
        spec_packing_factor(bit_width) is Ok,
    ensures
        bit_width < 8 ==> (spec_packing_factor(bit_width)->Ok_0 as nat) * (bit_width as nat) == 8,
        bit_width >= 8 ==> spec_packing_factor(bit_width)->Ok_0 == 1,
{
}

/// An extension element type's description.
#[derive(Clone, Copy, Debug, PartialEq, Eq, Structural)]
pub struct ExtensionType {
    pub bit_width: u32,
    pub packing_factor: u8,
    pub is_float: bool,
    pub is_signed: bool,
    pub sign_bits: u8,
    pub exponent_bits: u8,
    pub mantissa_bits: u8,
    pub exponent_bias: u32,
    pub has_nan: bool,
    pub has_inf: bool,
}

/// One `name=value` field of a `repr`.
pub open spec fn field(name: Seq<char>, value: Seq<char>) -> Seq<char> {
    name + "="@ + value
}

/// A field that appears only when `c` holds.
pub open spec fn opt(c: bool, f: Seq<char>) -> Seq<Seq<char>> {
    if c {
        seq![f]
    } else {
        seq![]
    }
}

/// The fields an extension type's `repr` names: the bit width always, then only those
/// that differ from their defaults, in constructor order.
pub open spec fn extension_fields(e: ExtensionType) -> Seq<Seq<char>> {
    seq![field("bit_width"@, decimal(e.bit_width as nat))]
        + opt(e.is_float, field("is_float"@, "True"@))
        + opt(e.is_signed, field("is_signed"@, "True"@))
        + opt(e.sign_bits != 0, field("sign_bits"@, decimal(e.sign_bits as nat)))
        + opt(e.exponent_bits != 0, field("exponent_bits"@, decimal(e.exponent_bits as nat)))
        + opt(e.mantissa_bits != 0, field("mantissa_bits"@, decimal(e.mantissa_bits as nat)))
        + opt(e.exponent_bias != 0, field("exponent_bias"@, decimal(e.exponent_bias as nat)))
        + opt(e.has_nan, field("has_nan"@, "True"@))
        + opt(e.has_inf, field("has_inf"@, "True"@))
}

fn push_if(v: &mut Vec<String>, c: bool, f: String)
    ensures
        views(final(v)@) == views(old(v)@) + opt(c, f@),
{
    if c {
        v.push(f);
    }
    assert(views(v@) =~= views(old(v)@) + opt(c, f@));
}

/// `ExtensionType(bit_width=4, is_signed=True, ...)`.
pub open spec fn spec_extension_repr(e: ExtensionType) -> Seq<char> {
    "ExtensionType("@ + joined(extension_fields(e)) + ")"@
}

fn field_string(name: &str, value: u64) -> (r: String)
    ensures
        r@ == field(name@, decimal(value as nat)),
{
    let mut s = String::new();
    s.append(name);
    s.append("=");
    push_decimal(&mut s, value);
    proof {
        reveal_strlit("=");
    }
    assert(s@ =~= field(name@, decimal(value as nat)));
    s
}

fn true_field(name: &str) -> (r: String)
    ensures
        r@ == field(name@, "True"@),
{
    let mut s = String::new();
    s.append(name);
    s.append("=True");
    proof {
        reveal_strlit("=True");
        reveal_strlit("=");
        reveal_strlit("True");
    }
    assert(s@ =~= field(name@, "True"@));
    s
}

/// Why an extension type was refused; every case raises `InvalidDescriptorError`.
#[derive(Clone, Copy, Debug, PartialEq, Eq, Structural)]
pub enum ExtensionError {
    /// The bit width has no packing factor.
    Width(ExtensionWidthError),
    /// The fields contradict each other: `is_signed` on a float, more than one sign
    /// bit, or a float-only field on an integer type.
    Fields,
}

impl ExtensionError {
    /// Raises `InvalidDescriptorError`.
    pub fn class(&self) -> (r: ErrorClass)
        ensures
            r == ErrorClass::InvalidDescriptor,
    {
        ErrorClass::InvalidDescriptor
    }
}

/// The fields are consistent: a float's sign lives in `sign_bits` (never `is_signed`),
/// there is at most one sign bit, and the float-only fields (`sign_bits`,
/// `exponent_bits`, `mantissa_bits`, `exponent_bias`, `has_nan`, `has_inf`) stay at
/// their defaults on an integer type.
pub open spec fn extension_fields_consistent(
    is_float: bool,
    is_signed: bool,
    sign_bits: u8,
    exponent_bits: u8,
    mantissa_bits: u8,
    exponent_bias: u32,
    has_nan: bool,
    has_inf: bool,
) -> bool {
    &&& !(is_float && is_signed)
    &&& sign_bits <= 1
    &&& (!is_float ==> sign_bits == 0 && exponent_bits == 0 && mantissa_bits == 0
        && exponent_bias == 0 && !has_nan && !has_inf)
}

impl ExtensionType {
    /// Describe an extension type; the packing factor is derived from the width, which
    /// is checked first.
    pub fn new(
        bit_width: u32,
        is_float: bool,
        is_signed: bool,
        sign_bits: u8,
        exponent_bits: u8,
        mantissa_bits: u8,
        exponent_bias: u32,
        has_nan: bool,
        has_inf: bool,
    ) -> (r: Result<ExtensionType, ExtensionError>)
        ensures
            match spec_packing_factor(bit_width) {
                Err(e) => r == Err::<ExtensionType, ExtensionError>(ExtensionError::Width(e)),
                Ok(p) => if extension_fields_consistent(
                    is_float,
                    is_signed,
                    sign_bits,
                    exponent_bits,
                    mantissa_bits,
                    exponent_bias,
                    has_nan,
                    has_inf,
                ) {
                    r == Ok::<ExtensionType, ExtensionError>(ExtensionType {
                        bit_width,
                        packing_factor: p,
                        is_float,
                        is_signed,
                        sign_bits,
                        exponent_bits,
                        mantissa_bits,
                        exponent_bias,
                        has_nan,
                        has_inf,
                    })
                } else {
                    r == Err::<ExtensionType, ExtensionError>(ExtensionError::Fields)
                },
            },
    {
        let packing_factor = match derive_packing_factor(bit_width) {
            Ok(p) => p,
            Err(e) => return Err(ExtensionError::Width(e)),
        };
        if is_float && is_signed {
            return Err(ExtensionError::Fields);
        }
        if sign_bits > 1 {
            return Err(ExtensionError::Fields);
        }
        if !is_float && (sign_bits != 0 || exponent_bits != 0 || mantissa_bits != 0
            || exponent_bias != 0 || has_nan || has_inf) {
            return Err(ExtensionError::Fields);
        }
        Ok(ExtensionType {
            bit_width,
            packing_factor,
            is_float,
            is_signed,
            sign_bits,
            exponent_bits,
            mantissa_bits,
            exponent_bias,
            has_nan,
            has_inf,
        })
    }

    /// Bits per element.
    pub fn bit_width(&self) -> (r: u32)
        ensures
            r == self.bit_width,
    {
        self.bit_width
    }

    /// Elements per byte.
    pub fn packing_factor(&self) -> (r: u8)
        ensures
            r == self.packing_factor,
    {
        self.packing_factor
    }

    /// Is it a floating-point type?
    pub fn is_float(&self) -> (r: bool)
        ensures
            r == self.is_float,
    {
        self.is_float
    }

    /// Is it a signed integer type?
    pub fn is_signed(&self) -> (r: bool)
        ensures
            r == self.is_signed,
    {
        self.is_signed
    }

    /// Sign bits of a float.
    pub fn sign_bits(&self) -> (r: u8)
        ensures
            r == self.sign_bits,
    {
        self.sign_bits
    }

    /// Exponent bits of a float.
    pub fn exponent_bits(&self) -> (r: u8)
        ensures
            r == self.exponent_bits,
    {
        self.exponent_bits
    }

    /// Mantissa bits of a float.
    pub fn mantissa_bits(&self) -> (r: u8)
        ensures
            r == self.mantissa_bits,
    {
        self.mantissa_bits
    }

    /// Exponent bias of a float.
    pub fn exponent_bias(&self) -> (r: u32)
        ensures
            r == self.exponent_bias,
    {
        self.exponent_bias
    }

    /// Whether NaN is representable.
    pub fn has_nan(&self) -> (r: bool)
        ensures
            r == self.has_nan,
    {
        self.has_nan
    }

    /// Whether infinity is representable.
    pub fn has_inf(&self) -> (r: bool)
        ensures
            r == self.has_inf,
    {
        self.has_inf
    }

    /// The `repr`, naming only what was supplied.
    pub fn repr(&self) -> (r: String)
        ensures
            r@ == spec_extension_repr(*self),
    {
        let mut fields: Vec<String> = Vec::new();
        fields.push(field_string("bit_width", self.bit_width as u64));
        proof {
            reveal_strlit("bit_width");
            reveal_strlit("is_float");
            reveal_strlit("is_signed");
            reveal_strlit("sign_bits");
            reveal_strlit("exponent_bits");
            reveal_strlit("mantissa_bits");
            reveal_strlit("exponent_bias");
            reveal_strlit("has_nan");
            reveal_strlit("has_inf");
        }
        let ghost e = *self;
        assert(views(fields@) =~= seq![field("bit_width"@, decimal(e.bit_width as nat))]);
        push_if(&mut fields, self.is_float, true_field("is_float"));
        push_if(&mut fields, self.is_signed, true_field("is_signed"));
        push_if(&mut fields, self.sign_bits != 0, field_string("sign_bits", self.sign_bits as u64));
        push_if(
            &mut fields,
            self.exponent_bits != 0,
            field_string("exponent_bits", self.exponent_bits as u64),
        );
        push_if(
            &mut fields,
            self.mantissa_bits != 0,
            field_string("mantissa_bits", self.mantissa_bits as u64),
        );
        push_if(
            &mut fields,
            self.exponent_bias != 0,
            field_string("exponent_bias", self.exponent_bias as u64),
        );
        push_if(&mut fields, self.has_nan, true_field("has_nan"));
        push_if(&mut fields, self.has_inf, true_field("has_inf"));
        assert(views(fields@) == extension_fields(e));
        let mut s = String::new();
        s.append("ExtensionType(");
        crate::text::push_joined(&mut s, &fields);
        s.append(")");
        proof {
            reveal_strlit("ExtensionType(");
            reveal_strlit(")");
        }
        assert(s@ =~= spec_extension_repr(e));
        s
    }
}

// ── Shards ───────────────────────────────────────────────────────────────────

/// A tensor's position in a larger logical tensor: the parent's shape and where this
/// piece starts along each dimension.
#[derive(Debug)]
pub struct Shard {
    parent_shape: Vec<u64>,
    shard_offset: Vec<u64>,
}

/// The parent shape and the offset differ in length; raises `InvalidDescriptorError`.
#[derive(Clone, Copy, Debug, PartialEq, Eq, Structural)]
pub struct ShardRankMismatch;

impl Shard {
    /// The parent's shape.
    pub closed spec fn parent(&self) -> Seq<u64> {
        self.parent_shape@
    }

    /// The shard's offset.
    pub closed spec fn offset(&self) -> Seq<u64> {
        self.shard_offset@
    }

    /// Describe a shard; both vectors must have the same length.
    pub fn new(parent_shape: Vec<u64>, shard_offset: Vec<u64>) -> (r: Result<Shard, ShardRankMismatch>)
        ensures
            parent_shape@.len() == shard_offset@.len() ==> (r matches Ok(s) && s.parent()
                == parent_shape@ && s.offset() == shard_offset@),
            parent_shape@.len() != shard_offset@.len() ==> r == Err::<Shard, ShardRankMismatch>(
                ShardRankMismatch,
            ),
    {
        if parent_shape.len() != shard_offset.len() {
            return Err(ShardRankMismatch);
        }
        Ok(Shard { parent_shape, shard_offset })
    }

    /// The parent's shape.
    pub fn parent_shape(&self) -> (r: &Vec<u64>)
        ensures
            r@ == self.parent(),
    {
        &self.parent_shape
    }

    /// The shard's offset.
    pub fn shard_offset(&self) -> (r: &Vec<u64>)
        ensures
            r@ == self.offset(),
    {
        &self.shard_offset
    }

    /// `Shard(parent_shape=[...], shard_offset=[...])`.
    pub fn repr(&self) -> (r: String)
        ensures
            r@ == spec_shard_repr(self.parent(), self.offset()),
    {
        shard_repr(&self.parent_shape, &self.shard_offset)
    }
}

/// `Shard(parent_shape=[8, 8], shard_offset=[0, 4])`.
pub open spec fn spec_shard_repr(parent_shape: Seq<u64>, shard_offset: Seq<u64>) -> Seq<char> {
    "Shard(parent_shape="@ + debug_list(parent_shape.map_values(|d: u64| decimal(d as nat)))
        + ", shard_offset="@ + debug_list(shard_offset.map_values(|d: u64| decimal(d as nat)))
        + ")"@
}

/// The `repr` of a shard.
pub fn shard_repr(parent_shape: &Vec<u64>, shard_offset: &Vec<u64>) -> (r: String)
    ensures
        r@ == spec_shard_repr(parent_shape@, shard_offset@),
{
    let p = decimals_u64(parent_shape);
    let o = decimals_u64(shard_offset);
    let mut s = String::new();
    s.append("Shard(parent_shape=");
    push_debug_list(&mut s, &p);
    s.append(", shard_offset=");
    push_debug_list(&mut s, &o);
    s.append(")");
    proof {
        reveal_strlit("Shard(parent_shape=");
        reveal_strlit(", shard_offset=");
        reveal_strlit(")");
        assert(views(p@) =~= parent_shape@.map_values(|d: u64| decimal(d as nat)));
        assert(views(o@) =~= shard_offset@.map_values(|d: u64| decimal(d as nat)));
    }
    assert(s@ =~= spec_shard_repr(parent_shape@, shard_offset@));
    s
}

} // verus!
