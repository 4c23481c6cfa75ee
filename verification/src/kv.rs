//! File-level key/value metadata: converting Python values to KV values.
//!
//! `bool` is tested before `int` (Python's `bool` is a subclass of `int`). A list
//! becomes an array of its converted elements and must not be empty; the first element
//! that cannot be converted decides the error. Floats travel as their IEEE-754 bits.

use vstd::prelude::*;
use crate::errors::ErrorClass;

verus! {

/// A Python value as the converter sees it.
#[derive(Debug)]
pub enum PyValue {
    Bool(bool),
    Int(i64),
    /// A float, by its IEEE-754 bits.
    Float(u64),
    Str(String),
    Bytes(Vec<u8>),
    List(Vec<PyValue>),
    /// Any other type.
    Other,
}

/// A KV metadata value.
#[derive(Debug)]
pub enum KvValue {
    Bool(bool),
    Int64(i64),
    Uint64(u64),
    /// A float, by its IEEE-754 bits.
    Float64(u64),
    String(String),
    Bytes(Vec<u8>),
    Array(Vec<KvValue>),
}

/// Why a value could not be stored as KV metadata; both raise `FileError`.
#[derive(Clone, Copy, Debug, PartialEq, Eq, Structural)]
pub enum KvError {
    /// An empty list.
    EmptyArray,
    /// A type other than bool, int, float, str, bytes and list.
    UnsupportedType,
}

impl KvError {
    /// KV errors raise `FileError`.
    pub fn class(&self) -> (r: ErrorClass)
        ensures
            r == ErrorClass::File,
    {
        ErrorClass::File
    }
}

/// The error converting `p` gives, if any.
pub open spec fn conv_err(p: PyValue) -> Option<KvError>
    decreases p, 0nat,
{
    match p {
        PyValue::Other => Some(KvError::UnsupportedType),
        PyValue::List(items) => if items@.len() == 0 {
            Some(KvError::EmptyArray)
        } else {
            errs_from(items@, 0)
        },
        _ => None,
    }
}

/// The error of the first element from `i` on that fails to convert, if any.
pub open spec fn errs_from(ps: Seq<PyValue>, i: int) -> Option<KvError>
    decreases ps, ps.len() - i,
{
    if i < 0 || i >= ps.len() {
        None
    } else {
        match conv_err(ps[i]) {
            Some(e) => Some(e),
            None => errs_from(ps, i + 1),
        }
    }
}

/// `k` is what `p` converts to.
pub open spec fn converts(p: PyValue, k: KvValue) -> bool
    decreases p, 0nat,
{
    match (p, k) {
        (PyValue::Bool(a), KvValue::Bool(b)) => a == b,
        (PyValue::Int(a), KvValue::Int64(b)) => a == b,
        (PyValue::Float(a), KvValue::Float64(b)) => a == b,
        (PyValue::Str(a), KvValue::String(b)) => a@ == b@,
        (PyValue::Bytes(a), KvValue::Bytes(b)) => a@ == b@,
        (PyValue::List(items), KvValue::Array(ks)) => items@.len() > 0 && items@.len()
            == ks@.len() && all_convert(items@, ks@, 0),
        _ => false,
    }
}

/// Elements `i..` of `ps` convert to the same elements of `ks`.
pub open spec fn all_convert(ps: Seq<PyValue>, ks: Seq<KvValue>, i: int) -> bool
    decreases ps, ps.len() - i,
{
    if i < 0 || i >= ps.len() {
        true
    } else {
        converts(ps[i], ks[i]) && all_convert(ps, ks, i + 1)
    }
}

proof fn lemma_all_convert_from_pointwise(ps: Seq<PyValue>, ks: Seq<KvValue>, i: int)
    requires
        0 <= i <= ps.len(),
        forall|j: int| 0 <= j < ps.len() ==> converts(#[trigger] ps[j], ks[j]),
    ensures
        all_convert(ps, ks, i),
    decreases ps.len() - i,
{
    if i < ps.len() {
        lemma_all_convert_from_pointwise(ps, ks, i + 1);
    }
}

proof fn lemma_errs_from_none(ps: Seq<PyValue>, i: int)
    requires
        0 <= i <= ps.len(),
        forall|j: int| 0 <= j < ps.len() ==> conv_err(#[trigger] ps[j]) is None,
    ensures
        errs_from(ps, i) is None,
    decreases ps.len() - i,
{
    if i < ps.len() {
        lemma_errs_from_none(ps, i + 1);
    }
}

proof fn lemma_errs_from_first(ps: Seq<PyValue>, i: int, k: int)
    requires
        0 <= i <= k < ps.len(),
        forall|j: int| i <= j < k ==> conv_err(#[trigger] ps[j]) is None,
        conv_err(ps[k]) is Some,
    ensures
        errs_from(ps, i) == conv_err(ps[k]),
    decreases k - i,
{
    if i < k {
        lemma_errs_from_first(ps, i + 1, k);
    }
}

fn copy_string(s: &String) -> (r: String)
    ensures
        r@ == s@,
{
    s.as_str().to_owned()
}

fn copy_bytes(b: &Vec<u8>) -> (r: Vec<u8>)
    ensures
        r@ == b@,
{
    let mut out: Vec<u8> = Vec::new();
    let mut i: usize = 0;
    while i < b.len()
        invariant
            i <= b.len(),
            out@ == b@.subrange(0, i as int),
        decreases b.len() - i,
    {
        out.push(b[i]);
        i = i + 1;
    }
    assert(out@ =~= b@);
    out
}

/// Convert a Python value to a KV value.
#[verifier::loop_isolation(false)]
pub fn py_to_kv_value(p: &PyValue) -> (r: Result<KvValue, KvError>)
    ensures
        match r {
            Ok(k) => conv_err(*p) is None && converts(*p, k),
            Err(e) => conv_err(*p) == Some(e),
        },
    decreases p,
{
    match p {
        PyValue::Bool(b) => Ok(KvValue::Bool(*b)),
        PyValue::Int(v) => Ok(KvValue::Int64(*v)),
        PyValue::Float(bits) => Ok(KvValue::Float64(*bits)),
        PyValue::Str(s) => Ok(KvValue::String(copy_string(s))),
        PyValue::Bytes(b) => Ok(KvValue::Bytes(copy_bytes(b))),
        PyValue::Other => Err(KvError::UnsupportedType),
        PyValue::List(items) => {
            if items.len() == 0 {
                return Err(KvError::EmptyArray);
            }
            let mut out: Vec<KvValue> = Vec::new();
            let mut i: usize = 0;
            while i < items.len()
                invariant
                    i <= items@.len(),
                    out@.len() == i,
                    forall|j: int| 0 <= j < i ==> conv_err(#[trigger] items@[j]) is None,
                    forall|j: int| 0 <= j < i ==> converts(#[trigger] items@[j], out@[j]),
                decreases items.len() - i,
            {
                let item = &items[i];
                proof {
                    assert(decreases_to!(*p => *items));
                    assert(decreases_to!(*items => items@));
                    assert(decreases_to!(items@ => items@[i as int]));
                }
                match py_to_kv_value(item) {
                    Ok(k) => {
                        out.push(k);
                    },
                    Err(e) => {
                        proof {
                            lemma_errs_from_first(items@, 0, i as int);
                        }
                        return Err(e);
                    },
                }
                i = i + 1;
            }
            proof {
                lemma_errs_from_none(items@, 0);
                lemma_all_convert_from_pointwise(items@, out@, 0);
            }
            Ok(KvValue::Array(out))
        },
    }
}

} // verus!
