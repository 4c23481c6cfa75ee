//! Text helpers shared by the display functions: string comparison and the decimal,
//! hexadecimal and Python-literal spellings the `repr` strings are built from.

use vstd::prelude::*;
use vstd::string::*;

verus! {

/// Two strings are equal exactly when their UTF-8 encodings are.
proof fn lemma_bytes_determine_str(a: &str, b: &str)
    requires
        a.spec_bytes() == b.spec_bytes(),
    ensures
        a@ == b@,
{
    vstd::utf8::encode_utf8_decode_utf8(a@);
    vstd::utf8::encode_utf8_decode_utf8(b@);
}

/// Compare two strings character for character.
pub fn str_eq(a: &str, b: &str) -> (r: bool)
    ensures
        r == (a@ == b@),
{
    let x = a.as_bytes();
    let y = b.as_bytes();
    if x.len() != y.len() {
        return false;
    }
    let mut i: usize = 0;
    while i < x.len()
        invariant
            i <= x.len(),
            x.len() == y.len(),
            x@ == a.spec_bytes(),
            y@ == b.spec_bytes(),
            forall|j: int| 0 <= j < i ==> x@[j] == y@[j],
        decreases x.len() - i,
    {
        if x[i] != y[i] {
            return false;
        }
        i = i + 1;
    }
    proof {
        assert(x@ =~= y@);
        lemma_bytes_determine_str(a, b);
    }
    true
}


/// The ASCII character for a decimal digit.
pub open spec fn digit_char(d: nat) -> char {
    if d == 0 { '0' }
    else if d == 1 { '1' }
    else if d == 2 { '2' }
    else if d == 3 { '3' }
    else if d == 4 { '4' }
    else if d == 5 { '5' }
    else if d == 6 { '6' }
    else if d == 7 { '7' }
    else if d == 8 { '8' }
    else { '9' }
}

/// The uppercase ASCII character for a hexadecimal digit.
pub open spec fn hex_char(d: nat) -> char {
    if d < 10 { digit_char(d) }
    else if d == 10 { 'A' }
    else if d == 11 { 'B' }
    else if d == 12 { 'C' }
    else if d == 13 { 'D' }
    else if d == 14 { 'E' }
    else { 'F' }
}

/// The shortest decimal spelling of a natural number, as `u64::to_string` writes it.
pub open spec fn decimal(n: nat) -> Seq<char>
    decreases n,
{
    if n < 10 {
        seq![digit_char(n)]
    } else {
        decimal(n / 10) + seq![digit_char(n % 10)]
    }
}

/// The decimal spelling of an integer, with a leading `-` when it is negative.
pub open spec fn signed_decimal(n: int) -> Seq<char> {
    if n < 0 {
        seq!['-'] + decimal((-n) as nat)
    } else {
        decimal(n as nat)
    }
}

/// A byte as two uppercase hexadecimal digits, as `format!("{:02X}")` writes it.
pub open spec fn hex2(b: u8) -> Seq<char> {
    seq![hex_char((b / 16) as nat), hex_char((b % 16) as nat)]
}

/// Python's spelling of a boolean.
pub open spec fn py_bool(b: bool) -> Seq<char> {
    if b {
        seq!['T', 'r', 'u', 'e']
    } else {
        seq!['F', 'a', 'l', 's', 'e']
    }
}

/// The one-character string for a hexadecimal digit.
fn hex_digit_str(d: u8) -> (r: &'static str)
    requires
        d < 16,
    ensures
        r@ == seq![hex_char(d as nat)],
{
    proof {
        reveal_strlit("0"); reveal_strlit("1"); reveal_strlit("2"); reveal_strlit("3");
        reveal_strlit("4"); reveal_strlit("5"); reveal_strlit("6"); reveal_strlit("7");
        reveal_strlit("8"); reveal_strlit("9"); reveal_strlit("A"); reveal_strlit("B");
        reveal_strlit("C"); reveal_strlit("D"); reveal_strlit("E"); reveal_strlit("F");
    }
    match d {
        0 => "0",
        1 => "1",
        2 => "2",
        3 => "3",
        4 => "4",
        5 => "5",
        6 => "6",
        7 => "7",
        8 => "8",
        9 => "9",
        10 => "A",
        11 => "B",
        12 => "C",
        13 => "D",
        14 => "E",
        _ => "F",
    }
}

/// Append the decimal spelling of `n`.
pub fn push_decimal(s: &mut String, n: u64)
    ensures
        final(s)@ == old(s)@ + decimal(n as nat),
    decreases n,
{
    if n >= 10 {
        push_decimal(s, n / 10);
    }
    let d = (n % 10) as u8;
    s.append(hex_digit_str(d));
}

/// Append the decimal spelling of a signed integer.
pub fn push_signed_decimal(s: &mut String, n: i64)
    ensures
        final(s)@ == old(s)@ + signed_decimal(n as int),
{
    if n < 0 {
        proof { reveal_strlit("-"); }
        s.append("-");
        let magnitude: u64 = if n == i64::MIN {
            9223372036854775808u64
        } else {
            (-n) as u64
        };
        push_decimal(s, magnitude);
        assert(final(s)@ =~= old(s)@ + signed_decimal(n as int));
    } else {
        push_decimal(s, n as u64);
    }
}

/// Append a byte as two uppercase hexadecimal digits.
pub fn push_hex2(s: &mut String, b: u8)
    ensures
        final(s)@ == old(s)@ + hex2(b),
{
    s.append(hex_digit_str(b / 16));
    s.append(hex_digit_str(b % 16));
    assert(final(s)@ =~= old(s)@ + hex2(b));
}

/// Append Python's spelling of a boolean.
pub fn push_py_bool(s: &mut String, b: bool)
    ensures
        final(s)@ == old(s)@ + py_bool(b),
{
    proof {
        reveal_strlit("True");
        reveal_strlit("False");
    }
    if b {
        s.append("True");
    } else {
        s.append("False");
    }
}


/// Items joined by `", "`.
pub open spec fn joined(items: Seq<Seq<char>>) -> Seq<char>
    decreases items.len(),
{
    if items.len() == 0 {
        Seq::empty()
    } else if items.len() == 1 {
        items[0]
    } else {
        joined(items.drop_last()) + ", "@ + items.last()
    }
}

/// Python's spelling of a tuple whose items spell as given: `()`, `(a,)`, `(a, b)`.
pub open spec fn py_tuple(items: Seq<Seq<char>>) -> Seq<char> {
    if items.len() == 1 {
        "("@ + items[0] + ",)"@
    } else {
        "("@ + joined(items) + ")"@
    }
}

/// Rust's `Debug` spelling of a list whose items spell as given: `[]`, `[a, b]`.
pub open spec fn debug_list(items: Seq<Seq<char>>) -> Seq<char> {
    "["@ + joined(items) + "]"@
}

/// The views of a vector of strings.
pub open spec fn views(parts: Seq<String>) -> Seq<Seq<char>> {
    Seq::new(parts.len(), |i: int| parts[i]@)
}

/// The decimal spelling of `n` as a fresh string.
pub fn decimal_string(n: u64) -> (r: String)
    ensures
        r@ == decimal(n as nat),
{
    let mut s = String::new();
    push_decimal(&mut s, n);
    s
}

/// Append the parts joined by `", "`.
pub fn push_joined(s: &mut String, parts: &Vec<String>)
    ensures
        final(s)@ == old(s)@ + joined(views(parts@)),
{
    let ghost start = s@;
    let mut i: usize = 0;
    while i < parts.len()
        invariant
            i <= parts.len(),
            s@ == start + joined(views(parts@.take(i as int))),
        decreases parts.len() - i,
    {
        let ghost before = s@;
        if i > 0 {
            s.append(", ");
        }
        s.append(parts[i].as_str());
        proof {
            let prev = views(parts@.take(i as int));
            let next = views(parts@.take(i + 1));
            assert(next.drop_last() =~= prev);
            assert(next.last() == parts@[i as int]@);
            if i == 0 {
                assert(prev =~= Seq::<Seq<char>>::empty());
                assert(joined(prev) =~= Seq::<char>::empty());
                assert(s@ =~= start + joined(next));
            } else {
                assert(s@ =~= start + joined(next));
            }
        }
        i = i + 1;
    }
    proof {
        assert(parts@.take(parts@.len() as int) =~= parts@);
    }
}

/// Append the parts as a Python tuple.
pub fn push_py_tuple(s: &mut String, parts: &Vec<String>)
    ensures
        final(s)@ == old(s)@ + py_tuple(views(parts@)),
{
    s.append("(");
    push_joined(s, parts);
    if parts.len() == 1 {
        s.append(",)");
        proof {
            let v = views(parts@);
            assert(v.len() == 1);
            assert(joined(v) == v[0]);
        }
    } else {
        s.append(")");
    }
    assert(final(s)@ =~= old(s)@ + py_tuple(views(parts@)));
}

/// Append the parts as a Rust `Debug` list.
pub fn push_debug_list(s: &mut String, parts: &Vec<String>)
    ensures
        final(s)@ == old(s)@ + debug_list(views(parts@)),
{
    s.append("[");
    push_joined(s, parts);
    s.append("]");
    assert(final(s)@ =~= old(s)@ + debug_list(views(parts@)));
}

/// The decimal spellings of a vector of unsigned integers.
pub fn decimals_u64(v: &Vec<u64>) -> (r: Vec<String>)
    ensures
        views(r@) == Seq::new(v@.len(), |i: int| decimal(v@[i] as nat)),
{
    let mut out: Vec<String> = Vec::new();
    let mut i: usize = 0;
    while i < v.len()
        invariant
            i <= v.len(),
            out@.len() == i,
            forall|j: int| 0 <= j < i ==> (#[trigger] out@[j])@ == decimal(v@[j] as nat),
        decreases v.len() - i,
    {
        out.push(decimal_string(v[i]));
        i = i + 1;
    }
    assert(views(out@) =~= Seq::new(v@.len(), |i: int| decimal(v@[i] as nat)));
    out
}

/// The decimal spellings of a vector of `u32`.
pub fn decimals_u32(v: &Vec<u32>) -> (r: Vec<String>)
    ensures
        views(r@) == Seq::new(v@.len(), |i: int| decimal(v@[i] as nat)),
{
    let mut out: Vec<String> = Vec::new();
    let mut i: usize = 0;
    while i < v.len()
        invariant
            i <= v.len(),
            out@.len() == i,
            forall|j: int| 0 <= j < i ==> (#[trigger] out@[j])@ == decimal(v@[j] as nat),
        decreases v.len() - i,
    {
        out.push(decimal_string(v[i] as u64));
        i = i + 1;
    }
    assert(views(out@) =~= Seq::new(v@.len(), |i: int| decimal(v@[i] as nat)));
    out
}

/// The signed decimal spellings of a vector of `i64`.
pub fn decimals_i64(v: &Vec<i64>) -> (r: Vec<String>)
    ensures
        views(r@) == Seq::new(v@.len(), |i: int| signed_decimal(v@[i] as int)),
{
    let mut out: Vec<String> = Vec::new();
    let mut i: usize = 0;
    while i < v.len()
        invariant
            i <= v.len(),
            out@.len() == i,
            forall|j: int| 0 <= j < i ==> (#[trigger] out@[j])@ == signed_decimal(v@[j] as int),
        decreases v.len() - i,
    {
        let mut s = String::new();
        push_signed_decimal(&mut s, v[i]);
        out.push(s);
        i = i + 1;
    }
    assert(views(out@) =~= Seq::new(v@.len(), |i: int| signed_decimal(v@[i] as int)));
    out
}

} // verus!
