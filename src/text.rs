//! UTF-16 text as the credential store keeps it.
use vstd::prelude::*;
use vstd::string::StrSliceExecFns;
use widestring::error::ContainsNul;
use widestring::{U16CString, U16String};

verus! {

#[verifier::external_type_specification]
#[verifier::external_body]
#[verifier::reject_recursive_types(C)]
pub struct ExContainsNul<C>(ContainsNul<C>);

/// The UTF-16 code units of one character.
pub open spec fn utf16_of_char(c: char) -> Seq<u16> {
    let n = c as u32 as int;
    if n < 0x10000 {
        seq![n as u16]
    } else {
        let m = n - 0x10000;
        seq![(0xD800 + m / 0x400) as u16, (0xDC00 + m % 0x400) as u16]
    }
}

/// The UTF-16 encoding of a character sequence.
pub open spec fn utf16_of(s: Seq<char>) -> Seq<u16>
    decreases s.len(),
{
    if s.len() == 0 {
        seq![]
    } else {
        utf16_of_char(s[0]) + utf16_of(s.drop_first())
    }
}

pub open spec fn is_high_surrogate(u: u16) -> bool {
    0xD800 <= u <= 0xDBFF
}

pub open spec fn is_low_surrogate(u: u16) -> bool {
    0xDC00 <= u <= 0xDFFF
}

/// Lossy UTF-16 decoding: a high surrogate followed by a low one forms one
/// character; any other surrogate becomes U+FFFD; every other unit is the
/// character of that value.
pub open spec fn utf16_decode_lossy(u: Seq<u16>) -> Seq<char>
    decreases u.len(),
{
    if u.len() == 0 {
        seq![]
    } else if u.len() >= 2 && is_high_surrogate(u[0]) && is_low_surrogate(u[1]) {
        let n = 0x10000 + (u[0] - 0xD800) * 0x400 + (u[1] - 0xDC00);
        seq![(n as u32) as char] + utf16_decode_lossy(u.subrange(2, u.len() as int))
    } else if is_high_surrogate(u[0]) || is_low_surrogate(u[0]) {
        seq!['\u{FFFD}'] + utf16_decode_lossy(u.drop_first())
    } else {
        seq![(u[0] as u32) as char] + utf16_decode_lossy(u.drop_first())
    }
}

/// Decoding the UTF-16 units of one character, followed by any units, gives
/// that character followed by the decoding of the rest.
proof fn lemma_decode_char_prefix(c: char, rest: Seq<u16>)
    ensures
        utf16_decode_lossy(utf16_of_char(c) + rest) == seq![c] + utf16_decode_lossy(rest),
{
    broadcast use vstd::utf8::char_is_scalar, vstd::utf8::char_u32_cast;
    let n = c as u32;
    assert(vstd::utf8::is_scalar(n));
    let u = utf16_of_char(c) + rest;
    if n < 0x10000 {
        assert(u.drop_first() =~= rest);
        assert((u[0] as u32) == n);
    } else {
        let m = n - 0x10000;
        assert(u.subrange(2, u.len() as int) =~= rest);
        assert(0x10000 + (u[0] - 0xD800) * 0x400 + (u[1] - 0xDC00) == n);
    }
}

/// Lossy decoding undoes UTF-16 encoding.
pub proof fn lemma_decode_utf16_of(s: Seq<char>)
    ensures
        utf16_decode_lossy(utf16_of(s)) == s,
    decreases s.len(),
{
    if s.len() > 0 {
        lemma_decode_utf16_of(s.drop_first());
        lemma_decode_char_prefix(s[0], utf16_of(s.drop_first()));
        assert(seq![s[0]] + s.drop_first() =~= s);
    }
}

/// The units followed by a nul terminator, unless the last unit already is one.
pub open spec fn nul_terminated(u: Seq<u16>) -> Seq<u16> {
    if u.len() > 0 && u.last() == 0 {
        u
    } else {
        u.push(0)
    }
}

/// A nul unit stands somewhere before the last unit.
pub open spec fn has_interior_nul(u: Seq<u16>) -> bool {
    exists|i: int| 0 <= i < u.len() - 1 && #[trigger] u[i] == 0
}

/// Relies on widestring's `U16CString::from_str`, converted by
/// `into_vec_with_nul`: the UTF-16 units of the text with a nul terminator,
/// refused exactly when a nul unit stands before the last unit.
#[verifier::external_body]
fn wide_with_nul(s: &str) -> (r: Result<Vec<u16>, ContainsNul<u16>>)
    ensures
        r is Ok <==> !has_interior_nul(utf16_of(s@)),
        r matches Ok(v) ==> v@ == nul_terminated(utf16_of(s@)),
{
    match U16CString::from_str(s) {
        Ok(w) => Ok(w.into_vec_with_nul()),
        Err(e) => Err(e),
    }
}

/// Relies on widestring's `U16String::from_vec` and `to_string_lossy`
/// (`String::from_utf16_lossy`): lossy UTF-16 decoding of the units.
#[verifier::external_body]
fn wide_to_string_lossy(v: Vec<u16>) -> (r: String)
    ensures
        r@ == utf16_decode_lossy(v@),
{
    U16String::from_vec(v).to_string_lossy()
}

/// Encoding a text without a nul character yields no nul unit.
proof fn lemma_no_nul_units(s: Seq<char>)
    requires
        !s.contains('\0'),
    ensures
        forall|i: int| 0 <= i < utf16_of(s).len() ==> #[trigger] utf16_of(s)[i] != 0,
    decreases s.len(),
{
    broadcast use vstd::utf8::char_u32_cast;
    if s.len() > 0 {
        let rest = s.drop_first();
        assert forall|c: char| rest.contains(c) implies s.contains(c) by {
            let j = choose|j: int| 0 <= j < rest.len() && rest[j] == c;
            assert(s[j + 1] == c);
        }
        lemma_no_nul_units(rest);
        assert(s[0] != '\0');
        let n = s[0] as u32;
        vstd::utf8::char_u32_cast(s[0], n);
        assert(('\0' as u32) == 0);
        assert(n != 0) by {
            if n == 0 {
                vstd::utf8::char_u32_cast('\0', 0);
            }
        }
        let head = utf16_of_char(s[0]);
        assert(forall|k: int| 0 <= k < head.len() ==> head[k] != 0);
        assert(utf16_of(s) == head + utf16_of(rest));
        assert forall|i: int| 0 <= i < utf16_of(s).len() implies #[trigger] utf16_of(s)[i] != 0 by {
            if i >= head.len() {
                assert(utf16_of(s)[i] == utf16_of(rest)[i - head.len()]);
            }
        }
    }
}

/// Whether the text holds a nul character.
pub fn contains_nul(s: &str) -> (r: bool)
    ensures
        r == s@.contains('\0'),
{
    let n = s.unicode_len();
    let mut i: usize = 0;
    while i < n
        invariant
            n == s@.len(),
            i <= n,
            forall|j: int| 0 <= j < i ==> s@[j] != '\0',
        decreases n - i,
    {
        if s.get_char(i) == '\0' {
            return true;
        }
        i = i + 1;
    }
    false
}

/// The nul-terminated UTF-16 encoding of a text, or `None` when the text
/// holds a nul character, which the terminator would make ambiguous.
pub fn encode_nul_terminated(s: &str) -> (r: Option<Vec<u16>>)
    ensures
        r is None <==> s@.contains('\0'),
        r matches Some(v) ==> v@ == utf16_of(s@).push(0),
{
    if contains_nul(s) {
        return None;
    }
    proof {
        lemma_no_nul_units(s@);
    }
    match wide_with_nul(s) {
        Ok(v) => Some(v),
        Err(_) => None,
    }
}

/// The text of a sequence of UTF-16 units, with U+FFFD for each unpaired
/// surrogate.
pub fn decode_units(v: Vec<u16>) -> (r: String)
    ensures
        r@ == utf16_decode_lossy(v@),
{
    wide_to_string_lossy(v)
}

} // verus!
