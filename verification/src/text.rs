//! Texts compared character by character, with or without regard to the case
//! of ASCII letters.

use vstd::prelude::*;
use vstd::string::*;
use vstd::utf8::*;

verus! {

/// The lower-case form of an ASCII capital letter; any other character itself.
pub open spec fn lower_char(c: char) -> char {
    if 'A' <= c <= 'Z' {
        ((c as u8) + 32) as char
    } else {
        c
    }
}

/// A text with each ASCII capital letter replaced by its lower-case form.
pub open spec fn ascii_lower(s: Seq<char>) -> Seq<char> {
    Seq::new(s.len(), |i: int| lower_char(s[i]))
}

/// Two texts that differ at most in the case of ASCII letters.
pub open spec fn same_ignoring_case(a: Seq<char>, b: Seq<char>) -> bool {
    ascii_lower(a) == ascii_lower(b)
}

fn lower_byte(b: u8) -> (r: u8)
    requires
        b < 128,
    ensures
        r < 128,
        r as char == lower_char(b as char),
{
    if 65 <= b && b <= 90 {
        b + 32
    } else {
        b
    }
}

/// Whether two texts hold the same characters.
pub fn str_eq(a: &str, b: &str) -> (r: bool)
    ensures
        r == (a@ == b@),
{
    let x = a.as_bytes();
    let y = b.as_bytes();
    proof {
        encode_utf8_decode_utf8(a@);
        encode_utf8_decode_utf8(b@);
    }
    if x.len() != y.len() {
        return false;
    }
    let mut i: usize = 0;
    while i < x.len()
        invariant
            i <= x.len(),
            x.len() == y.len(),
            x@ == encode_utf8(a@),
            y@ == encode_utf8(b@),
            forall|j: int| 0 <= j < i ==> x@[j] == y@[j],
        decreases x.len() - i,
    {
        if x[i] != y[i] {
            return false;
        }
        i += 1;
    }
    assert(x@ =~= y@);
    true
}

/// Whether `text` is `pattern` up to the case of ASCII letters, for a pattern
/// that is all ASCII.
pub(crate) fn matches_ignoring_case(text: &str, pattern: &str) -> (r: bool)
    requires
        is_ascii_chars(pattern@),
    ensures
        r == same_ignoring_case(text@, pattern@),
{
    if !text.is_ascii() {
        proof {
            let i = choose|i: int| 0 <= i < text@.len() && !('\0' <= #[trigger] text@[i] <= '\u{7f}');
            if i < pattern@.len() {
                assert(ascii_lower(text@)[i] == text@[i]);
            } else {
                assert(ascii_lower(text@).len() != ascii_lower(pattern@).len());
            }
        }
        return false;
    }
    let x = text.as_bytes();
    let y = pattern.as_bytes();
    proof {
        is_ascii_chars_encode_utf8(text@);
        is_ascii_chars_encode_utf8(pattern@);
    }
    if x.len() != y.len() {
        assert(ascii_lower(text@).len() != ascii_lower(pattern@).len());
        return false;
    }
    let mut i: usize = 0;
    while i < x.len()
        invariant
            i <= x.len(),
            x.len() == y.len(),
            x.len() == text@.len(),
            y.len() == pattern@.len(),
            is_ascii_chars(text@),
            is_ascii_chars(pattern@),
            forall|j: int| 0 <= j < x.len() ==> text@[j] as u8 == #[trigger] x@[j],
            forall|j: int| 0 <= j < y.len() ==> pattern@[j] as u8 == #[trigger] y@[j],
            forall|j: int| 0 <= j < i ==> lower_char(text@[j]) == lower_char(pattern@[j]),
        decreases x.len() - i,
    {
        let a = x[i];
        let b = y[i];
        if lower_byte(a) != lower_byte(b) {
            assert(ascii_lower(text@)[i as int] != ascii_lower(pattern@)[i as int]);
            return false;
        }
        i += 1;
    }
    assert(ascii_lower(text@) =~= ascii_lower(pattern@));
    true
}

} // verus!
