//! ASCII-case-insensitive comparison of character sequences, used to match a
//! token against the standard-stream keywords.

use vstd::prelude::*;
use vstd::string::StrSliceExecFns;

verus! {

/// The code point a character counts as when case is ignored: an ASCII capital
/// letter counts as its lowercase form, every other character as itself.
pub open spec fn lower_code(c: char) -> int {
    if 'A' <= c && c <= 'Z' {
        (c as u32) + 0x20
    } else {
        (c as u32) as int
    }
}

/// Two character sequences are equal up to ASCII case.
pub open spec fn ascii_eq_ignore_case(a: Seq<char>, b: Seq<char>) -> bool {
    a.len() == b.len() && (forall|i: int| 0 <= i < a.len() ==> lower_code(a[i]) == lower_code(b[i]))
}

/// Whether two characters are the same letter up to ASCII case.
fn chars_eq_ignore_case(a: char, b: char) -> (r: bool)
    ensures
        r == (lower_code(a) == lower_code(b)),
{
    let av: u32 = if 'A' <= a && a <= 'Z' {
        a as u32 + 0x20
    } else {
        a as u32
    };
    let bv: u32 = if 'A' <= b && b <= 'Z' {
        b as u32 + 0x20
    } else {
        b as u32
    };
    av == bv
}

/// Whether two strings are equal up to ASCII case.
pub fn eq_ignore_ascii_case(a: &str, b: &str) -> (r: bool)
    ensures
        r == ascii_eq_ignore_case(a@, b@),
{
    let a_len = a.unicode_len();
    let b_len = b.unicode_len();
    if a_len != b_len {
        return false;
    }
    for i in 0..a_len
        invariant
            a_len == a@.len(),
            a_len == b@.len(),
            forall|j: int| 0 <= j < i ==> lower_code(a@[j]) == lower_code(b@[j]),
    {
        let ca = a.get_char(i);
        let cb = b.get_char(i);
        if !chars_eq_ignore_case(ca, cb) {
            return false;
        }
    }
    true
}

} // verus!
