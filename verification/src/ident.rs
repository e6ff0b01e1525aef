//! Validation of the operator-scanned module identifier.
//!
//! Before a run starts, the operator scans the identifier printed on the
//! device under test.  A well-formed identifier is five groups of lower-case
//! hexadecimal digits of lengths 8, 4, 4, 4 and 12, separated by `-` or `'`
//! (the label printer renders the dash either way).  A malformed identifier
//! is rejected at the front end and the engine is never invoked.

use vstd::prelude::*;

verus! {

/// A lower-case hexadecimal digit.
pub open spec fn is_hex_char(c: char) -> bool {
    (0x30 <= c as u32 && c as u32 <= 0x39) || (0x61 <= c as u32 && c as u32 <= 0x66)
}

/// A group separator as the label printer renders it.
pub open spec fn is_separator_char(c: char) -> bool {
    c == '-' || c == '\''
}

/// A well-formed module identifier: 36 characters, separators at positions
/// 8, 13, 18 and 23, lower-case hexadecimal digits everywhere else.
pub open spec fn valid_lm_id_spec(s: Seq<char>) -> bool {
    s.len() == 36 && forall|i: int|
        0 <= i < 36 ==> (if i == 8 || i == 13 || i == 18 || i == 23 {
            is_separator_char(#[trigger] s[i])
        } else {
            is_hex_char(s[i])
        })
}

/// Decide whether an operator-entered module identifier is well formed.
pub fn valid_lm_id(s: &str) -> (b: bool)
    ensures
        b == valid_lm_id_spec(s@),
{
    let n = s.unicode_len();
    if n != 36 {
        return false;
    }
    let mut i: usize = 0;
    while i < 36
        invariant
            n == s@.len(),
            n == 36,
            i <= 36,
            forall|j: int|
                0 <= j < i ==> (if j == 8 || j == 13 || j == 18 || j == 23 {
                    is_separator_char(#[trigger] s@[j])
                } else {
                    is_hex_char(s@[j])
                }),
        decreases 36 - i,
    {
        let c = s.get_char(i);
        let u = c as u32;
        if i == 8 || i == 13 || i == 18 || i == 23 {
            if !(c == '-' || c == '\'') {
                return false;
            }
        } else {
            if !((0x30 <= u && u <= 0x39) || (0x61 <= u && u <= 0x66)) {
                return false;
            }
        }
        i += 1;
    }
    true
}

} // verus!
