//! Console text handling: cleaning a received chunk down to printable ASCII
//! and ASCII whitespace, and the substring tests that the check evaluator and
//! the console driver are built on.

use vstd::prelude::*;

verus! {

/// A character of console output is kept iff it is printable ASCII
/// (`'!'..='~'`) or ASCII whitespace (space, tab, newline, form feed,
/// carriage return).  Everything else — control bytes, escape sequences,
/// non-ASCII noise from a half-initialised UART — is dropped silently.
pub open spec fn is_console_char(c: char) -> bool {
    (0x21 <= c as u32 && c as u32 <= 0x7e) || c == ' ' || c == '\t' || c == '\n' || c == '\r'
        || c == '\u{c}'
}

/// The cleaned form of a piece of console text: only the characters that
/// [`is_console_char`] keeps, in their original order.
pub open spec fn clean_text(s: Seq<char>) -> Seq<char> {
    s.filter(|c: char| is_console_char(c))
}

/// `n` occurs in `h` starting at position `i`.
pub open spec fn contains_at(h: Seq<char>, n: Seq<char>, i: int) -> bool {
    0 <= i && i + n.len() <= h.len() && h.subrange(i, i + n.len()) == n
}

/// `n` occurs somewhere in `h` as a contiguous substring.
pub open spec fn seq_contains(h: Seq<char>, n: Seq<char>) -> bool {
    exists|i: int| contains_at(h, n, i)
}

/// `h` ends with the suffix `n`.
pub open spec fn seq_ends_with(h: Seq<char>, n: Seq<char>) -> bool {
    n.len() <= h.len() && h.subrange(h.len() - n.len(), h.len() as int) == n
}

fn console_char(c: char) -> (b: bool)
    ensures
        b == is_console_char(c),
{
    let u = c as u32;
    (0x21 <= u && u <= 0x7e) || c == ' ' || c == '\t' || c == '\n' || c == '\r' || c == '\u{c}'
}

/// Relies on `String::push`: appends exactly the given character at the end.
#[verifier::external_body]
fn push_char(s: &mut String, c: char)
    ensures
        final(s)@ == old(s)@.push(c),
{
    s.push(c);
}

/// Filter a received chunk down to printable ASCII and ASCII whitespace.
///
/// An all-noise or empty chunk cleans to the empty string, which the polling
/// layer treats as "no meaningful data this poll"; cleaning never fails.
pub fn remove_non_printable(s: &str) -> (r: String)
    ensures
        r@ == clean_text(s@),
{
    let n = s.unicode_len();
    let mut r = String::new();
    let mut i: usize = 0;
    proof {
        reveal(Seq::filter);
        assert(s@.subrange(0, 0) =~= Seq::<char>::empty());
    }
    while i < n
        invariant
            n == s@.len(),
            i <= n,
            r@ == clean_text(s@.subrange(0, i as int)),
        decreases n - i,
    {
        let c = s.get_char(i);
        if console_char(c) {
            push_char(&mut r, c);
        }
        proof {
            reveal(Seq::filter);
            let pre = s@.subrange(0, i as int);
            let cur = s@.subrange(0, i + 1);
            assert(cur.drop_last() =~= pre);
            assert(cur.last() == s@[i as int]);
            assert(clean_text(cur) == (if is_console_char(cur.last()) {
                clean_text(cur.drop_last()).push(cur.last())
            } else {
                clean_text(cur.drop_last())
            }));
        }
        i += 1;
    }
    proof {
        assert(s@.subrange(0, n as int) =~= s@);
    }
    r
}

fn match_at(h: &str, n: &str, i: usize) -> (b: bool)
    requires
        i + n@.len() <= h@.len(),
    ensures
        b == contains_at(h@, n@, i as int),
{
    let h_len = h.unicode_len();
    let n_len = n.unicode_len();
    let mut j: usize = 0;
    while j < n_len
        invariant
            h_len == h@.len(),
            n_len == n@.len(),
            j <= n_len,
            i + n_len <= h_len,
            forall|k: int| 0 <= k < j ==> h@[i + k] == n@[k],
        decreases n_len - j,
    {
        if h.get_char(i + j) != n.get_char(j) {
            assert(h@.subrange(i as int, i + n@.len())[j as int] != n@[j as int]);
            return false;
        }
        j += 1;
    }
    proof {
        assert(h@.subrange(i as int, i + n@.len()) =~= n@);
    }
    true
}

/// Substring test: does `h` contain `n` as a contiguous substring?
pub fn contains_str(h: &str, n: &str) -> (b: bool)
    ensures
        b == seq_contains(h@, n@),
{
    let h_len = h.unicode_len();
    let n_len = n.unicode_len();
    if n_len > h_len {
        return false;
    }
    if n_len == 0 {
        proof {
            assert(h@.subrange(0, 0) =~= n@);
            assert(contains_at(h@, n@, 0));
        }
        return true;
    }
    let last = h_len - n_len;
    let mut i: usize = 0;
    loop
        invariant
            h_len == h@.len(),
            n_len == n@.len(),
            1 <= n_len <= h_len,
            last == h_len - n_len,
            i <= last + 1,
            forall|k: int| 0 <= k < i ==> !contains_at(h@, n@, k),
        decreases last + 1 - i,
    {
        if i > last {
            return false;
        }
        if match_at(h, n, i) {
            return true;
        }
        i += 1;
    }
}

/// Suffix test: does `h` end with `n`?
pub fn ends_with_str(h: &str, n: &str) -> (b: bool)
    ensures
        b == seq_ends_with(h@, n@),
{
    let h_len = h.unicode_len();
    let n_len = n.unicode_len();
    if n_len > h_len {
        return false;
    }
    match_at(h, n, h_len - n_len)
}

} // verus!
