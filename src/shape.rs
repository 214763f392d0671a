//! The shape of the text that may stand for a token name or a token symbol.

use vstd::prelude::*;

verus! {

/// The most characters that a symbol may have.
pub const MAX_SYMBOL_CHARS: usize = 11;

/// A control character: the C0 block, DEL, or the C1 block.
pub open spec fn is_control_char(c: char) -> bool {
    (c as u32) < 0x20 || (0x7f <= (c as u32) && (c as u32) <= 0x9f)
}

/// Letters A to Z in either case, and digits 0 to 9.
pub open spec fn is_ascii_alnum(c: char) -> bool {
    ('0' <= c && c <= '9') || ('A' <= c && c <= 'Z') || ('a' <= c && c <= 'z')
}

/// Text that reads as a name: not empty, and printable throughout.
pub open spec fn typical_text(s: Seq<char>) -> bool {
    &&& s.len() > 0
    &&& forall|i: int| 0 <= i < s.len() ==> !is_control_char(#[trigger] s[i])
}

/// Text that reads as a ticker: short, and made of ASCII letters and digits.
pub open spec fn symbol_text(s: Seq<char>) -> bool {
    &&& 0 < s.len() <= MAX_SYMBOL_CHARS
    &&& forall|i: int| 0 <= i < s.len() ==> is_ascii_alnum(#[trigger] s[i])
}

fn is_control(c: char) -> (r: bool)
    ensures
        r == is_control_char(c),
{
    let v = c as u32;
    v < 0x20 || (0x7f <= v && v <= 0x9f)
}

fn is_alnum(c: char) -> (r: bool)
    ensures
        r == is_ascii_alnum(c),
{
    ('0' <= c && c <= '9') || ('A' <= c && c <= 'Z') || ('a' <= c && c <= 'z')
}

/// Whether `s` may be a token's name.
pub fn is_typical_string(s: &str) -> (r: bool)
    ensures
        r == typical_text(s@),
{
    let n = s.unicode_len();
    if n == 0 {
        return false;
    }
    let mut i: usize = 0;
    while i < n
        invariant
            n == s@.len(),
            i <= n,
            forall|j: int| 0 <= j < i ==> !is_control_char(#[trigger] s@[j]),
        decreases n - i,
    {
        if is_control(s.get_char(i)) {
            return false;
        }
        i += 1;
    }
    true
}

/// Whether `s` may be a token's symbol.
pub fn is_symbol(s: &str) -> (r: bool)
    ensures
        r == symbol_text(s@),
{
    let n = s.unicode_len();
    if n == 0 || n > MAX_SYMBOL_CHARS {
        return false;
    }
    let mut i: usize = 0;
    while i < n
        invariant
            n == s@.len(),
            i <= n,
            forall|j: int| 0 <= j < i ==> is_ascii_alnum(#[trigger] s@[j]),
        decreases n - i,
    {
        if !is_alnum(s.get_char(i)) {
            return false;
        }
        i += 1;
    }
    true
}

} // verus!
