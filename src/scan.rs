//! The scan over adjacent storage changes.
//!
//! Each adjacent pair is looked at from the left, and the first pair looked at
//! settles the outcome: it is either the match, or the scan stops with nothing.
//! A pair that does not match is not skipped over in search of a later one.

use vstd::prelude::*;
use vstd::utf8::{decode_utf8, valid_utf8};

use crate::change::{new_values, StorageChange};
use crate::shape::{is_symbol, is_typical_string, symbol_text, typical_text};

verus! {

/// The name and symbol read from a pair of written values, if the first reads
/// as a name and the second as a symbol.
pub open spec fn pair_match(first: Seq<u8>, second: Seq<u8>) -> Option<(Seq<char>, Seq<char>)> {
    if valid_utf8(first) && typical_text(decode_utf8(first)) && valid_utf8(second)
        && symbol_text(decode_utf8(second)) {
        Some((decode_utf8(first), decode_utf8(second)))
    } else {
        None
    }
}

/// The outcome of the scan over a list of written values: nothing without a
/// pair, else what the first pair gives.
pub open spec fn scan(values: Seq<Seq<u8>>) -> Option<(Seq<char>, Seq<char>)> {
    if values.len() < 2 {
        None
    } else {
        pair_match(values[0], values[1])
    }
}

/// Relies on std::str::from_utf8: it accepts exactly the well-formed UTF-8
/// byte strings, and the text it gives back is the one the bytes encode.
#[verifier::external_body]
fn utf8_text(bytes: &[u8]) -> (r: Option<&str>)
    ensures
        r is Some <==> valid_utf8(bytes@),
        r matches Some(s) ==> s@ == decode_utf8(bytes@),
{
    std::str::from_utf8(bytes).ok()
}

/// Looks for a token's name and symbol in two adjacent changes.
///
/// The changes are taken pairwise from the left, each against the one before.
/// The first pair decides: if the earlier value decodes as UTF-8 to text shaped
/// like a name and the later one to text shaped like a symbol, both texts are
/// returned; otherwise the scan stops and returns `None`, whatever follows.
pub fn find_name_symbol_pair(storage_changes: Vec<StorageChange>) -> (r: Option<(String, String)>)
    ensures
        match r {
            Some((name, symbol)) => scan(new_values(storage_changes@)) == Some((name@, symbol@)),
            None => scan(new_values(storage_changes@)) is None,
        },
{
    let mut i: usize = 1;
    while i < storage_changes.len()
        invariant
            // Every pair ends the scan, so only the first is ever reached.
            i == 1,
        decreases storage_changes.len() - i,
    {
        let prev = &storage_changes[i - 1];
        let current = &storage_changes[i];
        let name = match utf8_text(prev.new_value.as_slice()) {
            Some(text) => text,
            None => return None,
        };
        if !is_typical_string(name) {
            return None;
        }
        let symbol = match utf8_text(current.new_value.as_slice()) {
            Some(text) => text,
            None => return None,
        };
        if !is_symbol(symbol) {
            return None;
        }
        return Some((name.to_owned(), symbol.to_owned()));
    }
    None
}

/// With no changes at all there is no pair, and nothing is found.
pub proof fn lemma_empty_finds_nothing()
    ensures
        scan(Seq::<Seq<u8>>::empty()) is None,
{
}

/// A single change forms no pair, and nothing is found, whatever it wrote.
pub proof fn lemma_single_finds_nothing(value: Seq<u8>)
    ensures
        scan(seq![value]) is None,
{
}

/// Two changes whose values decode to a name and then to a symbol give back
/// both texts. Any well-formed UTF-8 counts, multi-byte characters included.
pub proof fn lemma_name_then_symbol_found(first: Seq<u8>, second: Seq<u8>)
    requires
        valid_utf8(first),
        typical_text(decode_utf8(first)),
        valid_utf8(second),
        symbol_text(decode_utf8(second)),
    ensures
        scan(seq![first, second]) == Some((decode_utf8(first), decode_utf8(second))),
{
}

/// Two changes of which the first wrote bytes that are not UTF-8 give nothing.
pub proof fn lemma_undecodable_first_finds_nothing(first: Seq<u8>, second: Seq<u8>)
    requires
        !valid_utf8(first),
    ensures
        scan(seq![first, second]) is None,
{
}

/// When the first two of three changes do not match, nothing is found, even
/// where the second and third would: the scan stops at the first mismatch.
pub proof fn lemma_first_mismatch_ends_scan(first: Seq<u8>, second: Seq<u8>, third: Seq<u8>)
    requires
        pair_match(first, second) is None,
    ensures
        scan(seq![first, second, third]) is None,
{
}

} // verus!
