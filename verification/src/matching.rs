//! Case-insensitive substring matching of a query against a name.
//!
//! Letters are folded the way the store's `LIKE` operator folds them: only
//! the ASCII letters `A` to `Z` have a lower-case twin, every other character
//! stands for itself.

use vstd::prelude::*;

verus! {

/// The character that `c` is compared as: ASCII capitals become small
/// letters, everything else is unchanged.
pub open spec fn fold_case(c: char) -> char {
    if 'A' <= c && c <= 'Z' {
        ((c as u8 + 32) as u8) as char
    } else {
        c
    }
}

/// `query` occurs in `name` at offset `at`, letter case aside.
pub open spec fn matches_at(name: Seq<char>, query: Seq<char>, at: int) -> bool {
    &&& 0 <= at
    &&& at + query.len() <= name.len()
    &&& forall|k: int| 0 <= k < query.len() ==> fold_case(name[at + k]) == fold_case(#[trigger] query[k])
}

/// `query` occurs somewhere in `name`, letter case aside.
pub open spec fn contains_ignoring_case(name: Seq<char>, query: Seq<char>) -> bool {
    exists|at: int| matches_at(name, query, at)
}

/// Folds one character.
pub fn fold(c: char) -> (folded: char)
    ensures
        folded == fold_case(c),
{
    if 'A' <= c && c <= 'Z' {
        ((c as u8) + 32u8) as char
    } else {
        c
    }
}

/// The characters of `text`, in order.
pub fn characters(text: &str) -> (chars: Vec<char>)
    ensures
        chars@ == text@,
{
    let mut chars: Vec<char> = Vec::new();
    for c in it: text.chars()
        invariant
            it.seq() == text@,
            chars@ == it.seq().take(it.index() as int),
    {
        chars.push(c);
    }
    chars
}

/// Whether `chars` spells exactly `text`.
pub fn spells(chars: &Vec<char>, text: &str) -> (same: bool)
    ensures
        same == (chars@ == text@),
{
    let mut i: usize = 0;
    for c in it: text.chars()
        invariant
            it.seq() == text@,
            i == it.index(),
            i <= chars.len(),
            chars@.take(i as int) == text@.take(i as int),
    {
        if i >= chars.len() || chars[i] != c {
            return false;
        }
        i += 1;
    }
    assert(text@.take(i as int) == text@);
    if i == chars.len() {
        assert(chars@.take(i as int) == chars@);
        true
    } else {
        false
    }
}

/// Whether `query` occurs in `name` at offset `at`, letter case aside.
fn matches_here(name: &Vec<char>, query: &Vec<char>, at: usize) -> (found: bool)
    requires
        at + query.len() <= name.len(),
    ensures
        found == matches_at(name@, query@, at as int),
{
    let mut k: usize = 0;
    while k < query.len()
        invariant
            k <= query.len(),
            at + query.len() <= name.len(),
            forall|j: int| 0 <= j < k ==> fold_case(name@[at + j]) == fold_case(#[trigger] query@[j]),
        decreases query.len() - k,
    {
        if fold(name[at + k]) != fold(query[k]) {
            return false;
        }
        k += 1;
    }
    true
}

/// Whether `query` occurs somewhere in `name`, letter case aside. The empty
/// query occurs in every name.
pub fn name_matches(name: &str, query: &str) -> (found: bool)
    ensures
        found == contains_ignoring_case(name@, query@),
{
    let name_chars = characters(name);
    let query_chars = characters(query);
    if query_chars.len() > name_chars.len() {
        return false;
    }
    let last: usize = name_chars.len() - query_chars.len();
    let mut at: usize = 0;
    while at <= last
        invariant
            name_chars@ == name@,
            query_chars@ == query@,
            at <= last + 1,
            last == name_chars.len() - query_chars.len(),
            forall|a: int| 0 <= a < at ==> !matches_at(name_chars@, query_chars@, a),
        decreases last + 1 - at,
    {
        if matches_here(&name_chars, &query_chars, at) {
            return true;
        }
        at += 1;
    }
    false
}

} // verus!
