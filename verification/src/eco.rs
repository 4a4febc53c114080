//! The `ecow` string and vector types that numbering patterns are made of,
//! with the contracts of the few operations the library uses.
//!
//! Each function here makes one call into `ecow`; Verus takes its contract
//! on trust. Growing a value beyond `isize::MAX` bytes makes `ecow` panic
//! ("capacity overflow"); no value of that size can be built in memory, and
//! no contract below states that limit.

use vstd::prelude::*;
use ecow::{EcoString, EcoVec};
use crate::kind::NumberingKind;

verus! {

#[verifier::external_type_specification]
#[verifier::external_body]
pub struct ExEcoString(EcoString);

#[verifier::external_type_specification]
#[verifier::external_body]
#[verifier::reject_recursive_types(T)]
pub struct ExEcoVec<T>(EcoVec<T>);

/// The characters that an `EcoString` holds.
pub uninterp spec fn eco_chars(s: EcoString) -> Seq<char>;

/// The entries of a vector of pattern pieces: each prefix by its characters,
/// with the numbering kind that follows it.
pub uninterp spec fn piece_entries(v: EcoVec<(EcoString, NumberingKind)>) -> Seq<(Seq<char>, NumberingKind)>;

/// `EcoString::clone`: a string with the same characters.
pub assume_specification[ <EcoString as Clone>::clone ](s: &EcoString) -> (res: EcoString)
    ensures
        eco_chars(res) == eco_chars(*s),
;

/// `EcoVec::clone`, for any item type: the contents are named for vectors
/// of pattern pieces alone, so nothing is stated of the clone's contents.
pub assume_specification<T: Clone>[ <EcoVec<T> as Clone>::clone ](v: &EcoVec<T>) -> EcoVec<T>;

/// `EcoString::new`: the empty string.
#[verifier::external_body]
pub(crate) fn eco_new() -> (res: EcoString)
    ensures
        eco_chars(res) == Seq::<char>::empty(),
{
    EcoString::new()
}

/// `EcoString::from(&str)`: a string with the same characters as `s`.
#[verifier::external_body]
pub(crate) fn eco_from_str(s: &str) -> (res: EcoString)
    ensures
        eco_chars(res) == s@,
{
    EcoString::from(s)
}

/// `EcoString::as_str`: the string's characters as a string slice.
#[verifier::external_body]
pub(crate) fn eco_as_str(s: &EcoString) -> (res: &str)
    ensures
        res@ == eco_chars(*s),
{
    s.as_str()
}

/// `EcoString::push`: appends one character.
#[verifier::external_body]
pub(crate) fn eco_push(s: &mut EcoString, c: char)
    ensures
        eco_chars(*final(s)) == eco_chars(*old(s)).push(c),
{
    s.push(c)
}

/// `EcoString::push_str`: appends the characters of `t`.
#[verifier::external_body]
pub(crate) fn eco_push_str(s: &mut EcoString, t: &str)
    ensures
        eco_chars(*final(s)) == eco_chars(*old(s)) + t@,
{
    s.push_str(t)
}

/// `EcoVec::new`: the empty vector of pieces.
#[verifier::external_body]
pub(crate) fn pieces_new() -> (res: EcoVec<(EcoString, NumberingKind)>)
    ensures
        piece_entries(res) == Seq::<(Seq<char>, NumberingKind)>::empty(),
{
    EcoVec::new()
}

/// `EcoVec::push`: appends one piece at the end.
#[verifier::external_body]
pub(crate) fn pieces_push(v: &mut EcoVec<(EcoString, NumberingKind)>, piece: (EcoString, NumberingKind))
    ensures
        piece_entries(*final(v)) == piece_entries(*old(v)).push((eco_chars(piece.0), piece.1)),
{
    v.push(piece)
}

/// `EcoVec::len`: the number of pieces.
#[verifier::external_body]
pub(crate) fn pieces_len(v: &EcoVec<(EcoString, NumberingKind)>) -> (res: usize)
    ensures
        res == piece_entries(*v).len(),
{
    v.len()
}

/// Indexing an `EcoVec` (through its slice): the piece at position `i`.
#[verifier::external_body]
pub(crate) fn pieces_get(v: &EcoVec<(EcoString, NumberingKind)>, i: usize) -> (res: &(EcoString, NumberingKind))
    requires
        i < piece_entries(*v).len(),
    ensures
        eco_chars(res.0) == piece_entries(*v)[i as int].0,
        res.1 == piece_entries(*v)[i as int].1,
{
    &v[i]
}

} // verus!
