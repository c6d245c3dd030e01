//! The write-once cell of `once_cell`, holding a text.
//!
//! The cell is filled through an exclusive borrow and read through a shared
//! one, so that what a reader sees cannot change under it.

use once_cell::sync::OnceCell;
use vstd::prelude::*;

verus! {

#[verifier::external_type_specification]
#[verifier::external_body]
#[verifier::reject_recursive_types(T)]
pub struct ExOnceCell<T>(OnceCell<T>);

/// What the cell holds: nothing yet, or the text it was filled with.
pub uninterp spec fn cell_text(cell: OnceCell<String>) -> Option<Seq<char>>;

/// Calls `OnceCell::new`.
///
/// Trusted: the new cell is empty.
#[verifier::external_body]
pub(crate) fn cell_new() -> (cell: OnceCell<String>)
    ensures
        cell_text(cell) is None,
{
    OnceCell::new()
}

/// Calls `OnceCell::get`.
///
/// Trusted: the result is what the cell holds.
#[verifier::external_body]
pub(crate) fn cell_get(cell: &OnceCell<String>) -> (text: Option<&String>)
    ensures
        text is Some == cell_text(*cell) is Some,
        text matches Some(t) ==> cell_text(*cell) == Some(t@),
{
    cell.get()
}

/// Calls `OnceCell::set`.
///
/// Trusted: an empty cell is filled with `text` and the call returns `Ok`; a
/// full cell keeps what it holds and the call returns `text` as the error.
#[verifier::external_body]
pub(crate) fn cell_set(cell: &mut OnceCell<String>, text: String) -> (outcome: Result<(), String>)
    ensures
        outcome is Ok == cell_text(*old(cell)) is None,
        outcome matches Err(rejected) ==> rejected == text,
        cell_text(*final(cell)) == if cell_text(*old(cell)) is None {
            Some(text@)
        } else {
            cell_text(*old(cell))
        },
{
    cell.set(text)
}

} // verus!
