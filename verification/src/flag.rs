//! A flag that can be written once: `once_cell::sync::OnceCell<bool>`.
//!
//! The cell is held by value and written through `&mut`, so that its holder
//! is the only writer and what it holds is a function of the value.

use once_cell::sync::OnceCell;
use vstd::prelude::*;

verus! {

/// `once_cell::sync::OnceCell`, as a type whose inside contracts do not
/// see.
#[verifier::external_type_specification]
#[verifier::external_body]
#[verifier::reject_recursive_types(T)]
pub struct ExOnceCell<T>(OnceCell<T>);

/// What the cell holds: `None` until it is set.
pub uninterp spec fn flag_of(cell: OnceCell<bool>) -> Option<bool>;

/// `OnceCell::new` creates an empty cell.
#[verifier::external_body]
pub(crate) fn flag_new() -> (cell: OnceCell<bool>)
    ensures
        flag_of(cell) is None,
{
    OnceCell::new()
}

/// `OnceCell::set` fills an empty cell and returns `Ok(())`; a full cell
/// stays as it is and the value comes back in `Err`.
#[verifier::external_body]
pub(crate) fn flag_set(cell: &mut OnceCell<bool>, value: bool) -> (r: Result<(), bool>)
    ensures
        r == (if flag_of(*old(cell)) is None {
            Ok::<(), bool>(())
        } else {
            Err::<(), bool>(value)
        }),
        flag_of(*final(cell)) == (if flag_of(*old(cell)) is None {
            Some(value)
        } else {
            flag_of(*old(cell))
        }),
{
    cell.set(value)
}

/// `OnceCell::get` returns the value that the cell holds, if it holds one.
#[verifier::external_body]
pub(crate) fn flag_get(cell: &OnceCell<bool>) -> (r: Option<bool>)
    ensures
        r == flag_of(*cell),
{
    cell.get().copied()
}

} // verus!
