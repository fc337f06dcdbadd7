//! Views of results and options, for contracts.

use vstd::prelude::*;

verus! {

/// The view of what succeeded, or the error as it is.
pub open spec fn ok_view<T: View, E>(result: Result<T, E>) -> Result<T::V, E> {
    match result {
        Ok(value) => Ok(value@),
        Err(error) => Err(error),
    }
}

/// The view of what is there, if anything is.
pub open spec fn some_view<T: View>(option: Option<T>) -> Option<T::V> {
    match option {
        Some(value) => Some(value@),
        None => None,
    }
}

} // verus!
