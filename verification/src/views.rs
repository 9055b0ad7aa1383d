//! Views of optional and fallible values, for use in contracts.

use vstd::prelude::*;

verus! {

/// The view of what an `Option` holds, if it holds anything.
pub open spec fn option_view<T: View>(value: Option<T>) -> Option<T::V> {
    match value {
        Some(inner) => Some(inner@),
        None => None,
    }
}

/// The view of what a `Result` holds, on either side.
pub open spec fn result_view<T: View, E: View>(value: Result<T, E>) -> Result<T::V, E::V> {
    match value {
        Ok(inner) => Ok(inner@),
        Err(error) => Err(error@),
    }
}

} // verus!
