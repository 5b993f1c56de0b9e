//! The mathematical value of a result or of a value that may be missing.

use vstd::prelude::*;

verus! {

/// The view of a value that may be missing.
pub open spec fn option_view<T: View>(value: Option<T>) -> Option<T::V> {
    match value {
        Some(v) => Some(v@),
        None => None,
    }
}

/// The view of a result: that of the value, or that of the error.
pub open spec fn result_view<T: View, E: View>(result: Result<T, E>) -> Result<T::V, E::V> {
    match result {
        Ok(v) => Ok(v@),
        Err(e) => Err(e@),
    }
}

} // verus!
