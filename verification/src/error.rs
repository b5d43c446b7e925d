//! What can go wrong: the store fails, and the failure is handed on.

use vstd::prelude::*;

verus! {

/// A failure of an evaluation, over whatever the store fails with.
#[derive(Clone, Debug, PartialEq, Eq)]
pub enum EvaluationError<E> {
    /// The store failed.
    Store(E),
}

impl<E> From<E> for EvaluationError<E> {
    fn from(error: E) -> (r: Self) {
        EvaluationError::Store(error)
    }
}

impl<E> vstd::std_specs::convert::FromSpecImpl<E> for EvaluationError<E> {
    open spec fn obeys_from_spec() -> bool {
        true
    }

    open spec fn from_spec(error: E) -> Self {
        EvaluationError::Store(error)
    }
}

impl<E> EvaluationError<E> {
    /// The failure of the store that is behind this one.
    pub fn into_store_error(self) -> (error: E)
        ensures
            self == EvaluationError::Store(error),
    {
        match self {
            EvaluationError::Store(error) => error,
        }
    }
}

} // verus!
