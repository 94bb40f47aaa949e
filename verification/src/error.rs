//! The ways a repository operation can fail.

use vstd::prelude::*;

verus! {

/// What a `RepositoryError` is, mathematically.
pub enum ErrorView {
    Unexpected(Seq<char>),
    NotFound(int),
}

/// Why an operation returned no value.
#[derive(Debug, PartialEq, Eq)]
pub enum RepositoryError {
    /// The backend itself failed; the text says how.
    Unexpected(String),
    /// No todo has this identifier.
    NotFound(i32),
}

impl View for RepositoryError {
    type V = ErrorView;

    open spec fn view(&self) -> ErrorView {
        match self {
            RepositoryError::Unexpected(detail) => ErrorView::Unexpected(detail@),
            RepositoryError::NotFound(id) => ErrorView::NotFound(*id as int),
        }
    }
}

impl Clone for RepositoryError {
    fn clone(&self) -> (copy: Self)
        ensures
            copy == *self,
    {
        match self {
            RepositoryError::Unexpected(detail) => RepositoryError::Unexpected(detail.clone()),
            RepositoryError::NotFound(id) => RepositoryError::NotFound(*id),
        }
    }
}

impl RepositoryError {
    /// Whether this error says that an identifier names no todo.
    pub fn is_not_found(&self) -> (yes: bool)
        ensures
            yes == (self@ is NotFound),
    {
        match self {
            RepositoryError::NotFound(_) => true,
            RepositoryError::Unexpected(_) => false,
        }
    }
}

} // verus!
