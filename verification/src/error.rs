//! Errors.
use vstd::prelude::*;

verus! {

/// What can go wrong when an expression is typed. `Other` carries the text of an error of the
/// engine that has no variant of its own here.
#[derive(Debug, Hash)]
pub enum DaftError {
    TypeError(String),
    ValueError(String),
    FieldNotFound(String),
    Other(String),
}

pub type DaftResult<T> = Result<T, DaftError>;

/// The value of a `DaftError`.
#[verifier::ext_equal]
pub enum DaftErrorView {
    TypeError(Seq<char>),
    ValueError(Seq<char>),
    FieldNotFound(Seq<char>),
    Other(Seq<char>),
}

impl View for DaftError {
    type V = DaftErrorView;

    open spec fn view(&self) -> DaftErrorView {
        match self {
            DaftError::TypeError(text) => DaftErrorView::TypeError(text@),
            DaftError::ValueError(text) => DaftErrorView::ValueError(text@),
            DaftError::FieldNotFound(text) => DaftErrorView::FieldNotFound(text@),
            DaftError::Other(text) => DaftErrorView::Other(text@),
        }
    }
}

impl Clone for DaftError {
    fn clone(&self) -> (copy: Self)
        ensures
            copy@ == self@,
    {
        match self {
            DaftError::TypeError(text) => DaftError::TypeError(text.clone()),
            DaftError::ValueError(text) => DaftError::ValueError(text.clone()),
            DaftError::FieldNotFound(text) => DaftError::FieldNotFound(text.clone()),
            DaftError::Other(text) => DaftError::Other(text.clone()),
        }
    }
}

impl DaftError {
    /// Whether two errors are the same.
    pub fn same(&self, other: &DaftError) -> (equal: bool)
        ensures
            equal == (self@ == other@),
    {
        match (self, other) {
            (DaftError::TypeError(a), DaftError::TypeError(b)) => *a == *b,
            (DaftError::ValueError(a), DaftError::ValueError(b)) => *a == *b,
            (DaftError::FieldNotFound(a), DaftError::FieldNotFound(b)) => *a == *b,
            (DaftError::Other(a), DaftError::Other(b)) => *a == *b,
            _ => false,
        }
    }
}

impl PartialEq for DaftError {
    fn eq(&self, other: &Self) -> (equal: bool) {
        self.same(other)
    }
}

impl vstd::std_specs::cmp::PartialEqSpecImpl for DaftError {
    open spec fn obeys_eq_spec() -> bool {
        true
    }

    open spec fn eq_spec(&self, other: &Self) -> bool {
        self@ == other@
    }
}

impl Eq for DaftError {

}

} // verus!
