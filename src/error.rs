use vstd::prelude::*;

verus! {

/// What a unit operation can fail with.
#[derive(Debug, PartialEq, Eq)]
pub enum UnitError {
    /// The name does not give a valid object path; the text says why.
    InvalidAddress(String),
    /// A unit already stands at the name's address.
    UnitAlreadyExists,
    /// No unit stands at the name's address.
    UnitNotFound,
}

/// The kind of a `UnitError`, without its detail text.
#[derive(Clone, Copy, Debug, PartialEq, Eq, Structural)]
pub enum ErrorKind {
    InvalidAddress,
    UnitAlreadyExists,
    UnitNotFound,
}

impl View for UnitError {
    type V = ErrorKind;

    open spec fn view(&self) -> ErrorKind {
        match self {
            UnitError::InvalidAddress(_) => ErrorKind::InvalidAddress,
            UnitError::UnitAlreadyExists => ErrorKind::UnitAlreadyExists,
            UnitError::UnitNotFound => ErrorKind::UnitNotFound,
        }
    }
}

/// A result seen through the views of its value and of its error.
pub open spec fn result_view<T: View>(r: Result<T, UnitError>) -> Result<T::V, ErrorKind> {
    match r {
        Ok(v) => Ok(v@),
        Err(e) => Err(e@),
    }
}

} // verus!
