//! Python errors.

use crate::handle::{Py, PyAny, RawObject};
use vstd::prelude::*;

verus! {

/// The types that a failed cast names.
#[derive(Clone, Copy, Debug, PartialEq, Eq, Structural)]
pub enum CastTarget {
    /// `collections.abc.Sequence`.
    Sequence,
}

/// An object is not of the type that it should be cast to.
#[derive(Clone, Copy, Debug, PartialEq, Eq, Structural)]
pub struct CastError {
    /// The object.
    pub from: RawObject,
    /// The type.
    pub to: CastTarget,
}

/// A Python error.
#[derive(Debug)]
pub enum PyErr {
    /// An exception that the interpreter raised.
    Raised(Py<PyAny>),
    /// A `TypeError` with its message.
    TypeError(&'static str),
    /// A `TypeError` for a failed cast.
    Cast(CastError),
}

/// What may fail with a Python error.
pub type PyResult<T> = Result<T, PyErr>;

} // verus!
