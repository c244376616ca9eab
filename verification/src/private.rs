//! Items that keep [`crate::call::PyCallArgs`] and the forms of sequences closed
//! to other crates: they cannot name the traits that these ask for.

use crate::conversion::SequenceKind;
use crate::handle::{Borrowed, Bound, Py, PyTuple};
use vstd::prelude::*;

verus! {

/// The types that may be call arguments.
pub trait Sealed {

}

impl Sealed for () {

}

impl<'py> Sealed for Bound<'py, PyTuple> {

}

impl<'a, 'py> Sealed for &'a Bound<'py, PyTuple> {

}

impl Sealed for Py<PyTuple> {

}

impl<'a> Sealed for &'a Py<PyTuple> {

}

impl<'a, 'py> Sealed for Borrowed<'a, 'py, PyTuple> {

}

/// Handed to the methods that only this library is meant to call.
pub struct Token;

/// Handed to the conversions that only this library is meant to make.
pub struct ConversionToken;

/// What a sequence of elements `T` can become.
pub trait FormOf<T> {
    /// The Python type.
    spec fn kind() -> SequenceKind;

    /// The byte that `value` is, if the sequence becomes `bytes`.
    spec fn byte(value: T) -> u8;

    /// Only what is told apart by its byte becomes `bytes`.
    proof fn only_bytes_become_bytes(a: T, b: T)
        ensures
            Self::kind() is Bytes && Self::byte(a) == Self::byte(b) ==> a == b,
    ;

    /// The Python type.
    fn sequence_kind(token: ConversionToken) -> (kind: SequenceKind)
        ensures
            kind == Self::kind(),
    ;
}

} // verus!
