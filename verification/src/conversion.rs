//! Conversions between Rust values and Python objects.

use crate::config::Build;
use crate::handle::{Borrowed, PyAny};
use crate::private::{ConversionToken, FormOf};
use vstd::prelude::*;

verus! {

/// Rust values that can be extracted from a Python object.
pub trait FromPyObject<'py>: Sized {
    /// The extraction, which alternates with the interpreter.
    type Extraction;

    /// Begins to extract a value from `obj`.
    fn extract(obj: Borrowed<'_, 'py, PyAny>, build: Build) -> Self::Extraction;
}

/// Rust values that can be made a Python object.
pub trait IntoPyObject: Sized {
    /// What is to be made.
    type Request;

    /// The object to make of this value.
    fn into_pyobject(self) -> Self::Request;
}

/// The Python types that a sequence of Rust values can become.
#[derive(Clone, Copy, Debug, PartialEq, Eq, Structural)]
pub enum SequenceKind {
    /// `bytes`.
    Bytes,
    /// `list`.
    List,
}

/// Make an object of `kind` from `items`, in their order. A `list` holds each of
/// them made an object in turn; the first one that fails is the error
/// (`Makers::perform` in [`crate::conversion_laws`]).
#[derive(Debug)]
pub struct NewSequence<C> {
    pub kind: SequenceKind,
    pub items: C,
}

impl<T> View for NewSequence<Vec<T>> {
    type V = NewSequence<Seq<T>>;

    open spec fn view(&self) -> NewSequence<Seq<T>> {
        NewSequence { kind: self.kind, items: self.items@ }
    }
}

impl<'a, T> View for NewSequence<&'a [T]> {
    type V = NewSequence<Seq<T>>;

    open spec fn view(&self) -> NewSequence<Seq<T>> {
        NewSequence { kind: self.kind, items: self.items@ }
    }
}

/// The elements become `bytes`.
pub struct BytesForm;

/// The elements become a `list`.
pub struct ListForm;

impl FormOf<u8> for BytesForm {
    open spec fn kind() -> SequenceKind {
        SequenceKind::Bytes
    }

    open spec fn byte(value: u8) -> u8 {
        value
    }

    proof fn only_bytes_become_bytes(a: u8, b: u8) {
    }

    fn sequence_kind(token: ConversionToken) -> (kind: SequenceKind) {
        SequenceKind::Bytes
    }
}

impl<T> FormOf<T> for ListForm {
    open spec fn kind() -> SequenceKind {
        SequenceKind::List
    }

    open spec fn byte(value: T) -> u8 {
        0
    }

    proof fn only_bytes_become_bytes(a: T, b: T) {
    }

    fn sequence_kind(token: ConversionToken) -> (kind: SequenceKind) {
        SequenceKind::List
    }
}

/// The elements of sequences that can be made a Python object.
///
/// Any type can have the form [`ListForm`]; [`BytesForm`] is the form of `u8`
/// alone.
pub trait SequenceElement: Sized {
    /// What a sequence of such elements becomes.
    type Form: FormOf<Self>;
}

/// What a sequence of elements `T` becomes.
pub open spec fn kind_of<T: SequenceElement>() -> SequenceKind {
    <T::Form as FormOf<T>>::kind()
}

/// The byte that an element is, where a sequence of such elements becomes
/// `bytes`.
pub open spec fn byte_of<T: SequenceElement>(value: T) -> u8 {
    <T::Form as FormOf<T>>::byte(value)
}

/// The object to make of `items`: `bytes` of bytes, a `list` of anything else.
pub open spec fn object_of<T: SequenceElement>(items: Seq<T>) -> NewSequence<Seq<T>> {
    NewSequence { kind: kind_of::<T>(), items }
}

/// The object to make of a sequence that is given away.
pub(crate) fn owned_sequence_into_pyobject<T: SequenceElement>(
    items: Vec<T>,
    token: ConversionToken,
) -> (object: NewSequence<Vec<T>>)
    ensures
        object@ == object_of(items@),
        object.items == items,
{
    NewSequence { kind: <T::Form as FormOf<T>>::sequence_kind(token), items }
}

/// The object to make of a sequence that is kept.
pub(crate) fn borrowed_sequence_into_pyobject<'a, T: SequenceElement>(
    items: &'a [T],
    token: ConversionToken,
) -> (object: NewSequence<&'a [T]>)
    ensures
        object@ == object_of(items@),
        object.items == items,
{
    NewSequence { kind: <T::Form as FormOf<T>>::sequence_kind(token), items }
}

impl SequenceElement for u8 {
    type Form = BytesForm;
}

impl SequenceElement for u16 {
    type Form = ListForm;
}

impl SequenceElement for u32 {
    type Form = ListForm;
}

impl SequenceElement for u64 {
    type Form = ListForm;
}

impl SequenceElement for u128 {
    type Form = ListForm;
}

impl SequenceElement for usize {
    type Form = ListForm;
}

impl SequenceElement for i8 {
    type Form = ListForm;
}

impl SequenceElement for i16 {
    type Form = ListForm;
}

impl SequenceElement for i32 {
    type Form = ListForm;
}

impl SequenceElement for i64 {
    type Form = ListForm;
}

impl SequenceElement for i128 {
    type Form = ListForm;
}

impl SequenceElement for isize {
    type Form = ListForm;
}

impl SequenceElement for bool {
    type Form = ListForm;
}

impl SequenceElement for char {
    type Form = ListForm;
}

impl SequenceElement for String {
    type Form = ListForm;
}

impl<'a> SequenceElement for &'a str {
    type Form = ListForm;
}

impl<T: SequenceElement> SequenceElement for Option<T> {
    type Form = ListForm;
}

impl<T: SequenceElement> SequenceElement for Vec<T> {
    type Form = ListForm;
}

impl<'a, T: SequenceElement> IntoPyObject for &'a [T] {
    type Request = NewSequence<&'a [T]>;

    /// Turns `&[u8]` into `bytes`; a slice of anything else becomes a `list`.
    fn into_pyobject(self) -> (object: NewSequence<&'a [T]>)
        ensures
            object@ == object_of(self@),
            object.items == self,
    {
        borrowed_sequence_into_pyobject(self, ConversionToken)
    }
}

} // verus!
