//! `Vec` from and to Python sequences.

use crate::config::Build;
use crate::conversion::{
    object_of, owned_sequence_into_pyobject, FromPyObject, IntoPyObject, NewSequence,
    SequenceElement,
};
use crate::err::{CastError, CastTarget, PyErr, PyResult};
use crate::handle::{Borrowed, Bound, PyAny, RawObject};
use crate::private::ConversionToken;
use crate::step::Step;
use vstd::layout::size_of;
use vstd::prelude::*;

verus! {

impl<T: SequenceElement> IntoPyObject for Vec<T> {
    type Request = NewSequence<Vec<T>>;

    /// Turns `Vec<u8>` into `bytes`; a `Vec` of anything else becomes a `list`.
    fn into_pyobject(self) -> (object: NewSequence<Vec<T>>)
        ensures
            object@ == object_of(self@),
            object.items == self,
    {
        owned_sequence_into_pyobject(self, ConversionToken)
    }
}

impl<'a, T: SequenceElement> IntoPyObject for &'a Vec<T> {
    type Request = NewSequence<&'a [T]>;

    /// Turns `&Vec<u8>` into `bytes`; a `Vec` of anything else becomes a `list`.
    fn into_pyobject(self) -> (object: NewSequence<&'a [T]>)
        ensures
            object@ == object_of(self@),
            object.items@ == self@,
    {
        self.as_slice().into_pyobject()
    }
}

/// The message of the error for a `str`.
pub const STR_MESSAGE: &'static str = "Can't extract `str` to `Vec`";

/// One question to the interpreter, or to the element type.
#[derive(Clone, Copy, Debug, PartialEq, Eq, Structural)]
pub enum ExtractRequest {
    /// Does the element type extract all of `obj` at once?
    /// The reply is [`ExtractReply::Whole`].
    SequenceExtractor { obj: RawObject },
    /// Is `obj` a `str`, or of a subclass? The reply is [`ExtractReply::Flag`].
    IsStr { obj: RawObject },
    /// Is `obj` a `tuple`, and not of a subclass? The reply is [`ExtractReply::Flag`].
    IsExactTuple { obj: RawObject },
    /// The length of a tuple. The reply is [`ExtractReply::Count`].
    TupleLen { tuple: RawObject },
    /// An item of a tuple, borrowed. The reply is [`ExtractReply::Item`].
    TupleItem { tuple: RawObject, index: usize },
    /// Is `obj` a `list`, and not of a subclass? The reply is [`ExtractReply::Flag`].
    IsExactList { obj: RawObject },
    /// The length of a list. The reply is [`ExtractReply::Count`].
    ListLen { list: RawObject },
    /// An item of a list. The list may change before the item is used, so it
    /// takes a reference of its own. The reply is [`ExtractReply::Item`].
    ListItem { list: RawObject, index: usize },
    /// Extract an element from `item`. The reply is [`ExtractReply::Value`].
    ExtractItem { item: RawObject },
    /// `PySequence_Check(obj)`. The reply is [`ExtractReply::Flag`].
    IsSequence { obj: RawObject },
    /// The length that `obj` says it has. The reply is [`ExtractReply::Length`].
    Len { obj: RawObject },
    /// An iterator over `obj`. The reply is [`ExtractReply::Object`].
    TryIter { obj: RawObject },
    /// The next item of an iterator. The reply is [`ExtractReply::Next`].
    NextItem { iter: RawObject },
}

/// What an [`ExtractRequest`] gave. `C` holds the elements of a whole sequence.
pub enum ExtractReply<'py, T, C> {
    /// All the elements, if the element type extracts them at once.
    Whole(Option<C>),
    /// Yes or no.
    Flag(bool),
    /// A length.
    Count(usize),
    /// An item.
    Item(RawObject),
    /// A length, or the error that was raised.
    Length(PyResult<usize>),
    /// A new reference, or the error that was raised.
    Object(PyResult<Bound<'py, PyAny>>),
    /// A new reference, or the error that was raised, or the end.
    Next(Option<PyResult<Bound<'py, PyAny>>>),
    /// An element, or the error that it failed with.
    Value(PyResult<T>),
}

/// What an extraction waits for.
#[derive(Clone, Copy, Debug, PartialEq, Eq, Structural)]
pub enum ExtractState {
    /// All the elements at once.
    Whole { obj: RawObject },
    /// Whether `obj` is a `str`.
    Str { obj: RawObject },
    /// Whether `obj` is a `tuple`.
    ExactTuple { obj: RawObject },
    /// How many items there are.
    TupleLen { tuple: RawObject },
    /// Item `index` of `len`.
    TupleItem { tuple: RawObject, index: usize, len: usize },
    /// The element in `item`, which is item `index` of `len`.
    TupleValue { tuple: RawObject, index: usize, len: usize, item: RawObject },
    /// Whether `obj` is a `list`.
    ExactList { obj: RawObject },
    /// How many elements to make room for.
    ListRoom { list: RawObject },
    /// Whether there is an item `index`.
    ListLen { list: RawObject, index: usize },
    /// Item `index`.
    ListItem { list: RawObject, index: usize },
    /// The element in `item`, which is item `index`.
    ListValue { list: RawObject, index: usize, item: RawObject },
    /// Whether `obj` is a sequence.
    Sequence { obj: RawObject },
    /// How many elements to make room for.
    SequenceRoom { obj: RawObject },
    /// The iterator over `obj`.
    Iter { obj: RawObject },
    /// The next item.
    Next { iter: RawObject },
    /// The element in `item`.
    IterValue { iter: RawObject, item: RawObject },
}

impl ExtractState {
    /// The question that gets what this waits for.
    pub open spec fn request(self) -> ExtractRequest {
        match self {
            ExtractState::Whole { obj } => ExtractRequest::SequenceExtractor { obj },
            ExtractState::Str { obj } => ExtractRequest::IsStr { obj },
            ExtractState::ExactTuple { obj } => ExtractRequest::IsExactTuple { obj },
            ExtractState::TupleLen { tuple } => ExtractRequest::TupleLen { tuple },
            ExtractState::TupleItem { tuple, index, .. } => {
                ExtractRequest::TupleItem { tuple, index }
            },
            ExtractState::TupleValue { item, .. } => ExtractRequest::ExtractItem { item },
            ExtractState::ExactList { obj } => ExtractRequest::IsExactList { obj },
            ExtractState::ListRoom { list } => ExtractRequest::ListLen { list },
            ExtractState::ListLen { list, .. } => ExtractRequest::ListLen { list },
            ExtractState::ListItem { list, index } => ExtractRequest::ListItem { list, index },
            ExtractState::ListValue { item, .. } => ExtractRequest::ExtractItem { item },
            ExtractState::Sequence { obj } => ExtractRequest::IsSequence { obj },
            ExtractState::SequenceRoom { obj } => ExtractRequest::Len { obj },
            ExtractState::Iter { obj } => ExtractRequest::TryIter { obj },
            ExtractState::Next { iter } => ExtractRequest::NextItem { iter },
            ExtractState::IterValue { item, .. } => ExtractRequest::ExtractItem { item },
        }
    }

    /// The question that gets what this waits for.
    fn question(self) -> (request: ExtractRequest)
        ensures
            request == self.request(),
    {
        match self {
            ExtractState::Whole { obj } => ExtractRequest::SequenceExtractor { obj },
            ExtractState::Str { obj } => ExtractRequest::IsStr { obj },
            ExtractState::ExactTuple { obj } => ExtractRequest::IsExactTuple { obj },
            ExtractState::TupleLen { tuple } => ExtractRequest::TupleLen { tuple },
            ExtractState::TupleItem { tuple, index, .. } => {
                ExtractRequest::TupleItem { tuple, index }
            },
            ExtractState::TupleValue { item, .. } => ExtractRequest::ExtractItem { item },
            ExtractState::ExactList { obj } => ExtractRequest::IsExactList { obj },
            ExtractState::ListRoom { list } => ExtractRequest::ListLen { list },
            ExtractState::ListLen { list, .. } => ExtractRequest::ListLen { list },
            ExtractState::ListItem { list, index } => ExtractRequest::ListItem { list, index },
            ExtractState::ListValue { item, .. } => ExtractRequest::ExtractItem { item },
            ExtractState::Sequence { obj } => ExtractRequest::IsSequence { obj },
            ExtractState::SequenceRoom { obj } => ExtractRequest::Len { obj },
            ExtractState::Iter { obj } => ExtractRequest::TryIter { obj },
            ExtractState::Next { iter } => ExtractRequest::NextItem { iter },
            ExtractState::IterValue { item, .. } => ExtractRequest::ExtractItem { item },
        }
    }
}

/// What is left of an extraction while a question is out.
#[verifier::ext_equal]
pub struct Extraction<T> {
    /// What it waits for.
    pub state: ExtractState,
    /// Lists may be read by index.
    pub by_index: bool,
    /// The elements so far.
    pub collected: Seq<T>,
}

/// An extraction with a question out.
pub struct PendingExtract<T> {
    state: ExtractState,
    by_index: bool,
    collected: Vec<T>,
}

/// An extraction: under way, or done.
pub type ExtractStep<T> = Step<ExtractRequest, PendingExtract<T>, PyResult<Vec<T>>>;

/// What an [`ExtractStep`] stands for.
pub type ExtractModel<T> = Step<ExtractRequest, Extraction<T>, PyResult<Seq<T>>>;

impl<T> View for PendingExtract<T> {
    type V = Extraction<T>;

    closed spec fn view(&self) -> Extraction<T> {
        Extraction { state: self.state, by_index: self.by_index, collected: self.collected@ }
    }
}

impl<'py, T> View for ExtractReply<'py, T, Vec<T>> {
    type V = ExtractReply<'py, T, Seq<T>>;

    open spec fn view(&self) -> ExtractReply<'py, T, Seq<T>> {
        match *self {
            ExtractReply::Whole(Some(all)) => ExtractReply::Whole(Some(all@)),
            ExtractReply::Whole(None) => ExtractReply::Whole(None),
            ExtractReply::Flag(yes) => ExtractReply::Flag(yes),
            ExtractReply::Count(count) => ExtractReply::Count(count),
            ExtractReply::Item(item) => ExtractReply::Item(item),
            ExtractReply::Length(length) => ExtractReply::Length(length),
            ExtractReply::Object(object) => ExtractReply::Object(object),
            ExtractReply::Next(next) => ExtractReply::Next(next),
            ExtractReply::Value(value) => ExtractReply::Value(value),
        }
    }
}

/// What `step` stands for.
pub open spec fn extract_model<T>(step: ExtractStep<T>) -> ExtractModel<T> {
    match step {
        Step::Ask(request, pending) => Step::Ask(request, pending@),
        Step::Done(Ok(all)) => Step::Done(Ok(all@)),
        Step::Done(Err(error)) => Step::Done(Err(error)),
    }
}

/// Extract a `Vec` from `obj`: all at once if the element type can, never from
/// a `str`, item by item from a tuple or a list, and from any other sequence by
/// its iterator.
pub open spec fn plan_extract<T>(obj: RawObject, by_index: bool) -> ExtractModel<T> {
    ask(ExtractState::Whole { obj }, by_index, Seq::empty())
}

/// Extract a `Vec` from `obj` by its iterator, if it is a sequence.
pub open spec fn plan_sequence<T>(obj: RawObject, by_index: bool) -> ExtractModel<T> {
    ask(ExtractState::Sequence { obj }, by_index, Seq::empty())
}

/// Ask what `state` waits for, with the elements `collected` so far.
pub open spec fn ask<T>(state: ExtractState, by_index: bool, collected: Seq<T>) -> ExtractModel<T> {
    Step::Ask(state.request(), Extraction { state, by_index, collected })
}

/// Ask for item `index` of a tuple, or be done.
pub open spec fn tuple_round<T>(
    tuple: RawObject,
    index: usize,
    len: usize,
    by_index: bool,
    collected: Seq<T>,
) -> ExtractModel<T> {
    if index < len {
        ask(ExtractState::TupleItem { tuple, index, len }, by_index, collected)
    } else {
        Step::Done(Ok(collected))
    }
}

/// Ask for the length of a list: in every round anew, because the extraction of
/// an item may have changed it.
pub open spec fn list_round<T>(
    list: RawObject,
    index: usize,
    by_index: bool,
    collected: Seq<T>,
) -> ExtractModel<T> {
    ask(ExtractState::ListLen { list, index }, by_index, collected)
}

/// Ask for the next item of an iterator.
pub open spec fn iter_round<T>(iter: RawObject, by_index: bool, collected: Seq<T>) -> ExtractModel<
    T,
> {
    ask(ExtractState::Next { iter }, by_index, collected)
}

impl<T> Extraction<T> {
    /// Indices count the elements so far, of which there are none before the
    /// first item; that of a tuple is below its length, and that of a list that is
    /// being read can be counted on.
    pub open spec fn wf(self) -> bool {
        let count = self.collected.len();
        match self.state {
            ExtractState::TupleItem { index, len, .. } => index < len && count == index,
            ExtractState::TupleValue { index, len, .. } => index < len && count == index,
            ExtractState::ListLen { index, .. } => count == index,
            ExtractState::ListItem { index, .. } => index < usize::MAX && count == index,
            ExtractState::ListValue { index, .. } => index < usize::MAX && count == index,
            ExtractState::Next { .. } => true,
            ExtractState::IterValue { .. } => true,
            _ => count == 0,
        }
    }

    /// `reply` is of the kind that the question asked for.
    pub open spec fn accepts<'py, C>(self, reply: ExtractReply<'py, T, C>) -> bool {
        match self.state {
            ExtractState::Whole { .. } => reply is Whole,
            ExtractState::Str { .. } => reply is Flag,
            ExtractState::ExactTuple { .. } => reply is Flag,
            ExtractState::TupleLen { .. } => reply is Count,
            ExtractState::TupleItem { .. } => reply is Item,
            ExtractState::TupleValue { .. } => reply is Value,
            ExtractState::ExactList { .. } => reply is Flag,
            ExtractState::ListRoom { .. } => reply is Count,
            ExtractState::ListLen { .. } => reply is Count,
            ExtractState::ListItem { .. } => reply is Item,
            ExtractState::ListValue { .. } => reply is Value,
            ExtractState::Sequence { .. } => reply is Flag,
            ExtractState::SequenceRoom { .. } => reply is Length,
            ExtractState::Iter { .. } => reply is Object,
            ExtractState::Next { .. } => reply is Next,
            ExtractState::IterValue { .. } => reply is Value,
        }
    }

    /// How many elements `reply` makes room for. A sequence that cannot say its
    /// length gets none.
    pub open spec fn room<'py, C>(self, reply: ExtractReply<'py, T, C>) -> nat {
        match (self.state, reply) {
            (ExtractState::TupleLen { .. }, ExtractReply::Count(count)) => count as nat,
            (ExtractState::ListRoom { .. }, ExtractReply::Count(count)) => count as nat,
            (ExtractState::SequenceRoom { .. }, ExtractReply::Length(Ok(length))) => length as nat,
            _ => 0,
        }
    }

    /// What follows `reply`.
    pub open spec fn after<'py>(self, reply: ExtractReply<'py, T, Seq<T>>) -> ExtractModel<T>
        recommends
            self.wf(),
            self.accepts(reply),
    {
        let (by_index, collected) = (self.by_index, self.collected);
        match self.state {
            ExtractState::Whole { obj } => match reply->Whole_0 {
                Some(all) => Step::Done(Ok(all)),
                None => ask(ExtractState::Str { obj }, by_index, collected),
            },
            ExtractState::Str { obj } => if reply->Flag_0 {
                Step::Done(Err(PyErr::TypeError(STR_MESSAGE)))
            } else {
                ask(ExtractState::ExactTuple { obj }, by_index, collected)
            },
            ExtractState::ExactTuple { obj } => if reply->Flag_0 {
                ask(ExtractState::TupleLen { tuple: obj }, by_index, collected)
            } else if by_index {
                ask(ExtractState::ExactList { obj }, by_index, collected)
            } else {
                plan_sequence(obj, by_index)
            },
            ExtractState::TupleLen { tuple } => tuple_round(
                tuple,
                0,
                reply->Count_0,
                by_index,
                collected,
            ),
            ExtractState::TupleItem { tuple, index, len } => ask(
                ExtractState::TupleValue { tuple, index, len, item: reply->Item_0 },
                by_index,
                collected,
            ),
            ExtractState::TupleValue { tuple, index, len, .. } => match reply->Value_0 {
                Ok(value) => tuple_round(
                    tuple,
                    (index + 1) as usize,
                    len,
                    by_index,
                    collected.push(value),
                ),
                Err(error) => Step::Done(Err(error)),
            },
            ExtractState::ExactList { obj } => if reply->Flag_0 {
                ask(ExtractState::ListRoom { list: obj }, by_index, collected)
            } else {
                plan_sequence(obj, by_index)
            },
            ExtractState::ListRoom { list } => list_round(list, 0, by_index, collected),
            ExtractState::ListLen { list, index } => if index < reply->Count_0 {
                ask(ExtractState::ListItem { list, index }, by_index, collected)
            } else {
                Step::Done(Ok(collected))
            },
            ExtractState::ListItem { list, index } => ask(
                ExtractState::ListValue { list, index, item: reply->Item_0 },
                by_index,
                collected,
            ),
            ExtractState::ListValue { list, index, .. } => match reply->Value_0 {
                Ok(value) => list_round(
                    list,
                    (index + 1) as usize,
                    by_index,
                    collected.push(value),
                ),
                Err(error) => Step::Done(Err(error)),
            },
            ExtractState::Sequence { obj } => if reply->Flag_0 {
                ask(ExtractState::SequenceRoom { obj }, by_index, collected)
            } else {
                Step::Done(Err(PyErr::Cast(CastError { from: obj, to: CastTarget::Sequence })))
            },
            ExtractState::SequenceRoom { obj } => {
                ask(ExtractState::Iter { obj }, by_index, collected)
            },
            ExtractState::Iter { obj } => match reply->Object_0 {
                Ok(iter) => iter_round(iter.raw(), by_index, collected),
                Err(error) => Step::Done(Err(error)),
            },
            ExtractState::Next { iter } => match reply->Next_0 {
                None => Step::Done(Ok(collected)),
                Some(Err(error)) => Step::Done(Err(error)),
                Some(Ok(item)) => ask(
                    ExtractState::IterValue { iter, item: item.raw() },
                    by_index,
                    collected,
                ),
            },
            ExtractState::IterValue { iter, .. } => match reply->Value_0 {
                Ok(value) => iter_round(iter, by_index, collected.push(value)),
                Err(error) => Step::Done(Err(error)),
            },
        }
    }
}

/// Extracts by the iterator. Types that pass `PySequence_Check` usually have
/// enough of the sequence protocol for this; if not, the extraction only fails.
pub fn extract_sequence<'py, T>(obj: Borrowed<'_, 'py, PyAny>, build: Build) -> (step: ExtractStep<
    T,
>)
    ensures
        extract_model(step) == plan_sequence::<T>(obj.raw(), build.list_by_index()),
{
    PendingExtract::sequence(obj.as_ptr(), build.reads_lists_by_index())
}

/// An empty `Vec` with room for `count` elements.
fn with_room<T>(count: usize) -> (collected: Vec<T>)
    requires
        count * size_of::<T>() <= isize::MAX,
    ensures
        collected@ == Seq::<T>::empty(),
{
    Vec::with_capacity(count)
}

impl<T> PendingExtract<T> {
    #[verifier::type_invariant]
    spec fn in_bounds(self) -> bool {
        self@.wf()
    }

    /// Asks what `state` waits for.
    fn ask(state: ExtractState, by_index: bool, collected: Vec<T>) -> (step: ExtractStep<T>)
        requires
            (Extraction { state, by_index, collected: collected@ }).wf(),
        ensures
            extract_model(step) == ask(state, by_index, collected@),
    {
        Step::Ask(state.question(), PendingExtract { state, by_index, collected })
    }

    /// Asks whether `obj` is a sequence.
    fn sequence(obj: RawObject, by_index: bool) -> (step: ExtractStep<T>)
        ensures
            extract_model(step) == plan_sequence::<T>(obj, by_index),
    {
        Self::ask(ExtractState::Sequence { obj }, by_index, Vec::new())
    }

    /// Asks for the next item of a tuple, if there is one.
    fn tuple_round(
        tuple: RawObject,
        index: usize,
        len: usize,
        by_index: bool,
        collected: Vec<T>,
    ) -> (step: ExtractStep<T>)
        requires
            collected@.len() == index,
        ensures
            extract_model(step) == tuple_round(tuple, index, len, by_index, collected@),
    {
        if index < len {
            Self::ask(ExtractState::TupleItem { tuple, index, len }, by_index, collected)
        } else {
            Step::Done(Ok(collected))
        }
    }

    /// Asks for the length of a list.
    fn list_round(list: RawObject, index: usize, by_index: bool, collected: Vec<T>) -> (step:
        ExtractStep<T>)
        requires
            collected@.len() == index,
        ensures
            extract_model(step) == list_round(list, index, by_index, collected@),
    {
        Self::ask(ExtractState::ListLen { list, index }, by_index, collected)
    }

    /// Asks for the next item of an iterator.
    fn iter_round(iter: RawObject, by_index: bool, collected: Vec<T>) -> (step: ExtractStep<T>)
        ensures
            extract_model(step) == iter_round(iter, by_index, collected@),
    {
        Self::ask(ExtractState::Next { iter }, by_index, collected)
    }

    /// Goes on with the reply to the question that is out. The room that a
    /// reply asks for must fit in memory.
    pub fn resume<'py>(self, reply: ExtractReply<'py, T, Vec<T>>) -> (step: ExtractStep<T>)
        requires
            self@.accepts(reply),
            self@.room(reply) * size_of::<T>() <= isize::MAX,
        ensures
            self@.wf(),
            extract_model(step) == self@.after(reply@),
    {
        proof {
            use_type_invariant(&self);
        }
        let (state, by_index, mut collected) = (self.state, self.by_index, self.collected);
        assert(collected@.len() == 0 ==> collected@ =~= Seq::empty());
        match (state, reply) {
            (ExtractState::Whole { obj }, ExtractReply::Whole(whole)) => match whole {
                Some(all) => Step::Done(Ok(all)),
                None => Self::ask(ExtractState::Str { obj }, by_index, collected),
            },
            (ExtractState::Str { obj }, ExtractReply::Flag(is_str)) => {
                if is_str {
                    Step::Done(Err(PyErr::TypeError(STR_MESSAGE)))
                } else {
                    Self::ask(ExtractState::ExactTuple { obj }, by_index, collected)
                }
            },
            (ExtractState::ExactTuple { obj }, ExtractReply::Flag(is_tuple)) => {
                if is_tuple {
                    Self::ask(ExtractState::TupleLen { tuple: obj }, by_index, collected)
                } else if by_index {
                    Self::ask(ExtractState::ExactList { obj }, by_index, collected)
                } else {
                    Self::sequence(obj, by_index)
                }
            },
            (ExtractState::TupleLen { tuple }, ExtractReply::Count(len)) => {
                Self::tuple_round(tuple, 0, len, by_index, with_room(len))
            },
            (ExtractState::TupleItem { tuple, index, len }, ExtractReply::Item(item)) => Self::ask(
                ExtractState::TupleValue { tuple, index, len, item },
                by_index,
                collected,
            ),
            (ExtractState::TupleValue { tuple, index, len, .. }, ExtractReply::Value(value)) => {
                match value {
                    Ok(value) => {
                        collected.push(value);
                        Self::tuple_round(tuple, index + 1, len, by_index, collected)
                    },
                    Err(error) => Step::Done(Err(error)),
                }
            },
            (ExtractState::ExactList { obj }, ExtractReply::Flag(is_list)) => {
                if is_list {
                    Self::ask(ExtractState::ListRoom { list: obj }, by_index, collected)
                } else {
                    Self::sequence(obj, by_index)
                }
            },
            (ExtractState::ListRoom { list }, ExtractReply::Count(len)) => {
                Self::list_round(list, 0, by_index, with_room(len))
            },
            (ExtractState::ListLen { list, index }, ExtractReply::Count(len)) => {
                if index < len {
                    Self::ask(ExtractState::ListItem { list, index }, by_index, collected)
                } else {
                    Step::Done(Ok(collected))
                }
            },
            (ExtractState::ListItem { list, index }, ExtractReply::Item(item)) => Self::ask(
                ExtractState::ListValue { list, index, item },
                by_index,
                collected,
            ),
            (ExtractState::ListValue { list, index, .. }, ExtractReply::Value(value)) => {
                match value {
                    Ok(value) => {
                        collected.push(value);
                        Self::list_round(list, index + 1, by_index, collected)
                    },
                    Err(error) => Step::Done(Err(error)),
                }
            },
            (ExtractState::Sequence { obj }, ExtractReply::Flag(is_sequence)) => {
                if is_sequence {
                    Self::ask(ExtractState::SequenceRoom { obj }, by_index, collected)
                } else {
                    Step::Done(
                        Err(PyErr::Cast(CastError { from: obj, to: CastTarget::Sequence })),
                    )
                }
            },
            (ExtractState::SequenceRoom { obj }, ExtractReply::Length(length)) => {
                let count: usize = match length {
                    Ok(count) => count,
                    Err(_) => 0,
                };
                Self::ask(ExtractState::Iter { obj }, by_index, with_room(count))
            },
            (ExtractState::Iter { obj }, ExtractReply::Object(made)) => match made {
                Ok(iter) => Self::iter_round(iter.as_ptr(), by_index, collected),
                Err(error) => Step::Done(Err(error)),
            },
            (ExtractState::Next { iter }, ExtractReply::Next(next)) => match next {
                None => Step::Done(Ok(collected)),
                Some(Err(error)) => Step::Done(Err(error)),
                Some(Ok(item)) => Self::ask(
                    ExtractState::IterValue { iter, item: item.as_ptr() },
                    by_index,
                    collected,
                ),
            },
            (ExtractState::IterValue { iter, .. }, ExtractReply::Value(value)) => match value {
                Ok(value) => {
                    collected.push(value);
                    Self::iter_round(iter, by_index, collected)
                },
                Err(error) => Step::Done(Err(error)),
            },
            _ => vstd::pervasive::unreached(),
        }
    }
}

impl<'py, T> FromPyObject<'py> for Vec<T> {
    type Extraction = ExtractStep<T>;

    fn extract(obj: Borrowed<'_, 'py, PyAny>, build: Build) -> (step: ExtractStep<T>)
        ensures
            extract_model(step) == plan_extract::<T>(obj.raw(), build.list_by_index()),
    {
        let obj: RawObject = obj.as_ptr();
        PendingExtract::ask(ExtractState::Whole { obj }, build.reads_lists_by_index(), Vec::new())
    }
}

} // verus!
