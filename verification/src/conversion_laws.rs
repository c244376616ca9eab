//! What the objects that are made of sequences amount to.
//!
//! The laws speak of any interpreter and any element type. Making an element an
//! object may run any Python code.

use crate::config::Build;
use crate::conversion::{
    byte_of, kind_of, object_of, NewSequence, SequenceElement, SequenceKind,
};
use crate::err::{PyErr, PyResult};
use crate::handle::{Bound, PyAny, RawObject};
use crate::private::FormOf;
use crate::vec::plan_extract;
use crate::vec_laws::{enough_for, law_list_gives_what_it_holds, law_whole_sequence_wins, Objects};
use vstd::prelude::*;

verus! {

/// How objects are made in an interpreter whose state is a `W`, of elements `T`.
#[verifier::reject_recursive_types(W)]
#[verifier::reject_recursive_types(T)]
pub struct Makers<'py, W, T> {
    /// What the objects do.
    pub objects: Objects<'py, W, T>,
    /// New `bytes`.
    pub new_bytes: spec_fn(W, Seq<u8>) -> (W, PyResult<Bound<'py, PyAny>>),
    /// What is in `bytes`.
    pub bytes: spec_fn(W, RawObject) -> Seq<u8>,
    /// A new `list` with so many empty places.
    pub new_list: spec_fn(W, nat) -> (W, PyResult<Bound<'py, PyAny>>),
    /// An item put in a place of a `list`.
    pub set_item: spec_fn(W, RawObject, nat, RawObject) -> W,
    /// An element made an object.
    pub convert: spec_fn(W, T) -> (W, PyResult<RawObject>),
}

/// The bytes that `values` are.
pub open spec fn bytes_of<T: SequenceElement>(values: Seq<T>) -> Seq<u8> {
    values.map_values(|value: T| byte_of(value))
}

impl<'py, W, T: SequenceElement> Makers<'py, W, T> {
    /// New `bytes` hold what they are made of. A new list has as
    /// many places as it should; an item goes in its place and leaves the others
    /// alone.
    pub open spec fn wf(self) -> bool {
        &&& forall|w: W, items: Seq<u8>|
            {
                let (made, object) = #[trigger] (self.new_bytes)(w, items);
                object matches Ok(object) ==> (self.bytes)(made, object.raw()) == items
            }
        &&& forall|w: W, len: nat|
            {
                let (made, list) = #[trigger] (self.new_list)(w, len);
                list matches Ok(list) ==> (self.objects.list_items)(made, list.raw()).len() == len
            }
        &&& forall|w: W, list: RawObject, index: nat, item: RawObject|
            index < (self.objects.list_items)(w, list).len() ==> (self.objects.list_items)(
                #[trigger] (self.set_item)(w, list, index, item),
                list,
            ) == (self.objects.list_items)(w, list).update(index as int, item)
    }

    /// Making an element an object does not touch `list`: nothing else knows of
    /// a list that is being filled.
    pub open spec fn leaves(self, list: RawObject) -> bool {
        forall|w: W, value: T|
            (self.objects.list_items)((#[trigger] (self.convert)(w, value)).0, list) == (
            self.objects.list_items)(w, list)
    }

    /// The first `count` of `items` made objects, in order, and put in their
    /// places in `list`; the first error ends it.
    pub open spec fn fill(self, w: W, list: RawObject, items: Seq<T>, count: nat) -> (W, PyResult<
        (),
    >)
        decreases count,
    {
        if count == 0 {
            (w, Ok(()))
        } else {
            let index = (count - 1) as nat;
            let (before, so_far) = self.fill(w, list, items, index);
            match so_far {
                Err(error) => (before, Err(error)),
                Ok(_) => {
                    let (then, item) = (self.convert)(before, items[index as int]);
                    match item {
                        Ok(item) => ((self.set_item)(then, list, index, item), Ok(())),
                        Err(error) => (then, Err(error)),
                    }
                },
            }
        }
    }

    /// The object that `request` asks for, or the error that came of it.
    pub open spec fn perform(self, w: W, request: NewSequence<Seq<T>>) -> (W, PyResult<
        Bound<'py, PyAny>,
    >) {
        match request.kind {
            SequenceKind::Bytes => (self.new_bytes)(w, bytes_of(request.items)),
            SequenceKind::List => {
                let (begun, list) = (self.new_list)(w, request.items.len());
                match list {
                    Err(error) => (begun, Err(error)),
                    Ok(list) => {
                        let (then, filled) = self.fill(
                            begun,
                            list.raw(),
                            request.items,
                            request.items.len(),
                        );
                        match filled {
                            Ok(_) => (then, Ok(list)),
                            Err(error) => (then, Err(error)),
                        }
                    },
                }
            },
        }
    }

    /// Element `index` of `items` made an object, in its turn.
    pub open spec fn converted(self, w: W, list: RawObject, items: Seq<T>, index: nat) -> (
        W,
        PyResult<RawObject>,
    ) {
        (self.convert)(self.fill(w, list, items, index).0, items[index as int])
    }

    /// The places that are filled hold the elements made objects.
    proof fn lemma_fill(self, w: W, list: RawObject, items: Seq<T>, count: nat)
        requires
            self.wf(),
            self.leaves(list),
            (self.objects.list_items)(w, list).len() == items.len(),
            count <= items.len(),
        ensures
            ({
                let (then, filled) = self.fill(w, list, items, count);
                let places = (self.objects.list_items)(then, list);
                &&& filled is Ok ==> {
                    &&& places.len() == items.len()
                    &&& forall|i: nat|
                        i < count ==> (#[trigger] self.converted(w, list, items, i)).1 == Ok::<
                            _,
                            PyErr,
                        >(places[i as int])
                }
                &&& filled matches Err(error) ==> exists|i: nat|
                    {
                        &&& i < count
                        &&& #[trigger] self.converted(w, list, items, i) == (
                            then,
                            Err::<RawObject, _>(error),
                        )
                        &&& forall|j: nat|
                            j < i ==> (#[trigger] self.converted(w, list, items, j)).1 is Ok
                    }
            }),
        decreases count,
    {
        if count > 0 {
            let index = (count - 1) as nat;
            self.lemma_fill(w, list, items, index);
            let (before, so_far) = self.fill(w, list, items, index);
            let (then, filled) = self.fill(w, list, items, count);
            let (after, item) = self.converted(w, list, items, index);
            if so_far is Ok {
                let places = (self.objects.list_items)(before, list);
                assert((self.objects.list_items)(after, list) == places);
                if let Ok(item) = item {
                    let now = (self.objects.list_items)(then, list);
                    assert(now == places.update(index as int, item));
                    assert forall|i: nat| i < count implies (#[trigger] self.converted(
                        w,
                        list,
                        items,
                        i,
                    )).1 == Ok::<_, PyErr>(now[i as int]) by {
                        if i < index {
                            assert(now[i as int] == places[i as int]);
                        }
                    }
                } else {
                    assert(self.converted(w, list, items, index) == (then, item));
                }
            }
        }
    }
}

/// What becomes of a `Vec`: `bytes` with these bytes if its elements are bytes,
/// else a `list` with as many items, item `i` being element `i` made an object.
/// The first element that fails is the outcome, and no element behind it is made
/// an object.
pub proof fn law_sequence_becomes_bytes_or_list<'py, W, T: SequenceElement>(
    makers: Makers<'py, W, T>,
    w: W,
    values: Seq<T>,
)
    requires
        makers.wf(),
        (makers.new_list)(w, values.len()).1 matches Ok(list) ==> makers.leaves(list.raw()),
    ensures
        ({
            let (then, object) = makers.perform(w, object_of(values));
            let (begun, list) = (makers.new_list)(w, values.len());
            match kind_of::<T>() {
                SequenceKind::Bytes => {
                    &&& (then, object) == (makers.new_bytes)(w, bytes_of(values))
                    &&& object matches Ok(object) ==> (makers.bytes)(then, object.raw())
                        == bytes_of(values)
                },
                SequenceKind::List => match list {
                    Err(error) => then == begun && object == Err::<Bound<'py, PyAny>, _>(error),
                    Ok(list) => match object {
                        Ok(object) => {
                            let items = (makers.objects.list_items)(then, object.raw());
                            &&& object == list
                            &&& items.len() == values.len()
                            &&& forall|i: nat|
                                i < values.len() ==> (#[trigger] makers.converted(
                                    begun,
                                    list.raw(),
                                    values,
                                    i,
                                )).1 == Ok::<_, PyErr>(items[i as int])
                        },
                        Err(error) => exists|i: nat|
                            {
                                &&& i < values.len()
                                &&& #[trigger] makers.converted(begun, list.raw(), values, i) == (
                                    then,
                                    Err::<RawObject, _>(error),
                                )
                                &&& forall|j: nat|
                                    j < i ==> (#[trigger] makers.converted(
                                        begun,
                                        list.raw(),
                                        values,
                                        j,
                                    )).1 is Ok
                            },
                    },
                },
            }
        }),
{
    if let (begun, Ok(list)) = (makers.new_list)(w, values.len()) {
        makers.lemma_fill(begun, list.raw(), values, values.len());
    }
}

/// A sequence of `u8` becomes `bytes` that are these very bytes, in one request.
pub proof fn law_u8_becomes_bytes<'py, W>(makers: Makers<'py, W, u8>, w: W, values: Seq<u8>)
    requires
        makers.wf(),
    ensures
        object_of(values) == (NewSequence { kind: SequenceKind::Bytes, items: values }),
        ({
            let (then, object) = makers.perform(w, object_of(values));
            &&& (then, object) == (makers.new_bytes)(w, values)
            &&& object matches Ok(object) ==> (makers.bytes)(then, object.raw()) == values
        }),
{
    assert(bytes_of(values) =~= values);
}

/// A sequence of anything else becomes a `list`, even if its elements are small
/// numbers or themselves become `bytes`.
pub proof fn law_any_other_element_becomes_a_list<'a, T: SequenceElement>(
    unsigned: (Seq<u16>, Seq<u32>, Seq<u64>, Seq<u128>, Seq<usize>),
    signed: (Seq<i8>, Seq<i16>, Seq<i32>, Seq<i64>, Seq<i128>, Seq<isize>),
    others: (Seq<bool>, Seq<char>, Seq<String>, Seq<&'a str>),
    options: Seq<Option<T>>,
    vectors: Seq<Vec<T>>,
)
    ensures
        object_of(unsigned.0) == (NewSequence { kind: SequenceKind::List, items: unsigned.0 }),
        object_of(unsigned.1) == (NewSequence { kind: SequenceKind::List, items: unsigned.1 }),
        object_of(unsigned.2) == (NewSequence { kind: SequenceKind::List, items: unsigned.2 }),
        object_of(unsigned.3) == (NewSequence { kind: SequenceKind::List, items: unsigned.3 }),
        object_of(unsigned.4) == (NewSequence { kind: SequenceKind::List, items: unsigned.4 }),
        object_of(signed.0) == (NewSequence { kind: SequenceKind::List, items: signed.0 }),
        object_of(signed.1) == (NewSequence { kind: SequenceKind::List, items: signed.1 }),
        object_of(signed.2) == (NewSequence { kind: SequenceKind::List, items: signed.2 }),
        object_of(signed.3) == (NewSequence { kind: SequenceKind::List, items: signed.3 }),
        object_of(signed.4) == (NewSequence { kind: SequenceKind::List, items: signed.4 }),
        object_of(signed.5) == (NewSequence { kind: SequenceKind::List, items: signed.5 }),
        object_of(others.0) == (NewSequence { kind: SequenceKind::List, items: others.0 }),
        object_of(others.1) == (NewSequence { kind: SequenceKind::List, items: others.1 }),
        object_of(others.2) == (NewSequence { kind: SequenceKind::List, items: others.2 }),
        object_of(others.3) == (NewSequence { kind: SequenceKind::List, items: others.3 }),
        object_of(options) == (NewSequence { kind: SequenceKind::List, items: options }),
        object_of(vectors) == (NewSequence { kind: SequenceKind::List, items: vectors }),
{
}

/// The object to make of a sequence has all of its elements, in order, whatever they
/// become.
pub proof fn law_object_has_the_elements<T: SequenceElement>(values: Seq<T>)
    ensures
        object_of(values).items == values,
        forall|other: Seq<T>| (#[trigger] object_of(other)).kind == object_of(values).kind,
{
}

/// Only what is told apart by its byte becomes `bytes`: from the bytes the
/// elements can be told.
pub proof fn law_only_bytes_become_bytes<T: SequenceElement>(left: Seq<T>, right: Seq<T>)
    requires
        kind_of::<T>() is Bytes,
        bytes_of(left) == bytes_of(right),
    ensures
        left == right,
{
    assert(left.len() == bytes_of(left).len());
    assert(right.len() == bytes_of(right).len());
    assert forall|i: int| 0 <= i < left.len() implies left[i] == right[i] by {
        assert(bytes_of(left)[i] == byte_of(left[i]));
        assert(bytes_of(right)[i] == byte_of(right[i]));
        <T::Form as FormOf<T>>::only_bytes_become_bytes(left[i], right[i]);
    }
    assert(left =~= right);
}

/// The elements that are in `bytes` come out of them at once.
pub open spec fn reads_bytes_back<'py, W, T: SequenceElement>(
    makers: Makers<'py, W, T>,
    w: W,
    obj: RawObject,
) -> bool {
    (makers.objects.whole)(w, obj) matches Some(all) && bytes_of(all) == (makers.bytes)(w, obj)
}

/// The objects that `values` were made, extracted in their turn from the list in
/// `w`, give `values` back, and the list stays as it is.
pub open spec fn reads_list_back<'py, W, T: SequenceElement>(
    makers: Makers<'py, W, T>,
    begun: W,
    w: W,
    list: RawObject,
    values: Seq<T>,
) -> bool {
    let objects = makers.objects;
    let items = (objects.list_items)(w, list);
    forall|i: nat|
        {
            let made = #[trigger] makers.converted(begun, list, values, i);
            i < values.len() ==> {
                &&& made.1 matches Ok(item) ==> (objects.extract)(
                    objects.reading(w, items, i),
                    item,
                ).1 == Ok::<_, PyErr>(values[i as int])
                &&& (objects.list_items)(objects.reading(w, items, i + 1), list) == items
            }
        }
}

/// On every build, the object made of a `Vec` extracts to that `Vec`, where each
/// of its elements can be extracted from the object that it was made: `bytes` at
/// once, a `list` by index or by its own iterator.
pub proof fn law_made_object_reads_back<'py, W, T: SequenceElement>(
    makers: Makers<'py, W, T>,
    w: W,
    values: Seq<T>,
    build: Build,
    same: spec_fn(W, W, nat) -> bool,
    fuel: nat,
)
    requires
        makers.wf(),
        makers.objects.wf(),
        (makers.new_list)(w, values.len()).1 matches Ok(list) ==> makers.leaves(list.raw()),
        ({
            let begun = (makers.new_list)(w, values.len()).0;
            let (then, object) = makers.perform(w, object_of(values));
            let obj = object->Ok_0.raw();
            &&& object is Ok
            &&& match kind_of::<T>() {
                SequenceKind::Bytes => reads_bytes_back(makers, then, obj),
                SequenceKind::List => {
                    &&& makers.objects.is_plain_list(then, obj)
                    &&& reads_list_back(makers, begun, then, obj, values)
                    &&& build.list_by_index() || makers.objects.has_iterator_like(
                        then,
                        obj,
                        makers.objects.list_source(obj),
                        same,
                    )
                },
            }
        }),
        fuel >= enough_for(values.len()),
    ensures
        ({
            let (then, object) = makers.perform(w, object_of(values));
            let step = plan_extract(object->Ok_0.raw(), build.list_by_index());
            makers.objects.run(step, then, fuel).outcome == Some(Ok::<_, PyErr>(values))
        }),
{
    let objects = makers.objects;
    let by_index = build.list_by_index();
    let (then, object) = makers.perform(w, object_of(values));
    let obj = object->Ok_0.raw();
    law_sequence_becomes_bytes_or_list(makers, w, values);
    match kind_of::<T>() {
        SequenceKind::Bytes => {
            law_only_bytes_become_bytes((objects.whole)(then, obj)->0, values);
            law_whole_sequence_wins(objects, then, obj, by_index, fuel);
        },
        SequenceKind::List => {
            let begun = (makers.new_list)(w, values.len()).0;
            let items = (objects.list_items)(then, obj);
            assert forall|i: nat| i < values.len() implies ({
                let before = #[trigger] objects.reading(then, items, i);
                &&& (objects.extract)(before, items[i as int]).1 == Ok::<T, PyErr>(
                    values[i as int],
                )
                &&& (objects.list_items)(objects.reading(then, items, i + 1), obj) == items
            }) by {
                assert(makers.converted(begun, obj, values, i).1 == Ok::<_, PyErr>(
                    items[i as int],
                ));
            }
            law_list_gives_what_it_holds(objects, then, obj, values, by_index, same, fuel);
        },
    }
}

} // verus!
