//! What the extraction of a `Vec` amounts to.
//!
//! The laws speak of any interpreter and any element type. Extracting an item
//! may run any Python code, so it may change the interpreter, and with it the
//! list that is being read.

use crate::err::{CastError, CastTarget, PyErr, PyResult};
use crate::handle::{Bound, PyAny, RawObject};
use crate::step::Step;
use crate::vec::{
    ask, iter_round, list_round, plan_extract, plan_sequence, tuple_round, ExtractModel,
    ExtractReply, ExtractRequest, ExtractState, Extraction, STR_MESSAGE,
};
use vstd::prelude::*;

verus! {

/// What objects do in an interpreter whose state is a `W`, for elements `T`.
#[verifier::reject_recursive_types(W)]
#[verifier::reject_recursive_types(T)]
pub struct Objects<'py, W, T> {
    /// All the elements of an object, where the element type has them at once.
    pub whole: spec_fn(W, RawObject) -> Option<Seq<T>>,
    /// The object is a `str`.
    pub is_str: spec_fn(W, RawObject) -> bool,
    /// The object is a `tuple`, and not of a subclass.
    pub is_exact_tuple: spec_fn(W, RawObject) -> bool,
    /// The object is a `list`, and not of a subclass.
    pub is_exact_list: spec_fn(W, RawObject) -> bool,
    /// The object passes for a sequence.
    pub is_sequence: spec_fn(W, RawObject) -> bool,
    /// The items of a tuple, which never change.
    pub tuple_items: spec_fn(RawObject) -> Seq<RawObject>,
    /// The items of a list.
    pub list_items: spec_fn(W, RawObject) -> Seq<RawObject>,
    /// The length that an object says it has.
    pub len: spec_fn(W, RawObject) -> (W, PyResult<usize>),
    /// The iterator over an object.
    pub iter: spec_fn(W, RawObject) -> (W, PyResult<Bound<'py, PyAny>>),
    /// The next item of an iterator.
    pub next: spec_fn(W, RawObject) -> (W, Option<PyResult<Bound<'py, PyAny>>>),
    /// The element in an item.
    pub extract: spec_fn(W, RawObject) -> (W, PyResult<T>),
}

/// How far an extraction got.
#[verifier::reject_recursive_types(T)]
pub struct ExtractRun<W, T> {
    /// The questions that were asked.
    pub trace: Seq<ExtractRequest>,
    /// The state of the interpreter in which each of them was asked.
    pub asked_in: Seq<W>,
    /// The state of the interpreter after them.
    pub world: W,
    /// The outcome, if it is there.
    pub outcome: Option<PyResult<Seq<T>>>,
}

/// Where items come from: the state of the interpreter and that of the source
/// go in and come out, with an item, an error or the end.
pub type Source<W, S> = spec_fn(W, S) -> (W, S, Option<PyResult<RawObject>>);

impl<'py, W, T> Objects<'py, W, T> {
    /// Lengths fit a machine word.
    pub open spec fn wf(self) -> bool {
        &&& forall|t: RawObject| (#[trigger] (self.tuple_items)(t)).len() <= isize::MAX
        &&& forall|w: W, l: RawObject| (#[trigger] (self.list_items)(w, l)).len() <= isize::MAX
    }

    /// The interpreter's answer to a question.
    pub open spec fn answer(self, w: W, request: ExtractRequest) -> (W, ExtractReply<
        'py,
        T,
        Seq<T>,
    >) {
        match request {
            ExtractRequest::SequenceExtractor { obj } => {
                (w, ExtractReply::Whole((self.whole)(w, obj)))
            },
            ExtractRequest::IsStr { obj } => (w, ExtractReply::Flag((self.is_str)(w, obj))),
            ExtractRequest::IsExactTuple { obj } => {
                (w, ExtractReply::Flag((self.is_exact_tuple)(w, obj)))
            },
            ExtractRequest::TupleLen { tuple } => {
                (w, ExtractReply::Count((self.tuple_items)(tuple).len() as usize))
            },
            ExtractRequest::TupleItem { tuple, index } => {
                (w, ExtractReply::Item((self.tuple_items)(tuple)[index as int]))
            },
            ExtractRequest::IsExactList { obj } => {
                (w, ExtractReply::Flag((self.is_exact_list)(w, obj)))
            },
            ExtractRequest::ListLen { list } => {
                (w, ExtractReply::Count((self.list_items)(w, list).len() as usize))
            },
            ExtractRequest::ListItem { list, index } => {
                (w, ExtractReply::Item((self.list_items)(w, list)[index as int]))
            },
            ExtractRequest::ExtractItem { item } => {
                let (w, value) = (self.extract)(w, item);
                (w, ExtractReply::Value(value))
            },
            ExtractRequest::IsSequence { obj } => {
                (w, ExtractReply::Flag((self.is_sequence)(w, obj)))
            },
            ExtractRequest::Len { obj } => {
                let (w, length) = (self.len)(w, obj);
                (w, ExtractReply::Length(length))
            },
            ExtractRequest::TryIter { obj } => {
                let (w, iter) = (self.iter)(w, obj);
                (w, ExtractReply::Object(iter))
            },
            ExtractRequest::NextItem { iter } => {
                let (w, item) = (self.next)(w, iter);
                (w, ExtractReply::Next(item))
            },
        }
    }

    /// The run of `step` for at most `fuel` questions.
    pub open spec fn run(self, step: ExtractModel<T>, w: W, fuel: nat) -> ExtractRun<W, T>
        decreases fuel,
    {
        match step {
            Step::Done(outcome) => ExtractRun {
                trace: Seq::empty(),
                asked_in: Seq::empty(),
                world: w,
                outcome: Some(outcome),
            },
            Step::Ask(request, state) => if fuel == 0 {
                ExtractRun {
                    trace: Seq::empty(),
                    asked_in: Seq::empty(),
                    world: w,
                    outcome: None,
                }
            } else {
                let (next, reply) = self.answer(w, request);
                let rest = self.run(state.after(reply), next, (fuel - 1) as nat);
                ExtractRun {
                    trace: seq![request] + rest.trace,
                    asked_in: seq![w] + rest.asked_in,
                    ..rest
                }
            },
        }
    }

    /// The items of a tuple, one by one.
    pub open spec fn tuple_source(self, tuple: RawObject) -> Source<W, nat> {
        |w: W, index: nat|
            if index < (self.tuple_items)(tuple).len() {
                (w, index + 1, Some(Ok((self.tuple_items)(tuple)[index as int])))
            } else {
                (w, index, None)
            }
    }

    /// The items of a list as its own iterator gives them: by index, until the
    /// index is past the end that the list has then.
    pub open spec fn list_source(self, list: RawObject) -> Source<W, nat> {
        |w: W, index: nat|
            if index < (self.list_items)(w, list).len() {
                (w, index + 1, Some(Ok((self.list_items)(w, list)[index as int])))
            } else {
                (w, index, None)
            }
    }

    /// The items of an iterator.
    pub open spec fn iter_source(self, iter: RawObject) -> Source<W, ()> {
        |w: W, nothing: ()|
            {
                let (next, item) = (self.next)(w, iter);
                match item {
                    None => (next, (), None),
                    Some(Err(error)) => (next, (), Some(Err(error))),
                    Some(Ok(item)) => (next, (), Some(Ok(item.raw()))),
                }
            }
    }

    /// The elements in the items of `source`, in order, behind those that are
    /// there already; the first error ends it. `None` if it takes `rounds`
    /// rounds or more.
    pub open spec fn collect<S>(
        self,
        source: Source<W, S>,
        w: W,
        s: S,
        collected: Seq<T>,
        rounds: nat,
    ) -> Option<(W, PyResult<Seq<T>>)>
        decreases rounds,
    {
        if rounds == 0 {
            None
        } else {
            let (next, rest, item) = source(w, s);
            match item {
                None => Some((next, Ok(collected))),
                Some(Err(error)) => Some((next, Err(error))),
                Some(Ok(item)) => {
                    let (then, value) = (self.extract)(next, item);
                    match value {
                        Ok(value) => self.collect(
                            source,
                            then,
                            rest,
                            collected.push(value),
                            (rounds - 1) as nat,
                        ),
                        Err(error) => Some((then, Err(error))),
                    }
                },
            }
        }
    }

    /// The elements of `obj` by the iterator protocol.
    pub open spec fn by_iterator(self, w: W, obj: RawObject, rounds: nat) -> Option<
        (W, PyResult<Seq<T>>),
    > {
        if !(self.is_sequence)(w, obj) {
            Some((w, Err(PyErr::Cast(CastError { from: obj, to: CastTarget::Sequence }))))
        } else {
            // Whether it can say its length makes no difference.
            let (asked, _) = (self.len)(w, obj);
            let (begun, iter) = (self.iter)(asked, obj);
            match iter {
                Ok(iter) => self.collect(
                    self.iter_source(iter.raw()),
                    begun,
                    (),
                    Seq::empty(),
                    rounds,
                ),
                Err(error) => Some((begun, Err(error))),
            }
        }
    }

    /// The elements of `obj`.
    pub open spec fn elements(self, w: W, obj: RawObject, by_index: bool, rounds: nat) -> Option<
        (W, PyResult<Seq<T>>),
    > {
        match (self.whole)(w, obj) {
            Some(all) => Some((w, Ok(all))),
            None => if (self.is_str)(w, obj) {
                Some((w, Err(PyErr::TypeError(STR_MESSAGE))))
            } else if (self.is_exact_tuple)(w, obj) {
                self.collect(self.tuple_source(obj), w, 0, Seq::empty(), rounds)
            } else if by_index && (self.is_exact_list)(w, obj) {
                self.collect(self.list_source(obj), w, 0, Seq::empty(), rounds)
            } else {
                self.by_iterator(w, obj, rounds)
            },
        }
    }
}

/// A run of at most `fuel` questions ends as `expected`; with none expected within
/// `rounds` rounds, it does not end in fewer questions.
pub open spec fn ends_as<W, T>(
    run: ExtractRun<W, T>,
    expected: Option<(W, PyResult<Seq<T>>)>,
    fuel: nat,
    enough: nat,
    rounds: nat,
) -> bool {
    match expected {
        Some((world, outcome)) => fuel >= enough ==> run.world == world && run.outcome == Some(
            outcome,
        ),
        None => fuel < rounds ==> run.outcome is None,
    }
}

impl<'py, W, T> Objects<'py, W, T> {
    /// The rounds over a tuple collect its items.
    proof fn lemma_tuple_rounds(
        self,
        w: W,
        tuple: RawObject,
        index: usize,
        by_index: bool,
        collected: Seq<T>,
        rounds: nat,
        fuel: nat,
    )
        requires
            self.wf(),
            index <= (self.tuple_items)(tuple).len(),
        ensures
            ({
                let len = (self.tuple_items)(tuple).len() as usize;
                let run = self.run(tuple_round(tuple, index, len, by_index, collected), w, fuel);
                let source = self.tuple_source(tuple);
                let expected = self.collect(source, w, index as nat, collected, rounds);
                ends_as(run, expected, fuel, 2 * rounds, rounds)
            }),
        decreases rounds,
    {
        reveal_with_fuel(Objects::run, 3);
        let items = (self.tuple_items)(tuple);
        if rounds > 0 && fuel >= 2 && index < items.len() {
            let (then, value) = (self.extract)(w, items[index as int]);
            if let Ok(value) = value {
                self.lemma_tuple_rounds(
                    then,
                    tuple,
                    (index + 1) as usize,
                    by_index,
                    collected.push(value),
                    (rounds - 1) as nat,
                    (fuel - 2) as nat,
                );
            }
        }
    }

    /// The rounds over a list collect its items, as the list is at the time.
    proof fn lemma_list_rounds(
        self,
        w: W,
        list: RawObject,
        index: usize,
        by_index: bool,
        collected: Seq<T>,
        rounds: nat,
        fuel: nat,
    )
        requires
            self.wf(),
            index <= isize::MAX,
        ensures
            ({
                let run = self.run(list_round(list, index, by_index, collected), w, fuel);
                let source = self.list_source(list);
                let expected = self.collect(source, w, index as nat, collected, rounds);
                ends_as(run, expected, fuel, 3 * rounds, rounds)
            }),
        decreases rounds,
    {
        reveal_with_fuel(Objects::run, 4);
        let items = (self.list_items)(w, list);
        if rounds > 0 && fuel >= 3 && index < items.len() {
            let (then, value) = (self.extract)(w, items[index as int]);
            if let Ok(value) = value {
                self.lemma_list_rounds(
                    then,
                    list,
                    (index + 1) as usize,
                    by_index,
                    collected.push(value),
                    (rounds - 1) as nat,
                    (fuel - 3) as nat,
                );
            }
        }
    }

    /// The rounds over an iterator collect its items.
    proof fn lemma_iter_rounds(
        self,
        w: W,
        iter: RawObject,
        by_index: bool,
        collected: Seq<T>,
        rounds: nat,
        fuel: nat,
    )
        ensures
            ({
                let run = self.run(iter_round(iter, by_index, collected), w, fuel);
                let source = self.iter_source(iter);
                let expected = self.collect(source, w, (), collected, rounds);
                ends_as(run, expected, fuel, 2 * rounds, rounds)
            }),
        decreases rounds,
    {
        reveal_with_fuel(Objects::run, 3);
        if rounds > 0 && fuel >= 2 {
            let (next, item) = (self.next)(w, iter);
            if let Some(Ok(item)) = item {
                let (then, value) = (self.extract)(next, item.raw());
                if let Ok(value) = value {
                    self.lemma_iter_rounds(
                        then,
                        iter,
                        by_index,
                        collected.push(value),
                        (rounds - 1) as nat,
                        (fuel - 2) as nat,
                    );
                }
            }
        }
    }
}

/// By the iterator protocol, the extraction gives the elements in the items of
/// the iterator, in order, or the first error.
pub proof fn law_extract_sequence<'py, W, T>(
    objects: Objects<'py, W, T>,
    w: W,
    obj: RawObject,
    by_index: bool,
    rounds: nat,
    fuel: nat,
)
    ensures
        ends_as(
            objects.run(plan_sequence(obj, by_index), w, fuel),
            objects.by_iterator(w, obj, rounds),
            fuel,
            2 * rounds + 3,
            rounds,
        ),
{
    reveal_with_fuel(Objects::run, 4);
    if (objects.is_sequence)(w, obj) && fuel >= 3 {
        let (asked, _) = (objects.len)(w, obj);
        let (begun, iter) = (objects.iter)(asked, obj);
        if let Ok(iter) = iter {
            objects.lemma_iter_rounds(
                begun,
                iter.raw(),
                by_index,
                Seq::empty(),
                rounds,
                (fuel - 3) as nat,
            );
        }
    }
}

/// The extraction gives the elements of the object: at once where the element
/// type has them at once, else never of a `str`, else of a tuple's items, else
/// of a list's items as the list is at the time, else by the iterator protocol.
pub proof fn law_extract<'py, W, T>(
    objects: Objects<'py, W, T>,
    w: W,
    obj: RawObject,
    by_index: bool,
    rounds: nat,
    fuel: nat,
)
    requires
        objects.wf(),
    ensures
        ends_as(
            objects.run(plan_extract(obj, by_index), w, fuel),
            objects.elements(w, obj, by_index, rounds),
            fuel,
            3 * rounds + 7,
            rounds,
        ),
{
    reveal_with_fuel(Objects::run, 6);
    let none = Seq::<T>::empty();
    if fuel >= 3 {
        law_extract_sequence(objects, w, obj, by_index, rounds, (fuel - 3) as nat);
    }
    if fuel >= 4 {
        law_extract_sequence(objects, w, obj, by_index, rounds, (fuel - 4) as nat);
        objects.lemma_tuple_rounds(w, obj, 0, by_index, none, rounds, (fuel - 4) as nat);
    }
    if fuel >= 5 {
        objects.lemma_list_rounds(w, obj, 0, by_index, none, rounds, (fuel - 5) as nat);
    }
}

/// An element type that has all the elements at once is asked once, and nothing
/// else is: not even whether the object is a `str`.
pub proof fn law_whole_sequence_wins<'py, W, T>(
    objects: Objects<'py, W, T>,
    w: W,
    obj: RawObject,
    by_index: bool,
    fuel: nat,
)
    requires
        (objects.whole)(w, obj) is Some,
        fuel >= 1,
    ensures
        ({
            let run = objects.run(plan_extract(obj, by_index), w, fuel);
            &&& run.outcome == Some(Ok::<_, PyErr>((objects.whole)(w, obj)->0))
            &&& run.world == w
            &&& run.trace == seq![ExtractRequest::SequenceExtractor { obj }]
        }),
{
    reveal_with_fuel(Objects::run, 2);
}

/// A `str` is refused before anything in it is looked at.
pub proof fn law_str_is_refused<'py, W, T>(
    objects: Objects<'py, W, T>,
    w: W,
    obj: RawObject,
    by_index: bool,
    fuel: nat,
)
    requires
        (objects.whole)(w, obj) is None,
        (objects.is_str)(w, obj),
        fuel >= 2,
    ensures
        ({
            let run = objects.run(plan_extract(obj, by_index), w, fuel);
            &&& run.outcome == Some(Err::<Seq<T>, _>(PyErr::TypeError(STR_MESSAGE)))
            &&& run.world == w
            &&& run.trace == seq![
                ExtractRequest::SequenceExtractor { obj },
                ExtractRequest::IsStr { obj },
            ]
        }),
{
    reveal_with_fuel(Objects::run, 3);
}

/// What the iterator protocol asks.
pub open spec fn asks_an_iterator(request: ExtractRequest) -> bool {
    request is TryIter || request is NextItem
}

/// What reading by index asks.
pub open spec fn asks_by_index(request: ExtractRequest) -> bool {
    request is TupleItem || request is ListItem
}

/// No question of the trace is one that `unwanted` holds of.
pub open spec fn avoids(
    trace: Seq<ExtractRequest>,
    unwanted: spec_fn(ExtractRequest) -> bool,
) -> bool {
    forall|i: int| 0 <= i < trace.len() ==> !unwanted(#[trigger] trace[i])
}

/// The states of reading by index.
spec fn reads_by_index(state: ExtractState) -> bool {
    ||| state is TupleLen
    ||| state is TupleItem
    ||| state is TupleValue
    ||| state is ListRoom
    ||| state is ListLen
    ||| state is ListItem
    ||| state is ListValue
}

/// The states of the iterator protocol.
spec fn reads_by_iterator(state: ExtractState) -> bool {
    ||| state is Sequence
    ||| state is SequenceRoom
    ||| state is Iter
    ||| state is Next
    ||| state is IterValue
}

impl<'py, W, T> Objects<'py, W, T> {
    /// A trace avoids what its first question and the rest avoid.
    proof fn lemma_avoids(
        self,
        request: ExtractRequest,
        state: Extraction<T>,
        w: W,
        fuel: nat,
        unwanted: spec_fn(ExtractRequest) -> bool,
    )
        requires
            !unwanted(request),
            fuel > 0 ==> {
                let (next, reply) = self.answer(w, request);
                avoids(self.run(state.after(reply), next, (fuel - 1) as nat).trace, unwanted)
            },
        ensures
            avoids(self.run(Step::Ask(request, state), w, fuel).trace, unwanted),
    {
        if fuel > 0 {
            let (next, reply) = self.answer(w, request);
            let rest = self.run(state.after(reply), next, (fuel - 1) as nat);
            let trace = self.run(Step::Ask(request, state), w, fuel).trace;
            assert(trace == seq![request] + rest.trace);
            assert forall|i: int| 0 <= i < trace.len() implies !unwanted(#[trigger] trace[i]) by {
                if i > 0 {
                    assert(trace[i] == rest.trace[i - 1]);
                }
            }
        }
    }

    /// Reading by index goes on by index.
    proof fn lemma_index_makes_no_iterator(self, step: ExtractModel<T>, w: W, fuel: nat)
        requires
            step matches Step::Ask(request, state) ==> reads_by_index(state.state)
                && !asks_an_iterator(request),
        ensures
            avoids(self.run(step, w, fuel).trace, |r: ExtractRequest| asks_an_iterator(r)),
        decreases fuel,
    {
        if let Step::Ask(request, state) = step {
            if fuel > 0 {
                let (next, reply) = self.answer(w, request);
                self.lemma_index_makes_no_iterator(state.after(reply), next, (fuel - 1) as nat);
            }
            self.lemma_avoids(request, state, w, fuel, |r: ExtractRequest| asks_an_iterator(r));
        }
    }

    /// Reading by the iterator goes on by the iterator.
    proof fn lemma_iterator_reads_no_index(self, step: ExtractModel<T>, w: W, fuel: nat)
        requires
            step matches Step::Ask(request, state) ==> reads_by_iterator(state.state)
                && !asks_by_index(request),
        ensures
            avoids(self.run(step, w, fuel).trace, |r: ExtractRequest| asks_by_index(r)),
        decreases fuel,
    {
        if let Step::Ask(request, state) = step {
            if fuel > 0 {
                let (next, reply) = self.answer(w, request);
                self.lemma_iterator_reads_no_index(state.after(reply), next, (fuel - 1) as nat);
            }
            self.lemma_avoids(request, state, w, fuel, |r: ExtractRequest| asks_by_index(r));
        }
    }

    /// `obj` is read item by item, and not by an iterator.
    pub open spec fn is_read_by_index(self, w: W, obj: RawObject, by_index: bool) -> bool {
        (self.is_exact_tuple)(w, obj) || by_index && (self.is_exact_list)(w, obj)
    }

    /// The run from one of the questions that tell what `obj` is.
    proof fn lemma_route(
        self,
        state: ExtractState,
        obj: RawObject,
        by_index: bool,
        w: W,
        fuel: nat,
    )
        requires
            (self.whole)(w, obj) is None,
            !(self.is_str)(w, obj),
            ({
                ||| state == (ExtractState::Whole { obj })
                ||| state == (ExtractState::Str { obj })
                ||| state == (ExtractState::ExactTuple { obj })
                ||| state == (ExtractState::ExactList { obj }) && by_index && !(
                self.is_exact_tuple)(w, obj)
            }),
        ensures
            ({
                let trace = self.run(ask(state, by_index, Seq::empty()), w, fuel).trace;
                if self.is_read_by_index(w, obj, by_index) {
                    avoids(trace, |r: ExtractRequest| asks_an_iterator(r))
                } else {
                    avoids(trace, |r: ExtractRequest| asks_by_index(r))
                }
            }),
        decreases fuel,
    {
        let start = Extraction { state, by_index, collected: Seq::<T>::empty() };
        if fuel > 0 {
            let (next, reply) = self.answer(w, state.request());
            let rest = (fuel - 1) as nat;
            let step = start.after(reply);
            if let Step::Ask(_, then) = step {
                if reads_by_index(then.state) {
                    self.lemma_index_makes_no_iterator(step, w, rest);
                } else if reads_by_iterator(then.state) {
                    self.lemma_iterator_reads_no_index(step, w, rest);
                } else {
                    self.lemma_route(then.state, obj, by_index, w, rest);
                }
            }
        }
        let request = state.request();
        if self.is_read_by_index(w, obj, by_index) {
            self.lemma_avoids(request, start, w, fuel, |r: ExtractRequest| asks_an_iterator(r));
        } else {
            self.lemma_avoids(request, start, w, fuel, |r: ExtractRequest| asks_by_index(r));
        }
    }
}

/// A tuple, and a list where lists are read by index, is read without an
/// iterator. Anything else, such as a subclass with an `__iter__` of its own, is
/// read by its iterator alone.
pub proof fn law_only_exact_types_are_read_by_index<'py, W, T>(
    objects: Objects<'py, W, T>,
    w: W,
    obj: RawObject,
    by_index: bool,
    fuel: nat,
)
    requires
        (objects.whole)(w, obj) is None,
        !(objects.is_str)(w, obj),
    ensures
        ({
            let trace = objects.run(plan_extract(obj, by_index), w, fuel).trace;
            if objects.is_read_by_index(w, obj, by_index) {
                avoids(trace, |r: ExtractRequest| asks_an_iterator(r))
            } else {
                avoids(trace, |r: ExtractRequest| asks_by_index(r))
            }
        }),
{
    objects.lemma_route(ExtractState::Whole { obj }, obj, by_index, w, fuel);
}

impl<'py, W, T> Objects<'py, W, T> {
    /// The elements in `items`, in order, behind those that are there already;
    /// the first error ends it.
    pub open spec fn each(self, w: W, items: Seq<RawObject>, collected: Seq<T>) -> (W, PyResult<
        Seq<T>,
    >)
        decreases items.len(),
    {
        if items.len() == 0 {
            (w, Ok(collected))
        } else {
            let (then, value) = (self.extract)(w, items[0]);
            match value {
                Ok(value) => self.each(then, items.skip(1), collected.push(value)),
                Err(error) => (then, Err(error)),
            }
        }
    }

    /// Extracting an item does not change the list.
    pub open spec fn keeps(self, list: RawObject) -> bool {
        forall|w: W, item: RawObject|
            (self.list_items)((#[trigger] (self.extract)(w, item)).0, list) == (self.list_items)(
                w,
                list,
            )
    }

    /// A tuple gives each of its items.
    proof fn lemma_tuple_gives_each(
        self,
        w: W,
        tuple: RawObject,
        index: nat,
        collected: Seq<T>,
        rounds: nat,
    )
        requires
            index <= (self.tuple_items)(tuple).len(),
            rounds > (self.tuple_items)(tuple).len() - index,
        ensures
            self.collect(self.tuple_source(tuple), w, index, collected, rounds) == Some(
                self.each(w, (self.tuple_items)(tuple).skip(index as int), collected),
            ),
        decreases rounds,
    {
        let items = (self.tuple_items)(tuple);
        if index < items.len() {
            let (then, value) = (self.extract)(w, items[index as int]);
            assert(items.skip(index as int).skip(1) =~= items.skip(index as int + 1));
            if let Ok(value) = value {
                self.lemma_tuple_gives_each(
                    then,
                    tuple,
                    index + 1,
                    collected.push(value),
                    (rounds - 1) as nat,
                );
            }
        }
    }

    /// A list that is not changed meanwhile gives each of its items.
    proof fn lemma_kept_list_gives_each(
        self,
        w: W,
        list: RawObject,
        index: nat,
        collected: Seq<T>,
        rounds: nat,
    )
        requires
            self.keeps(list),
            index <= (self.list_items)(w, list).len(),
            rounds > (self.list_items)(w, list).len() - index,
        ensures
            self.collect(self.list_source(list), w, index, collected, rounds) == Some(
                self.each(w, (self.list_items)(w, list).skip(index as int), collected),
            ),
        decreases rounds,
    {
        let items = (self.list_items)(w, list);
        if index < items.len() {
            let (then, value) = (self.extract)(w, items[index as int]);
            assert(items.skip(index as int).skip(1) =~= items.skip(index as int + 1));
            assert((self.list_items)(then, list) == items);
            if let Ok(value) = value {
                self.lemma_kept_list_gives_each(
                    then,
                    list,
                    index + 1,
                    collected.push(value),
                    (rounds - 1) as nat,
                );
            }
        }
    }

    /// If none fails there is one element for each item.
    proof fn lemma_each_counts(self, w: W, items: Seq<RawObject>, collected: Seq<T>)
        ensures
            self.each(w, items, collected).1 matches Ok(all) ==> all.len() == collected.len()
                + items.len(),
        decreases items.len(),
    {
        if items.len() > 0 {
            let (then, value) = (self.extract)(w, items[0]);
            if let Ok(value) = value {
                self.lemma_each_counts(then, items.skip(1), collected.push(value));
            }
        }
    }
}

/// The questions that reading `count` items needs at most.
pub open spec fn enough_for(count: nat) -> nat {
    3 * (count + 1) + 7
}

/// From a tuple come the elements in all of its items, in order: as many as
/// there are items, or else the first error.
pub proof fn law_tuple_gives_each_item<'py, W, T>(
    objects: Objects<'py, W, T>,
    w: W,
    obj: RawObject,
    by_index: bool,
    fuel: nat,
)
    requires
        objects.wf(),
        (objects.whole)(w, obj) is None,
        !(objects.is_str)(w, obj),
        (objects.is_exact_tuple)(w, obj),
        fuel >= enough_for((objects.tuple_items)(obj).len()),
    ensures
        ({
            let items = (objects.tuple_items)(obj);
            let run = objects.run(plan_extract(obj, by_index), w, fuel);
            &&& run.outcome is Some
            &&& (run.world, run.outcome->0) == objects.each(w, items, Seq::empty())
            &&& run.outcome->0 matches Ok(all) ==> all.len() == items.len()
        }),
{
    let items = (objects.tuple_items)(obj);
    let rounds = items.len() + 1;
    objects.lemma_tuple_gives_each(w, obj, 0, Seq::empty(), rounds);
    objects.lemma_each_counts(w, items, Seq::empty());
    assert(items.skip(0) =~= items);
    law_extract(objects, w, obj, by_index, rounds, fuel);
}

/// From a list that is not changed meanwhile come the elements in all of its
/// items, in order: as many as there are items, or else the first error.
pub proof fn law_kept_list_gives_each_item<'py, W, T>(
    objects: Objects<'py, W, T>,
    w: W,
    obj: RawObject,
    fuel: nat,
)
    requires
        objects.wf(),
        (objects.whole)(w, obj) is None,
        !(objects.is_str)(w, obj),
        !(objects.is_exact_tuple)(w, obj),
        (objects.is_exact_list)(w, obj),
        objects.keeps(obj),
        fuel >= enough_for((objects.list_items)(w, obj).len()),
    ensures
        ({
            let items = (objects.list_items)(w, obj);
            let run = objects.run(plan_extract(obj, true), w, fuel);
            &&& run.outcome is Some
            &&& (run.world, run.outcome->0) == objects.each(w, items, Seq::empty())
            &&& run.outcome->0 matches Ok(all) ==> all.len() == items.len()
        }),
{
    let items = (objects.list_items)(w, obj);
    let rounds = items.len() + 1;
    objects.lemma_kept_list_gives_each(w, obj, 0, Seq::empty(), rounds);
    objects.lemma_each_counts(w, items, Seq::empty());
    assert(items.skip(0) =~= items);
    law_extract(objects, w, obj, true, rounds, fuel);
}

/// A list and a tuple with the same items give the same, if the list is not
/// changed meanwhile.
pub proof fn law_list_and_tuple_agree<'py, W, T>(
    objects: Objects<'py, W, T>,
    w: W,
    list: RawObject,
    tuple: RawObject,
    fuel: nat,
)
    requires
        objects.wf(),
        (objects.whole)(w, list) is None,
        (objects.whole)(w, tuple) is None,
        !(objects.is_str)(w, list),
        !(objects.is_str)(w, tuple),
        !(objects.is_exact_tuple)(w, list),
        (objects.is_exact_list)(w, list),
        (objects.is_exact_tuple)(w, tuple),
        objects.keeps(list),
        (objects.list_items)(w, list) == (objects.tuple_items)(tuple),
        fuel >= enough_for((objects.tuple_items)(tuple).len()),
    ensures
        ({
            let left = objects.run(plan_extract(list, true), w, fuel);
            let right = objects.run(plan_extract(tuple, true), w, fuel);
            left.outcome == right.outcome && left.world == right.world
        }),
{
    law_kept_list_gives_each_item(objects, w, list, fuel);
    law_tuple_gives_each_item(objects, w, tuple, true, fuel);
}

/// `iter` gives what `source` gives, as far as the extraction can tell: `same`
/// holds between the states of an interpreter where `index` items were read from
/// `source` and of one where they came out of `iter`.
pub open spec fn iterates<'py, W, T>(
    objects: Objects<'py, W, T>,
    source: Source<W, nat>,
    iter: RawObject,
    same: spec_fn(W, W, nat) -> bool,
) -> bool {
    forall|w: W, v: W, index: nat| #[trigger]
        same(w, v, index) ==> {
            let (read, rest, here) = source(w, index);
            let (next, item) = (objects.next)(v, iter);
            match here {
                None => item is None,
                Some(Err(_)) => false,
                Some(Ok(here)) => {
                    let (by_index, left) = (objects.extract)(read, here);
                    let (by_iter, right) = (objects.extract)(next, here);
                    &&& item matches Some(Ok(item)) && item.raw() == here
                    &&& left == right
                    &&& left is Ok ==> same(by_index, by_iter, rest)
                },
            }
        }
}

impl<'py, W, T> Objects<'py, W, T> {
    /// `obj` is a sequence whose iterator gives what `source` gives.
    pub open spec fn has_iterator_like(
        self,
        w: W,
        obj: RawObject,
        source: Source<W, nat>,
        same: spec_fn(W, W, nat) -> bool,
    ) -> bool {
        let (begun, iter) = (self.iter)((self.len)(w, obj).0, obj);
        &&& (self.is_sequence)(w, obj)
        &&& iter matches Ok(iter) && iterates(self, source, iter.raw(), same)
        &&& same(w, begun, 0)
    }

    /// Round for round, `source` gives what its iterator gives.
    proof fn lemma_source_follows_iterator(
        self,
        w: W,
        v: W,
        source: Source<W, nat>,
        iter: RawObject,
        same: spec_fn(W, W, nat) -> bool,
        index: nat,
        collected: Seq<T>,
        rounds: nat,
    )
        requires
            iterates(self, source, iter, same),
            same(w, v, index),
        ensures
            ({
                let left = self.collect(source, w, index, collected, rounds);
                let right = self.collect(self.iter_source(iter), v, (), collected, rounds);
                &&& left is Some <==> right is Some
                &&& left is Some ==> (left->0).1 == (right->0).1
            }),
        decreases rounds,
    {
        if rounds > 0 {
            let (read, rest, here) = source(w, index);
            let (next, item) = (self.next)(v, iter);
            if let Some(Ok(here)) = here {
                let (by_index, left) = (self.extract)(read, here);
                let (by_iter, right) = (self.extract)(next, here);
                if let Ok(value) = left {
                    self.lemma_source_follows_iterator(
                        by_index,
                        by_iter,
                        source,
                        iter,
                        same,
                        rest,
                        collected.push(value),
                        (rounds - 1) as nat,
                    );
                }
            }
        }
    }
}

/// Reading a list by index matches the iterator protocol, even while the list
/// changes: both end or neither does, with the same outcome.
pub proof fn law_list_by_index_follows_its_iterator<'py, W, T>(
    objects: Objects<'py, W, T>,
    w: W,
    obj: RawObject,
    same: spec_fn(W, W, nat) -> bool,
    rounds: nat,
)
    requires
        (objects.is_exact_list)(w, obj),
        objects.has_iterator_like(w, obj, objects.list_source(obj), same),
    ensures
        ({
            let left = objects.elements(w, obj, true, rounds);
            let right = objects.elements(w, obj, false, rounds);
            &&& left is Some <==> right is Some
            &&& left is Some ==> (left->0).1 == (right->0).1
        }),
{
    let (begun, iter) = (objects.iter)((objects.len)(w, obj).0, obj);
    objects.lemma_source_follows_iterator(
        w,
        begun,
        objects.list_source(obj),
        iter->Ok_0.raw(),
        same,
        0,
        Seq::empty(),
        rounds,
    );
}

/// Reading a tuple item by item matches the iterator protocol: both end or
/// neither does, with the same outcome.
pub proof fn law_tuple_by_item_follows_its_iterator<'py, W, T>(
    objects: Objects<'py, W, T>,
    w: W,
    obj: RawObject,
    by_index: bool,
    same: spec_fn(W, W, nat) -> bool,
    rounds: nat,
)
    requires
        (objects.whole)(w, obj) is None,
        !(objects.is_str)(w, obj),
        (objects.is_exact_tuple)(w, obj),
        objects.has_iterator_like(w, obj, objects.tuple_source(obj), same),
    ensures
        ({
            let left = objects.elements(w, obj, by_index, rounds);
            let right = objects.by_iterator(w, obj, rounds);
            &&& left is Some <==> right is Some
            &&& left is Some ==> (left->0).1 == (right->0).1
        }),
{
    let (begun, iter) = (objects.iter)((objects.len)(w, obj).0, obj);
    objects.lemma_source_follows_iterator(
        w,
        begun,
        objects.tuple_source(obj),
        iter->Ok_0.raw(),
        same,
        0,
        Seq::empty(),
        rounds,
    );
}

impl<'py, W, T> Objects<'py, W, T> {
    /// `obj` is a `list` and nothing else.
    pub open spec fn is_plain_list(self, w: W, obj: RawObject) -> bool {
        &&& (self.whole)(w, obj) is None
        &&& !(self.is_str)(w, obj)
        &&& !(self.is_exact_tuple)(w, obj)
        &&& (self.is_exact_list)(w, obj)
    }

    /// The state of the interpreter once the first `count` of `items` have been
    /// extracted in turn.
    pub open spec fn reading(self, w: W, items: Seq<RawObject>, count: nat) -> W
        decreases count,
    {
        if count == 0 {
            w
        } else {
            let index = (count - 1) as nat;
            (self.extract)(self.reading(w, items, index), items[index as int]).0
        }
    }

    /// `values` come out of the items of `list` in turn, which leaves the list as
    /// it is.
    pub open spec fn holds(self, w: W, list: RawObject, values: Seq<T>) -> bool {
        let items = (self.list_items)(w, list);
        &&& items.len() == values.len()
        &&& forall|i: nat|
            i < values.len() ==> {
                let before = #[trigger] self.reading(w, items, i);
                &&& (self.extract)(before, items[i as int]).1 == Ok::<T, PyErr>(values[i as int])
                &&& (self.list_items)(self.reading(w, items, i + 1), list) == items
            }
    }

    /// From `index` on, the list gives the rest of `values`.
    proof fn lemma_list_collects(self, w: W, list: RawObject, values: Seq<T>, index: nat)
        requires
            self.holds(w, list, values),
            index <= values.len(),
        ensures
            ({
                let items = (self.list_items)(w, list);
                self.collect(
                    self.list_source(list),
                    self.reading(w, items, index),
                    index,
                    values.take(index as int),
                    (values.len() - index + 1) as nat,
                ) == Some((self.reading(w, items, values.len()), Ok::<_, PyErr>(values)))
            }),
        decreases values.len() - index,
    {
        let items = (self.list_items)(w, list);
        let now = self.reading(w, items, index);
        assert((self.list_items)(now, list) == items) by {
            if index > 0 {
                let before = self.reading(w, items, (index - 1) as nat);
            }
        }
        if index < values.len() {
            let more = values.take(index as int).push(values[index as int]);
            assert(more =~= values.take(index as int + 1));
            assert(self.reading(w, items, index + 1) == (self.extract)(
                now,
                items[index as int],
            ).0);
            self.lemma_list_collects(w, list, values, index + 1);
        } else {
            assert(values.take(index as int) =~= values);
        }
    }
}

/// The values that a list holds come out of it, by index or, where lists are not
/// read by index, by the list's own iterator.
pub proof fn law_list_gives_what_it_holds<'py, W, T>(
    objects: Objects<'py, W, T>,
    w: W,
    obj: RawObject,
    values: Seq<T>,
    by_index: bool,
    same: spec_fn(W, W, nat) -> bool,
    fuel: nat,
)
    requires
        objects.wf(),
        objects.is_plain_list(w, obj),
        objects.holds(w, obj, values),
        by_index || objects.has_iterator_like(w, obj, objects.list_source(obj), same),
        fuel >= enough_for(values.len()),
    ensures
        ({
            let run = objects.run(plan_extract(obj, by_index), w, fuel);
            let items = (objects.list_items)(w, obj);
            &&& run.outcome == Some(Ok::<_, PyErr>(values))
            &&& by_index ==> run.world == objects.reading(w, items, values.len())
        }),
{
    let rounds = values.len() + 1;
    objects.lemma_list_collects(w, obj, values, 0);
    assert(values.take(0) =~= Seq::empty());
    law_extract(objects, w, obj, by_index, rounds, fuel);
    if !by_index {
        law_list_by_index_follows_its_iterator(objects, w, obj, same, rounds);
    }
}

/// An error while an item is read ends the extraction with that error.
pub proof fn law_first_error_is_the_outcome<'py, T>(
    extraction: Extraction<T>,
    reply: ExtractReply<'py, T, Seq<T>>,
    error: PyErr,
)
    requires
        extraction.wf(),
        extraction.accepts(reply),
        ({
            ||| reply == ExtractReply::<'py, T, Seq<T>>::Value(Err(error))
            ||| reply == ExtractReply::<'py, T, Seq<T>>::Object(Err(error))
            ||| reply == ExtractReply::<'py, T, Seq<T>>::Next(Some(Err(error)))
        }),
    ensures
        extraction.after(reply) == ExtractModel::<T>::Done(Err(error)),
{
}

/// In every state of an extraction the indices count the elements so far; that of
/// a tuple is below its length, and that of a list can be counted on.
pub proof fn law_indices_count_the_elements<'py, T>(
    obj: RawObject,
    by_index: bool,
    extraction: Extraction<T>,
    reply: ExtractReply<'py, T, Seq<T>>,
)
    requires
        extraction.wf(),
        extraction.accepts(reply),
    ensures
        plan_extract::<T>(obj, by_index)->Ask_1.wf(),
        plan_sequence::<T>(obj, by_index)->Ask_1.wf(),
        extraction.after(reply) matches Step::Ask(_, next) ==> next.wf(),
{
}

impl<'py, W, T> Objects<'py, W, T> {
    /// An item that `request` reads is there.
    pub open spec fn has_the_item(self, w: W, request: ExtractRequest) -> bool {
        match request {
            ExtractRequest::TupleItem { tuple, index } => {
                index < (self.tuple_items)(tuple).len()
            },
            ExtractRequest::ListItem { list, index } => index < (self.list_items)(w, list).len(),
            _ => true,
        }
    }

    /// `step` asks what its state waits for, and knows the length of what it
    /// reads.
    pub open spec fn knows_the_length(self, step: ExtractModel<T>, w: W) -> bool {
        step matches Step::Ask(request, extraction) ==> {
            &&& request == extraction.state.request()
            &&& extraction.wf()
            &&& match extraction.state {
                ExtractState::TupleItem { tuple, len, .. } => {
                    len == (self.tuple_items)(tuple).len()
                },
                ExtractState::TupleValue { tuple, len, .. } => {
                    len == (self.tuple_items)(tuple).len()
                },
                ExtractState::ListItem { list, index } => {
                    index < (self.list_items)(w, list).len()
                },
                _ => true,
            }
        }
    }

    /// From a step that knows the length, every item that is read is there.
    proof fn lemma_items_are_there(self, step: ExtractModel<T>, w: W, fuel: nat)
        requires
            self.wf(),
            self.knows_the_length(step, w),
        ensures
            ({
                let run = self.run(step, w, fuel);
                &&& run.asked_in.len() == run.trace.len()
                &&& forall|i: int|
                    0 <= i < run.trace.len() ==> self.has_the_item(
                        run.asked_in[i],
                        #[trigger] run.trace[i],
                    )
            }),
        decreases fuel,
    {
        if let Step::Ask(request, extraction) = step {
            if fuel > 0 {
                let (next, reply) = self.answer(w, request);
                let then = extraction.after(reply);
                assert(self.knows_the_length(then, next));
                self.lemma_items_are_there(then, next, (fuel - 1) as nat);
                let rest = self.run(then, next, (fuel - 1) as nat);
                let run = self.run(step, w, fuel);
                assert(run.trace == seq![request] + rest.trace);
                assert(run.asked_in == seq![w] + rest.asked_in);
                assert forall|i: int| 0 <= i < run.trace.len() implies self.has_the_item(
                    run.asked_in[i],
                    #[trigger] run.trace[i],
                ) by {
                    if i > 0 {
                        assert(run.trace[i] == rest.trace[i - 1]);
                        assert(run.asked_in[i] == rest.asked_in[i - 1]);
                    }
                }
            }
        }
    }
}

/// Every item that an extraction reads by index is there when it is read: the
/// index is below the length that the tuple, or the list, has then.
pub proof fn law_items_are_read_in_bounds<'py, W, T>(
    objects: Objects<'py, W, T>,
    w: W,
    obj: RawObject,
    by_index: bool,
    fuel: nat,
)
    requires
        objects.wf(),
    ensures
        ({
            let run = objects.run(plan_extract(obj, by_index), w, fuel);
            &&& run.asked_in.len() == run.trace.len()
            &&& forall|i: int|
                0 <= i < run.trace.len() ==> objects.has_the_item(
                    run.asked_in[i],
                    #[trigger] run.trace[i],
                )
        }),
{
    objects.lemma_items_are_there(plan_extract(obj, by_index), w, fuel);
}

} // verus!
