//! The questions that the extraction of a `Vec` asks, one by one, and what each way
//! through them ends with.
//!
//! The laws tell a reading by what the interpreter does in each round: `states` are
//! its states before each round and after the last one that went well, `values` are
//! the elements of the rounds that went well.

use crate::config::Build;
use crate::err::{CastError, CastTarget, PyErr, PyResult};
use crate::handle::{Bound, PyAny, RawObject};
use crate::step::Step;
use crate::vec::{
    iter_round, list_round, plan_extract, plan_sequence, tuple_round, ExtractModel,
    ExtractRequest,
};
use crate::vec_laws::{ExtractRun, Objects};
use vstd::prelude::*;

verus! {

/// `run` asked `trace`, left the interpreter in `world` and ended with `outcome`.
pub open spec fn ended<W, T>(
    run: ExtractRun<W, T>,
    trace: Seq<ExtractRequest>,
    world: W,
    outcome: PyResult<Seq<T>>,
) -> bool {
    &&& run.trace == trace
    &&& run.world == world
    &&& run.outcome == Some(outcome)
}

/// `run` begins with the questions `first` and then goes on as `rest`.
pub open spec fn goes_on_as<W, T>(
    run: ExtractRun<W, T>,
    first: Seq<ExtractRequest>,
    rest: ExtractRun<W, T>,
) -> bool {
    &&& run.trace == first + rest.trace
    &&& run.world == rest.world
    &&& run.outcome == rest.outcome
}

impl<'py, W, T> Objects<'py, W, T> {
    /// A run with more fuel goes on where one with less stopped.
    proof fn lemma_longer_run(self, step: ExtractModel<T>, w: W, short: nat, long: nat)
        requires
            short <= long,
        ensures
            ({
                let (left, right) = (self.run(step, w, short), self.run(step, w, long));
                &&& left.trace.len() <= right.trace.len()
                &&& left.trace == right.trace.take(left.trace.len() as int)
                &&& left.outcome is Some ==> left == right
                &&& left.outcome is None ==> left.trace.len() == short
            }),
        decreases short,
    {
        let (left, right) = (self.run(step, w, short), self.run(step, w, long));
        if let Step::Ask(request, state) = step {
            if short > 0 {
                let (next, reply) = self.answer(w, request);
                let then = state.after(reply);
                let (less, more) = ((short - 1) as nat, (long - 1) as nat);
                self.lemma_longer_run(then, next, less, more);
                let (a, b) = (self.run(then, next, less), self.run(then, next, more));
                assert(left.trace == seq![request] + a.trace);
                assert(right.trace == seq![request] + b.trace);
                assert forall|i: int| 0 <= i < left.trace.len() implies left.trace[i]
                    == right.trace[i] by {
                    if i > 0 {
                        assert(left.trace[i] == a.trace[i - 1]);
                        assert(right.trace[i] == b.trace[i - 1]);
                        assert(a.trace[i - 1] == b.trace.take(a.trace.len() as int)[i - 1]);
                    }
                }
            }
        }
        assert(left.trace =~= right.trace.take(left.trace.len() as int));
    }
}

/// A run goes on where a shorter one stopped: it asks the same first, and what was
/// done stays done. One that is not done asked as often as it could.
pub proof fn law_longer_extraction_goes_on<'py, W, T>(
    objects: Objects<'py, W, T>,
    w: W,
    step: ExtractModel<T>,
    short: nat,
    long: nat,
)
    requires
        short <= long,
    ensures
        ({
            let left = objects.run(step, w, short);
            let right = objects.run(step, w, long);
            &&& left.trace.len() <= right.trace.len()
            &&& left.trace == right.trace.take(left.trace.len() as int)
            &&& left.outcome is Some ==> left == right
            &&& left.outcome is None ==> left.trace.len() == short
        }),
{
    objects.lemma_longer_run(step, w, short, long);
}

/// A `str`, or what is of a subclass, is refused with a message that says so, even if
/// it is a sequence too; after that nothing is asked.
pub proof fn law_str_is_refused_with_its_message<'py, W, T>(
    objects: Objects<'py, W, T>,
    w: W,
    obj: RawObject,
    by_index: bool,
    fuel: nat,
)
    requires
        (objects.whole)(w, obj) is None,
        (objects.is_str)(w, obj),
        fuel >= 2,
    ensures
        ({
            let run = objects.run(plan_extract(obj, by_index), w, fuel);
            &&& run.trace == seq![
                ExtractRequest::SequenceExtractor { obj },
                ExtractRequest::IsStr { obj },
            ]
            &&& run.world == w
            &&& run.outcome matches Some(Err(PyErr::TypeError(message))) && message@
                == "Can't extract `str` to `Vec`"@
        }),
{
    reveal_with_fuel(Objects::run, 3);
}

/// What is no sequence is refused, by the one question whether it is one. Neither its
/// length nor its iterator is asked for.
pub proof fn law_no_sequence_is_refused<'py, W, T>(
    objects: Objects<'py, W, T>,
    w: W,
    obj: RawObject,
    by_index: bool,
    fuel: nat,
)
    requires
        !(objects.is_sequence)(w, obj),
        fuel >= 1,
    ensures
        ended(
            objects.run(plan_sequence(obj, by_index), w, fuel),
            seq![ExtractRequest::IsSequence { obj }],
            w,
            Err(PyErr::Cast(CastError { from: obj, to: CastTarget::Sequence })),
        ),
{
    reveal_with_fuel(Objects::run, 2);
}

/// What is neither a `str`, nor a tuple, nor a list, nor any other sequence, such as a
/// `set` or a `dict`, is refused though it may have a length and an iterator: only
/// what it is was asked, however far the extraction got.
pub proof fn law_only_sequences_are_extracted<'py, W, T>(
    objects: Objects<'py, W, T>,
    w: W,
    obj: RawObject,
    by_index: bool,
    fuel: nat,
)
    requires
        (objects.whole)(w, obj) is None,
        !(objects.is_str)(w, obj),
        !(objects.is_exact_tuple)(w, obj),
        !(by_index && (objects.is_exact_list)(w, obj)),
        !(objects.is_sequence)(w, obj),
    ensures
        ({
            let run = objects.run(plan_extract(obj, by_index), w, fuel);
            &&& run.world == w
            &&& fuel >= 5 ==> run.outcome == Some(
                Err::<Seq<T>, _>(
                    PyErr::Cast(CastError { from: obj, to: CastTarget::Sequence }),
                ),
            )
            &&& run.outcome is None || run.outcome->0 is Err
            &&& forall|i: int|
                0 <= i < run.trace.len() ==> {
                    let request = #[trigger] run.trace[i];
                    ||| request == (ExtractRequest::SequenceExtractor { obj })
                    ||| request == (ExtractRequest::IsStr { obj })
                    ||| request == (ExtractRequest::IsExactTuple { obj })
                    ||| request == (ExtractRequest::IsExactList { obj })
                    ||| request == (ExtractRequest::IsSequence { obj })
                }
        }),
{
    reveal_with_fuel(Objects::run, 7);
}

/// An extraction asks first for all the elements at once, then whether the object is a
/// `str`, a tuple, and, if lists are read by index, a list. If it is none of these,
/// what follows is the extraction by the iterator.
pub proof fn law_other_objects_go_by_the_iterator<'py, W, T>(
    objects: Objects<'py, W, T>,
    w: W,
    obj: RawObject,
    by_index: bool,
    fuel: nat,
)
    requires
        (objects.whole)(w, obj) is None,
        !(objects.is_str)(w, obj),
        !(objects.is_exact_tuple)(w, obj),
        !(by_index && (objects.is_exact_list)(w, obj)),
    ensures
        ({
            let first = seq![
                ExtractRequest::SequenceExtractor { obj },
                ExtractRequest::IsStr { obj },
                ExtractRequest::IsExactTuple { obj },
            ];
            let rest = objects.run(plan_sequence(obj, by_index), w, fuel);
            if by_index {
                goes_on_as(
                    objects.run(plan_extract(obj, by_index), w, fuel + 4),
                    first.push(ExtractRequest::IsExactList { obj }),
                    rest,
                )
            } else {
                goes_on_as(objects.run(plan_extract(obj, by_index), w, fuel + 3), first, rest)
            }
        }),
{
    reveal_with_fuel(Objects::run, 5);
    let first = seq![
        ExtractRequest::SequenceExtractor { obj },
        ExtractRequest::IsStr { obj },
        ExtractRequest::IsExactTuple { obj },
    ];
    let rest = objects.run(plan_sequence(obj, by_index), w, fuel);
    if by_index {
        let run = objects.run(plan_extract(obj, by_index), w, fuel + 4);
        assert(run.trace =~= first.push(ExtractRequest::IsExactList { obj }) + rest.trace);
    } else {
        let run = objects.run(plan_extract(obj, by_index), w, fuel + 3);
        assert(run.trace =~= first + rest.trace);
    }
}

/// The questions of reading by an iterator: for the next item and for the element in
/// it, in turn.
pub open spec fn iterator_questions(iter: RawObject, items: Seq<RawObject>, count: nat) -> Seq<
    ExtractRequest,
> {
    Seq::new(
        count,
        |i: int|
            if i % 2 == 0 {
                ExtractRequest::NextItem { iter }
            } else {
                ExtractRequest::ExtractItem { item: items[i / 2] }
            },
    )
}

/// The questions of reading a tuple: for an item, from the first one on, and for the
/// element in it, in turn.
pub open spec fn tuple_questions(tuple: RawObject, items: Seq<RawObject>, count: nat) -> Seq<
    ExtractRequest,
> {
    Seq::new(
        count,
        |i: int|
            if i % 2 == 0 {
                ExtractRequest::TupleItem { tuple, index: (i / 2) as usize }
            } else {
                ExtractRequest::ExtractItem { item: items[i / 2] }
            },
    )
}

/// The questions of reading a list: for its length, for an item, from the first one
/// on, and for the element in it, in turn.
pub open spec fn list_questions(list: RawObject, items: Seq<RawObject>, count: nat) -> Seq<
    ExtractRequest,
> {
    Seq::new(
        count,
        |i: int|
            if i % 3 == 0 {
                ExtractRequest::ListLen { list }
            } else if i % 3 == 1 {
                ExtractRequest::ListItem { list, index: (i / 3) as usize }
            } else {
                ExtractRequest::ExtractItem { item: items[i / 3] }
            },
    )
}

/// One more round asks three more questions.
proof fn lemma_list_questions(list: RawObject, items: Seq<RawObject>, rounds: nat)
    requires
        rounds < usize::MAX,
    ensures
        list_questions(list, items, 3 * (rounds + 1)) == list_questions(list, items, 3 * rounds)
            + seq![
            ExtractRequest::ListLen { list },
            ExtractRequest::ListItem { list, index: rounds as usize },
            ExtractRequest::ExtractItem { item: items[rounds as int] },
        ],
{
    let asked = list_questions(list, items, 3 * (rounds + 1));
    let round = seq![
        ExtractRequest::ListLen { list },
        ExtractRequest::ListItem { list, index: rounds as usize },
        ExtractRequest::ExtractItem { item: items[rounds as int] },
    ];
    let sum = list_questions(list, items, 3 * rounds) + round;
    assert forall|i: int| 0 <= i < asked.len() implies asked[i] == sum[i] by {
        if i >= 3 * rounds {
            assert(i / 3 == rounds);
        }
    }
    assert(asked =~= sum);
}

impl<'py, W, T> Objects<'py, W, T> {
    /// In `states`, `iter` gives `items` in turn, and `values` are in them.
    pub open spec fn iterator_gives(
        self,
        iter: RawObject,
        states: Seq<W>,
        items: Seq<RawObject>,
        values: Seq<T>,
    ) -> bool {
        &&& states.len() == values.len() + 1
        &&& items.len() >= values.len()
        &&& forall|i: int|
            0 <= i < values.len() ==> {
                let (read, item) = (self.next)(states[i], iter);
                &&& item matches Some(Ok(item)) && item.raw() == items[i]
                &&& (self.extract)(read, items[i]) == (
                    states[i + 1],
                    Ok::<_, PyErr>(#[trigger] values[i]),
                )
            }
    }

    /// In `states`, `values` are in the first of `items`.
    pub open spec fn items_give(
        self,
        states: Seq<W>,
        items: Seq<RawObject>,
        values: Seq<T>,
    ) -> bool {
        &&& states.len() == values.len() + 1
        &&& items.len() >= values.len()
        &&& forall|i: int|
            0 <= i < values.len() ==> (self.extract)(states[i], items[i]) == (
                states[i + 1],
                Ok::<_, PyErr>(#[trigger] values[i]),
            )
    }

    /// Each of `items` is in its place in `list` when it is read.
    pub open spec fn list_has(
        self,
        list: RawObject,
        states: Seq<W>,
        items: Seq<RawObject>,
    ) -> bool {
        forall|i: int|
            0 <= i < items.len() && i < states.len() ==> {
                let now = (self.list_items)(states[i], list);
                i < now.len() && #[trigger] items[i] == now[i]
            }
    }

    /// One round over an iterator that goes well.
    proof fn lemma_iterator_round(
        self,
        iter: RawObject,
        by_index: bool,
        collected: Seq<T>,
        w: W,
        item: RawObject,
        then: W,
        value: T,
        fuel: nat,
    )
        requires
            (self.next)(w, iter).1 matches Some(Ok(given)) && given.raw() == item,
            (self.extract)((self.next)(w, iter).0, item) == (then, Ok::<_, PyErr>(value)),
        ensures
            goes_on_as(
                self.run(iter_round(iter, by_index, collected), w, fuel + 2),
                seq![ExtractRequest::NextItem { iter }, ExtractRequest::ExtractItem { item }],
                self.run(iter_round(iter, by_index, collected.push(value)), then, fuel),
            ),
    {
        reveal_with_fuel(Objects::run, 3);
        let first = seq![ExtractRequest::NextItem { iter }, ExtractRequest::ExtractItem { item }];
        let rest = self.run(iter_round(iter, by_index, collected.push(value)), then, fuel);
        let run = self.run(iter_round(iter, by_index, collected), w, fuel + 2);
        assert(run.trace =~= first + rest.trace);
    }

    /// One round over a tuple that goes well.
    proof fn lemma_tuple_round(
        self,
        tuple: RawObject,
        index: usize,
        by_index: bool,
        collected: Seq<T>,
        w: W,
        then: W,
        value: T,
        fuel: nat,
    )
        requires
            self.wf(),
            index < (self.tuple_items)(tuple).len(),
            (self.extract)(w, (self.tuple_items)(tuple)[index as int]) == (
                then,
                Ok::<_, PyErr>(value),
            ),
        ensures
            ({
                let items = (self.tuple_items)(tuple);
                let len = items.len() as usize;
                let next = (index + 1) as usize;
                goes_on_as(
                    self.run(
                        tuple_round(tuple, index, len, by_index, collected),
                        w,
                        fuel + 2,
                    ),
                    seq![
                        ExtractRequest::TupleItem { tuple, index },
                        ExtractRequest::ExtractItem { item: items[index as int] },
                    ],
                    self.run(
                        tuple_round(tuple, next, len, by_index, collected.push(value)),
                        then,
                        fuel,
                    ),
                )
            }),
    {
        reveal_with_fuel(Objects::run, 3);
        let items = (self.tuple_items)(tuple);
        let len = items.len() as usize;
        let next = (index + 1) as usize;
        let first = seq![
            ExtractRequest::TupleItem { tuple, index },
            ExtractRequest::ExtractItem { item: items[index as int] },
        ];
        let rest = self.run(
            tuple_round(tuple, next, len, by_index, collected.push(value)),
            then,
            fuel,
        );
        let run = self.run(tuple_round(tuple, index, len, by_index, collected), w, fuel + 2);
        assert(run.trace =~= first + rest.trace);
    }

    /// One round over a list that goes well.
    proof fn lemma_list_round(
        self,
        list: RawObject,
        index: usize,
        by_index: bool,
        collected: Seq<T>,
        w: W,
        then: W,
        value: T,
        fuel: nat,
    )
        requires
            self.wf(),
            index < (self.list_items)(w, list).len(),
            (self.extract)(w, (self.list_items)(w, list)[index as int]) == (
                then,
                Ok::<_, PyErr>(value),
            ),
        ensures
            ({
                let next = (index + 1) as usize;
                goes_on_as(
                    self.run(list_round(list, index, by_index, collected), w, fuel + 3),
                    seq![
                        ExtractRequest::ListLen { list },
                        ExtractRequest::ListItem { list, index },
                        ExtractRequest::ExtractItem {
                            item: (self.list_items)(w, list)[index as int],
                        },
                    ],
                    self.run(
                        list_round(list, next, by_index, collected.push(value)),
                        then,
                        fuel,
                    ),
                )
            }),
    {
        reveal_with_fuel(Objects::run, 4);
        let next = (index + 1) as usize;
        let first = seq![
            ExtractRequest::ListLen { list },
            ExtractRequest::ListItem { list, index },
            ExtractRequest::ExtractItem { item: (self.list_items)(w, list)[index as int] },
        ];
        let rest = self.run(list_round(list, next, by_index, collected.push(value)), then, fuel);
        let run = self.run(list_round(list, index, by_index, collected), w, fuel + 3);
        assert(run.trace =~= first + rest.trace);
    }

    /// The first `count` rounds over an iterator.
    proof fn lemma_iterator_rounds(
        self,
        iter: RawObject,
        by_index: bool,
        states: Seq<W>,
        items: Seq<RawObject>,
        values: Seq<T>,
        count: nat,
        fuel: nat,
    )
        requires
            self.iterator_gives(iter, states, items, values),
            count <= values.len(),
        ensures
            goes_on_as(
                self.run(iter_round(iter, by_index, Seq::empty()), states[0], 2 * count + fuel),
                iterator_questions(iter, items, 2 * count),
                self.run(
                    iter_round(iter, by_index, values.take(count as int)),
                    states[count as int],
                    fuel,
                ),
            ),
        decreases count,
    {
        let whole = self.run(
            iter_round(iter, by_index, Seq::empty()),
            states[0],
            2 * count + fuel,
        );
        let asked = iterator_questions(iter, items, 2 * count);
        if count == 0 {
            assert(values.take(0) =~= Seq::empty());
            assert(asked + whole.trace =~= whole.trace);
        } else {
            let last = (count - 1) as nat;
            self.lemma_iterator_rounds(iter, by_index, states, items, values, last, fuel + 2);
            let (before, after) = (states[last as int], states[count as int]);
            let (item, value) = (items[last as int], values[last as int]);
            let collected = values.take(last as int);
            self.lemma_iterator_round(
                iter,
                by_index,
                collected,
                before,
                item,
                after,
                value,
                fuel,
            );
            assert(collected.push(value) =~= values.take(count as int));
            let first = iterator_questions(iter, items, 2 * last);
            let round = seq![
                ExtractRequest::NextItem { iter },
                ExtractRequest::ExtractItem { item },
            ];
            let rest = self.run(iter_round(iter, by_index, collected.push(value)), after, fuel);
            assert(first + round =~= asked);
            assert(first + (round + rest.trace) =~= first + round + rest.trace);
        }
    }

    /// The first `count` rounds over a tuple.
    proof fn lemma_tuple_reads(
        self,
        tuple: RawObject,
        by_index: bool,
        states: Seq<W>,
        values: Seq<T>,
        count: nat,
        fuel: nat,
    )
        requires
            self.wf(),
            self.items_give(states, (self.tuple_items)(tuple), values),
            count <= values.len(),
        ensures
            ({
                let items = (self.tuple_items)(tuple);
                let len = items.len() as usize;
                goes_on_as(
                    self.run(
                        tuple_round(tuple, 0, len, by_index, Seq::empty()),
                        states[0],
                        2 * count + fuel,
                    ),
                    tuple_questions(tuple, items, 2 * count),
                    self.run(
                        tuple_round(
                            tuple,
                            count as usize,
                            len,
                            by_index,
                            values.take(count as int),
                        ),
                        states[count as int],
                        fuel,
                    ),
                )
            }),
        decreases count,
    {
        let items = (self.tuple_items)(tuple);
        let len = items.len() as usize;
        let whole = self.run(
            tuple_round(tuple, 0, len, by_index, Seq::empty()),
            states[0],
            2 * count + fuel,
        );
        let asked = tuple_questions(tuple, items, 2 * count);
        if count == 0 {
            assert(values.take(0) =~= Seq::empty());
            assert(asked + whole.trace =~= whole.trace);
        } else {
            let last = (count - 1) as nat;
            self.lemma_tuple_reads(tuple, by_index, states, values, last, fuel + 2);
            let (before, after) = (states[last as int], states[count as int]);
            let value = values[last as int];
            let collected = values.take(last as int);
            let index = last as usize;
            self.lemma_tuple_round(
                tuple,
                index,
                by_index,
                collected,
                before,
                after,
                value,
                fuel,
            );
            assert(collected.push(value) =~= values.take(count as int));
            let first = tuple_questions(tuple, items, 2 * last);
            let round = seq![
                ExtractRequest::TupleItem { tuple, index },
                ExtractRequest::ExtractItem { item: items[last as int] },
            ];
            let rest = self.run(
                tuple_round(tuple, count as usize, len, by_index, collected.push(value)),
                after,
                fuel,
            );
            assert(first + round =~= asked);
            assert(first + (round + rest.trace) =~= first + round + rest.trace);
        }
    }

    /// The first `count` rounds over a list.
    proof fn lemma_list_reads(
        self,
        list: RawObject,
        by_index: bool,
        states: Seq<W>,
        items: Seq<RawObject>,
        values: Seq<T>,
        count: nat,
        fuel: nat,
    )
        requires
            self.wf(),
            self.items_give(states, items, values),
            self.list_has(list, states, items),
            count <= values.len(),
        ensures
            count <= isize::MAX,
            goes_on_as(
                self.run(
                    list_round(list, 0, by_index, Seq::empty()),
                    states[0],
                    3 * count + fuel,
                ),
                list_questions(list, items, 3 * count),
                self.run(
                    list_round(list, count as usize, by_index, values.take(count as int)),
                    states[count as int],
                    fuel,
                ),
            ),
        decreases count,
    {
        let whole = self.run(
            list_round(list, 0, by_index, Seq::empty()),
            states[0],
            3 * count + fuel,
        );
        let asked = list_questions(list, items, 3 * count);
        if count == 0 {
            assert(values.take(0) =~= Seq::empty());
            assert(asked + whole.trace =~= whole.trace);
        } else {
            let last = (count - 1) as nat;
            self.lemma_list_reads(list, by_index, states, items, values, last, fuel + 3);
            let (before, after) = (states[last as int], states[count as int]);
            let value = values[last as int];
            let collected = values.take(last as int);
            let index = last as usize;
            assert((self.list_items)(before, list).len() <= isize::MAX);
            self.lemma_list_round(
                list,
                index,
                by_index,
                collected,
                before,
                after,
                value,
                fuel,
            );
            assert(collected.push(value) =~= values.take(count as int));
            let first = list_questions(list, items, 3 * last);
            let round = seq![
                ExtractRequest::ListLen { list },
                ExtractRequest::ListItem { list, index },
                ExtractRequest::ExtractItem { item: items[last as int] },
            ];
            let rest = self.run(
                list_round(list, count as usize, by_index, collected.push(value)),
                after,
                fuel,
            );
            lemma_list_questions(list, items, last);
            assert(first + (round + rest.trace) =~= first + round + rest.trace);
        }
    }
}

/// A sequence that gives no iterator ends the extraction with the error that it raised.
/// That its length was asked for makes no difference, whatever came of it.
pub proof fn law_iterator_that_cannot_be_had<'py, W, T>(
    objects: Objects<'py, W, T>,
    w: W,
    obj: RawObject,
    by_index: bool,
    error: PyErr,
    fuel: nat,
)
    requires
        (objects.is_sequence)(w, obj),
        (objects.iter)((objects.len)(w, obj).0, obj).1 == Err::<Bound<'py, PyAny>, _>(error),
        fuel >= 3,
    ensures
        ended(
            objects.run(plan_sequence(obj, by_index), w, fuel),
            seq![
                ExtractRequest::IsSequence { obj },
                ExtractRequest::Len { obj },
                ExtractRequest::TryIter { obj },
            ],
            (objects.iter)((objects.len)(w, obj).0, obj).0,
            Err(error),
        ),
{
    reveal_with_fuel(Objects::run, 4);
    let run = objects.run(plan_sequence(obj, by_index), w, fuel);
    assert(run.trace =~= seq![
        ExtractRequest::IsSequence { obj },
        ExtractRequest::Len { obj },
        ExtractRequest::TryIter { obj },
    ]);
}

impl<'py, W, T> Objects<'py, W, T> {
    /// The questions of a sequence before its first item.
    proof fn lemma_sequence_begins(
        self,
        w: W,
        obj: RawObject,
        by_index: bool,
        iter: Bound<'py, PyAny>,
        fuel: nat,
    )
        requires
            (self.is_sequence)(w, obj),
            (self.iter)((self.len)(w, obj).0, obj).1 == Ok::<_, PyErr>(iter),
        ensures
            goes_on_as(
                self.run(plan_sequence(obj, by_index), w, fuel + 3),
                seq![
                    ExtractRequest::IsSequence { obj },
                    ExtractRequest::Len { obj },
                    ExtractRequest::TryIter { obj },
                ],
                self.run(
                    iter_round(iter.raw(), by_index, Seq::empty()),
                    (self.iter)((self.len)(w, obj).0, obj).0,
                    fuel,
                ),
            ),
    {
        reveal_with_fuel(Objects::run, 4);
        let begun = (self.iter)((self.len)(w, obj).0, obj).0;
        let rest = self.run(iter_round(iter.raw(), by_index, Seq::empty()), begun, fuel);
        let run = self.run(plan_sequence(obj, by_index), w, fuel + 3);
        assert(run.trace =~= seq![
            ExtractRequest::IsSequence { obj },
            ExtractRequest::Len { obj },
            ExtractRequest::TryIter { obj },
        ] + rest.trace);
    }

    /// The round in which an iterator ends or fails.
    proof fn lemma_iterator_ends(
        self,
        w: W,
        iter: RawObject,
        by_index: bool,
        collected: Seq<T>,
        fuel: nat,
    )
        requires
            !((self.next)(w, iter).1 matches Some(Ok(_))),
            fuel >= 1,
        ensures
            ({
                let (end, next) = (self.next)(w, iter);
                ended(
                    self.run(iter_round(iter, by_index, collected), w, fuel),
                    seq![ExtractRequest::NextItem { iter }],
                    end,
                    match next {
                        Some(Err(error)) => Err(error),
                        _ => Ok(collected),
                    },
                )
            }),
    {
        reveal_with_fuel(Objects::run, 2);
        let run = self.run(iter_round(iter, by_index, collected), w, fuel);
        assert(run.trace =~= seq![ExtractRequest::NextItem { iter }]);
    }

    /// The round in which an item of an iterator fails.
    proof fn lemma_iterator_fails(
        self,
        w: W,
        iter: RawObject,
        by_index: bool,
        collected: Seq<T>,
        item: RawObject,
        failed: W,
        error: PyErr,
        fuel: nat,
    )
        requires
            (self.next)(w, iter).1 matches Some(Ok(given)) && given.raw() == item,
            (self.extract)((self.next)(w, iter).0, item) == (failed, Err::<T, _>(error)),
            fuel >= 2,
        ensures
            ended(
                self.run(iter_round(iter, by_index, collected), w, fuel),
                seq![ExtractRequest::NextItem { iter }, ExtractRequest::ExtractItem { item }],
                failed,
                Err(error),
            ),
    {
        reveal_with_fuel(Objects::run, 3);
        let run = self.run(iter_round(iter, by_index, collected), w, fuel);
        assert(run.trace =~= seq![
            ExtractRequest::NextItem { iter },
            ExtractRequest::ExtractItem { item },
        ]);
    }
}

/// What a sequence gives by its iterator: when the iterator ends, the elements in all
/// of its items, in order and each once; when it fails, its error; when the element
/// in an item fails, that error, and no further item is asked for. The length that
/// the sequence said it has makes no difference.
pub proof fn law_sequence_read_by_its_iterator<'py, W, T>(
    objects: Objects<'py, W, T>,
    w: W,
    obj: RawObject,
    by_index: bool,
    iter: Bound<'py, PyAny>,
    states: Seq<W>,
    items: Seq<RawObject>,
    values: Seq<T>,
    fuel: nat,
)
    requires
        (objects.is_sequence)(w, obj),
        (objects.iter)((objects.len)(w, obj).0, obj) == (states[0], Ok::<_, PyErr>(iter)),
        objects.iterator_gives(iter.raw(), states, items, values),
        fuel >= 2 * values.len() + 5,
    ensures
        ({
            let run = objects.run(plan_sequence(obj, by_index), w, fuel);
            let first = seq![
                ExtractRequest::IsSequence { obj },
                ExtractRequest::Len { obj },
                ExtractRequest::TryIter { obj },
            ];
            let count = values.len();
            let asked = first + iterator_questions(iter.raw(), items, 2 * count + 1);
            let (end, next) = (objects.next)(states.last(), iter.raw());
            match next {
                None => ended(run, asked, end, Ok(values)),
                Some(Err(error)) => ended(run, asked, end, Err(error)),
                Some(Ok(item)) => {
                    let (failed, value) = (objects.extract)(end, item.raw());
                    value matches Err(error) ==> ended(
                        run,
                        asked.push(ExtractRequest::ExtractItem { item: item.raw() }),
                        failed,
                        Err(error),
                    )
                },
            }
        }),
{
    let count = values.len();
    let rest_fuel = (fuel - 3 - 2 * count) as nat;
    objects.lemma_sequence_begins(w, obj, by_index, iter, (fuel - 3) as nat);
    objects.lemma_iterator_rounds(
        iter.raw(),
        by_index,
        states,
        items,
        values,
        count,
        rest_fuel,
    );
    assert(values.take(count as int) =~= values);
    let first = seq![
        ExtractRequest::IsSequence { obj },
        ExtractRequest::Len { obj },
        ExtractRequest::TryIter { obj },
    ];
    let rounds = iterator_questions(iter.raw(), items, 2 * count);
    let asked = iterator_questions(iter.raw(), items, 2 * count + 1);
    let ask_next = ExtractRequest::NextItem { iter: iter.raw() };
    assert(rounds + seq![ask_next] =~= asked);
    let (end, next) = (objects.next)(states.last(), iter.raw());
    if let Some(Ok(item)) = next {
        let (failed, value) = (objects.extract)(end, item.raw());
        if let Err(error) = value {
            objects.lemma_iterator_fails(
                states.last(),
                iter.raw(),
                by_index,
                values,
                item.raw(),
                failed,
                error,
                rest_fuel,
            );
            let ask_item = ExtractRequest::ExtractItem { item: item.raw() };
            assert(first + (rounds + seq![ask_next, ask_item]) =~= (first + (rounds + seq![
                ask_next,
            ])).push(ask_item));
        }
    } else {
        objects.lemma_iterator_ends(states.last(), iter.raw(), by_index, values, rest_fuel);
    }
}

/// As long as an iterator goes on to give items with elements in them, the extraction
/// goes on to ask.
pub proof fn law_iterator_is_read_on<'py, W, T>(
    objects: Objects<'py, W, T>,
    w: W,
    obj: RawObject,
    by_index: bool,
    iter: Bound<'py, PyAny>,
    states: Seq<W>,
    items: Seq<RawObject>,
    values: Seq<T>,
)
    requires
        (objects.is_sequence)(w, obj),
        (objects.iter)((objects.len)(w, obj).0, obj) == (states[0], Ok::<_, PyErr>(iter)),
        objects.iterator_gives(iter.raw(), states, items, values),
    ensures
        ({
            let run = objects.run(plan_sequence(obj, by_index), w, 2 * values.len() + 3);
            &&& run.trace == seq![
                ExtractRequest::IsSequence { obj },
                ExtractRequest::Len { obj },
                ExtractRequest::TryIter { obj },
            ] + iterator_questions(iter.raw(), items, 2 * values.len())
            &&& run.world == states.last()
            &&& run.outcome is None
        }),
{
    let count = values.len();
    objects.lemma_sequence_begins(w, obj, by_index, iter, 2 * count);
    objects.lemma_iterator_rounds(iter.raw(), by_index, states, items, values, count, 0);
    let rounds = iterator_questions(iter.raw(), items, 2 * count);
    assert(rounds + Seq::empty() =~= rounds);
}

/// What is asked of a list alone.
pub open spec fn asks_a_list(request: ExtractRequest) -> bool {
    request is IsExactList || request is ListLen || request is ListItem
}

/// What is asked on the way by the iterator alone.
pub open spec fn asks_for_the_iterator(request: ExtractRequest) -> bool {
    request is IsSequence || request is Len || request is TryIter || request is NextItem
}

impl<'py, W, T> Objects<'py, W, T> {
    /// The questions of a tuple before its first item.
    proof fn lemma_tuple_begins(self, w: W, obj: RawObject, by_index: bool, fuel: nat)
        requires
            (self.whole)(w, obj) is None,
            !(self.is_str)(w, obj),
            (self.is_exact_tuple)(w, obj),
        ensures
            goes_on_as(
                self.run(plan_extract(obj, by_index), w, fuel + 4),
                seq![
                    ExtractRequest::SequenceExtractor { obj },
                    ExtractRequest::IsStr { obj },
                    ExtractRequest::IsExactTuple { obj },
                    ExtractRequest::TupleLen { tuple: obj },
                ],
                self.run(
                    tuple_round(
                        obj,
                        0,
                        (self.tuple_items)(obj).len() as usize,
                        by_index,
                        Seq::empty(),
                    ),
                    w,
                    fuel,
                ),
            ),
    {
        reveal_with_fuel(Objects::run, 5);
        let first = seq![
            ExtractRequest::SequenceExtractor { obj },
            ExtractRequest::IsStr { obj },
            ExtractRequest::IsExactTuple { obj },
            ExtractRequest::TupleLen { tuple: obj },
        ];
        let len = (self.tuple_items)(obj).len() as usize;
        let rest = self.run(tuple_round(obj, 0, len, by_index, Seq::empty()), w, fuel);
        assert(self.run(plan_extract(obj, by_index), w, fuel + 4).trace =~= first + rest.trace);
    }

    /// The round in which an item of a tuple fails.
    proof fn lemma_tuple_fails(
        self,
        w: W,
        tuple: RawObject,
        index: usize,
        by_index: bool,
        collected: Seq<T>,
        failed: W,
        error: PyErr,
        fuel: nat,
    )
        requires
            self.wf(),
            index < (self.tuple_items)(tuple).len(),
            (self.extract)(w, (self.tuple_items)(tuple)[index as int]) == (
                failed,
                Err::<T, _>(error),
            ),
            fuel >= 2,
        ensures
            ({
                let items = (self.tuple_items)(tuple);
                let len = items.len() as usize;
                ended(
                    self.run(tuple_round(tuple, index, len, by_index, collected), w, fuel),
                    seq![
                        ExtractRequest::TupleItem { tuple, index },
                        ExtractRequest::ExtractItem { item: items[index as int] },
                    ],
                    failed,
                    Err(error),
                )
            }),
    {
        reveal_with_fuel(Objects::run, 3);
        let items = (self.tuple_items)(tuple);
        let len = items.len() as usize;
        let run = self.run(tuple_round(tuple, index, len, by_index, collected), w, fuel);
        assert(run.trace =~= seq![
            ExtractRequest::TupleItem { tuple, index },
            ExtractRequest::ExtractItem { item: items[index as int] },
        ]);
    }

    /// The questions of a list before its first item.
    proof fn lemma_list_begins(self, w: W, obj: RawObject, fuel: nat)
        requires
            (self.whole)(w, obj) is None,
            !(self.is_str)(w, obj),
            !(self.is_exact_tuple)(w, obj),
            (self.is_exact_list)(w, obj),
        ensures
            goes_on_as(
                self.run(plan_extract(obj, true), w, fuel + 5),
                seq![
                    ExtractRequest::SequenceExtractor { obj },
                    ExtractRequest::IsStr { obj },
                    ExtractRequest::IsExactTuple { obj },
                    ExtractRequest::IsExactList { obj },
                    ExtractRequest::ListLen { list: obj },
                ],
                self.run(list_round(obj, 0, true, Seq::empty()), w, fuel),
            ),
    {
        reveal_with_fuel(Objects::run, 6);
        let first = seq![
            ExtractRequest::SequenceExtractor { obj },
            ExtractRequest::IsStr { obj },
            ExtractRequest::IsExactTuple { obj },
            ExtractRequest::IsExactList { obj },
            ExtractRequest::ListLen { list: obj },
        ];
        let rest = self.run(list_round(obj, 0, true, Seq::empty()), w, fuel);
        assert(self.run(plan_extract(obj, true), w, fuel + 5).trace =~= first + rest.trace);
    }

    /// The round in which the end of a list is reached.
    proof fn lemma_list_ends(
        self,
        w: W,
        list: RawObject,
        index: usize,
        by_index: bool,
        collected: Seq<T>,
        fuel: nat,
    )
        requires
            self.wf(),
            (self.list_items)(w, list).len() <= index,
            fuel >= 1,
        ensures
            ended(
                self.run(list_round(list, index, by_index, collected), w, fuel),
                seq![ExtractRequest::ListLen { list }],
                w,
                Ok(collected),
            ),
    {
        reveal_with_fuel(Objects::run, 2);
        assert((self.list_items)(w, list).len() <= isize::MAX);
    }

    /// The round in which an item of a list fails.
    proof fn lemma_list_fails(
        self,
        w: W,
        list: RawObject,
        index: usize,
        by_index: bool,
        collected: Seq<T>,
        failed: W,
        error: PyErr,
        fuel: nat,
    )
        requires
            self.wf(),
            index < (self.list_items)(w, list).len(),
            (self.extract)(w, (self.list_items)(w, list)[index as int]) == (
                failed,
                Err::<T, _>(error),
            ),
            fuel >= 3,
        ensures
            ended(
                self.run(list_round(list, index, by_index, collected), w, fuel),
                seq![
                    ExtractRequest::ListLen { list },
                    ExtractRequest::ListItem { list, index },
                    ExtractRequest::ExtractItem {
                        item: (self.list_items)(w, list)[index as int],
                    },
                ],
                failed,
                Err(error),
            ),
    {
        reveal_with_fuel(Objects::run, 4);
        let items = (self.list_items)(w, list);
        assert(items.len() <= isize::MAX);
        let run = self.run(list_round(list, index, by_index, collected), w, fuel);
        assert(run.trace =~= seq![
            ExtractRequest::ListLen { list },
            ExtractRequest::ListItem { list, index },
            ExtractRequest::ExtractItem { item: items[index as int] },
        ]);
    }

    /// Reading by the iterator asks nothing of a list.
    proof fn lemma_iterator_asks_no_list(self, step: ExtractModel<T>, w: W, fuel: nat)
        requires
            step matches Step::Ask(request, extraction) ==> {
                &&& request == extraction.state.request()
                &&& extraction.state is Sequence || extraction.state is SequenceRoom
                    || extraction.state is Iter || extraction.state is Next
                    || extraction.state is IterValue
            },
        ensures
            ({
                let trace = self.run(step, w, fuel).trace;
                forall|i: int| 0 <= i < trace.len() ==> !asks_a_list(#[trigger] trace[i])
            }),
        decreases fuel,
    {
        if let Step::Ask(request, extraction) = step {
            if fuel > 0 {
                let (next, reply) = self.answer(w, request);
                let then = extraction.after(reply);
                self.lemma_iterator_asks_no_list(then, next, (fuel - 1) as nat);
                let rest = self.run(then, next, (fuel - 1) as nat);
                let trace = self.run(step, w, fuel).trace;
                assert(trace == seq![request] + rest.trace);
                assert forall|i: int| 0 <= i < trace.len() implies !asks_a_list(
                    #[trigger] trace[i],
                ) by {
                    if i > 0 {
                        assert(trace[i] == rest.trace[i - 1]);
                    }
                }
            }
        }
    }

    /// Reading a list asks nothing of an iterator.
    proof fn lemma_list_asks_no_iterator(self, step: ExtractModel<T>, w: W, fuel: nat)
        requires
            step matches Step::Ask(request, extraction) ==> {
                &&& request == extraction.state.request()
                &&& extraction.state is ListRoom || extraction.state is ListLen
                    || extraction.state is ListItem || extraction.state is ListValue
            },
        ensures
            ({
                let trace = self.run(step, w, fuel).trace;
                forall|i: int| 0 <= i < trace.len() ==> !asks_for_the_iterator(#[trigger] trace[i])
            }),
        decreases fuel,
    {
        if let Step::Ask(request, extraction) = step {
            if fuel > 0 {
                let (next, reply) = self.answer(w, request);
                let then = extraction.after(reply);
                self.lemma_list_asks_no_iterator(then, next, (fuel - 1) as nat);
                let rest = self.run(then, next, (fuel - 1) as nat);
                let trace = self.run(step, w, fuel).trace;
                assert(trace == seq![request] + rest.trace);
                assert forall|i: int| 0 <= i < trace.len() implies !asks_for_the_iterator(
                    #[trigger] trace[i],
                ) by {
                    if i > 0 {
                        assert(trace[i] == rest.trace[i - 1]);
                    }
                }
            }
        }
    }
}

/// What a tuple gives: the elements in all of its items, in order and each once; or
/// the error of the first item that fails, and no item behind it is asked for.
pub proof fn law_tuple_read_item_by_item<'py, W, T>(
    objects: Objects<'py, W, T>,
    w: W,
    obj: RawObject,
    by_index: bool,
    states: Seq<W>,
    values: Seq<T>,
    fuel: nat,
)
    requires
        objects.wf(),
        (objects.whole)(w, obj) is None,
        !(objects.is_str)(w, obj),
        (objects.is_exact_tuple)(w, obj),
        states[0] == w,
        objects.items_give(states, (objects.tuple_items)(obj), values),
        fuel >= 2 * values.len() + 6,
    ensures
        ({
            let run = objects.run(plan_extract(obj, by_index), w, fuel);
            let first = seq![
                ExtractRequest::SequenceExtractor { obj },
                ExtractRequest::IsStr { obj },
                ExtractRequest::IsExactTuple { obj },
                ExtractRequest::TupleLen { tuple: obj },
            ];
            let items = (objects.tuple_items)(obj);
            let count = values.len();
            if count == items.len() {
                ended(
                    run,
                    first + tuple_questions(obj, items, 2 * count),
                    states.last(),
                    Ok(values),
                )
            } else {
                let (failed, value) = (objects.extract)(states.last(), items[count as int]);
                value matches Err(error) ==> ended(
                    run,
                    first + tuple_questions(obj, items, 2 * count + 2),
                    failed,
                    Err(error),
                )
            }
        }),
{
    let items = (objects.tuple_items)(obj);
    let count = values.len();
    let first = seq![
        ExtractRequest::SequenceExtractor { obj },
        ExtractRequest::IsStr { obj },
        ExtractRequest::IsExactTuple { obj },
        ExtractRequest::TupleLen { tuple: obj },
    ];
    let rest_fuel = (fuel - 4 - 2 * count) as nat;
    objects.lemma_tuple_begins(w, obj, by_index, (fuel - 4) as nat);
    objects.lemma_tuple_reads(obj, by_index, states, values, count, rest_fuel);
    assert(values.take(count as int) =~= values);
    let rounds = tuple_questions(obj, items, 2 * count);
    let index = count as usize;
    if count == items.len() {
        assert(rounds + Seq::empty() =~= rounds);
    } else {
        let item = items[count as int];
        let (failed, value) = (objects.extract)(states.last(), item);
        if let Err(error) = value {
            objects.lemma_tuple_fails(
                states.last(),
                obj,
                index,
                by_index,
                values,
                failed,
                error,
                rest_fuel,
            );
            let round = seq![
                ExtractRequest::TupleItem { tuple: obj, index },
                ExtractRequest::ExtractItem { item },
            ];
            assert(rounds + round =~= tuple_questions(obj, items, 2 * count + 2));
        }
    }
}

/// What a list gives where lists are read by index: the elements in its items, in
/// order and each once, up to the end that it has when that is reached; or the error
/// of the first item that fails, and nothing more is asked. Its length is asked for
/// before every item, and `items` are those in their places at the time.
pub proof fn law_list_read_item_by_item<'py, W, T>(
    objects: Objects<'py, W, T>,
    w: W,
    obj: RawObject,
    states: Seq<W>,
    items: Seq<RawObject>,
    values: Seq<T>,
    fuel: nat,
)
    requires
        objects.wf(),
        (objects.whole)(w, obj) is None,
        !(objects.is_str)(w, obj),
        !(objects.is_exact_tuple)(w, obj),
        (objects.is_exact_list)(w, obj),
        states[0] == w,
        objects.items_give(states, items, values),
        objects.list_has(obj, states, items),
        fuel >= 3 * values.len() + 8,
    ensures
        ({
            let run = objects.run(plan_extract(obj, true), w, fuel);
            let first = seq![
                ExtractRequest::SequenceExtractor { obj },
                ExtractRequest::IsStr { obj },
                ExtractRequest::IsExactTuple { obj },
                ExtractRequest::IsExactList { obj },
                ExtractRequest::ListLen { list: obj },
            ];
            let count = values.len();
            let end = states.last();
            &&& (objects.list_items)(end, obj).len() <= count ==> ended(
                run,
                first + list_questions(obj, items, 3 * count + 1),
                end,
                Ok(values),
            )
            &&& items.len() > count ==> {
                let (failed, value) = (objects.extract)(end, items[count as int]);
                value matches Err(error) ==> ended(
                    run,
                    first + list_questions(obj, items, 3 * count + 3),
                    failed,
                    Err(error),
                )
            }
        }),
{
    let count = values.len();
    let end = states.last();
    let rest_fuel = (fuel - 5 - 3 * count) as nat;
    objects.lemma_list_begins(w, obj, (fuel - 5) as nat);
    objects.lemma_list_reads(obj, true, states, items, values, count, rest_fuel);
    assert(values.take(count as int) =~= values);
    let rounds = list_questions(obj, items, 3 * count);
    let index = count as usize;
    if (objects.list_items)(end, obj).len() <= count {
        objects.lemma_list_ends(end, obj, index, true, values, rest_fuel);
        let round = seq![ExtractRequest::ListLen { list: obj }];
        assert(rounds + round =~= list_questions(obj, items, 3 * count + 1));
    }
    if items.len() > count {
        let item = items[count as int];
        assert(item == (objects.list_items)(end, obj)[count as int]);
        let (failed, value) = (objects.extract)(end, item);
        if let Err(error) = value {
            objects.lemma_list_fails(end, obj, index, true, values, failed, error, rest_fuel);
            assert((objects.list_items)(end, obj).len() <= isize::MAX);
            lemma_list_questions(obj, items, count);
        }
    }
}

/// The fourth question on an object that is neither a `str` nor a tuple tells the
/// builds apart: without a global lock a list is like any other sequence, however far
/// the extraction gets; with it, a list is looked for, and an iterator over it is
/// never made.
pub proof fn law_lists_are_read_by_index_under_the_global_lock<'py, W, T>(
    objects: Objects<'py, W, T>,
    w: W,
    obj: RawObject,
    build: Build,
    fuel: nat,
)
    requires
        (objects.whole)(w, obj) is None,
        !(objects.is_str)(w, obj),
        !(objects.is_exact_tuple)(w, obj),
    ensures
        ({
            let trace = objects.run(plan_extract(obj, build.list_by_index()), w, fuel).trace;
            &&& fuel >= 4 ==> trace.len() >= 4 && trace[3] == if build.gil_disabled {
                ExtractRequest::IsSequence { obj }
            } else {
                ExtractRequest::IsExactList { obj }
            }
            &&& build.gil_disabled ==> forall|i: int|
                0 <= i < trace.len() ==> !asks_a_list(#[trigger] trace[i])
            &&& !build.gil_disabled && (objects.is_exact_list)(w, obj) ==> forall|i: int|
                0 <= i < trace.len() ==> !asks_for_the_iterator(#[trigger] trace[i])
        }),
{
    let step = plan_extract(obj, build.list_by_index());
    objects.lemma_longer_run(step, w, fuel, fuel + 5);
    let run = objects.run(step, w, fuel);
    let long = objects.run(step, w, fuel + 5);
    if build.gil_disabled {
        law_other_objects_go_by_the_iterator(objects, w, obj, false, fuel + 2);
        objects.lemma_iterator_asks_no_list(plan_sequence(obj, false), w, fuel + 2);
        let rest = objects.run(plan_sequence(obj, false), w, fuel + 2);
        assert(rest.trace.len() > 0 && rest.trace[0] == (ExtractRequest::IsSequence { obj }));
        assert forall|i: int| 0 <= i < run.trace.len() implies !asks_a_list(
            #[trigger] run.trace[i],
        ) by {
            assert(run.trace[i] == long.trace[i]);
            if i >= 3 {
                assert(long.trace[i] == rest.trace[i - 3]);
            }
        }
    } else if (objects.is_exact_list)(w, obj) {
        objects.lemma_list_begins(w, obj, fuel);
        objects.lemma_list_asks_no_iterator(list_round(obj, 0, true, Seq::empty()), w, fuel);
        let rest = objects.run(list_round(obj, 0, true, Seq::empty()), w, fuel);
        assert forall|i: int| 0 <= i < run.trace.len() implies !asks_for_the_iterator(
            #[trigger] run.trace[i],
        ) by {
            assert(run.trace[i] == long.trace[i]);
            if i >= 5 {
                assert(long.trace[i] == rest.trace[i - 5]);
            }
        }
    } else {
        law_other_objects_go_by_the_iterator(objects, w, obj, true, fuel + 1);
    }
    if fuel >= 4 {
        assert(run.outcome is None ==> run.trace.len() == fuel);
        assert(run.trace.len() > 3 ==> run.trace[3] == long.trace[3]);
    }
}

} // verus!
