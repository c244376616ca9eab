//! What the dispatched calls amount to.
//!
//! The laws speak of any interpreter that means by the requests what the C API
//! says they mean.

use crate::call::{
    next_slot, plan_by_attribute, plan_call, plan_call_method_positional, plan_call_positional,
    receiver_slots, CallModel, CallReply, CallRequest, CallState, Positional, PyCallArgs,
    MAX_STACK_ARGS, STACK_SLOTS,
};
use crate::config::Build;
use crate::err::PyResult;
use crate::handle::{Borrowed, Bound, Py, PyAny, PyTuple, RawObject};
use crate::step::Step;
use crate::vectorcall::{arguments_offset, has_arguments_offset, positional_count};
use vstd::prelude::*;

verus! {

/// What calls do in an interpreter whose state is a `W`.
#[verifier::reject_recursive_types(W)]
pub struct Interpreter<'py, W> {
    /// The attribute of an object by name.
    pub getattr: spec_fn(W, RawObject, RawObject) -> (W, PyResult<Bound<'py, PyAny>>),
    /// The call of an object with positional arguments and a `dict` of keyword
    /// arguments, which may be null.
    pub call: spec_fn(W, RawObject, Seq<RawObject>, RawObject) -> (W, PyResult<Bound<'py, PyAny>>),
    /// The items of a tuple, which never change.
    pub items: spec_fn(RawObject) -> Seq<RawObject>,
    /// The empty tuple.
    pub empty_tuple: spec_fn(W) -> (W, PyResult<Bound<'py, PyTuple>>),
}

/// How far a call got.
pub struct CallRun<'py, W> {
    /// The requests that were performed.
    pub trace: Seq<CallRequest>,
    /// The state of the interpreter after them.
    pub world: W,
    /// The outcome, if it is there.
    pub outcome: Option<PyResult<Bound<'py, PyAny>>>,
}

impl<'py, W> Interpreter<'py, W> {
    /// Sizes fit a machine word, and the empty tuple is empty.
    pub open spec fn wf(self) -> bool {
        &&& forall|t: RawObject| (#[trigger] (self.items)(t)).len() <= isize::MAX
        &&& forall|w: W| #[trigger]
            (self.empty_tuple)(w).1 matches Ok(t) ==> (self.items)(t.raw()) == Seq::<
                RawObject,
            >::empty()
    }

    /// Call the method `name` of `object` with `args` alone.
    pub open spec fn call_method(
        self,
        w: W,
        object: RawObject,
        name: RawObject,
        args: Seq<RawObject>,
    ) -> (W, PyResult<Bound<'py, PyAny>>) {
        let (found, method) = (self.getattr)(w, object, name);
        match method {
            Ok(method) => (self.call)(found, method.raw(), args, RawObject::null()),
            Err(error) => (found, Err(error)),
        }
    }

    /// The arguments that are passed by position.
    pub open spec fn passed(self, args: Positional) -> Seq<RawObject> {
        match args {
            Positional::NoArgs => Seq::empty(),
            Positional::Tuple(tuple) => (self.items)(tuple),
        }
    }

    /// What the C API does on a request.
    pub open spec fn answer(self, w: W, request: CallRequest) -> (W, CallReply<'py>) {
        match request {
            CallRequest::EmptyTuple => {
                let (w, made) = (self.empty_tuple)(w);
                (w, CallReply::Tuple(made))
            },
            CallRequest::VectorcallDict { callable, room, first, nargsf, kwargs } => {
                let args = room@.subrange(first as int, first + positional_count(nargsf));
                let (w, result) = (self.call)(w, callable, args, kwargs);
                (w, CallReply::Object(result))
            },
            CallRequest::CallNoArgs { callable } => {
                let (w, result) = (self.call)(w, callable, Seq::empty(), RawObject::null());
                (w, CallReply::Object(result))
            },
            CallRequest::CallMethodNoArgs { object, name } => {
                let (w, result) = self.call_method(w, object, name, Seq::empty());
                (w, CallReply::Object(result))
            },
            CallRequest::Call { callable, args, kwargs } => {
                let (w, result) = (self.call)(w, callable, (self.items)(args), kwargs);
                (w, CallReply::Object(result))
            },
            CallRequest::TupleSize { tuple } => {
                (w, CallReply::Size((self.items)(tuple).len() as isize))
            },
            CallRequest::TupleGetItem { tuple, index } => {
                (w, CallReply::Item((self.items)(tuple)[index as int]))
            },
            CallRequest::VectorcallMethod { name, slots, nargsf, kwnames } => {
                let args = slots@.subrange(1, positional_count(nargsf));
                let (w, result) = self.call_method(w, slots@[0], name, args);
                (w, CallReply::Object(result))
            },
            CallRequest::GetAttr { object, name } => {
                let (w, result) = (self.getattr)(w, object, name);
                (w, CallReply::Object(result))
            },
        }
    }

    /// The run of `step` for at most `fuel` requests.
    pub open spec fn run(self, step: CallModel<'py>, w: W, fuel: nat) -> CallRun<'py, W>
        decreases fuel,
    {
        match step {
            Step::Done(outcome) => CallRun {
                trace: Seq::empty(),
                world: w,
                outcome: Some(outcome),
            },
            Step::Ask(request, state) => if fuel == 0 {
                CallRun { trace: Seq::empty(), world: w, outcome: None }
            } else {
                let (next, reply) = self.answer(w, request);
                let rest = self.run(state.after(reply), next, (fuel - 1) as nat);
                CallRun { trace: seq![request] + rest.trace, ..rest }
            },
        }
    }
}

/// The requests that a call can need at most: the size of a tuple, the items
/// that fit the stack, and the call itself.
pub open spec fn longest_call() -> nat {
    (MAX_STACK_ARGS + 2) as nat
}

/// `slots` hold the receiver, then the first `filled` of `items`, then null
/// pointers.
pub open spec fn slots_hold(
    slots: [RawObject; STACK_SLOTS],
    object: RawObject,
    items: Seq<RawObject>,
    filled: int,
) -> bool {
    &&& slots@[0] == object
    &&& forall|i: int| 1 <= i <= filled ==> slots@[i] == items[i - 1]
    &&& forall|i: int| filled < i < STACK_SLOTS ==> slots@[i] == RawObject::null()
}

/// The call at the end of the short route: the receiver and all the items.
pub open spec fn calls_with_items(
    request: CallRequest,
    object: RawObject,
    name: RawObject,
    items: Seq<RawObject>,
) -> bool {
    match request {
        CallRequest::VectorcallMethod { name: called, slots, nargsf, kwnames } => {
            &&& called == name
            &&& slots_hold(slots, object, items, items.len() as int)
            &&& positional_count(nargsf) == items.len() + 1
            &&& has_arguments_offset(nargsf)
            &&& kwnames.is_null()
        },
        _ => false,
    }
}

impl<'py, W> Interpreter<'py, W> {
    /// From some filled slots on, the short route reads the other items in
    /// order and makes the call.
    proof fn lemma_items_then_call(
        self,
        w: W,
        tuple: RawObject,
        object: RawObject,
        name: RawObject,
        slots: [RawObject; STACK_SLOTS],
        filled: usize,
        len: usize,
        fuel: nat,
    )
        requires
            (self.items)(tuple).len() == len,
            filled <= len <= MAX_STACK_ARGS,
            slots_hold(slots, object, (self.items)(tuple), filled as int),
            fuel > len - filled,
        ensures
            ({
                let items = (self.items)(tuple);
                let run = self.run(next_slot(tuple, name, slots, filled, len), w, fuel);
                &&& run.outcome is Some
                &&& (run.world, run.outcome->0) == self.call_method(w, object, name, items)
                &&& run.trace.len() == len - filled + 1
                &&& forall|i: int|
                    0 <= i < len - filled ==> #[trigger] run.trace[i]
                        == (CallRequest::TupleGetItem { tuple, index: (filled + i) as isize })
                &&& calls_with_items(run.trace.last(), object, name, items)
            }),
        decreases len - filled,
    {
        let items = (self.items)(tuple);
        if filled == len {
            let nargsf = (1 + len + arguments_offset()) as usize;
            assert(slots@.subrange(1, positional_count(nargsf)) =~= items);
            let request = CallRequest::VectorcallMethod {
                name,
                slots,
                nargsf,
                kwnames: RawObject::null(),
            };
            let (next, reply) = self.answer(w, request);
            let rest = self.run(CallState::Finish.after(reply), next, (fuel - 1) as nat);
            assert(rest.trace =~= Seq::empty());
            assert(seq![request] + rest.trace =~= seq![request]);
        } else {
            let request = CallRequest::TupleGetItem { tuple, index: filled as isize };
            let state = CallState::TupleItem { tuple, name, slots, filled, len };
            let (next, reply) = self.answer(w, request);
            let more = vstd::array::spec_array_update(slots, filled + 1, items[filled as int]);
            self.lemma_items_then_call(
                w,
                tuple,
                object,
                name,
                more,
                (filled + 1) as usize,
                len,
                (fuel - 1) as nat,
            );
            let rest = self.run(state.after(reply), next, (fuel - 1) as nat);
            let run = self.run(next_slot(tuple, name, slots, filled, len), w, fuel);
            assert(run.trace == seq![request] + rest.trace);
            assert forall|i: int| 0 <= i < len - filled implies #[trigger] run.trace[i]
                == (CallRequest::TupleGetItem { tuple, index: (filled + i) as isize }) by {
                if i > 0 {
                    assert(run.trace[i] == rest.trace[i - 1]);
                }
            }
        }
    }
}

/// A call with keyword arguments is one call of the function, with the very
/// tuple and the very `dict` that were given. Only where `()` has to be made a
/// tuple first can anything else go wrong: then the error comes out and nothing
/// is called.
pub proof fn law_call<'py, W>(
    interpreter: Interpreter<'py, W>,
    w: W,
    args: Positional,
    function: RawObject,
    kwargs: RawObject,
    build: Build,
)
    requires
        interpreter.wf(),
    ensures
        ({
            let run = interpreter.run(
                plan_call(args, function, kwargs, build),
                w,
                longest_call(),
            );
            let passed = interpreter.passed(args);
            let direct = (interpreter.call)(w, function, passed, kwargs);
            let (made, tuple) = (interpreter.empty_tuple)(w);
            &&& run.outcome is Some
            &&& (args is Tuple || build.vectorcall_dict()) ==> {
                &&& (run.world, run.outcome->0) == direct
                &&& run.trace.len() == 1
            }
            &&& args matches Positional::Tuple(tuple) ==> run.trace == seq![
                CallRequest::Call { callable: function, args: tuple, kwargs },
            ]
            &&& !(args is Tuple || build.vectorcall_dict()) ==> match tuple {
                Ok(_) => (run.world, run.outcome->0) == (interpreter.call)(
                    made,
                    function,
                    passed,
                    kwargs,
                ),
                Err(error) => {
                    &&& run.world == made
                    &&& run.outcome->0 == Err::<Bound<'py, PyAny>, _>(error)
                    &&& run.trace == seq![CallRequest::EmptyTuple]
                },
            }
        }),
{
    reveal_with_fuel(Interpreter::run, 4);
    let room = [RawObject::null()];
    assert(room@.subrange(1, 1) =~= Seq::empty());
    assert(positional_count(arguments_offset() as usize) == 0);
}

/// A call without keyword arguments is one call of the function, with the very
/// tuple that was given and no keywords.
pub proof fn law_call_positional<'py, W>(
    interpreter: Interpreter<'py, W>,
    w: W,
    args: Positional,
    function: RawObject,
)
    ensures
        ({
            let run = interpreter.run(plan_call_positional(args, function), w, longest_call());
            &&& run.outcome is Some
            &&& (run.world, run.outcome->0) == (interpreter.call)(
                w,
                function,
                interpreter.passed(args),
                RawObject::null(),
            )
            &&& run.trace == seq![
                match args {
                    Positional::NoArgs => CallRequest::CallNoArgs { callable: function },
                    Positional::Tuple(tuple) => CallRequest::Call {
                        callable: function,
                        args: tuple,
                        kwargs: RawObject::null(),
                    },
                },
            ]
        }),
{
    reveal_with_fuel(Interpreter::run, 3);
}

/// A method call is the lookup of the method and its call with the items,
/// whichever route it takes.
pub proof fn law_call_method_positional<'py, W>(
    interpreter: Interpreter<'py, W>,
    w: W,
    args: Positional,
    object: RawObject,
    name: RawObject,
    build: Build,
)
    requires
        interpreter.wf(),
    ensures
        ({
            let direct = interpreter.call_method(w, object, name, interpreter.passed(args));
            let chosen = interpreter.run(
                plan_call_method_positional(args, object, name, build),
                w,
                longest_call(),
            );
            let provided = interpreter.run(
                plan_by_attribute(args, object, name),
                w,
                longest_call(),
            );
            &&& chosen.outcome is Some
            &&& (chosen.world, chosen.outcome->0) == direct
            &&& provided.outcome is Some
            &&& (provided.world, provided.outcome->0) == direct
        }),
{
    reveal_with_fuel(Interpreter::run, 4);
    if let Positional::Tuple(tuple) = args {
        if build.vectorcall_method() {
            let items = (interpreter.items)(tuple);
            if items.len() <= MAX_STACK_ARGS {
                interpreter.lemma_items_then_call(
                    w,
                    tuple,
                    object,
                    name,
                    receiver_slots(object),
                    0,
                    items.len() as usize,
                    (longest_call() - 1) as nat,
                );
            }
        }
    }
}

/// The short route: with few items the tuple is read in order and the method is
/// called with the receiver and the items, in one request. No method object is
/// looked up.
pub proof fn law_few_items_skip_the_lookup<'py, W>(
    interpreter: Interpreter<'py, W>,
    w: W,
    tuple: RawObject,
    object: RawObject,
    name: RawObject,
    build: Build,
)
    requires
        build.vectorcall_method(),
        (interpreter.items)(tuple).len() <= MAX_STACK_ARGS,
    ensures
        ({
            let items = (interpreter.items)(tuple);
            let run = interpreter.run(
                plan_call_method_positional(Positional::Tuple(tuple), object, name, build),
                w,
                longest_call(),
            );
            &&& run.trace.len() == items.len() + 2
            &&& run.trace[0] == (CallRequest::TupleSize { tuple })
            &&& forall|i: int|
                1 <= i <= items.len() ==> #[trigger] run.trace[i] == (CallRequest::TupleGetItem {
                    tuple,
                    index: (i - 1) as isize,
                })
            &&& calls_with_items(run.trace.last(), object, name, items)
            &&& !exists|i: int| 0 <= i < run.trace.len() && #[trigger] run.trace[i] is GetAttr
        }),
{
    let items = (interpreter.items)(tuple);
    let fuel = (longest_call() - 1) as nat;
    interpreter.lemma_items_then_call(
        w,
        tuple,
        object,
        name,
        receiver_slots(object),
        0,
        items.len() as usize,
        fuel,
    );
    let step = plan_call_method_positional(Positional::Tuple(tuple), object, name, build);
    let run = interpreter.run(step, w, longest_call());
    let rest = interpreter.run(
        next_slot(tuple, name, receiver_slots(object), 0, items.len() as usize),
        w,
        fuel,
    );
    assert(run.trace == seq![CallRequest::TupleSize { tuple }] + rest.trace);
    assert forall|i: int| 1 <= i <= items.len() implies #[trigger] run.trace[i] == (
    CallRequest::TupleGetItem { tuple, index: (i - 1) as isize }) by {
        assert(run.trace[i] == rest.trace[i - 1]);
    }
}

/// The long route: with more items than the stack takes, the method is looked
/// up and called with the tuple itself; if it is not found, nothing is called.
pub proof fn law_many_items_look_the_method_up<'py, W>(
    interpreter: Interpreter<'py, W>,
    w: W,
    tuple: RawObject,
    object: RawObject,
    name: RawObject,
    build: Build,
)
    requires
        interpreter.wf(),
        build.vectorcall_method(),
        (interpreter.items)(tuple).len() > MAX_STACK_ARGS,
    ensures
        ({
            let run = interpreter.run(
                plan_call_method_positional(Positional::Tuple(tuple), object, name, build),
                w,
                longest_call(),
            );
            let lookup = seq![
                CallRequest::TupleSize { tuple },
                CallRequest::GetAttr { object, name },
            ];
            match (interpreter.getattr)(w, object, name).1 {
                Ok(method) => run.trace == lookup.push(
                    CallRequest::Call {
                        callable: method.raw(),
                        args: tuple,
                        kwargs: RawObject::null(),
                    },
                ),
                Err(error) => {
                    &&& run.trace == lookup
                    &&& run.outcome == Some(Err::<Bound<'py, PyAny>, _>(error))
                },
            }
        }),
{
    reveal_with_fuel(Interpreter::run, 5);
}

/// The builds agree on every method call: its outcome and what it does to the
/// interpreter.
pub proof fn law_builds_agree_on_method_calls<'py, W>(
    interpreter: Interpreter<'py, W>,
    w: W,
    args: Positional,
    object: RawObject,
    name: RawObject,
    one: Build,
    other: Build,
)
    requires
        interpreter.wf(),
    ensures
        ({
            let left = interpreter.run(
                plan_call_method_positional(args, object, name, one),
                w,
                longest_call(),
            );
            let right = interpreter.run(
                plan_call_method_positional(args, object, name, other),
                w,
                longest_call(),
            );
            left.outcome == right.outcome && left.world == right.world
        }),
{
    law_call_method_positional(interpreter, w, args, object, name, one);
    law_call_method_positional(interpreter, w, args, object, name, other);
}

/// The builds agree on every call with keyword arguments: on its outcome, if the
/// empty tuple can be made where it is needed and making it makes no difference
/// to the function.
pub proof fn law_builds_agree_on_calls<'py, W>(
    interpreter: Interpreter<'py, W>,
    w: W,
    args: Positional,
    function: RawObject,
    kwargs: RawObject,
    one: Build,
    other: Build,
)
    requires
        interpreter.wf(),
        args is NoArgs && one.vectorcall_dict() != other.vectorcall_dict() ==> {
            let (made, tuple) = (interpreter.empty_tuple)(w);
            &&& tuple is Ok
            &&& (interpreter.call)(w, function, Seq::empty(), kwargs).1 == (interpreter.call)(
                made,
                function,
                Seq::empty(),
                kwargs,
            ).1
        },
    ensures
        interpreter.run(plan_call(args, function, kwargs, one), w, longest_call()).outcome
            == interpreter.run(
            plan_call(args, function, kwargs, other),
            w,
            longest_call(),
        ).outcome,
{
    law_call(interpreter, w, args, function, kwargs, one);
    law_call(interpreter, w, args, function, kwargs, other);
}

impl<'py, W> Interpreter<'py, W> {
    /// A run with more fuel goes on where one with less stopped.
    proof fn lemma_longer_run(self, step: CallModel<'py>, w: W, short: nat, long: nat)
        requires
            short <= long,
        ensures
            ({
                let (left, right) = (self.run(step, w, short), self.run(step, w, long));
                &&& left.trace.len() <= right.trace.len()
                &&& left.trace == right.trace.take(left.trace.len() as int)
                &&& left.outcome is Some ==> left == right
                &&& left.outcome is None ==> left.trace.len() == short
            }),
        decreases short,
    {
        let (left, right) = (self.run(step, w, short), self.run(step, w, long));
        if let Step::Ask(request, state) = step {
            if short > 0 {
                let (next, reply) = self.answer(w, request);
                let then = state.after(reply);
                let (less, more) = ((short - 1) as nat, (long - 1) as nat);
                self.lemma_longer_run(then, next, less, more);
                let (a, b) = (self.run(then, next, less), self.run(then, next, more));
                assert(left.trace == seq![request] + a.trace);
                assert(right.trace == seq![request] + b.trace);
                assert(left.trace =~= right.trace.take(left.trace.len() as int)) by {
                    assert forall|i: int| 0 <= i < left.trace.len() implies left.trace[i]
                        == right.trace[i] by {
                        if i > 0 {
                            assert(left.trace[i] == a.trace[i - 1]);
                            assert(right.trace[i] == b.trace[i - 1]);
                            assert(a.trace[i - 1] == b.trace.take(a.trace.len() as int)[i - 1]);
                        }
                    }
                }
            }
        }
        assert(left.trace =~= right.trace.take(left.trace.len() as int));
    }
}

/// A run goes on where a shorter one stopped: it asks the same first, and what was
/// done stays done. One that is not done asked as often as it could.
pub proof fn law_longer_call_goes_on<'py, W>(
    interpreter: Interpreter<'py, W>,
    w: W,
    step: CallModel<'py>,
    short: nat,
    long: nat,
)
    requires
        short <= long,
    ensures
        ({
            let left = interpreter.run(step, w, short);
            let right = interpreter.run(step, w, long);
            &&& left.trace.len() <= right.trace.len()
            &&& left.trace == right.trace.take(left.trace.len() as int)
            &&& left.outcome is Some ==> left == right
            &&& left.outcome is None ==> left.trace.len() == short
        }),
{
    interpreter.lemma_longer_run(step, w, short, long);
}

/// Without positional arguments, a call on PyPy, on GraalPy and in the limited API
/// makes the empty tuple and calls the function with that tuple and the very `dict`
/// that was given. Elsewhere it is one request with no argument: one null slot, the
/// arguments behind it, of which there are none, and the flag, the highest bit of
/// the word, which lets the callee change that slot.
pub proof fn law_no_args_call_by_build<'py, W>(
    interpreter: Interpreter<'py, W>,
    w: W,
    function: RawObject,
    kwargs: RawObject,
    build: Build,
    fuel: nat,
)
    requires
        fuel >= 2,
    ensures
        ({
            let step = plan_call(Positional::NoArgs, function, kwargs, build);
            let run = interpreter.run(step, w, fuel);
            let (made, tuple) = (interpreter.empty_tuple)(w);
            &&& build.pypy || build.graalpy || build.limited_api ==> match tuple {
                Ok(tuple) => {
                    &&& run.trace == seq![
                        CallRequest::EmptyTuple,
                        CallRequest::Call { callable: function, args: tuple.raw(), kwargs },
                    ]
                    &&& run.outcome is Some
                    &&& (run.world, run.outcome->0) == (interpreter.call)(
                        made,
                        function,
                        (interpreter.items)(tuple.raw()),
                        kwargs,
                    )
                },
                Err(error) => {
                    &&& run.trace == seq![CallRequest::EmptyTuple]
                    &&& run.world == made
                    &&& run.outcome == Some(Err::<Bound<'py, PyAny>, _>(error))
                },
            }
            &&& !build.pypy && !build.graalpy && !build.limited_api ==> {
                &&& run.trace.len() == 1
                &&& run.trace[0] matches CallRequest::VectorcallDict {
                    callable,
                    room,
                    first,
                    nargsf,
                    kwargs: keywords,
                } && {
                    &&& callable == function
                    &&& room@ == seq![RawObject { address: 0 }]
                    &&& first == 1
                    &&& 2 * nargsf == usize::MAX + 1
                    &&& keywords == kwargs
                }
                &&& run.outcome is Some
                &&& (run.world, run.outcome->0) == (interpreter.call)(
                    w,
                    function,
                    Seq::empty(),
                    kwargs,
                )
            }
        }),
{
    reveal_with_fuel(Interpreter::run, 3);
    let room = [RawObject::null()];
    assert(room@.subrange(1, 1) =~= Seq::empty());
    assert(room@ =~= seq![RawObject { address: 0 }]);
    assert(positional_count(arguments_offset() as usize) == 0);
}

/// A call with a tuple is the same one request on every build: the very tuple, the
/// very `dict`.
pub proof fn law_tuple_call_on_every_build<'py, W>(
    interpreter: Interpreter<'py, W>,
    w: W,
    tuple: RawObject,
    function: RawObject,
    kwargs: RawObject,
    build: Build,
    fuel: nat,
)
    requires
        fuel >= 1,
    ensures
        ({
            let step = plan_call(Positional::Tuple(tuple), function, kwargs, build);
            let run = interpreter.run(step, w, fuel);
            &&& run.trace == seq![CallRequest::Call { callable: function, args: tuple, kwargs }]
            &&& run.outcome is Some
            &&& (run.world, run.outcome->0) == (interpreter.call)(
                w,
                function,
                (interpreter.items)(tuple),
                kwargs,
            )
        }),
{
    reveal_with_fuel(Interpreter::run, 2);
}

/// A method call without arguments is one request on every build, and no method
/// object is looked up for it.
pub proof fn law_no_args_method_on_every_build<'py, W>(
    interpreter: Interpreter<'py, W>,
    w: W,
    object: RawObject,
    name: RawObject,
    build: Build,
    fuel: nat,
)
    requires
        fuel >= 1,
    ensures
        ({
            let step = plan_call_method_positional(Positional::NoArgs, object, name, build);
            let run = interpreter.run(step, w, fuel);
            &&& run.trace == seq![CallRequest::CallMethodNoArgs { object, name }]
            &&& run.outcome is Some
            &&& (run.world, run.outcome->0) == interpreter.call_method(
                w,
                object,
                name,
                Seq::empty(),
            )
        }),
{
    reveal_with_fuel(Interpreter::run, 2);
}

/// Looking the method up and calling it: two requests, the second with the very
/// tuple that was given; if the method is not found, its error comes out and nothing
/// is called.
pub proof fn law_lookup_then_call<'py, W>(
    interpreter: Interpreter<'py, W>,
    w: W,
    args: Positional,
    object: RawObject,
    name: RawObject,
    fuel: nat,
)
    requires
        fuel >= 2,
    ensures
        ({
            let run = interpreter.run(plan_by_attribute(args, object, name), w, fuel);
            let (found, method) = (interpreter.getattr)(w, object, name);
            match method {
                Ok(method) => {
                    &&& run.trace == seq![
                        CallRequest::GetAttr { object, name },
                        match args {
                            Positional::NoArgs => {
                                CallRequest::CallNoArgs { callable: method.raw() }
                            },
                            Positional::Tuple(tuple) => CallRequest::Call {
                                callable: method.raw(),
                                args: tuple,
                                kwargs: RawObject { address: 0 },
                            },
                        },
                    ]
                    &&& run.outcome is Some
                    &&& (run.world, run.outcome->0) == (interpreter.call)(
                        found,
                        method.raw(),
                        interpreter.passed(args),
                        RawObject { address: 0 },
                    )
                },
                Err(error) => {
                    &&& run.trace == seq![CallRequest::GetAttr { object, name }]
                    &&& run.world == found
                    &&& run.outcome == Some(Err::<Bound<'py, PyAny>, _>(error))
                },
            }
        }),
{
    reveal_with_fuel(Interpreter::run, 3);
}

/// On PyPy, on GraalPy, and in the limited API before Python 3.12, a method call with
/// a tuple, of whatever size, looks the method up and calls it with the tuple. The
/// tuple is not even asked for its size.
pub proof fn law_method_call_without_vectorcall<'py, W>(
    interpreter: Interpreter<'py, W>,
    w: W,
    tuple: RawObject,
    object: RawObject,
    name: RawObject,
    build: Build,
    fuel: nat,
)
    requires
        build.pypy || build.graalpy || (build.limited_api && !build.py_3_12),
        fuel >= 2,
    ensures
        ({
            let args = Positional::Tuple(tuple);
            let step = plan_call_method_positional(args, object, name, build);
            let run = interpreter.run(step, w, fuel);
            let (found, method) = (interpreter.getattr)(w, object, name);
            match method {
                Ok(method) => {
                    &&& run.trace == seq![
                        CallRequest::GetAttr { object, name },
                        CallRequest::Call {
                            callable: method.raw(),
                            args: tuple,
                            kwargs: RawObject { address: 0 },
                        },
                    ]
                    &&& run.outcome is Some
                    &&& (run.world, run.outcome->0) == (interpreter.call)(
                        found,
                        method.raw(),
                        (interpreter.items)(tuple),
                        RawObject { address: 0 },
                    )
                },
                Err(error) => {
                    &&& run.trace == seq![CallRequest::GetAttr { object, name }]
                    &&& run.world == found
                    &&& run.outcome == Some(Err::<Bound<'py, PyAny>, _>(error))
                },
            }
        }),
{
    law_lookup_then_call(interpreter, w, Positional::Tuple(tuple), object, name, fuel);
}

/// On CPython with the full API, or the limited API of Python 3.12 on, a method call
/// with a tuple of up to eight items asks for its size, reads its items in order and
/// makes one request of them: the receiver, the items and then null slots, their
/// count with the receiver and the flag, and no keywords.
pub proof fn law_method_call_with_up_to_eight_items<'py, W>(
    interpreter: Interpreter<'py, W>,
    w: W,
    tuple: RawObject,
    object: RawObject,
    name: RawObject,
    build: Build,
    fuel: nat,
)
    requires
        !build.pypy,
        !build.graalpy,
        build.limited_api ==> build.py_3_12,
        (interpreter.items)(tuple).len() <= 8,
        fuel >= 10,
    ensures
        ({
            let items = (interpreter.items)(tuple);
            let args = Positional::Tuple(tuple);
            let step = plan_call_method_positional(args, object, name, build);
            let run = interpreter.run(step, w, fuel);
            &&& run.trace.len() == items.len() + 2
            &&& run.trace[0] == (CallRequest::TupleSize { tuple })
            &&& forall|i: int|
                0 <= i < items.len() ==> run.trace[i + 1] == (CallRequest::TupleGetItem {
                    tuple,
                    index: #[trigger] (i as isize),
                })
            &&& run.trace.last() matches CallRequest::VectorcallMethod {
                name: called,
                slots,
                nargsf,
                kwnames,
            } && {
                &&& called == name
                &&& slots@ == seq![object] + items + Seq::new(
                    (8 - items.len()) as nat,
                    |i: int| RawObject { address: 0 },
                )
                &&& 2 * (nargsf - (items.len() + 1)) == usize::MAX + 1
                &&& kwnames == (RawObject { address: 0 })
            }
            &&& run.outcome is Some
            &&& (run.world, run.outcome->0) == interpreter.call_method(w, object, name, items)
        }),
{
    let items = (interpreter.items)(tuple);
    let len = items.len() as usize;
    let rest_fuel = (fuel - 1) as nat;
    let slots = receiver_slots(object);
    interpreter.lemma_items_then_call(w, tuple, object, name, slots, 0, len, rest_fuel);
    let args = Positional::Tuple(tuple);
    let step = plan_call_method_positional(args, object, name, build);
    let run = interpreter.run(step, w, fuel);
    let rest = interpreter.run(next_slot(tuple, name, slots, 0, len), w, rest_fuel);
    assert(run.trace == seq![CallRequest::TupleSize { tuple }] + rest.trace);
    assert forall|i: int| 0 <= i < items.len() implies run.trace[i + 1] == (
    CallRequest::TupleGetItem { tuple, index: #[trigger] (i as isize) }) by {
        assert(run.trace[i + 1] == rest.trace[i]);
    }
    assert(run.trace.last() == rest.trace.last());
    let called = run.trace.last()->VectorcallMethod_slots;
    let nulls = Seq::new((8 - items.len()) as nat, |i: int| RawObject { address: 0 });
    assert(called@ =~= seq![object] + items + nulls) by {
        assert forall|i: int| 0 <= i < 9 implies called@[i] == (seq![object] + items
            + nulls)[i] by {
            if 1 <= i <= items.len() {
                assert(called@[i] == items[i - 1]);
            }
        }
    }
}

/// On these builds a tuple of nine or more items is asked for its size, and then the
/// method is looked up and called with the tuple itself.
pub proof fn law_method_call_with_nine_or_more_items<'py, W>(
    interpreter: Interpreter<'py, W>,
    w: W,
    tuple: RawObject,
    object: RawObject,
    name: RawObject,
    build: Build,
    fuel: nat,
)
    requires
        interpreter.wf(),
        !build.pypy,
        !build.graalpy,
        build.limited_api ==> build.py_3_12,
        (interpreter.items)(tuple).len() >= 9,
        fuel >= 3,
    ensures
        ({
            let args = Positional::Tuple(tuple);
            let step = plan_call_method_positional(args, object, name, build);
            let run = interpreter.run(step, w, fuel);
            let (found, method) = (interpreter.getattr)(w, object, name);
            let lookup = seq![
                CallRequest::TupleSize { tuple },
                CallRequest::GetAttr { object, name },
            ];
            match method {
                Ok(method) => {
                    &&& run.trace == lookup.push(
                        CallRequest::Call {
                            callable: method.raw(),
                            args: tuple,
                            kwargs: RawObject { address: 0 },
                        },
                    )
                    &&& run.outcome is Some
                    &&& (run.world, run.outcome->0) == (interpreter.call)(
                        found,
                        method.raw(),
                        (interpreter.items)(tuple),
                        RawObject { address: 0 },
                    )
                },
                Err(error) => {
                    &&& run.trace == lookup
                    &&& run.world == found
                    &&& run.outcome == Some(Err::<Bound<'py, PyAny>, _>(error))
                },
            }
        }),
{
    reveal_with_fuel(Interpreter::run, 4);
}

/// A size that could not be had counts as too many: as with more than eight items, the
/// method is looked up and called with the tuple itself.
pub proof fn law_size_out_of_range_looks_the_method_up<'py>(
    tuple: RawObject,
    object: RawObject,
    name: RawObject,
    build: Build,
    size: isize,
    method: Bound<'py, PyAny>,
    outcome: PyResult<Bound<'py, PyAny>>,
)
    requires
        !build.pypy,
        !build.graalpy,
        build.limited_api ==> build.py_3_12,
        size < 0 || size > 8,
    ensures
        ({
            let args = Positional::Tuple(tuple);
            let start = plan_call_method_positional::<'py>(args, object, name, build);
            let sized = start->Ask_1.after(CallReply::<'py>::Size(size));
            let found = sized->Ask_1.after(CallReply::Object(Ok(method)));
            &&& start is Ask && start->Ask_0 == (CallRequest::TupleSize { tuple })
            &&& sized is Ask && sized->Ask_0 == (CallRequest::GetAttr { object, name })
            &&& found is Ask && found->Ask_0 == (CallRequest::Call {
                callable: method.raw(),
                args: tuple,
                kwargs: RawObject { address: 0 },
            })
            &&& found->Ask_1.after(CallReply::Object(outcome)) == CallModel::Done(outcome)
        }),
{
}

/// No request is made that the build does not have: `PyObject_VectorcallDict` not on
/// PyPy, on GraalPy or in the limited API, `PyObject_VectorcallMethod` not on PyPy, on
/// GraalPy or in the limited API before Python 3.12, however far the call gets.
pub proof fn law_only_what_the_build_has<'py, W>(
    interpreter: Interpreter<'py, W>,
    w: W,
    args: Positional,
    callee: RawObject,
    name: RawObject,
    kwargs: RawObject,
    build: Build,
    fuel: nat,
)
    ensures
        ({
            let call = interpreter.run(plan_call(args, callee, kwargs, build), w, fuel).trace;
            let method = interpreter.run(
                plan_call_method_positional(args, callee, name, build),
                w,
                fuel,
            ).trace;
            &&& build.pypy || build.graalpy || build.limited_api ==> forall|i: int|
                0 <= i < call.len() ==> !(#[trigger] call[i] is VectorcallDict)
            &&& build.pypy || build.graalpy || (build.limited_api && !build.py_3_12)
                ==> forall|i: int|
                0 <= i < method.len() ==> !(#[trigger] method[i] is VectorcallMethod)
        }),
{
    let step = plan_call(args, callee, kwargs, build);
    interpreter.lemma_longer_run(step, w, fuel, fuel + 2);
    let step = plan_call_method_positional(args, callee, name, build);
    interpreter.lemma_longer_run(step, w, fuel, fuel + 2);
    match args {
        Positional::NoArgs => {
            law_no_args_call_by_build(interpreter, w, callee, kwargs, build, fuel + 2);
            law_no_args_method_on_every_build(interpreter, w, callee, name, build, fuel + 2);
        },
        Positional::Tuple(tuple) => {
            law_tuple_call_on_every_build(
                interpreter,
                w,
                tuple,
                callee,
                kwargs,
                build,
                fuel + 2,
            );
            if build.pypy || build.graalpy || (build.limited_api && !build.py_3_12) {
                law_method_call_without_vectorcall(
                    interpreter,
                    w,
                    tuple,
                    callee,
                    name,
                    build,
                    fuel + 2,
                );
            }
        },
    }
}

/// All handles on one tuple pass the same arguments.
pub proof fn law_tuple_handles_agree<'a, 'py>(
    bound: Bound<'py, PyTuple>,
    unbound: Py<PyTuple>,
    borrowed: Borrowed<'a, 'py, PyTuple>,
)
    requires
        bound.raw() == unbound.raw(),
        bound.raw() == borrowed.raw(),
    ensures
        bound.positional() == Positional::Tuple(bound.raw()),
        (&bound).positional() == bound.positional(),
        unbound.positional() == bound.positional(),
        (&unbound).positional() == bound.positional(),
        borrowed.positional() == bound.positional(),
{
}

/// `()` passes nothing.
pub proof fn law_unit_passes_nothing<'py, W>(interpreter: Interpreter<'py, W>)
    ensures
        ().positional() == Positional::NoArgs,
        interpreter.passed(().positional()) == Seq::<RawObject>::empty(),
{
}

/// The slots that a request lets the callee read and change are there: the
/// arguments, and one more slot that the flag allows to be changed.
pub open spec fn stays_in_its_slots(request: CallRequest) -> bool {
    match request {
        CallRequest::VectorcallDict { room, first, nargsf, .. } => {
            &&& first + positional_count(nargsf) <= room@.len()
            &&& has_arguments_offset(nargsf) ==> first >= 1
        },
        CallRequest::VectorcallMethod { slots, nargsf, .. } => {
            1 <= positional_count(nargsf) <= slots@.len()
        },
        CallRequest::TupleGetItem { index, .. } => 0 <= index < MAX_STACK_ARGS,
        _ => true,
    }
}

/// No call lets the callee out of the slots that it made.
pub proof fn law_calls_stay_in_their_slots<'py>(
    args: Positional,
    function: RawObject,
    kwargs: RawObject,
    name: RawObject,
    build: Build,
    state: CallState,
    reply: CallReply<'py>,
)
    requires
        state.wf(),
        state.accepts(reply),
    ensures
        plan_call::<'py>(args, function, kwargs, build) matches Step::Ask(request, _)
            ==> stays_in_its_slots(request),
        plan_call_positional::<'py>(args, function) matches Step::Ask(request, _)
            ==> stays_in_its_slots(request),
        plan_call_method_positional::<'py>(args, function, name, build) matches Step::Ask(
            request,
            _,
        ) ==> stays_in_its_slots(request),
        state.after(reply) matches Step::Ask(request, next) ==> stays_in_its_slots(request)
            && next.wf(),
{
}

} // verus!
