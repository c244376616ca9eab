//! How Python calls are dispatched, see [`PyCallArgs`].

use crate::config::Build;
use crate::err::PyResult;
use crate::handle::{Borrowed, Bound, Py, PyAny, PyDict, PyString, PyTuple, RawObject};
use crate::private::Sealed;
use crate::step::Step;
use crate::vectorcall::{arguments_offset, with_vectorcall_arguments_offset};
use vstd::prelude::*;

pub use crate::private::Token;

verus! {

/// The most tuple items that a method call copies to the stack.
pub const MAX_STACK_ARGS: usize = 8;

/// The slots of a method call: the receiver, then the items.
pub const STACK_SLOTS: usize = 9;

/// One call of the C API.
#[verifier::ext_equal]
#[derive(Clone, Copy, Debug, PartialEq, Eq)]
pub enum CallRequest {
    /// Make the empty tuple. The reply is [`CallReply::Tuple`].
    EmptyTuple,
    /// `PyObject_VectorcallDict(callable, &room[first], nargsf, kwargs)`.
    /// The reply is [`CallReply::Object`].
    VectorcallDict {
        callable: RawObject,
        room: [RawObject; 1],
        first: usize,
        nargsf: usize,
        kwargs: RawObject,
    },
    /// `PyObject_CallNoArgs(callable)`. The reply is [`CallReply::Object`].
    CallNoArgs { callable: RawObject },
    /// `PyObject_CallMethodNoArgs(object, name)`. The reply is [`CallReply::Object`].
    CallMethodNoArgs { object: RawObject, name: RawObject },
    /// `PyObject_Call(callable, args, kwargs)`. The reply is [`CallReply::Object`].
    Call { callable: RawObject, args: RawObject, kwargs: RawObject },
    /// `PyTuple_Size(tuple)`. The reply is [`CallReply::Size`].
    TupleSize { tuple: RawObject },
    /// `PyTuple_GetItem(tuple, index)`. The reply is [`CallReply::Item`].
    TupleGetItem { tuple: RawObject, index: isize },
    /// `PyObject_VectorcallMethod(name, slots, nargsf, kwnames)`.
    /// The reply is [`CallReply::Object`].
    VectorcallMethod {
        name: RawObject,
        slots: [RawObject; STACK_SLOTS],
        nargsf: usize,
        kwnames: RawObject,
    },
    /// `PyObject_GetAttr(object, name)`. The reply is [`CallReply::Object`].
    GetAttr { object: RawObject, name: RawObject },
}

/// What a [`CallRequest`] gave.
pub enum CallReply<'py> {
    /// A new reference, or the error that was raised.
    Object(PyResult<Bound<'py, PyAny>>),
    /// A new tuple, or the error that was raised.
    Tuple(PyResult<Bound<'py, PyTuple>>),
    /// A size; negative if it could not be had.
    Size(isize),
    /// A borrowed reference; null if there is none.
    Item(RawObject),
}

/// What is passed by position.
#[derive(Clone, Copy, Debug, PartialEq, Eq, Structural)]
pub enum Positional {
    /// Nothing.
    NoArgs,
    /// The items of a tuple.
    Tuple(RawObject),
}

/// What is left of a call while a request is out.
#[verifier::ext_equal]
#[derive(Clone, Copy)]
pub enum CallState {
    /// The reply is the outcome.
    Finish,
    /// The empty tuple is being made, to call `function` with it.
    EmptyTuple { function: RawObject, kwargs: RawObject },
    /// The size of `tuple` is being asked for, to call a method with its items.
    TupleSize { tuple: RawObject, object: RawObject, name: RawObject },
    /// Item `filled` of `tuple` is being read. The items before it are in
    /// `slots`, behind the receiver.
    TupleItem {
        tuple: RawObject,
        name: RawObject,
        slots: [RawObject; STACK_SLOTS],
        filled: usize,
        len: usize,
    },
    /// The method is being looked up, to call it.
    Attribute { args: Positional },
}

/// A call with a request out.
pub struct PendingCall {
    state: CallState,
}

/// A call: under way, or done.
pub type CallStep<'py> = Step<CallRequest, PendingCall, PyResult<Bound<'py, PyAny>>>;

/// What a [`CallStep`] stands for.
pub type CallModel<'py> = Step<CallRequest, CallState, PyResult<Bound<'py, PyAny>>>;

impl View for PendingCall {
    type V = CallState;

    closed spec fn view(&self) -> CallState {
        self.state
    }
}

/// What `step` stands for.
pub open spec fn call_model<'py>(step: CallStep<'py>) -> CallModel<'py> {
    match step {
        Step::Ask(request, pending) => Step::Ask(request, pending@),
        Step::Done(outcome) => Step::Done(outcome),
    }
}

/// Perform `request`; its reply is the outcome.
pub open spec fn just<'py>(request: CallRequest) -> CallModel<'py> {
    Step::Ask(request, CallState::Finish)
}

/// Call `function` with `args` and the keyword arguments in `kwargs`.
pub open spec fn plan_call<'py>(
    args: Positional,
    function: RawObject,
    kwargs: RawObject,
    build: Build,
) -> CallModel<'py> {
    match args {
        Positional::Tuple(tuple) => just(
            CallRequest::Call { callable: function, args: tuple, kwargs },
        ),
        Positional::NoArgs => if build.vectorcall_dict() {
            just(
                CallRequest::VectorcallDict {
                    callable: function,
                    room: [RawObject::null()],
                    first: 1,
                    nargsf: arguments_offset() as usize,
                    kwargs,
                },
            )
        } else {
            Step::Ask(CallRequest::EmptyTuple, CallState::EmptyTuple { function, kwargs })
        },
    }
}

/// The slots of a method call before any item is in them: the receiver, then
/// null pointers.
pub open spec fn receiver_slots(object: RawObject) -> [RawObject; STACK_SLOTS] {
    vstd::array::spec_array_update([RawObject::null(); STACK_SLOTS], 0, object)
}

/// Call `function` with `args` alone.
pub open spec fn plan_call_positional<'py>(args: Positional, function: RawObject) -> CallModel<
    'py,
> {
    match args {
        Positional::Tuple(tuple) => just(
            CallRequest::Call { callable: function, args: tuple, kwargs: RawObject::null() },
        ),
        Positional::NoArgs => just(CallRequest::CallNoArgs { callable: function }),
    }
}

/// Look the method `name` of `object` up, then call it with `args` alone.
pub open spec fn plan_by_attribute<'py>(
    args: Positional,
    object: RawObject,
    name: RawObject,
) -> CallModel<'py> {
    Step::Ask(CallRequest::GetAttr { object, name }, CallState::Attribute { args })
}

/// Call the method `name` of `object` with the items of `tuple`, if they are few.
pub open spec fn plan_by_items<'py>(
    tuple: RawObject,
    object: RawObject,
    name: RawObject,
) -> CallModel<'py> {
    Step::Ask(CallRequest::TupleSize { tuple }, CallState::TupleSize { tuple, object, name })
}

/// Call the method `name` of `object` with `args` alone, by the shortest route
/// that `build` has.
pub open spec fn plan_call_method_positional<'py>(
    args: Positional,
    object: RawObject,
    name: RawObject,
    build: Build,
) -> CallModel<'py> {
    match args {
        Positional::NoArgs => just(CallRequest::CallMethodNoArgs { object, name }),
        Positional::Tuple(tuple) => if build.vectorcall_method() {
            plan_by_items(tuple, object, name)
        } else {
            plan_by_attribute(args, object, name)
        },
    }
}

/// Read the next of `len` items, or make the call once all of them are there.
pub open spec fn next_slot<'py>(
    tuple: RawObject,
    name: RawObject,
    slots: [RawObject; STACK_SLOTS],
    filled: usize,
    len: usize,
) -> CallModel<'py> {
    if filled == len {
        just(
            CallRequest::VectorcallMethod {
                name,
                slots,
                nargsf: (1 + len + arguments_offset()) as usize,
                kwnames: RawObject::null(),
            },
        )
    } else {
        Step::Ask(
            CallRequest::TupleGetItem { tuple, index: filled as isize },
            CallState::TupleItem { tuple, name, slots, filled, len },
        )
    }
}

impl CallState {
    /// The slots have room for the items that are still to come.
    pub open spec fn wf(self) -> bool {
        self matches CallState::TupleItem { filled, len, .. } ==> filled < len <= MAX_STACK_ARGS
    }

    /// `reply` is of the kind that the request asked for.
    pub open spec fn accepts(self, reply: CallReply) -> bool {
        match self {
            CallState::Finish => reply is Object,
            CallState::EmptyTuple { .. } => reply is Tuple,
            CallState::TupleSize { .. } => reply is Size,
            CallState::TupleItem { .. } => reply is Item,
            CallState::Attribute { .. } => reply is Object,
        }
    }

    /// What follows `reply`.
    pub open spec fn after<'py>(self, reply: CallReply<'py>) -> CallModel<'py>
        recommends
            self.wf(),
            self.accepts(reply),
    {
        match self {
            CallState::Finish => Step::Done(reply->Object_0),
            CallState::EmptyTuple { function, kwargs } => match reply->Tuple_0 {
                Ok(tuple) => just(
                    CallRequest::Call { callable: function, args: tuple.raw(), kwargs },
                ),
                Err(error) => Step::Done(Err(error)),
            },
            CallState::TupleSize { tuple, object, name } => if 0 <= reply->Size_0
                <= MAX_STACK_ARGS {
                next_slot(tuple, name, receiver_slots(object), 0, reply->Size_0 as usize)
            } else {
                plan_by_attribute(Positional::Tuple(tuple), object, name)
            },
            CallState::TupleItem { tuple, name, slots, filled, len } => next_slot(
                tuple,
                name,
                vstd::array::spec_array_update(slots, filled + 1, reply->Item_0),
                (filled + 1) as usize,
                len,
            ),
            CallState::Attribute { args } => match reply->Object_0 {
                Ok(method) => plan_call_positional(args, method.raw()),
                Err(error) => Step::Done(Err(error)),
            },
        }
    }
}

/// Makes the call once all `len` items are in their slots, else asks for the
/// next one.
fn fill_or_call<'py>(
    tuple: RawObject,
    name: RawObject,
    slots: [RawObject; STACK_SLOTS],
    filled: usize,
    len: usize,
) -> (step: CallStep<'py>)
    requires
        filled <= len <= MAX_STACK_ARGS,
    ensures
        call_model(step) == next_slot::<'py>(tuple, name, slots, filled, len),
{
    if filled == len {
        // +1 for the receiver.
        let nargsf: usize = with_vectorcall_arguments_offset(1 + len);
        PendingCall::finish(
            CallRequest::VectorcallMethod { name, slots, nargsf, kwnames: RawObject::null() },
        )
    } else {
        Step::Ask(
            CallRequest::TupleGetItem { tuple, index: filled as isize },
            PendingCall { state: CallState::TupleItem { tuple, name, slots, filled, len } },
        )
    }
}

/// `PyObject_Call` on a tuple, with keyword arguments unless `kwargs` is null.
fn call_tuple<'py>(function: RawObject, tuple: RawObject, kwargs: RawObject) -> (step: CallStep<
    'py,
>)
    ensures
        call_model(step) == just::<'py>(
            CallRequest::Call { callable: function, args: tuple, kwargs },
        ),
{
    PendingCall::finish(CallRequest::Call { callable: function, args: tuple, kwargs })
}

/// A call without keyword arguments.
fn call_alone<'py>(args: Positional, function: RawObject) -> (step: CallStep<'py>)
    ensures
        call_model(step) == plan_call_positional::<'py>(args, function),
{
    match args {
        Positional::Tuple(tuple) => call_tuple(function, tuple, RawObject::null()),
        Positional::NoArgs => PendingCall::finish(CallRequest::CallNoArgs { callable: function }),
    }
}

/// The method by name, then the call: works on every build.
fn call_by_attribute<'py>(args: Positional, object: RawObject, name: RawObject) -> (step: CallStep<
    'py,
>)
    ensures
        call_model(step) == plan_by_attribute::<'py>(args, object, name),
{
    Step::Ask(
        CallRequest::GetAttr { object, name },
        PendingCall { state: CallState::Attribute { args } },
    )
}

impl PendingCall {
    #[verifier::type_invariant]
    spec fn has_room(self) -> bool {
        self.state.wf()
    }

    /// The request's reply is the outcome.
    fn finish<'py>(request: CallRequest) -> (step: CallStep<'py>)
        ensures
            call_model(step) == just::<'py>(request),
    {
        Step::Ask(request, PendingCall { state: CallState::Finish })
    }

    /// Goes on with the reply to the request that is out.
    pub fn resume<'py>(self, reply: CallReply<'py>) -> (step: CallStep<'py>)
        requires
            self@.accepts(reply),
        ensures
            self@.wf(),
            call_model(step) == self@.after(reply),
    {
        proof {
            use_type_invariant(&self);
        }
        match (self.state, reply) {
            (CallState::Finish, CallReply::Object(outcome)) => Step::Done(outcome),
            (CallState::EmptyTuple { function, kwargs }, CallReply::Tuple(made)) => match made {
                Ok(tuple) => call_tuple(function, tuple.as_ptr(), kwargs),
                Err(error) => Step::Done(Err(error)),
            },
            (CallState::TupleSize { tuple, object, name }, CallReply::Size(size)) => {
                if 0 <= size && size <= MAX_STACK_ARGS as isize {
                    let mut slots: [RawObject; STACK_SLOTS] = [RawObject::null(); STACK_SLOTS];
                    slots[0] = object;
                    fill_or_call(tuple, name, slots, 0, size as usize)
                } else {
                    call_by_attribute(Positional::Tuple(tuple), object, name)
                }
            },
            (CallState::TupleItem { tuple, name, slots, filled, len }, CallReply::Item(item)) => {
                let mut slots: [RawObject; STACK_SLOTS] = slots;
                slots[filled + 1] = item;
                fill_or_call(tuple, name, slots, filled + 1, len)
            },
            (CallState::Attribute { args }, CallReply::Object(found)) => match found {
                Ok(method) => call_alone(args, method.as_ptr()),
                Err(error) => Step::Done(Err(error)),
            },
            _ => vstd::pervasive::unreached(),
        }
    }
}

/// This trait marks types that can be used as arguments to Python function
/// calls.
///
/// It is implemented for `()`, for [`Bound<'py, PyTuple>`] and [`Py<PyTuple>`],
/// for references to these two, and for [`Borrowed<'_, 'py, PyTuple>`]. It
/// dispatches the Python calls in the most optimal way for the build
/// configuration: `()` needs no tuple where the C API can call without one, and
/// a method call with few items needs no method object.
pub trait PyCallArgs<'py>: Sized + Sealed {
    /// What these arguments pass by position.
    spec fn positional(self) -> Positional;

    /// What these arguments pass by position.
    fn into_positional(self) -> (args: Positional)
        ensures
            args == self.positional(),
    ;

    /// Calls `function` with these arguments and the keyword arguments `kwargs`.
    fn call(
        self,
        function: Borrowed<'_, 'py, PyAny>,
        kwargs: Borrowed<'_, 'py, PyDict>,
        token: Token,
        build: Build,
    ) -> (step: CallStep<'py>)
        ensures
            call_model(step) == plan_call::<'py>(
                self.positional(),
                function.raw(),
                kwargs.raw(),
                build,
            ),
    ;

    /// Calls `function` with these arguments alone.
    fn call_positional(self, function: Borrowed<'_, 'py, PyAny>, token: Token) -> (step: CallStep<
        'py,
    >)
        ensures
            call_model(step) == plan_call_positional::<'py>(self.positional(), function.raw()),
    ;

    /// Calls the method `method_name` of `object` with these arguments alone.
    ///
    /// Provided by way of the attribute; a type may have a shorter route.
    fn call_method_positional(
        self,
        object: Borrowed<'_, 'py, PyAny>,
        method_name: Borrowed<'_, 'py, PyString>,
        token: Token,
        build: Build,
    ) -> (step: CallStep<'py>)
        ensures
            ({
                let args = self.positional();
                ||| call_model(step) == plan_by_attribute::<'py>(
                    args,
                    object.raw(),
                    method_name.raw(),
                )
                ||| call_model(step) == plan_call_method_positional::<'py>(
                    args,
                    object.raw(),
                    method_name.raw(),
                    build,
                )
            }),
        default_ensures
            call_model(step) == plan_by_attribute::<'py>(
                self.positional(),
                object.raw(),
                method_name.raw(),
            ),
    {
        call_by_attribute(self.into_positional(), object.as_ptr(), method_name.as_ptr())
    }
}

impl<'py> PyCallArgs<'py> for () {
    open spec fn positional(self) -> Positional {
        Positional::NoArgs
    }

    fn into_positional(self) -> (args: Positional) {
        Positional::NoArgs
    }

    fn call(
        self,
        function: Borrowed<'_, 'py, PyAny>,
        kwargs: Borrowed<'_, 'py, PyDict>,
        token: Token,
        build: Build,
    ) -> (step: CallStep<'py>) {
        if build.has_vectorcall_dict() {
            // One null slot that the callee may change.
            let room: [RawObject; 1] = [RawObject::null()];
            PendingCall::finish(
                CallRequest::VectorcallDict {
                    callable: function.as_ptr(),
                    room,
                    first: 1,
                    nargsf: with_vectorcall_arguments_offset(0),
                    kwargs: kwargs.as_ptr(),
                },
            )
        } else {
            Step::Ask(
                CallRequest::EmptyTuple,
                PendingCall {
                    state: CallState::EmptyTuple {
                        function: function.as_ptr(),
                        kwargs: kwargs.as_ptr(),
                    },
                },
            )
        }
    }

    fn call_positional(self, function: Borrowed<'_, 'py, PyAny>, token: Token) -> (step: CallStep<
        'py,
    >) {
        call_alone(Positional::NoArgs, function.as_ptr())
    }

    fn call_method_positional(
        self,
        object: Borrowed<'_, 'py, PyAny>,
        method_name: Borrowed<'_, 'py, PyString>,
        token: Token,
        build: Build,
    ) -> (step: CallStep<'py>)
        ensures
            call_model(step) == plan_call_method_positional::<'py>(
                Positional::NoArgs,
                object.raw(),
                method_name.raw(),
                build,
            ),
    {
        PendingCall::finish(
            CallRequest::CallMethodNoArgs { object: object.as_ptr(), name: method_name.as_ptr() },
        )
    }
}

impl<'a, 'py> PyCallArgs<'py> for Borrowed<'a, 'py, PyTuple> {
    open spec fn positional(self) -> Positional {
        Positional::Tuple(self.raw())
    }

    fn into_positional(self) -> (args: Positional) {
        Positional::Tuple(self.as_ptr())
    }

    fn call(
        self,
        function: Borrowed<'_, 'py, PyAny>,
        kwargs: Borrowed<'_, 'py, PyDict>,
        token: Token,
        build: Build,
    ) -> (step: CallStep<'py>) {
        call_tuple(function.as_ptr(), self.as_ptr(), kwargs.as_ptr())
    }

    fn call_positional(self, function: Borrowed<'_, 'py, PyAny>, token: Token) -> (step: CallStep<
        'py,
    >) {
        call_alone(Positional::Tuple(self.as_ptr()), function.as_ptr())
    }

    /// For small argument counts the items go to the stack, which saves the
    /// method object that the way by the attribute makes.
    fn call_method_positional(
        self,
        object: Borrowed<'_, 'py, PyAny>,
        method_name: Borrowed<'_, 'py, PyString>,
        token: Token,
        build: Build,
    ) -> (step: CallStep<'py>)
        ensures
            call_model(step) == plan_call_method_positional::<'py>(
                self.positional(),
                object.raw(),
                method_name.raw(),
                build,
            ),
    {
        let tuple: RawObject = self.as_ptr();
        let (object, name): (RawObject, RawObject) = (object.as_ptr(), method_name.as_ptr());
        if build.has_vectorcall_method() {
            Step::Ask(
                CallRequest::TupleSize { tuple },
                PendingCall { state: CallState::TupleSize { tuple, object, name } },
            )
        } else {
            call_by_attribute(Positional::Tuple(tuple), object, name)
        }
    }
}

impl<'py> PyCallArgs<'py> for Bound<'py, PyTuple> {
    open spec fn positional(self) -> Positional {
        Positional::Tuple(self.raw())
    }

    fn into_positional(self) -> (args: Positional) {
        Positional::Tuple(self.as_ptr())
    }

    fn call(
        self,
        function: Borrowed<'_, 'py, PyAny>,
        kwargs: Borrowed<'_, 'py, PyDict>,
        token: Token,
        build: Build,
    ) -> (step: CallStep<'py>) {
        self.as_borrowed().call(function, kwargs, token, build)
    }

    fn call_positional(self, function: Borrowed<'_, 'py, PyAny>, token: Token) -> (step: CallStep<
        'py,
    >) {
        self.as_borrowed().call_positional(function, token)
    }

    fn call_method_positional(
        self,
        object: Borrowed<'_, 'py, PyAny>,
        method_name: Borrowed<'_, 'py, PyString>,
        token: Token,
        build: Build,
    ) -> (step: CallStep<'py>)
        ensures
            call_model(step) == plan_call_method_positional::<'py>(
                self.positional(),
                object.raw(),
                method_name.raw(),
                build,
            ),
    {
        self.as_borrowed().call_method_positional(object, method_name, token, build)
    }
}

impl<'a, 'py> PyCallArgs<'py> for &'a Bound<'py, PyTuple> {
    open spec fn positional(self) -> Positional {
        Positional::Tuple(self.raw())
    }

    fn into_positional(self) -> (args: Positional) {
        Positional::Tuple(self.as_ptr())
    }

    fn call(
        self,
        function: Borrowed<'_, 'py, PyAny>,
        kwargs: Borrowed<'_, 'py, PyDict>,
        token: Token,
        build: Build,
    ) -> (step: CallStep<'py>) {
        self.as_borrowed().call(function, kwargs, token, build)
    }

    fn call_positional(self, function: Borrowed<'_, 'py, PyAny>, token: Token) -> (step: CallStep<
        'py,
    >) {
        self.as_borrowed().call_positional(function, token)
    }

    fn call_method_positional(
        self,
        object: Borrowed<'_, 'py, PyAny>,
        method_name: Borrowed<'_, 'py, PyString>,
        token: Token,
        build: Build,
    ) -> (step: CallStep<'py>)
        ensures
            call_model(step) == plan_call_method_positional::<'py>(
                self.positional(),
                object.raw(),
                method_name.raw(),
                build,
            ),
    {
        self.as_borrowed().call_method_positional(object, method_name, token, build)
    }
}

impl<'py> PyCallArgs<'py> for Py<PyTuple> {
    open spec fn positional(self) -> Positional {
        Positional::Tuple(self.raw())
    }

    fn into_positional(self) -> (args: Positional) {
        Positional::Tuple(self.as_ptr())
    }

    fn call(
        self,
        function: Borrowed<'_, 'py, PyAny>,
        kwargs: Borrowed<'_, 'py, PyDict>,
        token: Token,
        build: Build,
    ) -> (step: CallStep<'py>) {
        self.bind_borrowed(function.py()).call(function, kwargs, token, build)
    }

    fn call_positional(self, function: Borrowed<'_, 'py, PyAny>, token: Token) -> (step: CallStep<
        'py,
    >) {
        self.bind_borrowed(function.py()).call_positional(function, token)
    }

    fn call_method_positional(
        self,
        object: Borrowed<'_, 'py, PyAny>,
        method_name: Borrowed<'_, 'py, PyString>,
        token: Token,
        build: Build,
    ) -> (step: CallStep<'py>)
        ensures
            call_model(step) == plan_call_method_positional::<'py>(
                self.positional(),
                object.raw(),
                method_name.raw(),
                build,
            ),
    {
        self.bind_borrowed(object.py()).call_method_positional(object, method_name, token, build)
    }
}

impl<'a, 'py> PyCallArgs<'py> for &'a Py<PyTuple> {
    open spec fn positional(self) -> Positional {
        Positional::Tuple(self.raw())
    }

    fn into_positional(self) -> (args: Positional) {
        Positional::Tuple(self.as_ptr())
    }

    fn call(
        self,
        function: Borrowed<'_, 'py, PyAny>,
        kwargs: Borrowed<'_, 'py, PyDict>,
        token: Token,
        build: Build,
    ) -> (step: CallStep<'py>) {
        self.bind_borrowed(function.py()).call(function, kwargs, token, build)
    }

    fn call_positional(self, function: Borrowed<'_, 'py, PyAny>, token: Token) -> (step: CallStep<
        'py,
    >) {
        self.bind_borrowed(function.py()).call_positional(function, token)
    }

    fn call_method_positional(
        self,
        object: Borrowed<'_, 'py, PyAny>,
        method_name: Borrowed<'_, 'py, PyString>,
        token: Token,
        build: Build,
    ) -> (step: CallStep<'py>)
        ensures
            call_model(step) == plan_call_method_positional::<'py>(
                self.positional(),
                object.raw(),
                method_name.raw(),
                build,
            ),
    {
        self.bind_borrowed(object.py()).call_method_positional(object, method_name, token, build)
    }
}

} // verus!
