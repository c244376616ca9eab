//! Drives the library with a small interpreter: objects live in a heap and are
//! known by their address.

use pydispatch::call::{CallReply, CallRequest, CallStep, PyCallArgs, Token};
use pydispatch::config::Build;
use pydispatch::conversion::{
    FromPyObject, IntoPyObject, ListForm, NewSequence, SequenceElement, SequenceKind,
};
use pydispatch::err::{CastTarget, PyErr};
use pydispatch::handle::{
    Borrowed, Bound, Py, PyAny, PyDict, PyString, PyTuple, Python, RawObject,
};
use pydispatch::step::Step;
use pydispatch::vec::{extract_sequence, ExtractReply, ExtractRequest, ExtractStep, STR_MESSAGE};

const OFFSET: usize = 1 << (usize::BITS - 1);

/// An object of the small interpreter.
#[derive(Clone, Debug, PartialEq)]
enum Object {
    Int(i64),
    Str(String),
    Bytes(Vec<u8>),
    ByteArray(Vec<u8>),
    Tuple(Vec<RawObject>),
    List(Vec<RawObject>),
    /// A subclass of `tuple` or `list` with items, and with an `__iter__` that
    /// gives other ones.
    SubclassWithIter(Vec<RawObject>, Vec<RawObject>),
    Range(i64, i64),
    /// A sequence whose `__len__` raises.
    NoLength(Vec<RawObject>),
    /// A sequence whose `__iter__` raises.
    NoIter,
    Dict(Vec<(String, RawObject)>),
    Nothing,
    Exception(&'static str),
    /// `def args_kwargs(*args, **kwargs): return (args, kwargs or None)`
    ArgsKwargs,
    /// An instance of `class C: def m(self, *args, **kwargs): return (args, kwargs)`
    Instance,
    /// The method `m` of an instance.
    Method(RawObject),
    /// The items that are left, and what is raised behind them.
    Iter(Vec<RawObject>, Option<&'static str>),
    /// The iterator over a list, and its position.
    ListIter(RawObject, usize),
    /// A sequence whose iterator raises behind these items.
    RaisesBehind(Vec<RawObject>, &'static str),
}

#[derive(Default)]
struct Heap {
    objects: Vec<Object>,
    calls: Vec<CallRequest>,
    questions: Vec<ExtractRequest>,
    empty_tuple_fails: bool,
}

fn py() -> Python<'static> {
    Python::assume_attached()
}

impl Heap {
    fn new(&mut self, object: Object) -> RawObject {
        self.objects.push(object);
        RawObject {
            address: 0x1000 + 16 * self.objects.len(),
        }
    }

    fn get(&self, raw: RawObject) -> &Object {
        &self.objects[(raw.address - 0x1000) / 16 - 1]
    }

    fn get_mut(&mut self, raw: RawObject) -> &mut Object {
        &mut self.objects[(raw.address - 0x1000) / 16 - 1]
    }

    fn bound<T>(&self, raw: RawObject) -> Bound<'static, T> {
        Bound::from_owned_ptr_or_opt(py(), raw).unwrap()
    }

    fn raise(&mut self, message: &'static str) -> PyErr {
        let exception = self.new(Object::Exception(message));
        PyErr::Raised(Py::from_owned_ptr_or_opt(exception).unwrap())
    }

    fn message(&self, error: &PyErr) -> &'static str {
        match error {
            PyErr::Raised(exception) => match self.get(exception.as_ptr()) {
                Object::Exception(message) => message,
                other => panic!("{:?} is no exception", other),
            },
            other => panic!("{:?} was not raised", other),
        }
    }

    fn ints(&mut self, values: &[i64]) -> Vec<RawObject> {
        values.iter().map(|v| self.new(Object::Int(*v))).collect()
    }

    fn tuple(&mut self, values: &[i64]) -> RawObject {
        let items = self.ints(values);
        self.new(Object::Tuple(items))
    }

    fn list(&mut self, values: &[i64]) -> RawObject {
        let items = self.ints(values);
        self.new(Object::List(items))
    }

    fn items(&self, raw: RawObject) -> Vec<RawObject> {
        match self.get(raw) {
            Object::Tuple(items) | Object::List(items) | Object::SubclassWithIter(items, _) => {
                items.clone()
            }
            other => panic!("{:?} has no items", other),
        }
    }

    // The two callables.

    fn call(
        &mut self,
        callable: RawObject,
        args: RawObject,
        kwargs: RawObject,
    ) -> Result<Bound<'static, PyAny>, PyErr> {
        let keywords = match self.get(callable).clone() {
            Object::ArgsKwargs if kwargs.is_null() => self.new(Object::Nothing),
            Object::ArgsKwargs => kwargs,
            Object::Method(_) if kwargs.is_null() => self.new(Object::Dict(vec![])),
            Object::Method(_) => kwargs,
            _ => return Err(self.raise("not callable")),
        };
        let result = self.new(Object::Tuple(vec![args, keywords]));
        Ok(self.bound(result))
    }

    fn getattr(&mut self, object: RawObject, name: RawObject) -> Result<RawObject, PyErr> {
        match (self.get(object), self.get(name)) {
            (Object::Instance, Object::Str(name)) if name == "m" => {
                Ok(self.new(Object::Method(object)))
            }
            _ => Err(self.raise("no such attribute")),
        }
    }

    fn call_method(
        &mut self,
        object: RawObject,
        name: RawObject,
        args: Vec<RawObject>,
    ) -> Result<Bound<'static, PyAny>, PyErr> {
        let method = self.getattr(object, name)?;
        let args = self.new(Object::Tuple(args));
        self.call(method, args, RawObject::null())
    }

    fn answer_call(&mut self, request: CallRequest) -> CallReply<'static> {
        match request {
            CallRequest::EmptyTuple => {
                if self.empty_tuple_fails {
                    CallReply::Tuple(Err(self.raise("out of memory")))
                } else {
                    let tuple = self.new(Object::Tuple(vec![]));
                    CallReply::Tuple(Ok(self.bound(tuple)))
                }
            }
            CallRequest::VectorcallDict {
                callable,
                room,
                first,
                nargsf,
                kwargs,
            } => {
                let args = room[first..first + (nargsf & !OFFSET)].to_vec();
                let args = self.new(Object::Tuple(args));
                CallReply::Object(self.call(callable, args, kwargs))
            }
            CallRequest::CallNoArgs { callable } => {
                let args = self.new(Object::Tuple(vec![]));
                CallReply::Object(self.call(callable, args, RawObject::null()))
            }
            CallRequest::CallMethodNoArgs { object, name } => {
                CallReply::Object(self.call_method(object, name, vec![]))
            }
            CallRequest::Call {
                callable,
                args,
                kwargs,
            } => CallReply::Object(self.call(callable, args, kwargs)),
            CallRequest::TupleSize { tuple } => match self.get(tuple) {
                Object::Tuple(items) => CallReply::Size(items.len() as isize),
                _ => CallReply::Size(-1),
            },
            CallRequest::TupleGetItem { tuple, index } => {
                CallReply::Item(self.items(tuple)[index as usize])
            }
            CallRequest::VectorcallMethod {
                name,
                slots,
                nargsf,
                kwnames,
            } => {
                assert!(kwnames.is_null());
                let args = slots[1..(nargsf & !OFFSET)].to_vec();
                CallReply::Object(self.call_method(slots[0], name, args))
            }
            CallRequest::GetAttr { object, name } => {
                let found = self.getattr(object, name);
                CallReply::Object(found.map(|method| self.bound(method)))
            }
        }
    }

    fn finish(&mut self, mut step: CallStep<'static>) -> Result<RawObject, PyErr> {
        self.calls.clear();
        loop {
            match step {
                Step::Ask(request, pending) => {
                    self.calls.push(request);
                    step = pending.resume(self.answer_call(request));
                }
                Step::Done(outcome) => return outcome.map(|object| object.as_ptr()),
            }
        }
    }

    /// The two items of what both callables return.
    fn pair(&self, result: RawObject) -> (RawObject, RawObject) {
        let items = self.items(result);
        assert_eq!(items.len(), 2);
        (items[0], items[1])
    }

    // Extraction.

    fn answer_question<T: Element>(
        &mut self,
        request: ExtractRequest,
        on_item: &mut dyn FnMut(&mut Heap),
    ) -> ExtractReply<'static, T, Vec<T>> {
        match request {
            ExtractRequest::SequenceExtractor { obj } => ExtractReply::Whole(T::whole(self, obj)),
            ExtractRequest::IsStr { obj } => {
                ExtractReply::Flag(matches!(self.get(obj), Object::Str(_)))
            }
            ExtractRequest::IsExactTuple { obj } => {
                ExtractReply::Flag(matches!(self.get(obj), Object::Tuple(_)))
            }
            ExtractRequest::IsExactList { obj } => {
                ExtractReply::Flag(matches!(self.get(obj), Object::List(_)))
            }
            ExtractRequest::TupleLen { tuple } => ExtractReply::Count(self.items(tuple).len()),
            ExtractRequest::TupleItem { tuple, index } => {
                ExtractReply::Item(self.items(tuple)[index])
            }
            ExtractRequest::ListLen { list } => ExtractReply::Count(self.items(list).len()),
            ExtractRequest::ListItem { list, index } => ExtractReply::Item(self.items(list)[index]),
            ExtractRequest::ExtractItem { item } => {
                on_item(self);
                ExtractReply::Value(T::extract(self, item))
            }
            ExtractRequest::IsSequence { obj } => ExtractReply::Flag(!matches!(
                self.get(obj),
                Object::Int(_) | Object::Dict(_) | Object::Nothing
            )),
            ExtractRequest::Len { obj } => ExtractReply::Length(match self.get(obj).clone() {
                Object::Tuple(items) | Object::List(items) => Ok(items.len()),
                Object::SubclassWithIter(items, _) => Ok(items.len()),
                Object::Range(from, to) => Ok((to - from) as usize),
                _ => Err(self.raise("no length")),
            }),
            ExtractRequest::TryIter { obj } => {
                let iter = match self.get(obj).clone() {
                    Object::List(_) => Object::ListIter(obj, 0),
                    Object::SubclassWithIter(_, items) => Object::Iter(items, None),
                    Object::Tuple(items) | Object::NoLength(items) => Object::Iter(items, None),
                    Object::Range(from, to) => {
                        let values: Vec<i64> = (from..to).collect();
                        Object::Iter(self.ints(&values), None)
                    }
                    Object::Str(text) => {
                        let letters = text.chars().map(|c| self.new(Object::Str(c.to_string())));
                        Object::Iter(letters.collect(), None)
                    }
                    Object::RaisesBehind(items, message) => Object::Iter(items, Some(message)),
                    _ => return ExtractReply::Object(Err(self.raise("not iterable"))),
                };
                let iter = self.new(iter);
                ExtractReply::Object(Ok(self.bound(iter)))
            }
            ExtractRequest::NextItem { iter } => {
                let next = match self.get_mut(iter) {
                    Object::Iter(items, raises) => {
                        if items.is_empty() {
                            raises.take().map(Err)
                        } else {
                            Some(Ok(items.remove(0)))
                        }
                    }
                    Object::ListIter(list, position) => {
                        let (list, at) = (*list, *position);
                        *position += 1;
                        self.items(list).get(at).map(|item| Ok(*item))
                    }
                    other => panic!("{:?} is no iterator", other),
                };
                ExtractReply::Next(match next {
                    None => None,
                    Some(Ok(item)) => Some(Ok(self.bound(item))),
                    Some(Err(message)) => Some(Err(self.raise(message))),
                })
            }
        }
    }

    fn collect<T: Element>(
        &mut self,
        mut step: ExtractStep<T>,
        on_item: &mut dyn FnMut(&mut Heap),
    ) -> Result<Vec<T>, PyErr> {
        self.questions.clear();
        loop {
            match step {
                Step::Ask(request, pending) => {
                    self.questions.push(request);
                    step = pending.resume(self.answer_question(request, on_item));
                }
                Step::Done(outcome) => return outcome,
            }
        }
    }

    fn extract_on<T: Element>(&mut self, obj: RawObject, build: Build) -> Result<Vec<T>, PyErr> {
        let obj = self.bound::<PyAny>(obj);
        let step = Vec::<T>::extract(obj.as_borrowed(), build);
        self.collect(step, &mut |_| ())
    }

    fn extract<T: Element>(&mut self, obj: RawObject) -> Result<Vec<T>, PyErr> {
        self.extract_on(obj, Build::cpython())
    }
}

/// The element types of these tests.
trait Element: Sized {
    fn extract(heap: &mut Heap, item: RawObject) -> Result<Self, PyErr>;

    fn whole(_heap: &Heap, _obj: RawObject) -> Option<Vec<Self>> {
        None
    }
}

fn as_int(heap: &mut Heap, item: RawObject) -> Result<i64, PyErr> {
    match heap.get(item) {
        Object::Int(value) => Ok(*value),
        _ => Err(heap.raise("not an int")),
    }
}

impl Element for i64 {
    fn extract(heap: &mut Heap, item: RawObject) -> Result<i64, PyErr> {
        as_int(heap, item)
    }
}

impl Element for i32 {
    fn extract(heap: &mut Heap, item: RawObject) -> Result<i32, PyErr> {
        Ok(as_int(heap, item)? as i32)
    }
}

impl Element for u16 {
    fn extract(heap: &mut Heap, item: RawObject) -> Result<u16, PyErr> {
        Ok(as_int(heap, item)? as u16)
    }
}

impl Element for u8 {
    fn extract(heap: &mut Heap, item: RawObject) -> Result<u8, PyErr> {
        Ok(as_int(heap, item)? as u8)
    }

    fn whole(heap: &Heap, obj: RawObject) -> Option<Vec<u8>> {
        match heap.get(obj) {
            Object::Bytes(bytes) | Object::ByteArray(bytes) => Some(bytes.clone()),
            _ => None,
        }
    }
}

impl Element for String {
    fn extract(heap: &mut Heap, item: RawObject) -> Result<String, PyErr> {
        match heap.get(item) {
            Object::Str(text) => Ok(text.clone()),
            _ => Err(heap.raise("not a str")),
        }
    }
}

impl Element for char {
    fn extract(heap: &mut Heap, item: RawObject) -> Result<char, PyErr> {
        match heap.get(item) {
            Object::Str(text) if text.chars().count() == 1 => Ok(text.chars().next().unwrap()),
            _ => Err(heap.raise("not a char")),
        }
    }
}

fn make_bytes(heap: &mut Heap, request: NewSequence<&[u8]>) -> RawObject {
    match request.kind {
        SequenceKind::Bytes => heap.new(Object::Bytes(request.items.to_vec())),
        SequenceKind::List => panic!("bytes do not become a list"),
    }
}

fn make_list(heap: &mut Heap, request: NewSequence<&[u16]>) -> RawObject {
    match request.kind {
        SequenceKind::Bytes => panic!("only bytes become bytes"),
        SequenceKind::List => {
            let values: Vec<i64> = request.items.iter().map(|v| i64::from(*v)).collect();
            heap.list(&values)
        }
    }
}

fn pypy() -> Build {
    Build {
        pypy: true,
        ..Build::cpython()
    }
}

fn limited(py_3_12: bool) -> Build {
    Build {
        limited_api: true,
        py_3_12,
        ..Build::cpython()
    }
}

fn free_threaded() -> Build {
    Build {
        gil_disabled: true,
        ..Build::cpython()
    }
}

fn builds() -> Vec<Build> {
    let graalpy = Build {
        graalpy: true,
        ..Build::cpython()
    };
    vec![
        Build::cpython(),
        pypy(),
        graalpy,
        limited(false),
        limited(true),
        free_threaded(),
    ]
}

/// `f(*args, **kwargs)` with `args` in each of its forms.
fn call_in_every_form(
    heap: &mut Heap,
    f: &Bound<'static, PyAny>,
    args: RawObject,
    kwargs: &Bound<'static, PyDict>,
    build: Build,
) -> Vec<RawObject> {
    let bound: Bound<'static, PyTuple> = heap.bound(args);
    let owned = heap.bound::<PyTuple>(args);
    let step = owned.call(f.as_borrowed(), kwargs.as_borrowed(), Token, build);
    let mut results = vec![heap.finish(step).unwrap()];
    let step = (&bound).call(f.as_borrowed(), kwargs.as_borrowed(), Token, build);
    results.push(heap.finish(step).unwrap());
    let unbound: Py<PyTuple> = heap.bound::<PyTuple>(args).unbind();
    let step = unbound.call(f.as_borrowed(), kwargs.as_borrowed(), Token, build);
    results.push(heap.finish(step).unwrap());
    let step = bound.as_unbound().call(f.as_borrowed(), kwargs.as_borrowed(), Token, build);
    results.push(heap.finish(step).unwrap());
    let borrowed: Borrowed<'_, 'static, PyTuple> = bound.as_borrowed();
    let step = borrowed.call(f.as_borrowed(), kwargs.as_borrowed(), Token, build);
    results.push(heap.finish(step).unwrap());
    results
}

#[test]
fn test_call() {
    let mut heap = Heap::default();
    let f = heap.new(Object::ArgsKwargs);
    let f = heap.bound::<PyAny>(f);
    let args = heap.tuple(&[1, 2, 3]);
    let (one, two) = (heap.new(Object::Int(1)), heap.new(Object::Int(2)));
    let kwargs = heap.new(Object::Dict(vec![
        ("foo".to_string(), one),
        ("bar".to_string(), two),
    ]));
    let dict = heap.bound::<PyDict>(kwargs);
    let results = call_in_every_form(&mut heap, &f, args, &dict, Build::cpython());
    assert_eq!(results.len(), 5);
    for result in results {
        let (a, k) = heap.pair(result);
        assert_eq!(a, args);
        assert_eq!(k, kwargs);
    }
}

#[test]
fn test_call_method_positional() {
    let mut heap = Heap::default();
    let obj = heap.new(Object::Instance);
    let obj = heap.bound::<PyAny>(obj);
    let name = heap.new(Object::Str("m".to_string()));
    let name = heap.bound::<PyString>(name);

    // empty args
    let step = ().call_method_positional(
        obj.as_borrowed(),
        name.as_borrowed(),
        Token,
        Build::cpython(),
    );
    let result = heap.finish(step).unwrap();
    let (a, k) = heap.pair(result);
    assert!(heap.extract::<i32>(a).unwrap().is_empty());
    assert_eq!(heap.get(k), &Object::Dict(vec![]));

    // small tuple: vectorcall fast path
    let args = heap.tuple(&[1, 2, 3]);
    let args = heap.bound::<PyTuple>(args);
    let step = (&args).call_method_positional(
        obj.as_borrowed(),
        name.as_borrowed(),
        Token,
        Build::cpython(),
    );
    let result = heap.finish(step).unwrap();
    let (a, _) = heap.pair(result);
    assert_eq!(heap.extract::<i32>(a).unwrap(), [1, 2, 3]);

    // large tuple: getattr fallback path
    let values: Vec<i64> = (0..20).collect();
    let args = heap.tuple(&values);
    let args = heap.bound::<PyTuple>(args);
    let step = (&args).call_method_positional(
        obj.as_borrowed(),
        name.as_borrowed(),
        Token,
        Build::cpython(),
    );
    let result = heap.finish(step).unwrap();
    let (a, _) = heap.pair(result);
    assert_eq!(heap.extract::<i32>(a).unwrap(), (0..20).collect::<Vec<i32>>());
}

#[test]
fn test_call_positional() {
    let mut heap = Heap::default();
    let f = heap.new(Object::ArgsKwargs);
    let f = heap.bound::<PyAny>(f);
    let args = heap.tuple(&[1, 2, 3]);
    let bound = heap.bound::<PyTuple>(args);
    let steps = vec![
        heap.bound::<PyTuple>(args).call_positional(f.as_borrowed(), Token),
        (&bound).call_positional(f.as_borrowed(), Token),
        heap.bound::<PyTuple>(args).unbind().call_positional(f.as_borrowed(), Token),
        bound.as_unbound().call_positional(f.as_borrowed(), Token),
        bound.as_borrowed().call_positional(f.as_borrowed(), Token),
    ];
    for step in steps {
        let result = heap.finish(step).unwrap();
        let (a, k) = heap.pair(result);
        assert_eq!(a, args);
        assert_eq!(heap.get(k), &Object::Nothing);
    }
}

#[test]
fn test_vec_from_list_and_tuple() {
    let mut heap = Heap::default();
    let list = heap.list(&[1, 2, 3]);
    assert_eq!(heap.extract::<i64>(list).unwrap(), [1, 2, 3]);

    let tuple = heap.tuple(&[1, 2, 3]);
    assert_eq!(heap.extract::<i64>(tuple).unwrap(), [1, 2, 3]);
}

#[test]
fn test_vec_from_sequence_subclass_honors_custom_iter() {
    let mut heap = Heap::default();
    let (base, iter) = (heap.ints(&[1, 2, 3]), heap.ints(&[7, 8]));
    let weird_list = heap.new(Object::SubclassWithIter(base, iter));
    assert_eq!(heap.extract::<i64>(weird_list).unwrap(), [7, 8]);

    let (base, iter) = (heap.ints(&[1, 2, 3]), heap.ints(&[9]));
    let weird_tuple = heap.new(Object::SubclassWithIter(base, iter));
    assert_eq!(heap.extract::<i64>(weird_tuple).unwrap(), [9]);
}

#[test]
fn test_vec_intopyobject_impl() {
    let mut heap = Heap::default();
    let bytes: Vec<u8> = b"foobar".to_vec();
    let request = bytes.clone().into_pyobject();
    let request = NewSequence {
        kind: request.kind,
        items: request.items.as_slice(),
    };
    let obj = make_bytes(&mut heap, request);
    assert_eq!(heap.get(obj), &Object::Bytes(bytes));

    let nums: Vec<u16> = vec![0, 1, 2, 3];
    let request = nums.into_pyobject();
    let request = NewSequence {
        kind: request.kind,
        items: request.items.as_slice(),
    };
    let obj = make_list(&mut heap, request);
    assert!(matches!(heap.get(obj), Object::List(_)));
    assert_eq!(heap.extract::<u16>(obj).unwrap(), [0, 1, 2, 3]);
}

#[test]
fn test_vec_reference_intopyobject_impl() {
    let mut heap = Heap::default();
    let bytes: Vec<u8> = b"foobar".to_vec();
    let obj = make_bytes(&mut heap, (&bytes).into_pyobject());
    assert_eq!(heap.get(obj), &Object::Bytes(bytes));

    let nums: Vec<u16> = vec![0, 1, 2, 3];
    let obj = make_list(&mut heap, (&nums).into_pyobject());
    assert!(matches!(heap.get(obj), Object::List(_)));
    assert_eq!(heap.extract::<u16>(obj).unwrap(), [0, 1, 2, 3]);
}

#[test]
fn test_strings_cannot_be_extracted_to_vec() {
    let mut heap = Heap::default();
    let ob = heap.new(Object::Str("London Calling".to_string()));

    assert!(heap.extract::<String>(ob).is_err());
    assert!(heap.extract::<char>(ob).is_err());
}

#[test]
fn test_extract_bytes_to_vec() {
    let mut heap = Heap::default();
    let bytes = heap.new(Object::Bytes(b"abc".to_vec()));
    assert_eq!(heap.extract::<u8>(bytes).unwrap(), b"abc");
}

#[test]
fn test_extract_tuple_to_vec() {
    let mut heap = Heap::default();
    let tuple = heap.tuple(&[1, 2]);
    assert_eq!(heap.extract::<i32>(tuple).unwrap(), [1, 2]);
}

#[test]
fn test_extract_range_to_vec() {
    let mut heap = Heap::default();
    let range = heap.new(Object::Range(1, 5));
    assert_eq!(heap.extract::<i32>(range).unwrap(), [1, 2, 3, 4]);
}

#[test]
fn test_extract_bytearray_to_vec() {
    let mut heap = Heap::default();
    let bytearray = heap.new(Object::ByteArray(b"abc".to_vec()));
    assert_eq!(heap.extract::<u8>(bytearray).unwrap(), b"abc");
}

// Calls.

#[test]
fn no_args_with_keywords_need_no_tuple() {
    let mut heap = Heap::default();
    let f = heap.new(Object::ArgsKwargs);
    let kwargs = heap.new(Object::Dict(vec![]));
    let (function, dict) = (heap.bound::<PyAny>(f), heap.bound::<PyDict>(kwargs));
    let step = ().call(function.as_borrowed(), dict.as_borrowed(), Token, Build::cpython());
    let result = heap.finish(step).unwrap();
    let expected = CallRequest::VectorcallDict {
        callable: f,
        room: [RawObject::null()],
        first: 1,
        nargsf: OFFSET,
        kwargs,
    };
    assert_eq!(heap.calls, [expected]);
    let (a, k) = heap.pair(result);
    assert_eq!(heap.get(a), &Object::Tuple(vec![]));
    assert_eq!(k, kwargs);
}

#[test]
fn no_args_with_keywords_become_a_tuple_elsewhere() {
    for build in [pypy(), limited(false), limited(true)] {
        let mut heap = Heap::default();
        let f = heap.new(Object::ArgsKwargs);
        let kwargs = heap.new(Object::Dict(vec![]));
        let (function, dict) = (heap.bound::<PyAny>(f), heap.bound::<PyDict>(kwargs));
        let step = ().call(function.as_borrowed(), dict.as_borrowed(), Token, build);
        let result = heap.finish(step).unwrap();
        let (a, k) = heap.pair(result);
        assert_eq!(heap.get(a), &Object::Tuple(vec![]));
        assert_eq!(k, kwargs);
        let expected = CallRequest::Call {
            callable: f,
            args: a,
            kwargs,
        };
        assert_eq!(heap.calls, [CallRequest::EmptyTuple, expected]);
    }
}

#[test]
fn builds_agree_on_calls_with_keywords() {
    for build in builds() {
        let mut heap = Heap::default();
        let f = heap.new(Object::ArgsKwargs);
        let kwargs = heap.new(Object::Dict(vec![]));
        let args = heap.tuple(&[1, 2]);
        let (function, dict) = (heap.bound::<PyAny>(f), heap.bound::<PyDict>(kwargs));
        let step = ().call(function.as_borrowed(), dict.as_borrowed(), Token, build);
        let result = heap.finish(step).unwrap();
        let (a, k) = heap.pair(result);
        assert_eq!(heap.get(a), &Object::Tuple(vec![]));
        assert_eq!(k, kwargs);
        for result in call_in_every_form(&mut heap, &function, args, &dict, build) {
            assert_eq!(heap.pair(result), (args, kwargs));
        }
    }
}

#[test]
fn failing_to_make_the_empty_tuple_is_the_outcome() {
    let mut heap = Heap {
        empty_tuple_fails: true,
        ..Heap::default()
    };
    let f = heap.new(Object::ArgsKwargs);
    let kwargs = heap.new(Object::Dict(vec![]));
    let (function, dict) = (heap.bound::<PyAny>(f), heap.bound::<PyDict>(kwargs));
    let step = ().call(function.as_borrowed(), dict.as_borrowed(), Token, pypy());
    let error = heap.finish(step).unwrap_err();
    assert_eq!(heap.message(&error), "out of memory");
    assert_eq!(heap.calls, [CallRequest::EmptyTuple]);
}

#[test]
fn no_args_alone_take_the_shortest_calls() {
    let mut heap = Heap::default();
    let f = heap.new(Object::ArgsKwargs);
    let function = heap.bound::<PyAny>(f);
    let step = ().call_positional(function.as_borrowed(), Token);
    heap.finish(step).unwrap();
    assert_eq!(heap.calls, [CallRequest::CallNoArgs { callable: f }]);

    let obj = heap.new(Object::Instance);
    let name = heap.new(Object::Str("m".to_string()));
    for build in builds() {
        let (object, method) = (heap.bound::<PyAny>(obj), heap.bound::<PyString>(name));
        let step =
            ().call_method_positional(object.as_borrowed(), method.as_borrowed(), Token, build);
        heap.finish(step).unwrap();
        assert_eq!(heap.calls, [CallRequest::CallMethodNoArgs { object: obj, name }]);
    }
}

#[test]
fn calling_what_is_not_callable_raises() {
    let mut heap = Heap::default();
    let f = heap.new(Object::Int(1));
    let args = heap.tuple(&[1]);
    let (function, args) = (heap.bound::<PyAny>(f), heap.bound::<PyTuple>(args));
    let step = args.call_positional(function.as_borrowed(), Token);
    let error = heap.finish(step).unwrap_err();
    assert_eq!(heap.message(&error), "not callable");
}

/// `C().m(*values)` on `build`, as integers.
fn method_call(heap: &mut Heap, values: &[i64], build: Build) -> Vec<i64> {
    let obj = heap.new(Object::Instance);
    let name = heap.new(Object::Str("m".to_string()));
    let args = heap.tuple(values);
    let (object, method) = (heap.bound::<PyAny>(obj), heap.bound::<PyString>(name));
    let tuple = heap.bound::<PyTuple>(args);
    let step =
        tuple.call_method_positional(object.as_borrowed(), method.as_borrowed(), Token, build);
    let result = heap.finish(step).unwrap();
    let (a, k) = heap.pair(result);
    assert_eq!(heap.get(k), &Object::Dict(vec![]));
    heap.extract::<i64>(a).unwrap()
}

#[test]
fn every_build_passes_every_count_of_arguments() {
    for build in builds() {
        for count in 0..12 {
            let mut heap = Heap::default();
            let values: Vec<i64> = (0..count).collect();
            assert_eq!(method_call(&mut heap, &values, build), values);
        }
    }
}

#[test]
fn eight_items_fit_the_stack() {
    let mut heap = Heap::default();
    let values: Vec<i64> = (10..18).collect();
    method_call(&mut heap, &values, Build::cpython());
    assert_eq!(heap.calls.len(), 10);
    assert!(matches!(heap.calls[0], CallRequest::TupleSize { .. }));
    for (i, call) in heap.calls[1..9].iter().enumerate() {
        assert!(matches!(call, CallRequest::TupleGetItem { index, .. } if *index == i as isize));
    }
    match heap.calls[9] {
        CallRequest::VectorcallMethod {
            slots,
            nargsf,
            kwnames,
            ..
        } => {
            assert_eq!(nargsf, 9 | OFFSET);
            assert_eq!(heap.get(slots[0]), &Object::Instance);
            assert_eq!(heap.get(slots[1]), &Object::Int(10));
            assert_eq!(heap.get(slots[8]), &Object::Int(17));
            assert!(kwnames.is_null());
        }
        other => panic!("{:?}", other),
    }
}

#[test]
fn few_items_leave_null_slots() {
    let mut heap = Heap::default();
    method_call(&mut heap, &[5], Build::cpython());
    match heap.calls[2] {
        CallRequest::VectorcallMethod { slots, nargsf, .. } => {
            assert_eq!(nargsf, 2 | OFFSET);
            assert_eq!(heap.get(slots[1]), &Object::Int(5));
            assert!(slots[2..].iter().all(|slot| slot.is_null()));
        }
        other => panic!("{:?}", other),
    }
}

#[test]
fn nine_items_take_the_method_object() {
    let mut heap = Heap::default();
    let values: Vec<i64> = (0..9).collect();
    method_call(&mut heap, &values, Build::cpython());
    assert_eq!(heap.calls.len(), 3);
    assert!(matches!(heap.calls[0], CallRequest::TupleSize { .. }));
    assert!(matches!(heap.calls[1], CallRequest::GetAttr { .. }));
    assert!(matches!(heap.calls[2], CallRequest::Call { kwargs, .. } if kwargs.is_null()));
}

#[test]
fn builds_without_vectorcall_methods_take_the_method_object() {
    for build in [pypy(), limited(false)] {
        let mut heap = Heap::default();
        method_call(&mut heap, &[1, 2], build);
        assert_eq!(heap.calls.len(), 2);
        assert!(matches!(heap.calls[0], CallRequest::GetAttr { .. }));
    }
    let mut heap = Heap::default();
    method_call(&mut heap, &[1, 2], limited(true));
    assert!(matches!(heap.calls[3], CallRequest::VectorcallMethod { .. }));
}

#[test]
fn size_that_cannot_be_had_takes_the_method_object() {
    let mut heap = Heap::default();
    let obj = heap.new(Object::Instance);
    let name = heap.new(Object::Str("m".to_string()));
    let args = heap.list(&[1, 2]);
    let (object, method) = (heap.bound::<PyAny>(obj), heap.bound::<PyString>(name));
    let tuple = heap.bound::<PyTuple>(args);
    let step = tuple.call_method_positional(
        object.as_borrowed(),
        method.as_borrowed(),
        Token,
        Build::cpython(),
    );
    heap.finish(step).unwrap();
    assert!(matches!(heap.calls[1], CallRequest::GetAttr { .. }));
    assert!(matches!(heap.calls[2], CallRequest::Call { args: passed, .. } if passed == args));
}

#[test]
fn method_that_is_not_there_raises_and_nothing_is_called() {
    for build in builds() {
        let mut heap = Heap::default();
        let obj = heap.new(Object::Instance);
        let name = heap.new(Object::Str("missing".to_string()));
        let values: Vec<i64> = (0..9).collect();
        let args = heap.tuple(&values);
        let (object, method) = (heap.bound::<PyAny>(obj), heap.bound::<PyString>(name));
        let tuple = heap.bound::<PyTuple>(args);
        let step =
            tuple.call_method_positional(object.as_borrowed(), method.as_borrowed(), Token, build);
        let error = heap.finish(step).unwrap_err();
        assert_eq!(heap.message(&error), "no such attribute");
        assert!(matches!(heap.calls.last(), Some(CallRequest::GetAttr { .. })));
    }
}

#[test]
fn null_pointers_are_no_handles() {
    assert!(Bound::<PyAny>::from_owned_ptr_or_opt(py(), RawObject::null()).is_none());
    assert!(Py::<PyAny>::from_owned_ptr_or_opt(RawObject::null()).is_none());
}

// Extraction.

#[test]
fn str_has_its_own_error() {
    let mut heap = Heap::default();
    let text = heap.new(Object::Str("abc".to_string()));
    match heap.extract::<String>(text) {
        Err(PyErr::TypeError(message)) => {
            assert_eq!(message, "Can't extract `str` to `Vec`");
            assert_eq!(message, STR_MESSAGE);
        }
        other => panic!("{:?}", other),
    }
    assert_eq!(
        heap.questions,
        [
            ExtractRequest::SequenceExtractor { obj: text },
            ExtractRequest::IsStr { obj: text }
        ]
    );
}

#[test]
fn whole_sequences_are_asked_for_first() {
    let mut heap = Heap::default();
    let bytes = heap.new(Object::Bytes(b"abc".to_vec()));
    assert_eq!(heap.extract::<u8>(bytes).unwrap(), b"abc");
    assert_eq!(heap.questions, [ExtractRequest::SequenceExtractor { obj: bytes }]);
}

#[test]
fn what_is_no_sequence_cannot_be_cast() {
    let mut heap = Heap::default();
    let number = heap.new(Object::Int(5));
    match heap.extract::<i64>(number) {
        Err(PyErr::Cast(error)) => {
            assert_eq!(error.from, number);
            assert_eq!(error.to, CastTarget::Sequence);
        }
        other => panic!("{:?}", other),
    }
}

#[test]
fn length_that_raises_does_not_matter() {
    let mut heap = Heap::default();
    let items = heap.ints(&[4, 5]);
    let obj = heap.new(Object::NoLength(items));
    assert_eq!(heap.extract::<i64>(obj).unwrap(), [4, 5]);
}

#[test]
fn iterator_that_cannot_be_had_is_the_error() {
    let mut heap = Heap::default();
    let obj = heap.new(Object::NoIter);
    let error = heap.extract::<i64>(obj).unwrap_err();
    assert_eq!(heap.message(&error), "not iterable");
}

#[test]
fn iterator_that_raises_is_the_error() {
    let mut heap = Heap::default();
    let items = heap.ints(&[1, 2]);
    let obj = heap.new(Object::RaisesBehind(items, "broken"));
    let error = heap.extract::<i64>(obj).unwrap_err();
    assert_eq!(heap.message(&error), "broken");
}

#[test]
fn first_item_that_fails_is_the_error() {
    let mut heap = Heap::default();
    let mut items = heap.ints(&[1]);
    let text = heap.new(Object::Str("x".to_string()));
    items.push(text);
    items.extend(heap.ints(&[3]));
    let sequences = [
        Object::Tuple(items.clone()),
        Object::List(items.clone()),
        Object::SubclassWithIter(vec![], items.clone()),
    ];
    for sequence in sequences {
        let obj = heap.new(sequence);
        let error = heap.extract::<i64>(obj).unwrap_err();
        assert_eq!(heap.message(&error), "not an int");
        let last = heap.questions.last();
        assert_eq!(last, Some(&ExtractRequest::ExtractItem { item: text }));
    }
}

#[test]
fn empty_sequences_give_nothing() {
    let mut heap = Heap::default();
    let items = heap.ints(&[1]);
    let sequences = [
        Object::Tuple(vec![]),
        Object::List(vec![]),
        Object::SubclassWithIter(items, vec![]),
    ];
    for sequence in sequences {
        let obj = heap.new(sequence);
        assert!(heap.extract::<i64>(obj).unwrap().is_empty());
    }
}

#[test]
fn exact_types_are_read_without_an_iterator() {
    let mut heap = Heap::default();
    for obj in [heap.list(&[1, 2]), heap.tuple(&[1, 2])] {
        heap.extract::<i64>(obj).unwrap();
        assert!(!heap.questions.iter().any(|question| matches!(
            question,
            ExtractRequest::TryIter { .. } | ExtractRequest::NextItem { .. }
        )));
    }
    let (base, iter) = (heap.ints(&[1]), heap.ints(&[7, 8]));
    let subclass = heap.new(Object::SubclassWithIter(base, iter));
    heap.extract::<i64>(subclass).unwrap();
    assert!(!heap.questions.iter().any(|question| matches!(
        question,
        ExtractRequest::TupleItem { .. } | ExtractRequest::ListItem { .. }
    )));
}

#[test]
fn free_threaded_builds_iterate_over_lists() {
    let mut heap = Heap::default();
    let list = heap.list(&[1, 2, 3]);
    assert_eq!(heap.extract_on::<i64>(list, free_threaded()).unwrap(), [1, 2, 3]);
    let questions = &heap.questions;
    assert!(questions.contains(&ExtractRequest::TryIter { obj: list }));
    assert!(!questions.contains(&ExtractRequest::IsExactList { obj: list }));
}

#[test]
fn list_that_changes_is_read_as_its_iterator_would() {
    for build in [Build::cpython(), free_threaded()] {
        // Shrinks while its first item is extracted.
        let mut heap = Heap::default();
        let list = heap.list(&[1, 2, 3]);
        let bound = heap.bound::<PyAny>(list);
        let step = Vec::<i64>::extract(bound.as_borrowed(), build);
        let shrunk = heap.collect(step, &mut |heap| {
            if let Object::List(items) = heap.get_mut(list) {
                items.truncate(2);
            }
        });
        assert_eq!(shrunk.unwrap(), [1, 2]);

        // Grows while its first items are extracted.
        let mut heap = Heap::default();
        let list = heap.list(&[1, 2]);
        let bound = heap.bound::<PyAny>(list);
        let step = Vec::<i64>::extract(bound.as_borrowed(), build);
        let grown = heap.collect(step, &mut |heap| {
            let more = heap.new(Object::Int(9));
            if let Object::List(items) = heap.get_mut(list) {
                if items.len() < 4 {
                    items.push(more);
                }
            }
        });
        assert_eq!(grown.unwrap(), [1, 2, 9, 9]);
    }
}

#[test]
fn extract_sequence_goes_by_the_iterator_at_once() {
    let mut heap = Heap::default();
    let list = heap.list(&[1, 2, 3]);
    let bound = heap.bound::<PyAny>(list);
    let step = extract_sequence::<i64>(bound.as_borrowed(), Build::cpython());
    assert_eq!(heap.collect(step, &mut |_| ()).unwrap(), [1, 2, 3]);
    assert_eq!(heap.questions[0], ExtractRequest::IsSequence { obj: list });
    assert_eq!(heap.questions[1], ExtractRequest::Len { obj: list });
    assert_eq!(heap.questions[2], ExtractRequest::TryIter { obj: list });
}

#[test]
fn tuple_by_item_gives_what_its_iterator_gives() {
    let mut heap = Heap::default();
    let tuple = heap.tuple(&[4, 5, 6]);
    let by_item = heap.extract::<i64>(tuple).unwrap();
    let bound = heap.bound::<PyAny>(tuple);
    let step = extract_sequence::<i64>(bound.as_borrowed(), Build::cpython());
    let by_iterator = heap.collect(step, &mut |_| ()).unwrap();
    assert!(heap.questions.contains(&ExtractRequest::TryIter { obj: tuple }));
    assert_eq!(by_item, by_iterator);
    assert_eq!(by_item, [4, 5, 6]);
}

#[test]
fn what_was_made_reads_back_on_every_build() {
    for build in builds() {
        let mut heap = Heap::default();
        let bytes: Vec<u8> = vec![0, 255, 7];
        let obj = make_bytes(&mut heap, (&bytes).into_pyobject());
        assert_eq!(heap.extract_on::<u8>(obj, build).unwrap(), bytes);

        let nums: Vec<u16> = vec![3, 1, 2];
        let obj = make_list(&mut heap, (&nums).into_pyobject());
        assert_eq!(heap.items(obj).len(), 3);
        assert_eq!(heap.get(heap.items(obj)[1]), &Object::Int(1));
        assert_eq!(heap.extract_on::<u16>(obj, build).unwrap(), nums);
    }
}

#[test]
fn every_other_element_makes_a_list() {
    assert_eq!(vec![1i8].into_pyobject().kind, SequenceKind::List);
    assert_eq!(vec![1i16].into_pyobject().kind, SequenceKind::List);
    assert_eq!(vec![1i32].into_pyobject().kind, SequenceKind::List);
    assert_eq!(vec![1i64].into_pyobject().kind, SequenceKind::List);
    assert_eq!(vec![1i128].into_pyobject().kind, SequenceKind::List);
    assert_eq!(vec![1isize].into_pyobject().kind, SequenceKind::List);
    assert_eq!(vec![1u16].into_pyobject().kind, SequenceKind::List);
    assert_eq!(vec![1u32].into_pyobject().kind, SequenceKind::List);
    assert_eq!(vec![1u64].into_pyobject().kind, SequenceKind::List);
    assert_eq!(vec![1u128].into_pyobject().kind, SequenceKind::List);
    assert_eq!(vec![1usize].into_pyobject().kind, SequenceKind::List);
    assert_eq!(vec![true].into_pyobject().kind, SequenceKind::List);
    assert_eq!(vec!['a'].into_pyobject().kind, SequenceKind::List);
    assert_eq!(vec!["a"].into_pyobject().kind, SequenceKind::List);
    assert_eq!(vec![Some(1u8)].into_pyobject().kind, SequenceKind::List);
}

/// An element type of another crate.
struct Pair(u8, u8);

impl SequenceElement for Pair {
    type Form = ListForm;
}

#[test]
fn element_of_another_crate_makes_a_list() {
    let request = vec![Pair(1, 2)].into_pyobject();
    assert_eq!(request.kind, SequenceKind::List);
    assert_eq!((request.items[0].0, request.items[0].1), (1, 2));
}

#[test]
fn items_of_a_shrinking_list_are_read_in_bounds() {
    let mut heap = Heap::default();
    let list = heap.list(&[1, 2, 3, 4]);
    let bound = heap.bound::<PyAny>(list);
    let step = Vec::<i64>::extract(bound.as_borrowed(), Build::cpython());
    let shrunk = heap.collect(step, &mut |heap| {
        if let Object::List(items) = heap.get_mut(list) {
            items.pop();
        }
    });
    assert_eq!(shrunk.unwrap(), [1, 2]);
    let read: Vec<ExtractRequest> = heap
        .questions
        .iter()
        .copied()
        .filter(|question| matches!(question, ExtractRequest::ListItem { .. }))
        .collect();
    let item = |index| ExtractRequest::ListItem { list, index };
    assert_eq!(read, [item(0), item(1)]);
}

#[test]
fn list_is_made_of_anything_but_bytes() {
    let strings = vec!["a".to_string()];
    assert_eq!((&strings).into_pyobject().kind, SequenceKind::List);
    let nested: Vec<Vec<u8>> = vec![vec![1], vec![2]];
    assert_eq!((&nested).into_pyobject().kind, SequenceKind::List);
    let slice: &[u8] = &[1, 2];
    let request = slice.into_pyobject();
    assert_eq!(request.kind, SequenceKind::Bytes);
    assert_eq!(request.items, &[1, 2]);
}
