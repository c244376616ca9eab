//! Handles on Python objects.
//!
//! A handle is the identity of an object. Reference counts belong to whoever
//! performs the requests: a handle given to this library must stay alive until
//! the step that it went into is done.

use core::marker::PhantomData;
use vstd::prelude::*;

verus! {

/// Any Python object.
#[derive(Debug)]
pub struct PyAny;

/// A `dict`.
#[derive(Debug)]
pub struct PyDict;

/// A `str`.
#[derive(Debug)]
pub struct PyString;

/// A `tuple`.
#[derive(Debug)]
pub struct PyTuple;

/// The address of an object; zero where C has a null pointer.
#[derive(Clone, Copy, Debug, PartialEq, Eq, Structural)]
pub struct RawObject {
    pub address: usize,
}

impl RawObject {
    /// The null pointer.
    #[verifier::allow_in_spec]
    pub fn null() -> RawObject
        returns
            (RawObject { address: 0 }),
    {
        RawObject { address: 0 }
    }

    /// Whether this is the null pointer.
    #[verifier::allow_in_spec]
    pub fn is_null(self) -> bool
        returns
            self == RawObject::null(),
    {
        self.address == 0
    }
}

/// A mark that the thread is attached to the interpreter for `'py`.
#[derive(Clone, Copy, Debug)]
pub struct Python<'py> {
    attached: PhantomData<&'py ()>,
}

impl<'py> Python<'py> {
    /// The mark, of which there is one.
    pub closed spec fn mark() -> Python<'py> {
        Python { attached: PhantomData }
    }

    /// The mark of a thread that is attached.
    pub fn assume_attached() -> (py: Python<'py>)
        ensures
            py == Python::<'py>::mark(),
    {
        Python { attached: PhantomData }
    }
}

/// An object owned by no thread in particular. Never null.
#[derive(Debug)]
pub struct Py<T> {
    ptr: RawObject,
    kind: PhantomData<T>,
}

/// An object owned by an attached thread. Never null.
#[derive(Debug)]
pub struct Bound<'py, T> {
    py: Python<'py>,
    object: Py<T>,
}

/// An object that something else keeps alive for `'a`. Never null.
#[derive(Debug)]
pub struct Borrowed<'a, 'py, T> {
    ptr: RawObject,
    kind: PhantomData<(&'a (), &'py (), T)>,
}

impl<T> Py<T> {
    #[verifier::type_invariant]
    spec fn never_null(self) -> bool {
        !self.ptr.is_null()
    }

    /// The object.
    pub closed spec fn raw(self) -> RawObject {
        self.ptr
    }

    /// The handle on the object at `ptr`; `None` for the null pointer.
    pub fn from_owned_ptr_or_opt(ptr: RawObject) -> (object: Option<Py<T>>)
        ensures
            object is Some <==> !ptr.is_null(),
            object matches Some(object) ==> object.raw() == ptr,
    {
        if ptr.is_null() {
            None
        } else {
            Some(Py { ptr, kind: PhantomData })
        }
    }

    /// The address of the object.
    pub fn as_ptr(&self) -> (ptr: RawObject)
        ensures
            ptr == self.raw(),
            !ptr.is_null(),
    {
        proof {
            use_type_invariant(self);
        }
        self.ptr
    }

    /// The same object, borrowed by an attached thread.
    pub fn bind_borrowed<'a, 'py>(&'a self, py: Python<'py>) -> (borrowed: Borrowed<'a, 'py, T>)
        ensures
            borrowed.raw() == self.raw(),
    {
        proof {
            use_type_invariant(self);
        }
        Borrowed { ptr: self.ptr, kind: PhantomData }
    }
}

impl<'py, T> Bound<'py, T> {
    /// The object.
    pub closed spec fn raw(self) -> RawObject {
        self.object.raw()
    }

    /// The handle on the object at `ptr`; `None` for the null pointer.
    pub fn from_owned_ptr_or_opt(py: Python<'py>, ptr: RawObject) -> (bound: Option<Self>)
        ensures
            bound is Some <==> !ptr.is_null(),
            bound matches Some(bound) ==> bound.raw() == ptr,
    {
        match Py::from_owned_ptr_or_opt(ptr) {
            Some(object) => Some(Bound { py, object }),
            None => None,
        }
    }

    /// The address of the object.
    pub fn as_ptr(&self) -> (ptr: RawObject)
        ensures
            ptr == self.raw(),
            !ptr.is_null(),
    {
        self.object.as_ptr()
    }

    /// The same object, borrowed.
    pub fn as_borrowed<'a>(&'a self) -> (borrowed: Borrowed<'a, 'py, T>)
        ensures
            borrowed.raw() == self.raw(),
    {
        self.object.bind_borrowed(self.py)
    }

    /// The same object, bound to no thread.
    pub fn as_unbound(&self) -> (object: &Py<T>)
        ensures
            object.raw() == self.raw(),
    {
        &self.object
    }

    /// The same object, bound to no thread any more.
    pub fn unbind(self) -> (object: Py<T>)
        ensures
            object.raw() == self.raw(),
    {
        self.object
    }
}

impl<'a, 'py, T> Borrowed<'a, 'py, T> {
    #[verifier::type_invariant]
    spec fn never_null(self) -> bool {
        !self.ptr.is_null()
    }

    /// The object.
    pub closed spec fn raw(self) -> RawObject {
        self.ptr
    }

    /// The address of the object.
    pub fn as_ptr(&self) -> (ptr: RawObject)
        ensures
            ptr == self.raw(),
            !ptr.is_null(),
    {
        proof {
            use_type_invariant(self);
        }
        self.ptr
    }

    /// The mark of the thread that borrowed the object.
    pub fn py(&self) -> (py: Python<'py>)
        ensures
            py == Python::<'py>::mark(),
    {
        Python { attached: PhantomData }
    }
}

} // verus!
