//! The build configurations among which the dispatch decides.

use vstd::prelude::*;

verus! {

/// What the interpreter that the extension is built for offers.
#[derive(Clone, Copy, Debug, PartialEq, Eq, Structural)]
pub struct Build {
    /// The interpreter is PyPy.
    pub pypy: bool,
    /// The interpreter is GraalPy.
    pub graalpy: bool,
    /// Only the limited (stable) C API may be used.
    pub limited_api: bool,
    /// The C API is that of Python 3.12 or later.
    pub py_3_12: bool,
    /// The interpreter runs without a global lock.
    pub gil_disabled: bool,
}

impl Build {
    /// `PyObject_VectorcallDict` can be called.
    pub open spec fn vectorcall_dict(self) -> bool {
        !(self.pypy || self.graalpy || self.limited_api)
    }

    /// `PyObject_VectorcallMethod` can be called: it joined the limited API
    /// with Python 3.12.
    pub open spec fn vectorcall_method(self) -> bool {
        !(self.pypy || self.graalpy) && (!self.limited_api || self.py_3_12)
    }

    /// Lists may be read by index while other code runs.
    pub open spec fn list_by_index(self) -> bool {
        !self.gil_disabled
    }

    /// The plain CPython build: full C API, with the global lock.
    pub fn cpython() -> (build: Build)
        ensures
            build.vectorcall_dict(),
            build.vectorcall_method(),
            build.list_by_index(),
            build == (Build {
                pypy: false,
                graalpy: false,
                limited_api: false,
                py_3_12: true,
                gil_disabled: false,
            }),
    {
        Build {
            pypy: false,
            graalpy: false,
            limited_api: false,
            py_3_12: true,
            gil_disabled: false,
        }
    }

    /// Whether `PyObject_VectorcallDict` can be called.
    pub fn has_vectorcall_dict(&self) -> (yes: bool)
        ensures
            yes == self.vectorcall_dict(),
    {
        !(self.pypy || self.graalpy || self.limited_api)
    }

    /// Whether `PyObject_VectorcallMethod` can be called.
    pub fn has_vectorcall_method(&self) -> (yes: bool)
        ensures
            yes == self.vectorcall_method(),
    {
        !(self.pypy || self.graalpy) && (!self.limited_api || self.py_3_12)
    }

    /// Whether lists may be read by index while other code runs.
    pub fn reads_lists_by_index(&self) -> (yes: bool)
        ensures
            yes == self.list_by_index(),
    {
        !self.gil_disabled
    }
}

} // verus!
