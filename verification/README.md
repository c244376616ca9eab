# pydispatch

Dispatch of Python calls and conversion between `Vec` and Python sequences, with
the decisions proved in Verus.

The library never touches the interpreter. A call or an extraction is a `Step`:
either the outcome, or one request (a call of the C API, or a question to the
element type) with what is pending. Whoever drives it performs the request and
hands the reply to `resume`.

- `src/call.rs`: `PyCallArgs`, the call arguments and the route that each call takes
- `src/call_laws.rs`: what the routes amount to in any interpreter
- `src/vec.rs`: `Vec` from and to Python sequences
- `src/vec_laws.rs`: what an extraction gives, in any interpreter
- `src/conversion.rs`: the conversion traits
- `src/conversion_laws.rs`: what is made of a `Vec`, and that it reads back, in any interpreter
- `src/handle.rs`, `src/err.rs`, `src/config.rs`, `src/step.rs`, `src/vectorcall.rs`,
  `src/private.rs`: handles, errors, build configurations, steps, argument counts,
  and what seals `PyCallArgs` and the forms of sequences
- `app/`: performs the requests in CPython
- `tests/`: drive the library with a small interpreter of their own
