//! Dispatch of Python calls and conversion of Python sequences, verified.
//!
//! The library decides; it never touches the interpreter itself. A call or a
//! conversion is a [`step::Step`]: either the answer, or one request to the
//! interpreter together with what to do with its reply.

pub mod call;
pub mod call_laws;
pub mod config;
pub mod conversion;
pub mod conversion_laws;
pub mod err;
pub mod handle;
mod private;
pub mod step;
pub mod vec;
pub mod vec_laws;
pub mod vec_routes;
pub mod vectorcall;
