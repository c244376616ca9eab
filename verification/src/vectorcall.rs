//! The argument count of the vectorcall convention.
//!
//! The count goes in one word together with a flag, its highest bit, which
//! lets the callee change one slot of the argument array for the time of the
//! call.

use vstd::prelude::*;

verus! {

/// The flag `PY_VECTORCALL_ARGUMENTS_OFFSET`, as a number.
pub open spec fn arguments_offset() -> int {
    usize::MAX as int / 2 + 1
}

/// The count of positional arguments in `nargsf`: `PyVectorcall_NARGS`.
pub open spec fn positional_count(nargsf: usize) -> int {
    if nargsf >= arguments_offset() {
        nargsf - arguments_offset()
    } else {
        nargsf as int
    }
}

/// Whether `nargsf` carries the flag.
pub open spec fn has_arguments_offset(nargsf: usize) -> bool {
    nargsf >= arguments_offset()
}

/// `n` arguments, with the flag set.
pub fn with_vectorcall_arguments_offset(n: usize) -> (nargsf: usize)
    requires
        n < arguments_offset(),
    ensures
        nargsf == n + arguments_offset(),
        positional_count(nargsf) == n,
        has_arguments_offset(nargsf),
        2 * (nargsf - n) == usize::MAX + 1,
{
    let flag: usize = usize::MAX / 2 + 1;
    proof {
        let (wide_n, wide_flag) = (n as u64, flag as u64);
        assert(wide_n | wide_flag == wide_n + wide_flag) by (bit_vector)
            requires
                wide_flag == 0x8000_0000u64 || wide_flag == 0x8000_0000_0000_0000u64,
                wide_n < wide_flag,
        ;
    }
    n | flag
}

} // verus!
