//! Wraparound addition over signed 32-bit integers, together with the core of
//! a foreign-callable export and, in `probe`, the message layer of a
//! runtime-environment diagnostic.

use vstd::prelude::*;

pub mod probe;

verus! {

/// The sum of `a` and `b` with two's-complement wraparound: the mathematical
/// sum, shifted by one full width where it leaves the representable range.
pub open spec fn sum_wrapped(a: i32, b: i32) -> i32 {
    if a + b > i32::MAX {
        (a + b - 0x1_0000_0000) as i32
    } else if a + b < i32::MIN {
        (a + b + 0x1_0000_0000) as i32
    } else {
        (a + b) as i32
    }
}

/// Adds two numbers together, wrapping around on overflow. Total over its
/// input domain: no error path, no panic.
pub fn add(a: i32, b: i32) -> (r: i32)
    ensures
        r == sum_wrapped(a, b),
{
    a.wrapping_add(b)
}

/// The core of the C-compatible export: it forwards to `add` with no added
/// logic, so both entry points return the same result on the same inputs.
/// The unmangled symbol and C calling convention themselves live outside the
/// verified crate; the shim there forwards here.
pub fn add_c(a: i32, b: i32) -> (r: i32)
    ensures
        r == sum_wrapped(a, b),
{
    crate::add(a, b)
}

/// The wrapped sum always lies in range and is congruent to the exact
/// mathematical sum modulo 2^32: wraparound loses exactly a multiple of the
/// width and nothing else.
pub proof fn lemma_sum_wrapped_is_wraparound(a: i32, b: i32)
    ensures
        i32::MIN <= sum_wrapped(a, b) <= i32::MAX,
        (sum_wrapped(a, b) - (a + b)) % 0x1_0000_0000 == 0,
{
    let s: int = sum_wrapped(a, b) as int;
    let e: int = a + b;
    assert(s - e == 0 || s - e == 0x1_0000_0000 || s - e == -0x1_0000_0000);
}

} // verus!
