//! The native library's process-wide initialisation state.
use vstd::prelude::*;

verus! {

/// Reads the status of the native initialisation call: zero is success.
pub fn init_succeeded(status: i32) -> (r: bool)
    ensures
        r == (status == 0),
{
    status == 0
}

/// The library is initialised while its native counter is positive.
pub open spec fn is_initialized_spec(count: i32) -> bool {
    count > 0
}

/// Reads the native initialisation counter: the library is initialised while
/// it is positive.
pub fn is_initialized(count: i32) -> (r: bool)
    ensures
        r == is_initialized_spec(count),
{
    count > 0
}

/// A counter of zero (before any initialisation, or once every successful
/// initialisation has been matched by a teardown) reads as not initialised;
/// a counter that a successful initialisation raised reads as initialised.
pub proof fn lemma_init_states(count: i32)
    requires
        0 <= count < i32::MAX,
    ensures
        !is_initialized_spec(0),
        is_initialized_spec((count + 1) as i32),
{
}

} // verus!
