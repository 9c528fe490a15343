//! Shared mutable state, passed explicitly: the caller owns the state and
//! hands it to each operation.

use vstd::prelude::*;

verus! {

/// Advances the shared counter by one.
pub fn change(global_state: &mut u32)
    requires
        *old(global_state) < u32::MAX,
    ensures
        *final(global_state) == *old(global_state) + 1,
{
    *global_state = *global_state + 1;
}

/// Records one call in the shared array.
pub fn do_a_call(array: &mut Vec<u8>)
    ensures
        final(array)@ == old(array)@.push(1),
{
    array.push(1);
}

} // verus!
