use vstd::prelude::*;

verus! {

/// An adder that delegates the arithmetic to a strategy supplied by the
/// caller.
pub struct Addr;

impl Addr {
    /// Applies the supplied strategy to the two operands.
    pub fn add<F: Fn(u8, u8) -> u8>(x: u8, y: u8, f: F) -> (r: u8)
        requires
            f.requires((x, y)),
        ensures
            f.ensures((x, y), r),
    {
        f(x, y)
    }
}

} // verus!
