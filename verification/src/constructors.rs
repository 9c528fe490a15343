use vstd::prelude::*;

verus! {

/// Time in seconds.
pub struct Second {
    value: u64,
}

impl Second {
    /// The seconds this value holds.
    pub closed spec fn spec_value(&self) -> u64 {
        self.value
    }

    /// Constructs a new instance holding `value` seconds.
    pub fn new(value: u64) -> (s: Second)
        ensures
            s.spec_value() == value,
    {
        Second { value }
    }

    /// Returns the value in seconds.
    pub fn value(&self) -> (v: u64)
        ensures
            v == self.spec_value(),
    {
        self.value
    }
}

impl Default for Second {
    /// Zero seconds.
    fn default() -> (s: Second)
        ensures
            s.spec_value() == 0,
    {
        Second { value: 0 }
    }
}

} // verus!
