use vstd::prelude::*;

verus! {

/// A counter that starts at zero.
pub struct IncrementContract {
    counter: u32,
}

impl View for IncrementContract {
    type V = nat;

    closed spec fn view(&self) -> nat {
        self.counter as nat
    }
}

impl IncrementContract {
    pub fn new() -> (r: IncrementContract)
        ensures
            r@ == 0,
    {
        IncrementContract { counter: 0 }
    }

    /// Adds one to the counter and returns the new value.
    pub fn increment(&mut self) -> (r: u32)
        requires
            old(self)@ < u32::MAX,
        ensures
            final(self)@ == old(self)@ + 1,
            r == final(self)@,
    {
        self.counter = self.counter + 1;
        self.counter
    }

    /// Takes one from the counter and returns the new value. The counter
    /// must not be zero.
    pub fn decrement(&mut self) -> (r: u32)
        requires
            old(self)@ > 0,
        ensures
            final(self)@ == old(self)@ - 1,
            r == final(self)@,
    {
        self.counter = self.counter - 1;
        self.counter
    }

    /// Doubles the counter and returns the new value.
    pub fn double(&mut self) -> (r: u32)
        requires
            2 * old(self)@ <= u32::MAX,
        ensures
            final(self)@ == 2 * old(self)@,
            r == final(self)@,
    {
        self.counter = self.counter * 2;
        self.counter
    }

    /// Halves the counter, rounding down, and returns the new value. The
    /// counter must not be zero.
    pub fn halve(&mut self) -> (r: u32)
        requires
            old(self)@ > 0,
        ensures
            final(self)@ == old(self)@ / 2,
            r == final(self)@,
    {
        self.counter = self.counter / 2;
        self.counter
    }

    /// The counter's value.
    pub fn get_current_value(&self) -> (r: u32)
        ensures
            r == self@,
    {
        self.counter
    }
}

} // verus!
