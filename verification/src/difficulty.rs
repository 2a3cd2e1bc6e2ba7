use vstd::prelude::*;

verus! {

/// A 64-bit proof-of-work magnitude: roughly the expected number of hash
/// attempts a miner makes, on average, before finding a valid block solution.
///
/// Difficulties are totally ordered and additive. Overflow of the 64-bit
/// range during accumulation is a fatal precondition violation, never a
/// silent wrap: a wrapped cumulative difficulty would corrupt every later
/// chain-weight comparison.
#[derive(Clone, Copy, Debug, PartialEq, Eq, Structural)]
pub struct Difficulty(pub u64);

impl Difficulty {
    /// The raw 64-bit magnitude.
    pub fn as_u64(&self) -> (v: u64)
        ensures
            v == self.0,
    {
        self.0
    }
}

impl Default for Difficulty {
    /// The default difficulty is the comparative identity `1`, never `0`:
    /// a difficulty of zero has no interpretation as a number of attempts.
    fn default() -> (d: Self)
        ensures
            d.0 == 1,
    {
        Difficulty(1)
    }
}

impl From<u64> for Difficulty {
    fn from(v: u64) -> (d: Self)
        ensures
            d.0 == v,
    {
        Difficulty(v)
    }
}

impl vstd::std_specs::convert::FromSpecImpl<u64> for Difficulty {
    open spec fn obeys_from_spec() -> bool {
        true
    }

    open spec fn from_spec(v: u64) -> Self {
        Difficulty(v)
    }
}

} // verus!
