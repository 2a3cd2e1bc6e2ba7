use vstd::prelude::*;

verus! {

/// The closed set of mining algorithms under which a block may be produced.
///
/// Hybrid mining tracks chain work per algorithm. The set is deliberately a
/// closed tagged union, not a plugin registry: adding an algorithm is a
/// coordinated consensus upgrade that extends both this tag and the
/// achieved-difficulty dispatch.
#[derive(Clone, Copy, Debug, PartialEq, Eq, Structural)]
pub enum PowAlgorithm {
    Monero,
    Blake,
    Sha3,
}

impl PowAlgorithm {
    /// The fixed byte discriminant under which this tag appears in the
    /// canonical encoding of a proof-of-work record.
    pub open spec fn spec_discriminant(self) -> u8 {
        match self {
            PowAlgorithm::Monero => 0,
            PowAlgorithm::Blake => 1,
            PowAlgorithm::Sha3 => 2,
        }
    }

    /// Byte discriminant, as written by the canonical encoder.
    pub fn discriminant(self) -> (b: u8)
        ensures
            b == self.spec_discriminant(),
    {
        match self {
            PowAlgorithm::Monero => 0,
            PowAlgorithm::Blake => 1,
            PowAlgorithm::Sha3 => 2,
        }
    }

    /// The human-readable algorithm name, for operator tooling.
    pub open spec fn spec_name(self) -> Seq<char> {
        match self {
            PowAlgorithm::Monero => "Monero"@,
            PowAlgorithm::Blake => "Blake"@,
            PowAlgorithm::Sha3 => "Sha3"@,
        }
    }

    /// Human-readable algorithm name (display only, never consensus).
    pub fn name(&self) -> (s: &'static str)
        ensures
            s@ == self.spec_name(),
    {
        match self {
            PowAlgorithm::Monero => "Monero",
            PowAlgorithm::Blake => "Blake",
            PowAlgorithm::Sha3 => "Sha3",
        }
    }
}

} // verus!
