use vstd::prelude::*;
use crate::algorithm::PowAlgorithm;
use crate::difficulty::Difficulty;
use crate::encoding::{put_slice, put_u64_le, put_u8, spec_pow_bytes};

verus! {

/// Marker for types whose proof of work can be reduced to an achieved
/// difficulty.
pub trait AchievedDifficulty {

}

/// Failure of an external difficulty provider: the provider could not
/// compute an achieved difficulty from the header it was given (for
/// example, malformed merge-mining auxiliary data). Such a failure is
/// always propagated to the validation caller, never replaced by a
/// default difficulty.
#[derive(Clone, Copy, Debug, PartialEq, Eq, Structural)]
pub enum PowError {
    MalformedPowData,
}

/// Classification of two cumulative proof-of-work states compared across
/// all accumulator dimensions at once, without scaling factors. The order
/// is deliberately partial: `Indeterminate` is a first-class outcome that
/// the fork-choice caller must resolve with an explicit policy.
#[derive(Clone, Debug, PartialEq, Eq, Structural)]
pub enum Ordering {
    GreaterThan,
    LessThan,
    Equal,
    Indeterminate,
}

/// The proof-of-work record that is included in the block header.
#[derive(Clone, Debug, PartialEq)]
pub struct ProofOfWork {
    /// Total difficulty accumulated in the monero slot over all blocks since
    /// genesis, excluding this block.
    pub accumulated_monero_difficulty: Difficulty,
    /// Total difficulty accumulated in the blake slot over all blocks since
    /// genesis, excluding this block. Blocks mined under `Sha3` contribute
    /// to this slot as well.
    pub accumulated_blake_difficulty: Difficulty,
    /// The difficulty this block was required to meet under its algorithm.
    pub target_difficulty: Difficulty,
    /// The algorithm used to mine this block.
    pub pow_algo: PowAlgorithm,
    /// Supplemental proof-of-work data, opaque to this core. Empty for
    /// algorithms that need only the block header; a structured blob (for
    /// example, a foreign block header plus seed material) for merge-mining
    /// algorithms. Its interpretation is owned by the external provider for
    /// the algorithm.
    pub pow_data: Vec<u8>,
}

/// The slice of a block header that this core consumes: the declared
/// algorithm tag and the embedded proof-of-work record, exposed without
/// further interpretation.
#[derive(Clone, Debug, PartialEq)]
pub struct BlockHeader {
    pub pow: ProofOfWork,
}

/// The monero-slot accumulator after the chain is extended by a block that
/// achieved `added` under `pow.pow_algo`.
pub open spec fn spec_monero_after(pow: ProofOfWork, added: Difficulty) -> int {
    pow.accumulated_monero_difficulty.0 + if pow.pow_algo is Monero {
        added.0 as int
    } else {
        0
    }
}

/// The blake-slot accumulator after the chain is extended by a block that
/// achieved `added` under `pow.pow_algo`; blocks mined under `Sha3`
/// contribute to this slot too.
pub open spec fn spec_blake_after(pow: ProofOfWork, added: Difficulty) -> int {
    pow.accumulated_blake_difficulty.0 + if pow.pow_algo is Monero {
        0
    } else {
        added.0 as int
    }
}

/// True when adding `added` to the accumulator slot of `pow.pow_algo` stays
/// within the 64-bit range. Overflow here is a fatal precondition violation:
/// a wrapped accumulator would silently corrupt every later chain-weight
/// comparison.
pub open spec fn accumulation_fits(pow: ProofOfWork, added: Difficulty) -> bool {
    spec_monero_after(pow, added) <= u64::MAX && spec_blake_after(pow, added) <= u64::MAX
}

/// The accumulator tracking the chain work attributed to `algo`: one
/// magnitude per slot, with `Sha3` sharing the blake slot.
pub open spec fn spec_accumulated(pow: ProofOfWork, algo: PowAlgorithm) -> u64 {
    match algo {
        PowAlgorithm::Monero => pow.accumulated_monero_difficulty.0,
        PowAlgorithm::Blake => pow.accumulated_blake_difficulty.0,
        PowAlgorithm::Sha3 => pow.accumulated_blake_difficulty.0,
    }
}

/// True when `a` and `b` contribute to the same accumulator slot.
pub open spec fn spec_shares_slot(a: PowAlgorithm, b: PowAlgorithm) -> bool {
    (a is Monero) == (b is Monero)
}

impl ProofOfWork {
    /// Compares two cumulative states along both accumulator dimensions
    /// independently: equal everywhere, dominated everywhere, dominating
    /// everywhere, or incomparable.
    pub open spec fn spec_compare(self, other: ProofOfWork) -> Ordering {
        if self.accumulated_blake_difficulty == other.accumulated_blake_difficulty
            && self.accumulated_monero_difficulty == other.accumulated_monero_difficulty {
            Ordering::Equal
        } else if self.accumulated_blake_difficulty.0 <= other.accumulated_blake_difficulty.0
            && self.accumulated_monero_difficulty.0 <= other.accumulated_monero_difficulty.0 {
            Ordering::LessThan
        } else if self.accumulated_blake_difficulty.0 >= other.accumulated_blake_difficulty.0
            && self.accumulated_monero_difficulty.0 >= other.accumulated_monero_difficulty.0 {
            Ordering::GreaterThan
        } else {
            Ordering::Indeterminate
        }
    }

    /// Creates a record for a block mined under `pow_algo`. Except for the
    /// algorithm, the fields start at their defaults; `add_difficulty` and
    /// the encoder are used subsequently to populate and consume the record.
    pub fn new(pow_algo: PowAlgorithm) -> (pow: ProofOfWork)
        ensures
            pow.pow_algo == pow_algo,
            pow.accumulated_monero_difficulty.0 == 1,
            pow.accumulated_blake_difficulty.0 == 1,
            pow.target_difficulty.0 == 1,
            pow.pow_data@ == Seq::<u8>::empty(),
    {
        ProofOfWork {
            pow_algo,
            accumulated_monero_difficulty: Difficulty::default(),
            accumulated_blake_difficulty: Difficulty::default(),
            target_difficulty: Difficulty::default(),
            pow_data: Vec::new(),
        }
    }

    /// Routes a candidate block header to the difficulty achieved under the
    /// algorithm its proof-of-work record declares.
    ///
    /// The per-algorithm difficulty computations are independent external
    /// providers, consumed through a uniform contract: the caller runs each
    /// provider on the header and hands their outcomes in as `monero`,
    /// `blake` and `sha3`. This function returns exactly the outcome of the
    /// provider matching the declared tag; a provider failure is propagated
    /// unchanged, never replaced by a default difficulty.
    pub fn achieved_difficulty(
        header: &BlockHeader,
        monero: Result<Difficulty, PowError>,
        blake: Difficulty,
        sha3: Difficulty,
    ) -> (r: Result<Difficulty, PowError>)
        ensures
            match header.pow.pow_algo {
                PowAlgorithm::Monero => r == monero,
                PowAlgorithm::Blake => r == Ok::<Difficulty, PowError>(blake),
                PowAlgorithm::Sha3 => r == Ok::<Difficulty, PowError>(sha3),
            },
    {
        match header.pow.pow_algo {
            PowAlgorithm::Monero => monero,
            PowAlgorithm::Blake => Ok(blake),
            PowAlgorithm::Sha3 => Ok(sha3),
        }
    }

    /// The product of the two per-algorithm accumulators, widened to 128
    /// bits so the multiplication cannot overflow.
    ///
    /// This is a policy helper for fork-choice callers that deliberately
    /// accept the cross-algorithm weighting a single scalar implies; it is
    /// not the comparator, which never collapses the dimensions.
    pub fn total_accumulated_difficulty(&self) -> (t: u128)
        ensures
            t == self.accumulated_monero_difficulty.0 as int
                * self.accumulated_blake_difficulty.0 as int,
    {
        let m = self.accumulated_monero_difficulty.as_u64() as u128;
        let b = self.accumulated_blake_difficulty.as_u64() as u128;
        proof {
            assert(m as int * b as int <= u128::MAX) by (nonlinear_arith)
                requires
                    0 <= m < 0x10000000000000000,
                    0 <= b < 0x10000000000000000,
            ;
        }
        m * b
    }

    /// Overwrites this record's accumulators with those of the chain
    /// extended past `prev` by a block that achieved `added_difficulty`
    /// under `prev.pow_algo`. This record's own target, algorithm and
    /// auxiliary data are left untouched: this is the form used to fill in
    /// the accumulators of a next-block candidate whose own header fields
    /// are already populated.
    pub fn add_difficulty(&mut self, prev: &ProofOfWork, added_difficulty: Difficulty)
        requires
            accumulation_fits(*prev, added_difficulty),
        ensures
            final(self).accumulated_monero_difficulty.0 == spec_monero_after(
                *prev,
                added_difficulty,
            ),
            final(self).accumulated_blake_difficulty.0 == spec_blake_after(
                *prev,
                added_difficulty,
            ),
            final(self).target_difficulty == old(self).target_difficulty,
            final(self).pow_algo == old(self).pow_algo,
            final(self).pow_data == old(self).pow_data,
    {
        let pow = ProofOfWork::new_from_difficulty(prev, added_difficulty);
        self.accumulated_blake_difficulty = pow.accumulated_blake_difficulty;
        self.accumulated_monero_difficulty = pow.accumulated_monero_difficulty;
    }

    /// The cumulative record of the chain extended past `pow` by a block
    /// that achieved `added_difficulty` under `pow.pow_algo`: that
    /// algorithm's accumulator slot grows by `added_difficulty` and the
    /// other slot is copied unchanged. The result's target, algorithm and
    /// auxiliary data are taken from `pow`; callers assembling the new
    /// block's own header set those separately.
    pub fn new_from_difficulty(pow: &ProofOfWork, added_difficulty: Difficulty) -> (r: ProofOfWork)
        requires
            accumulation_fits(*pow, added_difficulty),
        ensures
            r.accumulated_monero_difficulty.0 == spec_monero_after(*pow, added_difficulty),
            r.accumulated_blake_difficulty.0 == spec_blake_after(*pow, added_difficulty),
            r.target_difficulty == pow.target_difficulty,
            r.pow_algo == pow.pow_algo,
            r.pow_data@ == pow.pow_data@,
    {
        let (m, b) = match pow.pow_algo {
            PowAlgorithm::Monero => (
                Difficulty(pow.accumulated_monero_difficulty.0 + added_difficulty.0),
                pow.accumulated_blake_difficulty,
            ),
            PowAlgorithm::Blake => (
                pow.accumulated_monero_difficulty,
                Difficulty(pow.accumulated_blake_difficulty.0 + added_difficulty.0),
            ),
            PowAlgorithm::Sha3 => (
                pow.accumulated_monero_difficulty,
                Difficulty(pow.accumulated_blake_difficulty.0 + added_difficulty.0),
            ),
        };
        let pow_data = clone_bytes(&pow.pow_data);
        ProofOfWork {
            accumulated_monero_difficulty: m,
            accumulated_blake_difficulty: b,
            target_difficulty: pow.target_difficulty,
            pow_algo: pow.pow_algo,
            pow_data,
        }
    }

    /// Compares the cumulative difficulties of this and another record,
    /// without scaling factors. Even so, many pairs can be ordered
    /// definitively; the rest are honestly reported as `Indeterminate`.
    pub fn partial_cmp(&self, other: &ProofOfWork) -> (r: Ordering)
        ensures
            r == self.spec_compare(*other),
    {
        if self.accumulated_blake_difficulty.0 == other.accumulated_blake_difficulty.0
            && self.accumulated_monero_difficulty.0 == other.accumulated_monero_difficulty.0 {
            Ordering::Equal
        } else if self.accumulated_blake_difficulty.0 <= other.accumulated_blake_difficulty.0
            && self.accumulated_monero_difficulty.0 <= other.accumulated_monero_difficulty.0 {
            Ordering::LessThan
        } else if self.accumulated_blake_difficulty.0 >= other.accumulated_blake_difficulty.0
            && self.accumulated_monero_difficulty.0 >= other.accumulated_monero_difficulty.0 {
            Ordering::GreaterThan
        } else {
            Ordering::Indeterminate
        }
    }

    /// Serialises the record into the canonical byte layout used to feed the
    /// proof of work into a hash function.
    pub fn to_bytes(&self) -> (buf: Vec<u8>)
        ensures
            buf@ == spec_pow_bytes(*self),
    {
        let mut buf: Vec<u8> = Vec::new();
        put_u8(&mut buf, self.pow_algo.discriminant());
        put_u64_le(&mut buf, self.accumulated_monero_difficulty.as_u64());
        put_u64_le(&mut buf, self.accumulated_blake_difficulty.as_u64());
        put_slice(&mut buf, self.pow_data.as_slice());
        proof {
            assert(buf@ =~= spec_pow_bytes(*self));
        }
        buf
    }
}

impl Default for ProofOfWork {
    /// A fresh record: both accumulators and the target at the default
    /// difficulty `1`, mined under `Blake`, with no auxiliary data.
    fn default() -> (pow: Self)
        ensures
            pow.pow_algo == PowAlgorithm::Blake,
            pow.accumulated_monero_difficulty.0 == 1,
            pow.accumulated_blake_difficulty.0 == 1,
            pow.target_difficulty.0 == 1,
            pow.pow_data@ == Seq::<u8>::empty(),
    {
        ProofOfWork {
            accumulated_monero_difficulty: Difficulty::default(),
            accumulated_blake_difficulty: Difficulty::default(),
            target_difficulty: Difficulty::default(),
            pow_algo: PowAlgorithm::Blake,
            pow_data: Vec::new(),
        }
    }
}

/// A byte-for-byte copy of an auxiliary-data payload.
fn clone_bytes(src: &Vec<u8>) -> (r: Vec<u8>)
    ensures
        r@ == src@,
{
    let r = src.clone();
    proof {
        assert(r@ =~= src@);
    }
    r
}

/// Accumulation grows the slot of the mined algorithm by exactly the added
/// magnitude and leaves every other algorithm's accumulator unchanged:
/// whenever `next` carries the accumulators derived from `prev` and `added`,
/// the accumulator of an algorithm sharing the mined slot has grown by
/// `added`, and the accumulator of any other algorithm is the same as in
/// `prev`.
pub proof fn lemma_accumulation_per_algorithm(
    prev: ProofOfWork,
    next: ProofOfWork,
    added: Difficulty,
    algo: PowAlgorithm,
)
    requires
        next.accumulated_monero_difficulty.0 == spec_monero_after(prev, added),
        next.accumulated_blake_difficulty.0 == spec_blake_after(prev, added),
    ensures
        spec_shares_slot(algo, prev.pow_algo) ==> spec_accumulated(next, algo)
            == spec_accumulated(prev, algo) + added.0,
        !spec_shares_slot(algo, prev.pow_algo) ==> spec_accumulated(next, algo)
            == spec_accumulated(prev, algo),
{
}

/// Along any valid chain, every accumulator is monotone: accumulation never
/// decreases either slot.
pub proof fn lemma_accumulation_monotone(pow: ProofOfWork, added: Difficulty)
    ensures
        spec_monero_after(pow, added) >= pow.accumulated_monero_difficulty.0,
        spec_blake_after(pow, added) >= pow.accumulated_blake_difficulty.0,
{
}

/// Comparator reflexivity: a record never outweighs itself.
pub proof fn lemma_compare_reflexive(r: ProofOfWork)
    ensures
        r.spec_compare(r) == Ordering::Equal,
{
}

/// Comparator antisymmetry: one record dominates exactly when, seen from the
/// other side, it is dominated.
pub proof fn lemma_compare_antisymmetric(a: ProofOfWork, b: ProofOfWork)
    ensures
        (a.spec_compare(b) == Ordering::GreaterThan) <==> (b.spec_compare(a)
            == Ordering::LessThan),
{
}

/// The comparison is deliberately partial: whenever each record leads in one
/// accumulator dimension, neither dominates, and the comparison is
/// `Indeterminate` both ways.
pub proof fn lemma_compare_partial(a: ProofOfWork, b: ProofOfWork)
    requires
        a.accumulated_monero_difficulty.0 > b.accumulated_monero_difficulty.0,
        a.accumulated_blake_difficulty.0 < b.accumulated_blake_difficulty.0,
    ensures
        a.spec_compare(b) == Ordering::Indeterminate,
        b.spec_compare(a) == Ordering::Indeterminate,
{
}

} // verus!
