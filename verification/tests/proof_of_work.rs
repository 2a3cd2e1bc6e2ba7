use hybrid_pow::algorithm::PowAlgorithm;
use hybrid_pow::difficulty::Difficulty;
use hybrid_pow::proof_of_work::{BlockHeader, Ordering, PowError, ProofOfWork};

#[test]
fn display() {
    let pow = ProofOfWork::default();
    assert_eq!(
        &pow.to_display_string(None),
        "Mining algorithm: Blake, Target difficulty: 1\nTotal accumulated difficulty:\nMonero=1, Sha3=1\nPow \
         data: \n"
    );
}

#[test]
fn to_bytes() {
    let mut pow = ProofOfWork::default();
    pow.accumulated_monero_difficulty = Difficulty::from(65);
    pow.accumulated_blake_difficulty = Difficulty::from(257);
    pow.pow_algo = PowAlgorithm::Blake;
    assert_eq!(pow.to_bytes(), vec![1, 65, 0, 0, 0, 0, 0, 0, 0, 1, 1, 0, 0, 0, 0, 0, 0]);
}

#[test]
fn total_difficulty() {
    let mut pow = ProofOfWork::default();
    // Simple cases
    pow.accumulated_monero_difficulty = 500.into();
    pow.accumulated_blake_difficulty = 100.into();
    assert_eq!(pow.total_accumulated_difficulty(), 50000, "Case 1");
    pow.accumulated_monero_difficulty = 50.into();
    pow.accumulated_blake_difficulty = 1000.into();
    assert_eq!(pow.total_accumulated_difficulty(), 50000, "Case 2");
    // Edge cases - Very large OOM difficulty differences
    pow.accumulated_monero_difficulty = 444.into();
    pow.accumulated_blake_difficulty = 1_555_222_888_555_555.into();
    assert_eq!(pow.total_accumulated_difficulty(), 690_518_962_518_666_420, "Case 3");
    pow.accumulated_monero_difficulty = 1.into();
    pow.accumulated_blake_difficulty = 15_222_333_444_555_666_777.into();
    assert_eq!(pow.total_accumulated_difficulty(), 15_222_333_444_555_666_777, "Case 4");
}

#[test]
fn add_difficulty() {
    let mut pow = ProofOfWork::new(PowAlgorithm::Monero);
    pow.accumulated_blake_difficulty = Difficulty::from(42);
    pow.accumulated_monero_difficulty = Difficulty::from(420);
    let mut pow2 = ProofOfWork::default();
    pow2.add_difficulty(&pow, Difficulty::from(80));
    assert_eq!(pow2.accumulated_blake_difficulty, Difficulty::from(42));
    assert_eq!(pow2.accumulated_monero_difficulty, Difficulty::from(500));
}

#[test]
fn partial_cmp() {
    let mut pow1 = ProofOfWork::default();
    let mut pow2 = ProofOfWork::default();
    // (0,0) vs (0,0)
    assert_eq!(pow1.partial_cmp(&pow2), Ordering::Equal);
    pow1.accumulated_monero_difficulty = 100.into();
    // (100,0) vs (0,0)
    assert_eq!(pow1.partial_cmp(&pow2), Ordering::GreaterThan);
    pow2.accumulated_blake_difficulty = 50.into();
    // (100,0) vs (0,50)
    assert_eq!(pow1.partial_cmp(&pow2), Ordering::Indeterminate);
    pow2.accumulated_monero_difficulty = 110.into();
    // (100,0) vs (110, 50)
    assert_eq!(pow1.partial_cmp(&pow2), Ordering::LessThan);
    pow1.accumulated_blake_difficulty = 50.into();
    // (100,50) vs (110, 50)
    assert_eq!(pow1.partial_cmp(&pow2), Ordering::LessThan);
    pow1.accumulated_monero_difficulty = 110.into();
    // (110,50) vs (110, 50)
    assert_eq!(pow1.partial_cmp(&pow2), Ordering::Equal);
    pow1.accumulated_monero_difficulty = 200.into();
    pow1.accumulated_blake_difficulty = 80.into();
    // (200,80) vs (110, 50)
    assert_eq!(pow1.partial_cmp(&pow2), Ordering::GreaterThan);
}

#[test]
fn new_record_starts_at_defaults() {
    let pow = ProofOfWork::new(PowAlgorithm::Sha3);
    assert_eq!(pow.pow_algo, PowAlgorithm::Sha3);
    assert_eq!(pow.accumulated_monero_difficulty, Difficulty::from(1));
    assert_eq!(pow.accumulated_blake_difficulty, Difficulty::from(1));
    assert_eq!(pow.target_difficulty, Difficulty::from(1));
    assert!(pow.pow_data.is_empty());
}

#[test]
fn difficulty_defaults_to_one() {
    assert_eq!(Difficulty::default(), Difficulty::from(1));
    assert_eq!(Difficulty::from(42).as_u64(), 42);
}

#[test]
fn algorithm_names() {
    assert_eq!(PowAlgorithm::Monero.name(), "Monero");
    assert_eq!(PowAlgorithm::Blake.name(), "Blake");
    assert_eq!(PowAlgorithm::Sha3.name(), "Sha3");
}

#[test]
fn algorithm_discriminants() {
    assert_eq!(PowAlgorithm::Monero.discriminant(), 0);
    assert_eq!(PowAlgorithm::Blake.discriminant(), 1);
    assert_eq!(PowAlgorithm::Sha3.discriminant(), 2);
}

#[test]
fn to_bytes_fresh_record_is_discriminant_then_zeros() {
    let mut pow = ProofOfWork::new(PowAlgorithm::Blake);
    pow.accumulated_monero_difficulty = Difficulty::from(0);
    pow.accumulated_blake_difficulty = Difficulty::from(0);
    pow.target_difficulty = Difficulty::from(1);
    let bytes = pow.to_bytes();
    let mut expected = vec![1u8];
    expected.extend_from_slice(&[0u8; 16]);
    assert_eq!(bytes, expected);
    assert_eq!(bytes.len(), 17);
}

#[test]
fn to_bytes_appends_pow_data_and_separates_records() {
    let mut pow = ProofOfWork::new(PowAlgorithm::Monero);
    pow.pow_data = vec![0xde, 0xad, 0xbe, 0xef];
    let bytes = pow.to_bytes();
    assert_eq!(bytes.len(), 21);
    assert_eq!(&bytes[17..], &[0xde, 0xad, 0xbe, 0xef]);
    // Determinism: the same record encodes to the same bytes.
    assert_eq!(pow.to_bytes(), bytes);
    // Any change to an accumulator, the tag, or an auxiliary byte changes
    // the encoding.
    let mut other = pow.clone();
    other.accumulated_blake_difficulty = Difficulty::from(2);
    assert_ne!(other.to_bytes(), bytes);
    let mut other = pow.clone();
    other.pow_algo = PowAlgorithm::Sha3;
    assert_ne!(other.to_bytes(), bytes);
    let mut other = pow.clone();
    other.pow_data[3] = 0x00;
    assert_ne!(other.to_bytes(), bytes);
}

#[test]
fn achieved_difficulty_dispatches_on_declared_tag() {
    let monero_outcome = Ok(Difficulty::from(33));
    let blake_outcome = Difficulty::from(44);
    let sha3_outcome = Difficulty::from(55);

    let header = BlockHeader { pow: ProofOfWork::new(PowAlgorithm::Monero) };
    assert_eq!(
        ProofOfWork::achieved_difficulty(&header, monero_outcome, blake_outcome, sha3_outcome),
        Ok(Difficulty::from(33))
    );

    let header = BlockHeader { pow: ProofOfWork::new(PowAlgorithm::Blake) };
    assert_eq!(
        ProofOfWork::achieved_difficulty(&header, monero_outcome, blake_outcome, sha3_outcome),
        Ok(Difficulty::from(44))
    );

    let header = BlockHeader { pow: ProofOfWork::new(PowAlgorithm::Sha3) };
    assert_eq!(
        ProofOfWork::achieved_difficulty(&header, monero_outcome, blake_outcome, sha3_outcome),
        Ok(Difficulty::from(55))
    );
}

#[test]
fn achieved_difficulty_propagates_provider_failure() {
    let header = BlockHeader { pow: ProofOfWork::new(PowAlgorithm::Monero) };
    let r = ProofOfWork::achieved_difficulty(
        &header,
        Err(PowError::MalformedPowData),
        Difficulty::from(44),
        Difficulty::from(55),
    );
    assert_eq!(r, Err(PowError::MalformedPowData));
    // A failed Monero provider does not affect a Blake-tagged header.
    let header = BlockHeader { pow: ProofOfWork::new(PowAlgorithm::Blake) };
    let r = ProofOfWork::achieved_difficulty(
        &header,
        Err(PowError::MalformedPowData),
        Difficulty::from(44),
        Difficulty::from(55),
    );
    assert_eq!(r, Ok(Difficulty::from(44)));
}

#[test]
fn derive_next_accumulates_only_the_mined_slot() {
    let mut prev = ProofOfWork::new(PowAlgorithm::Monero);
    prev.accumulated_monero_difficulty = Difficulty::from(420);
    prev.accumulated_blake_difficulty = Difficulty::from(42);
    prev.target_difficulty = Difficulty::from(7);
    prev.pow_data = vec![1, 2, 3];
    let next = ProofOfWork::new_from_difficulty(&prev, Difficulty::from(80));
    assert_eq!(next.accumulated_monero_difficulty, Difficulty::from(500));
    assert_eq!(next.accumulated_blake_difficulty, Difficulty::from(42));
    assert_eq!(next.target_difficulty, Difficulty::from(7));
    assert_eq!(next.pow_algo, PowAlgorithm::Monero);
    assert_eq!(next.pow_data, vec![1, 2, 3]);
}

#[test]
fn sha3_accumulates_into_blake_slot() {
    let mut prev = ProofOfWork::new(PowAlgorithm::Sha3);
    prev.accumulated_monero_difficulty = Difficulty::from(10);
    prev.accumulated_blake_difficulty = Difficulty::from(20);
    let next = ProofOfWork::new_from_difficulty(&prev, Difficulty::from(5));
    assert_eq!(next.accumulated_monero_difficulty, Difficulty::from(10));
    assert_eq!(next.accumulated_blake_difficulty, Difficulty::from(25));
}

#[test]
fn comparison_is_antisymmetric_on_a_dominating_pair() {
    let mut r1 = ProofOfWork::default();
    let mut r2 = ProofOfWork::default();
    r1.accumulated_monero_difficulty = 200.into();
    r1.accumulated_blake_difficulty = 80.into();
    r2.accumulated_monero_difficulty = 110.into();
    r2.accumulated_blake_difficulty = 50.into();
    assert_eq!(r1.partial_cmp(&r2), Ordering::GreaterThan);
    assert_eq!(r2.partial_cmp(&r1), Ordering::LessThan);
}

#[test]
fn incomparable_pair_is_indeterminate_both_ways() {
    let mut r1 = ProofOfWork::default();
    let mut r2 = ProofOfWork::default();
    r1.accumulated_monero_difficulty = 100.into();
    r1.accumulated_blake_difficulty = 0.into();
    r2.accumulated_monero_difficulty = 0.into();
    r2.accumulated_blake_difficulty = 50.into();
    assert_eq!(r1.partial_cmp(&r2), Ordering::Indeterminate);
    assert_eq!(r2.partial_cmp(&r1), Ordering::Indeterminate);
}

#[test]
fn display_dumps_auxiliary_bytes_as_hex() {
    let mut pow = ProofOfWork::default();
    pow.pow_algo = PowAlgorithm::Sha3;
    pow.target_difficulty = Difficulty::from(100);
    pow.pow_data = vec![0xde, 0xad, 0x01];
    assert_eq!(
        &pow.to_display_string(None),
        "Mining algorithm: Sha3, Target difficulty: 100\nTotal accumulated difficulty:\nMonero=1, Sha3=1\nPow \
         data: dead01\n"
    );
}

#[test]
fn display_monero_uses_decoded_summary_or_marker() {
    let mut pow = ProofOfWork::default();
    pow.pow_algo = PowAlgorithm::Monero;
    pow.pow_data = vec![9, 9];
    assert_eq!(
        &pow.to_display_string(Some("foreign header")),
        "Mining algorithm: Monero, Target difficulty: 1\nTotal accumulated difficulty:\nMonero=1, Sha3=1\nPow \
         data: foreign header\n"
    );
    assert_eq!(
        &pow.to_display_string(None),
        "Mining algorithm: Monero, Target difficulty: 1\nTotal accumulated difficulty:\nMonero=1, Sha3=1\nPow \
         data: MALFORMED DATA\n"
    );
}
