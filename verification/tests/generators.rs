use proptest::array::uniform;
use proptest::evm::any_h128;
use proptest::evm::any_h160;
use proptest::evm::any_h256;
use proptest::evm::any_h512;
use proptest::evm::any_u128;
use proptest::evm::any_u256;
use proptest::evm::any_u512;
use proptest::evm::H128FromBytes;
use proptest::evm::H160FromBytes;
use proptest::evm::H256FromBytes;
use proptest::evm::H512FromBytes;
use proptest::evm::U128FromWords;
use proptest::evm::U256FromWords;
use proptest::evm::U512FromWords;
use proptest::filter::FilterStrategy;
use proptest::filter::FILTER_MAX_RETRIES;
use proptest::map::MapFn;
use proptest::non_zero::any_non_zero_u8;
use proptest::non_zero::NonZeroPred;
use proptest::num::IntRangeStrategy;
use proptest::runner::TestRunner;
use proptest::runner::SEED_INCREMENT;
use proptest::strategy::Strategy;
use proptest::strategy::ValueTree;

#[test]
fn hash_construction_preserves_bytes() {
    // the constructed value, re-extracted, is exactly the drawn block
    let block16: Vec<u64> = (0..16).map(|i| (i as u64) * 3 + 1).collect();
    let h = H128FromBytes.apply(block16.clone());
    let expect16: Vec<u8> = block16.iter().map(|w| *w as u8).collect();
    assert_eq!(h.as_bytes().to_vec(), expect16);

    let block20: Vec<u64> = (0..20).map(|i| 255 - (i as u64)).collect();
    let h = H160FromBytes.apply(block20.clone());
    let expect20: Vec<u8> = block20.iter().map(|w| *w as u8).collect();
    assert_eq!(h.as_bytes().to_vec(), expect20);

    let block32: Vec<u64> = (0..32).map(|i| (i as u64) * 7 % 256).collect();
    let h = H256FromBytes.apply(block32.clone());
    let expect32: Vec<u8> = block32.iter().map(|w| *w as u8).collect();
    assert_eq!(h.as_bytes().to_vec(), expect32);

    let block64: Vec<u64> = (0..64).map(|i| (i as u64) * 5 % 256).collect();
    let h = H512FromBytes.apply(block64.clone());
    let expect64: Vec<u8> = block64.iter().map(|w| *w as u8).collect();
    assert_eq!(h.as_bytes().to_vec(), expect64);
}

#[test]
fn uint_construction_preserves_words() {
    let u = U128FromWords.apply(vec![11, 22]);
    assert_eq!(u.0, [11, 22]);

    let u = U256FromWords.apply(vec![1, 2, 3, u64::MAX]);
    assert_eq!(u.0, [1, 2, 3, u64::MAX]);

    let u = U512FromWords.apply(vec![8, 7, 6, 5, 4, 3, 2, 1]);
    assert_eq!(u.0, [8, 7, 6, 5, 4, 3, 2, 1]);
}

#[test]
fn uint_word_significance_is_little_endian() {
    // one in the lowest word is the integer one
    let u = U256FromWords.apply(vec![1, 0, 0, 0]);
    assert_eq!(u, primitive_types::U256::from(1u64));
    // one in the next word is 2 to the 64
    let u = U256FromWords.apply(vec![0, 1, 0, 0]);
    assert_eq!(u, primitive_types::U256::from(1u64) << 64);
}

#[test]
fn drawn_hashes_come_from_the_block_strategy() {
    let mut runner = TestRunner::deterministic();
    let h = any_h128().new_tree(&mut runner).unwrap().current();
    assert_eq!(h.as_bytes().len(), 16);
    let h = any_h160().new_tree(&mut runner).unwrap().current();
    assert_eq!(h.as_bytes().len(), 20);
    let h = any_h256().new_tree(&mut runner).unwrap().current();
    assert_eq!(h.as_bytes().len(), 32);
    let h = any_h512().new_tree(&mut runner).unwrap().current();
    assert_eq!(h.as_bytes().len(), 64);
    let u = any_u128().new_tree(&mut runner).unwrap().current();
    assert_eq!(u.0.len(), 2);
    let u = any_u256().new_tree(&mut runner).unwrap().current();
    assert_eq!(u.0.len(), 4);
    let u = any_u512().new_tree(&mut runner).unwrap().current();
    assert_eq!(u.0.len(), 8);
}

#[test]
fn drawn_hash_reproducible_and_shrinkable() {
    let s = any_h256();
    let mut r1 = TestRunner::new(7);
    let mut r2 = TestRunner::new(7);
    let t1 = s.new_tree(&mut r1).unwrap();
    let t2 = s.new_tree(&mut r2).unwrap();
    assert_eq!(t1.current(), t2.current());

    // shrinking a hash drives its bytes toward zero and terminates
    let mut t = t1;
    let mut steps = 0;
    while t.simplify() {
        steps += 1;
        assert!(steps <= 1_000_000, "shrink search did not terminate");
    }
    assert_eq!(t.current(), primitive_types::H256::zero());
}

#[test]
fn hash_tree_undo_restores_value() {
    let s = any_h256();
    let mut runner = TestRunner::new(3);
    let mut t = s.new_tree(&mut runner).unwrap();
    let v0 = t.current();
    // no recorded step yet: complicate refuses and changes nothing
    assert!(!t.complicate());
    assert_eq!(t.current(), v0);
    // one simplify step is undone exactly
    assert!(t.simplify());
    assert_ne!(t.current(), v0);
    assert!(t.complicate());
    assert_eq!(t.current(), v0);
    assert!(!t.complicate());
}

#[test]
fn non_zero_u8_never_produces_zero() {
    let s = any_non_zero_u8();
    let mut runner = TestRunner::deterministic();
    for _ in 0..200 {
        let mut t = s.new_tree(&mut runner).unwrap();
        assert_ne!(t.current().get(), 0);
        while t.simplify() {
            assert_ne!(t.current().get(), 0);
        }
        assert_ne!(t.current().get(), 0);
    }
}

#[test]
fn non_zero_u64_never_produces_zero() {
    let s = proptest::non_zero::any_non_zero_u64();
    let mut runner = TestRunner::deterministic();
    for _ in 0..200 {
        let mut t = s.new_tree(&mut runner).unwrap();
        assert_ne!(t.current().get(), 0);
        while t.simplify() {
            assert_ne!(t.current().get(), 0);
        }
    }
}

#[test]
fn range_draw_uses_the_documented_formula() {
    // the first word of entropy for seed zero, reduced into the range
    let mut runner = TestRunner::new(0);
    assert!(runner.next_u64() == 16294208416658607535);
    let mut runner = TestRunner::new(0);
    let t = IntRangeStrategy::new(0, 9).new_tree(&mut runner).unwrap();
    assert_eq!(t.current(), 16294208416658607535 % 10);
    let mut runner = TestRunner::new(0);
    let t = IntRangeStrategy::new(100, 109).new_tree(&mut runner).unwrap();
    assert_eq!(t.current(), 100 + 16294208416658607535 % 10);
}

#[test]
fn degenerate_range_always_draws_its_only_value() {
    let s = IntRangeStrategy::new(7, 7);
    let mut runner = TestRunner::deterministic();
    for _ in 0..20 {
        let mut t = s.new_tree(&mut runner).unwrap();
        assert_eq!(t.current(), 7);
        assert!(!t.simplify());
        assert!(!t.complicate());
    }
}

#[test]
fn filter_keeps_only_satisfying_draws() {
    let s = FilterStrategy::new(IntRangeStrategy::new(0, 255), "must be non-zero", NonZeroPred);
    let mut runner = TestRunner::deterministic();
    for _ in 0..200 {
        let mut t = s.new_tree(&mut runner).unwrap();
        assert_ne!(t.current(), 0);
        while t.simplify() {
            assert_ne!(t.current(), 0);
        }
    }
}

#[test]
fn filter_budget_exhaustion_rejects() {
    // a range that only ever draws zero can never satisfy the predicate
    let s = FilterStrategy::new(IntRangeStrategy::new(0, 0), "must be non-zero", NonZeroPred);
    let mut runner = TestRunner::new(5);
    let before = runner.state();
    let r = s.new_tree(&mut runner);
    let e = r.err().expect("the retry budget must run out");
    assert_eq!(e.reason, "must be non-zero");
    // exactly one entropy word per draw, for the whole budget
    let expected = before.wrapping_add(SEED_INCREMENT.wrapping_mul(FILTER_MAX_RETRIES as u64));
    assert_eq!(runner.state(), expected);
}

#[test]
fn non_zero_uint_respects_width_and_zero_exclusion() {
    let mut runner = TestRunner::deterministic();

    // one bit: the only non-zero value of the width
    let s = proptest::non_zero::any_non_zero_uint(1);
    for _ in 0..20 {
        assert_eq!(s.new_tree(&mut runner).unwrap().current().get(), 1);
    }

    // intermediate widths stay inside the width and off zero
    for bits in [8u32, 16, 32, 48] {
        let s = proptest::non_zero::any_non_zero_uint(bits);
        for _ in 0..50 {
            let v = s.new_tree(&mut runner).unwrap().current().get();
            assert_ne!(v, 0);
            assert!(v <= (1u64 << bits) - 1);
        }
    }

    // the full width
    let s = proptest::non_zero::any_non_zero_uint(64);
    for _ in 0..50 {
        assert_ne!(s.new_tree(&mut runner).unwrap().current().get(), 0);
    }
}

#[test]
fn non_zero_u128_combines_the_two_words() {
    let conv = proptest::non_zero::NonZeroWideFromWords;
    assert_eq!(conv.apply(vec![5, 0]).get(), 5u128);
    assert_eq!(conv.apply(vec![0, 1]).get(), 1u128 << 64);
    assert_eq!(conv.apply(vec![u64::MAX, u64::MAX]).get(), u128::MAX);

    let s = proptest::non_zero::any_non_zero_u128();
    let mut runner = TestRunner::deterministic();
    for _ in 0..100 {
        let mut t = s.new_tree(&mut runner).unwrap();
        assert_ne!(t.current().get(), 0);
        while t.simplify() {
            assert_ne!(t.current().get(), 0);
        }
    }
}

#[test]
fn non_zero_int_reads_the_pattern_in_twos_complement() {
    // the conversion is the signed reading of the drawn pattern
    let conv = proptest::non_zero::NonZeroSignedFromWord { bits: 8 };
    assert_eq!(conv.apply(255).get(), -1);
    assert_eq!(conv.apply(128).get(), -128);
    assert_eq!(conv.apply(127).get(), 127);
    let conv = proptest::non_zero::NonZeroSignedFromWord { bits: 16 };
    assert_eq!(conv.apply(0xFFFF).get(), -1);
    let conv = proptest::non_zero::NonZeroSignedFromWord { bits: 64 };
    assert_eq!(conv.apply(u64::MAX).get(), -1);

    // drawn values are never zero and stay in the width's signed range
    let mut runner = TestRunner::deterministic();
    for bits in [8u32, 16, 32, 64] {
        let s = proptest::non_zero::any_non_zero_int(bits);
        for _ in 0..50 {
            let v = s.new_tree(&mut runner).unwrap().current().get();
            assert_ne!(v, 0);
            if bits < 64 {
                assert!(v >= -(1i64 << (bits - 1)));
                assert!(v <= (1i64 << (bits - 1)) - 1);
            }
        }
    }
}

#[test]
fn range_filter_draw_matches_generic_draw() {
    let s = FilterStrategy::new(IntRangeStrategy::new(0, 255), "must be non-zero", NonZeroPred);
    let mut r1 = TestRunner::new(11);
    let mut r2 = TestRunner::new(11);
    for _ in 0..100 {
        let a = s.new_tree(&mut r1).unwrap().current();
        let b = s.new_tree_from_range(&mut r2).unwrap().current();
        assert_eq!(a, b);
        assert_ne!(b, 0);
    }

    let never = FilterStrategy::new(IntRangeStrategy::new(0, 0), "must be non-zero", NonZeroPred);
    let mut runner = TestRunner::new(11);
    assert!(never.new_tree_from_range(&mut runner).is_err());
}

#[test]
fn composite_propagates_rejection() {
    let element = FilterStrategy::new(IntRangeStrategy::new(0, 0), "must be non-zero", NonZeroPred);
    let s = uniform(element, 2);
    let mut runner = TestRunner::deterministic();
    assert!(s.new_tree(&mut runner).is_err());
}
