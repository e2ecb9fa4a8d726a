use proptest::num::IntRangeStrategy;
use proptest::runner::TestRunner;
use proptest::strategy::Strategy;
use proptest::strategy::ValueTree;

fn pass(a: &[u64]) -> bool {
    a[0] * a[1] <= 9
}

#[test]
fn shrinks_fully_ltr() {
    let input = vec![IntRangeStrategy::new(0, 31), IntRangeStrategy::new(0, 31)];
    let mut runner = TestRunner::deterministic();

    let mut cases_tested = 0;
    for _ in 0..256 {
        // Find a failing test case
        let mut case = input.new_tree(&mut runner).unwrap();
        if pass(&case.current()) {
            continue;
        }

        loop {
            if pass(&case.current()) {
                if !case.complicate() {
                    break;
                }
            } else {
                if !case.simplify() {
                    break;
                }
            }
        }

        let last = case.current();
        assert!(!pass(&last));
        // Maximally shrunken
        assert!(pass(&[last[0] - 1, last[1]]));
        assert!(pass(&[last[0], last[1] - 1]));

        cases_tested += 1;
    }

    assert!(cases_tested > 32, "Didn't find enough test cases");
}

#[test]
fn test_sanity() {
    let input = vec![IntRangeStrategy::new(0, 999), IntRangeStrategy::new(1, 999)];
    let mut runner = TestRunner::deterministic();

    for _ in 0..1000 {
        let mut tree = input.new_tree(&mut runner).unwrap();

        // current is pure and stable between shrink operations
        assert_eq!(tree.current(), tree.current());

        // a complicate with no recorded simplify refuses and changes nothing
        let before = tree.current();
        assert!(!tree.complicate());
        assert_eq!(tree.current(), before);

        // one simplify step can be undone, exactly once
        let v0 = tree.current();
        if tree.simplify() {
            let v1 = tree.current();
            assert_ne!(v1, v0);
            assert!(tree.complicate());
            assert_eq!(tree.current(), v0);
            assert!(!tree.complicate());
            assert_eq!(tree.current(), v0);
        }

        // a pure shrink search terminates
        let mut steps = 0;
        while tree.simplify() {
            steps += 1;
            assert!(steps <= 1_000_000, "shrink search did not terminate");
        }
        assert!(!tree.simplify());
    }
}

#[test]
fn composite_exhausts_all_elements() {
    let input = vec![
        IntRangeStrategy::new(0, 31),
        IntRangeStrategy::new(0, 31),
        IntRangeStrategy::new(0, 31),
    ];
    let mut runner = TestRunner::deterministic();
    let mut tree = input.new_tree(&mut runner).unwrap();
    tree.simplify_fully();
    assert!(!tree.simplify());
    // with no complicate in between, every element shrinks to its minimum
    assert_eq!(tree.current(), vec![0, 0, 0]);
}

#[test]
fn empty_arity_tree_is_inert() {
    let strategy = proptest::array::uniform(IntRangeStrategy::new(0, 31), 0);
    let mut runner = TestRunner::deterministic();
    let mut tree = strategy.new_tree(&mut runner).unwrap();
    assert_eq!(tree.current(), Vec::<u64>::new());
    assert!(!tree.simplify());
    assert!(!tree.complicate());
}

#[test]
fn range_draws_stay_in_range() {
    let strategy = IntRangeStrategy::new(17, 23);
    let mut runner = TestRunner::deterministic();
    for _ in 0..1000 {
        let mut tree = strategy.new_tree(&mut runner).unwrap();
        let v = tree.current();
        assert!((17..=23).contains(&v));
        while tree.simplify() {
            assert!(tree.current() <= v);
        }
    }
}

#[test]
fn same_seed_reproduces_draws() {
    let input = vec![
        IntRangeStrategy::new(0, 999),
        IntRangeStrategy::new(0, 999),
        IntRangeStrategy::new(0, 999),
        IntRangeStrategy::new(0, 999),
    ];
    let mut r1 = TestRunner::new(42);
    let mut r2 = TestRunner::new(42);
    for _ in 0..50 {
        let a = input.new_tree(&mut r1).unwrap().current();
        let b = input.new_tree(&mut r2).unwrap().current();
        assert_eq!(a, b);
    }
}

#[test]
fn deterministic_draws_match_trait_draws() {
    // the uniform composite
    let s = proptest::array::uniform(IntRangeStrategy::new(3, 977), 5);
    let mut r1 = TestRunner::new(9);
    let mut r2 = TestRunner::new(9);
    for _ in 0..50 {
        let a = s.new_tree(&mut r1).unwrap().current();
        let b = s.new_tree_from_ranges(&mut r2).unwrap().current();
        assert_eq!(a, b);
    }
    assert_eq!(r1.state(), r2.state());

    // the one-strategy-per-element composite
    let input = vec![IntRangeStrategy::new(0, 31), IntRangeStrategy::new(100, 131)];
    let mut r1 = TestRunner::new(13);
    let mut r2 = TestRunner::new(13);
    for _ in 0..50 {
        let a = input.new_tree(&mut r1).unwrap().current();
        let b = proptest::array::new_tree_from_range_vec(&input, &mut r2).unwrap().current();
        assert_eq!(a, b);
        assert!((0..=31).contains(&a[0]));
        assert!((100..=131).contains(&a[1]));
    }
    assert_eq!(r1.state(), r2.state());
}

#[test]
fn splitmix_known_values() {
    let mut r = TestRunner::new(0);
    assert_eq!(r.next_u64(), 0xE220A8397B1DCDAF);
    assert_eq!(r.next_u64(), 0x6E789E6AA1B965F4);
}
