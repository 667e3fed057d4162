use locked_ft::price::Price;
use std::cmp::Ordering;

fn p(multiplier: u128, decimals: u8) -> Price {
    Price::new(multiplier, decimals)
}

#[test]
pub fn test_price_cmp() {
    assert!(p(10, 0) < p(11, 0));
    assert!(p(11, 0) > p(10, 0));
    assert!(p(11, 0) == p(11, 0));

    assert!(p(10, 10) < p(11, 10));
    assert!(p(11, 10) > p(10, 10));
    assert!(p(11, 10) == p(11, 10));

    assert!(p(100, 10) == p(10, 9));
    assert!(p(10, 9) == p(100, 10));

    assert!(p(101, 10) > p(10, 9));
    assert!(p(10, 9) < p(101, 10));
    assert!(p(99, 10) < p(10, 9));
    assert!(p(10, 9) > p(99, 10));

    assert!(p(101, 40) < p(10, 0));
    assert!(p(10, 0) > p(101, 40));
}

#[test]
fn compare_is_antisymmetric() {
    let cases = [(p(5, 2), p(50, 3)), (p(7, 0), p(8, 1)), (p(0, 0), p(0, 39)), (p(1, 45), p(3, 1))];
    for (a, b) in cases.iter() {
        assert_eq!(a.compare(b), b.compare(a).reverse());
    }
}

#[test]
fn scaling_one_operand_keeps_the_ordering() {
    let b = p(1234, 3);
    assert_eq!(p(1, 0).compare(&b), Ordering::Less);
    assert_eq!(p(1000, 3).compare(&b), Ordering::Less);
    assert_eq!(p(2, 0).compare(&b), Ordering::Greater);
    assert_eq!(p(2_000_000, 6).compare(&b), Ordering::Greater);
    assert_eq!(p(1234, 3).compare(&b), Ordering::Equal);
    assert_eq!(p(12_340_000, 7).compare(&b), Ordering::Equal);
}

#[test]
fn gap_past_the_bound_compares_less() {
    // 39 decimals apart: the operand with more decimals is the smaller one.
    assert_eq!(p(u128::MAX, 39).compare(&p(1, 0)), Ordering::Less);
    assert_eq!(p(1, 0).compare(&p(u128::MAX, 39)), Ordering::Greater);
    // 38 decimals apart is still compared exactly.
    assert_eq!(p(100_000_000_000_000_000_000_000_000_000_000_000_000, 38).compare(&p(1, 0)), Ordering::Equal);
}

#[test]
fn scaled_multiplier_overflow_compares_less() {
    assert_eq!(p(5, 30).compare(&p(u128::MAX, 0)), Ordering::Less);
    assert!(p(u128::MAX, 0) > p(5, 30));
}

#[test]
fn price_accessors() {
    let x = p(42, 7);
    assert_eq!(x.multiplier(), 42);
    assert_eq!(x.decimals(), 7);
    assert_eq!(x.partial_cmp(&p(42, 7)), Some(Ordering::Equal));
}
