use std::fmt::Debug;
use std::ops::Add;

use fibonacci::{fill_fibonacci_sequence, Fibonacci, OverflowPolicy, UnsignedInteger};
use num_bigint::BigUint;

fn check_fibonacci<T: UnsignedInteger + PartialEq + Debug + Add<Output = T>>() {
    let mut fib = Fibonacci::<T>::new();
    assert_eq!(fib.current, T::zero());
    assert_eq!(fib.next, T::one());

    assert_eq!(fib.next(), Some(T::zero()));
    assert_eq!(fib.next(), Some(T::one()));
    assert_eq!(fib.next(), Some(T::one()));
    assert_eq!(fib.next(), Some(T::one() + T::one()));
    assert_eq!(fib.next(), Some(T::one() + T::one() + T::one()));
    assert_eq!(
        fib.next(),
        Some(T::one() + T::one() + T::one() + T::one() + T::one())
    );
}

#[test]
fn test_fibonacci_u8() {
    check_fibonacci::<u8>();
}

#[test]
fn test_fibonacci_u16() {
    check_fibonacci::<u16>();
}

#[test]
fn test_fibonacci_u32() {
    check_fibonacci::<u32>();
}

#[test]
fn test_fibonacci_u64() {
    check_fibonacci::<u64>();
}

#[test]
fn test_fibonacci_u128() {
    check_fibonacci::<u128>();
}

#[test]
fn test_fibonacci_big_uint() {
    check_fibonacci::<BigUint>();
}

#[test]
fn test_fibonacci_new() {
    let fib: Fibonacci<u8> = Fibonacci::new();
    assert_eq!(fib.current, 0);
    assert_eq!(fib.next, 1);
}

#[test]
fn test_fibonacci_default() {
    let fib: Fibonacci<u8> = Default::default();
    assert_eq!(fib.current, 0);
    assert_eq!(fib.next, 1);
}

#[test]
fn test_fibonacci_iterator() {
    let mut fib = Fibonacci::<u8>::new();
    assert_eq!(fib.next(), Some(0));

    assert_eq!(fib.next(), Some(1));
    assert_eq!(fib.next(), Some(1));
    assert_eq!(fib.next(), Some(2));
    assert_eq!(fib.next(), Some(3));
    assert_eq!(fib.next(), Some(5));
}

#[test]
fn test_fibonacci_overflow() {
    let mut fib = Fibonacci::<u8>::new();
    for _ in 0..255 {
        fib.next();
    }
    assert_eq!(fib.next(), None);
}

fn first_seven<T: UnsignedInteger>(policy: OverflowPolicy) -> Vec<T> {
    let mut fib = Fibonacci::<T>::with_policy(policy);
    (0..7).map(|_| fib.next().unwrap()).collect()
}

#[test]
fn first_seven_terms_every_type_and_policy() {
    let expected: Vec<u64> = vec![0, 1, 1, 2, 3, 5, 8];
    for policy in [OverflowPolicy::Checked, OverflowPolicy::Wrapping] {
        assert_eq!(first_seven::<u8>(policy), vec![0u8, 1, 1, 2, 3, 5, 8]);
        assert_eq!(first_seven::<u16>(policy), vec![0u16, 1, 1, 2, 3, 5, 8]);
        assert_eq!(first_seven::<u32>(policy), vec![0u32, 1, 1, 2, 3, 5, 8]);
        assert_eq!(first_seven::<u64>(policy), expected);
        assert_eq!(first_seven::<u128>(policy), vec![0u128, 1, 1, 2, 3, 5, 8]);
        let big: Vec<BigUint> = expected.iter().map(|&v| BigUint::from(v)).collect();
        assert_eq!(first_seven::<BigUint>(policy), big);
    }
}

#[test]
fn recurrence_holds_while_terms_fit() {
    let mut fib = Fibonacci::<u64>::new();
    let mut terms: Vec<u64> = Vec::new();
    while let Some(v) = fib.next() {
        terms.push(v);
    }
    assert!(terms.len() > 80);
    for n in 2..terms.len() {
        assert_eq!(terms[n], terms[n - 1] + terms[n - 2]);
    }
}

#[test]
fn with_policy_seeds_zero_and_one() {
    let fib = Fibonacci::<u32>::with_policy(OverflowPolicy::Wrapping);
    assert_eq!(fib.current, 0);
    assert_eq!(fib.next, 1);
    assert_eq!(fib.policy, OverflowPolicy::Wrapping);
}

#[test]
fn default_matches_new() {
    let a: Fibonacci<u16> = Fibonacci::new();
    let b: Fibonacci<u16> = Default::default();
    assert_eq!(a.current, b.current);
    assert_eq!(a.next, b.next);
    assert_eq!(a.policy, b.policy);
}

#[test]
fn checked_u8_ends_after_twelve_terms() {
    let mut fib = Fibonacci::<u8>::new();
    let expected: [u8; 12] = [0, 1, 1, 2, 3, 5, 8, 13, 21, 34, 55, 89];
    for v in expected {
        assert_eq!(fib.next(), Some(v));
    }
    for _ in 0..300 {
        assert_eq!(fib.next(), None);
    }
    assert_eq!(fib.current, 144);
    assert_eq!(fib.next, 233);
}

#[test]
fn wrapping_u8_never_ends() {
    let mut fib = Fibonacci::<u8>::with_policy(OverflowPolicy::Wrapping);
    let mut exact: (u64, u64) = (0, 1);
    for _ in 0..300 {
        let v = fib.next();
        assert_eq!(v, Some((exact.0 % 256) as u8));
        exact = (exact.1 % 256, (exact.0 + exact.1) % 256);
    }
}

#[test]
fn wrapping_u8_wraps_the_fifteenth_term() {
    let mut fib = Fibonacci::<u8>::with_policy(OverflowPolicy::Wrapping);
    for _ in 0..14 {
        fib.next();
    }
    assert_eq!(fib.next(), Some(121));
}

#[test]
fn fill_ten_u64_terms() {
    let mut buf = vec![0u64; 10];
    fill_fibonacci_sequence(&mut buf);
    assert_eq!(buf, vec![0, 1, 1, 2, 3, 5, 8, 13, 21, 34]);
}

#[test]
fn fill_empty_buffer() {
    let mut buf: Vec<u32> = Vec::new();
    fill_fibonacci_sequence(&mut buf);
    assert!(buf.is_empty());
}

#[test]
fn fill_overwrites_u8_terms() {
    let mut buf = vec![7u8; 12];
    fill_fibonacci_sequence(&mut buf);
    assert_eq!(buf, vec![0, 1, 1, 2, 3, 5, 8, 13, 21, 34, 55, 89]);
}

#[test]
fn big_uint_thousand_terms_never_end() {
    for policy in [OverflowPolicy::Checked, OverflowPolicy::Wrapping] {
        let mut fib = Fibonacci::<BigUint>::with_policy(policy);
        let mut previous = BigUint::from(0u32);
        for n in 0..1000 {
            let v = fib.next();
            assert!(v.is_some());
            let v = v.unwrap();
            if n == 100 {
                assert_eq!(v, BigUint::from(354224848179261915075u128));
            }
            if n > 2 {
                assert!(v > previous);
            }
            previous = v;
        }
        assert!(previous.bits() > 128);
    }
}

#[test]
fn u128_checked_ends_past_its_range() {
    let mut fib = Fibonacci::<u128>::new();
    let mut count: usize = 0;
    while fib.next().is_some() {
        count += 1;
    }
    assert_eq!(count, 185);
    assert_eq!(fib.next(), None);
}
