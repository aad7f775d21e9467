//! The arbitrary-precision element type, `num_bigint::BigUint`, whose sums
//! never overflow.
use vstd::prelude::*;

use num_bigint::BigUint;

use crate::integer::UnsignedInteger;
use crate::sequence::{OverflowPolicy, fib, term, lemma_checked_terms, lemma_wrapping_terms, lemma_fib_monotonic};
use crate::ArithmeticError;

verus! {

#[verifier::external_type_specification]
#[verifier::external_body]
pub struct ExBigUint(BigUint);

/// The natural number that a `BigUint` holds.
pub uninterp spec fn biguint_value(b: BigUint) -> nat;

/// Relies on num_bigint's `Clone for BigUint`: the clone holds the same digits.
pub assume_specification[ <BigUint as Clone>::clone ](b: &BigUint) -> (r: BigUint)
    ensures
        biguint_value(r) == biguint_value(*b),
;

/// Relies on num_bigint's `From<u32> for BigUint`: the result holds `n`.
#[verifier::external_body]
fn biguint_from_u32(n: u32) -> (r: BigUint)
    ensures
        biguint_value(r) == n,
{
    BigUint::from(n)
}

/// Relies on num_bigint's `Add for BigUint`: the exact sum of the two values.
#[verifier::external_body]
fn biguint_add(a: BigUint, b: BigUint) -> (r: BigUint)
    ensures
        biguint_value(r) == biguint_value(a) + biguint_value(b),
{
    a + b
}

impl UnsignedInteger for BigUint {
    open spec fn num(&self) -> nat {
        biguint_value(*self)
    }

    open spec fn fits(n: nat) -> bool {
        true
    }

    open spec fn wrap(n: nat) -> nat {
        n
    }

    proof fn lemma_range() {
    }

    proof fn lemma_clone(a: Self, b: Self) {
    }

    fn zero() -> (r: Self) {
        biguint_from_u32(0)
    }

    fn one() -> (r: Self) {
        biguint_from_u32(1)
    }

    fn safe_add(self, rhs: Self) -> (r: Result<Self, ArithmeticError>) {
        Ok(biguint_add(self, rhs))
    }

    fn unchecked_add(self, rhs: Self) -> (r: Self) {
        biguint_add(self, rhs)
    }
}

/// With arbitrary-precision elements no pull ever reports exhaustion, under
/// either policy: pull `k` yields `fib(k)` itself, and the terms grow without
/// bound.
pub proof fn lemma_big_never_ends(policy: OverflowPolicy, k: nat)
    ensures
        term::<BigUint>(policy, k) == Some(fib(k)),
        k >= 5 ==> fib(k) >= k,
{
    lemma_checked_terms::<BigUint>(k);
    lemma_wrapping_terms::<BigUint>(k);
    lemma_fib_at_least_index(k);
}

/// From the fifth on, each Fibonacci number is at least its index.
proof fn lemma_fib_at_least_index(k: nat)
    ensures
        k >= 5 ==> fib(k) >= k,
    decreases k,
{
    if k >= 5 {
        reveal_with_fuel(fib, 6);
        if k > 6 {
            lemma_fib_at_least_index((k - 1) as nat);
            lemma_fib_monotonic(1, (k - 2) as nat);
        }
    }
}

} // verus!
