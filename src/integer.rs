//! The arithmetic that an element type of the sequence must offer.
use vstd::prelude::*;

use crate::ArithmeticError;

verus! {

/// An unsigned integer type: a zero, a one, and addition that either reports
/// overflow or wraps around.
pub trait UnsignedInteger: Sized + Clone {
    /// The number that a value stands for.
    spec fn num(&self) -> nat;

    /// Whether the type can represent `n`.
    spec fn fits(n: nat) -> bool;

    /// `n` reduced into the type's range.
    spec fn wrap(n: nat) -> nat;

    /// The range is an initial segment of the naturals that holds at least
    /// the 8-bit values, and wrapping is reduction into it, compatible with
    /// addition.
    proof fn lemma_range()
        ensures
            forall|n: nat| n <= 255 ==> Self::fits(n),
            forall|m: nat, n: nat| m <= n && #[trigger] Self::fits(n) ==> #[trigger] Self::fits(m),
            forall|n: nat| Self::fits(n) ==> #[trigger] Self::wrap(n) == n,
            forall|n: nat| Self::fits(#[trigger] Self::wrap(n)),
            forall|a: nat, b: nat|
                #[trigger] Self::wrap(Self::wrap(a) + Self::wrap(b)) == #[trigger] Self::wrap(a + b),
    ;

    /// A clone stands for the same number.
    proof fn lemma_clone(a: Self, b: Self)
        requires
            cloned(a, b),
        ensures
            a.num() == b.num(),
    ;

    /// The additive identity.
    fn zero() -> (r: Self)
        ensures
            r.num() == 0,
    ;

    /// The unit, the second seed of the sequence.
    fn one() -> (r: Self)
        ensures
            r.num() == 1,
    ;

    /// The sum, or `Overflow` where it is out of range.
    fn safe_add(self, rhs: Self) -> (r: Result<Self, ArithmeticError>)
        ensures
            match r {
                Ok(s) => Self::fits(self.num() + rhs.num()) && s.num() == self.num() + rhs.num(),
                Err(e) => !Self::fits(self.num() + rhs.num()) && e == ArithmeticError::Overflow,
            },
    ;

    /// The sum reduced into the type's range.
    fn unchecked_add(self, rhs: Self) -> (r: Self)
        ensures
            r.num() == Self::wrap(self.num() + rhs.num()),
    ;
}

impl UnsignedInteger for u8 {
    open spec fn num(&self) -> nat {
        *self as nat
    }

    open spec fn fits(n: nat) -> bool {
        n <= u8::MAX
    }

    open spec fn wrap(n: nat) -> nat {
        n % (u8::MAX as nat + 1)
    }

    proof fn lemma_range() {
        assert forall|a: nat, b: nat| #[trigger] Self::wrap(Self::wrap(a) + Self::wrap(b)) == #[trigger] Self::wrap(a + b) by {
            lemma_mod_sum(a, b, u8::MAX as nat + 1);
        }
        assert forall|n: nat| Self::fits(n) implies #[trigger] Self::wrap(n) == n by {
            lemma_mod_once(n, u8::MAX as nat + 1);
        }
    }

    proof fn lemma_clone(a: Self, b: Self) {
    }

    fn zero() -> (r: Self) {
        0
    }

    fn one() -> (r: Self) {
        1
    }

    fn safe_add(self, rhs: Self) -> (r: Result<Self, ArithmeticError>) {
        match self.checked_add(rhs) {
            Some(s) => Ok(s),
            None => Err(ArithmeticError::Overflow),
        }
    }

    fn unchecked_add(self, rhs: Self) -> (r: Self) {
        proof {
            lemma_mod_once(self as nat + rhs as nat, u8::MAX as nat + 1);
        }
        self.wrapping_add(rhs)
    }
}

impl UnsignedInteger for u16 {
    open spec fn num(&self) -> nat {
        *self as nat
    }

    open spec fn fits(n: nat) -> bool {
        n <= u16::MAX
    }

    open spec fn wrap(n: nat) -> nat {
        n % (u16::MAX as nat + 1)
    }

    proof fn lemma_range() {
        assert forall|a: nat, b: nat| #[trigger] Self::wrap(Self::wrap(a) + Self::wrap(b)) == #[trigger] Self::wrap(a + b) by {
            lemma_mod_sum(a, b, u16::MAX as nat + 1);
        }
        assert forall|n: nat| Self::fits(n) implies #[trigger] Self::wrap(n) == n by {
            lemma_mod_once(n, u16::MAX as nat + 1);
        }
    }

    proof fn lemma_clone(a: Self, b: Self) {
    }

    fn zero() -> (r: Self) {
        0
    }

    fn one() -> (r: Self) {
        1
    }

    fn safe_add(self, rhs: Self) -> (r: Result<Self, ArithmeticError>) {
        match self.checked_add(rhs) {
            Some(s) => Ok(s),
            None => Err(ArithmeticError::Overflow),
        }
    }

    fn unchecked_add(self, rhs: Self) -> (r: Self) {
        proof {
            lemma_mod_once(self as nat + rhs as nat, u16::MAX as nat + 1);
        }
        self.wrapping_add(rhs)
    }
}

impl UnsignedInteger for u32 {
    open spec fn num(&self) -> nat {
        *self as nat
    }

    open spec fn fits(n: nat) -> bool {
        n <= u32::MAX
    }

    open spec fn wrap(n: nat) -> nat {
        n % (u32::MAX as nat + 1)
    }

    proof fn lemma_range() {
        assert forall|a: nat, b: nat| #[trigger] Self::wrap(Self::wrap(a) + Self::wrap(b)) == #[trigger] Self::wrap(a + b) by {
            lemma_mod_sum(a, b, u32::MAX as nat + 1);
        }
        assert forall|n: nat| Self::fits(n) implies #[trigger] Self::wrap(n) == n by {
            lemma_mod_once(n, u32::MAX as nat + 1);
        }
    }

    proof fn lemma_clone(a: Self, b: Self) {
    }

    fn zero() -> (r: Self) {
        0
    }

    fn one() -> (r: Self) {
        1
    }

    fn safe_add(self, rhs: Self) -> (r: Result<Self, ArithmeticError>) {
        match self.checked_add(rhs) {
            Some(s) => Ok(s),
            None => Err(ArithmeticError::Overflow),
        }
    }

    fn unchecked_add(self, rhs: Self) -> (r: Self) {
        proof {
            lemma_mod_once(self as nat + rhs as nat, u32::MAX as nat + 1);
        }
        self.wrapping_add(rhs)
    }
}

impl UnsignedInteger for u64 {
    open spec fn num(&self) -> nat {
        *self as nat
    }

    open spec fn fits(n: nat) -> bool {
        n <= u64::MAX
    }

    open spec fn wrap(n: nat) -> nat {
        n % (u64::MAX as nat + 1)
    }

    proof fn lemma_range() {
        assert forall|a: nat, b: nat| #[trigger] Self::wrap(Self::wrap(a) + Self::wrap(b)) == #[trigger] Self::wrap(a + b) by {
            lemma_mod_sum(a, b, u64::MAX as nat + 1);
        }
        assert forall|n: nat| Self::fits(n) implies #[trigger] Self::wrap(n) == n by {
            lemma_mod_once(n, u64::MAX as nat + 1);
        }
    }

    proof fn lemma_clone(a: Self, b: Self) {
    }

    fn zero() -> (r: Self) {
        0
    }

    fn one() -> (r: Self) {
        1
    }

    fn safe_add(self, rhs: Self) -> (r: Result<Self, ArithmeticError>) {
        match self.checked_add(rhs) {
            Some(s) => Ok(s),
            None => Err(ArithmeticError::Overflow),
        }
    }

    fn unchecked_add(self, rhs: Self) -> (r: Self) {
        proof {
            lemma_mod_once(self as nat + rhs as nat, u64::MAX as nat + 1);
        }
        self.wrapping_add(rhs)
    }
}

impl UnsignedInteger for u128 {
    open spec fn num(&self) -> nat {
        *self as nat
    }

    open spec fn fits(n: nat) -> bool {
        n <= u128::MAX
    }

    open spec fn wrap(n: nat) -> nat {
        n % (u128::MAX as nat + 1)
    }

    proof fn lemma_range() {
        assert forall|a: nat, b: nat| #[trigger] Self::wrap(Self::wrap(a) + Self::wrap(b)) == #[trigger] Self::wrap(a + b) by {
            lemma_mod_sum(a, b, u128::MAX as nat + 1);
        }
        assert forall|n: nat| Self::fits(n) implies #[trigger] Self::wrap(n) == n by {
            lemma_mod_once(n, u128::MAX as nat + 1);
        }
    }

    proof fn lemma_clone(a: Self, b: Self) {
    }

    fn zero() -> (r: Self) {
        0
    }

    fn one() -> (r: Self) {
        1
    }

    fn safe_add(self, rhs: Self) -> (r: Result<Self, ArithmeticError>) {
        match self.checked_add(rhs) {
            Some(s) => Ok(s),
            None => Err(ArithmeticError::Overflow),
        }
    }

    fn unchecked_add(self, rhs: Self) -> (r: Self) {
        proof {
            lemma_mod_once(self as nat + rhs as nat, u128::MAX as nat + 1);
        }
        self.wrapping_add(rhs)
    }
}

/// A number below twice the modulus is reduced by at most one subtraction.
proof fn lemma_mod_once(n: nat, m: nat)
    requires
        m > 0,
        n < 2 * m,
    ensures
        n % m == if n >= m { (n - m) as nat } else { n },
{
    if n >= m {
        vstd::arithmetic::div_mod::lemma_mod_add_multiples_vanish((n - m) as int, m as int);
        vstd::arithmetic::div_mod::lemma_small_mod((n - m) as nat, m);
    } else {
        vstd::arithmetic::div_mod::lemma_small_mod(n, m);
    }
}

/// Reducing the summands first does not change the sum's remainder.
proof fn lemma_mod_sum(a: nat, b: nat, m: nat)
    requires
        m > 0,
    ensures
        ((a % m) + (b % m)) % m == (a + b) % m,
{
    vstd::arithmetic::div_mod::lemma_add_mod_noop(a as int, b as int, m as int);
}

} // verus!
