//! The Fibonacci generator: a pair of consecutive terms advanced one pull at
//! a time, under a chosen overflow policy.
use vstd::prelude::*;

use crate::integer::UnsignedInteger;

verus! {

/// What the generator does when the next sum does not fit the element type.
#[derive(Debug, Clone, Copy, PartialEq, Eq, Structural)]
pub enum OverflowPolicy {
    /// The sequence ends: every later pull reports exhaustion.
    Checked,
    /// The sum wraps around and the sequence goes on.
    Wrapping,
}

/// The `n`-th Fibonacci number, with `fib(0) == 0` and `fib(1) == 1`.
pub open spec fn fib(n: nat) -> nat
    decreases n,
{
    if n < 2 {
        n
    } else {
        fib((n - 2) as nat) + fib((n - 1) as nat)
    }
}

/// The pair `(current, next)` that a fresh generator holds.
pub open spec fn initial_state() -> (nat, nat) {
    (0, 1)
}

/// The pair that one pull leaves behind, starting from `s`.
pub open spec fn step<T: UnsignedInteger>(policy: OverflowPolicy, s: (nat, nat)) -> (nat, nat) {
    match policy {
        OverflowPolicy::Checked => if T::fits(s.0 + s.1) {
            (s.1, s.0 + s.1)
        } else {
            s
        },
        OverflowPolicy::Wrapping => (s.1, T::wrap(s.0 + s.1)),
    }
}

/// What one pull yields from the pair `s`: `None` marks exhaustion.
pub open spec fn emitted<T: UnsignedInteger>(policy: OverflowPolicy, s: (nat, nat)) -> Option<nat> {
    match policy {
        OverflowPolicy::Checked => if T::fits(s.0 + s.1) {
            Some(s.0)
        } else {
            None
        },
        OverflowPolicy::Wrapping => Some(s.0),
    }
}

/// The pair that a fresh generator holds after `k` pulls.
pub open spec fn state_after<T: UnsignedInteger>(policy: OverflowPolicy, k: nat) -> (nat, nat)
    decreases k,
{
    if k == 0 {
        initial_state()
    } else {
        step::<T>(policy, state_after::<T>(policy, (k - 1) as nat))
    }
}

/// What the pull numbered `k` (from 0) of a fresh generator yields.
pub open spec fn term<T: UnsignedInteger>(policy: OverflowPolicy, k: nat) -> Option<nat> {
    emitted::<T>(policy, state_after::<T>(policy, k))
}

/// A Fibonacci sequence, held as its current and next values.
pub struct Fibonacci<T: UnsignedInteger> {
    /// The value that the next pull yields.
    pub current: T,
    /// The value after that.
    pub next: T,
    /// What happens when a sum does not fit.
    pub policy: OverflowPolicy,
}

impl<T: UnsignedInteger> Fibonacci<T> {
    /// The generator's pair `(current, next)` as numbers.
    pub open spec fn state(&self) -> (nat, nat) {
        (self.current.num(), self.next.num())
    }

    /// A sequence starting at zero that ends where a sum overflows.
    pub fn new() -> (r: Fibonacci<T>)
        ensures
            r.state() == initial_state(),
            r.policy == OverflowPolicy::Checked,
    {
        Self::with_policy(OverflowPolicy::Checked)
    }

    /// A sequence starting at zero under the given overflow policy.
    pub fn with_policy(policy: OverflowPolicy) -> (r: Fibonacci<T>)
        ensures
            r.state() == initial_state(),
            r.policy == policy,
    {
        Fibonacci { current: T::zero(), next: T::one(), policy }
    }

    /// Pulls the next term: yields the current value and moves one term on,
    /// or yields `None` where the checked policy meets an overflow, leaving
    /// the generator as it was.
    pub fn next(&mut self) -> (r: Option<T>)
        ensures
            final(self).policy == old(self).policy,
            final(self).state() == step::<T>(old(self).policy, old(self).state()),
            match r {
                Some(v) => emitted::<T>(old(self).policy, old(self).state()) == Some(v.num()),
                None => emitted::<T>(old(self).policy, old(self).state()) == None::<nat>,
            },
    {
        let a = self.current.clone();
        let b = self.next.clone();
        proof {
            T::lemma_clone(self.current, a);
            T::lemma_clone(self.next, b);
        }
        let mut sum = match self.policy {
            OverflowPolicy::Checked => match a.safe_add(b) {
                Ok(s) => s,
                Err(_) => return None,
            },
            OverflowPolicy::Wrapping => a.unchecked_add(b),
        };
        std::mem::swap(&mut self.next, &mut sum);
        std::mem::swap(&mut self.current, &mut sum);
        Some(sum)
    }
}

impl<T: UnsignedInteger> Default for Fibonacci<T> {
    /// The same generator as `Fibonacci::new`.
    fn default() -> (r: Self)
        ensures
            r.state() == initial_state(),
            r.policy == OverflowPolicy::Checked,
    {
        Self::new()
    }
}

/// Fills `buf` with consecutive terms of the sequence, from `fib(0)` on.
/// The element type must hold every sum that producing them takes.
pub fn fill_fibonacci_sequence<T: UnsignedInteger>(buf: &mut Vec<T>)
    requires
        T::fits(fib((old(buf).len() + 1) as nat)),
    ensures
        final(buf).len() == old(buf).len(),
        forall|i: int| 0 <= i < final(buf).len() ==> (#[trigger] final(buf)@[i]).num() == fib(i as nat),
{
    let n = buf.len();
    let mut generator = Fibonacci::<T>::new();
    let mut i: usize = 0;
    while i < n
        invariant
            buf.len() == n,
            i <= n,
            T::fits(fib((n + 1) as nat)),
            generator.policy == OverflowPolicy::Checked,
            generator.state() == (fib(i as nat), fib((i + 1) as nat)),
            forall|j: int| 0 <= j < i ==> (#[trigger] buf@[j]).num() == fib(j as nat),
        decreases n - i,
    {
        proof {
            lemma_fib_monotonic((i + 2) as nat, (n + 1) as nat);
            T::lemma_range();
        }
        if let Some(v) = generator.next() {
            buf.set(i, v);
        }
        i += 1;
    }
}

/// The sequence never decreases.
pub proof fn lemma_fib_monotonic(i: nat, j: nat)
    requires
        i <= j,
    ensures
        fib(i) <= fib(j),
    decreases j,
{
    if i < j {
        lemma_fib_monotonic(i, (j - 1) as nat);
        if j >= 2 {
            assert(fib(j) == fib((j - 2) as nat) + fib((j - 1) as nat));
        }
    }
}

/// Under the checked policy a fresh generator holds consecutive Fibonacci
/// numbers for as long as they fit, and once a sum overflows its pair never
/// sums into range again.
proof fn lemma_checked_state<T: UnsignedInteger>(k: nat)
    ensures
        T::fits(fib(k + 1)) ==> state_after::<T>(OverflowPolicy::Checked, k) == (fib(k), fib(k + 1)),
        !T::fits(fib(k + 1)) ==> !T::fits(
            state_after::<T>(OverflowPolicy::Checked, k).0 + state_after::<T>(OverflowPolicy::Checked, k).1,
        ),
    decreases k,
{
    T::lemma_range();
    if k > 0 {
        let j = (k - 1) as nat;
        lemma_checked_state::<T>(j);
        lemma_fib_monotonic(k, k + 1);
        assert(fib(k + 1) == fib(j) + fib(k));
    }
}

/// Under the checked policy, pull `k` of a fresh generator yields `fib(k)`
/// exactly when `fib(k + 2)` fits the element type, and reports exhaustion
/// otherwise; so once the sequence has ended it stays ended.
pub proof fn lemma_checked_terms<T: UnsignedInteger>(k: nat)
    ensures
        term::<T>(OverflowPolicy::Checked, k) == if T::fits(fib(k + 2)) {
            Some(fib(k))
        } else {
            None
        },
{
    T::lemma_range();
    lemma_checked_state::<T>(k);
    lemma_fib_monotonic(k + 1, k + 2);
    assert(fib(k + 2) == fib(k) + fib(k + 1));
}

/// Under the wrapping policy, pull `k` of a fresh generator always yields
/// `fib(k)` reduced into the element type's range: the sequence never ends.
pub proof fn lemma_wrapping_terms<T: UnsignedInteger>(k: nat)
    ensures
        state_after::<T>(OverflowPolicy::Wrapping, k) == (T::wrap(fib(k)), T::wrap(fib(k + 1))),
        term::<T>(OverflowPolicy::Wrapping, k) == Some(T::wrap(fib(k))),
    decreases k,
{
    T::lemma_range();
    if k > 0 {
        let j = (k - 1) as nat;
        lemma_wrapping_terms::<T>(j);
        assert(fib(k + 1) == fib(j) + fib(k));
        assert(T::wrap(T::wrap(fib(j)) + T::wrap(fib(k))) == T::wrap(fib(j) + fib(k)));
    } else {
        assert(T::fits(0) && T::fits(1));
    }
}

/// Under either policy the first two pulls yield 0 and then 1.
pub proof fn lemma_sequence_start<T: UnsignedInteger>(policy: OverflowPolicy)
    ensures
        term::<T>(policy, 0) == Some(0nat),
        term::<T>(policy, 1) == Some(1nat),
{
    T::lemma_range();
    reveal_with_fuel(fib, 4);
    lemma_checked_terms::<T>(0);
    lemma_checked_terms::<T>(1);
    lemma_wrapping_terms::<T>(0);
    lemma_wrapping_terms::<T>(1);
}

/// Under either policy each yielded term after the first two is the sum of
/// the two before it, reduced into the element type's range; under the
/// checked policy the sum is exact.
pub proof fn lemma_recurrence<T: UnsignedInteger>(policy: OverflowPolicy, k: nat)
    requires
        term::<T>(policy, k + 2) is Some,
    ensures
        term::<T>(policy, k) is Some,
        term::<T>(policy, k + 1) is Some,
        term::<T>(policy, k + 2)->0 == T::wrap(term::<T>(policy, k)->0 + term::<T>(policy, k + 1)->0),
        policy == OverflowPolicy::Checked ==> term::<T>(policy, k + 2)->0 == term::<T>(policy, k)->0
            + term::<T>(policy, k + 1)->0,
{
    T::lemma_range();
    assert(fib(k + 2) == fib(k) + fib(k + 1));
    assert(fib(k + 3) == fib(k + 1) + fib(k + 2));
    assert(fib(k + 4) == fib(k + 2) + fib(k + 3));
    match policy {
        OverflowPolicy::Checked => {
            lemma_checked_terms::<T>(k);
            lemma_checked_terms::<T>(k + 1);
            lemma_checked_terms::<T>(k + 2);
            lemma_fib_monotonic(k + 2, k + 4);
            lemma_fib_monotonic(k + 3, k + 4);
        },
        OverflowPolicy::Wrapping => {
            lemma_wrapping_terms::<T>(k);
            lemma_wrapping_terms::<T>(k + 1);
            lemma_wrapping_terms::<T>(k + 2);
        },
    }
}

/// A default-constructed generator holds the same state, under the same
/// policy, as one made by `new`.
pub proof fn lemma_default_is_new<T: UnsignedInteger>(a: Fibonacci<T>, b: Fibonacci<T>)
    requires
        call_ensures(Fibonacci::<T>::new, (), a),
        call_ensures(<Fibonacci<T> as Default>::default, (), b),
    ensures
        a.state() == b.state(),
        a.policy == b.policy,
{
}

/// The Fibonacci numbers up to `fib(14)`, the first beyond the 8-bit range.
proof fn lemma_small_fibs()
    ensures
        fib(13) == 233,
        fib(14) == 377,
{
    assert(fib(2) == fib(0) + fib(1));
    assert(fib(3) == fib(1) + fib(2));
    assert(fib(4) == fib(2) + fib(3));
    assert(fib(5) == fib(3) + fib(4));
    assert(fib(6) == fib(4) + fib(5));
    assert(fib(7) == fib(5) + fib(6));
    assert(fib(8) == fib(6) + fib(7));
    assert(fib(9) == fib(7) + fib(8));
    assert(fib(10) == fib(8) + fib(9));
    assert(fib(11) == fib(9) + fib(10));
    assert(fib(12) == fib(10) + fib(11));
    assert(fib(13) == fib(11) + fib(12));
    assert(fib(14) == fib(12) + fib(13));
}

/// With 8-bit elements and the checked policy the first twelve pulls yield
/// terms and every pull from the thirteenth on reports exhaustion.
pub proof fn lemma_u8_checked_ends(k: nat)
    ensures
        k < 12 ==> term::<u8>(OverflowPolicy::Checked, k) == Some(fib(k)),
        k >= 12 ==> term::<u8>(OverflowPolicy::Checked, k) == None::<nat>,
{
    lemma_small_fibs();
    lemma_checked_terms::<u8>(k);
    if k < 12 {
        lemma_fib_monotonic(k + 2, 13);
    } else {
        lemma_fib_monotonic(14, k + 2);
    }
}

/// With 8-bit elements and the wrapping policy no pull reports exhaustion,
/// and pull `k` yields `fib(k)` modulo 256.
pub proof fn lemma_u8_wrapping_goes_on(k: nat)
    ensures
        term::<u8>(OverflowPolicy::Wrapping, k) == Some(fib(k) % 256),
{
    lemma_wrapping_terms::<u8>(k);
}

} // verus!
