//! Search for exponents `p` for which the Lucas-Lehmer test on `2^p - 1`
//! succeeds.

use crate::exponent_table::{
    is_passing_exponent, lemma_next_passing_exponent, lemma_passing_exponents, lemma_pow2_values,
    next_passing_exponent,
};
use vstd::prelude::*;

verus! {

/// The largest exponent whose test fits the 128-bit arithmetic used here.
pub const MAX_EXPONENT: u32 = 63;

/// The largest exponent at or below `MAX_EXPONENT` that passes the test.
pub const LAST_EXPONENT: u32 = 61;

/// `n` has exactly two divisors.
pub open spec fn is_prime_number(n: nat) -> bool {
    n >= 2 && forall|d: nat| 2 <= d < n ==> #[trigger] (n % d) != 0
}

/// Two to the power `e`.
pub open spec fn pow2(e: nat) -> nat
    decreases e,
{
    if e == 0 {
        1
    } else {
        2 * pow2((e - 1) as nat)
    }
}

/// The Mersenne number `2^p - 1`.
pub open spec fn mersenne_number(p: nat) -> int {
    pow2(p) - 1
}

/// The Lucas-Lehmer sequence modulo `2^p - 1` after `steps` steps: it
/// starts at 4, and each step squares, subtracts 2 and reduces.
pub open spec fn lucas_lehmer_residue(p: nat, steps: nat) -> int
    decreases steps,
{
    if steps == 0 {
        4
    } else {
        let s = lucas_lehmer_residue(p, (steps - 1) as nat);
        (s * s - 2) % mersenne_number(p)
    }
}

/// The outcome of the Lucas-Lehmer test on the exponent `p`: 2 passes; any
/// other exponent passes when it is prime and the sequence reaches 0 after
/// `p - 2` steps.
pub open spec fn passes_lucas_lehmer(p: nat) -> bool {
    p == 2 || (is_prime_number(p) && lucas_lehmer_residue(p, (p - 2) as nat) == 0)
}

proof fn lemma_pow2_monotonic(a: nat, b: nat)
    requires
        a <= b,
    ensures
        pow2(a) <= pow2(b),
        pow2(a) >= 1,
    decreases b,
{
    if a < b {
        lemma_pow2_monotonic(a, (b - 1) as nat);
    } else if a > 0 {
        lemma_pow2_monotonic((a - 1) as nat, (a - 1) as nat);
    }
}

/// `primes::is_prime` on a 32-bit number. The function rejects 0 and 1
/// and otherwise looks for the smallest factor, first 2 and then the odd
/// numbers up to the square root; it answers whether that search ends at
/// the number itself. The contract states this as primality of `n`.
#[verifier::external_body]
fn is_prime(n: u32) -> (prime: bool)
    ensures
        prime == is_prime_number(n as nat),
{
    primes::is_prime(n.into())
}

/// The modulus `2^n - 1` of the test on the exponent `n`.
fn mersenne_modulus(n: u32) -> (m: u128)
    requires
        n <= MAX_EXPONENT,
    ensures
        m == mersenne_number(n as nat),
{
    let mut m: u128 = 0;
    let mut i: u32 = 0;
    proof {
        lemma_pow2_monotonic(0, 63);
        lemma_pow2_values();
    }
    while i < n
        invariant
            i <= n <= MAX_EXPONENT,
            m == mersenne_number(i as nat),
            pow2(63) == 0x8000_0000_0000_0000,
        decreases n - i,
    {
        proof {
            lemma_pow2_monotonic(i as nat + 1, 63);
        }
        m = 2 * m + 1;
        i += 1;
    }
    m
}

/// Runs the Lucas-Lehmer test on the exponent `n`: 2 passes, an exponent
/// that is not prime fails, and any other passes when the sequence that
/// starts at 4 and maps `s` to `(s * s - 2) mod (2^n - 1)` is 0 after
/// `n - 2` steps.
pub fn lucas_lehmer_test(n: u32) -> (passes: bool)
    requires
        n <= MAX_EXPONENT,
    ensures
        passes == passes_lucas_lehmer(n as nat),
        passes == is_passing_exponent(n as nat),
{
    proof {
        lemma_passing_exponents(n as nat);
    }
    if n == 2 {
        return true;
    }
    if !is_prime(n) {
        return false;
    }
    assert(n >= 3);
    let m: u128 = mersenne_modulus(n);
    proof {
        lemma_pow2_monotonic(3, n as nat);
        lemma_pow2_monotonic(n as nat, 63);
        lemma_pow2_values();
    }
    let mut s: u128 = 4;
    let mut i: u32 = 2;
    while i < n
        invariant
            2 <= i <= n,
            7 <= m < 0x8000_0000_0000_0000,
            m == mersenne_number(n as nat),
            0 <= s < m,
            s == lucas_lehmer_residue(n as nat, (i - 2) as nat),
        decreases n - i,
    {
        assert(s * s < 0x8000_0000_0000_0000 * 0x8000_0000_0000_0000) by (nonlinear_arith)
            requires
                0 <= s < 0x8000_0000_0000_0000,
        ;
        let square: u128 = s * s;
        proof {
            lemma_shifted_residue(square as int, m as int);
        }
        s = (square + m - 2) % m;
        i += 1;
    }
    s == 0
}

/// Adding the modulus before reducing does not change the residue.
proof fn lemma_shifted_residue(a: int, m: int)
    requires
        m > 0,
    ensures
        (a + m - 2) % m == (a - 2) % m,
{
    vstd::arithmetic::div_mod::lemma_mod_add_multiples_vanish(a - 2, m);
}

/// Finds the smallest exponent above `earlier_prime` that passes the
/// Lucas-Lehmer test. The search stays within the exponents whose test
/// fits 128-bit arithmetic, so `earlier_prime` must be below 61, the last
/// passing exponent of that range.
pub fn find_next_mersenne_prime(earlier_prime: u32) -> (next: u32)
    requires
        earlier_prime < LAST_EXPONENT,
    ensures
        is_next_exponent(earlier_prime as nat, next as nat),
        next == next_passing_exponent(earlier_prime as nat),
{
    let mut p: u32 = earlier_prime + 1;
    proof {
        lemma_passing_exponents(LAST_EXPONENT as nat);
    }
    while !lucas_lehmer_test(p)
        invariant
            earlier_prime < p <= LAST_EXPONENT,
            passes_lucas_lehmer(LAST_EXPONENT as nat),
            forall|q: nat| earlier_prime < q < p ==> !passes_lucas_lehmer(q),
        decreases LAST_EXPONENT - p,
    {
        p += 1;
    }
    proof {
        lemma_next_passing_exponent(earlier_prime as nat, p as nat);
    }
    p
}

/// `next` is the smallest exponent above `after` that passes the
/// Lucas-Lehmer test.
pub open spec fn is_next_exponent(after: nat, next: nat) -> bool {
    &&& after < next
    &&& passes_lucas_lehmer(next)
    &&& forall|q: nat| after < q < next ==> !passes_lucas_lehmer(q)
}

} // verus!
