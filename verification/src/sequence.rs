//! The Fibonacci recurrence on plain numbers: what the encrypted terms are
//! measured against.

use vstd::prelude::*;

verus! {

/// The number of values that 32 bits hold.
pub const MODULUS: u64 = 0x1_0000_0000;

/// The Fibonacci numbers: 0, 1, and from there on the sum of the two before.
pub open spec fn fib(n: nat) -> nat
    decreases n,
{
    if n == 0 {
        0
    } else if n == 1 {
        1
    } else {
        fib((n - 1) as nat) + fib((n - 2) as nat)
    }
}

/// The `n`-th term as 32 bits hold it: the Fibonacci number modulo 2^32.
pub open spec fn term(n: nat) -> u32 {
    (fib(n) % (MODULUS as nat)) as u32
}

/// The first `k` terms in order.
pub open spec fn terms(k: nat) -> Seq<u32> {
    Seq::new(k, |i: int| term(i as nat))
}

/// The sum of two 32-bit values as 32 bits hold it.
pub open spec fn wrapped_sum(a: u32, b: u32) -> u32 {
    ((a + b) % (MODULUS as int)) as u32
}

/// From the third term on, each term is the wrapped sum of the two before:
/// reducing modulo 2^32 at every step gives the same as reducing at the end.
pub proof fn lemma_term_is_wrapped_sum(n: nat)
    requires
        n >= 2,
    ensures
        term(n) == wrapped_sum(term((n - 1) as nat), term((n - 2) as nat)),
{
    let m = MODULUS as int;
    let a = fib((n - 1) as nat) as int;
    let b = fib((n - 2) as nat) as int;
    assert(fib(n) == a + b);
    vstd::arithmetic::div_mod::lemma_add_mod_noop(a, b, m);
}

/// The Fibonacci numbers never fall.
pub proof fn lemma_fib_grows(n: nat, m: nat)
    requires
        n <= m,
    ensures
        fib(n) <= fib(m),
    decreases m,
{
    if n < m {
        lemma_fib_grows(n, (m - 1) as nat);
        if m >= 2 {
            assert(fib(m) == fib((m - 1) as nat) + fib((m - 2) as nat));
        } else {
            assert(fib(0) == 0 && fib(1) == 1);
        }
    }
}

/// The last Fibonacci number that 32 bits hold, and the first that they do
/// not.
pub proof fn lemma_first_overflow()
    ensures
        fib(47) == 2971215073,
        fib(48) == 4807526976,
        fib(47) < MODULUS <= fib(48),
{
    assert(fib(0) == 0);
    assert(fib(1) == 1);
    assert(fib(2) == 1);
    assert(fib(3) == 2);
    assert(fib(4) == 3);
    assert(fib(5) == 5);
    assert(fib(6) == 8);
    assert(fib(7) == 13);
    assert(fib(8) == 21);
    assert(fib(9) == 34);
    assert(fib(10) == 55);
    assert(fib(11) == 89);
    assert(fib(12) == 144);
    assert(fib(13) == 233);
    assert(fib(14) == 377);
    assert(fib(15) == 610);
    assert(fib(16) == 987);
    assert(fib(17) == 1597);
    assert(fib(18) == 2584);
    assert(fib(19) == 4181);
    assert(fib(20) == 6765);
    assert(fib(21) == 10946);
    assert(fib(22) == 17711);
    assert(fib(23) == 28657);
    assert(fib(24) == 46368);
    assert(fib(25) == 75025);
    assert(fib(26) == 121393);
    assert(fib(27) == 196418);
    assert(fib(28) == 317811);
    assert(fib(29) == 514229);
    assert(fib(30) == 832040);
    assert(fib(31) == 1346269);
    assert(fib(32) == 2178309);
    assert(fib(33) == 3524578);
    assert(fib(34) == 5702887);
    assert(fib(35) == 9227465);
    assert(fib(36) == 14930352);
    assert(fib(37) == 24157817);
    assert(fib(38) == 39088169);
    assert(fib(39) == 63245986);
    assert(fib(40) == 102334155);
    assert(fib(41) == 165580141);
    assert(fib(42) == 267914296);
    assert(fib(43) == 433494437);
    assert(fib(44) == 701408733);
    assert(fib(45) == 1134903170);
    assert(fib(46) == 1836311903);
    assert(fib(47) == 2971215073);
    assert(fib(48) == 4807526976);
}

/// Up to the 47th the terms are the Fibonacci numbers themselves; from the
/// 48th on the Fibonacci numbers are too large for 32 bits, and the terms
/// differ from them.
pub proof fn lemma_terms_wrap_from_48(n: nat)
    ensures
        n < 48 ==> term(n) == fib(n),
        n >= 48 ==> fib(n) >= MODULUS && term(n) != fib(n),
{
    lemma_first_overflow();
    if n < 48 {
        lemma_fib_grows(n, 47);
    } else {
        lemma_fib_grows(48, n);
    }
}

/// Adds two 32-bit values as 32 bits hold the sum.
pub fn wrapping_sum(a: u32, b: u32) -> (sum: u32)
    ensures
        sum == wrapped_sum(a, b),
{
    let wide: u64 = a as u64 + b as u64;
    (wide % MODULUS) as u32
}

/// The first `k` terms on plain numbers, each computed from the two before.
pub fn plain_sequence(k: usize) -> (sequence: Vec<u32>)
    ensures
        sequence@ == terms(k as nat),
{
    let mut sequence: Vec<u32> = Vec::new();
    if k >= 1 {
        sequence.push(0);
    }
    if k >= 2 {
        sequence.push(1);
    }
    assert(fib(0) == 0 && fib(1) == 1);
    let mut i: usize = 2;
    while i < k
        invariant
            sequence.len() == (if k < 2 { k } else { i }),
            2 <= i,
            k >= 2 ==> i <= k,
            forall|j: int| 0 <= j < sequence.len() ==> sequence[j] == term(j as nat),
        decreases k - i,
    {
        proof {
            lemma_term_is_wrapped_sum(i as nat);
        }
        let next = wrapping_sum(sequence[i - 1], sequence[i - 2]);
        sequence.push(next);
        i = i + 1;
    }
    assert(sequence@ =~= terms(k as nat));
    sequence
}

} // verus!
