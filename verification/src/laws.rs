//! What holds of the engine as a whole, proved from the contracts of its
//! functions.

use vstd::prelude::*;
use crate::engine::{decrypts_to, holds_terms, steps_of};
use crate::fhe::Ciphertext;
use crate::sequence::{fib, lemma_terms_wrap_from_48, terms, MODULUS};

verus! {

/// Decrypting what the recurrence computed gives, for every count `k`,
/// exactly `k` values, and they are the Fibonacci numbers modulo 2^32 term
/// for term.
pub proof fn lemma_decrypted_sequence_is_fibonacci(
    sequence: Seq<Ciphertext>,
    key: tfhe::ClientKey,
    k: nat,
    values: Seq<u32>,
)
    requires
        holds_terms(sequence, key, k),
        decrypts_to(sequence, key, values),
    ensures
        values.len() == k,
        values == terms(k),
{
    assert forall|i: int| 0 <= i < values.len() implies values[i] == terms(k)[i] by {
        assert(values[i] == crate::fhe::decryption(sequence[i], key));
    }
    assert(values =~= terms(k));
}

/// Decrypting the same ciphertexts twice with the same key gives the same
/// values both times.
pub proof fn lemma_decryption_is_repeatable(
    sequence: Seq<Ciphertext>,
    key: tfhe::ClientKey,
    first: Seq<u32>,
    second: Seq<u32>,
)
    requires
        decrypts_to(sequence, key, first),
        decrypts_to(sequence, key, second),
    ensures
        first == second,
{
    assert forall|i: int| 0 <= i < first.len() implies first[i] == second[i] by {
        assert(first[i] == crate::fhe::decryption(sequence[i], key));
        assert(second[i] == crate::fhe::decryption(sequence[i], key));
    }
    assert(first =~= second);
}

/// Two runs for the same count give the same decrypted values, whatever the
/// keys of each run were and whatever the ciphertexts looked like.
pub proof fn lemma_result_is_independent_of_keys(
    k: nat,
    sequence: Seq<Ciphertext>,
    key: tfhe::ClientKey,
    values: Seq<u32>,
    other_sequence: Seq<Ciphertext>,
    other_key: tfhe::ClientKey,
    other_values: Seq<u32>,
)
    requires
        holds_terms(sequence, key, k),
        decrypts_to(sequence, key, values),
        holds_terms(other_sequence, other_key, k),
        decrypts_to(other_sequence, other_key, other_values),
    ensures
        values == other_values,
{
    lemma_decrypted_sequence_is_fibonacci(sequence, key, k, values);
    lemma_decrypted_sequence_is_fibonacci(other_sequence, other_key, k, other_values);
}

/// Every decrypted term is its Fibonacci number modulo 2^32. Up to the 47th
/// that is the Fibonacci number itself; from the 48th on the Fibonacci number
/// no longer fits in 32 bits, and the term is what is left of it: no error,
/// and not the number.
pub proof fn lemma_overflowing_terms_wrap(
    sequence: Seq<Ciphertext>,
    key: tfhe::ClientKey,
    k: nat,
    values: Seq<u32>,
    i: nat,
)
    requires
        holds_terms(sequence, key, k),
        decrypts_to(sequence, key, values),
        i < k,
    ensures
        values[i as int] == fib(i) % (MODULUS as nat),
        i < 48 ==> values[i as int] == fib(i),
        i >= 48 ==> fib(i) > u32::MAX && values[i as int] != fib(i),
{
    lemma_decrypted_sequence_is_fibonacci(sequence, key, k, values);
    assert(values[i as int] == terms(k)[i as int]);
    lemma_terms_wrap_from_48(i);
}

/// The record of steps only grows: after two runs in a row, for `k1` and
/// then `k2` terms, it holds what it held before, then the steps of the
/// first run, then those of the second, each as it was recorded.
pub proof fn lemma_steps_accumulate(
    before: Seq<u64>,
    between: Seq<u64>,
    after: Seq<u64>,
    k1: nat,
    k2: nat,
)
    requires
        before.is_prefix_of(between),
        between.len() == before.len() + steps_of(k1),
        between.is_prefix_of(after),
        after.len() == between.len() + steps_of(k2),
    ensures
        after.len() == before.len() + steps_of(k1) + steps_of(k2),
        before.is_prefix_of(after),
        after.take(between.len() as int) == between,
        after.take(before.len() as int) == before,
{
    assert(after.take(between.len() as int) =~= between);
    assert(after.take(before.len() as int) =~= before);
}

} // verus!
