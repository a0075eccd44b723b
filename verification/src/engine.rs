//! The engine: a key pair, the encrypted recurrence, and its decryption.

use vstd::prelude::*;
use vstd::string::*;
use crate::config::{ConfigParams, SecurityLevel};
use crate::fhe::{
    activate, decrypt, decryption, encrypted_under, evaluates_for, generate_keys,
    generated_from, homomorphic_add, supported, try_encrypt, Ciphertext,
};
use crate::report::{summary, texts, timing_summary};
use crate::sequence::{lemma_term_is_wrapped_sum, term, wrapped_sum};
use crate::timings::{elapsed, start, FibonacciTimings, Phase};

verus! {

/// Why a run failed.
#[derive(Clone, Copy, Debug, PartialEq, Eq, Structural)]
pub enum FheError {
    /// `tfhe` refused to encrypt a seed of the recurrence, 0 or 1.
    Encryption { seed: u32 },
}

impl FheError {
    /// What went wrong, in words.
    pub fn message(&self) -> (text: String)
        ensures
            text@ == (match *self {
                FheError::Encryption { seed } => if seed == 0 {
                    "Failed to encrypt first value"@
                } else {
                    "Failed to encrypt second value"@
                },
            }),
    {
        match self {
            FheError::Encryption { seed } => {
                if *seed == 0 {
                    String::from_str("Failed to encrypt first value")
                } else {
                    String::from_str("Failed to encrypt second value")
                }
            },
        }
    }
}

/// A sequence of ciphertexts holds the first `k` terms for a private key:
/// it has `k` members, each made for the key and decrypting to its term.
pub open spec fn holds_terms(sequence: Seq<Ciphertext>, key: tfhe::ClientKey, k: nat) -> bool {
    &&& sequence.len() == k
    &&& forall|i: int|
        0 <= i < sequence.len() ==> encrypted_under(#[trigger] sequence[i], key) && decryption(
            sequence[i],
            key,
        ) == term(i as nat)
}

/// A sequence of values is what a sequence of ciphertexts decrypts to with a
/// private key, member by member.
pub open spec fn decrypts_to(
    sequence: Seq<Ciphertext>,
    key: tfhe::ClientKey,
    values: Seq<u32>,
) -> bool {
    &&& values.len() == sequence.len()
    &&& forall|i: int|
        0 <= i < values.len() ==> #[trigger] values[i] == decryption(sequence[i], key)
}

/// What became of one seed: the ciphertext where `tfhe` made one, and the
/// error that names the seed where it refused.
pub fn seed_from(seed: u32, outcome: Result<Ciphertext, tfhe::Error>) -> (seeded: Result<
    Ciphertext,
    FheError,
>)
    ensures
        outcome matches Ok(ct) ==> seeded == Ok::<Ciphertext, FheError>(ct),
        outcome is Err ==> seeded == Err::<Ciphertext, FheError>(FheError::Encryption { seed }),
{
    match outcome {
        Ok(ct) => Ok(ct),
        Err(_) => Err(FheError::Encryption { seed }),
    }
}

/// A pair of ciphertexts holds the seeds of the recurrence for a private
/// key: both are made for it, the first decrypts to 0 and the second to 1.
pub open spec fn holds_seeds(pair: (Ciphertext, Ciphertext), key: tfhe::ClientKey) -> bool {
    &&& encrypted_under(pair.0, key)
    &&& decryption(pair.0, key) == 0
    &&& encrypted_under(pair.1, key)
    &&& decryption(pair.1, key) == 1
}

/// How many steps a run for `k` terms takes: one for each term after the
/// two seeds.
pub open spec fn steps_of(k: nat) -> nat {
    if k >= 2 {
        (k - 2) as nat
    } else {
        0
    }
}

/// Encrypts the seeds 0 and 1 under a private key and records how long that
/// took. The key must have been generated from a parameter set that `tfhe`
/// generates keys from.
fn encrypt_seeds(key: &tfhe::ClientKey, timings: &mut FibonacciTimings) -> (seeds: Result<
    (Ciphertext, Ciphertext),
    FheError,
>)
    requires
        exists|config: tfhe::Config| #[trigger] generated_from(*key, config) && supported(config),
    ensures
        seeds matches Ok(pair) && holds_seeds(pair, *key),
        final(timings).phase(Phase::Encryption) is Some,
        forall|phase: Phase|
            phase != Phase::Encryption ==> final(timings).phase(phase) == old(timings).phase(phase),
        final(timings).computation_steps@ == old(timings).computation_steps@,
{
    let begun = start();
    let seeds = match seed_from(0, try_encrypt(0, key)) {
        Ok(first) => match seed_from(1, try_encrypt(1, key)) {
            Ok(second) => Ok((first, second)),
            Err(e) => Err(e),
        },
        Err(e) => Err(e),
    };
    timings.record(Phase::Encryption, elapsed(&begun));
    seeds
}

/// Runs the recurrence on ciphertexts: the first `k` terms, from the two
/// seeds on each the homomorphic sum of the two before, with the duration of
/// every sum recorded as one more step.
fn extend(
    server: &tfhe::ServerKey,
    first: Ciphertext,
    second: Ciphertext,
    k: usize,
    timings: &mut FibonacciTimings,
    Ghost(key): Ghost<tfhe::ClientKey>,
) -> (sequence: Vec<Ciphertext>)
    requires
        evaluates_for(*server, key),
        holds_seeds((first, second), key),
    ensures
        holds_terms(sequence@, key, k as nat),
        final(timings).computation_steps@.len() == old(timings).computation_steps@.len()
            + steps_of(k as nat),
        old(timings).computation_steps@.is_prefix_of(final(timings).computation_steps@),
        forall|phase: Phase| final(timings).phase(phase) == old(timings).phase(phase),
{
    let mut sequence: Vec<Ciphertext> = Vec::new();
    if k >= 1 {
        sequence.push(first);
    }
    if k >= 2 {
        sequence.push(second);
    }
    let mut i: usize = 2;
    while i < k
        invariant
            2 <= i,
            k >= 2 ==> i <= k,
            k < 2 ==> i == 2,
            sequence.len() == (if k < 2 { k } else { i }),
            evaluates_for(*server, key),
            forall|j: int|
                0 <= j < sequence.len() ==> encrypted_under(#[trigger] sequence[j], key)
                    && decryption(sequence[j], key) == term(j as nat),
            timings.computation_steps@.len() == old(timings).computation_steps@.len() + (i - 2),
            old(timings).computation_steps@.is_prefix_of(timings.computation_steps@),
            forall|phase: Phase| timings.phase(phase) == old(timings).phase(phase),
        decreases k - i,
    {
        let begun = start();
        assert(encrypted_under(sequence[i - 2], key));
        assert(encrypted_under(sequence[i - 1], key));
        let next = homomorphic_add(server, &sequence[i - 2], &sequence[i - 1]);
        proof {
            lemma_term_is_wrapped_sum(i as nat);
            assert(encrypted_under(next, key));
            assert(wrapped_sum(term((i - 2) as nat), term((i - 1) as nat)) == wrapped_sum(
                term((i - 1) as nat),
                term((i - 2) as nat),
            ));
        }
        sequence.push(next);
        timings.record_step(elapsed(&begun));
        i = i + 1;
    }
    sequence
}

/// A private key, the parameter set that it was generated from, and the
/// evaluation key that was generated from it.
pub struct KeyContext {
    client_key: tfhe::ClientKey,
    server_key: tfhe::ServerKey,
    config: tfhe::Config,
}

impl KeyContext {
    /// The parameter set is one that keys are generated from, the private
    /// key comes from it, and the evaluation key from the private key.
    #[verifier::type_invariant]
    spec fn keys_belong_together(self) -> bool {
        &&& supported(self.config)
        &&& generated_from(self.client_key, self.config)
        &&& evaluates_for(self.server_key, self.client_key)
    }

    /// The private key.
    pub closed spec fn private_key(&self) -> tfhe::ClientKey {
        self.client_key
    }

    /// The evaluation key.
    pub closed spec fn evaluation_key(&self) -> tfhe::ServerKey {
        self.server_key
    }

    /// The parameter set of the keys.
    pub closed spec fn parameters(&self) -> tfhe::Config {
        self.config
    }

    /// Generates a fresh pair of keys from the parameter set of a security
    /// level. The keys are random; what is known of them is where they come
    /// from.
    pub fn generate(level: &SecurityLevel) -> (keys: Self)
        requires
            level.usable(),
        ensures
            level.selects(keys.parameters()),
            supported(keys.parameters()),
            generated_from(keys.private_key(), keys.parameters()),
            evaluates_for(keys.evaluation_key(), keys.private_key()),
    {
        let config = level.parameters();
        let (client_key, server_key) = generate_keys(config);
        KeyContext { client_key, server_key, config }
    }

    /// The private key, which must stay with the trusted party. It was
    /// generated from the parameter set of the keys, which is one that keys
    /// are generated from.
    pub fn client_key(&self) -> (key: &tfhe::ClientKey)
        ensures
            *key == self.private_key(),
            supported(self.parameters()),
            generated_from(*key, self.parameters()),
    {
        proof {
            use_type_invariant(self);
        }
        &self.client_key
    }

    /// The evaluation key, the only key that may leave the trusted party. It
    /// is the one that was generated from the private key.
    pub fn server_key(&self) -> (key: &tfhe::ServerKey)
        ensures
            *key == self.evaluation_key(),
            evaluates_for(*key, self.private_key()),
    {
        proof {
            use_type_invariant(self);
        }
        &self.server_key
    }

    /// The parameter set that the keys were generated from.
    pub fn config(&self) -> (config: tfhe::Config)
        ensures
            config == self.parameters(),
            supported(config),
    {
        proof {
            use_type_invariant(self);
        }
        self.config
    }
}

/// A key pair with the record of what was done with it.
pub struct FibonacciEncrypted {
    keys: KeyContext,
    timings: FibonacciTimings,
    config_params: ConfigParams,
}

impl FibonacciEncrypted {
    /// The private key.
    pub closed spec fn private_key(&self) -> tfhe::ClientKey {
        self.keys.private_key()
    }

    /// The evaluation key.
    pub closed spec fn evaluation_key(&self) -> tfhe::ServerKey {
        self.keys.evaluation_key()
    }

    /// The parameter set of the keys.
    pub closed spec fn parameters(&self) -> tfhe::Config {
        self.keys.parameters()
    }

    /// The durations recorded so far.
    pub closed spec fn recorded(&self) -> FibonacciTimings {
        self.timings
    }

    /// The choice of parameters that the engine was built with.
    pub closed spec fn chosen(&self) -> ConfigParams {
        self.config_params
    }

    /// A newly built engine: its keys come from the parameter set of the
    /// level that was chosen, and nothing but the key generation is recorded.
    pub open spec fn fresh(&self) -> bool {
        &&& self.chosen().security_level.selects(self.parameters())
        &&& supported(self.parameters())
        &&& generated_from(self.private_key(), self.parameters())
        &&& evaluates_for(self.evaluation_key(), self.private_key())
        &&& self.recorded().phase(Phase::KeyGeneration) is Some
        &&& forall|phase: Phase|
            phase != Phase::KeyGeneration ==> self.recorded().phase(phase) is None
        &&& self.recorded().computation_steps@.len() == 0
    }

    /// What a call leaves as it was: the keys, their parameter set and the
    /// choice of parameters.
    pub open spec fn same_keys(&self, before: &Self) -> bool {
        &&& self.private_key() == before.private_key()
        &&& self.evaluation_key() == before.evaluation_key()
        &&& self.parameters() == before.parameters()
        &&& self.chosen() == before.chosen()
    }

    /// Generates keys from the parameter set of the level chosen and records
    /// how long that took. Nothing else is recorded yet.
    pub fn with_config(params: ConfigParams) -> (engine: Self)
        requires
            params.security_level.usable(),
        ensures
            engine.chosen() == params,
            engine.fresh(),
    {
        let begun = start();
        let keys = KeyContext::generate(&params.security_level);
        let mut timings = FibonacciTimings::new();
        timings.record(Phase::KeyGeneration, elapsed(&begun));
        FibonacciEncrypted { keys, timings, config_params: params }
    }

    /// Generates keys with the default parameters.
    pub fn new() -> (engine: Self)
        ensures
            engine.chosen().security_level is Default,
            engine.chosen().description@ == "Default security parameters"@,
            engine.fresh(),
    {
        Self::with_config(ConfigParams::default())
    }

    /// Generates keys at the fast level, which for now uses the default
    /// parameter set too.
    pub fn new_fast() -> (engine: Self)
        ensures
            engine.chosen().security_level is Fast,
            engine.chosen().description@ == "Faster but less secure parameters"@,
            engine.fresh(),
    {
        Self::with_config(ConfigParams::fast())
    }

    /// Encrypts the seeds of the recurrence, 0 and 1, under the private key
    /// and records how long that took. It needs no active evaluation key,
    /// and it succeeds: `tfhe` encrypts every 32-bit value.
    pub fn encrypt_initial_values(&mut self) -> (seeds: Result<(Ciphertext, Ciphertext), FheError>)
        ensures
            seeds matches Ok(pair) && holds_seeds(pair, old(self).private_key()),
            final(self).same_keys(old(self)),
            final(self).recorded().phase(Phase::Encryption) is Some,
            forall|phase: Phase|
                phase != Phase::Encryption ==> final(self).recorded().phase(phase) == old(
                    self,
                ).recorded().phase(phase),
            final(self).recorded().computation_steps@ == old(self).recorded().computation_steps@,
    {
        encrypt_seeds(self.keys.client_key(), &mut self.timings)
    }

    /// Computes the first `k` Fibonacci numbers on ciphertexts: activates the
    /// evaluation key, encrypts the seeds 0 and 1, and from the third term on
    /// adds the two terms before homomorphically.
    ///
    /// The run succeeds for every `k`. The sequence has exactly `k` members,
    /// and its `i`-th member decrypts with the private key to the `i`-th
    /// Fibonacci number modulo 2^32. The durations of the activation, of the
    /// encryption and of all the sums together are recorded, and the
    /// duration of each sum is put behind the steps recorded before; those
    /// of key generation and of decryption stay as they are.
    ///
    /// The evaluation key is activated once at the start, which is what the
    /// recorded activation measures, and once more before every sum, so that
    /// no sum depends on what the thread has activated in between: the
    /// duration of a step holds the cost of that activation too. No contract
    /// speaks of the active key of the thread.
    pub fn compute_sequence(&mut self, k: usize) -> (computed: Result<Vec<Ciphertext>, FheError>)
        ensures
            computed matches Ok(sequence) && holds_terms(
                sequence@,
                old(self).private_key(),
                k as nat,
            ),
            final(self).same_keys(old(self)),
            final(self).recorded().phase(Phase::ServerKeySetup) is Some,
            final(self).recorded().phase(Phase::Encryption) is Some,
            final(self).recorded().phase(Phase::Computation) is Some,
            forall|phase: Phase|
                phase == Phase::KeyGeneration || phase == Phase::Decryption || phase
                    == Phase::Total ==> final(self).recorded().phase(phase) == old(
                    self,
                ).recorded().phase(phase),
            final(self).recorded().computation_steps@.len() == old(
                self,
            ).recorded().computation_steps@.len() + steps_of(k as nat),
            old(self).recorded().computation_steps@.is_prefix_of(
                final(self).recorded().computation_steps@,
            ),
    {
        let activation = start();
        activate(self.keys.server_key());
        self.timings.record(Phase::ServerKeySetup, elapsed(&activation));
        match encrypt_seeds(self.keys.client_key(), &mut self.timings) {
            Ok((first, second)) => {
                let begun = start();
                let sequence = extend(
                    self.keys.server_key(),
                    first,
                    second,
                    k,
                    &mut self.timings,
                    Ghost(self.keys.private_key()),
                );
                self.timings.record(Phase::Computation, elapsed(&begun));
                Ok(sequence)
            },
            Err(e) => Err(e),
        }
    }

    /// Decrypts a sequence of ciphertexts with the private key, member by
    /// member and in order, and records how long that took. The ciphertexts
    /// must have been made for this private key: with a key of another
    /// parameter set `tfhe` stops the program. They stay as they are.
    pub fn decrypt_sequence(&mut self, sequence: &[Ciphertext]) -> (values: Vec<u32>)
        requires
            forall|i: int|
                0 <= i < sequence@.len() ==> encrypted_under(
                    #[trigger] sequence@[i],
                    old(self).private_key(),
                ),
        ensures
            decrypts_to(sequence@, old(self).private_key(), values@),
            final(self).same_keys(old(self)),
            final(self).recorded().phase(Phase::Decryption) is Some,
            forall|phase: Phase|
                phase != Phase::Decryption ==> final(self).recorded().phase(phase) == old(
                    self,
                ).recorded().phase(phase),
            final(self).recorded().computation_steps@ == old(self).recorded().computation_steps@,
    {
        let begun = start();
        let mut values: Vec<u32> = Vec::new();
        let mut i: usize = 0;
        while i < sequence.len()
            invariant
                i <= sequence.len(),
                values.len() == i,
                forall|j: int|
                    0 <= j < sequence@.len() ==> encrypted_under(
                        #[trigger] sequence@[j],
                        self.keys.private_key(),
                    ),
                forall|j: int|
                    0 <= j < i ==> #[trigger] values[j] == decryption(
                        sequence[j],
                        self.keys.private_key(),
                    ),
                *self == *old(self),
            decreases sequence.len() - i,
        {
            let value: u32 = decrypt(&sequence[i], self.keys.client_key());
            values.push(value);
            i = i + 1;
        }
        self.timings.record(Phase::Decryption, elapsed(&begun));
        values
    }

    /// The summary of the durations recorded so far, line by line: the
    /// description of the parameters, a row for each phase that has taken
    /// place and, where steps were recorded, a row for each and their mean.
    pub fn timing_summary(&self) -> (lines: Vec<String>)
        ensures
            texts(lines@) == summary(self.chosen().description@, self.recorded()),
    {
        timing_summary(self.config_params.description.as_str(), &self.timings)
    }

    /// The private key, which must stay with the trusted party.
    pub fn client_key(&self) -> (key: &tfhe::ClientKey)
        ensures
            *key == self.private_key(),
    {
        self.keys.client_key()
    }

    /// The evaluation key, the only key that may leave the trusted party. It
    /// is the one that was generated from the private key.
    pub fn server_key(&self) -> (key: &tfhe::ServerKey)
        ensures
            *key == self.evaluation_key(),
            evaluates_for(*key, self.private_key()),
    {
        self.keys.server_key()
    }

    /// The durations recorded so far.
    pub fn timings(&self) -> (timings: &FibonacciTimings)
        ensures
            *timings == self.recorded(),
    {
        &self.timings
    }

    /// The choice of parameters that the engine was built with.
    pub fn config_params(&self) -> (params: &ConfigParams)
        ensures
            *params == self.chosen(),
    {
        &self.config_params
    }
}

} // verus!
