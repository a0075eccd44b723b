//! The boundary to the `tfhe` crate: its types, the facts about keys and
//! ciphertexts that the contracts speak of, and one wrapper for each of its
//! operations that the library calls.
//!
//! Nothing in this module is proved. Each contract repeats what `tfhe`
//! documents of the operation or what its source shows, read as exact: the
//! scheme's own failure probability, which its parameter sets keep
//! negligible, is left aside.

use vstd::prelude::*;
use crate::sequence::wrapped_sum;

verus! {

/// `tfhe::Config`, the parameter set that keys are generated from.
#[verifier::external_type_specification]
#[verifier::external_body]
pub struct ExConfig(tfhe::Config);

/// `Clone::clone` of a `tfhe::Config`, which is `Copy`: the clone is the
/// parameter set itself.
pub assume_specification[ <tfhe::Config as Clone>::clone ](config: &tfhe::Config) -> (copy:
    tfhe::Config)
    ensures
        copy == *config,
;

/// `tfhe::ClientKey`, the private key: it encrypts and decrypts.
#[verifier::external_type_specification]
#[verifier::external_body]
pub struct ExClientKey(tfhe::ClientKey);

/// `tfhe::ServerKey`, the public evaluation key.
#[verifier::external_type_specification]
#[verifier::external_body]
pub struct ExServerKey(tfhe::ServerKey);

/// `tfhe::Error`, the error of a fallible operation.
#[verifier::external_type_specification]
#[verifier::external_body]
pub struct ExError(tfhe::Error);

/// An encrypted unsigned integer of 32 bits, a `tfhe::FheUint32`.
///
/// The bound of `tfhe::FheUint` is a trait that cannot be named from outside
/// `tfhe`, so the type is held here and not declared.
#[verifier::external_body]
pub struct Ciphertext {
    inner: tfhe::FheUint32,
}

/// What `FheDecrypt::decrypt` returns for a ciphertext and a private key.
pub uninterp spec fn decryption(ct: Ciphertext, key: tfhe::ClientKey) -> u32;

/// Whether a ciphertext was made for a private key: by encryption under it,
/// or by a homomorphic operation, under its evaluation key, on ciphertexts
/// that were made for it. Only of such ciphertexts does `tfhe` say what an
/// operation yields.
pub uninterp spec fn encrypted_under(ct: Ciphertext, key: tfhe::ClientKey) -> bool;

/// Whether an evaluation key was generated from a private key.
pub uninterp spec fn evaluates_for(server: tfhe::ServerKey, client: tfhe::ClientKey) -> bool;

/// Whether a parameter set is one that `tfhe` generates keys from. `tfhe`
/// offers no test for it and stops the program on one that is not.
pub uninterp spec fn supported(config: tfhe::Config) -> bool;

/// Whether a parameter set is the one that `tfhe` uses by default.
pub uninterp spec fn is_default(config: tfhe::Config) -> bool;

/// Whether a parameter set is the one that `tfhe` offers beside its default
/// one, with small encryption keys: the bootstrap before the key switch.
pub uninterp spec fn is_small_encryption(config: tfhe::Config) -> bool;

/// Whether a private key was generated from a parameter set.
pub uninterp spec fn generated_from(client: tfhe::ClientKey, config: tfhe::Config) -> bool;

/// `ConfigBuilder::default().build()`: the default parameter set, which is
/// one that keys can be generated from.
#[verifier::external_body]
pub(crate) fn default_config() -> (config: tfhe::Config)
    ensures
        is_default(config),
        supported(config),
{
    tfhe::ConfigBuilder::default().build()
}

/// `ConfigBuilder::default_with_small_encryption().build()`: the parameter
/// set with small encryption keys, which is one that keys can be generated
/// from.
#[verifier::external_body]
pub(crate) fn small_encryption_config() -> (config: tfhe::Config)
    ensures
        is_small_encryption(config),
        supported(config),
{
    tfhe::ConfigBuilder::default_with_small_encryption().build()
}

/// `tfhe::generate_keys`: a fresh private key, generated from the parameter
/// set, and the evaluation key that is generated from it. The keys are
/// random, so nothing more is said of them.
#[verifier::external_body]
pub(crate) fn generate_keys(config: tfhe::Config) -> (keys: (tfhe::ClientKey, tfhe::ServerKey))
    requires
        supported(config),
    ensures
        generated_from(keys.0, config),
        evaluates_for(keys.1, keys.0),
{
    tfhe::generate_keys(config)
}

/// `tfhe::set_server_key`, on a clone of the key as the function takes it by
/// value: makes an evaluation key the active one of the running thread. It
/// returns nothing, and no contract rests on the call: [`homomorphic_add`]
/// activates the key that it is given.
#[verifier::external_body]
pub(crate) fn activate(key: &tfhe::ServerKey) {
    tfhe::set_server_key(key.clone())
}

/// `FheTryEncrypt::try_encrypt` of a `u32` under a private key that was
/// generated from a parameter set that `tfhe` generates keys from. Such a
/// set has one or two bits in a block, so that the blocks hold all 32 bits
/// of the value; a key that was put together from other parts may hold
/// fewer, or stop the program. The source for a private key returns nothing
/// but `Ok`; the ciphertext is made for that key and decrypts to the value.
#[verifier::external_body]
pub(crate) fn try_encrypt(value: u32, key: &tfhe::ClientKey) -> (outcome: Result<
    Ciphertext,
    tfhe::Error,
>)
    requires
        exists|config: tfhe::Config| #[trigger] generated_from(*key, config) && supported(config),
    ensures
        outcome is Ok,
        outcome matches Ok(ct) ==> encrypted_under(ct, *key) && decryption(ct, *key) == value,
{
    match tfhe::prelude::FheTryEncrypt::try_encrypt(value, key) {
        Ok(inner) => Ok(Ciphertext { inner }),
        Err(e) => Err(e),
    }
}

/// `&a + &b` on two ciphertexts, under an evaluation key. The addition reads
/// the active key of the thread at the moment of the call, so the key is
/// made the active one with `tfhe::set_server_key` right before it: what
/// was activated earlier does not matter. The operands must have been made
/// for a private key that the evaluation key was generated from. `tfhe`
/// documents the addition as modular: for every such private key the sum is
/// made for it too and decrypts to the sum of their values modulo 2^32.
#[verifier::external_body]
pub(crate) fn homomorphic_add(server: &tfhe::ServerKey, a: &Ciphertext, b: &Ciphertext) -> (sum:
    Ciphertext)
    requires
        exists|key: tfhe::ClientKey|
            #[trigger] evaluates_for(*server, key) && encrypted_under(*a, key) && encrypted_under(
                *b,
                key,
            ),
    ensures
        forall|key: tfhe::ClientKey|
            evaluates_for(*server, key) && encrypted_under(*a, key) && encrypted_under(*b, key)
                ==> #[trigger] encrypted_under(sum, key) && decryption(sum, key) == wrapped_sum(
                decryption(*a, key),
                decryption(*b, key),
            ),
{
    tfhe::set_server_key(server.clone());
    Ciphertext { inner: &a.inner + &b.inner }
}

/// `FheDecrypt::decrypt` of a ciphertext with the private key that it was
/// made for. With a key of another parameter set `tfhe` stops the program.
#[verifier::external_body]
pub(crate) fn decrypt(ct: &Ciphertext, key: &tfhe::ClientKey) -> (value: u32)
    requires
        encrypted_under(*ct, *key),
    ensures
        value == decryption(*ct, *key),
{
    tfhe::prelude::FheDecrypt::decrypt(&ct.inner, key)
}

} // verus!
