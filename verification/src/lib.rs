//! Fibonacci numbers computed on encrypted 32-bit integers.
//!
//! The terms are encrypted under a private key, added homomorphically under
//! the matching evaluation key and decrypted again; every contract is stated
//! over the plaintext that a ciphertext holds.

pub mod cli;
pub mod config;
pub mod engine;
pub mod fhe;
pub mod laws;
pub mod report;
pub mod sequence;
pub mod timings;
