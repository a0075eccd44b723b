//! The choice of security parameters for a run.

use vstd::prelude::*;
use vstd::string::*;
use crate::fhe::{
    default_config, is_default, is_small_encryption, small_encryption_config, supported,
};

verus! {

/// How the parameters of the scheme are chosen.
#[derive(Clone, Debug)]
pub enum SecurityLevel {
    /// The parameters that `tfhe` uses by default.
    Default,
    /// Parameters meant to trade security for speed. None are defined yet:
    /// the default ones are used.
    Fast,
    /// A parameter set of the caller's.
    Custom(tfhe::Config),
}

/// A choice of parameters, with a line of text that describes it.
#[derive(Clone, Debug)]
pub struct ConfigParams {
    pub security_level: SecurityLevel,
    pub description: String,
}

impl SecurityLevel {
    /// Whether keys can be generated at this level: always at the two named
    /// levels, and at a custom one where `tfhe` supports the parameter set.
    pub open spec fn usable(&self) -> bool {
        self matches SecurityLevel::Custom(config) ==> supported(*config)
    }

    /// Whether a parameter set is the one of this level: the caller's own at
    /// a custom level, the default one of `tfhe` at the two named levels.
    pub open spec fn selects(&self, config: tfhe::Config) -> bool {
        match self {
            SecurityLevel::Custom(custom) => config == *custom,
            _ => is_default(config),
        }
    }

    /// The custom level of the parameter set that `tfhe` offers beside its
    /// default one, with small encryption keys. Keys can be generated at it.
    pub fn small_encryption() -> (level: Self)
        ensures
            level matches SecurityLevel::Custom(config) && is_small_encryption(config),
            level.usable(),
    {
        SecurityLevel::Custom(small_encryption_config())
    }

    /// The parameter set of this level.
    pub fn parameters(&self) -> (config: tfhe::Config)
        requires
            self.usable(),
        ensures
            supported(config),
            self.selects(config),
    {
        match self {
            SecurityLevel::Default => default_config(),
            SecurityLevel::Fast => default_config(),
            SecurityLevel::Custom(custom) => *custom,
        }
    }
}

impl ConfigParams {
    /// The fast level with its description.
    pub fn fast() -> (params: Self)
        ensures
            params.security_level matches SecurityLevel::Fast,
            params.description@ == "Faster but less secure parameters"@,
    {
        ConfigParams {
            security_level: SecurityLevel::Fast,
            description: String::from_str("Faster but less secure parameters"),
        }
    }
}

impl Default for ConfigParams {
    fn default() -> (params: Self)
        ensures
            params.security_level matches SecurityLevel::Default,
            params.description@ == "Default security parameters"@,
    {
        ConfigParams {
            security_level: SecurityLevel::Default,
            description: String::from_str("Default security parameters"),
        }
    }
}

} // verus!
