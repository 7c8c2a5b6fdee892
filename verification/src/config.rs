//! The configuration a store runs under.

use vstd::prelude::*;

verus! {

/// The period of the engine's background flush under the standard
/// configuration, in milliseconds.
pub const STANDARD_FLUSH_INTERVAL_MS: u64 = 1000;

/// What a store is opened with: whether the engine compresses what it
/// writes, and how often it flushes on its own (`None`: never).
#[derive(Clone, Copy, Debug, PartialEq, Eq)]
pub struct StoreConfig {
    pub compression: bool,
    pub flush_every_ms: Option<u64>,
}

impl StoreConfig {
    /// The one configuration this layer opens stores with: compression on,
    /// a background flush every 1000 ms.
    pub open spec fn spec_standard() -> StoreConfig {
        StoreConfig { compression: true, flush_every_ms: Some(STANDARD_FLUSH_INTERVAL_MS) }
    }

    #[verifier::when_used_as_spec(spec_standard)]
    pub fn standard() -> (config: StoreConfig)
        ensures
            config == StoreConfig::spec_standard(),
            config.compression,
            config.flush_every_ms == Some(1000u64),
    {
        StoreConfig { compression: true, flush_every_ms: Some(STANDARD_FLUSH_INTERVAL_MS) }
    }
}

impl Default for StoreConfig {
    fn default() -> (config: StoreConfig)
        ensures
            config == StoreConfig::spec_standard(),
    {
        StoreConfig::standard()
    }
}

} // verus!
