//! The pool's reward rate.

use vstd::prelude::*;

verus! {

/// Reward rate of the pool: each unit of stake earns
/// `reward_numberator / reward_denominator` per block.
#[derive(Clone, Copy, Debug, PartialEq, Eq, Structural)]
pub struct Config {
    pub reward_numberator: u32,
    pub reward_denominator: u64,
}

impl Default for Config {
    /// The default rate, 715 per 1_000_000_000 per block: about 18% a year at
    /// one block a second.
    fn default() -> (config: Self)
        ensures
            config == (Config { reward_numberator: 715, reward_denominator: 1_000_000_000 }),
    {
        Config { reward_numberator: 715, reward_denominator: 1_000_000_000 }
    }
}

} // verus!
