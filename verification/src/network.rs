//! The networks that a session can be opened on, each known by its magic
//! number.

use vstd::prelude::*;

verus! {

/// Magic of the main network.
pub const MAINNET_MAGIC: u64 = 764824073;

/// Magic of the legacy test network.
pub const TESTNET_MAGIC: u64 = 1097911063;

/// Magic of the preview network.
pub const PREVIEW_MAGIC: u64 = 2;

/// Magic of the pre-production network.
pub const PRE_PRODUCTION_MAGIC: u64 = 1;

/// Whether `magic` is the magic of one of the four known networks.
pub open spec fn is_known_magic(magic: u64) -> bool {
    magic == MAINNET_MAGIC || magic == TESTNET_MAGIC || magic == PREVIEW_MAGIC || magic
        == PRE_PRODUCTION_MAGIC
}

/// The known network magics.
#[derive(Clone, Copy, Debug)]
pub struct NetworkMagic {}

impl NetworkMagic {
    pub fn mainnet_magic() -> (r: u64)
        ensures
            r == MAINNET_MAGIC,
    {
        MAINNET_MAGIC
    }

    pub fn testnet_magic() -> (r: u64)
        ensures
            r == TESTNET_MAGIC,
    {
        TESTNET_MAGIC
    }

    pub fn preview_magic() -> (r: u64)
        ensures
            r == PREVIEW_MAGIC,
    {
        PREVIEW_MAGIC
    }

    pub fn pre_production_magic() -> (r: u64)
        ensures
            r == PRE_PRODUCTION_MAGIC,
    {
        PRE_PRODUCTION_MAGIC
    }

    /// Whether `magic` names a network that a session may be opened on.
    pub fn is_known(magic: u64) -> (r: bool)
        ensures
            r == is_known_magic(magic),
    {
        magic == MAINNET_MAGIC || magic == TESTNET_MAGIC || magic == PREVIEW_MAGIC || magic
            == PRE_PRODUCTION_MAGIC
    }
}

} // verus!
