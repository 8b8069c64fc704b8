//! Blockchain network configuration: the protocol magic number.

use vstd::prelude::*;

verus! {

/// Protocol magic value of the main network.
pub const MAINNET_PROTOCOL_MAGIC: u32 = 764824073;

/// The protocol magic number: guarantees incompatibility between
/// forks, test networks and the main network. The default value is
/// the main network's.
#[derive(Debug, Clone, Copy, PartialEq, Eq, PartialOrd, Ord, Hash, Structural)]
pub struct ProtocolMagic(pub u32);

impl ProtocolMagic {
    /// Wrap a raw protocol magic value.
    pub fn new(val: u32) -> (r: Self)
        ensures
            r.0 == val,
    {
        ProtocolMagic(val)
    }
}

impl From<u32> for ProtocolMagic {
    fn from(v: u32) -> (r: Self) {
        ProtocolMagic(v)
    }
}

impl vstd::std_specs::convert::FromSpecImpl<u32> for ProtocolMagic {
    open spec fn obeys_from_spec() -> bool {
        true
    }

    open spec fn from_spec(v: u32) -> Self {
        ProtocolMagic(v)
    }
}

impl Default for ProtocolMagic {
    /// The main network's protocol magic.
    fn default() -> (r: Self)
        ensures
            r.0 == MAINNET_PROTOCOL_MAGIC,
    {
        ProtocolMagic(MAINNET_PROTOCOL_MAGIC)
    }
}

/// Network-specific configuration.
#[derive(Debug, Clone, Copy, PartialEq, Eq, PartialOrd, Ord, Structural)]
pub struct Config {
    pub protocol_magic: ProtocolMagic,
}

impl Config {
    /// A configuration for the network identified by
    /// `protocol_magic`.
    pub fn new(protocol_magic: ProtocolMagic) -> (r: Self)
        ensures
            r.protocol_magic == protocol_magic,
    {
        Config { protocol_magic }
    }
}

impl Default for Config {
    /// The main network's configuration.
    fn default() -> (r: Self)
        ensures
            r.protocol_magic.0 == MAINNET_PROTOCOL_MAGIC,
    {
        Config::new(ProtocolMagic(MAINNET_PROTOCOL_MAGIC))
    }
}

} // verus!
