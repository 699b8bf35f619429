//! Remote network addresses, the keys of the registry.

use vstd::prelude::*;

verus! {

/// The address of a remote peer: an internet address and a port, with the
/// flow and scope of a version 6 address. Two addresses are the same peer
/// where every part agrees.
#[allow(inconsistent_fields)]
#[derive(Clone, Copy, PartialEq, Eq, Structural, Debug)]
pub enum Address {
    V4 { ip: u32, port: u16 },
    V6 { ip: u128, port: u16, flowinfo: u32, scope_id: u32 },
}

impl Address {
    /// The version 4 address `a.b.c.d:port`.
    pub open spec fn spec_v4(octets: [u8; 4], port: u16) -> Address {
        Address::V4 {
            ip: (octets[0] as u32 * 0x100_0000 + octets[1] as u32 * 0x1_0000 + octets[2] as u32
                * 0x100 + octets[3] as u32) as u32,
            port,
        }
    }

    /// The version 4 address `a.b.c.d:port`, from its four octets in the
    /// order in which they are written.
    #[verifier::when_used_as_spec(spec_v4)]
    pub fn v4(octets: [u8; 4], port: u16) -> (address: Address)
        ensures
            address == Self::spec_v4(octets, port),
    {
        let a: u32 = octets[0] as u32;
        let b: u32 = octets[1] as u32;
        let c: u32 = octets[2] as u32;
        let d: u32 = octets[3] as u32;
        Address::V4 { ip: a * 0x100_0000 + b * 0x1_0000 + c * 0x100 + d, port }
    }
}

} // verus!
