//! Capability flags: the bitmask of protocol options negotiated during the
//! handshake. Decoders consult it to decide which optional fields a reply
//! body carries. Bit positions are the published MySQL protocol constants.

use vstd::prelude::*;

verus! {

/// CLIENT_PROTOCOL_41: the 4.1 protocol is in use; ERROR replies carry an SQL
/// state and OK replies carry status flags and a warning count.
pub const CLIENT_PROTOCOL_41: u32 = 0x200;

/// CLIENT_TRANSACTIONS: the server reports transaction status; OK replies
/// carry status flags (but no warning count) when 4.1 is not in use.
pub const CLIENT_TRANSACTIONS: u32 = 0x2000;

/// CLIENT_SESSION_TRACK: the server may append session-state information to
/// OK replies.
pub const CLIENT_SESSION_TRACK: u32 = 0x800000;

/// The bitmask of capability flags negotiated for one connection.
#[derive(Clone, Copy, PartialEq, Eq, Structural, Debug)]
pub struct CapabilityFlags {
    pub bits: u32,
}

impl CapabilityFlags {
    /// Whether any bit of `mask` is set.
    pub open spec fn spec_has(self, mask: u32) -> bool {
        self.bits & mask != 0
    }

    pub fn new(bits: u32) -> (r: CapabilityFlags)
        ensures
            r.bits == bits,
    {
        CapabilityFlags { bits }
    }

    pub fn has(&self, mask: u32) -> (r: bool)
        ensures
            r == self.spec_has(mask),
    {
        self.bits & mask != 0
    }
}

} // verus!
