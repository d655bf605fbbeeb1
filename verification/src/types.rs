//! The plain values that cross the contract/host boundary.

use vstd::prelude::*;

verus! {

/// Identifier of one token ledger on the host. Opaque to this layer:
/// it is forwarded to the host and never validated locally.
pub type AssetId = u32;

/// Token quantity as the host ledger counts it. This layer never does
/// arithmetic on it, only forwards its bits.
pub type Balance = u128;

/// Fixed-width account identifier defined by the host environment;
/// this layer never interprets its 32 bytes, only forwards them.
#[derive(Clone, Copy, PartialEq, Eq, Debug)]
pub struct AccountId(pub [u8; 32]);

impl View for AccountId {
    type V = Seq<u8>;

    open spec fn view(&self) -> Seq<u8> {
        self.0@
    }
}

} // verus!
