//! Arguments of the command-line client, as plain values.
use vstd::prelude::*;
use crate::asset::{AssetId, get_token_identifier, named_asset, upper_of};

verus! {

/// A deposit request: the token to pay in (the native asset's name in any
/// case, or a token identifier), its nonce, and the amount.
#[derive(Clone, Debug, PartialEq, Eq, Default)]
pub struct PingArgs {
    pub token: String,
    pub nonce: u64,
    pub amount: u64,
}

impl PingArgs {
    /// The payment a deposit with these arguments attaches.
    pub fn payment(&self) -> (r: (AssetId, u128))
        ensures
            r.0@ == named_asset(upper_of(self.token@), self.token@),
            r.1 == self.amount as u128,
    {
        (get_token_identifier(&self.token), self.amount as u128)
    }
}

/// Asks whether an address (in bech32) has funds held.
#[derive(Clone, Debug, PartialEq, Eq, Default)]
pub struct DidUserPingArgs {
    pub address: String,
}

/// Asks when an address (in bech32) may withdraw.
#[derive(Clone, Debug, PartialEq, Eq, Default)]
pub struct GetPongEnableTimestampArgs {
    pub address: String,
}

/// Asks how long until an address (in bech32) may withdraw.
#[derive(Clone, Debug, PartialEq, Eq, Default)]
pub struct GetTimeToPongArgs {
    pub address: String,
}

/// Asks for the status of an address (in bech32).
#[derive(Clone, Debug, PartialEq, Eq, Default)]
pub struct GetUserPingTimestampArgs {
    pub address: String,
}

} // verus!
