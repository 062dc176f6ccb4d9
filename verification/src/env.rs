//! What the chain tells the contract about a call: its environment and the
//! message's sender and funds.

use vstd::prelude::*;

verus! {

/// An amount of a native token.
#[derive(Clone, Debug, PartialEq, Eq)]
pub struct Coin {
    pub denom: String,
    pub amount: u128,
}

impl View for Coin {
    type V = (Seq<char>, u128);

    open spec fn view(&self) -> (Seq<char>, u128) {
        (self.denom@, self.amount)
    }
}

/// The block and the contract that a call runs in.
#[derive(Clone, Debug, PartialEq, Eq)]
pub struct ContractEnv {
    /// The block time, in nanoseconds since the epoch.
    pub block_time_nanos: u64,
    /// This contract's address.
    pub contract_address: String,
    /// The hash of this contract's code.
    pub contract_code_hash: String,
}

/// Who sent the message and which native funds came with it.
#[derive(Clone, Debug, PartialEq, Eq)]
pub struct MessageInfo {
    pub sender: String,
    pub funds: Vec<Coin>,
}

} // verus!
