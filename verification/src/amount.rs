//! Token amounts of either kind the bridge handles.

use vstd::prelude::*;

use crate::env::Coin;

verus! {

/// An amount of a cw20 token, named by its contract.
#[derive(Clone, Debug, PartialEq, Eq)]
pub struct Cw20Coin {
    pub address: String,
    pub amount: u128,
}

/// An amount of a native token or of a cw20 token.
#[derive(Clone, Debug, PartialEq, Eq)]
pub enum Amount {
    Native(Coin),
    Cw20(Cw20Coin),
}

} // verus!
