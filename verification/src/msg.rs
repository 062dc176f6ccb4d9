//! The messages the contract accepts and the answers it gives to queries.

use vstd::prelude::*;

use crate::amount::Amount;
use crate::state::ChannelInfo;

verus! {

/// Sets the contract up.
#[derive(Clone, Debug, PartialEq, Eq)]
pub struct InitMsg {
    /// who can allow more contracts
    pub admin: String,
    /// initial allowlist - all cw20 tokens we will send must be previously allowed by governance
    pub allowlist: Vec<AllowMsg>,
}

/// Allows a cw20 token to be sent over the bridge.
#[derive(Clone, Debug, PartialEq, Eq)]
pub struct AllowMsg {
    pub contract: String,
    pub code_hash: String,
    pub gas_limit: Option<u64>,
    pub denom: String,
    pub port: String,
}

/// A deposit of cw20 tokens, as the token contract reports it.
#[derive(Clone, Debug, PartialEq, Eq)]
pub struct ReceiveMsg {
    /// Who sent the tokens to this contract.
    pub sender: String,
    /// How many tokens were sent.
    pub amount: u128,
    /// The JSON-encoded `TransferMsg` that came with them.
    pub msg: Vec<u8>,
    /// A free-form note.
    pub memo: Option<String>,
}

/// The requests the contract executes.
#[derive(Clone, Debug, PartialEq, Eq)]
pub enum ExecuteMsg {
    /// This accepts a properly-encoded ReceiveMsg from a cw20 contract
    Receive(ReceiveMsg),
    /// This must be called by gov_contract, will allow a new cw20 token to be sent
    Allow(AllowMsg),
    /// Change the admin (must be called by current admin)
    UpdateAdmin { admin: String },
}

/// This is the message we accept via Receive
#[derive(Clone, Debug, PartialEq, Eq)]
pub struct TransferMsg {
    /// The local channel to send the packets on
    pub channel: String,
    /// The remote address to send to. It is not validated here: it belongs
    /// to the remote chain.
    pub remote_address: String,
    /// How long the packet lives in seconds. If not specified, use default_timeout
    pub timeout: Option<u64>,
}

/// The queries the contract answers.
#[derive(Clone, Debug, PartialEq, Eq)]
pub enum QueryMsg {
    /// Return AdminResponse
    Admin {},
    /// Query if a given cw20 contract is allowed. Returns AllowedResponse
    Allowed { denom: String },
}

#[derive(Clone, Debug, PartialEq, Eq)]
pub struct ListChannelsResponse {
    pub channels: Vec<ChannelInfo>,
}

#[derive(Clone, Debug, PartialEq, Eq)]
pub struct ChannelResponse {
    /// Information on the channel's connection
    pub info: ChannelInfo,
    /// How many tokens we currently have pending over this channel
    pub balances: Vec<Amount>,
    /// The total number of tokens that have been sent over this channel
    /// (even if many have been returned, so balance is low)
    pub total_sent: Vec<Amount>,
}

#[derive(Clone, Debug, PartialEq, Eq)]
pub struct PortResponse {
    pub port_id: String,
}

#[derive(Clone, Debug, PartialEq, Eq)]
pub struct ConfigResponse {
    pub default_timeout: u64,
    pub default_gas_limit: Option<u64>,
    pub admin: String,
}

/// Whether a denomination is allowed, and what the allow list holds for it.
#[derive(Clone, Debug, PartialEq, Eq)]
pub struct AllowedResponse {
    pub contract: String,
    pub is_allowed: bool,
    pub gas_limit: Option<u64>,
    pub denom: String,
    pub port: String,
}

/// The abstract content of an `AllowedResponse`.
pub struct AllowedResponseView {
    pub contract: Seq<char>,
    pub is_allowed: bool,
    pub gas_limit: Option<u64>,
    pub denom: Seq<char>,
    pub port: Seq<char>,
}

impl View for AllowedResponse {
    type V = AllowedResponseView;

    open spec fn view(&self) -> AllowedResponseView {
        AllowedResponseView {
            contract: self.contract@,
            is_allowed: self.is_allowed,
            gas_limit: self.gas_limit,
            denom: self.denom@,
            port: self.port@,
        }
    }
}

#[derive(Clone, Debug, PartialEq, Eq)]
pub struct AllowedInfo {
    pub contract: String,
    pub gas_limit: Option<u64>,
}

/// MigrateMsg is empty since we don't need any migration parameters
/// All state is preserved automatically
#[derive(Clone, Debug, PartialEq, Eq)]
pub struct MigrateMsg {}

/// Who the admin is, if anyone.
#[derive(Clone, Debug, PartialEq, Eq)]
pub struct AdminResponse {
    pub admin: Option<String>,
}

/// The answer to a query.
#[derive(Clone, Debug, PartialEq, Eq)]
pub enum QueryAnswer {
    Admin(AdminResponse),
    Allowed(AllowedResponse),
}

} // verus!
