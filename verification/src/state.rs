//! The contract's stored state: its admin, the allow list of token
//! contracts, and the registered channels.

use vstd::prelude::*;

use crate::table::Table;

verus! {

/// What the allow list records of an allowed token.
#[derive(Clone, Debug, PartialEq, Eq)]
pub struct AllowInfo {
    /// The token's cw20 contract.
    pub contract: String,
    /// The hash of that contract's code.
    pub code_hash: String,
    /// The gas limit of the burn that a transfer dispatches.
    pub gas_limit: Option<u64>,
    /// The token's denomination.
    pub denom: String,
    /// The port that prefixes the denomination of outgoing packets.
    pub port: String,
}

/// The abstract content of an allow-list entry.
pub struct AllowInfoView {
    pub contract: Seq<char>,
    pub code_hash: Seq<char>,
    pub gas_limit: Option<u64>,
    pub denom: Seq<char>,
    pub port: Seq<char>,
}

impl View for AllowInfo {
    type V = AllowInfoView;

    open spec fn view(&self) -> AllowInfoView {
        AllowInfoView {
            contract: self.contract@,
            code_hash: self.code_hash@,
            gas_limit: self.gas_limit,
            denom: self.denom@,
            port: self.port@,
        }
    }
}

/// One end of an IBC channel.
#[derive(Clone, Debug, PartialEq, Eq)]
pub struct IbcEndpoint {
    pub port_id: String,
    pub channel_id: String,
}

/// Whether packets on a channel arrive in order.
#[derive(Clone, Copy, Debug, PartialEq, Eq)]
pub enum IbcOrder {
    Unordered,
    Ordered,
}

/// An IBC channel as the chain describes it when it is opened.
#[derive(Clone, Debug, PartialEq, Eq)]
pub struct IbcChannel {
    pub endpoint: IbcEndpoint,
    pub counterparty_endpoint: IbcEndpoint,
    pub order: IbcOrder,
    pub version: String,
    pub connection_id: String,
}

/// What the contract records of a connected channel.
#[derive(Clone, Debug, PartialEq, Eq)]
pub struct ChannelInfo {
    /// The channel's id on this chain.
    pub id: String,
    /// The remote end of the channel.
    pub counterparty_endpoint: IbcEndpoint,
    /// The connection the channel runs over.
    pub connection_id: String,
}

/// The abstract content of a channel record.
pub struct ChannelInfoView {
    pub id: Seq<char>,
    pub counterparty_port_id: Seq<char>,
    pub counterparty_channel_id: Seq<char>,
    pub connection_id: Seq<char>,
}

impl View for ChannelInfo {
    type V = ChannelInfoView;

    open spec fn view(&self) -> ChannelInfoView {
        ChannelInfoView {
            id: self.id@,
            counterparty_port_id: self.counterparty_endpoint.port_id@,
            counterparty_channel_id: self.counterparty_endpoint.channel_id@,
            connection_id: self.connection_id@,
        }
    }
}

/// The text an optional string stands for, if any.
pub open spec fn opt_text(o: Option<String>) -> Option<Seq<char>> {
    match o {
        Some(s) => Some(s@),
        None => None,
    }
}

/// The contract's state, as a mathematical value.
pub struct StateView {
    /// Who may change the allow list and the admin.
    pub admin: Option<Seq<char>>,
    /// Allowed tokens, keyed by denomination.
    pub allow_list: Map<Seq<char>, AllowInfoView>,
    /// The denomination of each allowed token contract, keyed by contract.
    pub allow_list_addr_2_denom: Map<Seq<char>, Seq<char>>,
    /// Registered channels, keyed by channel id.
    pub channel_info: Map<Seq<char>, ChannelInfoView>,
}

/// Every contract that the allow list knows has a denomination that is
/// itself on the allow list, and every allow-list entry records its own
/// key as its denomination.
pub open spec fn consistent(s: StateView) -> bool {
    &&& forall|c: Seq<char>| #[trigger] s.allow_list_addr_2_denom.contains_key(c)
        ==> s.allow_list.contains_key(s.allow_list_addr_2_denom[c])
    &&& forall|d: Seq<char>| #[trigger] s.allow_list.contains_key(d) ==> s.allow_list[d].denom == d
}

/// The contract's state.
#[derive(Debug)]
pub struct ContractState {
    admin: Option<String>,
    allow_list: Table<AllowInfo>,
    allow_list_addr_2_denom: Table<String>,
    channel_info: Table<ChannelInfo>,
}

impl View for ContractState {
    type V = StateView;

    closed spec fn view(&self) -> StateView {
        StateView {
            admin: opt_text(self.admin),
            allow_list: self.allow_list@,
            allow_list_addr_2_denom: self.allow_list_addr_2_denom@,
            channel_info: self.channel_info@,
        }
    }
}

impl ContractState {
    /// The state's invariant: its tables are well formed and it is consistent.
    pub closed spec fn wf(&self) -> bool {
        &&& self.allow_list.wf()
        &&& self.allow_list_addr_2_denom.wf()
        &&& self.channel_info.wf()
        &&& consistent(self@)
    }

    /// A well-formed state is consistent.
    pub proof fn lemma_wf_consistent(&self)
        requires
            self.wf(),
        ensures
            consistent(self@),
    {
    }

    /// A state with the given admin, no allowed tokens and no channels.
    pub fn new(admin: Option<String>) -> (s: Self)
        ensures
            s.wf(),
            s@.admin == opt_text(admin),
            s@.allow_list == Map::<Seq<char>, AllowInfoView>::empty(),
            s@.allow_list_addr_2_denom == Map::<Seq<char>, Seq<char>>::empty(),
            s@.channel_info == Map::<Seq<char>, ChannelInfoView>::empty(),
    {
        ContractState {
            admin,
            allow_list: Table::new(),
            allow_list_addr_2_denom: Table::new(),
            channel_info: Table::new(),
        }
    }

    /// The current admin.
    pub fn admin(&self) -> (r: &Option<String>)
        ensures
            opt_text(*r) == self@.admin,
    {
        &self.admin
    }

    /// Whether `caller` is the admin.
    pub fn is_admin(&self, caller: &String) -> (b: bool)
        ensures
            b == (self@.admin == Some(caller@)),
    {
        match &self.admin {
            Some(a) => *a == *caller,
            None => false,
        }
    }

    /// Replaces the admin.
    pub fn set_admin(&mut self, admin: Option<String>)
        requires
            old(self).wf(),
        ensures
            final(self).wf(),
            final(self)@ == (StateView { admin: opt_text(admin), ..old(self)@ }),
    {
        self.admin = admin;
    }

    /// The allow-list entry of a denomination.
    pub fn allow_info(&self, denom: &String) -> (r: Option<&AllowInfo>)
        requires
            self.wf(),
        ensures
            r is Some == self@.allow_list.contains_key(denom@),
            r is Some ==> r->0@ == self@.allow_list[denom@],
    {
        self.allow_list.get(denom)
    }

    /// The denomination recorded for a token contract.
    pub fn contract_denom(&self, contract: &String) -> (r: Option<&String>)
        requires
            self.wf(),
        ensures
            r is Some == self@.allow_list_addr_2_denom.contains_key(contract@),
            r is Some ==> r->0@ == self@.allow_list_addr_2_denom[contract@],
    {
        self.allow_list_addr_2_denom.get(contract)
    }

    /// Whether a channel is registered.
    pub fn has_channel(&self, id: &String) -> (b: bool)
        requires
            self.wf(),
        ensures
            b == self@.channel_info.contains_key(id@),
    {
        self.channel_info.contains_key(id)
    }

    /// Records an allow-list entry under its own denomination.
    pub fn save_allow(&mut self, denom: String, info: AllowInfo)
        requires
            old(self).wf(),
            info.denom@ == denom@,
        ensures
            final(self).wf(),
            final(self)@ == (StateView {
                allow_list: old(self)@.allow_list.insert(denom@, info@),
                ..old(self)@
            }),
    {
        self.allow_list.insert(denom, info);
    }

    /// Records the denomination of a token contract; the denomination must
    /// already be on the allow list.
    pub fn save_contract_denom(&mut self, contract: String, denom: String)
        requires
            old(self).wf(),
            old(self)@.allow_list.contains_key(denom@),
        ensures
            final(self).wf(),
            final(self)@ == (StateView {
                allow_list_addr_2_denom: old(self)@.allow_list_addr_2_denom.insert(contract@, denom@),
                ..old(self)@
            }),
    {
        self.allow_list_addr_2_denom.insert(contract, denom);
    }

    /// Records a channel under its id.
    pub fn save_channel(&mut self, id: String, info: ChannelInfo)
        requires
            old(self).wf(),
        ensures
            final(self).wf(),
            final(self)@ == (StateView {
                channel_info: old(self)@.channel_info.insert(id@, info@),
                ..old(self)@
            }),
    {
        self.channel_info.insert(id, info);
    }

    /// The allow list's entries, each denomination once.
    pub fn allow_entries(&self) -> (r: &Vec<(String, AllowInfo)>)
        requires
            self.wf(),
        ensures
            forall|i: int| 0 <= i < r@.len() ==> self@.allow_list.contains_key(#[trigger] r@[i].0@)
                && self@.allow_list[r@[i].0@] == r@[i].1@,
            forall|k: Seq<char>| #[trigger] self@.allow_list.contains_key(k)
                ==> exists|i: int| 0 <= i < r@.len() && #[trigger] r@[i].0@ == k,
    {
        self.allow_list.entries()
    }

    /// The recorded denominations of token contracts, each contract once.
    pub fn contract_denom_entries(&self) -> (r: &Vec<(String, String)>)
        requires
            self.wf(),
        ensures
            forall|i: int| 0 <= i < r@.len() ==> self@.allow_list_addr_2_denom.contains_key(#[trigger] r@[i].0@)
                && self@.allow_list_addr_2_denom[r@[i].0@] == r@[i].1@,
            forall|k: Seq<char>| #[trigger] self@.allow_list_addr_2_denom.contains_key(k)
                ==> exists|i: int| 0 <= i < r@.len() && #[trigger] r@[i].0@ == k,
    {
        self.allow_list_addr_2_denom.entries()
    }

    /// The registered channels, each id once.
    pub fn channel_entries(&self) -> (r: &Vec<(String, ChannelInfo)>)
        requires
            self.wf(),
        ensures
            forall|i: int| 0 <= i < r@.len() ==> self@.channel_info.contains_key(#[trigger] r@[i].0@)
                && self@.channel_info[r@[i].0@] == r@[i].1@,
            forall|k: Seq<char>| #[trigger] self@.channel_info.contains_key(k)
                ==> exists|i: int| 0 <= i < r@.len() && #[trigger] r@[i].0@ == k,
    {
        self.channel_info.entries()
    }
}

} // verus!
