//! What the contract answers: messages to dispatch and event attributes.

use vstd::prelude::*;

use crate::env::Coin;

verus! {

/// A key and a value of the event the contract emits.
#[derive(Clone, Debug, PartialEq, Eq)]
pub struct Attribute {
    pub key: String,
    pub value: String,
}

impl View for Attribute {
    type V = (Seq<char>, Seq<char>);

    open spec fn view(&self) -> (Seq<char>, Seq<char>) {
        (self.key@, self.value@)
    }
}

/// When the chain calls the contract back about a submessage.
#[derive(Clone, Copy, Debug, PartialEq, Eq)]
pub enum ReplyOn {
    Always,
    Error,
    Success,
    Never,
}

/// The data of an ICS-20 fungible token transfer packet.
#[derive(Clone, Debug, PartialEq, Eq)]
pub struct Ics20Packet {
    /// The amount of tokens to transfer.
    pub amount: u128,
    /// The token's denomination, prefixed by the path it travelled.
    pub denom: String,
    /// The recipient on the remote chain.
    pub receiver: String,
    /// The sender on this chain.
    pub sender: String,
    /// A free-form note carried along.
    pub memo: String,
}

/// The abstract content of a packet.
pub struct Ics20PacketView {
    pub amount: u128,
    pub denom: Seq<char>,
    pub receiver: Seq<char>,
    pub sender: Seq<char>,
    pub memo: Seq<char>,
}

impl View for Ics20Packet {
    type V = Ics20PacketView;

    open spec fn view(&self) -> Ics20PacketView {
        Ics20PacketView {
            amount: self.amount,
            denom: self.denom@,
            receiver: self.receiver@,
            sender: self.sender@,
            memo: self.memo@,
        }
    }
}

impl Ics20Packet {
    /// A packet with an empty memo.
    pub fn new(amount: u128, denom: String, sender: &str, receiver: &str) -> (p: Self)
        ensures
            p@ == (Ics20PacketView {
                amount,
                denom: denom@,
                receiver: receiver@,
                sender: sender@,
                memo: Seq::empty(),
            }),
    {
        Ics20Packet {
            amount,
            denom,
            receiver: String::from_str(receiver),
            sender: String::from_str(sender),
            memo: String::new(),
        }
    }
}

/// A message the contract asks the chain to dispatch.
#[derive(Clone, Debug, PartialEq, Eq)]
pub enum CosmosMsg {
    /// Executes a contract with a JSON message.
    WasmExecute { contract_addr: String, code_hash: String, msg: String, funds: Vec<Coin> },
    /// Burns `amount` units of the cw20 token held in `contract_addr`.
    Burn { contract_addr: String, code_hash: String, amount: u128 },
    /// Sends an ICS-20 packet over a channel, timing out at the given time.
    SendPacket { channel_id: String, data: Ics20Packet, timeout_nanos: u64 },
}

/// The abstract content of a message.
pub enum CosmosMsgView {
    WasmExecute { contract_addr: Seq<char>, code_hash: Seq<char>, msg: Seq<char>, funds: Seq<(Seq<char>, u128)> },
    Burn { contract_addr: Seq<char>, code_hash: Seq<char>, amount: u128 },
    SendPacket { channel_id: Seq<char>, data: Ics20PacketView, timeout_nanos: u64 },
}

impl View for CosmosMsg {
    type V = CosmosMsgView;

    open spec fn view(&self) -> CosmosMsgView {
        match self {
            CosmosMsg::WasmExecute { contract_addr, code_hash, msg, funds } => CosmosMsgView::WasmExecute {
                contract_addr: contract_addr@,
                code_hash: code_hash@,
                msg: msg@,
                funds: funds@.map_values(|c: Coin| c@),
            },
            CosmosMsg::Burn { contract_addr, code_hash, amount } => CosmosMsgView::Burn {
                contract_addr: contract_addr@,
                code_hash: code_hash@,
                amount: *amount,
            },
            CosmosMsg::SendPacket { channel_id, data, timeout_nanos } => CosmosMsgView::SendPacket {
                channel_id: channel_id@,
                data: data@,
                timeout_nanos: *timeout_nanos,
            },
        }
    }
}

/// A message together with how its outcome is reported back.
#[derive(Clone, Debug, PartialEq, Eq)]
pub struct SubMsg {
    pub id: u64,
    pub msg: CosmosMsg,
    pub gas_limit: Option<u64>,
    pub reply_on: ReplyOn,
}

/// The abstract content of a submessage.
pub struct SubMsgView {
    pub id: u64,
    pub msg: CosmosMsgView,
    pub gas_limit: Option<u64>,
    pub reply_on: ReplyOn,
}

impl View for SubMsg {
    type V = SubMsgView;

    open spec fn view(&self) -> SubMsgView {
        SubMsgView { id: self.id, msg: self.msg@, gas_limit: self.gas_limit, reply_on: self.reply_on }
    }
}

impl SubMsg {
    /// A submessage that is never reported back.
    pub fn new(msg: CosmosMsg) -> (s: Self)
        ensures
            s@ == (SubMsgView { id: 0, msg: msg@, gas_limit: None, reply_on: ReplyOn::Never }),
    {
        SubMsg { id: 0, msg, gas_limit: None, reply_on: ReplyOn::Never }
    }

    /// A submessage whose failure is reported back under `id`.
    pub fn reply_on_error(msg: CosmosMsg, id: u64) -> (s: Self)
        ensures
            s@ == (SubMsgView { id, msg: msg@, gas_limit: None, reply_on: ReplyOn::Error }),
    {
        SubMsg { id, msg, gas_limit: None, reply_on: ReplyOn::Error }
    }
}

/// The contract's answer to a request that it accepted.
#[derive(Clone, Debug, PartialEq, Eq)]
pub struct Response {
    pub messages: Vec<SubMsg>,
    pub attributes: Vec<Attribute>,
}

/// The abstract content of a response.
pub struct ResponseView {
    pub messages: Seq<SubMsgView>,
    pub attributes: Seq<(Seq<char>, Seq<char>)>,
}

impl View for Response {
    type V = ResponseView;

    open spec fn view(&self) -> ResponseView {
        ResponseView {
            messages: self.messages@.map_values(|m: SubMsg| m@),
            attributes: self.attributes@.map_values(|a: Attribute| a@),
        }
    }
}

impl Response {
    /// A response with no messages and no attributes.
    pub fn new() -> (r: Self)
        ensures
            r@.messages == Seq::<SubMsgView>::empty(),
            r@.attributes == Seq::<(Seq<char>, Seq<char>)>::empty(),
    {
        let r = Response { messages: Vec::new(), attributes: Vec::new() };
        assert(r@.messages =~= Seq::<SubMsgView>::empty());
        assert(r@.attributes =~= Seq::<(Seq<char>, Seq<char>)>::empty());
        r
    }

    /// Adds a message that is never reported back.
    pub fn add_message(self, msg: CosmosMsg) -> (r: Self)
        ensures
            r@.messages == self@.messages.push(SubMsgView { id: 0, msg: msg@, gas_limit: None, reply_on: ReplyOn::Never }),
            r@.attributes == self@.attributes,
    {
        self.add_submessage(SubMsg::new(msg))
    }

    /// Adds a submessage.
    pub fn add_submessage(self, msg: SubMsg) -> (r: Self)
        ensures
            r@.messages == self@.messages.push(msg@),
            r@.attributes == self@.attributes,
    {
        let ghost old_messages = self.messages@;
        let mut r = self;
        r.messages.push(msg);
        assert(r.messages@.map_values(|m: SubMsg| m@) =~= old_messages.map_values(|m: SubMsg| m@).push(msg@));
        r
    }

    /// Adds an attribute.
    pub fn add_attribute(self, key: &str, value: String) -> (r: Self)
        ensures
            r@.messages == self@.messages,
            r@.attributes == self@.attributes.push((key@, value@)),
    {
        let ghost old_attributes = self.attributes@;
        let mut r = self;
        r.attributes.push(Attribute { key: String::from_str(key), value });
        assert(r.attributes@.map_values(|a: Attribute| a@) =~= old_attributes.map_values(|a: Attribute| a@).push((key@, value@)));
        r
    }
}

} // verus!
