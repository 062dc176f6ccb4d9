//! The contract's entry points: setting up, executing requests and
//! answering queries, each a function from the state and the request to
//! the new state and the answer.
//!
//! Address validation and the decoding of JSON messages are the chain's
//! work: the caller performs them and hands their outcomes in, as
//! `Result<String, String>` (the validated address, or the chain's error
//! text) and `Result<TransferMsg, String>`.

use vstd::prelude::*;

use crate::env::{Coin, ContractEnv, MessageInfo};
use crate::error::{nonpayable, AdminError, ContractError};
use crate::msg::{
    AdminResponse, AllowMsg, AllowedResponse, AllowedResponseView, ExecuteMsg, InitMsg,
    QueryAnswer, QueryMsg, ReceiveMsg, TransferMsg,
};
use crate::response::{
    CosmosMsg, CosmosMsgView, Ics20Packet, Ics20PacketView, ReplyOn, Response, ResponseView, SubMsg,
    SubMsgView,
};
use crate::state::{opt_text, AllowInfo, AllowInfoView, ContractState, StateView};
use crate::text::{
    decimal, join_path, register_receive, register_receive_text, slash_path, to_decimal,
};
use crate::time::plus_seconds;

verus! {

/// The id under which the chain reports a failed burn back to the contract.
pub const RECEIVE_ID: u64 = 1337;

/// A result with its response taken by its view.
pub open spec fn result_view(r: Result<Response, ContractError>) -> Result<ResponseView, ContractError> {
    match r {
        Ok(resp) => Ok(resp@),
        Err(e) => Err(e),
    }
}

// ---------------------------------------------------------------------------
// The allow list

/// The allow-list entry that an allowance records.
pub open spec fn allow_entry(allow: AllowMsg, contract: Seq<char>, port: Seq<char>) -> AllowInfoView {
    AllowInfoView {
        contract,
        code_hash: allow.code_hash@,
        gas_limit: allow.gas_limit,
        denom: allow.denom@,
        port,
    }
}

/// The state after an allowance of the validated `contract` under `port`.
pub open spec fn with_allowed(s: StateView, allow: AllowMsg, contract: Seq<char>, port: Seq<char>) -> StateView {
    StateView {
        allow_list: s.allow_list.insert(allow.denom@, allow_entry(allow, contract, port)),
        allow_list_addr_2_denom: s.allow_list_addr_2_denom.insert(contract, allow.denom@),
        ..s
    }
}

/// The message that asks a token contract to report its deposits to this one.
pub open spec fn register_receive_submsg(contract: Seq<char>, code_hash: Seq<char>, own_code_hash: Seq<char>) -> SubMsgView {
    SubMsgView {
        id: 0,
        msg: CosmosMsgView::WasmExecute {
            contract_addr: contract,
            code_hash,
            msg: register_receive_text(own_code_hash),
            funds: Seq::empty(),
        },
        gas_limit: None,
        reply_on: ReplyOn::Never,
    }
}

fn register_receive_msg(contract: String, code_hash: String, own_code_hash: &String) -> (m: CosmosMsg)
    ensures
        m@ == register_receive_submsg(contract@, code_hash@, own_code_hash@).msg,
{
    let funds: Vec<Coin> = Vec::new();
    assert(funds@.map_values(|c: Coin| c@) =~= Seq::<(Seq<char>, u128)>::empty());
    CosmosMsg::WasmExecute {
        contract_addr: contract,
        code_hash,
        msg: register_receive(own_code_hash.as_str()),
        funds,
    }
}

// ---------------------------------------------------------------------------
// Instantiation

/// The port recorded for the tokens allowed when the contract is set up.
pub open spec fn instance_port(env: ContractEnv) -> Seq<char> {
    "wasm."@ + env.contract_address@
}

/// The validated addresses among the outcomes of address checks.
pub open spec fn validated(checks: Seq<Result<String, String>>) -> Seq<Seq<char>> {
    checks.map_values(|c: Result<String, String>| match c {
        Ok(a) => a@,
        Err(_) => Seq::empty(),
    })
}

/// The state after allowing each entry of `list` in turn, with `contracts`
/// as their validated contracts.
pub open spec fn allowlist_applied(s: StateView, list: Seq<AllowMsg>, contracts: Seq<Seq<char>>, port: Seq<char>) -> StateView
    decreases list.len(),
{
    if list.len() == 0 {
        s
    } else {
        with_allowed(allowlist_applied(s, list.drop_last(), contracts.drop_last(), port), list.last(), contracts.last(), port)
    }
}

/// The state a successful set-up starts the contract in.
pub open spec fn initial_state(env: ContractEnv, msg: InitMsg, admin: Seq<char>, checks: Seq<Result<String, String>>) -> StateView {
    allowlist_applied(
        StateView {
            admin: Some(admin),
            allow_list: Map::empty(),
            allow_list_addr_2_denom: Map::empty(),
            channel_info: Map::empty(),
        },
        msg.allowlist@,
        validated(checks),
        instance_port(env),
    )
}

/// The response to a successful set-up: one register-receive message per
/// allowed token, in order.
pub open spec fn instantiate_response(list: Seq<AllowMsg>, own_code_hash: Seq<char>) -> ResponseView {
    ResponseView {
        messages: list.map_values(|a: AllowMsg| register_receive_submsg(a.contract@, a.code_hash@, own_code_hash)),
        attributes: Seq::empty(),
    }
}

/// Sets the contract up: `admin_check` is the validation of `msg.admin`,
/// and `validated_contracts[i]` that of `msg.allowlist[i].contract`. The first
/// failed validation, in that order, is the error.
pub fn instantiate(
    env: &ContractEnv,
    _info: &MessageInfo,
    msg: InitMsg,
    admin_check: Result<String, String>,
    validated_contracts: Vec<Result<String, String>>,
) -> (r: Result<(ContractState, Response), ContractError>)
    requires
        validated_contracts@.len() == msg.allowlist@.len(),
    ensures
        match admin_check {
            Err(e) => r == Err::<(ContractState, Response), ContractError>(ContractError::Std(e)),
            Ok(admin) => match r {
                Ok((s, resp)) => {
                    &&& forall|k: int| 0 <= k < validated_contracts@.len() ==> #[trigger] validated_contracts@[k] is Ok
                    &&& s.wf()
                    &&& s@ == initial_state(*env, msg, admin@, validated_contracts@)
                    &&& resp@ == instantiate_response(msg.allowlist@, env.contract_code_hash@)
                },
                Err(err) => exists|k: int| {
                    &&& 0 <= k < validated_contracts@.len()
                    &&& (forall|j: int| 0 <= j < k ==> #[trigger] validated_contracts@[j] is Ok)
                    &&& #[trigger] validated_contracts@[k] matches Err(e) && err == ContractError::Std(e)
                },
            },
        },
{
    let admin = match admin_check {
        Ok(a) => a,
        Err(e) => {
            return Err(ContractError::Std(e));
        },
    };
    let ghost start = StateView {
        admin: Some(admin@),
        allow_list: Map::empty(),
        allow_list_addr_2_denom: Map::empty(),
        channel_info: Map::empty(),
    };
    let mut state = ContractState::new(Some(admin));
    let mut port = String::from_str("wasm.");
    port.append(env.contract_address.as_str());
    let mut response = Response::new();
    let ghost list = msg.allowlist@;
    let ghost cs = validated(validated_contracts@);
    let ghost own = env.contract_code_hash@;
    proof {
        assert(list.take(0) =~= Seq::<AllowMsg>::empty());
        assert(cs.take(0) =~= Seq::<Seq<char>>::empty());
        assert(response@.messages =~= list.take(0).map_values(|a: AllowMsg| register_receive_submsg(a.contract@, a.code_hash@, own)));
    }
    let n = msg.allowlist.len();
    let mut i: usize = 0;
    while i < n
        invariant
            n == list.len(),
            list == msg.allowlist@,
            cs == validated(validated_contracts@),
            own == env.contract_code_hash@,
            validated_contracts@.len() == n,
            i <= n,
            port@ == instance_port(*env),
            state.wf(),
            state@ == allowlist_applied(start, list.take(i as int), cs.take(i as int), port@),
            response@ == instantiate_response(list.take(i as int), own),
            forall|j: int| 0 <= j < i ==> #[trigger] validated_contracts@[j] is Ok,
            admin_check matches Ok(a) && start == (StateView {
                admin: Some(a@),
                allow_list: Map::empty(),
                allow_list_addr_2_denom: Map::empty(),
                channel_info: Map::empty(),
            }),
        decreases n - i,
    {
        let allowed = &msg.allowlist[i];
        let contract = match &validated_contracts[i] {
            Ok(c) => c.clone(),
            Err(e) => {
                return Err(ContractError::Std(e.clone()));
            },
        };
        let ghost before = state@;
        let info = AllowInfo {
            contract: contract.clone(),
            code_hash: allowed.code_hash.clone(),
            gas_limit: allowed.gas_limit,
            denom: allowed.denom.clone(),
            port: port.clone(),
        };
        state.save_allow(allowed.denom.clone(), info);
        state.save_contract_denom(contract, allowed.denom.clone());
        let ghost old_messages = response@.messages;
        let m = register_receive_msg(allowed.contract.clone(), allowed.code_hash.clone(), &env.contract_code_hash);
        response = response.add_message(m);
        proof {
            assert(cs[i as int] == validated_contracts@[i as int]->Ok_0@);
            assert(list.take(i + 1).drop_last() =~= list.take(i as int));
            assert(cs.take(i + 1).drop_last() =~= cs.take(i as int));
            assert(list.take(i + 1).last() == list[i as int]);
            assert(cs.take(i + 1).last() == cs[i as int]);
            assert(state@ == with_allowed(before, list[i as int], cs[i as int], port@));
            assert(list.take(i + 1).map_values(|a: AllowMsg| register_receive_submsg(a.contract@, a.code_hash@, own))
                =~= list.take(i as int).map_values(|a: AllowMsg| register_receive_submsg(a.contract@, a.code_hash@, own)).push(
                    register_receive_submsg(list[i as int].contract@, list[i as int].code_hash@, own)));
            assert(response@.attributes =~= Seq::<(Seq<char>, Seq<char>)>::empty());
        }
        i = i + 1;
    }
    proof {
        assert(list.take(n as int) =~= list);
        assert(cs.take(n as int) =~= cs);
    }
    Ok((state, response))
}

} // verus!

verus! {

// ---------------------------------------------------------------------------
// Transfers

/// How long a packet lives, in seconds, when the transfer does not say.
pub const DEFAULT_TIMEOUT: u64 = 3600;  // 1 hour

/// How long a transfer's packet lives, in seconds: the given timeout, or
/// the default.
pub open spec fn timeout_seconds(timeout: Option<u64>) -> u64 {
    match timeout {
        Some(t) => t,
        None => DEFAULT_TIMEOUT,
    }
}

/// Whether a timeout of `seconds` after `block` nanoseconds fits in a timestamp.
pub open spec fn timeout_fits(block: u64, seconds: u64) -> bool {
    &&& seconds * 1_000_000_000 <= u64::MAX
    &&& block + seconds * 1_000_000_000 <= u64::MAX
}

/// The inputs on which a transfer that passes its checks runs to the end:
/// its timeout fits, and the sending token contract is on the allow list.
pub open spec fn transfer_can_run(s: StateView, env: ContractEnv, msg: TransferMsg, amount: u128, contract: Seq<char>) -> bool {
    amount != 0 && s.channel_info.contains_key(msg.channel@)
        ==> timeout_fits(env.block_time_nanos, timeout_seconds(msg.timeout)) && s.allow_list_addr_2_denom.contains_key(contract)
}

/// The text of an optional memo; no memo is the empty text.
pub open spec fn memo_text(memo: Option<String>) -> Seq<char> {
    match memo {
        Some(m) => m@,
        None => Seq::empty(),
    }
}

/// The packet a transfer sends: the token's denomination is prefixed by
/// its port and the channel.
pub open spec fn transfer_packet(
    s: StateView,
    msg: TransferMsg,
    amount: u128,
    memo: Option<String>,
    sender: Seq<char>,
    contract: Seq<char>,
) -> Ics20PacketView {
    let native = s.allow_list_addr_2_denom[contract];
    Ics20PacketView {
        amount,
        denom: slash_path(s.allow_list[native].port, msg.channel@, native),
        receiver: msg.remote_address@,
        sender,
        memo: memo_text(memo),
    }
}

/// The response to a transfer that passes its checks: the packet over the
/// channel, and the burn of the same amount in the token contract.
pub open spec fn transfer_response(
    s: StateView,
    env: ContractEnv,
    msg: TransferMsg,
    amount: u128,
    memo: Option<String>,
    sender: Seq<char>,
    contract: Seq<char>,
) -> ResponseView {
    let info = s.allow_list[s.allow_list_addr_2_denom[contract]];
    let packet = transfer_packet(s, msg, amount, memo, sender, contract);
    ResponseView {
        messages: seq![
            SubMsgView {
                id: 0,
                msg: CosmosMsgView::SendPacket {
                    channel_id: msg.channel@,
                    data: packet,
                    timeout_nanos: (env.block_time_nanos + timeout_seconds(msg.timeout) * 1_000_000_000) as u64,
                },
                gas_limit: None,
                reply_on: ReplyOn::Never,
            },
            SubMsgView {
                id: RECEIVE_ID,
                msg: CosmosMsgView::Burn { contract_addr: contract, code_hash: info.code_hash, amount },
                gas_limit: info.gas_limit,
                reply_on: ReplyOn::Error,
            },
        ],
        attributes: seq![
            ("action"@, "transfer"@),
            ("sender"@, packet.sender),
            ("receiver"@, packet.receiver),
            ("denom"@, packet.denom),
            ("amount"@, decimal(amount as nat)),
            ("memo"@, packet.memo),
        ],
    }
}

/// What a transfer of `amount` tokens of the token contract `contract`,
/// on behalf of `sender`, answers.
pub open spec fn transfer_outcome(
    s: StateView,
    env: ContractEnv,
    msg: TransferMsg,
    amount: u128,
    memo: Option<String>,
    sender: Seq<char>,
    contract: Seq<char>,
) -> Result<ResponseView, ContractError> {
    if amount == 0 {
        Err(ContractError::NoFunds {})
    } else if !s.channel_info.contains_key(msg.channel@) {
        Err(ContractError::NoSuchChannel { id: msg.channel })
    } else {
        Ok(transfer_response(s, env, msg, amount, memo, sender, contract))
    }
}

/// Sends `amount` tokens of the token contract `contract` over the channel
/// that `msg` names, on behalf of `sender`. The state is not changed.
pub fn execute_transfer(
    state: &ContractState,
    env: &ContractEnv,
    msg: TransferMsg,
    amount: u128,
    memo: Option<String>,
    sender: String,
    contract: String,
) -> (r: Result<Response, ContractError>)
    requires
        state.wf(),
        transfer_can_run(state@, *env, msg, amount, contract@),
    ensures
        result_view(r) == transfer_outcome(state@, *env, msg, amount, memo, sender@, contract@),
{
    if amount == 0 {
        return Err(ContractError::NoFunds {});
    }
    // ensure the requested channel is registered
    if !state.has_channel(&msg.channel) {
        return Err(ContractError::NoSuchChannel { id: msg.channel });
    }
    let ghost s = state@;
    let ghost msg0 = msg;
    let ghost memo0 = memo;
    proof {
        state.lemma_wf_consistent();
    }
    // timeout is in nanoseconds
    let seconds: u64 = match msg.timeout {
        Some(t) => t,
        None => DEFAULT_TIMEOUT,
    };
    let timeout = plus_seconds(env.block_time_nanos, seconds);
    let native_denom = state.contract_denom(&contract).unwrap();
    let info = state.allow_info(native_denom).unwrap();
    let denom = join_path(info.port.as_str(), msg.channel.as_str(), native_denom.as_str());
    // build ics20 packet
    let mut packet = Ics20Packet::new(amount, denom, sender.as_str(), msg.remote_address.as_str());
    if let Some(m) = memo {
        packet.memo = m;
    }
    let sender_attr = packet.sender.clone();
    let receiver_attr = packet.receiver.clone();
    let denom_attr = packet.denom.clone();
    let memo_attr = packet.memo.clone();
    let ghost packet_view = packet@;
    let send = CosmosMsg::SendPacket { channel_id: msg.channel, data: packet, timeout_nanos: timeout };
    let burn = CosmosMsg::Burn { contract_addr: contract, code_hash: info.code_hash.clone(), amount };
    let mut submsg = SubMsg::reply_on_error(burn, RECEIVE_ID);
    submsg.gas_limit = info.gas_limit;
    let res = Response::new()
        .add_message(send)
        .add_submessage(submsg)
        .add_attribute("action", String::from_str("transfer"))
        .add_attribute("sender", sender_attr)
        .add_attribute("receiver", receiver_attr)
        .add_attribute("denom", denom_attr)
        .add_attribute("amount", to_decimal(amount))
        .add_attribute("memo", memo_attr);
    proof {
        assert(packet_view.denom == transfer_packet(s, msg0, amount, memo0, sender@, contract@).denom);
        assert(packet_view.memo == transfer_packet(s, msg0, amount, memo0, sender@, contract@).memo);
        assert(packet_view.sender == transfer_packet(s, msg0, amount, memo0, sender@, contract@).sender);
        assert(packet_view == transfer_packet(s, msg0, amount, memo0, sender@, contract@));
        assert(res@.messages =~= transfer_response(s, *env, msg0, amount, memo0, sender@, contract@).messages);
        assert(res@.attributes =~= transfer_response(s, *env, msg0, amount, memo0, sender@, contract@).attributes);
    }
    Ok(res)
}

/// The inputs on which a deposit that passes its checks runs to the end.
pub open spec fn receive_can_run(
    s: StateView,
    env: ContractEnv,
    info: MessageInfo,
    wrapper: ReceiveMsg,
    parsed: Result<TransferMsg, String>,
    sender_check: Result<String, String>,
) -> bool {
    info.funds@.len() == 0 ==> match parsed {
        Ok(m) => sender_check is Ok ==> transfer_can_run(s, env, m, wrapper.amount, info.sender@),
        Err(_) => true,
    }
}

/// What a deposit answers: it refuses native funds, then a message that did
/// not parse, then a sender that did not validate, and otherwise transfers.
pub open spec fn receive_outcome(
    s: StateView,
    env: ContractEnv,
    info: MessageInfo,
    wrapper: ReceiveMsg,
    parsed: Result<TransferMsg, String>,
    sender_check: Result<String, String>,
) -> Result<ResponseView, ContractError> {
    if info.funds@.len() != 0 {
        Err(ContractError::Payment(crate::error::PaymentError::NonPayable {}))
    } else {
        match parsed {
            Err(e) => Err(ContractError::Std(e)),
            Ok(m) => match sender_check {
                Err(e) => Err(ContractError::Std(e)),
                Ok(a) => transfer_outcome(s, env, m, wrapper.amount, wrapper.memo, a@, info.sender@),
            },
        }
    }
}

/// Handles a deposit reported by a token contract (`info.sender`):
/// `parsed_msg` is `wrapper.msg` decoded as a `TransferMsg`, and
/// `sender_check` the validation of `wrapper.sender`.
pub fn execute_receive(
    state: &ContractState,
    env: &ContractEnv,
    info: &MessageInfo,
    wrapper: ReceiveMsg,
    parsed_msg: Result<TransferMsg, String>,
    sender_check: Result<String, String>,
) -> (r: Result<Response, ContractError>)
    requires
        state.wf(),
        receive_can_run(state@, *env, *info, wrapper, parsed_msg, sender_check),
    ensures
        result_view(r) == receive_outcome(state@, *env, *info, wrapper, parsed_msg, sender_check),
{
    if let Err(e) = nonpayable(&info.funds) {
        return Err(ContractError::Payment(e));
    }
    let msg = match parsed_msg {
        Ok(m) => m,
        Err(e) => {
            return Err(ContractError::Std(e));
        },
    };
    let sender = match sender_check {
        Ok(a) => a,
        Err(e) => {
            return Err(ContractError::Std(e));
        },
    };
    execute_transfer(state, env, msg, wrapper.amount, wrapper.memo, sender, info.sender.clone())
}

} // verus!

verus! {

// ---------------------------------------------------------------------------
// Allowances and the admin

/// Whether replacing a gas limit `old` by `new` lowers it; no limit is the
/// highest.
pub open spec fn lowers_gas(old: Option<u64>, new: Option<u64>) -> bool {
    match (old, new) {
        (None, Some(_)) => true,
        (Some(o), Some(n)) => n < o,
        _ => false,
    }
}

fn lowers_gas_limit(old: Option<u64>, new: Option<u64>) -> (b: bool)
    ensures
        b == lowers_gas(old, new),
{
    match (old, new) {
        (None, Some(_)) => true,
        (Some(o), Some(n)) => n < o,
        _ => false,
    }
}

/// The gas limit of an allowance as an attribute writes it: none is zero.
pub open spec fn gas_limit_or_zero(gas_limit: Option<u64>) -> u64 {
    match gas_limit {
        Some(g) => g,
        None => 0,
    }
}

/// The response to an accepted allowance.
pub open spec fn allow_response(allow: AllowMsg, own_code_hash: Seq<char>) -> ResponseView {
    ResponseView {
        messages: seq![register_receive_submsg(allow.contract@, allow.code_hash@, own_code_hash)],
        attributes: seq![
            ("action"@, "allow"@),
            ("contract"@, allow.contract@),
            ("code_hash"@, allow.code_hash@),
            ("gas_limit"@, decimal(gas_limit_or_zero(allow.gas_limit) as nat)),
        ],
    }
}

/// What an allowance does: only the admin may allow, the contract must
/// validate, and an allowed token's gas limit may not be lowered; then the
/// token is allowed under its denomination.
pub open spec fn allow_outcome(
    s: StateView,
    env: ContractEnv,
    info: MessageInfo,
    allow: AllowMsg,
    contract_check: Result<String, String>,
) -> (StateView, Result<ResponseView, ContractError>) {
    if s.admin != Some(info.sender@) {
        (s, Err(ContractError::Admin(AdminError::NotAdmin {})))
    } else {
        match contract_check {
            Err(e) => (s, Err(ContractError::Std(e))),
            Ok(c) => if s.allow_list.contains_key(allow.denom@) && lowers_gas(
                s.allow_list[allow.denom@].gas_limit,
                allow.gas_limit,
            ) {
                (s, Err(ContractError::CannotLowerGas {}))
            } else {
                (with_allowed(s, allow, c@, allow.port@), Ok(allow_response(allow, env.contract_code_hash@)))
            },
        }
    }
}

/// The gov contract can allow new contracts, or increase the gas limit on existing contracts.
/// It cannot block or reduce the limit to avoid forcible sticking tokens in the channel.
///
/// `contract_check` is the validation of `allow.contract`.
pub fn execute_allow(
    state: &mut ContractState,
    env: &ContractEnv,
    info: &MessageInfo,
    allow: AllowMsg,
    contract_check: Result<String, String>,
) -> (r: Result<Response, ContractError>)
    requires
        old(state).wf(),
    ensures
        final(state).wf(),
        (final(state)@, result_view(r)) == allow_outcome(old(state)@, *env, *info, allow, contract_check),
{
    if !state.is_admin(&info.sender) {
        return Err(ContractError::Admin(AdminError::NotAdmin {}));
    }
    let contract = match contract_check {
        Ok(c) => c,
        Err(e) => {
            return Err(ContractError::Std(e));
        },
    };
    if let Some(existing) = state.allow_info(&allow.denom) {
        if lowers_gas_limit(existing.gas_limit, allow.gas_limit) {
            return Err(ContractError::CannotLowerGas {});
        }
    }
    let ghost s = state@;
    let set = AllowInfo {
        contract: contract.clone(),
        gas_limit: allow.gas_limit,
        code_hash: allow.code_hash.clone(),
        denom: allow.denom.clone(),
        port: allow.port.clone(),
    };
    state.save_allow(allow.denom.clone(), set);
    state.save_contract_denom(contract, allow.denom.clone());
    let gas_limit: u64 = match allow.gas_limit {
        Some(g) => g,
        None => 0,
    };
    let m = register_receive_msg(allow.contract.clone(), allow.code_hash.clone(), &env.contract_code_hash);
    let res = Response::new()
        .add_attribute("action", String::from_str("allow"))
        .add_attribute("contract", allow.contract.clone())
        .add_attribute("code_hash", allow.code_hash.clone())
        .add_attribute("gas_limit", to_decimal(gas_limit as u128))
        .add_message(m);
    proof {
        assert(res@.messages =~= allow_response(allow, env.contract_code_hash@).messages);
        assert(res@.attributes =~= allow_response(allow, env.contract_code_hash@).attributes);
    }
    Ok(res)
}

/// What a change of admin does: the new admin must validate, and only the
/// admin may make the change.
pub open spec fn update_admin_outcome(
    s: StateView,
    info: MessageInfo,
    admin_check: Result<String, String>,
) -> (StateView, Result<ResponseView, ContractError>) {
    match admin_check {
        Err(e) => (s, Err(ContractError::Std(e))),
        Ok(a) => if s.admin != Some(info.sender@) {
            (s, Err(ContractError::Admin(AdminError::NotAdmin {})))
        } else {
            (
                StateView { admin: Some(a@), ..s },
                Ok(ResponseView {
                    messages: Seq::empty(),
                    attributes: seq![("action"@, "update_admin"@), ("admin"@, a@), ("sender"@, info.sender@)],
                }),
            )
        },
    }
}

/// Makes the validated `admin_check` the admin, if the sender is the admin.
pub fn execute_update_admin(
    state: &mut ContractState,
    info: &MessageInfo,
    admin_check: Result<String, String>,
) -> (r: Result<Response, ContractError>)
    requires
        old(state).wf(),
    ensures
        final(state).wf(),
        (final(state)@, result_view(r)) == update_admin_outcome(old(state)@, *info, admin_check),
{
    let admin = match admin_check {
        Ok(a) => a,
        Err(e) => {
            return Err(ContractError::Std(e));
        },
    };
    if !state.is_admin(&info.sender) {
        return Err(ContractError::Admin(AdminError::NotAdmin {}));
    }
    let res = Response::new()
        .add_attribute("action", String::from_str("update_admin"))
        .add_attribute("admin", admin.clone())
        .add_attribute("sender", info.sender.clone());
    let ghost new_admin = admin@;
    state.set_admin(Some(admin));
    proof {
        assert(res@.messages =~= Seq::<SubMsgView>::empty());
        assert(res@.attributes =~= seq![("action"@, "update_admin"@), ("admin"@, new_admin), ("sender"@, info.sender@)]);
    }
    Ok(res)
}

// ---------------------------------------------------------------------------
// Dispatch

/// The address that the chain must validate before a request is executed:
/// the depositor, the allowed contract, or the new admin.
pub open spec fn address_of_request(msg: ExecuteMsg) -> String {
    match msg {
        ExecuteMsg::Receive(w) => w.sender,
        ExecuteMsg::Allow(a) => a.contract,
        ExecuteMsg::UpdateAdmin { admin } => admin,
    }
}

/// The address that the chain must validate before `msg` is executed.
pub fn address_to_validate(msg: &ExecuteMsg) -> (r: &String)
    ensures
        *r == address_of_request(*msg),
{
    match msg {
        ExecuteMsg::Receive(w) => &w.sender,
        ExecuteMsg::Allow(a) => &a.contract,
        ExecuteMsg::UpdateAdmin { admin } => admin,
    }
}

/// The inputs on which a request that passes its checks runs to the end.
pub open spec fn execute_can_run(
    s: StateView,
    env: ContractEnv,
    info: MessageInfo,
    msg: ExecuteMsg,
    address_check: Result<String, String>,
    parsed_transfer: Result<TransferMsg, String>,
) -> bool {
    match msg {
        ExecuteMsg::Receive(w) => receive_can_run(s, env, info, w, parsed_transfer, address_check),
        _ => true,
    }
}

/// What a request does to the state and answers.
pub open spec fn execute_outcome(
    s: StateView,
    env: ContractEnv,
    info: MessageInfo,
    msg: ExecuteMsg,
    address_check: Result<String, String>,
    parsed_transfer: Result<TransferMsg, String>,
) -> (StateView, Result<ResponseView, ContractError>) {
    match msg {
        ExecuteMsg::Receive(w) => (s, receive_outcome(s, env, info, w, parsed_transfer, address_check)),
        ExecuteMsg::Allow(a) => allow_outcome(s, env, info, a, address_check),
        ExecuteMsg::UpdateAdmin { admin: _ } => update_admin_outcome(s, info, address_check),
    }
}

/// Executes a request. `address_check` is the validation of
/// `address_to_validate(&msg)`; `parsed_transfer` is, for a deposit, its
/// message decoded as a `TransferMsg`, and is not read otherwise.
pub fn execute(
    state: &mut ContractState,
    env: &ContractEnv,
    info: &MessageInfo,
    msg: ExecuteMsg,
    address_check: Result<String, String>,
    parsed_transfer: Result<TransferMsg, String>,
) -> (r: Result<Response, ContractError>)
    requires
        old(state).wf(),
        execute_can_run(old(state)@, *env, *info, msg, address_check, parsed_transfer),
    ensures
        final(state).wf(),
        (final(state)@, result_view(r)) == execute_outcome(old(state)@, *env, *info, msg, address_check, parsed_transfer),
{
    match msg {
        ExecuteMsg::Receive(wrapper) => execute_receive(state, env, info, wrapper, parsed_transfer, address_check),
        ExecuteMsg::Allow(allow) => execute_allow(state, env, info, allow, address_check),
        ExecuteMsg::UpdateAdmin { admin: _ } => execute_update_admin(state, info, address_check),
    }
}

// ---------------------------------------------------------------------------
// Queries

/// What the allow list answers about a denomination.
pub open spec fn allowed_answer(s: StateView, denom: Seq<char>) -> AllowedResponseView {
    if s.allow_list.contains_key(denom) {
        let a = s.allow_list[denom];
        AllowedResponseView { contract: a.contract, is_allowed: true, gas_limit: a.gas_limit, denom: a.denom, port: a.port }
    } else {
        AllowedResponseView {
            contract: Seq::empty(),
            is_allowed: false,
            gas_limit: None,
            denom: Seq::empty(),
            port: Seq::empty(),
        }
    }
}

/// Whether a denomination is allowed, and what the allow list holds for it.
pub fn query_allowed(state: &ContractState, denom: String) -> (r: AllowedResponse)
    requires
        state.wf(),
    ensures
        r@ == allowed_answer(state@, denom@),
        r.is_allowed ==> r.denom@ == denom@,
{
    proof {
        state.lemma_wf_consistent();
    }
    match state.allow_info(&denom) {
        None => {
            let r = AllowedResponse {
                contract: String::new(),
                is_allowed: false,
                gas_limit: None,
                denom: String::new(),
                port: String::new(),
            };
            r
        },
        Some(a) => AllowedResponse {
            is_allowed: true,
            contract: a.contract.clone(),
            gas_limit: a.gas_limit,
            denom: a.denom.clone(),
            port: a.port.clone(),
        },
    }
}

/// Who the admin is.
pub fn query_admin(state: &ContractState) -> (r: AdminResponse)
    ensures
        opt_text(r.admin) == state@.admin,
{
    let admin = match state.admin() {
        Some(a) => Some(a.clone()),
        None => None,
    };
    AdminResponse { admin }
}

/// Answers a query.
pub fn query(state: &ContractState, msg: QueryMsg) -> (r: QueryAnswer)
    requires
        state.wf(),
    ensures
        match msg {
            QueryMsg::Admin {} => r matches QueryAnswer::Admin(a) && opt_text(a.admin) == state@.admin,
            QueryMsg::Allowed { denom } => r matches QueryAnswer::Allowed(a) && a@ == allowed_answer(state@, denom@),
        },
{
    match msg {
        QueryMsg::Allowed { denom } => QueryAnswer::Allowed(query_allowed(state, denom)),
        QueryMsg::Admin {} => QueryAnswer::Admin(query_admin(state)),
    }
}

} // verus!
