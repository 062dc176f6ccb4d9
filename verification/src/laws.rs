//! What holds of the contract across requests.

use vstd::prelude::*;

use crate::contract::{
    allow_outcome, allowed_answer, allowlist_applied, execute_outcome, initial_state, instantiate_response, lowers_gas,
    receive_outcome, timeout_fits, transfer_can_run, transfer_outcome, DEFAULT_TIMEOUT, RECEIVE_ID, update_admin_outcome, validated, with_allowed,
};
use crate::env::{ContractEnv, MessageInfo};
use crate::error::{ContractError, PaymentError};
use crate::msg::{AllowMsg, AllowedResponseView, ExecuteMsg, InitMsg, ReceiveMsg, TransferMsg};
use crate::response::{CosmosMsgView, ReplyOn, SubMsgView};
use crate::state::{consistent, AllowInfoView, StateView};
use crate::text::{decimal, slash_path};

verus! {

/// A refused request leaves the state as it was.
pub proof fn lemma_refused_request_changes_nothing(
    s: StateView,
    env: ContractEnv,
    info: MessageInfo,
    msg: ExecuteMsg,
    address_check: Result<String, String>,
    parsed_transfer: Result<TransferMsg, String>,
)
    ensures
        execute_outcome(s, env, info, msg, address_check, parsed_transfer).1 is Err
            ==> execute_outcome(s, env, info, msg, address_check, parsed_transfer).0 == s,
{
}

/// Only the admin changes the state: a request from anyone else leaves it
/// as it was.
pub proof fn lemma_only_admin_changes_state(
    s: StateView,
    env: ContractEnv,
    info: MessageInfo,
    msg: ExecuteMsg,
    address_check: Result<String, String>,
    parsed_transfer: Result<TransferMsg, String>,
)
    requires
        s.admin != Some(info.sender@),
    ensures
        execute_outcome(s, env, info, msg, address_check, parsed_transfer).0 == s,
{
}

/// Deposits never change the state.
pub proof fn lemma_deposit_changes_nothing(
    s: StateView,
    env: ContractEnv,
    info: MessageInfo,
    wrapper: ReceiveMsg,
    address_check: Result<String, String>,
    parsed_transfer: Result<TransferMsg, String>,
)
    ensures
        execute_outcome(s, env, info, ExecuteMsg::Receive(wrapper), address_check, parsed_transfer).0 == s,
{
}

/// Every request keeps the state consistent: each contract on the allow
/// list has a denomination that is itself on the allow list, and each
/// allow-list entry records its own key as its denomination.
pub proof fn lemma_requests_keep_consistency(
    s: StateView,
    env: ContractEnv,
    info: MessageInfo,
    msg: ExecuteMsg,
    address_check: Result<String, String>,
    parsed_transfer: Result<TransferMsg, String>,
)
    requires
        consistent(s),
    ensures
        consistent(execute_outcome(s, env, info, msg, address_check, parsed_transfer).0),
{
    let t = execute_outcome(s, env, info, msg, address_check, parsed_transfer).0;
    assert forall|c: Seq<char>| #[trigger] t.allow_list_addr_2_denom.contains_key(c)
        implies t.allow_list.contains_key(t.allow_list_addr_2_denom[c]) by {
        if s.allow_list_addr_2_denom.contains_key(c) {
            assert(s.allow_list.contains_key(s.allow_list_addr_2_denom[c]));
        }
    }
}

/// An allowed token stays allowed, and its gas limit is never lowered: the
/// allow list can grow and limits can rise, nothing else.
pub proof fn lemma_allowances_never_revoked_nor_lowered(
    s: StateView,
    env: ContractEnv,
    info: MessageInfo,
    msg: ExecuteMsg,
    address_check: Result<String, String>,
    parsed_transfer: Result<TransferMsg, String>,
    denom: Seq<char>,
)
    requires
        s.allow_list.contains_key(denom),
    ensures
        execute_outcome(s, env, info, msg, address_check, parsed_transfer).0.allow_list.contains_key(denom),
        !lowers_gas(
            s.allow_list[denom].gas_limit,
            execute_outcome(s, env, info, msg, address_check, parsed_transfer).0.allow_list[denom].gas_limit,
        ),
{
}

/// After an accepted allowance, the allow list answers for its
/// denomination with the validated contract, the gas limit and the port
/// that were given, and the contract is known under that denomination.
pub proof fn lemma_allowed_after_allow(
    s: StateView,
    env: ContractEnv,
    info: MessageInfo,
    allow: AllowMsg,
    contract_check: Result<String, String>,
)
    requires
        allow_outcome(s, env, info, allow, contract_check).1 is Ok,
    ensures
        contract_check is Ok,
        allowed_answer(allow_outcome(s, env, info, allow, contract_check).0, allow.denom@) == (AllowedResponseView {
            contract: contract_check->Ok_0@,
            is_allowed: true,
            gas_limit: allow.gas_limit,
            denom: allow.denom@,
            port: allow.port@,
        }),
        allow_outcome(s, env, info, allow, contract_check).0.allow_list_addr_2_denom[contract_check->Ok_0@] == allow.denom@,
{
}

/// After an accepted change of admin, the new admin is the validated one.
pub proof fn lemma_admin_after_update(s: StateView, info: MessageInfo, admin_check: Result<String, String>)
    requires
        update_admin_outcome(s, info, admin_check).1 is Ok,
    ensures
        admin_check is Ok,
        update_admin_outcome(s, info, admin_check).0.admin == Some(admin_check->Ok_0@),
{
}

/// A deposit that carries native funds is refused as non-payable.
pub proof fn lemma_deposit_with_funds_refused(
    s: StateView,
    env: ContractEnv,
    info: MessageInfo,
    wrapper: ReceiveMsg,
    parsed: Result<TransferMsg, String>,
    sender_check: Result<String, String>,
)
    requires
        info.funds@.len() != 0,
    ensures
        receive_outcome(s, env, info, wrapper, parsed, sender_check) == Err::<crate::response::ResponseView, ContractError>(
            ContractError::Payment(PaymentError::NonPayable {}),
        ),
{
}

/// A transfer that goes through sends over a registered channel a packet
/// of the amount deposited, and burns exactly that amount in the token
/// contract that reported the deposit, reporting back only a failed burn.
pub proof fn lemma_transfer_burns_what_it_sends(
    s: StateView,
    env: ContractEnv,
    msg: TransferMsg,
    amount: u128,
    memo: Option<String>,
    sender: Seq<char>,
    contract: Seq<char>,
)
    requires
        transfer_outcome(s, env, msg, amount, memo, sender, contract) is Ok,
    ensures
        amount != 0,
        s.channel_info.contains_key(msg.channel@),
        ({
            let r = transfer_outcome(s, env, msg, amount, memo, sender, contract)->Ok_0;
            &&& r.messages.len() == 2
            &&& r.messages[0].msg matches CosmosMsgView::SendPacket { channel_id, data, .. }
                && channel_id == msg.channel@ && data.amount == amount
            &&& r.messages[1].msg matches CosmosMsgView::Burn { contract_addr, amount: burned, .. }
                && contract_addr == contract && burned == amount
            &&& r.messages[1].reply_on == ReplyOn::Error
        }),
{
}

/// Only tokens on the allow list are sent: a transfer that goes through
/// (on inputs where it runs to the end) is of a token contract recorded
/// under a denomination on the allow list, and its packet names that
/// denomination behind the allowed port and the channel.
pub proof fn lemma_transfer_only_of_allowed_tokens(
    s: StateView,
    env: ContractEnv,
    msg: TransferMsg,
    amount: u128,
    memo: Option<String>,
    sender: Seq<char>,
    contract: Seq<char>,
)
    requires
        consistent(s),
        transfer_can_run(s, env, msg, amount, contract),
        transfer_outcome(s, env, msg, amount, memo, sender, contract) is Ok,
    ensures
        s.allow_list_addr_2_denom.contains_key(contract),
        s.allow_list.contains_key(s.allow_list_addr_2_denom[contract]),
        transfer_outcome(s, env, msg, amount, memo, sender, contract)->Ok_0.messages[0].msg matches CosmosMsgView::SendPacket { data, .. }
            && data.denom == slash_path(
                s.allow_list[s.allow_list_addr_2_denom[contract]].port,
                msg.channel@,
                s.allow_list_addr_2_denom[contract],
            ),
{
}

/// In a consistent state the allow list answers for a denomination with
/// an entry of that very denomination, or with the empty answer.
pub proof fn lemma_allowed_answer_names_its_denom(s: StateView, d: Seq<char>)
    requires
        consistent(s),
    ensures
        allowed_answer(s, d).is_allowed ==> allowed_answer(s, d).denom == d,
        !allowed_answer(s, d).is_allowed ==> allowed_answer(s, d) == (AllowedResponseView {
            contract: Seq::empty(),
            is_allowed: false,
            gas_limit: None,
            denom: Seq::empty(),
            port: Seq::empty(),
        }),
{
}

/// The dispatcher answers a deposit as the deposit handler does and leaves
/// the state as it was; it answers and changes for an allowance what the
/// allowance handler does, and for a change of admin what that handler does.
pub proof fn lemma_execute_dispatches(
    s: StateView,
    env: ContractEnv,
    info: MessageInfo,
    msg: ExecuteMsg,
    address_check: Result<String, String>,
    parsed_transfer: Result<TransferMsg, String>,
)
    ensures
        msg matches ExecuteMsg::Receive(w) ==> execute_outcome(s, env, info, msg, address_check, parsed_transfer)
            == (s, receive_outcome(s, env, info, w, parsed_transfer, address_check)),
        msg matches ExecuteMsg::Allow(a) ==> execute_outcome(s, env, info, msg, address_check, parsed_transfer)
            == allow_outcome(s, env, info, a, address_check),
        msg is UpdateAdmin ==> execute_outcome(s, env, info, msg, address_check, parsed_transfer)
            == update_admin_outcome(s, info, address_check),
{
}

/// Deposits and changes of admin leave the allow list and the contract
/// index as they were, whatever they answer; deposits leave the admin and
/// the channels too.
pub proof fn lemma_deposits_and_admin_changes_keep_allow_list(
    s: StateView,
    env: ContractEnv,
    info: MessageInfo,
    msg: ExecuteMsg,
    address_check: Result<String, String>,
    parsed_transfer: Result<TransferMsg, String>,
)
    requires
        msg is Receive || msg is UpdateAdmin,
    ensures
        execute_outcome(s, env, info, msg, address_check, parsed_transfer).0.allow_list == s.allow_list,
        execute_outcome(s, env, info, msg, address_check, parsed_transfer).0.allow_list_addr_2_denom
            == s.allow_list_addr_2_denom,
        execute_outcome(s, env, info, msg, address_check, parsed_transfer).0.channel_info == s.channel_info,
        msg is Receive ==> execute_outcome(s, env, info, msg, address_check, parsed_transfer).0 == s,
{
}

/// A deposit without funds, whose message parsed and whose sender
/// validated, answers what the transfer answers: the validated depositor is
/// the packet's sender and the calling token contract is the token.
pub proof fn lemma_deposit_is_transfer(
    s: StateView,
    env: ContractEnv,
    info: MessageInfo,
    wrapper: ReceiveMsg,
    transfer: TransferMsg,
    sender: String,
)
    requires
        info.funds@.len() == 0,
    ensures
        receive_outcome(s, env, info, wrapper, Ok(transfer), Ok(sender))
            == transfer_outcome(s, env, transfer, wrapper.amount, wrapper.memo, sender@, info.sender@),
{
}

/// A transfer that names no timeout lives for the default timeout: its
/// packet times out that many seconds after the block time.
pub proof fn lemma_transfer_default_timeout(
    s: StateView,
    env: ContractEnv,
    msg: TransferMsg,
    amount: u128,
    memo: Option<String>,
    sender: Seq<char>,
    contract: Seq<char>,
)
    requires
        msg.timeout is None,
        timeout_fits(env.block_time_nanos, DEFAULT_TIMEOUT),
        transfer_outcome(s, env, msg, amount, memo, sender, contract) is Ok,
    ensures
        transfer_outcome(s, env, msg, amount, memo, sender, contract)->Ok_0.messages[0].msg matches CosmosMsgView::SendPacket { timeout_nanos, .. }
            && timeout_nanos == env.block_time_nanos + DEFAULT_TIMEOUT * 1_000_000_000,
{
}

/// Setting up keeps no channels, makes the validated admin the admin, and
/// allows exactly the denominations of the initial allow list, each with
/// a contract on the allow list; the state is consistent.
pub proof fn lemma_initial_state(
    env: ContractEnv,
    msg: InitMsg,
    admin: Seq<char>,
    checks: Seq<Result<String, String>>,
)
    requires
        checks.len() == msg.allowlist@.len(),
    ensures
        initial_state(env, msg, admin, checks).admin == Some(admin),
        initial_state(env, msg, admin, checks).channel_info == Map::<Seq<char>, crate::state::ChannelInfoView>::empty(),
        consistent(initial_state(env, msg, admin, checks)),
        forall|d: Seq<char>| #[trigger] initial_state(env, msg, admin, checks).allow_list.contains_key(d)
            <==> exists|i: int| 0 <= i < msg.allowlist@.len() && #[trigger] msg.allowlist@[i].denom@ == d,
{
    let start = StateView {
        admin: Some(admin),
        allow_list: Map::empty(),
        allow_list_addr_2_denom: Map::empty(),
        channel_info: Map::empty(),
    };
    lemma_applied(start, msg.allowlist@, validated(checks), crate::contract::instance_port(env));
}

proof fn lemma_applied(s: StateView, list: Seq<AllowMsg>, contracts: Seq<Seq<char>>, port: Seq<char>)
    requires
        contracts.len() == list.len(),
        consistent(s),
        s.allow_list == Map::<Seq<char>, crate::state::AllowInfoView>::empty(),
    ensures
        allowlist_applied(s, list, contracts, port).admin == s.admin,
        allowlist_applied(s, list, contracts, port).channel_info == s.channel_info,
        consistent(allowlist_applied(s, list, contracts, port)),
        forall|d: Seq<char>| #[trigger] allowlist_applied(s, list, contracts, port).allow_list.contains_key(d)
            <==> exists|i: int| 0 <= i < list.len() && #[trigger] list[i].denom@ == d,
    decreases list.len(),
{
    if list.len() > 0 {
        let prefix = list.drop_last();
        lemma_applied(s, prefix, contracts.drop_last(), port);
        let t = allowlist_applied(s, prefix, contracts.drop_last(), port);
        let u = allowlist_applied(s, list, contracts, port);
        assert(u == with_allowed(t, list.last(), contracts.last(), port));
        assert forall|c: Seq<char>| #[trigger] u.allow_list_addr_2_denom.contains_key(c)
            implies u.allow_list.contains_key(u.allow_list_addr_2_denom[c]) by {
            if c != contracts.last() {
                assert(t.allow_list_addr_2_denom.contains_key(c));
                assert(t.allow_list.contains_key(t.allow_list_addr_2_denom[c]));
            }
        }
        assert forall|d: Seq<char>| #[trigger] u.allow_list.contains_key(d)
            implies exists|i: int| 0 <= i < list.len() && #[trigger] list[i].denom@ == d by {
            if d == list.last().denom@ {
                assert(list[list.len() - 1].denom@ == d);
            } else {
                assert(t.allow_list.contains_key(d));
                let i = choose|i: int| 0 <= i < prefix.len() && #[trigger] prefix[i].denom@ == d;
                assert(list[i].denom@ == d);
            }
        }
        assert forall|d: Seq<char>| (exists|i: int| 0 <= i < list.len() && #[trigger] list[i].denom@ == d)
            implies #[trigger] u.allow_list.contains_key(d) by {
            let i = choose|i: int| 0 <= i < list.len() && #[trigger] list[i].denom@ == d;
            if i < list.len() - 1 {
                assert(prefix[i].denom@ == d);
                assert(t.allow_list.contains_key(d));
            }
        }
    } else {
        assert forall|d: Seq<char>| #[trigger] s.allow_list.contains_key(d)
            implies exists|i: int| 0 <= i < list.len() && #[trigger] list[i].denom@ == d by {
        }
    }
}

// ---------------------------------------------------------------------------
// What each operation answers, stated from its inputs.

/// A transfer that goes through answers two messages: first the packet,
/// sent as a plain message (id 0, no gas limit, never reported back),
/// carrying the deposited amount, the denomination `port/channel/denom` of
/// the token's allow-list entry, the validated sender, the remote receiver
/// and the memo (empty when none is given), timing out the given number of
/// seconds (or the default) after the block time; then the burn of exactly
/// the deposited amount in the depositing token contract, with the code
/// hash and the gas limit (none included) that its allow-list entry
/// records, reported back under `RECEIVE_ID` only when it fails.
pub proof fn lemma_transfer_answer(
    s: StateView,
    env: ContractEnv,
    msg: TransferMsg,
    amount: u128,
    memo: Option<String>,
    sender: Seq<char>,
    contract: Seq<char>,
)
    requires
        transfer_outcome(s, env, msg, amount, memo, sender, contract) is Ok,
    ensures
        ({
            let r = transfer_outcome(s, env, msg, amount, memo, sender, contract)->Ok_0;
            let native = s.allow_list_addr_2_denom[contract];
            let entry = s.allow_list[native];
            let seconds: int = match msg.timeout {
                Some(t) => t as int,
                None => DEFAULT_TIMEOUT as int,
            };
            let memo_seen: Seq<char> = match memo {
                Some(m) => m@,
                None => Seq::empty(),
            };
            &&& r.messages.len() == 2
            &&& r.messages[0].id == 0
            &&& r.messages[0].gas_limit == None::<u64>
            &&& r.messages[0].reply_on == ReplyOn::Never
            &&& r.messages[0].msg matches CosmosMsgView::SendPacket { channel_id, data, .. }
                && channel_id == msg.channel@
                && data.amount == amount
                && data.denom == entry.port + "/"@ + msg.channel@ + "/"@ + native
                && data.sender == sender
                && data.receiver == msg.remote_address@
                && data.memo == memo_seen
            &&& timeout_fits(env.block_time_nanos, seconds as u64) ==> (r.messages[0].msg matches CosmosMsgView::SendPacket { timeout_nanos, .. }
                && timeout_nanos as int == (env.block_time_nanos as int) + seconds * 1_000_000_000)
            &&& r.messages[1].id == RECEIVE_ID
            &&& r.messages[1].reply_on == ReplyOn::Error
            &&& r.messages[1].gas_limit == entry.gas_limit
            &&& r.messages[1].msg == (CosmosMsgView::Burn { contract_addr: contract, code_hash: entry.code_hash, amount })
            &&& r.attributes == seq![
                ("action"@, "transfer"@),
                ("sender"@, sender),
                ("receiver"@, msg.remote_address@),
                ("denom"@, entry.port + "/"@ + msg.channel@ + "/"@ + native),
                ("amount"@, decimal(amount as nat)),
                ("memo"@, memo_seen),
            ]
        }),
{
}

/// An accepted allowance asks exactly one thing: that the allowed contract
/// (with its own code hash) report its deposits to this contract, named by
/// this contract's code hash; it records the entry under its denomination
/// with the validated contract, the given code hash, gas limit (none
/// included) and port, indexes the contract under the denomination, and
/// leaves every other denomination, the admin and the channels as they were.
pub proof fn lemma_allow_answer(
    s: StateView,
    env: ContractEnv,
    info: MessageInfo,
    allow: AllowMsg,
    contract_check: Result<String, String>,
)
    requires
        allow_outcome(s, env, info, allow, contract_check).1 is Ok,
    ensures
        ({
            let (t, r) = allow_outcome(s, env, info, allow, contract_check);
            let r = r->Ok_0;
            let c = contract_check->Ok_0@;
            &&& contract_check is Ok
            &&& s.admin == Some(info.sender@)
            &&& r.messages.len() == 1
            &&& r.messages[0].id == 0
            &&& r.messages[0].gas_limit == None::<u64>
            &&& r.messages[0].reply_on == ReplyOn::Never
            &&& r.messages[0].msg == (CosmosMsgView::WasmExecute {
                contract_addr: allow.contract@,
                code_hash: allow.code_hash@,
                msg: "{\"register_receive\":{\"code_hash\":\""@ + env.contract_code_hash@ + "\"}}"@,
                funds: Seq::empty(),
            })
            &&& r.attributes == seq![
                ("action"@, "allow"@),
                ("contract"@, allow.contract@),
                ("code_hash"@, allow.code_hash@),
                ("gas_limit"@, decimal(match allow.gas_limit { Some(g) => g as nat, None => 0 })),
            ]
            &&& t.allow_list.contains_key(allow.denom@)
            &&& t.allow_list[allow.denom@] == (AllowInfoView {
                contract: c,
                code_hash: allow.code_hash@,
                gas_limit: allow.gas_limit,
                denom: allow.denom@,
                port: allow.port@,
            })
            &&& t.allow_list_addr_2_denom.contains_key(c)
            &&& t.allow_list_addr_2_denom[c] == allow.denom@
            &&& forall|d: Seq<char>| d != allow.denom@ ==> (#[trigger] t.allow_list.contains_key(d)
                == s.allow_list.contains_key(d) && t.allow_list[d] == s.allow_list[d])
            &&& forall|k: Seq<char>| k != c ==> (#[trigger] t.allow_list_addr_2_denom.contains_key(k)
                == s.allow_list_addr_2_denom.contains_key(k) && t.allow_list_addr_2_denom[k] == s.allow_list_addr_2_denom[k])
            &&& t.admin == s.admin
            &&& t.channel_info == s.channel_info
        }),
{
}

/// The allow list answers for a denomination from its own entry alone:
/// the answer is positive exactly when there is an entry under the
/// denomination, and then gives that entry's contract, gas limit,
/// denomination and port, whatever the contract index holds.
pub proof fn lemma_allowed_answer_from_entry(s: StateView, d: Seq<char>)
    ensures
        allowed_answer(s, d).is_allowed == s.allow_list.contains_key(d),
        s.allow_list.contains_key(d) ==> {
            &&& allowed_answer(s, d).contract == s.allow_list[d].contract
            &&& allowed_answer(s, d).gas_limit == s.allow_list[d].gas_limit
            &&& allowed_answer(s, d).denom == s.allow_list[d].denom
            &&& allowed_answer(s, d).port == s.allow_list[d].port
        },
{
}

/// Allowing a second denomination, even for the same contract, leaves the
/// answer about the first one as it was.
pub proof fn lemma_second_allowance_keeps_first(
    s: StateView,
    env: ContractEnv,
    info: MessageInfo,
    first: AllowMsg,
    first_check: Result<String, String>,
    second: AllowMsg,
    second_check: Result<String, String>,
)
    requires
        allow_outcome(s, env, info, first, first_check).1 is Ok,
        first.denom@ != second.denom@,
    ensures
        ({
            let t = allow_outcome(s, env, info, first, first_check).0;
            let u = allow_outcome(t, env, info, second, second_check).0;
            allowed_answer(u, first.denom@) == allowed_answer(t, first.denom@)
                && allowed_answer(t, first.denom@).is_allowed
                && allowed_answer(t, first.denom@).contract == first_check->Ok_0@
                && allowed_answer(t, first.denom@).gas_limit == first.gas_limit
        }),
{
}

/// After setting up, each token of the initial allow list whose
/// denomination is not listed again later is recorded under its
/// denomination with its validated contract, its code hash, its gas limit
/// (none included) and the port `wasm.<this contract's address>`; and the
/// response asks each listed token, in order, to report its deposits to
/// this contract, named by this contract's code hash.
pub proof fn lemma_instantiate_records_each_token(
    env: ContractEnv,
    msg: InitMsg,
    admin: Seq<char>,
    checks: Seq<Result<String, String>>,
)
    requires
        checks.len() == msg.allowlist@.len(),
        forall|k: int| 0 <= k < checks.len() ==> #[trigger] checks[k] is Ok,
    ensures
        forall|i: int| 0 <= i < msg.allowlist@.len()
            && (forall|j: int| i < j < msg.allowlist@.len() ==> msg.allowlist@[j].denom@ != msg.allowlist@[i].denom@)
            ==> {
                &&& initial_state(env, msg, admin, checks).allow_list.contains_key(#[trigger] msg.allowlist@[i].denom@)
                &&& initial_state(env, msg, admin, checks).allow_list[msg.allowlist@[i].denom@] == (AllowInfoView {
                    contract: checks[i]->Ok_0@,
                    code_hash: msg.allowlist@[i].code_hash@,
                    gas_limit: msg.allowlist@[i].gas_limit,
                    denom: msg.allowlist@[i].denom@,
                    port: "wasm."@ + env.contract_address@,
                })
            },
        instantiate_response(msg.allowlist@, env.contract_code_hash@).messages.len() == msg.allowlist@.len(),
        instantiate_response(msg.allowlist@, env.contract_code_hash@).attributes.len() == 0,
        forall|i: int| 0 <= i < msg.allowlist@.len() ==> #[trigger] instantiate_response(msg.allowlist@, env.contract_code_hash@).messages[i] == (SubMsgView {
            id: 0,
            msg: CosmosMsgView::WasmExecute {
                contract_addr: msg.allowlist@[i].contract@,
                code_hash: msg.allowlist@[i].code_hash@,
                msg: "{\"register_receive\":{\"code_hash\":\""@ + env.contract_code_hash@ + "\"}}"@,
                funds: Seq::empty(),
            },
            gas_limit: None,
            reply_on: ReplyOn::Never,
        }),
{
    let start = StateView {
        admin: Some(admin),
        allow_list: Map::empty(),
        allow_list_addr_2_denom: Map::empty(),
        channel_info: Map::empty(),
    };
    let list = msg.allowlist@;
    let cs = validated(checks);
    assert forall|i: int| 0 <= i < list.len() implies cs[i] == #[trigger] checks[i]->Ok_0@ by {}
    lemma_applied_records(start, list, cs, "wasm."@ + env.contract_address@);
}

proof fn lemma_applied_records(s: StateView, list: Seq<AllowMsg>, contracts: Seq<Seq<char>>, port: Seq<char>)
    requires
        contracts.len() == list.len(),
    ensures
        forall|i: int| 0 <= i < list.len()
            && (forall|j: int| i < j < list.len() ==> list[j].denom@ != list[i].denom@)
            ==> {
                &&& allowlist_applied(s, list, contracts, port).allow_list.contains_key(#[trigger] list[i].denom@)
                &&& allowlist_applied(s, list, contracts, port).allow_list[list[i].denom@] == (AllowInfoView {
                    contract: contracts[i],
                    code_hash: list[i].code_hash@,
                    gas_limit: list[i].gas_limit,
                    denom: list[i].denom@,
                    port,
                })
            },
    decreases list.len(),
{
    if list.len() > 0 {
        let prefix = list.drop_last();
        let cprefix = contracts.drop_last();
        lemma_applied_records(s, prefix, cprefix, port);
        let t = allowlist_applied(s, prefix, cprefix, port);
        let u = allowlist_applied(s, list, contracts, port);
        assert(u == with_allowed(t, list.last(), contracts.last(), port));
        assert forall|i: int| 0 <= i < list.len()
            && (forall|j: int| i < j < list.len() ==> list[j].denom@ != list[i].denom@)
            implies {
                &&& u.allow_list.contains_key(#[trigger] list[i].denom@)
                &&& u.allow_list[list[i].denom@] == (AllowInfoView {
                    contract: contracts[i],
                    code_hash: list[i].code_hash@,
                    gas_limit: list[i].gas_limit,
                    denom: list[i].denom@,
                    port,
                })
            } by {
            if i < list.len() - 1 {
                assert(list[list.len() - 1].denom@ != list[i].denom@);
                assert(prefix[i] == list[i]);
                assert(cprefix[i] == contracts[i]);
                assert forall|j: int| i < j < prefix.len() implies prefix[j].denom@ != prefix[i].denom@ by {
                    assert(prefix[j] == list[j]);
                }
            }
        }
    }
}

} // verus!
