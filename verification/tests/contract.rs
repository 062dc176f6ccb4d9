use cw20_ics20::contract::{
    execute, execute_allow, execute_transfer, execute_update_admin, instantiate, query, query_allowed,
    DEFAULT_TIMEOUT, RECEIVE_ID,
};
use cw20_ics20::env::{Coin, ContractEnv, MessageInfo};
use cw20_ics20::error::{AdminError, ContractError, PaymentError};
use cw20_ics20::msg::{AllowMsg, ExecuteMsg, InitMsg, QueryAnswer, QueryMsg, ReceiveMsg, TransferMsg};
use cw20_ics20::response::{CosmosMsg, ReplyOn};
use cw20_ics20::state::ContractState;
use cw20_ics20::test_helpers::{add_channel, setup};

const MOCK_BLOCK_NANOS: u64 = 1_571_797_419_879_305_533;

fn mock_env() -> ContractEnv {
    ContractEnv {
        block_time_nanos: MOCK_BLOCK_NANOS,
        contract_address: "cosmos2contract".to_string(),
        contract_code_hash: "contract-code-hash".to_string(),
    }
}

fn mock_info(sender: &str, funds: &[Coin]) -> MessageInfo {
    MessageInfo { sender: sender.to_string(), funds: funds.to_vec() }
}

fn coins(amount: u128, denom: &str) -> Vec<Coin> {
    vec![Coin { denom: denom.to_string(), amount }]
}

fn transfer_json(t: &TransferMsg) -> Vec<u8> {
    match t.timeout {
        Some(timeout) => format!(
            "{{\"channel\":\"{}\",\"remote_address\":\"{}\",\"timeout\":{}}}",
            t.channel, t.remote_address, timeout
        ),
        None => format!("{{\"channel\":\"{}\",\"remote_address\":\"{}\"}}", t.channel, t.remote_address),
    }
    .into_bytes()
}

fn allow_msg(contract: &str, denom: &str, gas_limit: Option<u64>) -> AllowMsg {
    AllowMsg {
        contract: contract.to_string(),
        code_hash: format!("{}-hash", contract),
        gas_limit,
        denom: denom.to_string(),
        port: "wasm.port".to_string(),
    }
}

#[test]
fn test_sorage() {
    let send_channel = "channel-15";
    let cw20_addr = "my-token";
    let cw20_hash = "my-token-hash";
    let _deps = setup(&mock_env(), &["channel-3", send_channel], &[(cw20_addr, cw20_hash, 123456)]);
}

#[test]
fn proper_checks_on_execute_cw20() {
    let send_channel = "channel-15";
    let cw20_addr = "my-token";
    let cw20_hash = "my-token-hash";
    let mut deps = setup(&mock_env(), &["channel-3", send_channel], &[(cw20_addr, cw20_hash, 123456)]);

    let transfer = TransferMsg {
        channel: send_channel.to_string(),
        remote_address: "foreign-address".to_string(),
        timeout: Some(7777),
    };
    let msg = ExecuteMsg::Receive(ReceiveMsg {
        sender: "my-account".into(),
        amount: 20000000000000000000,
        msg: transfer_json(&transfer),
        memo: None,
    });

    // works with proper funds
    let info = mock_info(cw20_addr, &[]);
    let res = execute(&mut deps, &mock_env(), &info, msg.clone(), Ok("my-account".to_string()), Ok(transfer.clone()))
        .unwrap();
    assert_eq!(2, res.messages.len());
    assert_eq!(res.messages[0].gas_limit, None);
    if let CosmosMsg::SendPacket { channel_id, data, timeout_nanos } = &res.messages[0].msg {
        let expected_timeout = MOCK_BLOCK_NANOS + 7777 * 1_000_000_000;
        assert_eq!(*timeout_nanos, expected_timeout);
        assert_eq!(channel_id.as_str(), send_channel);
        let msg = data;
        assert_eq!(msg.amount, 20000000000000000000);
        assert_eq!(msg.denom, "wasm.cosmos2contract/channel-15/uscrt");
        assert_eq!(msg.sender.as_str(), "my-account");
        assert_eq!(msg.receiver.as_str(), "foreign-address");
    } else {
        panic!("Unexpected return message: {:?}", res.messages[0]);
    }

    // reject with tokens funds
    let info = mock_info("foobar", &coins(1234567, "ucosm"));
    let err = execute(&mut deps, &mock_env(), &info, msg, Ok("my-account".to_string()), Ok(transfer)).unwrap_err();
    assert_eq!(err, ContractError::Payment(PaymentError::NonPayable {}));
}

#[test]
fn transfer_burns_the_deposit_and_reports_attributes() {
    let mut deps = setup(&mock_env(), &["channel-15"], &[("my-token", "my-token-hash", 123456)]);
    let transfer = TransferMsg { channel: "channel-15".to_string(), remote_address: "remote".to_string(), timeout: Some(10) };
    let res = execute_transfer(
        &deps,
        &mock_env(),
        transfer,
        250,
        Some("hello".to_string()),
        "alice".to_string(),
        "my-token".to_string(),
    )
    .unwrap();
    assert_eq!(res.messages[1].id, RECEIVE_ID);
    assert_eq!(res.messages[1].reply_on, ReplyOn::Error);
    assert_eq!(res.messages[1].gas_limit, Some(123456));
    assert_eq!(
        res.messages[1].msg,
        CosmosMsg::Burn { contract_addr: "my-token".to_string(), code_hash: "my-token-hash".to_string(), amount: 250 }
    );
    if let CosmosMsg::SendPacket { data, timeout_nanos, .. } = &res.messages[0].msg {
        assert_eq!(data.memo, "hello");
        assert_eq!(*timeout_nanos, MOCK_BLOCK_NANOS + 10_000_000_000);
    } else {
        panic!("Unexpected return message: {:?}", res.messages[0]);
    }
    let attrs: Vec<(String, String)> = res.attributes.iter().map(|a| (a.key.clone(), a.value.clone())).collect();
    let expected: Vec<(String, String)> = vec![
        ("action", "transfer"),
        ("sender", "alice"),
        ("receiver", "remote"),
        ("denom", "wasm.cosmos2contract/channel-15/uscrt"),
        ("amount", "250"),
        ("memo", "hello"),
    ]
    .into_iter()
    .map(|(k, v)| (k.to_string(), v.to_string()))
    .collect();
    assert_eq!(attrs, expected);
    // a transfer never changes the state
    add_channel(&mut deps, "channel-16");
    assert!(query_allowed(&deps, "uscrt".to_string()).is_allowed);
}

#[test]
fn transfer_refuses_zero_and_unknown_channel() {
    let deps = setup(&mock_env(), &["channel-15"], &[("my-token", "my-token-hash", 1)]);
    let t = |c: &str| TransferMsg { channel: c.to_string(), remote_address: "r".to_string(), timeout: Some(1) };
    let err = execute_transfer(&deps, &mock_env(), t("channel-15"), 0, None, "a".into(), "my-token".into()).unwrap_err();
    assert_eq!(err, ContractError::NoFunds {});
    let err = execute_transfer(&deps, &mock_env(), t("channel-99"), 5, None, "a".into(), "my-token".into()).unwrap_err();
    assert_eq!(err, ContractError::NoSuchChannel { id: "channel-99".to_string() });
}

#[test]
fn receive_reports_parse_and_address_errors() {
    let mut deps = setup(&mock_env(), &["channel-15"], &[("my-token", "my-token-hash", 1)]);
    let wrapper = ReceiveMsg { sender: "x".to_string(), amount: 5, msg: b"not json".to_vec(), memo: None };
    let info = mock_info("my-token", &[]);
    let t = TransferMsg { channel: "channel-15".to_string(), remote_address: "r".to_string(), timeout: Some(1) };
    let err = execute(
        &mut deps,
        &mock_env(),
        &info,
        ExecuteMsg::Receive(wrapper.clone()),
        Ok("x".to_string()),
        Err("parse error".to_string()),
    )
    .unwrap_err();
    assert_eq!(err, ContractError::Std("parse error".to_string()));
    let err = execute(
        &mut deps,
        &mock_env(),
        &info,
        ExecuteMsg::Receive(wrapper),
        Err("bad address".to_string()),
        Ok(t),
    )
    .unwrap_err();
    assert_eq!(err, ContractError::Std("bad address".to_string()));
}

#[test]
fn instantiate_registers_each_allowed_token() {
    let msg = InitMsg {
        admin: "gov".to_string(),
        allowlist: vec![allow_msg("token-a", "ua", Some(5)), allow_msg("token-b", "ub", None)],
    };
    let (state, res) = instantiate(
        &mock_env(),
        &mock_info("anyone", &[]),
        msg,
        Ok("gov".to_string()),
        vec![Ok("token-a".to_string()), Ok("token-b".to_string())],
    )
    .unwrap();
    assert_eq!(res.messages.len(), 2);
    assert_eq!(
        res.messages[1].msg,
        CosmosMsg::WasmExecute {
            contract_addr: "token-b".to_string(),
            code_hash: "token-b-hash".to_string(),
            msg: "{\"register_receive\":{\"code_hash\":\"contract-code-hash\"}}".to_string(),
            funds: vec![],
        }
    );
    let a = query_allowed(&state, "ua".to_string());
    assert!(a.is_allowed);
    assert_eq!(a.contract, "token-a");
    assert_eq!(a.port, "wasm.cosmos2contract");
    assert_eq!(a.gas_limit, Some(5));
    let none = query_allowed(&state, "uc".to_string());
    assert!(!none.is_allowed);
    assert_eq!(none.contract, "");
    assert_eq!(query(&state, QueryMsg::Admin {}), QueryAnswer::Admin(cw20_ics20::msg::AdminResponse { admin: Some("gov".to_string()) }));
}

#[test]
fn instantiate_reports_first_invalid_address() {
    let msg = InitMsg {
        admin: "gov".to_string(),
        allowlist: vec![allow_msg("a", "ua", None), allow_msg("b", "ub", None), allow_msg("c", "uc", None)],
    };
    let err = instantiate(
        &mock_env(),
        &mock_info("anyone", &[]),
        msg.clone(),
        Ok("gov".to_string()),
        vec![Ok("a".to_string()), Err("second".to_string()), Err("third".to_string())],
    )
    .unwrap_err();
    assert_eq!(err, ContractError::Std("second".to_string()));
    let err = instantiate(
        &mock_env(),
        &mock_info("anyone", &[]),
        msg,
        Err("admin".to_string()),
        vec![Err("first".to_string()), Ok("b".to_string()), Ok("c".to_string())],
    )
    .unwrap_err();
    assert_eq!(err, ContractError::Std("admin".to_string()));
}

fn fresh() -> ContractState {
    let (state, _) = instantiate(
        &mock_env(),
        &mock_info("anyone", &[]),
        InitMsg { admin: "gov".to_string(), allowlist: vec![] },
        Ok("gov".to_string()),
        vec![],
    )
    .unwrap();
    state
}

#[test]
fn allow_then_query_gives_what_was_allowed() {
    let mut state = fresh();
    let allow = allow_msg("token", "utok", Some(100));
    let res = execute_allow(&mut state, &mock_env(), &mock_info("gov", &[]), allow, Ok("token".to_string())).unwrap();
    let attrs: Vec<(String, String)> = res.attributes.iter().map(|a| (a.key.clone(), a.value.clone())).collect();
    assert_eq!(attrs[3], ("gas_limit".to_string(), "100".to_string()));
    let a = query_allowed(&state, "utok".to_string());
    assert!(a.is_allowed);
    assert_eq!(a.contract, "token");
    assert_eq!(a.gas_limit, Some(100));
    assert_eq!(a.denom, "utok");
    assert_eq!(a.port, "wasm.port");
    // the token can now be sent
    add_channel(&mut state, "channel-1");
    let t = TransferMsg { channel: "channel-1".to_string(), remote_address: "r".to_string(), timeout: Some(1) };
    let res = execute_transfer(&state, &mock_env(), t, 9, None, "me".into(), "token".into()).unwrap();
    if let CosmosMsg::SendPacket { data, .. } = &res.messages[0].msg {
        assert_eq!(data.denom, "wasm.port/channel-1/utok");
    } else {
        panic!("Unexpected return message: {:?}", res.messages[0]);
    }
}

#[test]
fn allow_by_non_admin_is_refused_and_changes_nothing() {
    let mut state = fresh();
    let err = execute_allow(
        &mut state,
        &mock_env(),
        &mock_info("mallory", &[]),
        allow_msg("token", "utok", None),
        Ok("token".to_string()),
    )
    .unwrap_err();
    assert_eq!(err, ContractError::Admin(AdminError::NotAdmin {}));
    assert!(!query_allowed(&state, "utok".to_string()).is_allowed);
}

#[test]
fn allow_cannot_lower_gas_limit() {
    let mut state = fresh();
    let gov = mock_info("gov", &[]);
    execute_allow(&mut state, &mock_env(), &gov, allow_msg("t", "u", Some(100)), Ok("t".to_string())).unwrap();
    let err = execute_allow(&mut state, &mock_env(), &gov, allow_msg("t", "u", Some(99)), Ok("t".to_string())).unwrap_err();
    assert_eq!(err, ContractError::CannotLowerGas {});
    assert_eq!(query_allowed(&state, "u".to_string()).gas_limit, Some(100));
    // raising it, or lifting it, is accepted
    execute_allow(&mut state, &mock_env(), &gov, allow_msg("t", "u", Some(150)), Ok("t".to_string())).unwrap();
    execute_allow(&mut state, &mock_env(), &gov, allow_msg("t", "u", None), Ok("t".to_string())).unwrap();
    let err = execute_allow(&mut state, &mock_env(), &gov, allow_msg("t", "u", Some(1)), Ok("t".to_string())).unwrap_err();
    assert_eq!(err, ContractError::CannotLowerGas {});
    assert_eq!(query_allowed(&state, "u".to_string()).gas_limit, None);
}

#[test]
fn allow_with_invalid_contract_is_refused() {
    let mut state = fresh();
    let err = execute_allow(
        &mut state,
        &mock_env(),
        &mock_info("gov", &[]),
        allow_msg("BAD", "u", None),
        Err("invalid address".to_string()),
    )
    .unwrap_err();
    assert_eq!(err, ContractError::Std("invalid address".to_string()));
    assert!(!query_allowed(&state, "u".to_string()).is_allowed);
}

#[test]
fn update_admin_hands_over_control() {
    let mut state = fresh();
    let res = execute_update_admin(&mut state, &mock_info("gov", &[]), Ok("council".to_string())).unwrap();
    let attrs: Vec<(String, String)> = res.attributes.iter().map(|a| (a.key.clone(), a.value.clone())).collect();
    assert_eq!(
        attrs,
        vec![
            ("action".to_string(), "update_admin".to_string()),
            ("admin".to_string(), "council".to_string()),
            ("sender".to_string(), "gov".to_string()),
        ]
    );
    assert_eq!(
        query(&state, QueryMsg::Admin {}),
        QueryAnswer::Admin(cw20_ics20::msg::AdminResponse { admin: Some("council".to_string()) })
    );
    let err = execute_update_admin(&mut state, &mock_info("gov", &[]), Ok("gov".to_string())).unwrap_err();
    assert_eq!(err, ContractError::Admin(AdminError::NotAdmin {}));
    // the address is validated before the admin is checked
    let err = execute_update_admin(&mut state, &mock_info("gov", &[]), Err("bad".to_string())).unwrap_err();
    assert_eq!(err, ContractError::Std("bad".to_string()));
    let err = execute_allow(&mut state, &mock_env(), &mock_info("gov", &[]), allow_msg("t", "u", None), Ok("t".to_string()))
        .unwrap_err();
    assert_eq!(err, ContractError::Admin(AdminError::NotAdmin {}));
}

#[test]
fn reallowing_a_denomination_keeps_earlier_contract_consistent() {
    let mut state = fresh();
    let gov = mock_info("gov", &[]);
    execute_allow(&mut state, &mock_env(), &gov, allow_msg("t1", "u", Some(1)), Ok("t1".to_string())).unwrap();
    execute_allow(&mut state, &mock_env(), &gov, allow_msg("t2", "u", Some(2)), Ok("t2".to_string())).unwrap();
    assert_eq!(query_allowed(&state, "u".to_string()).contract, "t2");
    assert_eq!(query_allowed(&state, "u".to_string()).denom, "u");
    add_channel(&mut state, "channel-1");
    // the first contract is still known under the denomination, which is allowed
    let t = TransferMsg { channel: "channel-1".to_string(), remote_address: "r".to_string(), timeout: Some(1) };
    let res = execute_transfer(&state, &mock_env(), t, 3, None, "me".into(), "t1".into()).unwrap();
    assert_eq!(
        res.messages[1].msg,
        CosmosMsg::Burn { contract_addr: "t1".to_string(), code_hash: "t2-hash".to_string(), amount: 3 }
    );
    assert_eq!(res.messages[1].gas_limit, Some(2));
}

#[test]
fn refused_admin_change_keeps_admin() {
    let mut state = fresh();
    let err = execute_update_admin(&mut state, &mock_info("mallory", &[]), Ok("mallory".to_string())).unwrap_err();
    assert_eq!(err, ContractError::Admin(AdminError::NotAdmin {}));
    assert_eq!(
        query(&state, QueryMsg::Admin {}),
        QueryAnswer::Admin(cw20_ics20::msg::AdminResponse { admin: Some("gov".to_string()) })
    );
}

#[test]
fn transfer_without_timeout_uses_default() {
    let deps = setup(&mock_env(), &["channel-15"], &[("my-token", "my-token-hash", 1)]);
    let t = TransferMsg { channel: "channel-15".to_string(), remote_address: "r".to_string(), timeout: None };
    assert_eq!(transfer_json(&t), b"{\"channel\":\"channel-15\",\"remote_address\":\"r\"}".to_vec());
    let res = execute_transfer(&deps, &mock_env(), t, 4, None, "me".into(), "my-token".into()).unwrap();
    if let CosmosMsg::SendPacket { timeout_nanos, .. } = &res.messages[0].msg {
        assert_eq!(*timeout_nanos, MOCK_BLOCK_NANOS + DEFAULT_TIMEOUT * 1_000_000_000);
        assert_eq!(*timeout_nanos, MOCK_BLOCK_NANOS + 3600 * 1_000_000_000);
    } else {
        panic!("Unexpected return message: {:?}", res.messages[0]);
    }
}
