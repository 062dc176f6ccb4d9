use cw20_ics20::contract::address_to_validate;
use cw20_ics20::env::Coin;
use cw20_ics20::error::{nonpayable, PaymentError};
use cw20_ics20::msg::{AllowMsg, ExecuteMsg, ReceiveMsg};
use cw20_ics20::state::IbcOrder;
use cw20_ics20::test_helpers::{mock_channel, CONNECTION_ID, CONTRACT_PORT, REMOTE_PORT};
use cw20_ics20::text::{join_path, register_receive, to_decimal};

#[test]
fn decimal_text_of_amounts() {
    assert_eq!(to_decimal(0), "0");
    assert_eq!(to_decimal(7), "7");
    assert_eq!(to_decimal(10), "10");
    assert_eq!(to_decimal(123456), "123456");
    assert_eq!(to_decimal(20000000000000000000), "20000000000000000000");
    assert_eq!(to_decimal(u128::MAX), u128::MAX.to_string());
}

#[test]
fn register_receive_message_text() {
    assert_eq!(register_receive("abc"), "{\"register_receive\":{\"code_hash\":\"abc\"}}");
}

#[test]
fn path_joins_with_slashes() {
    assert_eq!(join_path("wasm.x", "channel-1", "uscrt"), "wasm.x/channel-1/uscrt");
}

#[test]
fn nonpayable_refuses_funds() {
    assert_eq!(nonpayable(&vec![]), Ok(()));
    let funds = vec![Coin { denom: "ucosm".to_string(), amount: 1 }];
    assert_eq!(nonpayable(&funds), Err(PaymentError::NonPayable {}));
}

#[test]
fn mock_channel_ends() {
    let c = mock_channel("channel-7");
    assert_eq!(c.endpoint.port_id, CONTRACT_PORT);
    assert_eq!(c.endpoint.channel_id, "channel-7");
    assert_eq!(c.counterparty_endpoint.port_id, REMOTE_PORT);
    assert_eq!(c.counterparty_endpoint.channel_id, "channel-75");
    assert_eq!(c.order, IbcOrder::Unordered);
    assert_eq!(c.version, "ics20-1");
    assert_eq!(c.connection_id, CONNECTION_ID);
}

#[test]
fn address_to_validate_per_request() {
    let r = ExecuteMsg::Receive(ReceiveMsg { sender: "s".to_string(), amount: 1, msg: vec![], memo: None });
    assert_eq!(address_to_validate(&r), "s");
    let a = ExecuteMsg::Allow(AllowMsg {
        contract: "c".to_string(),
        code_hash: "h".to_string(),
        gas_limit: None,
        denom: "d".to_string(),
        port: "p".to_string(),
    });
    assert_eq!(address_to_validate(&a), "c");
    let u = ExecuteMsg::UpdateAdmin { admin: "n".to_string() };
    assert_eq!(address_to_validate(&u), "n");
}
