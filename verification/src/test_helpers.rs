//! A channel and a set-up as the contract's tests use them.

use vstd::prelude::*;

pub use crate::contract::DEFAULT_TIMEOUT;
use crate::contract::{allowlist_applied, initial_state, with_allowed, instance_port, instantiate, validated};
use crate::env::{ContractEnv, MessageInfo};
use crate::msg::{AllowMsg, InitMsg};
use crate::state::{AllowInfoView, ChannelInfo, ChannelInfoView, ContractState, IbcChannel, IbcEndpoint, IbcOrder, StateView};

verus! {

pub const CONTRACT_PORT: &'static str = "ibc:wasm1234567890abcdef";

pub const REMOTE_PORT: &'static str = "transfer";

pub const CONNECTION_ID: &'static str = "connection-2";

/// The channel version the ICS-20 protocol speaks.
pub const ICS20_VERSION: &'static str = "ics20-1";

/// ICS-20 channels are unordered.
pub const ICS20_ORDERING: IbcOrder = IbcOrder::Unordered;

/// A channel from this contract's port to the remote transfer port, whose
/// remote id is the local one followed by `5`.
pub fn mock_channel(channel_id: &str) -> (c: IbcChannel)
    ensures
        c.endpoint.port_id@ == CONTRACT_PORT@,
        c.endpoint.channel_id@ == channel_id@,
        c.counterparty_endpoint.port_id@ == REMOTE_PORT@,
        c.counterparty_endpoint.channel_id@ == channel_id@ + "5"@,
        c.order == ICS20_ORDERING,
        c.version@ == ICS20_VERSION@,
        c.connection_id@ == CONNECTION_ID@,
{
    let mut remote_id = String::from_str(channel_id);
    remote_id.append("5");
    IbcChannel {
        endpoint: IbcEndpoint { port_id: String::from_str(CONTRACT_PORT), channel_id: String::from_str(channel_id) },
        counterparty_endpoint: IbcEndpoint { port_id: String::from_str(REMOTE_PORT), channel_id: remote_id },
        order: ICS20_ORDERING,
        version: String::from_str(ICS20_VERSION),
        connection_id: String::from_str(CONNECTION_ID),
    }
}

/// The record of the mock channel with the given id.
pub open spec fn mock_channel_info(channel_id: Seq<char>) -> ChannelInfoView {
    ChannelInfoView {
        id: channel_id,
        counterparty_port_id: REMOTE_PORT@,
        counterparty_channel_id: channel_id + "5"@,
        connection_id: CONNECTION_ID@,
    }
}

/// Opens and connects the mock channel with the given id.
pub fn add_channel(state: &mut ContractState, channel_id: &str)
    requires
        old(state).wf(),
    ensures
        final(state).wf(),
        final(state)@ == (StateView {
            channel_info: old(state)@.channel_info.insert(channel_id@, mock_channel_info(channel_id@)),
            ..old(state)@
        }),
{
    let channel = mock_channel(channel_id);
    let info = ChannelInfo {
        id: channel.endpoint.channel_id,
        counterparty_endpoint: channel.counterparty_endpoint,
        connection_id: channel.connection_id,
    };
    state.save_channel(String::from_str(channel_id), info);
}

/// The channel records after adding the mock channels with the given ids in turn.
pub open spec fn mock_channels(ids: Seq<&str>) -> Map<Seq<char>, ChannelInfoView>
    decreases ids.len(),
{
    if ids.len() == 0 {
        Map::empty()
    } else {
        mock_channels(ids.drop_last()).insert(ids.last()@, mock_channel_info(ids.last()@))
    }
}

/// Sets the contract up with `gov` as admin and one allowed token of
/// denomination `uscrt` (as the tests do; any other number of tokens
/// fails), the addresses taken as valid, and adds the given channels.
pub fn setup(env: &ContractEnv, channels: &[&str], allow: &[(&str, &str, u64)]) -> (s: ContractState)
    requires
        allow@.len() == 1,
    ensures
        s.wf(),
        s@.admin == Some("gov"@),
        s@.allow_list == Map::<Seq<char>, AllowInfoView>::empty().insert(
            "uscrt"@,
            AllowInfoView {
                contract: allow@[0].0@,
                code_hash: allow@[0].1@,
                gas_limit: Some(allow@[0].2),
                denom: "uscrt"@,
                port: instance_port(*env),
            },
        ),
        s@.allow_list_addr_2_denom == Map::<Seq<char>, Seq<char>>::empty().insert(allow@[0].0@, "uscrt"@),
        s@.channel_info == mock_channels(channels@),
{
    let (contract, code_hash, gas) = allow[0];
    let allowed = AllowMsg {
        contract: String::from_str(contract),
        code_hash: String::from_str(code_hash),
        gas_limit: Some(gas),
        denom: String::from_str("uscrt"),
        port: String::from_str("wasm.aaaa"),
    };
    let ghost allowed0 = allowed;
    let checks = vec![Ok(allowed.contract.clone())];
    let mut allowlist = Vec::new();
    allowlist.push(allowed);
    // instantiate an empty contract
    let instantiate_msg = InitMsg { admin: String::from_str("gov"), allowlist };
    let ghost msg = instantiate_msg;
    let ghost cs = checks@;
    let info = MessageInfo { sender: String::from_str("anyone"), funds: Vec::new() };
    let admin = Ok(instantiate_msg.admin.clone());
    let mut state = match instantiate(env, &info, instantiate_msg, admin, checks) {
        Ok((state, _response)) => state,
        Err(_) => {
            proof {
                assert(cs[0] is Ok);
            }
            ContractState::new(None)
        },
    };
    proof {
        let list = msg.allowlist@;
        assert(list.drop_last() =~= Seq::<AllowMsg>::empty());
        assert(validated(cs).drop_last() =~= Seq::<Seq<char>>::empty());
        assert(validated(cs).last() == contract@);
        assert(list.last() == allowed0);
        let start = StateView {
            admin: Some("gov"@),
            allow_list: Map::empty(),
            allow_list_addr_2_denom: Map::empty(),
            channel_info: Map::empty(),
        };
        assert(allowlist_applied(start, list.drop_last(), validated(cs).drop_last(), instance_port(*env)) == start);
        assert(initial_state(*env, msg, "gov"@, cs) == with_allowed(start, allowed0, contract@, instance_port(*env)));
        assert(state@ == initial_state(*env, msg, "gov"@, cs));
        assert(state@.allow_list =~= Map::<Seq<char>, AllowInfoView>::empty().insert(
            "uscrt"@,
            AllowInfoView {
                contract: contract@,
                code_hash: code_hash@,
                gas_limit: Some(gas),
                denom: "uscrt"@,
                port: instance_port(*env),
            },
        ));
        assert(state@.allow_list_addr_2_denom =~= Map::<Seq<char>, Seq<char>>::empty().insert(contract@, "uscrt"@));
        assert(state@.channel_info =~= Map::<Seq<char>, ChannelInfoView>::empty());
        assert(channels@.take(0) =~= Seq::<&str>::empty());
    }
    let ghost after_init = state@;
    let n = channels.len();
    let mut i: usize = 0;
    while i < n
        invariant
            n == channels@.len(),
            i <= n,
            state.wf(),
            state@.admin == after_init.admin,
            state@.allow_list == after_init.allow_list,
            state@.allow_list_addr_2_denom == after_init.allow_list_addr_2_denom,
            state@.channel_info == mock_channels(channels@.take(i as int)),
        decreases n - i,
    {
        add_channel(&mut state, channels[i]);
        proof {
            assert(channels@.take(i + 1).drop_last() =~= channels@.take(i as int));
        }
        i = i + 1;
    }
    proof {
        assert(channels@.take(n as int) =~= channels@);
    }
    state
}

} // verus!
