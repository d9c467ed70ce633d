use ethgate::error::{Error, JsonRpcError};
use ethgate::events::Address;
use ethgate::json::JsonValue;
use ethgate::networks::{Network, Networks};
use ethgate::rpc::{apply_approval_policy, passthrough_reply, provider_to_jsonrpc_error,
    sign_reply, signer_build_reply, HandleOutcome, Handler, LocalMethod, ProviderFailure,
    Request};
use ethgate::send_transaction::{ApprovalDecision, FinishAction, SendTransaction, TxState};
use ethgate::state::AppState;
use ethgate::u256::U256;
use ethgate::wallets::{Wallet, Wallets};

const ADDR: &str = "0x00a329c0648769a73afac7f9381e08fb43dbea72";

fn make_state(network_dev: bool, wallet_dev: bool) -> AppState {
    let networks = Networks::new(
        vec![
            Network { chain_id: 1, name: "mainnet".to_string(), dev: false },
            Network { chain_id: 31337, name: "anvil".to_string(), dev: network_dev },
        ],
        31337,
    )
    .unwrap();
    let wallets = Wallets::new(
        vec![Wallet {
            name: "dev".to_string(),
            dev: wallet_dev,
            address: Address::from_str(ADDR).unwrap(),
        }],
        0,
    )
    .unwrap();
    AppState::new(networks, wallets)
}

fn switch_params(id_text: &str) -> JsonValue {
    JsonValue::Array(vec![JsonValue::Object(vec![(
        "chainId".to_string(),
        JsonValue::Text(id_text.to_string()),
    )])])
}

#[test]
fn routing_table_matches_the_method_names() {
    let handler = Handler::default();
    let route = |name: &str| handler.route(&name.to_string());
    assert_eq!(route("eth_accounts"), Some(LocalMethod::Accounts));
    assert_eq!(route("eth_requestAccounts"), Some(LocalMethod::Accounts));
    assert_eq!(route("eth_chainId"), Some(LocalMethod::ChainId));
    assert_eq!(route("metamask_getProviderState"), Some(LocalMethod::ProviderState));
    assert_eq!(route("wallet_switchEthereumChain"), Some(LocalMethod::SwitchChain));
    assert_eq!(route("eth_sendTransaction"), Some(LocalMethod::SendTransaction));
    assert_eq!(route("eth_sign"), Some(LocalMethod::Sign));
    assert_eq!(route("personal_sign"), Some(LocalMethod::Sign));
    assert_eq!(route("eth_signTypedData"), Some(LocalMethod::SignTypedData));
    assert_eq!(route("eth_signTypedData_v4"), Some(LocalMethod::SignTypedData));
    assert_eq!(route("eth_blockNumber"), None);
    assert_eq!(route("eth_call"), None);
}

#[test]
fn unknown_method_passes_params_through_unchanged() {
    let handler = Handler::default();
    let mut state = make_state(false, false);
    let params = JsonValue::Array(vec![JsonValue::Text("latest".to_string())]);
    let expected = JsonValue::Array(vec![JsonValue::Text("latest".to_string())]);
    let out = handler.handle(
        &mut state,
        Request { method: "eth_getBlockByNumber".to_string(), params },
    );
    match out {
        HandleOutcome::Passthrough { method, params } => {
            assert_eq!(method, "eth_getBlockByNumber");
            assert_eq!(params, expected);
        }
        other => panic!("expected a passthrough, got {:?}", other),
    }
}

#[test]
fn upstream_error_passes_through_unchanged() {
    let reply = passthrough_reply(Err(ProviderFailure::ErrorResponse {
        code: -32000,
        message: "execution reverted".to_string(),
        data: Some(JsonValue::Text("0x08c379a0".to_string())),
    }));
    let e = reply.unwrap_err();
    assert_eq!(e.code, -32000);
    assert_eq!(e.message, "execution reverted");
    assert_eq!(e.data, Some(JsonValue::Text("0x08c379a0".to_string())));
}

#[test]
fn upstream_result_passes_through_unchanged() {
    let reply = passthrough_reply(Ok(JsonValue::Text("0x10d4f".to_string())));
    assert_eq!(reply.unwrap(), JsonValue::Text("0x10d4f".to_string()));
}

#[test]
fn malformed_upstream_reply_maps_to_invalid_request() {
    let e = provider_to_jsonrpc_error(ProviderFailure::MalformedReply);
    assert_eq!(e.code, -32600);
    assert_eq!(e.message, "Invalid request");
    let e = provider_to_jsonrpc_error(ProviderFailure::Other);
    assert_eq!(e.code, -32603);
    assert_eq!(e.message, "Internal error");
}

#[test]
fn accounts_lists_the_current_wallet_address() {
    let state = make_state(false, false);
    let r = Handler::accounts(&state);
    assert_eq!(r, JsonValue::Array(vec![JsonValue::Text(ADDR.to_string())]));
}

#[test]
fn chain_id_is_the_current_network_in_hex() {
    let state = make_state(false, false);
    let r = Handler::chain_id(&state);
    assert_eq!(r, JsonValue::Text("0x7a69".to_string()));
}

#[test]
fn provider_state_reports_the_current_selections() {
    let state = make_state(false, false);
    let r = Handler::provider_state(&state);
    let expected = JsonValue::Object(vec![
        ("isUnlocked".to_string(), JsonValue::Bool(true)),
        ("chainId".to_string(), JsonValue::Text("0x7a69".to_string())),
        ("networkVersion".to_string(), JsonValue::Text("anvil".to_string())),
        (
            "accounts".to_string(),
            JsonValue::Array(vec![JsonValue::Text(ADDR.to_string())]),
        ),
    ]);
    assert_eq!(r, expected);
}

#[test]
fn switch_chain_with_configured_id_swaps_current() {
    let mut state = make_state(false, false);
    let params = switch_params("0x1");
    let r = Handler::switch_chain(&mut state, &params);
    assert_eq!(r.unwrap(), JsonValue::Null);
    assert_eq!(state.networks.current, 1);
}

#[test]
fn switch_chain_with_unconfigured_id_changes_nothing() {
    let mut state = make_state(false, false);
    let params = switch_params("0x999");
    let r = Handler::switch_chain(&mut state, &params);
    let e = r.unwrap_err();
    assert_eq!(e.code, -32602);
    assert_eq!(e.message, "network not found");
    assert_eq!(state.networks.current, 31337);
}

#[test]
fn switch_chain_with_malformed_request_changes_nothing() {
    let mut state = make_state(false, false);
    for params in [
        JsonValue::Null,
        JsonValue::Array(vec![]),
        JsonValue::Array(vec![JsonValue::Object(vec![])]),
        switch_params("999"),
        switch_params("0xzz"),
    ] {
        let r = Handler::switch_chain(&mut state, &params);
        let e = r.unwrap_err();
        assert_eq!(e.code, -32602);
        assert_eq!(e.message, "invalid chain id");
        assert_eq!(state.networks.current, 31337);
    }
}

fn tx_params() -> JsonValue {
    JsonValue::Object(vec![
        ("to".to_string(), JsonValue::Text(ADDR.to_string())),
        ("value".to_string(), JsonValue::Text("0xde0b6b3a7640000".to_string())),
    ])
}

fn sent_hash() -> ethgate::events::H256 {
    ethgate::events::H256::from_str(
        "0x88df016429689c079f3b2f6ad39fa052532c56795b733da78a91ebe6a713944b",
    )
    .unwrap()
}

#[test]
fn dev_network_and_wallet_skip_the_approval_dialog() {
    let state = make_state(true, true);
    let mut tx = Handler::send_transaction(&state, tx_params());
    assert!(matches!(tx.state, TxState::ChainBound));
    assert_eq!(tx.chain_id, Some(31337));
    tx.set_signer();
    tx.estimate_gas(Ok(U256::from_dec_str("21000").unwrap()));
    apply_approval_policy(&mut tx, &state);
    assert!(matches!(tx.state, TxState::DialogSkipped));
    let action = tx.finish_begin();
    assert_eq!(action, FinishAction::SignAndBroadcast);
    tx.record_send_result(Ok(sent_hash()));
    let r = tx.response_value();
    assert_eq!(
        r,
        JsonValue::Text(
            "0x88df016429689c079f3b2f6ad39fa052532c56795b733da78a91ebe6a713944b".to_string()
        )
    );
}

#[test]
fn non_dev_context_requests_approval_exactly_once() {
    let state = make_state(true, false);
    let mut tx = Handler::send_transaction(&state, tx_params());
    tx.set_signer();
    tx.estimate_gas(Ok(U256::from_dec_str("21000").unwrap()));
    apply_approval_policy(&mut tx, &state);
    assert!(matches!(tx.state, TxState::GasEstimated));
    let action = tx.finish_begin();
    assert_eq!(action, FinishAction::RequestApproval);
    assert!(matches!(tx.state, TxState::AwaitingApproval));
    assert_eq!(*tx.approval_payload(), tx_params());
}

#[test]
fn rejection_yields_an_error_result_without_broadcast() {
    let state = make_state(false, false);
    let mut tx = Handler::send_transaction(&state, tx_params());
    tx.set_signer();
    tx.estimate_gas(Ok(U256::from_dec_str("21000").unwrap()));
    apply_approval_policy(&mut tx, &state);
    let action = tx.finish_begin();
    assert_eq!(action, FinishAction::RequestApproval);
    tx.resolve_approval(ApprovalDecision::Rejected);
    assert!(matches!(tx.state, TxState::Error));
    assert_eq!(tx.response_value(), JsonValue::Text("transaction rejected".to_string()));
}

#[test]
fn a_dropped_approval_channel_is_a_terminal_error() {
    let state = make_state(false, false);
    let mut tx = Handler::send_transaction(&state, tx_params());
    tx.set_signer();
    tx.estimate_gas(Err("node unreachable".to_string()));
    assert!(tx.gas_error.is_some());
    apply_approval_policy(&mut tx, &state);
    tx.finish_begin();
    tx.resolve_approval(ApprovalDecision::ChannelClosed);
    assert!(matches!(tx.state, TxState::Error));
    assert_eq!(
        tx.response_value(),
        JsonValue::Text("approval channel closed".to_string())
    );
}

#[test]
fn gas_estimate_failure_degrades_but_does_not_abort() {
    let state = make_state(true, true);
    let mut tx = Handler::send_transaction(&state, tx_params());
    tx.set_signer();
    tx.estimate_gas(Err("estimation reverted".to_string()));
    assert!(matches!(tx.state, TxState::GasEstimated));
    assert_eq!(tx.gas_estimate, None);
    apply_approval_policy(&mut tx, &state);
    assert_eq!(tx.finish_begin(), FinishAction::SignAndBroadcast);
    tx.record_send_result(Err("insufficient funds".to_string()));
    assert_eq!(tx.response_value(), JsonValue::Text("insufficient funds".to_string()));
}

#[test]
fn approved_transaction_signs_and_reports_its_hash() {
    let state = make_state(false, false);
    let mut tx = Handler::send_transaction(&state, tx_params());
    tx.set_signer();
    tx.estimate_gas(Ok(U256::from_dec_str("21000").unwrap()));
    apply_approval_policy(&mut tx, &state);
    assert_eq!(tx.finish_begin(), FinishAction::RequestApproval);
    tx.resolve_approval(ApprovalDecision::Approved);
    assert!(matches!(tx.state, TxState::Signing));
    tx.record_send_result(Ok(sent_hash()));
    assert!(matches!(tx.state, TxState::Done));
}

#[test]
fn sign_failure_surfaces_as_a_successful_string_result() {
    let r = sign_reply(Err("signer unavailable".to_string()));
    assert_eq!(r.unwrap(), JsonValue::Text("signer unavailable".to_string()));
}

#[test]
fn sign_success_is_prefixed_hex() {
    let r = sign_reply(Ok(vec![0x12, 0x34, 0xab]));
    assert_eq!(r.unwrap(), JsonValue::Text("0x1234ab".to_string()));
}

#[test]
fn signer_build_failure_is_a_protocol_error() {
    let r = signer_build_reply("wallet locked".to_string());
    let e = r.unwrap_err();
    assert_eq!(e.code, -32603);
    assert_eq!(e.message, "wallet locked");
}

#[test]
fn eth_sign_parses_message_and_address() {
    let state = make_state(false, false);
    let params = JsonValue::Array(vec![
        JsonValue::Text("0xdeadbeef".to_string()),
        JsonValue::Text(ADDR.to_string()),
    ]);
    let task = Handler::eth_sign(&state, &params).unwrap();
    assert_eq!(task.message.bytes, vec![0xde, 0xad, 0xbe, 0xef]);
    assert_eq!(task.address.bytes.len(), 20);
    assert_eq!(task.chain_id, 31337);
}

#[test]
fn eth_sign_rejects_malformed_params() {
    let state = make_state(false, false);
    for params in [
        JsonValue::Null,
        JsonValue::Array(vec![JsonValue::Text("0xdeadbeef".to_string())]),
        JsonValue::Array(vec![
            JsonValue::Text("0xabc".to_string()),
            JsonValue::Text(ADDR.to_string()),
        ]),
        JsonValue::Array(vec![
            JsonValue::Text("0xdeadbeef".to_string()),
            JsonValue::Text("0x123".to_string()),
        ]),
    ] {
        let e = Handler::eth_sign(&state, &params).unwrap_err();
        assert_eq!(e.code, -32602);
    }
}

#[test]
fn typed_data_task_keeps_the_json_text() {
    let state = make_state(false, false);
    let data = "{\"types\":{},\"primaryType\":\"Mail\"}";
    let params = JsonValue::Array(vec![
        JsonValue::Text(ADDR.to_string()),
        JsonValue::Text(data.to_string()),
    ]);
    let task = Handler::eth_sign_typed_data_v4(&state, &params).unwrap();
    assert_eq!(task.typed_data, data);
    assert_eq!(task.chain_id, 31337);
    let bad = JsonValue::Array(vec![
        JsonValue::Text("0xnot".to_string()),
        JsonValue::Text(data.to_string()),
    ]);
    assert!(Handler::eth_sign_typed_data_v4(&state, &bad).is_err());
}

#[test]
fn handle_drives_local_methods_through_the_table() {
    let handler = Handler::default();
    let mut state = make_state(false, false);
    let out = handler.handle(
        &mut state,
        Request { method: "eth_chainId".to_string(), params: JsonValue::Null },
    );
    match out {
        HandleOutcome::Reply(r) => {
            assert_eq!(r.unwrap(), JsonValue::Text("0x7a69".to_string()))
        }
        other => panic!("expected a reply, got {:?}", other),
    }
    let out = handler.handle(
        &mut state,
        Request {
            method: "wallet_switchEthereumChain".to_string(),
            params: switch_params("0x1"),
        },
    );
    match out {
        HandleOutcome::Reply(r) => assert_eq!(r.unwrap(), JsonValue::Null),
        other => panic!("expected a reply, got {:?}", other),
    }
    assert_eq!(state.networks.current, 1);
    let out = handler.handle(
        &mut state,
        Request { method: "eth_sendTransaction".to_string(), params: tx_params() },
    );
    assert!(matches!(out, HandleOutcome::SendTx(_)));
}

#[test]
fn handle_turns_sign_requests_into_tasks() {
    let handler = Handler::default();
    let mut state = make_state(false, false);
    let out = handler.handle(
        &mut state,
        Request {
            method: "personal_sign".to_string(),
            params: JsonValue::Array(vec![
                JsonValue::Text("0xdeadbeef".to_string()),
                JsonValue::Text(ADDR.to_string()),
            ]),
        },
    );
    match out {
        HandleOutcome::Sign(task) => assert_eq!(task.chain_id, 31337),
        other => panic!("expected a sign task, got {:?}", other),
    }
    let out = handler.handle(
        &mut state,
        Request {
            method: "eth_requestAccounts".to_string(),
            params: JsonValue::Null,
        },
    );
    match out {
        HandleOutcome::Reply(r) => assert_eq!(
            r.unwrap(),
            JsonValue::Array(vec![JsonValue::Text(ADDR.to_string())])
        ),
        other => panic!("expected a reply, got {:?}", other),
    }
}

#[test]
fn networks_registry_rejects_duplicates_and_unknown_current() {
    let dup = Networks::new(
        vec![
            Network { chain_id: 1, name: "a".to_string(), dev: false },
            Network { chain_id: 1, name: "b".to_string(), dev: false },
        ],
        1,
    );
    assert!(dup.is_none());
    let missing = Networks::new(
        vec![Network { chain_id: 1, name: "a".to_string(), dev: false }],
        2,
    );
    assert!(missing.is_none());
}

#[test]
fn network_registry_swap_is_atomic_and_total() {
    let mut networks = Networks::new(
        vec![
            Network { chain_id: 1, name: "a".to_string(), dev: false },
            Network { chain_id: 5, name: "b".to_string(), dev: false },
        ],
        1,
    )
    .unwrap();
    assert_eq!(networks.get_current_network().chain_id, 1);
    assert!(networks.set_current_network_by_id(5).is_ok());
    assert_eq!(networks.get_current_network().chain_id, 5);
    let err = networks.set_current_network_by_id(9).unwrap_err();
    assert!(matches!(err, Error::NetworkNotFound(9)));
    assert_eq!(networks.get_current_network().chain_id, 5);
}

#[test]
fn wallet_registry_rejects_bad_index_and_address() {
    let w = |addr: Address| Wallet { name: "w".to_string(), dev: false, address: addr };
    let good = Address::from_str(ADDR).unwrap();
    assert!(Wallets::new(vec![w(good)], 1).is_none());
    let bad = Address { bytes: vec![1, 2, 3] };
    assert!(Wallets::new(vec![w(bad)], 0).is_none());
}

#[test]
fn error_messages_read_as_their_variant() {
    assert_eq!(Error::SignerBuild("no key".to_string()).message(), "no key");
    assert_eq!(Error::NetworkNotFound(9).message(), "network not found");
    assert_eq!(Error::ApprovalRejected.message(), "transaction rejected");
    assert_eq!(Error::ApprovalChannelClosed.message(), "approval channel closed");
}

#[test]
fn jsonrpc_error_constructors_carry_the_protocol_codes() {
    assert_eq!(JsonRpcError::invalid_request().code, -32600);
    let e = JsonRpcError::invalid_params("why".to_string());
    assert_eq!(e.code, -32602);
    assert_eq!(e.message, "why");
    assert_eq!(JsonRpcError::internal_error().code, -32603);
    let s = JsonRpcError::server_error(3, "m".to_string(), None);
    assert_eq!(s.code, 3);
}

#[test]
fn shared_state_serves_reads_across_a_switch() {
    let shared = ethgate::shared::SharedAppState::new(make_state(false, false));
    let handler = Handler::default();
    assert_eq!(shared.read_current_chain_id(), 31337);
    let out = shared.dispatch(
        &handler,
        Request {
            method: "wallet_switchEthereumChain".to_string(),
            params: switch_params("0x1"),
        },
    );
    match out {
        HandleOutcome::Reply(r) => assert_eq!(r.unwrap(), JsonValue::Null),
        other => panic!("expected a reply, got {:?}", other),
    }
    assert_eq!(shared.read_current_chain_id(), 1);
}

#[test]
fn fresh_pipeline_starts_empty() {
    let tx = SendTransaction::new();
    assert!(matches!(tx.state, TxState::Created));
    assert_eq!(tx.chain_id, None);
    assert!(tx.outcome.is_none());
}
