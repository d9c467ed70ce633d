//! The dispatcher: one protocol request in, one decision out. Methods in
//! the local table are handled against the registries; every other
//! method is forwarded verbatim to the current network's upstream node.
//!
//! The dispatcher holds no mutable state of its own — the routing table
//! is built once — so invocations are independent and may run
//! concurrently. Requests that need outside work (an upstream call, a
//! signer, the transaction pipeline) come back as tasks; the runtime
//! performs the call and hands the result to the matching reply
//! function here.

use vstd::prelude::*;
use vstd::string::StrSliceExecFns;
use vstd::string::StringExecFns;
use crate::error::JsonRpcError;
use crate::events::{Address, Bytes};
use crate::hex;
use crate::json::{obj_lookup, obj_get, JsonValue};
use crate::send_transaction::SendTransaction;
use crate::state::AppState;

verus! {

/// The locally handled methods.
#[derive(Debug, PartialEq, Eq, Structural, Clone, Copy)]
pub enum LocalMethod {
    Accounts,
    ChainId,
    ProviderState,
    SwitchChain,
    SendTransaction,
    Sign,
    SignTypedData,
}

/// The routing table's meaning: which local method a name selects, if
/// any; every other name is a passthrough.
pub open spec fn route_spec(m: Seq<char>) -> Option<LocalMethod> {
    if m == "eth_accounts"@ || m == "eth_requestAccounts"@ {
        Some(LocalMethod::Accounts)
    } else if m == "eth_chainId"@ {
        Some(LocalMethod::ChainId)
    } else if m == "metamask_getProviderState"@ {
        Some(LocalMethod::ProviderState)
    } else if m == "wallet_switchEthereumChain"@ {
        Some(LocalMethod::SwitchChain)
    } else if m == "eth_sendTransaction"@ {
        Some(LocalMethod::SendTransaction)
    } else if m == "eth_sign"@ || m == "personal_sign"@ {
        Some(LocalMethod::Sign)
    } else if m == "eth_signTypedData"@ || m == "eth_signTypedData_v4"@ {
        Some(LocalMethod::SignTypedData)
    } else {
        None
    }
}

/// One inbound request: a method name and its parameters.
#[derive(Debug)]
pub struct Request {
    pub method: String,
    pub params: JsonValue,
}

/// The dispatcher, holding the routing table as data so the table
/// itself can be inspected and tested.
#[derive(Debug)]
pub struct Handler {
    pub table: Vec<(String, LocalMethod)>,
}

impl Handler {
    /// The table carries exactly the local method names.
    pub open spec fn wf(&self) -> bool {
        let t = self.table@;
        &&& t.len() == 10
        &&& t[0].0@ == "eth_accounts"@ && t[0].1 is Accounts
        &&& t[1].0@ == "eth_requestAccounts"@ && t[1].1 is Accounts
        &&& t[2].0@ == "eth_chainId"@ && t[2].1 is ChainId
        &&& t[3].0@ == "metamask_getProviderState"@ && t[3].1 is ProviderState
        &&& t[4].0@ == "wallet_switchEthereumChain"@ && t[4].1 is SwitchChain
        &&& t[5].0@ == "eth_sendTransaction"@ && t[5].1 is SendTransaction
        &&& t[6].0@ == "eth_sign"@ && t[6].1 is Sign
        &&& t[7].0@ == "personal_sign"@ && t[7].1 is Sign
        &&& t[8].0@ == "eth_signTypedData"@ && t[8].1 is SignTypedData
        &&& t[9].0@ == "eth_signTypedData_v4"@ && t[9].1 is SignTypedData
    }

    /// Looks a method name up in the table.
    pub fn route(&self, method: &String) -> (r: Option<LocalMethod>)
        requires
            self.wf(),
        ensures
            r == route_spec(method@),
    {
        let len = self.table.len();
        let mut i: usize = 0;
        while i < len
            invariant
                0 <= i <= len,
                self.wf(),
                len == self.table@.len(),
                forall|k: int| 0 <= k < i ==> self.table@[k].0@ != method@,
            decreases len - i,
        {
            if self.table[i].0 == *method {
                return Some(self.table[i].1);
            }
            i = i + 1;
        }
        None
    }
}

impl Default for Handler {
    /// Builds the routing table.
    fn default() -> (r: Handler)
        ensures
            r.wf(),
    {
        let mut table: Vec<(String, LocalMethod)> = Vec::new();
        table.push((String::from_str("eth_accounts"), LocalMethod::Accounts));
        table.push((String::from_str("eth_requestAccounts"), LocalMethod::Accounts));
        table.push((String::from_str("eth_chainId"), LocalMethod::ChainId));
        table.push((String::from_str("metamask_getProviderState"), LocalMethod::ProviderState));
        table.push((String::from_str("wallet_switchEthereumChain"), LocalMethod::SwitchChain));
        table.push((String::from_str("eth_sendTransaction"), LocalMethod::SendTransaction));
        table.push((String::from_str("eth_sign"), LocalMethod::Sign));
        table.push((String::from_str("personal_sign"), LocalMethod::Sign));
        table.push((String::from_str("eth_signTypedData"), LocalMethod::SignTypedData));
        table.push((String::from_str("eth_signTypedData_v4"), LocalMethod::SignTypedData));
        Handler { table }
    }
}

/// A protocol-success text value reading `0x` + the hex of `bytes`.
pub open spec fn is_hex_text(v: JsonValue, bytes: Seq<u8>) -> bool {
    v matches JsonValue::Text(t) && t@ == hex::hex_prefixed(hex::hex_str_of(bytes))
}

/// The single-element account list carrying the current wallet's
/// address.
pub open spec fn is_accounts_reply(r: JsonValue, state: AppState) -> bool {
    r matches JsonValue::Array(items) && items@.len() == 1 && is_hex_text(
        items@[0],
        state.current_wallet_spec().address.bytes@,
    )
}

/// The current network's chain id as minimal hex text.
pub open spec fn is_chain_id_reply(r: JsonValue, state: AppState) -> bool {
    r matches JsonValue::Text(t) && t@ == hex::hex_prefixed(
        hex::uhex_chars(state.networks.current as nat),
    )
}

/// The provider-state object: unlocked, current chain id, network name,
/// and the account list.
pub open spec fn is_provider_state_reply(r: JsonValue, state: AppState) -> bool {
    &&& r matches JsonValue::Object(pairs) && pairs@.len() == 4
        && (pairs@[0].0@ == "isUnlocked"@ && pairs@[0].1 == JsonValue::Bool(true)) && (
    pairs@[1].0@ == "chainId"@ && is_chain_id_reply(pairs@[1].1, state)) && (pairs@[2].0@
        == "networkVersion"@ && (pairs@[2].1 matches JsonValue::Text(t) && t@
        == state.current_network_spec().name@)) && (pairs@[3].0@ == "accounts"@
        && is_accounts_reply(pairs@[3].1, state))
}

/// An invalid-params error carrying `msg`.
pub open spec fn is_invalid_params(e: JsonRpcError, msg: Seq<char>) -> bool {
    e.code == -32602 && e.message@ == msg && e.data is None
}

/// The chain-id text a switch-chain request carries: the first element
/// must be an object with a text member under `chainId`.
pub open spec fn switch_chain_id_text(params: JsonValue) -> Option<Seq<char>> {
    match params {
        JsonValue::Array(items) => if items@.len() >= 1 {
            match items@[0] {
                JsonValue::Object(pairs) => match obj_lookup(pairs@, "chainId"@) {
                    Some(v) => match v {
                        JsonValue::Text(t) => Some(t@),
                        _ => None,
                    },
                    None => None,
                },
                _ => None,
            }
        } else {
            None
        },
        _ => None,
    }
}

/// A well-formed chain-id text: `0x`, then hex digits whose value fits
/// in 32 bits.
pub open spec fn valid_chain_id_text(s: Seq<char>) -> bool {
    s.len() >= 3 && s[0] == '0' && s[1] == 'x' && hex::all_hex(s.skip(2)) && hex::hex_uint(
        s.skip(2),
    ) <= u32::MAX
}

pub open spec fn chain_id_value(s: Seq<char>) -> int {
    hex::hex_uint(s.skip(2))
}

/// What a switch-chain call does: a known id atomically swaps the
/// current network and replies null; an unknown or malformed id changes
/// nothing and reports invalid params.
pub open spec fn switch_chain_post(
    pre: AppState,
    post: AppState,
    params: JsonValue,
    r: Result<JsonValue, JsonRpcError>,
) -> bool {
    match switch_chain_id_text(params) {
        Some(s) => if valid_chain_id_text(s) {
            if pre.networks.has_network(chain_id_value(s) as u32) {
                &&& r matches Ok(v) && v is Null
                &&& post.networks.networks == pre.networks.networks
                &&& post.networks.current == chain_id_value(s) as u32
                &&& post.wallets == pre.wallets
            } else {
                post == pre && (r matches Err(e) && is_invalid_params(e, "network not found"@))
            }
        } else {
            post == pre && (r matches Err(e) && is_invalid_params(e, "invalid chain id"@))
        },
        None => post == pre && (r matches Err(e) && is_invalid_params(e, "invalid chain id"@)),
    }
}

/// The two text parameters of the sign methods.
pub open spec fn two_text_params(params: JsonValue) -> Option<(Seq<char>, Seq<char>)> {
    match params {
        JsonValue::Array(items) => if items@.len() >= 2 {
            match (items@[0], items@[1]) {
                (JsonValue::Text(a), JsonValue::Text(b)) => Some((a@, b@)),
                _ => None,
            }
        } else {
            None
        },
        _ => None,
    }
}

/// A message-signing task for the runtime's signer: parameters are
/// `[messageHex, addressHex]`, signed with the current wallet's signer
/// for the current chain.
#[derive(Debug)]
pub struct SignTask {
    pub message: Bytes,
    pub address: Address,
    pub chain_id: u32,
}

/// What parsing a sign request yields: a task with the decoded message
/// and address and the current chain bound, or invalid-params.
pub open spec fn eth_sign_post(
    state: AppState,
    params: JsonValue,
    r: Result<SignTask, JsonRpcError>,
) -> bool {
    match two_text_params(params) {
        Some((msg, addr)) => {
            let mh = hex::strip_hex_prefix(msg);
            let ah = hex::strip_hex_prefix(addr);
            if mh.len() % 2 == 0 && hex::all_hex(mh) && ah.len() == 40 && hex::all_hex(ah) {
                r matches Ok(t) && t.message.bytes@ == hex::hex_bytes_of(mh) && t.address.bytes@
                    == hex::hex_bytes_of(ah) && t.chain_id == state.networks.current
            } else {
                r matches Err(e) && is_invalid_params(e, "invalid params"@)
            }
        },
        None => r matches Err(e) && is_invalid_params(e, "invalid params"@),
    }
}

/// A typed-data signing task: parameters are `[addressHex, typedDataJson]`;
/// the typed-data text is handed on unparsed to the signer's runtime.
#[derive(Debug)]
pub struct SignTypedDataTask {
    pub address: Address,
    pub typed_data: String,
    pub chain_id: u32,
}

/// What parsing a typed-data request yields.
pub open spec fn eth_sign_typed_data_post(
    state: AppState,
    params: JsonValue,
    r: Result<SignTypedDataTask, JsonRpcError>,
) -> bool {
    match two_text_params(params) {
        Some((addr, data)) => {
            let ah = hex::strip_hex_prefix(addr);
            if ah.len() == 40 && hex::all_hex(ah) {
                r matches Ok(t) && t.address.bytes@ == hex::hex_bytes_of(ah) && t.typed_data@
                    == data && t.chain_id == state.networks.current
            } else {
                r matches Err(e) && is_invalid_params(e, "invalid params"@)
            }
        },
        None => r matches Err(e) && is_invalid_params(e, "invalid params"@),
    }
}

/// A transaction pipeline freshly prepared for this request: parameters
/// stored, current chain bound, nothing else yet.
pub open spec fn is_prepared_tx(tx: SendTransaction, state: AppState, params: JsonValue) -> bool {
    tx.state is ChainBound && tx.params == params && tx.chain_id == Some(state.networks.current)
        && tx.gas_estimate is None && tx.gas_error is None && tx.outcome is None
}

impl Handler {
    /// The single-element account list for the current wallet.
    pub fn accounts(state: &AppState) -> (r: JsonValue)
        requires
            state.wf(),
        ensures
            is_accounts_reply(r, *state),
    {
        let wallet = state.wallets.get_current_wallet();
        let address = wallet.get_current_address();
        let mut items: Vec<JsonValue> = Vec::new();
        items.push(JsonValue::Text(address.to_hex()));
        JsonValue::Array(items)
    }

    /// The current network's chain id as hex text.
    pub fn chain_id(state: &AppState) -> (r: JsonValue)
        requires
            state.wf(),
        ensures
            is_chain_id_reply(r, *state),
    {
        let network = state.networks.get_current_network();
        JsonValue::Text(network.chain_id_hex())
    }

    /// The provider-state object for the current selections.
    pub fn provider_state(state: &AppState) -> (r: JsonValue)
        requires
            state.wf(),
        ensures
            is_provider_state_reply(r, *state),
    {
        let network = state.networks.get_current_network();
        let mut pairs: Vec<(String, JsonValue)> = Vec::new();
        pairs.push((String::from_str("isUnlocked"), JsonValue::Bool(true)));
        pairs.push((String::from_str("chainId"), JsonValue::Text(network.chain_id_hex())));
        pairs.push((String::from_str("networkVersion"), JsonValue::Text(network.name.clone())));
        pairs.push((String::from_str("accounts"), Self::accounts(state)));
        JsonValue::Object(pairs)
    }

    /// Switches the current network to the id the request carries; an
    /// unknown or malformed id leaves the registries unchanged.
    pub fn switch_chain(state: &mut AppState, params: &JsonValue) -> (r: Result<
        JsonValue,
        JsonRpcError,
    >)
        requires
            old(state).wf(),
        ensures
            final (state).wf(),
            switch_chain_post(*old(state), *final (state), *params, r),
    {
        let mut text: Option<&String> = None;
        match params {
            JsonValue::Array(items) => {
                if items.len() >= 1 {
                    match &items[0] {
                        JsonValue::Object(pairs) => {
                            let key = String::from_str("chainId");
                            match obj_get(pairs, &key) {
                                Some(v) => match v {
                                    JsonValue::Text(t) => {
                                        text = Some(t);
                                    },
                                    _ => {},
                                },
                                None => {},
                            }
                        },
                        _ => {},
                    }
                }
            },
            _ => {},
        }
        match text {
            None => Err(JsonRpcError::invalid_params(String::from_str("invalid chain id"))),
            Some(t) => {
                match hex::parse_u32_hex(t.as_str()) {
                    None => Err(
                        JsonRpcError::invalid_params(String::from_str("invalid chain id")),
                    ),
                    Some(id) => {
                        match state.networks.set_current_network_by_id(id) {
                            Ok(_) => Ok(JsonValue::Null),
                            Err(e) => Err(JsonRpcError::invalid_params(e.message())),
                        }
                    },
                }
            },
        }
    }

    /// Prepares the transaction pipeline for this request: stores the
    /// raw fields and binds the current chain. The runtime then attaches
    /// the signer, estimates gas, and drives the approval round trip.
    pub fn send_transaction(state: &AppState, params: JsonValue) -> (tx: SendTransaction)
        requires
            state.wf(),
        ensures
            is_prepared_tx(tx, *state, params),
            tx.wf(),
    {
        let network = state.networks.get_current_network();
        let mut tx = SendTransaction::new();
        tx.set_params(params);
        tx.set_chain_id(network.chain_id);
        tx
    }

    /// Parses a sign request into a signing task for the current chain.
    pub fn eth_sign(state: &AppState, params: &JsonValue) -> (r: Result<SignTask, JsonRpcError>)
        requires
            state.wf(),
        ensures
            eth_sign_post(*state, *params, r),
    {
        let network = state.networks.get_current_network();
        match params {
            JsonValue::Array(items) => {
                if items.len() >= 2 {
                    match (&items[0], &items[1]) {
                        (JsonValue::Text(msg), JsonValue::Text(addr)) => {
                            match (Bytes::from_str(msg.as_str()), Address::from_str(
                                addr.as_str(),
                            )) {
                                (Some(message), Some(address)) => Ok(
                                    SignTask { message, address, chain_id: network.chain_id },
                                ),
                                _ => Err(
                                    JsonRpcError::invalid_params(
                                        String::from_str("invalid params"),
                                    ),
                                ),
                            }
                        },
                        _ => Err(
                            JsonRpcError::invalid_params(String::from_str("invalid params")),
                        ),
                    }
                } else {
                    Err(JsonRpcError::invalid_params(String::from_str("invalid params")))
                }
            },
            _ => Err(JsonRpcError::invalid_params(String::from_str("invalid params"))),
        }
    }

    /// Parses a typed-data sign request into a task for the current
    /// chain; the typed-data JSON text is handed on for the signer's
    /// runtime to interpret.
    pub fn eth_sign_typed_data_v4(state: &AppState, params: &JsonValue) -> (r: Result<
        SignTypedDataTask,
        JsonRpcError,
    >)
        requires
            state.wf(),
        ensures
            eth_sign_typed_data_post(*state, *params, r),
    {
        let network = state.networks.get_current_network();
        match params {
            JsonValue::Array(items) => {
                if items.len() >= 2 {
                    match (&items[0], &items[1]) {
                        (JsonValue::Text(addr), JsonValue::Text(data)) => {
                            match Address::from_str(addr.as_str()) {
                                Some(address) => Ok(
                                    SignTypedDataTask {
                                        address,
                                        typed_data: data.clone(),
                                        chain_id: network.chain_id,
                                    },
                                ),
                                None => Err(
                                    JsonRpcError::invalid_params(
                                        String::from_str("invalid params"),
                                    ),
                                ),
                            }
                        },
                        _ => Err(
                            JsonRpcError::invalid_params(String::from_str("invalid params")),
                        ),
                    }
                } else {
                    Err(JsonRpcError::invalid_params(String::from_str("invalid params")))
                }
            },
            _ => Err(JsonRpcError::invalid_params(String::from_str("invalid params"))),
        }
    }
}

/// What one request resolves to: a finished reply, or a task the
/// runtime must perform before the matching reply function closes it.
#[derive(Debug)]
pub enum HandleOutcome {
    /// Handled locally; the reply is ready.
    Reply(Result<JsonValue, JsonRpcError>),
    /// Not a local method: forward to the current network's node with
    /// the parameters untouched, then apply `passthrough_reply`.
    Passthrough { method: String, params: JsonValue },
    /// Sign the message with the current wallet's signer, then apply
    /// `sign_reply`.
    Sign(SignTask),
    /// Sign the typed data with the current wallet's signer, then apply
    /// `sign_reply`.
    SignTypedData(SignTypedDataTask),
    /// Drive the transaction pipeline to its terminal state, then read
    /// `response_value`.
    SendTx(SendTransaction),
}

impl Handler {
    /// Routes one request. Only a switch-chain request may change the
    /// state, and no route changes the set of configured networks or
    /// wallets.
    pub fn handle(&self, state: &mut AppState, req: Request) -> (out: HandleOutcome)
        requires
            self.wf(),
            old(state).wf(),
        ensures
            final (state).wf(),
            route_spec(req.method@) is None ==> *final (state) == *old(state) && (
            out matches HandleOutcome::Passthrough { method, params } && method == req.method
                && params == req.params),
            route_spec(req.method@) == Some(LocalMethod::Accounts) ==> *final (state) == *old(
                state,
            ) && (out matches HandleOutcome::Reply(r) && (r matches Ok(v) && is_accounts_reply(
                v,
                *old(state),
            ))),
            route_spec(req.method@) == Some(LocalMethod::ChainId) ==> *final (state) == *old(state)
                && (out matches HandleOutcome::Reply(r) && (r matches Ok(v) && is_chain_id_reply(
                v,
                *old(state),
            ))),
            route_spec(req.method@) == Some(LocalMethod::ProviderState) ==> *final (state) == *old(
                state,
            ) && (out matches HandleOutcome::Reply(r) && (r matches Ok(v)
                && is_provider_state_reply(v, *old(state)))),
            route_spec(req.method@) == Some(LocalMethod::SwitchChain) ==> (
            out matches HandleOutcome::Reply(r) && switch_chain_post(
                *old(state),
                *final (state),
                req.params,
                r,
            )),
            route_spec(req.method@) == Some(LocalMethod::SendTransaction) ==> *final (state)
                == *old(state) && (out matches HandleOutcome::SendTx(tx) && is_prepared_tx(
                tx,
                *old(state),
                req.params,
            ) && tx.wf()),
            route_spec(req.method@) == Some(LocalMethod::Sign) ==> *final (state) == *old(state)
                && match out {
                HandleOutcome::Sign(t) => eth_sign_post(*old(state), req.params, Ok(t)),
                HandleOutcome::Reply(r) => r matches Err(e) && eth_sign_post(
                    *old(state),
                    req.params,
                    Err(e),
                ),
                _ => false,
            },
            route_spec(req.method@) == Some(LocalMethod::SignTypedData) ==> *final (state) == *old(
                state,
            ) && match out {
                HandleOutcome::SignTypedData(t) => eth_sign_typed_data_post(
                    *old(state),
                    req.params,
                    Ok(t),
                ),
                HandleOutcome::Reply(r) => r matches Err(e) && eth_sign_typed_data_post(
                    *old(state),
                    req.params,
                    Err(e),
                ),
                _ => false,
            },
    {
        let route = self.route(&req.method);
        match route {
            None => HandleOutcome::Passthrough { method: req.method, params: req.params },
            Some(LocalMethod::Accounts) => HandleOutcome::Reply(Ok(Self::accounts(state))),
            Some(LocalMethod::ChainId) => HandleOutcome::Reply(Ok(Self::chain_id(state))),
            Some(LocalMethod::ProviderState) => HandleOutcome::Reply(
                Ok(Self::provider_state(state)),
            ),
            Some(LocalMethod::SwitchChain) => HandleOutcome::Reply(
                Self::switch_chain(state, &req.params),
            ),
            Some(LocalMethod::SendTransaction) => HandleOutcome::SendTx(
                Self::send_transaction(state, req.params),
            ),
            Some(LocalMethod::Sign) => match Self::eth_sign(state, &req.params) {
                Ok(t) => HandleOutcome::Sign(t),
                Err(e) => HandleOutcome::Reply(Err(e)),
            },
            Some(LocalMethod::SignTypedData) => match Self::eth_sign_typed_data_v4(
                state,
                &req.params,
            ) {
                Ok(t) => HandleOutcome::SignTypedData(t),
                Err(e) => HandleOutcome::Reply(Err(e)),
            },
        }
    }
}

/// How a passthrough call can fail, as the upstream client reports it.
#[derive(Debug)]
pub enum ProviderFailure {
    /// The node replied with a structured error object.
    ErrorResponse { code: i64, message: String, data: Option<JsonValue> },
    /// The node's reply could not be parsed.
    MalformedReply,
    /// Any other transport-level failure.
    Other,
}

/// Maps an upstream failure to the protocol error owed for it: a
/// structured node error passes through with code, message and data
/// unchanged; an unparsable reply is an invalid-request error; anything
/// else is an internal error.
pub fn provider_to_jsonrpc_error(e: ProviderFailure) -> (r: JsonRpcError)
    ensures
        match e {
            ProviderFailure::ErrorResponse { code, message, data } => r.code == code && r.message
                == message && r.data == data,
            ProviderFailure::MalformedReply => r.code == -32600 && r.message@ == "Invalid request"@
                && r.data is None,
            ProviderFailure::Other => r.code == -32603 && r.message@ == "Internal error"@
                && r.data is None,
        },
{
    match e {
        ProviderFailure::ErrorResponse { code, message, data } => JsonRpcError::server_error(
            code,
            message,
            data,
        ),
        ProviderFailure::MalformedReply => JsonRpcError::invalid_request(),
        ProviderFailure::Other => JsonRpcError::internal_error(),
    }
}

/// Closes a passthrough: the node's result is returned unchanged, and a
/// failure maps through `provider_to_jsonrpc_error`.
pub fn passthrough_reply(outcome: Result<JsonValue, ProviderFailure>) -> (r: Result<
    JsonValue,
    JsonRpcError,
>)
    ensures
        match outcome {
            Ok(v) => r == Ok::<JsonValue, JsonRpcError>(v),
            Err(f) => r matches Err(e) && match f {
                ProviderFailure::ErrorResponse { code, message, data } => e.code == code
                    && e.message == message && e.data == data,
                ProviderFailure::MalformedReply => e.code == -32600 && e.message@
                    == "Invalid request"@ && e.data is None,
                ProviderFailure::Other => e.code == -32603 && e.message@ == "Internal error"@
                    && e.data is None,
            },
        },
{
    match outcome {
        Ok(v) => Ok(v),
        Err(f) => Err(provider_to_jsonrpc_error(f)),
    }
}

/// Closes a sign task with the signer's outcome. Both ways it is a
/// protocol-level success: the signature as `0x` hex text, or — exactly
/// as clients expect — the failure text as a plain string result, never
/// a protocol error.
pub fn sign_reply(outcome: Result<Vec<u8>, String>) -> (r: Result<JsonValue, JsonRpcError>)
    ensures
        r is Ok,
        match outcome {
            Ok(sig) => r matches Ok(v) && is_hex_text(v, sig@),
            Err(m) => r matches Ok(v) && (v matches JsonValue::Text(t) && t@ == m@),
        },
{
    match outcome {
        Ok(sig) => Ok(JsonValue::Text(hex::encode_hex_prefixed(&sig))),
        Err(m) => Ok(JsonValue::Text(m)),
    }
}

/// The reply owed when the current wallet cannot produce a signer: a
/// typed signer-build failure surfaces as an internal protocol error
/// carrying the builder's text, never as a silent fallback.
pub fn signer_build_reply(message: String) -> (r: Result<JsonValue, JsonRpcError>)
    ensures
        r matches Err(e) && e.code == -32603 && e.message@ == message@ && e.data is None,
{
    Err(JsonRpcError { code: -32603, message, data: None })
}

/// The dev bypass: the approval dialog is skipped exactly when both the
/// current network and the current wallet are flagged dev.
pub fn apply_approval_policy(tx: &mut SendTransaction, state: &AppState)
    requires
        old(tx).state is GasEstimated,
        old(tx).wf(),
        state.wf(),
    ensures
        state.current_network_spec().dev && state.current_wallet_spec().dev ==> *final (tx) == (
        SendTransaction { state: crate::send_transaction::TxState::DialogSkipped, ..*old(tx) }),
        !(state.current_network_spec().dev && state.current_wallet_spec().dev) ==> *final (tx)
            == *old(tx),
        final (tx).wf(),
{
    let network = state.networks.get_current_network();
    let wallet = state.wallets.get_current_wallet();
    if network.is_dev() && wallet.is_dev() {
        tx.skip_dialog();
    }
}

} // verus!
