//! The transaction pipeline: a state machine that carries one draft
//! transaction from raw parameters through gas estimation, the approval
//! decision, and signing/broadcast, to exactly one terminal outcome.
//!
//! The outside work — querying the node for a gas estimate, asking the
//! approver, signing and broadcasting — is the runtime's; the runtime
//! performs each step and records its result here, and this machine
//! decides what may happen next. A signing or broadcast failure is
//! captured as text and later surfaced as a *successful* result carrying
//! that text, matching the wire behaviour clients expect.

use vstd::prelude::*;
use vstd::string::StringExecFns;
use crate::events::H256;
use crate::hex;
use crate::json::JsonValue;
use crate::u256::U256;

verus! {

/// The pipeline's position. `Error` is absorbing: no step leads out of
/// it.
#[derive(Debug, PartialEq, Eq, Structural, Clone, Copy)]
pub enum TxState {
    Created,
    ParamsSet,
    ChainBound,
    SignerBound,
    GasEstimated,
    DialogSkipped,
    AwaitingApproval,
    Signing,
    Done,
    Error,
}

/// The approver's answer, or the loss of the channel. A closed channel
/// is never an implicit approval.
#[derive(Debug, PartialEq, Eq, Structural, Clone, Copy)]
pub enum ApprovalDecision {
    Approved,
    Rejected,
    ChannelClosed,
}

/// What the runtime must do once the pipeline reaches the approval
/// point.
#[derive(Debug, PartialEq, Eq, Structural, Clone, Copy)]
pub enum FinishAction {
    /// Approval was bypassed or granted: sign and broadcast now.
    SignAndBroadcast,
    /// Send an approval request carrying the transaction parameters and
    /// wait for the decision.
    RequestApproval,
}

/// One draft transaction moving through the pipeline.
#[derive(Debug)]
pub struct SendTransaction {
    pub state: TxState,
    /// The raw transaction fields, stored without shape validation:
    /// malformed fields surface later, from the node or the signer.
    pub params: JsonValue,
    pub chain_id: Option<u32>,
    pub gas_estimate: Option<U256>,
    /// A failed gas estimate is recorded but does not abort the
    /// pipeline: signing and broadcast still proceed best-effort.
    pub gas_error: Option<String>,
    /// The terminal outcome: a broadcast hash or an error text, never
    /// both.
    pub outcome: Option<Result<H256, String>>,
}

impl SendTransaction {
    /// The terminal outcome exists exactly in the two terminal states.
    pub open spec fn wf(&self) -> bool {
        &&& match self.state {
            TxState::Done => self.outcome matches Some(r) && (r matches Ok(h) && h.wf()),
            TxState::Error => self.outcome matches Some(r) && r is Err,
            _ => self.outcome is None,
        }
        &&& match self.state {
            TxState::Created | TxState::ParamsSet => self.chain_id is None,
            _ => self.chain_id is Some,
        }
    }

    /// The action owed at the approval point: skipping the dialog is the
    /// only way past it without a request.
    pub open spec fn finish_action_spec(self) -> FinishAction {
        if self.state is DialogSkipped {
            FinishAction::SignAndBroadcast
        } else {
            FinishAction::RequestApproval
        }
    }

    /// The state after the approval decision `d`: only an approval
    /// leads on to signing; anything else ends the pipeline.
    pub open spec fn resolved_state(self, d: ApprovalDecision) -> TxState {
        match d {
            ApprovalDecision::Approved => TxState::Signing,
            ApprovalDecision::Rejected => TxState::Error,
            ApprovalDecision::ChannelClosed => TxState::Error,
        }
    }

    /// Signing or broadcast may begin only in `Signing`: never before
    /// the approval point is resolved, and never after a rejection.
    pub open spec fn may_sign(self) -> bool {
        self.state is Signing
    }

    pub fn new() -> (r: SendTransaction)
        ensures
            r.state is Created,
            r.params is Null,
            r.chain_id is None,
            r.gas_estimate is None,
            r.gas_error is None,
            r.outcome is None,
            r.wf(),
    {
        SendTransaction {
            state: TxState::Created,
            params: JsonValue::Null,
            chain_id: None,
            gas_estimate: None,
            gas_error: None,
            outcome: None,
        }
    }

    /// Stores the raw transaction fields.
    pub fn set_params(&mut self, params: JsonValue)
        requires
            old(self).state is Created,
            old(self).wf(),
        ensures
            final (self).state is ParamsSet,
            final (self).params == params,
            final (self).chain_id == old(self).chain_id,
            final (self).gas_estimate == old(self).gas_estimate,
            final (self).gas_error == old(self).gas_error,
            final (self).outcome == old(self).outcome,
            final (self).wf(),
    {
        self.params = params;
        self.state = TxState::ParamsSet;
    }

    /// Binds the target chain.
    pub fn set_chain_id(&mut self, chain_id: u32)
        requires
            old(self).state is ParamsSet,
            old(self).wf(),
        ensures
            final (self).state is ChainBound,
            final (self).chain_id == Some(chain_id),
            final (self).params == old(self).params,
            final (self).gas_estimate == old(self).gas_estimate,
            final (self).gas_error == old(self).gas_error,
            final (self).outcome == old(self).outcome,
            final (self).wf(),
    {
        self.chain_id = Some(chain_id);
        self.state = TxState::ChainBound;
    }

    /// Records that the runtime attached a signer composed with the
    /// chain's provider client; the capability itself stays with the
    /// runtime.
    pub fn set_signer(&mut self)
        requires
            old(self).state is ChainBound,
            old(self).wf(),
        ensures
            final (self).state is SignerBound,
            final (self).params == old(self).params,
            final (self).chain_id == old(self).chain_id,
            final (self).gas_estimate == old(self).gas_estimate,
            final (self).gas_error == old(self).gas_error,
            final (self).outcome == old(self).outcome,
            final (self).wf(),
    {
        self.state = TxState::SignerBound;
    }

    /// Records the node's gas estimate. A failure is kept as text and
    /// the pipeline proceeds regardless: the degrade-gracefully policy
    /// is deliberate, and the signer makes a best-effort attempt.
    pub fn estimate_gas(&mut self, outcome: Result<U256, String>)
        requires
            old(self).state is SignerBound,
            old(self).wf(),
        ensures
            final (self).state is GasEstimated,
            match outcome {
                Ok(g) => final (self).gas_estimate == Some(g) && final (self).gas_error is None,
                Err(m) => final (self).gas_estimate is None && (final (self).gas_error matches Some(
                    t,
                ) && t@ == m@),
            },
            final (self).params == old(self).params,
            final (self).chain_id == old(self).chain_id,
            final (self).outcome == old(self).outcome,
            final (self).wf(),
    {
        match outcome {
            Ok(g) => {
                self.gas_estimate = Some(g);
                self.gas_error = None;
            },
            Err(m) => {
                self.gas_estimate = None;
                self.gas_error = Some(m);
            },
        }
        self.state = TxState::GasEstimated;
    }

    /// Bypasses the approval dialog. Only the dispatcher's policy calls
    /// this, and only when both the current network and the current
    /// wallet are flagged dev.
    pub fn skip_dialog(&mut self)
        requires
            old(self).state is GasEstimated,
            old(self).wf(),
        ensures
            *final (self) == (SendTransaction { state: TxState::DialogSkipped, ..*old(self) }),
            final (self).wf(),
    {
        self.state = TxState::DialogSkipped;
    }

    /// Moves past the approval point: with the dialog skipped the
    /// transaction goes straight to signing, otherwise exactly one
    /// approval request is owed and the pipeline suspends until the
    /// decision arrives.
    pub fn finish_begin(&mut self) -> (a: FinishAction)
        requires
            old(self).state is GasEstimated || old(self).state is DialogSkipped,
            old(self).wf(),
        ensures
            a == old(self).finish_action_spec(),
            a is SignAndBroadcast ==> *final (self) == (SendTransaction {
                state: TxState::Signing,
                ..*old(self)
            }),
            a is RequestApproval ==> *final (self) == (SendTransaction {
                state: TxState::AwaitingApproval,
                ..*old(self)
            }),
            final (self).wf(),
    {
        match self.state {
            TxState::DialogSkipped => {
                self.state = TxState::Signing;
                FinishAction::SignAndBroadcast
            },
            _ => {
                self.state = TxState::AwaitingApproval;
                FinishAction::RequestApproval
            },
        }
    }

    /// The payload an approval request carries: the raw transaction
    /// parameters.
    pub fn approval_payload(&self) -> (p: &JsonValue)
        ensures
            *p == self.params,
    {
        &self.params
    }

    /// Records the approver's decision. A rejection or a closed channel
    /// is a terminal error — no signing can follow either.
    pub fn resolve_approval(&mut self, d: ApprovalDecision)
        requires
            old(self).state is AwaitingApproval,
            old(self).wf(),
        ensures
            final (self).state == old(self).resolved_state(d),
            final (self).params == old(self).params,
            final (self).chain_id == old(self).chain_id,
            final (self).gas_estimate == old(self).gas_estimate,
            final (self).gas_error == old(self).gas_error,
            match d {
                ApprovalDecision::Approved => final (self).outcome is None && final (self).may_sign(),
                ApprovalDecision::Rejected => (final (self).outcome matches Some(r) && (r matches Err(
                    m,
                ) && m@ == "transaction rejected"@)) && !(final (self).may_sign()),
                ApprovalDecision::ChannelClosed => (final (self).outcome matches Some(r)
                    && (r matches Err(m) && m@ == "approval channel closed"@))
                    && !(final (self).may_sign()),
            },
            final (self).wf(),
    {
        match d {
            ApprovalDecision::Approved => {
                self.state = TxState::Signing;
            },
            ApprovalDecision::Rejected => {
                self.outcome = Some(Err(String::from_str("transaction rejected")));
                self.state = TxState::Error;
            },
            ApprovalDecision::ChannelClosed => {
                self.outcome = Some(Err(String::from_str("approval channel closed")));
                self.state = TxState::Error;
            },
        }
    }

    /// Records the signer's sign-and-broadcast outcome: the broadcast
    /// hash, or the failure text.
    pub fn record_send_result(&mut self, r: Result<H256, String>)
        requires
            old(self).may_sign(),
            old(self).wf(),
            r matches Ok(h) ==> h.wf(),
        ensures
            match r {
                Ok(h) => final (self).state is Done && final (self).outcome == Some(
                    Ok::<H256, String>(h),
                ),
                Err(m) => final (self).state is Error && (final (self).outcome matches Some(o)
                    && (o matches Err(t) && t@ == m@)),
            },
            final (self).params == old(self).params,
            final (self).chain_id == old(self).chain_id,
            final (self).gas_estimate == old(self).gas_estimate,
            final (self).gas_error == old(self).gas_error,
            final (self).wf(),
    {
        match r {
            Ok(h) => {
                self.outcome = Some(Ok(h));
                self.state = TxState::Done;
            },
            Err(m) => {
                self.outcome = Some(Err(m));
                self.state = TxState::Error;
            },
        }
    }

    /// Law: with the dev bypass applied — the dialog skipped, as the
    /// dispatcher's policy does exactly when both the current network
    /// and the current wallet are flagged dev — the approval point
    /// demands signing directly, and never an approval request.
    pub proof fn lemma_dev_bypass_never_requests_approval(self)
        requires
            self.state is GasEstimated,
        ensures
            (SendTransaction { state: TxState::DialogSkipped, ..self }).finish_action_spec()
                == FinishAction::SignAndBroadcast,
    {
    }

    /// Law: without the dev bypass the approval point demands exactly
    /// one request — `finish_begin` moves to `AwaitingApproval`, from
    /// which no second request can be demanded — and a rejection or a
    /// lost channel resolves to the terminal error state, in which
    /// signing and broadcast are impossible.
    pub proof fn lemma_rejection_precludes_signing(self, d: ApprovalDecision)
        requires
            self.state is GasEstimated,
        ensures
            self.finish_action_spec() == FinishAction::RequestApproval,
            !(d is Approved) ==> self.resolved_state(d) is Error && !(SendTransaction {
                state: self.resolved_state(d),
                ..self
            }).may_sign(),
    {
    }

    /// The reply owed for a finished pipeline. Success and failure are
    /// both protocol-level successes: the broadcast hash as hex text, or
    /// the error text as a plain string — never a protocol error.
    pub fn response_value(&self) -> (r: JsonValue)
        requires
            self.wf(),
            self.state is Done || self.state is Error,
        ensures
            match self.outcome {
                Some(o) => match o {
                    Ok(h) => r matches JsonValue::Text(t) && t@ == hex::hex_prefixed(
                        hex::hex_str_of(h.bytes@),
                    ),
                    Err(m) => r matches JsonValue::Text(t) && t@ == m@,
                },
                None => false,
            },
    {
        match &self.outcome {
            Some(Ok(h)) => JsonValue::Text(h.to_hex()),
            Some(Err(m)) => JsonValue::Text(m.clone()),
            None => JsonValue::Null,
        }
    }
}

} // verus!
