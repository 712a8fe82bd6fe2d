//! The submission state machine: build, sign, broadcast, monitor, finalize,
//! bounded by the plan's deadline.
//!
//! The machine owns every decision; the caller performs the network and
//! signing work between steps and hands the outcome back as an event together
//! with the current time. Each step is specified by a transition relation, so
//! the engine's laws can be stated and proved over the relations alone.

use vstd::prelude::*;
use vstd::arithmetic::power2::lemma2_to64;
use vstd::arithmetic::power2::pow2;
use vstd::pervasive::unreached;
use crate::builder::SignedTransaction;
use crate::builder::UnsignedTransaction;
use crate::builder::build;
use crate::builder::spec_built;
use crate::builder::spec_fields_ok;
use crate::builder::spec_plan_valid;
use crate::decimal::spec_all_digits;
use crate::decimal::spec_dec_val;
use crate::decimal::u64_to_dec;
use crate::plan::ExecError;
use crate::plan::ExecutionPlan;
use crate::plan::ExecutionResult;
use crate::plan::spec_error_text;

verus! {

/// A broadcast is attempted at most this many times per plan.
pub const MAX_BROADCAST_ATTEMPTS: u64 = 8;

/// Backoff before the first broadcast retry; each further retry doubles it.
pub const BASE_BACKOFF_MS: u64 = 100;

/// How a node call failed.
#[derive(Clone, Copy, Debug, PartialEq, Eq, Structural)]
pub enum NodeError {
    /// Connectivity loss.
    Network,
    /// Malformed response.
    Rpc,
}

/// The on-chain record of a broadcast transaction's outcome.
#[derive(Clone, Copy, Debug)]
pub struct Receipt {
    /// Whether the transaction executed successfully on chain.
    pub status_ok: bool,
    /// Gas consumed, when the node reports it.
    pub gas_used: Option<u64>,
}

/// Where one execution attempt stands.
pub enum Phase {
    /// The live account nonce must be read before building.
    FetchingNonce,
    /// The transaction is built and awaits the signing capability.
    Signing { utx: UnsignedTransaction },
    /// The signed transaction awaits broadcast; `attempts` broadcasts failed
    /// so far.
    Submitting { stx: SignedTransaction, attempts: u64 },
    /// The transaction was broadcast; a receipt is being polled for.
    AwaitingReceipt { tx_hash: String },
    /// Terminal: a receipt reported on-chain success.
    Confirmed { tx_hash: String, gas_used: Option<u64> },
    /// Terminal: a receipt reported on-chain failure.
    Reverted { tx_hash: String, gas_used: Option<u64> },
    /// Terminal: the deadline passed; `sent` holds the hash exactly when the
    /// transaction had been broadcast, and the outcome is unknown.
    TimedOut { sent: Option<String> },
    /// Terminal: a non-retryable failure before broadcast.
    Failed { reason: ExecError },
}

/// The attempt has reached a terminal phase.
pub open spec fn spec_is_terminal(ph: Phase) -> bool {
    match ph {
        Phase::Confirmed { .. } => true,
        Phase::Reverted { .. } => true,
        Phase::TimedOut { .. } => true,
        Phase::Failed { .. } => true,
        _ => false,
    }
}

/// The attempt is waiting on a node call (nonce read, broadcast, or receipt
/// poll).
pub open spec fn spec_awaits_node(ph: Phase) -> bool {
    match ph {
        Phase::FetchingNonce => true,
        Phase::Submitting { .. } => true,
        Phase::AwaitingReceipt { .. } => true,
        _ => false,
    }
}

/// Internal consistency of a phase: attempt counts in bounds, hashes
/// non-empty wherever a broadcast is recorded, and failure reasons drawn from
/// the pre-broadcast taxonomy.
pub open spec fn spec_phase_wf(ph: Phase) -> bool {
    match ph {
        Phase::Submitting { attempts, .. } => attempts < MAX_BROADCAST_ATTEMPTS,
        Phase::AwaitingReceipt { tx_hash } => tx_hash@.len() > 0,
        Phase::Confirmed { tx_hash, .. } => tx_hash@.len() > 0,
        Phase::Reverted { tx_hash, .. } => tx_hash@.len() > 0,
        Phase::TimedOut { sent } => sent matches Some(h) ==> h@.len() > 0,
        Phase::Failed { reason } => reason != ExecError::TimedOut && reason
            != ExecError::DuplicateExecution,
        _ => true,
    }
}

/// The failure that a node error surfaces as.
pub open spec fn spec_node_error(e: NodeError) -> ExecError {
    match e {
        NodeError::Network => ExecError::NetworkError,
        NodeError::Rpc => ExecError::RpcError,
    }
}

/// Starting an attempt: expired plans are timed out at once, with no node
/// call ever requested; otherwise the live nonce is fetched first.
pub open spec fn spec_start_phase(plan: ExecutionPlan, now: u64, next: Phase) -> bool {
    if now >= plan.deadline {
        next == (Phase::TimedOut { sent: None })
    } else {
        next == Phase::FetchingNonce
    }
}

/// The step taken on a nonce answer: build against the live nonce, rejecting
/// malformed plans as `InvalidPlan` and unknown providers as
/// `UnsupportedProvider`; node errors are retried while the deadline allows.
pub open spec fn spec_nonce_step(
    plan: ExecutionPlan,
    now: u64,
    outcome: Result<u64, NodeError>,
    next: Phase,
) -> bool {
    if now >= plan.deadline {
        next == (Phase::TimedOut { sent: None })
    } else {
        match outcome {
            Ok(live_nonce) => {
                if spec_plan_valid(plan) {
                    next matches Phase::Signing { utx } && spec_built(plan, live_nonce, utx)
                } else if !spec_fields_ok(plan) {
                    next == (Phase::Failed { reason: ExecError::InvalidPlan })
                } else {
                    next == (Phase::Failed { reason: ExecError::UnsupportedProvider })
                }
            },
            Err(_) => next == Phase::FetchingNonce,
        }
    }
}

/// The step taken on the signer's answer: a refusal is terminal and never
/// retried; a signature moves the attempt to its first broadcast.
pub open spec fn spec_sign_step(
    plan: ExecutionPlan,
    now: u64,
    outcome: Option<SignedTransaction>,
    next: Phase,
) -> bool {
    if now >= plan.deadline {
        next == (Phase::TimedOut { sent: None })
    } else {
        match outcome {
            Some(stx) => next == (Phase::Submitting { stx, attempts: 0 }),
            None => next == (Phase::Failed { reason: ExecError::SigningError }),
        }
    }
}

/// A failed broadcast: timed out past the deadline, retried while attempts
/// remain, terminal with the node's failure otherwise.
pub open spec fn spec_broadcast_failure(
    plan: ExecutionPlan,
    stx: SignedTransaction,
    attempts: u64,
    now: u64,
    reason: ExecError,
    next: Phase,
) -> bool {
    if now >= plan.deadline {
        next == (Phase::TimedOut { sent: None })
    } else if attempts + 1 < MAX_BROADCAST_ATTEMPTS {
        next == (Phase::Submitting { stx, attempts: (attempts + 1) as u64 })
    } else {
        next == (Phase::Failed { reason })
    }
}

/// The step taken on a broadcast answer. A non-empty hash records the
/// broadcast — past the deadline the attempt still times out, but carries the
/// hash, since the transaction cannot be unsent. An empty hash is a malformed
/// response and is handled as an `RpcError`.
pub open spec fn spec_broadcast_step(
    plan: ExecutionPlan,
    stx: SignedTransaction,
    attempts: u64,
    now: u64,
    outcome: Result<String, NodeError>,
    next: Phase,
) -> bool {
    match outcome {
        Ok(h) => {
            if h@.len() > 0 {
                if now >= plan.deadline {
                    next == (Phase::TimedOut { sent: Some(h) })
                } else {
                    next == (Phase::AwaitingReceipt { tx_hash: h })
                }
            } else {
                spec_broadcast_failure(plan, stx, attempts, now, ExecError::RpcError, next)
            }
        },
        Err(e) => spec_broadcast_failure(plan, stx, attempts, now, spec_node_error(e), next),
    }
}

/// The step taken on a receipt poll: an observed receipt is definitive either
/// way; with none, polling continues while the deadline allows, and times out
/// with the hash kept otherwise.
pub open spec fn spec_receipt_step(
    plan: ExecutionPlan,
    tx_hash: String,
    now: u64,
    outcome: Result<Option<Receipt>, NodeError>,
    next: Phase,
) -> bool {
    match outcome {
        Ok(Some(rc)) => {
            if rc.status_ok {
                next == (Phase::Confirmed { tx_hash, gas_used: rc.gas_used })
            } else {
                next == (Phase::Reverted { tx_hash, gas_used: rc.gas_used })
            }
        },
        _ => {
            if now >= plan.deadline {
                next == (Phase::TimedOut { sent: Some(tx_hash) })
            } else {
                next == (Phase::AwaitingReceipt { tx_hash })
            }
        },
    }
}

/// Gas consumption carried into a report: the node's word, printed as its
/// canonical decimal numeral, and absent exactly when no receipt reported it.
pub open spec fn spec_gas_rel(g: Option<u64>, s: Option<String>) -> bool {
    match g {
        Some(v) => {
            &&& s matches Some(t)
            &&& spec_all_digits(s->0@)
            &&& s->0@.len() > 0
            &&& spec_dec_val(s->0@) == v
            &&& (s->0@.len() > 1 ==> s->0@[0] != '0')
        },
        None => s is None,
    }
}

/// The exact report owed for each terminal phase: `Confirmed` is the one
/// success; every other terminal phase is a failure naming its cause, with
/// the transaction hash present exactly when a broadcast was recorded.
pub open spec fn spec_report_rel(ph: Phase, r: ExecutionResult) -> bool {
    match ph {
        Phase::Confirmed { tx_hash, gas_used } => {
            &&& r.success
            &&& r.tx_hash == Some(tx_hash)
            &&& r.error is None
            &&& spec_gas_rel(gas_used, r.gas_used)
        },
        Phase::Reverted { tx_hash, gas_used } => {
            &&& !r.success
            &&& r.tx_hash == Some(tx_hash)
            &&& r.error matches Some(e) && e@ == "Reverted"@
            &&& spec_gas_rel(gas_used, r.gas_used)
        },
        Phase::TimedOut { sent } => {
            &&& !r.success
            &&& r.tx_hash == sent
            &&& r.error matches Some(e) && e@ == spec_error_text(ExecError::TimedOut)
            &&& r.gas_used is None
        },
        Phase::Failed { reason } => {
            &&& !r.success
            &&& r.tx_hash is None
            &&& r.error matches Some(e) && e@ == spec_error_text(reason)
            &&& r.gas_used is None
        },
        _ => false,
    }
}

/// One execution attempt being driven to a terminal phase.
pub struct Machine {
    pub plan: ExecutionPlan,
    pub phase: Phase,
}

impl Machine {
    /// The machine's invariant; established at start and kept by every step.
    pub open spec fn wf(self) -> bool {
        spec_phase_wf(self.phase)
    }

    /// Begin an attempt for `plan` at time `now`.
    ///
    /// A plan whose deadline has already passed is timed out immediately,
    /// before any node call is requested.
    pub fn start(plan: ExecutionPlan, now: u64) -> (m: Machine)
        ensures
            m.wf(),
            m.plan == plan,
            spec_start_phase(plan, now, m.phase),
    {
        if now >= plan.deadline {
            Machine { plan, phase: Phase::TimedOut { sent: None } }
        } else {
            Machine { plan, phase: Phase::FetchingNonce }
        }
    }

    /// Whether the attempt is finished and ready to report.
    pub fn is_terminal(&self) -> (r: bool)
        ensures
            r == spec_is_terminal(self.phase),
    {
        match &self.phase {
            Phase::Confirmed { .. } => true,
            Phase::Reverted { .. } => true,
            Phase::TimedOut { .. } => true,
            Phase::Failed { .. } => true,
            _ => false,
        }
    }

    /// Feed the answer to the nonce read made at time `now`.
    pub fn on_nonce(self, now: u64, outcome: Result<u64, NodeError>) -> (m: Machine)
        requires
            self.wf(),
            self.phase is FetchingNonce,
        ensures
            m.wf(),
            m.plan == self.plan,
            spec_nonce_step(self.plan, now, outcome, m.phase),
    {
        let Machine { plan, phase: _ } = self;
        if now >= plan.deadline {
            return Machine { plan, phase: Phase::TimedOut { sent: None } };
        }
        match outcome {
            Ok(live_nonce) => {
                match build(&plan, live_nonce) {
                    Ok(utx) => Machine { plan, phase: Phase::Signing { utx } },
                    Err(reason) => Machine { plan, phase: Phase::Failed { reason } },
                }
            },
            Err(_) => Machine { plan, phase: Phase::FetchingNonce },
        }
    }

    /// Feed the signer's answer, obtained at time `now`: the signed
    /// transaction, or `None` when the signing capability refused.
    pub fn on_signed(self, now: u64, outcome: Option<SignedTransaction>) -> (m: Machine)
        requires
            self.wf(),
            self.phase is Signing,
        ensures
            m.wf(),
            m.plan == self.plan,
            spec_sign_step(self.plan, now, outcome, m.phase),
    {
        let Machine { plan, phase: _ } = self;
        if now >= plan.deadline {
            return Machine { plan, phase: Phase::TimedOut { sent: None } };
        }
        match outcome {
            Some(stx) => Machine { plan, phase: Phase::Submitting { stx, attempts: 0 } },
            None => Machine { plan, phase: Phase::Failed { reason: ExecError::SigningError } },
        }
    }

    /// Feed the answer to the broadcast made at time `now`: the transaction
    /// hash the node assigned, or the failure.
    pub fn on_broadcast(self, now: u64, outcome: Result<String, NodeError>) -> (m: Machine)
        requires
            self.wf(),
            self.phase is Submitting,
        ensures
            m.wf(),
            m.plan == self.plan,
            spec_broadcast_step(
                self.plan,
                self.phase->Submitting_stx,
                self.phase->Submitting_attempts,
                now,
                outcome,
                m.phase,
            ),
    {
        let Machine { plan, phase } = self;
        match phase {
            Phase::Submitting { stx, attempts } => {
                match outcome {
                    Ok(h) => {
                        if h.as_str().unicode_len() > 0 {
                            if now >= plan.deadline {
                                Machine { plan, phase: Phase::TimedOut { sent: Some(h) } }
                            } else {
                                Machine { plan, phase: Phase::AwaitingReceipt { tx_hash: h } }
                            }
                        } else {
                            Self::broadcast_failed(plan, stx, attempts, now, ExecError::RpcError)
                        }
                    },
                    Err(e) => {
                        let reason = match e {
                            NodeError::Network => ExecError::NetworkError,
                            NodeError::Rpc => ExecError::RpcError,
                        };
                        Self::broadcast_failed(plan, stx, attempts, now, reason)
                    },
                }
            },
            _ => unreached(),
        }
    }

    /// The machine after a broadcast failure with cause `reason`.
    fn broadcast_failed(
        plan: ExecutionPlan,
        stx: SignedTransaction,
        attempts: u64,
        now: u64,
        reason: ExecError,
    ) -> (m: Machine)
        requires
            attempts < MAX_BROADCAST_ATTEMPTS,
            reason == ExecError::NetworkError || reason == ExecError::RpcError,
        ensures
            m.wf(),
            m.plan == plan,
            spec_broadcast_failure(plan, stx, attempts, now, reason, m.phase),
    {
        if now >= plan.deadline {
            Machine { plan, phase: Phase::TimedOut { sent: None } }
        } else if attempts + 1 < MAX_BROADCAST_ATTEMPTS {
            Machine { plan, phase: Phase::Submitting { stx, attempts: attempts + 1 } }
        } else {
            Machine { plan, phase: Phase::Failed { reason } }
        }
    }

    /// Feed the answer to the receipt poll made at time `now`.
    pub fn on_receipt(self, now: u64, outcome: Result<Option<Receipt>, NodeError>) -> (m: Machine)
        requires
            self.wf(),
            self.phase is AwaitingReceipt,
        ensures
            m.wf(),
            m.plan == self.plan,
            spec_receipt_step(
                self.plan,
                self.phase->AwaitingReceipt_tx_hash,
                now,
                outcome,
                m.phase,
            ),
    {
        let Machine { plan, phase } = self;
        match phase {
            Phase::AwaitingReceipt { tx_hash } => {
                match outcome {
                    Ok(Some(rc)) => {
                        if rc.status_ok {
                            Machine {
                                plan,
                                phase: Phase::Confirmed { tx_hash, gas_used: rc.gas_used },
                            }
                        } else {
                            Machine {
                                plan,
                                phase: Phase::Reverted { tx_hash, gas_used: rc.gas_used },
                            }
                        }
                    },
                    _ => {
                        if now >= plan.deadline {
                            Machine { plan, phase: Phase::TimedOut { sent: Some(tx_hash) } }
                        } else {
                            Machine { plan, phase: Phase::AwaitingReceipt { tx_hash } }
                        }
                    },
                }
            },
            _ => unreached(),
        }
    }

    /// Map the terminal phase to the result owed to the caller.
    pub fn report(self) -> (r: ExecutionResult)
        requires
            self.wf(),
            spec_is_terminal(self.phase),
        ensures
            r.wf(),
            spec_report_rel(self.phase, r),
    {
        let Machine { plan: _, phase } = self;
        match phase {
            Phase::Confirmed { tx_hash, gas_used } => ExecutionResult {
                success: true,
                tx_hash: Some(tx_hash),
                error: None,
                gas_used: match gas_used {
                    Some(g) => Some(u64_to_dec(g)),
                    None => None,
                },
            },
            Phase::Reverted { tx_hash, gas_used } => ExecutionResult {
                success: false,
                tx_hash: Some(tx_hash),
                error: Some("Reverted".to_owned()),
                gas_used: match gas_used {
                    Some(g) => Some(u64_to_dec(g)),
                    None => None,
                },
            },
            Phase::TimedOut { sent } => ExecutionResult {
                success: false,
                tx_hash: sent,
                error: Some(ExecError::TimedOut.message()),
                gas_used: None,
            },
            Phase::Failed { reason } => ExecutionResult {
                success: false,
                tx_hash: None,
                error: Some(reason.message()),
                gas_used: None,
            },
            _ => unreached(),
        }
    }
}

/// Deadline law: a plan whose deadline has already passed when the attempt
/// starts is timed out at once — the machine is terminal before any node
/// call is requested, and reports failure with no transaction hash and the
/// `TimedOut` cause.
pub proof fn law_expired_deadline_times_out(
    plan: ExecutionPlan,
    now: u64,
    m: Machine,
    r: ExecutionResult,
)
    requires
        now >= plan.deadline,
        m.plan == plan,
        spec_start_phase(plan, now, m.phase),
        spec_report_rel(m.phase, r),
    ensures
        spec_is_terminal(m.phase),
        !spec_awaits_node(m.phase),
        !r.success,
        r.tx_hash is None,
        r.error matches Some(e) && e@ == spec_error_text(ExecError::TimedOut),
{
}

/// Rejection law: when a gas field of the plan does not parse as an unsigned
/// decimal integer, the first nonce answer inside the deadline settles the
/// attempt as `InvalidPlan`, reported as failure with no transaction hash.
pub proof fn law_unparseable_gas_rejected(
    plan: ExecutionPlan,
    now: u64,
    live_nonce: u64,
    next: Phase,
    r: ExecutionResult,
)
    requires
        now < plan.deadline,
        !crate::decimal::spec_parses_u64(plan.gas_limit@) || !crate::decimal::spec_parses_u64(
            plan.gas_price@,
        ),
        spec_nonce_step(plan, now, Ok(live_nonce), next),
        spec_report_rel(next, r),
    ensures
        next == (Phase::Failed { reason: ExecError::InvalidPlan }),
        !r.success,
        r.tx_hash is None,
        r.error matches Some(e) && e@ == spec_error_text(ExecError::InvalidPlan),
{
}

/// Confirmation law: from the awaiting-receipt phase, a receipt that reports
/// on-chain success confirms the attempt, and its report is success carrying
/// the broadcast transaction hash — which is never empty — and no error.
pub proof fn law_confirming_receipt_succeeds(
    m: Machine,
    now: u64,
    rc: Receipt,
    next: Phase,
    r: ExecutionResult,
)
    requires
        m.wf(),
        m.phase matches Phase::AwaitingReceipt { .. },
        rc.status_ok,
        spec_receipt_step(m.plan, m.phase->AwaitingReceipt_tx_hash, now, Ok(Some(rc)), next),
        spec_report_rel(next, r),
    ensures
        next matches Phase::Confirmed { .. },
        r.success,
        r.tx_hash matches Some(h) && h@.len() > 0,
        r.error is None,
{
}

/// Report invariant law: the report of any well-formed terminal phase never
/// lacks both the transaction hash and the error, and never pairs success
/// with an error.
pub proof fn law_report_well_formed(ph: Phase, r: ExecutionResult)
    requires
        spec_phase_wf(ph),
        spec_is_terminal(ph),
        spec_report_rel(ph, r),
    ensures
        r.wf(),
        r.tx_hash is None ==> r.error is Some,
        r.success ==> r.error is None && r.tx_hash is Some,
{
}

/// Backoff in milliseconds before broadcast retry number `attempts + 1`,
/// doubling with each attempt already made.
pub fn backoff_ms(attempts: u64) -> (r: u64)
    requires
        attempts < MAX_BROADCAST_ATTEMPTS,
    ensures
        r == BASE_BACKOFF_MS * pow2(attempts as nat),
{
    proof {
        lemma2_to64();
    }
    if attempts == 0 {
        100
    } else if attempts == 1 {
        200
    } else if attempts == 2 {
        400
    } else if attempts == 3 {
        800
    } else if attempts == 4 {
        1600
    } else if attempts == 5 {
        3200
    } else if attempts == 6 {
        6400
    } else {
        12800
    }
}

} // verus!
