//! The data contract between the engine and its callers: the plan that an
//! upstream collaborator submits, the result the engine reports, and the
//! error taxonomy.

use vstd::prelude::*;

verus! {

/// A fully-formed arbitrage attempt. Immutable once submitted.
///
/// `gas_limit` and `gas_price` are decimal-string-encoded unsigned integers,
/// chosen as strings to avoid precision loss across word-size boundaries;
/// `calldata` is a `0x`-prefixed hex encoding of the contract call payload.
pub struct ExecutionPlan {
    pub opportunity_id: String,
    pub flashloan_provider: String,
    pub calldata: String,
    pub gas_limit: String,
    pub gas_price: String,
    pub nonce: u64,
    pub deadline: u64,
}

/// Terminal outcome of one execution attempt. Immutable once constructed.
pub struct ExecutionResult {
    pub success: bool,
    pub tx_hash: Option<String>,
    pub error: Option<String>,
    pub gas_used: Option<String>,
}

impl ExecutionResult {
    /// Exactly one of "success with a transaction hash" or "failure with an
    /// error" holds; in particular the hash and the error are never both
    /// absent, and success never carries an error.
    pub open spec fn wf(self) -> bool {
        &&& self.success ==> self.tx_hash is Some && self.error is None
        &&& !self.success ==> self.error is Some
    }
}

/// Why an attempt did not confirm.
#[derive(Clone, Copy, Debug, PartialEq, Eq, Structural)]
pub enum ExecError {
    /// A plan field is malformed; never retried.
    InvalidPlan,
    /// No encoding adapter for the requested flashloan provider; never retried.
    UnsupportedProvider,
    /// The signing capability refused the payload; never retried.
    SigningError,
    /// Connectivity loss; transient, retried while the deadline allows.
    NetworkError,
    /// Malformed node response; transient, bounded retry.
    RpcError,
    /// An attempt with the same opportunity id is already in flight.
    DuplicateExecution,
    /// The deadline passed with the outcome unknown; never retried.
    TimedOut,
}

/// The text that reports carry for each error.
pub open spec fn spec_error_text(e: ExecError) -> Seq<char> {
    match e {
        ExecError::InvalidPlan => "InvalidPlan"@,
        ExecError::UnsupportedProvider => "UnsupportedProvider"@,
        ExecError::SigningError => "SigningError"@,
        ExecError::NetworkError => "NetworkError"@,
        ExecError::RpcError => "RpcError"@,
        ExecError::DuplicateExecution => "DuplicateExecution"@,
        ExecError::TimedOut => "TimedOut"@,
    }
}

impl ExecError {
    /// The human-readable cause placed in `ExecutionResult::error`.
    pub fn message(&self) -> (r: String)
        ensures
            r@ == spec_error_text(*self),
    {
        match self {
            ExecError::InvalidPlan => "InvalidPlan".to_owned(),
            ExecError::UnsupportedProvider => "UnsupportedProvider".to_owned(),
            ExecError::SigningError => "SigningError".to_owned(),
            ExecError::NetworkError => "NetworkError".to_owned(),
            ExecError::RpcError => "RpcError".to_owned(),
            ExecError::DuplicateExecution => "DuplicateExecution".to_owned(),
            ExecError::TimedOut => "TimedOut".to_owned(),
        }
    }
}

} // verus!
