//! Turning a plan into a signable transaction: field validation, provider
//! selection, and nonce reconciliation against live chain state.

use vstd::prelude::*;
use crate::calldata::decode_calldata;
use crate::calldata::spec_calldata_bytes;
use crate::calldata::spec_wf_calldata;
use crate::decimal::parse_u64;
use crate::decimal::spec_dec_val;
use crate::decimal::spec_parses_u64;
use crate::plan::ExecError;
use crate::plan::ExecutionPlan;
use crate::text::str_eq;

verus! {

/// A liquidity source with a known transaction encoding adapter.
#[derive(Clone, Copy, Debug, PartialEq, Eq, Structural)]
pub enum Provider {
    Aave,
    Balancer,
    DyDx,
}

/// The provider that a plan's `flashloan_provider` field names, if any.
pub open spec fn spec_provider_of(s: Seq<char>) -> Option<Provider> {
    if s == "Aave"@ {
        Some(Provider::Aave)
    } else if s == "Balancer"@ {
        Some(Provider::Balancer)
    } else if s == "dYdX"@ {
        Some(Provider::DyDx)
    } else {
        None
    }
}

/// Look up the encoding adapter for a provider name.
pub fn provider_of(name: &str) -> (r: Option<Provider>)
    ensures
        r == spec_provider_of(name@),
{
    if str_eq(name, "Aave") {
        Some(Provider::Aave)
    } else if str_eq(name, "Balancer") {
        Some(Provider::Balancer)
    } else if str_eq(name, "dYdX") {
        Some(Provider::DyDx)
    } else {
        None
    }
}

/// A chain-ready transaction awaiting a signature.
#[derive(Debug)]
pub struct UnsignedTransaction {
    pub provider: Provider,
    pub calldata: Vec<u8>,
    pub gas_limit: u64,
    pub gas_price: u64,
    /// The nonce the transaction is built with: always the live chain nonce.
    pub nonce: u64,
    pub deadline: u64,
    /// Recorded for audit when the live nonce displaced the plan's nonce.
    pub nonce_substituted: bool,
}

/// A signed transaction payload, produced by the caller's signing capability
/// and carried opaquely to broadcast.
#[derive(Debug)]
pub struct SignedTransaction {
    pub raw: Vec<u8>,
}

/// The plan's numeric fields and calldata are well-formed.
pub open spec fn spec_fields_ok(plan: ExecutionPlan) -> bool {
    &&& spec_parses_u64(plan.gas_limit@)
    &&& spec_parses_u64(plan.gas_price@)
    &&& spec_wf_calldata(plan.calldata@)
}

/// The plan names a provider with a known encoding adapter.
pub open spec fn spec_provider_ok(plan: ExecutionPlan) -> bool {
    spec_provider_of(plan.flashloan_provider@) is Some
}

/// The plan passes every build-time validation.
pub open spec fn spec_plan_valid(plan: ExecutionPlan) -> bool {
    spec_fields_ok(plan) && spec_provider_ok(plan)
}

/// What a successful build yields: decoded fields, the live nonce, and an
/// audit record of any nonce substitution.
pub open spec fn spec_built(plan: ExecutionPlan, live_nonce: u64, utx: UnsignedTransaction) -> bool {
    &&& spec_provider_of(plan.flashloan_provider@) == Some(utx.provider)
    &&& utx.calldata@ == spec_calldata_bytes(plan.calldata@)
    &&& utx.gas_limit == spec_dec_val(plan.gas_limit@)
    &&& utx.gas_price == spec_dec_val(plan.gas_price@)
    &&& utx.nonce == live_nonce
    &&& utx.deadline == plan.deadline
    &&& utx.nonce_substituted == (live_nonce != plan.nonce)
}

/// Build an unsigned transaction from a plan and the chain's live nonce.
///
/// Fails with `InvalidPlan` when a gas field does not parse as an unsigned
/// decimal integer or the calldata is not well-formed hex, and with
/// `UnsupportedProvider` when the fields are fine but no adapter is known for
/// the named provider. Uses `live_nonce` rather than the plan's nonce when
/// they diverge, recording the substitution.
pub fn build(plan: &ExecutionPlan, live_nonce: u64) -> (r: Result<UnsignedTransaction, ExecError>)
    ensures
        r is Ok <==> spec_plan_valid(*plan),
        r matches Ok(utx) ==> spec_built(*plan, live_nonce, utx),
        r == Err::<UnsignedTransaction, _>(ExecError::InvalidPlan) <==> !spec_fields_ok(*plan),
        r == Err::<UnsignedTransaction, _>(ExecError::UnsupportedProvider) <==> (spec_fields_ok(
            *plan,
        ) && !spec_provider_ok(*plan)),
{
    let gas_limit = match parse_u64(plan.gas_limit.as_str()) {
        Some(v) => v,
        None => {
            return Err(ExecError::InvalidPlan);
        },
    };
    let gas_price = match parse_u64(plan.gas_price.as_str()) {
        Some(v) => v,
        None => {
            return Err(ExecError::InvalidPlan);
        },
    };
    let calldata = match decode_calldata(plan.calldata.as_str()) {
        Some(b) => b,
        None => {
            return Err(ExecError::InvalidPlan);
        },
    };
    let provider = match provider_of(plan.flashloan_provider.as_str()) {
        Some(p) => p,
        None => {
            return Err(ExecError::UnsupportedProvider);
        },
    };
    Ok(
        UnsignedTransaction {
            provider,
            calldata,
            gas_limit,
            gas_price,
            nonce: live_nonce,
            deadline: plan.deadline,
            nonce_substituted: live_nonce != plan.nonce,
        },
    )
}

} // verus!
