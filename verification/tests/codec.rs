use arb_executor::ExecError;
use arb_executor::ExecutionPlan;
use arb_executor::Provider;
use arb_executor::build;
use arb_executor::calldata::decode_calldata;
use arb_executor::decimal::parse_u64;
use arb_executor::decimal::u64_to_dec;

fn plan_with(gas_limit: &str, gas_price: &str, calldata: &str, provider: &str) -> ExecutionPlan {
    ExecutionPlan {
        opportunity_id: "op-2".to_string(),
        flashloan_provider: provider.to_string(),
        calldata: calldata.to_string(),
        gas_limit: gas_limit.to_string(),
        gas_price: gas_price.to_string(),
        nonce: 7,
        deadline: 1000,
    }
}

#[test]
fn parse_u64_accepts_plain_numerals() {
    assert_eq!(parse_u64("0"), Some(0));
    assert_eq!(parse_u64("300000"), Some(300000));
    assert_eq!(parse_u64("50000000000"), Some(50000000000));
    assert_eq!(parse_u64("007"), Some(7));
    assert_eq!(parse_u64("18446744073709551615"), Some(u64::MAX));
}

#[test]
fn parse_u64_rejects_everything_else() {
    assert_eq!(parse_u64(""), None);
    assert_eq!(parse_u64("-5"), None);
    assert_eq!(parse_u64("+5"), None);
    assert_eq!(parse_u64("12a3"), None);
    assert_eq!(parse_u64(" 12"), None);
    assert_eq!(parse_u64("18446744073709551616"), None);
    assert_eq!(parse_u64("99999999999999999999999"), None);
}

#[test]
fn u64_to_dec_prints_canonical_numerals() {
    assert_eq!(u64_to_dec(0), "0");
    assert_eq!(u64_to_dec(7), "7");
    assert_eq!(u64_to_dec(10), "10");
    assert_eq!(u64_to_dec(300000), "300000");
    assert_eq!(u64_to_dec(u64::MAX), "18446744073709551615");
}

#[test]
fn decimal_round_trip() {
    for v in [0u64, 1, 9, 10, 99, 100, 123456789, u64::MAX] {
        assert_eq!(parse_u64(&u64_to_dec(v)), Some(v));
    }
}

#[test]
fn decode_calldata_accepts_hex_pairs() {
    assert_eq!(decode_calldata("0x1234"), Some(vec![0x12, 0x34]));
    assert_eq!(decode_calldata("0x"), Some(vec![]));
    assert_eq!(decode_calldata("0xDEADbeef"), Some(vec![0xde, 0xad, 0xbe, 0xef]));
    assert_eq!(decode_calldata("0x00ff"), Some(vec![0x00, 0xff]));
}

#[test]
fn decode_calldata_rejects_malformed_input() {
    assert_eq!(decode_calldata(""), None);
    assert_eq!(decode_calldata("0"), None);
    assert_eq!(decode_calldata("1234"), None);
    assert_eq!(decode_calldata("0X12"), None);
    assert_eq!(decode_calldata("0x123"), None);
    assert_eq!(decode_calldata("0xgg"), None);
    assert_eq!(decode_calldata("0x12 4"), None);
}

#[test]
fn build_decodes_every_field() {
    let plan = plan_with("300000", "50000000000", "0x1234", "Aave");
    let utx = build(&plan, 7).unwrap();
    assert_eq!(utx.provider, Provider::Aave);
    assert_eq!(utx.gas_limit, 300000);
    assert_eq!(utx.gas_price, 50000000000);
    assert_eq!(utx.calldata, vec![0x12, 0x34]);
    assert_eq!(utx.nonce, 7);
    assert_eq!(utx.deadline, 1000);
    assert!(!utx.nonce_substituted);
}

#[test]
fn build_records_nonce_substitution() {
    let plan = plan_with("300000", "50000000000", "0x1234", "Balancer");
    let utx = build(&plan, 9).unwrap();
    assert_eq!(utx.provider, Provider::Balancer);
    assert_eq!(utx.nonce, 9);
    assert!(utx.nonce_substituted);
}

#[test]
fn build_rejects_bad_fields_as_invalid_plan() {
    let bad_gas = plan_with("12a3", "50000000000", "0x1234", "Aave");
    assert_eq!(build(&bad_gas, 7).unwrap_err(), ExecError::InvalidPlan);
    let bad_price = plan_with("300000", "", "0x1234", "Aave");
    assert_eq!(build(&bad_price, 7).unwrap_err(), ExecError::InvalidPlan);
    let bad_calldata = plan_with("300000", "50000000000", "1234", "Aave");
    assert_eq!(build(&bad_calldata, 7).unwrap_err(), ExecError::InvalidPlan);
}

#[test]
fn build_rejects_unknown_provider() {
    let plan = plan_with("300000", "50000000000", "0x1234", "Acme");
    assert_eq!(build(&plan, 7).unwrap_err(), ExecError::UnsupportedProvider);
}

#[test]
fn bad_fields_take_precedence_over_unknown_provider() {
    let plan = plan_with("", "50000000000", "0x1234", "Acme");
    assert_eq!(build(&plan, 7).unwrap_err(), ExecError::InvalidPlan);
}

#[test]
fn known_providers_resolve() {
    for (name, provider) in [
        ("Aave", Provider::Aave),
        ("Balancer", Provider::Balancer),
        ("dYdX", Provider::DyDx),
    ] {
        let plan = plan_with("1", "1", "0x", name);
        assert_eq!(build(&plan, 0).unwrap().provider, provider);
    }
}

#[test]
fn error_messages_name_their_cause() {
    assert_eq!(ExecError::InvalidPlan.message(), "InvalidPlan");
    assert_eq!(ExecError::UnsupportedProvider.message(), "UnsupportedProvider");
    assert_eq!(ExecError::SigningError.message(), "SigningError");
    assert_eq!(ExecError::NetworkError.message(), "NetworkError");
    assert_eq!(ExecError::RpcError.message(), "RpcError");
    assert_eq!(ExecError::DuplicateExecution.message(), "DuplicateExecution");
    assert_eq!(ExecError::TimedOut.message(), "TimedOut");
}
