use near_fuzz::compare::{compare, ComparisonResult};
use near_fuzz::context::{build_context, create_context, DEFAULT_PREPAID_GAS};
use near_fuzz::driver::{
    find_entry_point, parse_differential_args, parse_precompile_args, exit_code_for,
    UsageError,
};
use near_fuzz::code::ContractCode;
use near_fuzz::outcome::{bound_by_gas, outcomes_equivalent, Abort, ErrorKind, HarnessError, Outcome};

fn outcome(gas: u64, ret: Option<Vec<u8>>, abort: Option<(ErrorKind, &str)>, logs: &[&str]) -> Outcome {
    Outcome {
        return_data: ret,
        gas_burnt: gas,
        abort: abort.map(|(kind, m)| Abort { kind, message: m.to_string() }),
        logs: logs.iter().map(|s| s.to_string()).collect(),
    }
}

fn strings(v: &[&str]) -> Vec<String> {
    v.iter().map(|s| s.to_string()).collect()
}

#[test]
fn minimal_contract_agrees() {
    let a = outcome(2_646_228, None, None, &[]);
    let b = outcome(2_646_228, None, None, &[]);
    assert_eq!(compare(&vec![Ok(a), Ok(b)]), ComparisonResult::Agreement);
}

#[test]
fn missing_entry_point_agrees_despite_wording() {
    let a = outcome(0, None, Some((ErrorKind::MethodNotFound, "MethodNotFound")), &[]);
    let b = outcome(0, None, Some((ErrorKind::MethodNotFound, "export `nonexistent` missing")), &["x"]);
    assert!(outcomes_equivalent(&a, &b));
    assert_eq!(compare(&vec![Ok(a), Ok(b)]), ComparisonResult::Agreement);
}

#[test]
fn truncated_header_agrees() {
    let a = outcome(0, None, Some((ErrorKind::MalformedInput, "unexpected end")), &[]);
    let b = outcome(0, None, Some((ErrorKind::MalformedInput, "magic header not detected")), &[]);
    assert_eq!(compare(&vec![Ok(a), Ok(b)]), ComparisonResult::Agreement);
}

#[test]
fn exact_gas_exhaustion() {
    let limit: u64 = 1_000_000;
    let a = bound_by_gas(outcome(1_000_123, None, None, &[]), limit);
    let b = bound_by_gas(outcome(limit, None, Some((ErrorKind::GasExceeded, "out of gas")), &[]), limit);
    assert_eq!(a.gas_burnt, limit);
    assert_eq!(a.abort.as_ref().unwrap().kind, ErrorKind::GasExceeded);
    assert_eq!(b.gas_burnt, limit);
    assert_eq!(b.abort.as_ref().unwrap().kind, ErrorKind::GasExceeded);
    assert_eq!(compare(&vec![Ok(a), Ok(b)]), ComparisonResult::Agreement);
}

#[test]
fn within_budget_is_untouched() {
    let r = bound_by_gas(outcome(500, Some(vec![1, 2]), None, &["log"]), 1000);
    assert_eq!(r.gas_burnt, 500);
    assert!(r.abort.is_none());
    assert_eq!(r.return_data, Some(vec![1, 2]));
    assert_eq!(r.logs, strings(&["log"]));
}

#[test]
fn gas_difference_is_mismatch() {
    let a = outcome(100, None, None, &[]);
    let b = outcome(101, None, None, &[]);
    assert_eq!(compare(&vec![Ok(a), Ok(b)]), ComparisonResult::Mismatch { first: 0, second: 1 });
}

#[test]
fn abort_kind_difference_is_mismatch() {
    let a = outcome(7, None, Some((ErrorKind::LinkError, "m")), &[]);
    let b = outcome(7, None, Some((ErrorKind::UnsupportedImport, "m")), &[]);
    assert_eq!(compare(&vec![Ok(a), Ok(b)]), ComparisonResult::Mismatch { first: 0, second: 1 });
    let c = outcome(7, None, None, &[]);
    let d = outcome(7, None, Some((ErrorKind::HostFunctionError, "m")), &[]);
    assert!(!outcomes_equivalent(&c, &d));
}

#[test]
fn return_data_difference_is_mismatch() {
    let a = outcome(7, Some(vec![1]), None, &[]);
    let b = outcome(7, Some(vec![2]), None, &[]);
    let c = outcome(7, None, None, &[]);
    assert!(!outcomes_equivalent(&a, &b));
    assert!(!outcomes_equivalent(&a, &c));
    let results: Vec<Result<Outcome, HarnessError>> =
        vec![Err(HarnessError::FatalError("boom".to_string())), Ok(a), Ok(outcome(7, Some(vec![1]), None, &[])), Ok(b)];
    assert_eq!(compare(&results), ComparisonResult::Mismatch { first: 1, second: 3 });
}

#[test]
fn one_backend_failing_is_partial_failure() {
    let a = outcome(7, None, None, &[]);
    let results = vec![Ok(a), Err(HarnessError::BackendUnavailable(near_fuzz::cache::VMKind::Wasmer0))];
    assert_eq!(compare(&results), ComparisonResult::PartialFailure);
}

#[test]
fn all_backends_failing_agree() {
    let results: Vec<Result<Outcome, HarnessError>> = vec![
        Err(HarnessError::FatalError("a".to_string())),
        Err(HarnessError::CacheIOError("b".to_string())),
    ];
    assert_eq!(compare(&results), ComparisonResult::Agreement);
}

#[test]
fn context_is_fixed_but_for_input() {
    let c = create_context(vec![1, 2, 3]);
    assert_eq!(c.current_account_id, "alice");
    assert_eq!(c.signer_account_id, "bob");
    assert_eq!(c.predecessor_account_id, "carol");
    assert_eq!(c.signer_account_pk, vec![0, 1, 2, 3, 4]);
    assert_eq!(c.input, vec![1, 2, 3]);
    assert_eq!(c.block_height, 10);
    assert_eq!(c.block_timestamp, 42);
    assert_eq!(c.epoch_height, 1);
    assert_eq!(c.account_balance, 2);
    assert_eq!(c.account_locked_balance, 0);
    assert_eq!(c.storage_usage, 12);
    assert_eq!(c.attached_deposit, 2);
    assert_eq!(c.prepaid_gas, 100_000_000_000_000);
    assert_eq!(c.prepaid_gas, DEFAULT_PREPAID_GAS);
    assert_eq!(c.random_seed, vec![0, 1, 2]);
    assert!(c.output_data_receivers.is_empty());
}

#[test]
fn context_gas_override() {
    let c = build_context(vec![], Some(5));
    assert_eq!(c.prepaid_gas, 5);
    assert!(c.input.is_empty());
    let d = build_context(vec![], None);
    assert_eq!(d.prepaid_gas, DEFAULT_PREPAID_GAS);
}

#[test]
fn precompile_args() {
    assert_eq!(parse_precompile_args(&strings(&["p", "a.wasm"])).unwrap(), "a.wasm");
    assert_eq!(parse_precompile_args(&strings(&["p"])), Err(UsageError::WrongArgumentCount(1)));
    assert_eq!(parse_precompile_args(&strings(&["p", "a", "b"])), Err(UsageError::WrongArgumentCount(3)));
}

#[test]
fn differential_args() {
    let r = parse_differential_args(&strings(&["p", "a.wasm", "run"])).unwrap();
    assert_eq!(r.wasm_path, "a.wasm");
    assert_eq!(r.method_name, "run");
    assert!(r.argument.is_none());
    let r = parse_differential_args(&strings(&["p", "a.wasm", "run", "{}"])).unwrap();
    assert_eq!(r.argument.as_deref(), Some("{}"));
    assert!(matches!(parse_differential_args(&strings(&["p", "a.wasm"])), Err(UsageError::WrongArgumentCount(2))));
    assert!(matches!(
        parse_differential_args(&strings(&["p", "a", "b", "c", "d"])),
        Err(UsageError::WrongArgumentCount(5))
    ));
}

#[test]
fn exit_codes() {
    assert_eq!(exit_code_for(ComparisonResult::Agreement), 0);
    assert_eq!(exit_code_for(ComparisonResult::Mismatch { first: 0, second: 1 }), 1);
    assert_eq!(exit_code_for(ComparisonResult::PartialFailure), 2);
}

#[test]
fn no_entry_point_is_found() {
    assert!(find_entry_point(&ContractCode::new(vec![0, 97, 115, 109, 1, 0, 0, 0])).is_none());
}
