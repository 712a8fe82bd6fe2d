use arb_executor::ExecError;
use arb_executor::FlightTable;

#[test]
fn duplicate_execution_is_refused_while_in_flight() {
    let mut table = FlightTable::new();
    let id = "op-1".to_string();
    assert!(table.begin(&id).is_ok());
    assert_eq!(table.begin(&id).unwrap_err(), ExecError::DuplicateExecution);
    assert_eq!(table.begin(&id).unwrap_err(), ExecError::DuplicateExecution);
}

#[test]
fn distinct_ids_run_independently() {
    let mut table = FlightTable::new();
    assert!(table.begin(&"op-1".to_string()).is_ok());
    assert!(table.begin(&"op-2".to_string()).is_ok());
    assert!(table.begin(&"op-2".to_string()).is_err());
}

#[test]
fn finished_id_can_run_again() {
    let mut table = FlightTable::new();
    let id = "op-1".to_string();
    assert!(table.begin(&id).is_ok());
    table.finish(&id);
    assert!(table.begin(&id).is_ok());
}

#[test]
fn finish_leaves_other_ids_in_flight() {
    let mut table = FlightTable::new();
    let a = "op-a".to_string();
    let b = "op-b".to_string();
    assert!(table.begin(&a).is_ok());
    assert!(table.begin(&b).is_ok());
    table.finish(&a);
    assert!(table.begin(&b).is_err());
    assert!(table.begin(&a).is_ok());
}

#[test]
fn finish_of_absent_id_is_harmless() {
    let mut table = FlightTable::new();
    table.finish(&"ghost-op".to_string());
    assert!(table.begin(&"ghost-op".to_string()).is_ok());
}
