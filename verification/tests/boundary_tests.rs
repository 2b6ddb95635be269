//! End-to-end and unit tests for the boundary entry point, the relational
//! session and the transaction script, run against the real relational
//! engine.

use boundary_session::boundary::{greeting_line, process, report_of, say_something, validate_buffer};
use boundary_session::script::{
    check_insert_outcome, check_select_first, kind_text, run_script, summarize_row,
    ExecutionOutcome,
};
use boundary_session::session::{Session, StepOutcome, StorageFault};
use boundary_session::status::{ErrorKind, Status};
use boundary_session::text::ascii_to_string;

fn fresh_session_with_schema() -> Session {
    let sess = Session::open_in_memory().unwrap();
    sess.apply_schema().unwrap();
    sess
}

#[test]
fn single_insert_select_returns_the_literal_row() {
    let sess = fresh_session_with_schema();
    match run_script(&sess) {
        ExecutionOutcome::Success(summary) => {
            assert_eq!(summary, "row: 1, stuff, 10");
        }
        ExecutionOutcome::Failure(kind, diag) => {
            panic!("script failed: {:?}: {}", kind, diag);
        }
    }
    // Select again and check the one row field by field.
    let mut cur = sess.prepare("select * from items").unwrap();
    assert_eq!(cur.step().unwrap(), StepOutcome::Row);
    assert_eq!(cur.read_integer(0).unwrap(), 1);
    assert_eq!(cur.read_text(1).unwrap(), Some(String::from("stuff")));
    assert_eq!(cur.read_integer(2).unwrap(), 10);
    assert_eq!(cur.step().unwrap(), StepOutcome::EndOfResults);
}

#[test]
fn changes_and_last_inserted_id_after_single_insert() {
    let sess = fresh_session_with_schema();
    let mut cur = sess
        .prepare("insert into items (id, description, price) values (1, 'stuff', 10)")
        .unwrap();
    assert_eq!(cur.step().unwrap(), StepOutcome::EndOfResults);
    assert_eq!(sess.changes().unwrap(), 1);
    assert_eq!(sess.last_inserted_id().unwrap(), 1);
}

#[test]
fn second_step_on_select_cursor_reports_end_of_results() {
    let sess = fresh_session_with_schema();
    let mut insert = sess
        .prepare("insert into items (id, description, price) values (1, 'stuff', 10)")
        .unwrap();
    assert_eq!(insert.step().unwrap(), StepOutcome::EndOfResults);
    let mut cur = sess.prepare("select * from items").unwrap();
    assert_eq!(cur.step().unwrap(), StepOutcome::Row);
    assert_eq!(cur.step().unwrap(), StepOutcome::EndOfResults);
}

#[test]
fn empty_buffer_yields_empty_echo_and_still_runs_the_script() {
    let report = say_something(&[]);
    assert!(report.echoed.is_empty());
    assert_eq!(report.status, Status::Success);
    assert_eq!(report.lines[0], "item: row: 1, stuff, 10");
}

#[test]
fn applying_the_schema_twice_yields_a_well_defined_storage_fault() {
    let sess = Session::open_in_memory().unwrap();
    assert!(sess.apply_schema().is_ok());
    let second = sess.apply_schema();
    assert!(second.is_err());
    // The fault carries the engine's diagnostic text, not an abort.
    let fault = second.err().unwrap();
    assert!(fault.message.is_some());
}

#[test]
fn end_to_end_hello_invocation() {
    let report = say_something(b"hello");
    assert_eq!(report.echoed, b"hello".to_vec());
    assert_eq!(report.status, Status::Success);
    assert_eq!(report.status.code(), 0);
    assert_eq!(report.lines.len(), 3);
    assert_eq!(report.lines[0], "item: row: 1, stuff, 10");
    assert_eq!(report.lines[1], "typical");
    assert_eq!(report.lines[2], "This is a in-Enclave Rust string!");
}

#[test]
fn failing_to_open_the_store_returns_a_storage_status_and_never_aborts() {
    let fault = StorageFault {
        code: None,
        message: Some(String::from("resource exhausted")),
    };
    let report = process(b"x", Err(fault));
    assert_eq!(report.status, Status::StorageFailure);
    assert_eq!(report.echoed, b"x".to_vec());
    assert_eq!(report.lines.len(), 1);
    assert_eq!(report.lines[0], "error: resource exhausted");
}

#[test]
fn storage_fault_without_message_has_fixed_detail() {
    let fault = StorageFault { code: Some(7), message: None };
    assert_eq!(fault.detail(), "storage error");
}

#[test]
fn status_codes_are_pairwise_distinct() {
    let all = [
        Status::Success,
        Status::BufferRisk,
        Status::StorageFailure,
        Status::ProtocolViolation,
        Status::UnexpectedState,
        Status::MissingRow,
        Status::UnexpectedNull,
    ];
    for i in 0..all.len() {
        for j in 0..all.len() {
            if i != j {
                assert_ne!(all[i].code(), all[j].code());
            }
        }
    }
}

#[test]
fn every_failure_kind_maps_to_its_own_non_success_status() {
    assert_eq!(Status::from_kind(ErrorKind::Storage), Status::StorageFailure);
    assert_eq!(
        Status::from_kind(ErrorKind::ProtocolViolation),
        Status::ProtocolViolation
    );
    assert_eq!(Status::from_kind(ErrorKind::UnexpectedState), Status::UnexpectedState);
    assert_eq!(Status::from_kind(ErrorKind::MissingRow), Status::MissingRow);
    assert_eq!(Status::from_kind(ErrorKind::UnexpectedNull), Status::UnexpectedNull);
}

#[test]
fn insert_postcondition_check_is_exact() {
    assert!(check_insert_outcome(StepOutcome::EndOfResults, 1, 1).is_ok());
    assert_eq!(
        check_insert_outcome(StepOutcome::Row, 1, 1),
        Err(ErrorKind::ProtocolViolation)
    );
    assert_eq!(
        check_insert_outcome(StepOutcome::EndOfResults, 0, 1),
        Err(ErrorKind::UnexpectedState)
    );
    assert_eq!(
        check_insert_outcome(StepOutcome::EndOfResults, 1, 2),
        Err(ErrorKind::UnexpectedState)
    );
}

#[test]
fn row_summary_check_is_exact() {
    let ok = summarize_row(1, &Some(String::from("stuff")), 10);
    assert_eq!(ok, Ok(String::from("row: 1, stuff, 10")));
    assert_eq!(summarize_row(1, &None, 10), Err(ErrorKind::UnexpectedNull));
    assert_eq!(
        summarize_row(2, &Some(String::from("stuff")), 10),
        Err(ErrorKind::UnexpectedState)
    );
    assert_eq!(
        summarize_row(1, &Some(String::from("stuff")), 9),
        Err(ErrorKind::UnexpectedState)
    );
}

#[test]
fn select_first_step_check_is_exact() {
    assert!(check_select_first(StepOutcome::Row).is_ok());
    assert_eq!(
        check_select_first(StepOutcome::EndOfResults),
        Err(ErrorKind::MissingRow)
    );
}

#[test]
fn report_of_success_carries_status_and_lines() {
    let outcome = ExecutionOutcome::Success(String::from("row: 1, stuff, 10"));
    let report = report_of(outcome, vec![104, 105]);
    assert_eq!(report.status, Status::Success);
    assert_eq!(report.echoed, vec![104, 105]);
    assert_eq!(report.lines.len(), 3);
    assert_eq!(report.lines[0], "item: row: 1, stuff, 10");
    assert_eq!(report.lines[1], "typical");
    assert_eq!(report.lines[2], "This is a in-Enclave Rust string!");
}

#[test]
fn report_of_failure_names_the_kind_and_its_text() {
    let outcome = ExecutionOutcome::Failure(ErrorKind::MissingRow, String::from("no row"));
    let report = report_of(outcome, Vec::new());
    assert_eq!(report.status, Status::MissingRow);
    assert_eq!(report.lines, vec![String::from("error: no row")]);

    let outcome = ExecutionOutcome::Failure(
        ErrorKind::UnexpectedNull,
        String::from("description column was null"),
    );
    let report = report_of(outcome, Vec::new());
    assert_eq!(report.status, Status::UnexpectedNull);
    assert_eq!(report.lines, vec![String::from("error: description column was null")]);
}

#[test]
fn diagnostic_texts_for_failure_kinds() {
    assert_eq!(kind_text(ErrorKind::ProtocolViolation), "row from insert");
    assert_eq!(kind_text(ErrorKind::MissingRow), "no row from select");
    assert_eq!(kind_text(ErrorKind::UnexpectedNull), "description column was null");
}

#[test]
fn ascii_decoding_is_exact_and_total() {
    assert_eq!(ascii_to_string(&[82, 117, 115, 116]), Some(String::from("Rust")));
    assert_eq!(
        ascii_to_string(&[32, 115, 116, 114, 105, 110, 103, 33]),
        Some(String::from(" string!"))
    );
    assert_eq!(ascii_to_string(&[]), Some(String::new()));
    assert_eq!(ascii_to_string(&[82, 200, 116]), None);
}

#[test]
fn greeting_is_the_constructed_string() {
    assert_eq!(greeting_line(), "This is a in-Enclave Rust string!");
}

#[test]
fn validate_buffer_copies_exactly() {
    let data = [7u8, 0, 255, 3];
    assert_eq!(validate_buffer(&data), vec![7u8, 0, 255, 3]);
    assert_eq!(validate_buffer(&[]), Vec::<u8>::new());
}
