//! The transaction script: a fixed two-step procedure against the relational
//! session — insert one literal row, then select it back — with every step's
//! postcondition explicitly checked and every deviation turned into a tagged
//! outcome instead of an abort.

use vstd::prelude::*;
use vstd::string::*;

use crate::session::{Cursor, Session, StepOutcome, StorageFault};
use crate::status::ErrorKind;

verus! {

/// The tagged result of the transaction script, consumed by the boundary
/// adapter alone.
#[derive(Debug)]
pub enum ExecutionOutcome {
    /// Every postcondition held; carries the human-readable row summary.
    Success(String),
    /// A step failed; carries the failure kind and its diagnostic text.
    Failure(ErrorKind, String),
}

/// The summary text for the single scratch row with a given description:
/// the checked literal identifier and price around it.
pub open spec fn summary_of(desc: Seq<char>) -> Seq<char> {
    "row: 1, "@ + desc + ", 10"@
}

/// Whether a text is the summary of some description.
pub open spec fn is_summary(s: Seq<char>) -> bool {
    exists|d: Seq<char>| s == summary_of(d)
}

/// The fixed diagnostic text for each non-storage failure kind.
pub open spec fn kind_text_of(k: ErrorKind) -> Seq<char> {
    match k {
        ErrorKind::Storage => "storage error"@,
        ErrorKind::ProtocolViolation => "row from insert"@,
        ErrorKind::UnexpectedState => "unexpected row count, identifier or value"@,
        ErrorKind::MissingRow => "no row from select"@,
        ErrorKind::UnexpectedNull => "description column was null"@,
    }
}

/// The diagnostic text that goes with a non-storage failure kind.
pub fn kind_text(k: ErrorKind) -> (r: String)
    ensures
        r@ == kind_text_of(k),
{
    match k {
        ErrorKind::Storage => String::from_str("storage error"),
        ErrorKind::ProtocolViolation => String::from_str("row from insert"),
        ErrorKind::UnexpectedState => String::from_str(
            "unexpected row count, identifier or value",
        ),
        ErrorKind::MissingRow => String::from_str("no row from select"),
        ErrorKind::UnexpectedNull => String::from_str("description column was null"),
    }
}

/// The outcome that reports a storage fault, carrying the engine's
/// diagnostic text.
pub fn storage_failure(f: &StorageFault) -> (r: ExecutionOutcome)
    ensures
        r matches ExecutionOutcome::Failure(k, t) && k == ErrorKind::Storage && (
        f.message matches Some(m) ==> t@ == m@) && (f.message is None ==> t@
            == "storage error"@),
{
    ExecutionOutcome::Failure(ErrorKind::Storage, f.detail())
}

/// The outcome that reports a script postcondition failure, carrying the
/// fixed diagnostic text of its kind.
pub fn script_failure(k: ErrorKind) -> (r: ExecutionOutcome)
    ensures
        r matches ExecutionOutcome::Failure(rk, t) && rk == k && t@ == kind_text_of(k),
{
    let t = kind_text(k);
    ExecutionOutcome::Failure(k, t)
}

/// Check the insert step's postconditions: the cursor must report
/// end-of-results at once (an insert never yields rows), exactly one row
/// must have been affected, and the generated identifier must be 1.
pub fn check_insert_outcome(first: StepOutcome, changed: i64, last_id: i64) -> (r: Result<
    (),
    ErrorKind,
>)
    ensures
        r is Ok <==> (first is EndOfResults && changed == 1 && last_id == 1),
        first is Row ==> r == Err::<(), ErrorKind>(ErrorKind::ProtocolViolation),
        first is EndOfResults && !(changed == 1 && last_id == 1) ==> r == Err::<
            (),
            ErrorKind,
        >(ErrorKind::UnexpectedState),
{
    match first {
        StepOutcome::Row => Err(ErrorKind::ProtocolViolation),
        StepOutcome::EndOfResults => {
            if changed == 1 && last_id == 1 {
                Ok(())
            } else {
                Err(ErrorKind::UnexpectedState)
            }
        },
    }
}

/// Check the select step's first cursor answer: exactly one row is owed, so
/// end-of-results there is the missing-row failure.
pub fn check_select_first(first: StepOutcome) -> (r: Result<(), ErrorKind>)
    ensures
        r is Ok <==> first is Row,
        first is EndOfResults ==> r == Err::<(), ErrorKind>(ErrorKind::MissingRow),
{
    match first {
        StepOutcome::Row => Ok(()),
        StepOutcome::EndOfResults => Err(ErrorKind::MissingRow),
    }
}

/// Check the selected row's postconditions and build its summary: the
/// description must be present, the identifier must be 1 and the price 10;
/// the summary then reads "row: 1, <description>, 10".
pub fn summarize_row(id: i64, desc: &Option<String>, price: i64) -> (r: Result<String, ErrorKind>)
    ensures
        r is Ok <==> (desc is Some && id == 1 && price == 10),
        r matches Ok(s) ==> (desc matches Some(d) && s@ == summary_of(d@)),
        desc is None ==> r == Err::<String, ErrorKind>(ErrorKind::UnexpectedNull),
        desc is Some && !(id == 1 && price == 10) ==> r == Err::<String, ErrorKind>(
            ErrorKind::UnexpectedState,
        ),
{
    match desc {
        None => Err(ErrorKind::UnexpectedNull),
        Some(d) => {
            if id == 1 && price == 10 {
                let mut s = String::from_str("row: 1, ");
                s.append(d.as_str());
                s.append(", 10");
                Ok(s)
            } else {
                Err(ErrorKind::UnexpectedState)
            }
        },
    }
}

/// Run the insert step: prepare and execute the literal insert, step its
/// cursor once, and check the step's postconditions.
fn insert_step(sess: &Session) -> (r: Result<(), ExecutionOutcome>)
    ensures
        r matches Err(o) ==> !(o is Success),
{
    let mut cur: Cursor<'_> = match sess.prepare(
        "insert into items (id, description, price) values (1, 'stuff', 10)",
    ) {
        Ok(c) => c,
        Err(f) => { return Err(storage_failure(&f)) },
    };
    let first = match cur.step() {
        Ok(s) => s,
        Err(f) => { return Err(storage_failure(&f)) },
    };
    let changed = match sess.changes() {
        Ok(n) => n,
        Err(f) => { return Err(storage_failure(&f)) },
    };
    let last_id = match sess.last_inserted_id() {
        Ok(n) => n,
        Err(f) => { return Err(storage_failure(&f)) },
    };
    match check_insert_outcome(first, changed, last_id) {
        Ok(()) => Ok(()),
        Err(k) => Err(script_failure(k)),
    }
}

/// Run the select step: prepare and execute the select, require exactly one
/// first row, check its values and build the summary.
fn select_step(sess: &Session) -> (r: Result<String, ExecutionOutcome>)
    ensures
        r matches Ok(s) ==> is_summary(s@),
        r matches Err(o) ==> !(o is Success),
{
    let mut cur: Cursor<'_> = match sess.prepare("select * from items") {
        Ok(c) => c,
        Err(f) => { return Err(storage_failure(&f)) },
    };
    let first = match cur.step() {
        Ok(s) => s,
        Err(f) => { return Err(storage_failure(&f)) },
    };
    match check_select_first(first) {
        Ok(()) => {},
        Err(k) => { return Err(script_failure(k)) },
    }
    let id = match cur.read_integer(0) {
        Ok(v) => v,
        Err(f) => { return Err(storage_failure(&f)) },
    };
    let desc = match cur.read_text(1) {
        Ok(d) => d,
        Err(f) => { return Err(storage_failure(&f)) },
    };
    let price = match cur.read_integer(2) {
        Ok(v) => v,
        Err(f) => { return Err(storage_failure(&f)) },
    };
    match summarize_row(id, &desc, price) {
        Ok(s) => {
            proof {
                let d = desc->0;
                assert(s@ == summary_of(d@));
            }
            Ok(s)
        },
        Err(k) => Err(script_failure(k)),
    }
}

/// Run the whole fixed transaction script against one session: the insert
/// step, then the select step. A success carries a well-formed row summary;
/// every deviation is reported as a tagged failure, never by unwinding.
pub fn run_script(sess: &Session) -> (r: ExecutionOutcome)
    ensures
        r matches ExecutionOutcome::Success(s) ==> is_summary(s@),
{
    match insert_step(sess) {
        Ok(()) => {},
        Err(o) => { return o },
    }
    match select_step(sess) {
        Ok(s) => ExecutionOutcome::Success(s),
        Err(o) => o,
    }
}

} // verus!
