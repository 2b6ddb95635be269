//! The boundary adapter: the single crossing point between the untrusted
//! caller and the isolated region. It validates the received buffer, drives
//! the relational session and the transaction script, and maps every
//! possible outcome onto a status code plus diagnostic lines — an internal
//! failure never unwinds past it.

use vstd::prelude::*;
use vstd::string::*;

use crate::script::{run_script, storage_failure, summary_of, ExecutionOutcome};
use crate::session::{Session, StorageFault};
use crate::status::{status_of_kind, Status};
use crate::text::ascii_to_string;

verus! {

/// The report of one boundary invocation: the status code for the caller,
/// the echoed buffer, and the diagnostic lines for the output channel. The
/// lines carry no control information: only the status does.
pub struct BoundaryReport {
    /// The fixed-width outcome returned to the untrusted caller.
    pub status: Status,
    /// The validated copy of the received buffer, echoed for observability.
    pub echoed: Vec<u8>,
    /// Human-readable diagnostic lines.
    pub lines: Vec<String>,
}

/// The greeting text constructed inside the isolated region and forwarded
/// on the diagnostic channel.
pub open spec fn greeting_text() -> Seq<char> {
    "This is a in-Enclave Rust string!"@
}

/// Whether a line reports the transaction summary of some description.
pub open spec fn is_item_line(s: Seq<char>) -> bool {
    exists|d: Seq<char>| s == "item: "@ + summary_of(d)
}

/// Whether a line reports a failure's diagnostic text.
pub open spec fn is_error_line(s: Seq<char>) -> bool {
    exists|t: Seq<char>| s == "error: "@ + t
}

/// Copy the untrusted buffer into an owned byte sequence of exactly the
/// same contents, sharing nothing with the caller afterwards. That the
/// span described by the caller was readable at all is an externally
/// asserted precondition, discharged before this point.
pub fn validate_buffer(data: &[u8]) -> (r: Vec<u8>)
    ensures
        r@ == data@,
{
    vstd::slice::slice_to_vec(data)
}

/// Build the greeting the way the region demonstrates its own text
/// handling: a literal head, a word decoded from a byte array, and a tail
/// decoded from a byte vector.
pub fn greeting_line() -> (r: String)
    ensures
        r@ == greeting_text(),
{
    let mut hello = String::from_str("This is a in-Enclave ");
    let word_bytes: Vec<u8> = vec![82, 117, 115, 116];
    let tail_bytes: Vec<u8> = vec![32, 115, 116, 114, 105, 110, 103, 33];
    let word = match ascii_to_string(word_bytes.as_slice()) {
        Some(s) => s,
        None => String::new(),
    };
    let tail = match ascii_to_string(tail_bytes.as_slice()) {
        Some(s) => s,
        None => String::new(),
    };
    hello.append(word.as_str());
    hello.append(tail.as_str());
    proof {
        reveal_strlit("This is a in-Enclave ");
        reveal_strlit("This is a in-Enclave Rust string!");
        assert(hello@ =~= greeting_text());
    }
    hello
}

/// The single-line report list for a failure, carrying exactly the given
/// diagnostic text.
fn error_lines(diag: &String) -> (r: Vec<String>)
    ensures
        r@.len() == 1,
        r@[0]@ == "error: "@ + diag@,
{
    let mut line = String::from_str("error: ");
    line.append(diag.as_str());
    let mut lines: Vec<String> = Vec::new();
    lines.push(line);
    lines
}

/// Map one script outcome onto the report that crosses the boundary: a
/// success becomes the Success status with the item line for exactly that
/// summary, then "typical", then the greeting; a failure of kind `k`
/// becomes the status that names `k` with one error line carrying exactly
/// the outcome's diagnostic text.
pub fn report_of(outcome: ExecutionOutcome, echoed: Vec<u8>) -> (r: BoundaryReport)
    ensures
        r.echoed@ == echoed@,
        outcome matches ExecutionOutcome::Success(s) ==> {
            &&& r.status == Status::Success
            &&& r.lines@.len() == 3
            &&& r.lines@[0]@ == "item: "@ + s@
            &&& r.lines@[1]@ == "typical"@
            &&& r.lines@[2]@ == greeting_text()
        },
        outcome matches ExecutionOutcome::Failure(k, d) ==> {
            &&& r.status == status_of_kind(k)
            &&& r.lines@.len() == 1
            &&& r.lines@[0]@ == "error: "@ + d@
        },
{
    match outcome {
        ExecutionOutcome::Success(summary) => {
            let mut item = String::from_str("item: ");
            item.append(summary.as_str());
            let mut lines: Vec<String> = Vec::new();
            lines.push(item);
            lines.push(String::from_str("typical"));
            lines.push(greeting_line());
            BoundaryReport { status: Status::Success, echoed, lines }
        },
        ExecutionOutcome::Failure(k, diag) => {
            BoundaryReport { status: Status::from_kind(k), echoed, lines: error_lines(&diag) }
        },
    }
}

/// Drive one whole invocation over an already-opened (or failed) session:
/// echo the validated buffer, apply the schema, run the transaction script,
/// and map the outcome onto a status plus diagnostic lines.
///
/// The session is handed in as data precisely so that the mapping is fixed
/// for every way the engine can answer — including failing to open at all.
pub fn process(buffer: &[u8], opened: Result<Session, StorageFault>) -> (r: BoundaryReport)
    ensures
        r.echoed@ == buffer@,
        r.status != Status::BufferRisk,
        opened is Err ==> r.status == Status::StorageFailure,
        r.status == Status::Success ==> {
            &&& r.lines@.len() == 3
            &&& is_item_line(r.lines@[0]@)
            &&& r.lines@[1]@ == "typical"@
            &&& r.lines@[2]@ == greeting_text()
        },
        r.status != Status::Success ==> r.lines@.len() == 1 && is_error_line(r.lines@[0]@),
{
    let echoed = validate_buffer(buffer);
    let outcome = match &opened {
        Ok(sess) => match sess.apply_schema() {
            Ok(()) => run_script(sess),
            Err(f) => storage_failure(&f),
        },
        Err(f) => storage_failure(f),
    };
    let ghost o = outcome;
    let r = report_of(outcome, echoed);
    proof {
        match o {
            ExecutionOutcome::Success(s) => {
                let d = choose|d: Seq<char>| s@ == summary_of(d);
                assert(r.lines@[0]@ == "item: "@ + summary_of(d));
                assert(is_item_line(r.lines@[0]@));
            },
            ExecutionOutcome::Failure(k, dd) => {
                assert(r.lines@[0]@ == "error: "@ + dd@);
                assert(is_error_line(r.lines@[0]@));
            },
        }
    }
    r
}

/// The exported entry point of the isolated region: receive the untrusted
/// buffer (already copied to safe memory by the shim at the raw boundary),
/// open a fresh ephemeral session, and run one scripted transaction. Every
/// outcome comes back as a status code; nothing unwinds.
pub fn say_something(buffer: &[u8]) -> (r: BoundaryReport)
    ensures
        r.echoed@ == buffer@,
        r.status != Status::BufferRisk,
        r.status == Status::Success ==> {
            &&& r.lines@.len() == 3
            &&& is_item_line(r.lines@[0]@)
            &&& r.lines@[1]@ == "typical"@
            &&& r.lines@[2]@ == greeting_text()
        },
        r.status != Status::Success ==> r.lines@.len() == 1 && is_error_line(r.lines@[0]@),
{
    process(buffer, Session::open_in_memory())
}

} // verus!
