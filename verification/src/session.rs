//! The relational session: an ephemeral in-memory store scoped to one
//! boundary invocation, with prepare/step/read primitives on it.
//!
//! Every call into the relational engine goes through a narrow trusted
//! wrapper; everything around the wrappers is verified. The engine's answers
//! are never assumed: the transaction script checks them and turns every
//! deviation into data.

use vstd::prelude::*;
use vstd::string::*;

verus! {

/// A failure reported by the relational engine, carried as plain data:
/// the engine's numeric code and its diagnostic message, where it gave one.
#[derive(Debug)]
pub struct StorageFault {
    /// The engine's error code, if it reported one.
    pub code: Option<isize>,
    /// The engine's diagnostic message, if it recorded one.
    pub message: Option<String>,
}

impl StorageFault {
    /// The diagnostic text of this fault: the engine's message where it
    /// recorded one, a fixed text otherwise.
    pub fn detail(&self) -> (r: String)
        ensures
            self.message matches Some(m) ==> r@ == m@,
            self.message is None ==> r@ == "storage error"@,
    {
        match &self.message {
            Some(m) => m.clone(),
            None => String::from_str("storage error"),
        }
    }

    /// A fault for a scalar query that yielded no row.
    fn missing_result() -> (r: StorageFault)
        ensures
            r.message matches Some(m) && m@ == "no result row"@,
    {
        StorageFault { code: None, message: Some(String::from_str("no result row")) }
    }
}

/// The declared type of the relational engine's connection.
#[verifier::external_type_specification]
#[verifier::external_body]
pub struct ExConnection(sqlite3::Connection);

/// The declared type of the relational engine's prepared statement.
#[verifier::external_type_specification]
#[verifier::external_body]
pub struct ExStatement<'l>(sqlite3::Statement<'l>);

/// What a cursor step reports: a row is available, or the statement has been
/// evaluated entirely.
#[derive(Clone, Copy, PartialEq, Eq, Structural, Debug)]
pub enum StepOutcome {
    /// A row is available for reading.
    Row,
    /// No further rows: the statement is done.
    EndOfResults,
}

/// The storage class of a column in the current row.
#[derive(Clone, Copy, PartialEq, Eq, Structural, Debug)]
pub enum ColumnKind {
    /// Binary data.
    Binary,
    /// A floating-point number.
    Float,
    /// An integer number.
    Integer,
    /// A string.
    Text,
    /// The null value.
    Null,
}

/// Relies on sqlite3::open: opens a fresh connection; with the in-memory
/// path it creates an ephemeral private store, failing only on resource
/// exhaustion.
#[verifier::external_body]
fn open_memory() -> (r: Result<sqlite3::Connection, StorageFault>) {
    match sqlite3::open(":memory:") {
        Ok(c) => Ok(c),
        Err(e) => Err(StorageFault { code: e.code, message: e.message }),
    }
}

/// Relies on sqlite3::Connection::execute: runs one SQL statement without
/// processing rows, reporting the engine's error if it rejects it.
#[verifier::external_body]
fn exec_sql(conn: &sqlite3::Connection, sql: &str) -> (r: Result<(), StorageFault>) {
    match conn.execute(sql) {
        Ok(()) => Ok(()),
        Err(e) => Err(StorageFault { code: e.code, message: e.message }),
    }
}

/// Relies on sqlite3::Connection::prepare: compiles one SQL statement,
/// failing on a syntax error.
#[verifier::external_body]
fn prepare_sql<'l>(conn: &'l sqlite3::Connection, sql: &str) -> (r: Result<
    sqlite3::Statement<'l>,
    StorageFault,
>) {
    match conn.prepare(sql) {
        Ok(st) => Ok(st),
        Err(e) => Err(StorageFault { code: e.code, message: e.message }),
    }
}

/// Relies on sqlite3::Statement::next: advances the statement one step and
/// reports whether a row is available (its State::Row) or evaluation is
/// complete (State::Done).
#[verifier::external_body]
fn step_stmt(st: &mut sqlite3::Statement<'_>) -> (r: Result<bool, StorageFault>) {
    match st.next() {
        Ok(sqlite3::State::Row) => Ok(true),
        Ok(sqlite3::State::Done) => Ok(false),
        Err(e) => Err(StorageFault { code: e.code, message: e.message }),
    }
}

/// Relies on sqlite3::Statement::read for i64, which wraps the engine's
/// integer column accessor; its source always returns Ok.
#[verifier::external_body]
fn read_int(st: &sqlite3::Statement<'_>, i: usize) -> (r: Result<i64, StorageFault>)
    ensures
        r is Ok,
{
    match st.read::<i64>(i) {
        Ok(v) => Ok(v),
        Err(e) => Err(StorageFault { code: e.code, message: e.message }),
    }
}

/// Relies on sqlite3::Statement::read for String, which fails exactly when
/// the column holds no text to read.
#[verifier::external_body]
fn read_string(st: &sqlite3::Statement<'_>, i: usize) -> (r: Result<String, StorageFault>) {
    match st.read::<String>(i) {
        Ok(v) => Ok(v),
        Err(e) => Err(StorageFault { code: e.code, message: e.message }),
    }
}

/// Relies on sqlite3::Statement::kind: reports the storage class of a column
/// of the current row, one variant for one.
#[verifier::external_body]
fn column_kind(st: &sqlite3::Statement<'_>, i: usize) -> (r: ColumnKind) {
    match st.kind(i) {
        sqlite3::Type::Binary => ColumnKind::Binary,
        sqlite3::Type::Float => ColumnKind::Float,
        sqlite3::Type::Integer => ColumnKind::Integer,
        sqlite3::Type::String => ColumnKind::Text,
        sqlite3::Type::Null => ColumnKind::Null,
    }
}

/// Decide what a text column read yields from the column's storage class
/// and the engine's read result: a null column is an absent value, never a
/// failure; any other column yields exactly what the engine read.
fn text_of_column(kind: ColumnKind, read: Result<String, StorageFault>) -> (r: Result<
    Option<String>,
    StorageFault,
>)
    ensures
        kind is Null ==> r == Ok::<Option<String>, StorageFault>(None),
        read matches Ok(s) ==> (kind is Null || r == Ok::<Option<String>, StorageFault>(
            Some(s),
        )),
        read matches Err(e) ==> (kind is Null || r == Err::<Option<String>, StorageFault>(e)),
{
    match kind {
        ColumnKind::Null => Ok(None),
        _ => match read {
            Ok(s) => Ok(Some(s)),
            Err(e) => Err(e),
        },
    }
}

/// Decide whether a scalar query's first step produced the row it owes:
/// end-of-results there is a well-defined fault, not a panic.
fn require_row(first: StepOutcome) -> (r: Result<(), StorageFault>)
    ensures
        r is Ok <==> first is Row,
        first is EndOfResults ==> (r matches Err(f) && f.message matches Some(m) && m@
            == "no result row"@),
{
    match first {
        StepOutcome::Row => Ok(()),
        StepOutcome::EndOfResults => Err(StorageFault::missing_result()),
    }
}

/// A cursor over one prepared statement's results.
pub struct Cursor<'l> {
    st: sqlite3::Statement<'l>,
}

impl<'l> Cursor<'l> {
    /// Advance by one row.
    pub fn step(&mut self) -> Result<StepOutcome, StorageFault> {
        match step_stmt(&mut self.st) {
            Ok(true) => Ok(StepOutcome::Row),
            Ok(false) => Ok(StepOutcome::EndOfResults),
            Err(e) => Err(e),
        }
    }

    /// Read an integer column of the current row.
    pub fn read_integer(&self, i: usize) -> (r: Result<i64, StorageFault>)
        ensures
            r is Ok,
    {
        read_int(&self.st, i)
    }

    /// Read a nullable text column of the current row: `None` stands for an
    /// absent value, never for a failure. The decision is `text_of_column`'s
    /// contract; the engine is only asked for text where the column holds
    /// some.
    pub fn read_text(&self, i: usize) -> Result<Option<String>, StorageFault> {
        let kind = column_kind(&self.st, i);
        let read = match kind {
            ColumnKind::Null => Ok(String::new()),
            _ => read_string(&self.st, i),
        };
        text_of_column(kind, read)
    }
}

/// One ephemeral relational session: a fresh private in-memory store,
/// created at invocation start and torn down with the value.
pub struct Session {
    conn: sqlite3::Connection,
}

impl Session {
    /// Open a fresh ephemeral in-memory store.
    pub fn open_in_memory() -> Result<Session, StorageFault> {
        match open_memory() {
            Ok(conn) => Ok(Session { conn }),
            Err(e) => Err(e),
        }
    }

    /// Apply the session's single schema statement: the scratch relation
    /// `items` with columns id, description and price.
    ///
    /// Applying it a second time in the same session is not idempotent: the
    /// engine then rejects the statement and this reports the resulting
    /// well-defined `StorageFault`.
    pub fn apply_schema(&self) -> Result<(), StorageFault> {
        exec_sql(
            &self.conn,
            "create table items (id integer, description varchar(40), price integer)",
        )
    }

    /// Compile one statement into a cursor over its results.
    pub fn prepare<'l>(&'l self, sql: &str) -> Result<Cursor<'l>, StorageFault> {
        match prepare_sql(&self.conn, sql) {
            Ok(st) => Ok(Cursor { st }),
            Err(e) => Err(e),
        }
    }

    /// Evaluate one scalar query: step once, require a row, read its first
    /// column as an integer. The no-row decision is `require_row`'s
    /// contract.
    fn scalar_query(&self, sql: &str) -> Result<i64, StorageFault> {
        let mut cur = self.prepare(sql)?;
        let first = cur.step()?;
        require_row(first)?;
        cur.read_integer(0)
    }

    /// Rows affected by the most recent data-modifying statement.
    pub fn changes(&self) -> Result<i64, StorageFault> {
        self.scalar_query("select changes()")
    }

    /// The surrogate identifier assigned by the most recent insert.
    pub fn last_inserted_id(&self) -> Result<i64, StorageFault> {
        self.scalar_query("select last_insert_rowid()")
    }
}

} // verus!
