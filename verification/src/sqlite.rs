//! The SQLite database behind a board, reached through `rusqlite`. What a query
//! returns depends on what the database file holds, which other processes may change,
//! so these calls promise nothing of the rows beyond their shape. Each call returns a
//! receipt that records the request it made, what came back, and the file of the
//! database it was made on; only these calls make receipts, and only receipts made on
//! a database's own file extend its log of requests.
use vstd::prelude::*;

use rusqlite::params_from_iter;
use rusqlite::types::Value;
use rusqlite::types::ValueRef::{Blob, Integer, Null, Real, Text};

verus! {

/// An open `rusqlite` connection.
#[verifier::external_type_specification]
#[verifier::external_body]
pub struct ExConnection(rusqlite::Connection);

/// An error reported by `rusqlite` or SQLite.
#[verifier::external_type_specification]
#[verifier::external_body]
pub struct ExSqliteError(rusqlite::Error);

/// A value bound to a statement parameter, in `rusqlite`'s own form.
#[verifier::external_type_specification]
#[verifier::external_body]
pub struct ExSqliteValue(rusqlite::types::Value);

/// A value bound to a statement parameter.
#[derive(Debug)]
pub enum SqlArg {
    Null,
    Integer(i64),
    Text(String),
}

/// A value read from a result column. A floating-point value is carried without its number.
#[derive(Debug, Clone)]
pub enum SqlValue {
    Null,
    Integer(i64),
    Real,
    Text(String),
    Blob(Vec<u8>),
}

/// The mathematical value of a [`SqlArg`].
pub enum SqlArgView {
    Null,
    Integer(i64),
    Text(Seq<char>),
}

/// The mathematical value of a [`SqlValue`].
pub enum SqlValueView {
    Null,
    Integer(i64),
    Real,
    Text(Seq<char>),
    Blob(Seq<u8>),
}

impl View for SqlArg {
    type V = SqlArgView;

    open spec fn view(&self) -> SqlArgView {
        match self {
            SqlArg::Null => SqlArgView::Null,
            SqlArg::Integer(n) => SqlArgView::Integer(*n),
            SqlArg::Text(s) => SqlArgView::Text(s@),
        }
    }
}

impl View for SqlValue {
    type V = SqlValueView;

    open spec fn view(&self) -> SqlValueView {
        match self {
            SqlValue::Null => SqlValueView::Null,
            SqlValue::Integer(n) => SqlValueView::Integer(*n),
            SqlValue::Real => SqlValueView::Real,
            SqlValue::Text(s) => SqlValueView::Text(s@),
            SqlValue::Blob(b) => SqlValueView::Blob(b@),
        }
    }
}

/// The views of a row.
pub open spec fn row_view(row: Seq<SqlValue>) -> Seq<SqlValueView> {
    row.map_values(|v: SqlValue| v@)
}

/// The views of a result set.
pub open spec fn rows_view(rows: Seq<Vec<SqlValue>>) -> Seq<Seq<SqlValueView>> {
    rows.map_values(|r: Vec<SqlValue>| row_view(r@))
}

/// The views of statement arguments.
pub open spec fn args_view(args: Seq<SqlArg>) -> Seq<SqlArgView> {
    args.map_values(|a: SqlArg| a@)
}

/// A request made of the database, with what came back.
pub enum StorageRequest {
    /// Statements run together, and whether they succeeded.
    Batch(Seq<char>, bool),
    /// A query and its arguments, with the rows it returned (`None` when it failed).
    Read(Seq<char>, Seq<SqlArgView>, Option<Seq<Seq<SqlValueView>>>),
    /// A statement and its arguments, with whether it succeeded.
    Write(Seq<char>, Seq<SqlArgView>, bool),
    /// The row identifier that the database reported for the latest insert.
    InsertedRowId(i64),
}

/// The rows of a query's outcome, when it succeeded.
pub open spec fn response_of(rows: Result<Vec<Vec<SqlValue>>, rusqlite::Error>) -> Option<Seq<Seq<SqlValueView>>> {
    match rows {
        Ok(rs) => Some(rows_view(rs@)),
        Err(_) => None,
    }
}

/// A request as it was made, with what came back, in plain values.
#[derive(Debug)]
enum Request {
    Batch(String, bool),
    Read(String, Vec<SqlArg>, Option<Vec<Vec<SqlValue>>>),
    Write(String, Vec<SqlArg>, bool),
    InsertedRowId(i64),
}

/// The mathematical value of a [`Request`].
spec fn request_view(request: Request) -> StorageRequest {
    match request {
        Request::Batch(sql, ok) => StorageRequest::Batch(sql@, ok),
        Request::Read(sql, args, rows) => StorageRequest::Read(
            sql@,
            args_view(args@),
            match rows {
                Some(rs) => Some(rows_view(rs@)),
                None => None,
            },
        ),
        Request::Write(sql, args, ok) => StorageRequest::Write(sql@, args_view(args@), ok),
        Request::InsertedRowId(id) => StorageRequest::InsertedRowId(id),
    }
}

/// The view of a database file name.
pub open spec fn file_view(file: Option<String>) -> Option<Seq<char>> {
    match file {
        Some(name) => Some(name@),
        None => None,
    }
}

/// The record of one request that the calls of this module made: the request, what
/// came back, and the database file it was made on. Only those calls make receipts:
/// code elsewhere can neither build one nor change what it records.
#[derive(Debug)]
pub struct Receipt {
    request: Request,
    store: Option<String>,
}

impl Receipt {
    /// The request this receipt records.
    pub closed spec fn request(&self) -> StorageRequest {
        request_view(self.request)
    }

    /// The file of the database that the request was made on, as SQLite names it.
    pub closed spec fn store(&self) -> Option<Seq<char>> {
        file_view(self.store)
    }
}

/// Whether every receipt of `receipts` records a request made on the database file `file`.
pub open spec fn on_file(receipts: Seq<Receipt>, file: Option<Seq<char>>) -> bool {
    forall|i: int| 0 <= i < receipts.len() ==> #[trigger] receipts[i].store() == file
}

/// Receipts on one file, followed by one more on it, are on that file.
pub proof fn lemma_on_file_push(receipts: Seq<Receipt>, receipt: Receipt, file: Option<Seq<char>>)
    requires
        on_file(receipts, file),
        receipt.store() == file,
    ensures
        on_file(receipts.push(receipt), file),
{
    assert forall|i: int| 0 <= i < receipts.push(receipt).len() implies #[trigger] receipts.push(receipt)[i].store() == file by {
        if i < receipts.len() {
            assert(receipts.push(receipt)[i] == receipts[i]);
        }
    }
}

/// The requests that `receipts` record, in order.
pub open spec fn requests_of(receipts: Seq<Receipt>) -> Seq<StorageRequest> {
    receipts.map_values(|r: Receipt| r.request())
}

/// The receipts of the requests that produced a result: the provenance a result carries.
#[derive(Debug)]
pub struct Requests {
    receipts: Vec<Receipt>,
}

impl Requests {
    /// The requests recorded, in order.
    pub closed spec fn requests(&self) -> Seq<StorageRequest> {
        requests_of(self.receipts@)
    }

    /// Whether every request recorded was made on the database file `file`.
    pub closed spec fn made_on(&self, file: Option<Seq<char>>) -> bool {
        on_file(self.receipts@, file)
    }

    /// No requests.
    pub fn none() -> (r: Requests)
        ensures
            r.requests() == Seq::<StorageRequest>::empty(),
            forall|file: Option<Seq<char>>| #[trigger] r.made_on(file),
    {
        let r = Requests { receipts: Vec::new() };
        assert(r.requests() =~= Seq::<StorageRequest>::empty());
        r
    }

    /// The requests that `receipts` record.
    pub fn from_receipts(receipts: Vec<Receipt>) -> (r: Requests)
        ensures
            r.requests() == requests_of(receipts@),
            forall|file: Option<Seq<char>>| #[trigger] r.made_on(file) == on_file(receipts@, file),
    {
        Requests { receipts }
    }
}

/// Statement arguments in `rusqlite`'s form, with the plain values they were made from.
pub struct Bound {
    values: Vec<rusqlite::types::Value>,
    args: Vec<SqlArg>,
}

impl Bound {
    /// The plain values these arguments were made from.
    pub closed spec fn args(&self) -> Seq<SqlArgView> {
        args_view(self.args@)
    }
}

/// An open database, the name of its file, and the receipts of the requests made of it
/// through this value, in order.
pub struct Database {
    connection: rusqlite::Connection,
    file: Option<String>,
    log: Ghost<Seq<Receipt>>,
}

impl Database {
    /// The requests recorded for this database, in order.
    pub closed spec fn log(&self) -> Seq<StorageRequest> {
        requests_of(self.log@)
    }

    /// The file of this database, as SQLite names it when it is opened.
    pub closed spec fn file(&self) -> Option<Seq<char>> {
        file_view(self.file)
    }

    /// Whether every request recorded for this database was made on its own file.
    pub closed spec fn logged_on_own_file(&self) -> bool {
        on_file(self.log@, self.file())
    }

    /// The connection this value holds.
    pub closed spec fn held(&self) -> rusqlite::Connection {
        self.connection
    }

    /// The connection this value holds.
    pub fn connection(&self) -> (connection: &rusqlite::Connection)
        ensures
            *connection == self.held(),
    {
        &self.connection
    }

    /// Appends `receipts`, which record requests made on this database's file, to the
    /// log, in order.
    pub fn record(&mut self, receipts: Vec<Receipt>)
        requires
            on_file(receipts@, old(self).file()),
        ensures
            final(self).log() == old(self).log() + requests_of(receipts@),
            final(self).held() == old(self).held(),
            final(self).file() == old(self).file(),
            old(self).logged_on_own_file() ==> final(self).logged_on_own_file(),
    {
        let ghost before = self.log@;
        let mut receipts = receipts;
        let ghost all = receipts@;
        let mut taken: Vec<Receipt> = Vec::new();
        while receipts.len() > 0
            invariant
                all == taken@ + receipts@,
                self.log@ == before + taken@,
                self.connection == old(self).connection,
                self.file == old(self).file,
                on_file(all, self.file()),
            decreases receipts.len(),
        {
            let receipt = receipts.remove(0);
            assert(receipt == all[taken@.len() as int]);
            self.log = Ghost(self.log@.push(receipt));
            let ghost t = taken@;
            taken.push(receipt);
            assert(all =~= taken@ + receipts@);
        }
        assert(taken@ =~= all);
        assert(requests_of(before + all) =~= requests_of(before) + requests_of(all));
        proof {
            if on_file(before, self.file()) {
                assert forall|i: int| 0 <= i < (before + all).len() implies #[trigger] (before + all)[i].store() == self.file() by {
                    if i >= before.len() {
                        assert((before + all)[i] == all[i - before.len()]);
                    } else {
                        assert((before + all)[i] == before[i]);
                    }
                }
            }
        }
    }
}

/// `rusqlite::Connection::open`: opens, or creates, the database file at `path`, and
/// `Connection::path`: the name SQLite gives that file, which names the database in
/// every receipt of a request made on it. An opened database has no requests recorded.
/// Nothing is promised of the outcome or of the name, which depend on the file system.
#[verifier::external_body]
pub(crate) fn open_database<P: AsRef<std::path::Path>>(path: P) -> (opened: Result<Database, rusqlite::Error>)
    ensures
        opened matches Ok(db) ==> db.log() == Seq::<StorageRequest>::empty() && db.logged_on_own_file(),
{
    rusqlite::Connection::open(path).map(|connection| {
        let file = connection.path().map(|name| name.to_owned());
        Database { connection, file, log: Ghost(Seq::empty()) }
    })
}

/// `rusqlite::types::Value` from each argument, one for one; nothing is called.
#[verifier::external_body]
pub(crate) fn bind(args: Vec<SqlArg>) -> (bound: Bound)
    ensures
        bound.args() == args_view(args@),
{
    let values = args.iter().map(|a| match a {
        SqlArg::Null => Value::Null,
        SqlArg::Integer(n) => Value::Integer(*n),
        SqlArg::Text(s) => Value::Text(s.clone()),
    }).collect();
    Bound { values, args }
}

/// `rusqlite::Connection::execute_batch`: runs the statements of `sql` in order. The
/// receipt records `sql`, whether it succeeded and the file of `database`, on whose
/// connection the statements ran. Nothing is promised of the outcome.
#[verifier::external_body]
pub(crate) fn execute_batch(database: &Database, sql: &str) -> (out: (Result<(), rusqlite::Error>, Receipt))
    ensures
        out.1.request() == StorageRequest::Batch(sql@, out.0 is Ok),
        out.1.store() == database.file(),
{
    let done = database.connection.execute_batch(sql);
    let ok = done.is_ok();
    (done, Receipt { request: Request::Batch(sql.to_owned(), ok), store: database.file.clone() })
}

/// `rusqlite::Connection::execute`: runs one statement with `bound` as its parameters,
/// and returns the number of rows it changed. The receipt records the statement, its
/// arguments, whether it succeeded and the file of `database`, on whose connection it
/// ran. Nothing is promised of the outcome.
#[verifier::external_body]
pub(crate) fn execute(database: &Database, sql: &str, bound: Bound) -> (out: (Result<usize, rusqlite::Error>, Receipt))
    ensures
        out.1.request() == StorageRequest::Write(sql@, bound.args(), out.0 is Ok),
        out.1.store() == database.file(),
{
    let done = database.connection.execute(sql, params_from_iter(bound.values));
    let ok = done.is_ok();
    (done, Receipt { request: Request::Write(sql.to_owned(), bound.args, ok), store: database.file.clone() })
}

/// `rusqlite::Statement::query_map` on the statement `sql` with `bound` as its
/// parameters: every result row, with its first `columns` columns read as plain
/// values through `Row::get_ref`. Text that is not UTF-8 makes the query fail. The
/// receipt records the query, its arguments, the rows it returned and the file of
/// `database`, on whose connection it ran. Which rows come
/// back is not promised; each one that does has exactly `columns` values.
#[verifier::external_body]
pub(crate) fn query(database: &Database, sql: &str, bound: Bound, columns: usize) -> (out: (
    Result<Vec<Vec<SqlValue>>, rusqlite::Error>,
    Receipt,
))
    ensures
        out.1.request() == StorageRequest::Read(sql@, bound.args(), response_of(out.0)),
        out.1.store() == database.file(),
        out.0 matches Ok(rs) ==> forall|i: int| 0 <= i < rs.len() ==> #[trigger] rs[i].len() == columns,
{
    let rows = database.connection.prepare(sql).and_then(|mut statement| {
        let mapped = statement.query_map(params_from_iter(bound.values), |row| (0..columns).map(|i| Ok(match row.get_ref(i)? {
            Null => SqlValue::Null, Integer(n) => SqlValue::Integer(n), Real(_) => SqlValue::Real,
            Text(t) => SqlValue::Text(std::str::from_utf8(t)?.to_owned()), Blob(b) => SqlValue::Blob(b.to_vec()),
        })).collect())?;
        mapped.collect()
    });
    let response = rows.as_ref().ok().cloned();
    (rows, Receipt { request: Request::Read(sql.to_owned(), bound.args, response), store: database.file.clone() })
}

/// `rusqlite::Connection::last_insert_rowid`: the row id of the most recent successful
/// insert on the connection of `database`. The receipt records it and the file of
/// `database`. Nothing is promised of its value.
#[verifier::external_body]
pub(crate) fn last_insert_rowid(database: &Database) -> (out: (i64, Receipt))
    ensures
        out.1.request() == StorageRequest::InsertedRowId(out.0),
        out.1.store() == database.file(),
{
    let id = database.connection.last_insert_rowid();
    (id, Receipt { request: Request::InsertedRowId(id), store: database.file.clone() })
}

/// The `Display` text of a `rusqlite` error. Nothing is promised of the text.
#[verifier::external_body]
pub(crate) fn error_text(error: &rusqlite::Error) -> (text: String) {
    error.to_string()
}

} // verus!
