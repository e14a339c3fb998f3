//! The Task State Engine over its SQLite store. Every operation reads what it needs
//! from storage, decides with the verified functions of the engine, and writes the
//! decided change back. What storage returns is not known in advance (another
//! process may write to the same file). Each database call hands back a receipt of
//! the request it made and of what came back; the contracts state each operation's
//! requests and result in terms of those receipts. The mutating operations add them
//! to the board's log of requests; the operations on a shared board hand them back
//! with their result, or with their error in a [`Failure`].
use vstd::prelude::*;
use vstd::string::to_string_from_display_ensures;

use crate::ledger::{planned_proposal, proposed_record, views, Ledger, Record, RecordView};
use crate::records::{ProposalOutcome, RecordType};
use crate::policy::{classify_sensitivity, initial_release_state};
use crate::records::outcome_status;
use crate::sqlite::{
    args_view, bind, error_text, execute, execute_batch, last_insert_rowid, lemma_on_file_push, on_file,
    open_database, query, requests_of, rows_view, Database, Receipt, Requests, SqlArg, SqlArgView, SqlValue, SqlValueView,
    StorageRequest,
};
use crate::storage::{
    all_rows_readable, decode_ledger, decode_records, edit_args, edit_row,
    first_text, lists_actor, proposal_args, proposal_row, read_first_text, release_args, release_row,
     rows_list_actor, rows_readable, status_update_args, status_update_row,
    INSERT_RECORD, INSERT_REVOKED, INSERT_TASK, RECORD_COLUMNS, SCHEMA, SELECT_GOAL,
    SELECT_REVOKED, SELECT_TASK_RECORDS, UPDATE_EDIT, UPDATE_RELEASE, UPDATE_STATUS,
};
use crate::views::{handoff_of, heartbeat_of, pending_of, snapshot_of, Handoff, Heartbeat, ReviewQueue, Snapshot};

verus! {

/// Why an operation of the engine failed.
#[derive(Debug)]
pub enum BoardError {
    /// The database reported an error.
    Storage(rusqlite::Error),
    /// No task has this identifier.
    TaskNotFound(i64),
    /// This actor's session was revoked: it may no longer read, subscribe or propose.
    SessionRevoked(String),
    /// A stored record of the task cannot be read: its identifier is not an integer,
    /// or its content or actor is not text.
    UnreadableRecord,
}

impl BoardError {
    /// A human-readable description of the error.
    pub fn message(&self) -> (text: String)
        ensures
            self matches BoardError::SessionRevoked(actor) ==> text@ == "session revoked: "@ + actor@,
            self is UnreadableRecord ==> text@ == "a stored record cannot be read"@,
            self matches BoardError::TaskNotFound(id) ==> exists|digits: String|
                to_string_from_display_ensures::<i64>(&id, digits) && text@ == "task not found: "@ + digits@,
    {
        match self {
            BoardError::Storage(e) => error_text(e),
            BoardError::TaskNotFound(id) => {
                let mut text = "task not found: ".to_owned();
                let digits = id.to_string();
                text.append(digits.as_str());
                text
            },
            BoardError::SessionRevoked(actor) => {
                let mut text = "session revoked: ".to_owned();
                text.append(actor.as_str());
                text
            },
            BoardError::UnreadableRecord => "a stored record cannot be read".to_owned(),
        }
    }
}

/// A task created on a board.
#[derive(Clone, Copy, Debug, PartialEq, Eq, Structural)]
pub struct Task {
    pub id: i64,
}

/// A live subscription of an actor to a board's changes.
pub struct Subscription {
    pub actor: String,
    /// The requests that the subscription was granted on.
    pub provenance: Requests,
}

/// The error of an operation that reads through a shared board, with the receipts of
/// the requests that led to it.
#[derive(Debug)]
pub struct Failure {
    pub error: BoardError,
    /// The requests made before the operation failed, the last of them the one it failed on.
    pub provenance: Requests,
}

/// What an operation that only writes may report: success, or a storage error.
pub open spec fn write_outcome(result: Result<(), BoardError>) -> bool {
    result matches Err(e) ==> e is Storage
}

/// What an operation performed for `actor` may fail with, besides storage errors.
pub open spec fn denied_to(e: BoardError, actor: Seq<char>) -> bool {
    e matches BoardError::SessionRevoked(a) && a@ == actor
}

/// An outcome with the provenance of its error set aside.
pub open spec fn plain<T>(result: Result<T, Failure>) -> Result<T, BoardError> {
    match result {
        Ok(v) => Ok(v),
        Err(f) => Err(f.error),
    }
}

/// The requests that an outcome records: those of its value, or those of its error.
pub open spec fn sent<T>(result: Result<T, Failure>, provenance: spec_fn(T) -> Requests) -> Seq<StorageRequest> {
    match result {
        Ok(v) => provenance(v).requests(),
        Err(f) => f.provenance.requests(),
    }
}

/// Whether every request that an outcome records, of its value or of its error, was
/// made on the database file `file`.
pub open spec fn made_on_file<T>(result: Result<T, Failure>, provenance: spec_fn(T) -> Requests, file: Option<Seq<char>>) -> bool {
    match result {
        Ok(v) => provenance(v).made_on(file),
        Err(f) => f.provenance.made_on(file),
    }
}

/// Whether receipts on the database file `file` stay on it: what was added was made on it.
pub open spec fn kept_on(before: Seq<Receipt>, after: Seq<Receipt>, file: Option<Seq<char>>) -> bool {
    on_file(before, file) ==> on_file(after, file)
}

/// The failure of an operation that read a record row it cannot read.
pub open spec fn unreadable<T>(result: Result<T, BoardError>) -> bool {
    result matches Err(e) && e is UnreadableRecord
}

/// The reads of task `task_id`'s goal, then of its records, as `sent` records them, and
/// the result they lead to: a storage error when a query failed, `TaskNotFound` when the
/// goal query returned no goal (and then the records are not read), `UnreadableRecord`
/// when a returned record row cannot be read, and otherwise a value that `done` relates
/// to the goal and to the records that the rows describe.
pub open spec fn task_reads<T>(
    task_id: i64,
    sent: Seq<StorageRequest>,
    result: Result<T, BoardError>,
    done: spec_fn(T, Seq<char>, Seq<RecordView>) -> bool,
) -> bool {
    &&& sent.len() >= 1
    &&& is_read(sent[0], SELECT_GOAL@, seq![SqlArgView::Integer(task_id)])
    &&& match response(sent[0]) {
        None => sent.len() == 1 && failed_by_storage(result),
        Some(goal_rows) => match first_text(goal_rows) {
            None => sent.len() == 1 && (result matches Err(e) && e matches BoardError::TaskNotFound(id) && id == task_id),
            Some(goal) => {
                &&& sent.len() == 2
                &&& is_read(sent[1], SELECT_TASK_RECORDS@, seq![SqlArgView::Integer(task_id)])
                &&& match response(sent[1]) {
                    None => failed_by_storage(result),
                    Some(rows) => if rows_readable(rows) {
                        result matches Ok(v) && done(v, goal, decode_records(rows))
                    } else {
                        unreadable(result)
                    },
                }
            },
        },
    }
}

/// The access check of `actor`, as the first of `sent` records it, and what follows:
/// a storage error when the query failed, `SessionRevoked` when its rows list the actor,
/// and otherwise what `rest` says of the requests after it.
pub open spec fn checked_access<T>(
    actor: Seq<char>,
    sent: Seq<StorageRequest>,
    result: Result<T, BoardError>,
    rest: spec_fn(Seq<StorageRequest>) -> bool,
) -> bool {
    &&& sent.len() >= 1
    &&& is_read(sent[0], SELECT_REVOKED@, seq![SqlArgView::Text(actor)])
    &&& match response(sent[0]) {
        None => sent.len() == 1 && failed_by_storage(result),
        Some(revoked) => if lists_actor(revoked, actor) {
            sent.len() == 1 && (result matches Err(e) && denied_to(e, actor))
        } else {
            rest(sent.skip(1))
        },
    }
}

/// The snapshot read of task `task_id` on the database file `file`: its goal and the
/// snapshot of the records that its two queries returned, or the error that their
/// answers call for.
pub open spec fn snapshot_outcome(result: Result<Snapshot, Failure>, task_id: i64, file: Option<Seq<char>>) -> bool {
    &&& made_on_file(result, |s: Snapshot| s.provenance, file)
    &&& task_reads(
        task_id,
        sent(result, |s: Snapshot| s.provenance),
        plain(result),
        |s: Snapshot, goal: Seq<char>, records: Seq<RecordView>| s@ == snapshot_of(goal, records),
    )
}

/// The read of task `task_id`'s review queue on the database file `file`: the proposals
/// among the records that its one query returned, a storage error when it failed, or
/// `UnreadableRecord` when a returned record row cannot be read.
pub open spec fn pending_outcome(result: Result<ReviewQueue, Failure>, task_id: i64, file: Option<Seq<char>>) -> bool {
    let sent = sent(result, |q: ReviewQueue| q.provenance);
    &&& made_on_file(result, |q: ReviewQueue| q.provenance, file)
    &&& sent.len() == 1
    &&& is_read(sent[0], SELECT_TASK_RECORDS@, seq![SqlArgView::Integer(task_id)])
    &&& match response(sent[0]) {
        None => failed_by_storage(plain(result)),
        Some(rows) => if rows_readable(rows) {
            result matches Ok(q) && views(q.records@) == pending_of(decode_records(rows))
        } else {
            unreadable(plain(result))
        },
    }
}

/// The heartbeat read of task `task_id` by `actor` under `schema` on the database file
/// `file`: the access check, then the reads of the task, and the heartbeat of what they
/// returned.
pub open spec fn heartbeat_outcome(
    result: Result<Heartbeat, Failure>,
    task_id: i64,
    schema: Seq<char>,
    actor: Seq<char>,
    file: Option<Seq<char>>,
) -> bool {
    &&& made_on_file(result, |h: Heartbeat| h.provenance, file)
    &&& checked_access(
        actor,
        sent(result, |h: Heartbeat| h.provenance),
        plain(result),
        |rest: Seq<StorageRequest>| task_reads(
            task_id,
            rest,
            plain(result),
            |h: Heartbeat, goal: Seq<char>, records: Seq<RecordView>| h@ == heartbeat_of(schema, goal, records),
        ),
    )
}

/// The handoff composed of task `task_id` for `actor` under `schema` on the database
/// file `file`: the access check, then the reads of the task, and the handoff of what
/// they returned.
pub open spec fn handoff_outcome(
    result: Result<Handoff, Failure>,
    task_id: i64,
    schema: Seq<char>,
    actor: Seq<char>,
    file: Option<Seq<char>>,
) -> bool {
    &&& made_on_file(result, |h: Handoff| h.provenance, file)
    &&& checked_access(
        actor,
        sent(result, |h: Handoff| h.provenance),
        plain(result),
        |rest: Seq<StorageRequest>| task_reads(
            task_id,
            rest,
            plain(result),
            |h: Handoff, goal: Seq<char>, records: Seq<RecordView>| h@ == handoff_of(schema, goal, records),
        ),
    )
}

/// A subscription of `actor` on the database file `file`: the access check alone, and a
/// subscription of the actor when it granted access.
pub open spec fn subscription_outcome(result: Result<Subscription, Failure>, actor: Seq<char>, file: Option<Seq<char>>) -> bool {
    &&& made_on_file(result, |s: Subscription| s.provenance, file)
    &&& checked_access(
        actor,
        sent(result, |s: Subscription| s.provenance),
        plain(result),
        |rest: Seq<StorageRequest>| rest.len() == 0 && (result matches Ok(s) && s.actor@ == actor),
    )
}

/// A storage error as an engine error.
fn from_storage<T>(result: Result<T, rusqlite::Error>) -> (lifted: Result<T, BoardError>)
    ensures
        match result {
            Ok(v) => lifted == Ok::<T, BoardError>(v),
            Err(_) => lifted matches Err(e) && e is Storage,
        },
{
    match result {
        Ok(v) => Ok(v),
        Err(e) => Err(BoardError::Storage(e)),
    }
}

/// Whether `request` is the query `sql` with `args`.
pub open spec fn is_read(request: StorageRequest, sql: Seq<char>, args: Seq<SqlArgView>) -> bool {
    request matches StorageRequest::Read(s, a, _) && s == sql && a == args
}

/// The rows that a query returned, if it succeeded.
pub open spec fn response(request: StorageRequest) -> Option<Seq<Seq<SqlValueView>>> {
    match request {
        StorageRequest::Read(_, _, rows) => rows,
        _ => None,
    }
}

/// `request` is the statement `sql` with `args`, and the operation's result is what
/// its success gives: a failure is a storage error.
pub open spec fn written<T>(request: StorageRequest, sql: Seq<char>, args: Seq<SqlArgView>, result: Result<T, BoardError>) -> bool {
    &&& request == StorageRequest::Write(sql, args, result is Ok)
    &&& result matches Err(e) ==> e is Storage
}

/// The failure of an operation whose query failed.
pub open spec fn failed_by_storage<T>(result: Result<T, BoardError>) -> bool {
    result matches Err(e) && e is Storage
}

/// What an access check concludes from the revocation rows that storage returned for `actor`.
pub open spec fn authorization_of(actor: Seq<char>, rows: Option<Seq<Seq<SqlValueView>>>, result: Result<(), BoardError>) -> bool {
    match rows {
        None => failed_by_storage(result),
        Some(rows) => if lists_actor(rows, actor) {
            result matches Err(e) && denied_to(e, actor)
        } else {
            result is Ok
        },
    }
}

/// What a goal read of task `task_id` concludes from the rows that storage returned.
pub open spec fn goal_of(task_id: i64, rows: Option<Seq<Seq<SqlValueView>>>, result: Result<String, BoardError>) -> bool {
    match rows {
        None => failed_by_storage(result),
        Some(rows) => match first_text(rows) {
            Some(goal) => result matches Ok(g) && g@ == goal,
            None => result matches Err(e) && e matches BoardError::TaskNotFound(id) && id == task_id,
        },
    }
}

/// What a read of a task's records concludes from the rows that storage returned.
pub open spec fn ledger_of(rows: Option<Seq<Seq<SqlValueView>>>, result: Result<Ledger, BoardError>) -> bool {
    match rows {
        None => failed_by_storage(result),
        Some(rows) => if rows_readable(rows) {
            result matches Ok(l) && l@ == decode_records(rows)
        } else {
            unreadable(result)
        },
    }
}

/// The requests that reviewing record `id` with `outcome` makes, and its result: one
/// update that gives the record the outcome's status if it is still a proposal (the
/// statement itself tests that, so a record that is not a proposal is left as it is).
pub open spec fn review_requests(id: i64, outcome: ProposalOutcome, sent: Seq<StorageRequest>, result: Result<(), BoardError>) -> bool {
    sent.len() == 1 && written(sent[0], UPDATE_STATUS@, status_update_row(id, outcome_status(outcome)), result)
}

/// The requests that editing record `id` to `content` and accepting it makes, and its
/// result: one update, applied only if the record is still a proposal, that stores the
/// content, the confirmed status and the release state that the content calls for.
pub open spec fn edit_requests(id: i64, content: Seq<char>, sent: Seq<StorageRequest>, result: Result<(), BoardError>) -> bool {
    sent.len() == 1 && written(sent[0], UPDATE_EDIT@, edit_row(id, content, initial_release_state(content)), result)
}

/// The requests that approving the release of record `id` makes, and its result: one
/// update, applied only if the record still waits for approval, that approves it.
pub open spec fn approval_requests(id: i64, sent: Seq<StorageRequest>, result: Result<(), BoardError>) -> bool {
    sent.len() == 1 && written(sent[0], UPDATE_RELEASE@, release_row(id), result)
}

/// The requests that revoking `actor`'s session makes, and its result: one insert into the revocations.
pub open spec fn revocation_requests(actor: Seq<char>, sent: Seq<StorageRequest>, result: Result<(), BoardError>) -> bool {
    sent.len() == 1 && written(sent[0], INSERT_REVOKED@, seq![SqlArgView::Text(actor)], result)
}

/// The requests that creating a task makes, and its result: the insert, then, when it
/// succeeded, the identifier that the database reported, which names the task.
pub open spec fn task_requests(title: Seq<char>, goal: Seq<char>, sent: Seq<StorageRequest>, result: Result<Task, BoardError>) -> bool {
    let insert = seq![SqlArgView::Text(title), SqlArgView::Text(goal)];
    match result {
        Ok(task) => sent == seq![
            StorageRequest::Write(INSERT_TASK@, insert, true),
            StorageRequest::InsertedRowId(task.id),
        ],
        Err(e) => e is Storage && sent == seq![StorageRequest::Write(INSERT_TASK@, insert, false)],
    }
}

/// The requests that a proposal makes, and its result: the access check, the read of
/// the task's records, the insert of the planned proposal, and the identifier that
/// the database reported for it, each only when the one before succeeded (a record
/// row that cannot be read fails the proposal before the insert).
pub open spec fn submit_requests(
    task_id: i64,
    kind: RecordType,
    content: Seq<char>,
    actor: Seq<char>,
    base_version: Option<i64>,
    sent: Seq<StorageRequest>,
    result: Result<Record, BoardError>,
) -> bool {
    &&& sent.len() >= 1
    &&& is_read(sent[0], SELECT_REVOKED@, seq![SqlArgView::Text(actor)])
    &&& match response(sent[0]) {
        None => sent.len() == 1 && failed_by_storage(result),
        Some(revoked) => if lists_actor(revoked, actor) {
            sent.len() == 1 && (result matches Err(e) && denied_to(e, actor))
        } else {
            &&& sent.len() >= 2
            &&& is_read(sent[1], SELECT_TASK_RECORDS@, seq![SqlArgView::Integer(task_id)])
            &&& match response(sent[1]) {
                None => sent.len() == 2 && failed_by_storage(result),
                Some(rows) => if !rows_readable(rows) {
                    sent.len() == 2 && unreadable(result)
                } else {
                    let p = planned_proposal(decode_records(rows), kind, content, actor, base_version);
                    match result {
                        Ok(r) => {
                            &&& sent.len() == 4
                            &&& sent[2] == StorageRequest::Write(INSERT_RECORD@, proposal_row(task_id, p), true)
                            &&& sent[3] == StorageRequest::InsertedRowId(r.id)
                            &&& r@ == proposed_record(r.id, p)
                        },
                        Err(e) => {
                            &&& e is Storage
                            &&& sent.len() == 3
                            &&& sent[2] == StorageRequest::Write(INSERT_RECORD@, proposal_row(task_id, p), false)
                        },
                    }
                },
            }
        },
    }
}

/// `after` is `before` followed by more requests.
pub open spec fn extends(before: Seq<StorageRequest>, after: Seq<StorageRequest>) -> bool {
    after.len() >= before.len() && after.take(before.len() as int) == before
}

/// The requests in `after` that follow those of `before`.
pub open spec fn added(before: Seq<StorageRequest>, after: Seq<StorageRequest>) -> Seq<StorageRequest> {
    after.skip(before.len() as int)
}

/// The requests that `after` records beyond those of `before`.
pub open spec fn appended(before: Seq<Receipt>, after: Seq<Receipt>) -> Seq<StorageRequest> {
    requests_of(after).skip(before.len() as int)
}

/// `after` holds the receipts of `before`, then more.
pub open spec fn grew(before: Seq<Receipt>, after: Seq<Receipt>) -> bool {
    after.len() >= before.len() && requests_of(after).take(before.len() as int) == requests_of(before)
}

/// `after` holds the receipts of `before`, then exactly one more, whose request is `request`.
pub open spec fn grew_by(before: Seq<Receipt>, after: Seq<Receipt>, request: StorageRequest) -> bool {
    requests_of(after) == requests_of(before).push(request)
}

/// The rows of an outcome, when it is a success.
pub open spec fn rows_of(rows: Result<Vec<Vec<SqlValue>>, BoardError>) -> Option<Seq<Seq<SqlValueView>>> {
    match rows {
        Ok(rs) => Some(rows_view(rs@)),
        Err(_) => None,
    }
}

/// Pushing a receipt adds its request.
proof fn lemma_push_receipt(receipts: Seq<Receipt>, r: Receipt)
    ensures
        requests_of(receipts.push(r)) == requests_of(receipts).push(r.request()),
{
    assert(requests_of(receipts.push(r)) =~= requests_of(receipts).push(r.request()));
}

/// Receipts that were grown by one request and then by more add both, in order.
proof fn lemma_grew_chain(a: Seq<Receipt>, b: Seq<Receipt>, c: Seq<Receipt>)
    requires
        grew(a, b),
        grew(b, c),
    ensures
        grew(a, c),
        appended(a, c) == appended(a, b) + appended(b, c),
{
    assert(requests_of(b).len() == b.len());
    assert(requests_of(c).len() == c.len());
    assert(requests_of(a).len() == a.len());
    assert(requests_of(c).take(b.len() as int) == requests_of(b));
    assert(requests_of(c).take(a.len() as int) =~= requests_of(c).take(b.len() as int).take(a.len() as int));
    assert(requests_of(b).take(a.len() as int) == requests_of(a));
    assert(requests_of(c).take(a.len() as int) == requests_of(a));
    assert(appended(a, c) =~= appended(a, b) + appended(b, c));
}

/// Receipts grown by exactly one request have that one request appended.
proof fn lemma_grew_by(a: Seq<Receipt>, b: Seq<Receipt>, request: StorageRequest)
    requires
        grew_by(a, b, request),
    ensures
        grew(a, b),
        appended(a, b) == seq![request],
{
    assert(requests_of(a).len() == a.len());
    assert(requests_of(b).len() == b.len());
    assert(requests_of(b).take(a.len() as int) =~= requests_of(a));
    assert(appended(a, b) =~= seq![request]);
}

/// Receipts gathered from none add all their requests.
pub(crate) proof fn lemma_from_empty(receipts: Seq<Receipt>)
    ensures
        appended(Seq::empty(), receipts) == requests_of(receipts),
{
    assert(appended(Seq::empty(), receipts) =~= requests_of(receipts));
}

/// Where a board keeps its state.
pub trait Storage {
    fn connection(&self) -> &rusqlite::Connection;
}

/// A board's state in one SQLite database.
pub struct SqliteStorage {
    database: Database,
}

impl SqliteStorage {
    /// The connection this storage holds.
    pub closed spec fn held(&self) -> rusqlite::Connection {
        self.database.held()
    }
}

impl Storage for SqliteStorage {
    fn connection(&self) -> (connection: &rusqlite::Connection)
        ensures
            *connection == self.held(),
    {
        self.database.connection()
    }
}

/// The Task State Engine: the one authority over tasks, records, reviews and sessions.
pub struct Board {
    storage: SqliteStorage,
}

impl Board {
    /// The requests that this board's mutating operations made of its database, in order,
    /// as the receipts of the database calls record them. Only receipts of requests made
    /// on the board's own file enter it.
    pub closed spec fn requests(&self) -> Seq<StorageRequest> {
        self.storage.database.log()
    }

    /// The file of this board's database, as SQLite names it.
    pub closed spec fn file(&self) -> Option<Seq<char>> {
        self.storage.database.file()
    }

    /// Whether every request in this board's log was made on its own database file.
    pub closed spec fn log_on_own_file(&self) -> bool {
        self.storage.database.logged_on_own_file()
    }

    /// Whether `self` and `other` hold the same database connection, on the same file.
    pub closed spec fn same_store(&self, other: &Board) -> bool {
        &&& self.storage.held() == other.storage.held()
        &&& self.file() == other.file()
    }

    /// A query of the database; its receipt is added to `receipts`.
    fn read(&self, sql: &str, args: Vec<SqlArg>, columns: usize, receipts: &mut Vec<Receipt>) -> (rows: Result<
        Vec<Vec<SqlValue>>,
        BoardError,
    >)
        ensures
            grew_by(old(receipts)@, final(receipts)@, StorageRequest::Read(sql@, args_view(args@), rows_of(rows))),
            kept_on(old(receipts)@, final(receipts)@, self.file()),
            rows matches Err(e) ==> e is Storage,
    {
        let (rows, receipt) = query(&self.storage.database, sql, bind(args), columns);
        proof {
            lemma_push_receipt(receipts@, receipt);
            if on_file(receipts@, self.file()) {
                lemma_on_file_push(receipts@, receipt, self.file());
            }
        }
        receipts.push(receipt);
        from_storage(rows)
    }

    /// A statement run on the database; its receipt is added to `receipts`.
    fn write(&self, sql: &str, args: Vec<SqlArg>, receipts: &mut Vec<Receipt>) -> (done: Result<(), BoardError>)
        ensures
            grew_by(old(receipts)@, final(receipts)@, StorageRequest::Write(sql@, args_view(args@), done is Ok)),
            kept_on(old(receipts)@, final(receipts)@, self.file()),
            done matches Err(e) ==> e is Storage,
    {
        let (done, receipt) = execute(&self.storage.database, sql, bind(args));
        proof {
            lemma_push_receipt(receipts@, receipt);
            if on_file(receipts@, self.file()) {
                lemma_on_file_push(receipts@, receipt, self.file());
            }
        }
        receipts.push(receipt);
        match from_storage(done) {
            Ok(_) => Ok(()),
            Err(e) => Err(e),
        }
    }

    /// The row identifier of the latest insert; its receipt is added to `receipts`.
    fn inserted_row_id(&self, receipts: &mut Vec<Receipt>) -> (id: i64)
        ensures
            grew_by(old(receipts)@, final(receipts)@, StorageRequest::InsertedRowId(id)),
            kept_on(old(receipts)@, final(receipts)@, self.file()),
    {
        let (id, receipt) = last_insert_rowid(&self.storage.database);
        proof {
            lemma_push_receipt(receipts@, receipt);
            if on_file(receipts@, self.file()) {
                lemma_on_file_push(receipts@, receipt, self.file());
            }
        }
        receipts.push(receipt);
        id
    }

    /// Records `receipts` in the board's log of requests.
    fn record(&mut self, receipts: Vec<Receipt>)
        requires
            on_file(receipts@, old(self).file()),
        ensures
            extends(old(self).requests(), final(self).requests()),
            added(old(self).requests(), final(self).requests()) == requests_of(receipts@),
            final(self).same_store(old(self)),
            old(self).log_on_own_file() ==> final(self).log_on_own_file(),
    {
        let ghost before = self.requests();
        self.storage.database.record(receipts);
        assert(self.requests().take(before.len() as int) =~= before);
        assert(self.requests().skip(before.len() as int) =~= requests_of(receipts@));
    }

    /// Opens the board stored at `path`, creating its tables where they are missing.
    /// An opened board has made one request: the creation of its tables.
    pub fn open<P: AsRef<std::path::Path>>(path: P) -> (board: Result<Board, BoardError>)
        ensures
            board matches Err(e) ==> e is Storage,
            board matches Ok(b) ==> b.requests() == seq![StorageRequest::Batch(SCHEMA@, true)] && b.log_on_own_file(),
    {
        let database = match from_storage(open_database(path)) {
            Ok(d) => d,
            Err(e) => return Err(e),
        };
        let mut board = Board { storage: SqliteStorage { database } };
        match board.migrate() {
            Ok(()) => {
                assert(board.requests() =~= seq![StorageRequest::Batch(SCHEMA@, true)]);
                Ok(board)
            },
            Err(e) => Err(e),
        }
    }

    /// Creates the board's tables where they are missing.
    fn migrate(&mut self) -> (done: Result<(), BoardError>)
        ensures
            write_outcome(done),
            final(self).requests() == old(self).requests().push(StorageRequest::Batch(SCHEMA@, done is Ok)),
            final(self).same_store(old(self)),
            old(self).log_on_own_file() ==> final(self).log_on_own_file(),
    {
        let (done, receipt) = execute_batch(&self.storage.database, SCHEMA);
        let ghost ok = done is Ok;
        let mut receipts: Vec<Receipt> = Vec::new();
        receipts.push(receipt);
        assert(on_file(receipts@, self.file())) by {
            assert(receipts@[0] == receipt);
        }
        let ghost before = self.requests();
        self.storage.database.record(receipts);
        assert(requests_of(receipts@) =~= seq![StorageRequest::Batch(SCHEMA@, ok)]);
        assert(self.requests() =~= before.push(StorageRequest::Batch(SCHEMA@, ok)));
        from_storage(done)
    }

    /// Creates a task with `title` and `goal`: inserts it and names it by the row
    /// identifier that the database reports.
    pub fn create_task(&mut self, title: &str, goal: &str) -> (task: Result<Task, BoardError>)
        ensures
            extends(old(self).requests(), final(self).requests()),
            task_requests(title@, goal@, added(old(self).requests(), final(self).requests()), task),
            final(self).same_store(old(self)),
            old(self).log_on_own_file() ==> final(self).log_on_own_file(),
    {
        let mut receipts: Vec<Receipt> = Vec::new();
        assert(requests_of(receipts@) =~= Seq::<StorageRequest>::empty());
        let args = vec![SqlArg::Text(title.to_owned()), SqlArg::Text(goal.to_owned())];
        assert(args_view(args@) =~= seq![SqlArgView::Text(title@), SqlArgView::Text(goal@)]);
        let done = self.write(INSERT_TASK, args, &mut receipts);
        let ghost insert = StorageRequest::Write(
            INSERT_TASK@,
            seq![SqlArgView::Text(title@), SqlArgView::Text(goal@)],
            done is Ok,
        );
        assert(requests_of(receipts@) =~= seq![insert]);
        match done {
            Ok(()) => {
                let id = self.inserted_row_id(&mut receipts);
                assert(requests_of(receipts@) =~= seq![insert, StorageRequest::InsertedRowId(id)]);
                self.record(receipts);
                Ok(Task { id })
            },
            Err(e) => {
                self.record(receipts);
                Err(e)
            },
        }
    }

    /// The stored records of task `task_id`, oldest first; the query's receipt is added to `receipts`.
    pub(crate) fn load_ledger(&self, task_id: i64, receipts: &mut Vec<Receipt>) -> (ledger: Result<Ledger, BoardError>)
        ensures
            grew(old(receipts)@, final(receipts)@),
            kept_on(old(receipts)@, final(receipts)@, self.file()),
            appended(old(receipts)@, final(receipts)@).len() == 1,
            is_read(appended(old(receipts)@, final(receipts)@)[0], SELECT_TASK_RECORDS@, seq![SqlArgView::Integer(task_id)]),
            ledger_of(response(appended(old(receipts)@, final(receipts)@)[0]), ledger),
    {
        let args = vec![SqlArg::Integer(task_id)];
        assert(args_view(args@) =~= seq![SqlArgView::Integer(task_id)]);
        let ghost before = receipts@;
        let rows = self.read(SELECT_TASK_RECORDS, args, RECORD_COLUMNS, receipts);
        proof { lemma_grew_by(before, receipts@, StorageRequest::Read(SELECT_TASK_RECORDS@, seq![SqlArgView::Integer(task_id)], rows_of(rows))); }
        match rows {
            Ok(rows) => {
                if all_rows_readable(&rows) {
                    Ok(decode_ledger(&rows))
                } else {
                    Err(BoardError::UnreadableRecord)
                }
            },
            Err(e) => Err(e),
        }
    }

    /// The goal of task `task_id`; the query's receipt is added to `receipts`.
    pub(crate) fn load_goal(&self, task_id: i64, receipts: &mut Vec<Receipt>) -> (goal: Result<String, BoardError>)
        ensures
            grew(old(receipts)@, final(receipts)@),
            kept_on(old(receipts)@, final(receipts)@, self.file()),
            appended(old(receipts)@, final(receipts)@).len() == 1,
            is_read(appended(old(receipts)@, final(receipts)@)[0], SELECT_GOAL@, seq![SqlArgView::Integer(task_id)]),
            goal_of(task_id, response(appended(old(receipts)@, final(receipts)@)[0]), goal),
    {
        let args = vec![SqlArg::Integer(task_id)];
        assert(args_view(args@) =~= seq![SqlArgView::Integer(task_id)]);
        let ghost before = receipts@;
        let rows = self.read(SELECT_GOAL, args, 1, receipts);
        proof { lemma_grew_by(before, receipts@, StorageRequest::Read(SELECT_GOAL@, seq![SqlArgView::Integer(task_id)], rows_of(rows))); }
        match rows {
            Ok(rows) => match read_first_text(&rows) {
                Some(goal) => Ok(goal),
                None => Err(BoardError::TaskNotFound(task_id)),
            },
            Err(e) => Err(e),
        }
    }

    /// Succeeds unless storage lists `actor`'s session as revoked; the query's receipt
    /// is added to `receipts`.
    pub(crate) fn authorize(&self, actor: &str, receipts: &mut Vec<Receipt>) -> (allowed: Result<(), BoardError>)
        ensures
            grew(old(receipts)@, final(receipts)@),
            kept_on(old(receipts)@, final(receipts)@, self.file()),
            appended(old(receipts)@, final(receipts)@).len() == 1,
            is_read(appended(old(receipts)@, final(receipts)@)[0], SELECT_REVOKED@, seq![SqlArgView::Text(actor@)]),
            authorization_of(actor@, response(appended(old(receipts)@, final(receipts)@)[0]), allowed),
    {
        let args = vec![SqlArg::Text(actor.to_owned())];
        assert(args_view(args@) =~= seq![SqlArgView::Text(actor@)]);
        let ghost before = receipts@;
        let rows = self.read(SELECT_REVOKED, args, 1, receipts);
        proof { lemma_grew_by(before, receipts@, StorageRequest::Read(SELECT_REVOKED@, seq![SqlArgView::Text(actor@)], rows_of(rows))); }
        match rows {
            Ok(rows) => {
                if rows_list_actor(&rows, actor) {
                    Err(BoardError::SessionRevoked(actor.to_owned()))
                } else {
                    Ok(())
                }
            },
            Err(e) => Err(e),
        }
    }

    /// Records a proposal by `actor`, flagged against the task's confirmed state; the
    /// receipts of its requests are added to `receipts`.
    pub(crate) fn submit(
        &self,
        task_id: i64,
        kind: RecordType,
        content: &str,
        actor: &str,
        base_version: Option<i64>,
        receipts: &mut Vec<Receipt>,
    ) -> (record: Result<Record, BoardError>)
        ensures
            grew(old(receipts)@, final(receipts)@),
            kept_on(old(receipts)@, final(receipts)@, self.file()),
            submit_requests(task_id, kind, content@, actor@, base_version, appended(old(receipts)@, final(receipts)@), record),
    {
        let ghost r0 = receipts@;
        let allowed = self.authorize(actor, receipts);
        let ghost r1 = receipts@;
        match allowed {
            Ok(()) => {},
            Err(e) => return Err(e),
        }
        let loaded = self.load_ledger(task_id, receipts);
        let ghost r2 = receipts@;
        proof { lemma_grew_chain(r0, r1, r2); }
        let ledger = match loaded {
            Ok(l) => l,
            Err(e) => return Err(e),
        };
        let proposal = ledger.plan_proposal(kind, content, actor, base_version);
        let ghost planned = proposal@;
        let args = proposal_args(task_id, &proposal);
        let done = self.write(INSERT_RECORD, args, receipts);
        let ghost r3 = receipts@;
        proof {
            lemma_grew_by(r2, r3, StorageRequest::Write(INSERT_RECORD@, proposal_row(task_id, planned), done is Ok));
            lemma_grew_chain(r0, r2, r3);
        }
        match done {
            Ok(()) => {
                let id = self.inserted_row_id(receipts);
                proof {
                    lemma_grew_by(r3, receipts@, StorageRequest::InsertedRowId(id));
                    lemma_grew_chain(r0, r3, receipts@);
                }
                let record = proposal.into_record(id);
                assert(record@ == proposed_record(record.id, planned_proposal(ledger@, kind, content@, actor@, base_version)));
                Ok(record)
            },
            Err(e) => Err(e),
        }
    }

    /// Records a typed proposal by `actor` against the current confirmed state.
    pub fn propose(&mut self, task_id: i64, kind: RecordType, content: &str, actor: &str) -> (record:
        Result<Record, BoardError>)
        ensures
            extends(old(self).requests(), final(self).requests()),
            submit_requests(task_id, kind, content@, actor@, None, added(old(self).requests(), final(self).requests()), record),
            final(self).same_store(old(self)),
            old(self).log_on_own_file() ==> final(self).log_on_own_file(),
    {
        let mut receipts: Vec<Receipt> = Vec::new();
        let record = self.submit(task_id, kind, content, actor, None, &mut receipts);
        proof { lemma_from_empty(receipts@); }
        self.record(receipts);
        record
    }

    /// Records a typed proposal by `actor`, who last read board version `base_version`.
    pub fn propose_from_version(
        &mut self,
        task_id: i64,
        kind: RecordType,
        content: &str,
        actor: &str,
        base_version: i64,
    ) -> (record: Result<Record, BoardError>)
        ensures
            extends(old(self).requests(), final(self).requests()),
            submit_requests(
                task_id,
                kind,
                content@,
                actor@,
                Some(base_version),
                added(old(self).requests(), final(self).requests()),
                record,
            ),
            final(self).same_store(old(self)),
            old(self).log_on_own_file() ==> final(self).log_on_own_file(),
    {
        let mut receipts: Vec<Receipt> = Vec::new();
        let record = self.submit(task_id, kind, content, actor, Some(base_version), &mut receipts);
        proof { lemma_from_empty(receipts@); }
        self.record(receipts);
        record
    }

    /// Applies the developer's review to record `id`; a record that is no longer a
    /// proposal is left as it is. The receipt of its request is added to `receipts`.
    pub(crate) fn apply_review(&self, id: i64, outcome: ProposalOutcome, receipts: &mut Vec<Receipt>) -> (done:
        Result<(), BoardError>)
        ensures
            grew(old(receipts)@, final(receipts)@),
            kept_on(old(receipts)@, final(receipts)@, self.file()),
            review_requests(id, outcome, appended(old(receipts)@, final(receipts)@), done),
    {
        let ghost r0 = receipts@;
        let status = outcome.status();
        let done = self.write(UPDATE_STATUS, status_update_args(id, status), receipts);
        proof { lemma_grew_by(r0, receipts@, StorageRequest::Write(UPDATE_STATUS@, status_update_row(id, status), done is Ok)); }
        done
    }

    /// Accepts or rejects proposal `id`: stores the outcome's status if the record is
    /// still a proposal.
    pub fn review(&mut self, id: i64, outcome: ProposalOutcome) -> (done: Result<(), BoardError>)
        ensures
            extends(old(self).requests(), final(self).requests()),
            review_requests(id, outcome, added(old(self).requests(), final(self).requests()), done),
            final(self).same_store(old(self)),
            old(self).log_on_own_file() ==> final(self).log_on_own_file(),
    {
        let mut receipts: Vec<Receipt> = Vec::new();
        let done = self.apply_review(id, outcome, &mut receipts);
        proof { lemma_from_empty(receipts@); }
        self.record(receipts);
        done
    }

    /// Replaces the content of proposal `id` and confirms it; the new content is
    /// classified afresh for release. A record that is no longer a proposal is left as it
    /// is. The receipt of its request is added to `receipts`.
    pub(crate) fn apply_edit(&self, id: i64, content: &str, receipts: &mut Vec<Receipt>) -> (done: Result<(), BoardError>)
        ensures
            grew(old(receipts)@, final(receipts)@),
            kept_on(old(receipts)@, final(receipts)@, self.file()),
            edit_requests(id, content@, appended(old(receipts)@, final(receipts)@), done),
    {
        let ghost r0 = receipts@;
        let state = classify_sensitivity(content);
        let done = self.write(UPDATE_EDIT, edit_args(id, content, state), receipts);
        proof { lemma_grew_by(r0, receipts@, StorageRequest::Write(UPDATE_EDIT@, edit_row(id, content@, state), done is Ok)); }
        done
    }

    /// Edits proposal `id` to `content` and confirms it: if the record is still a
    /// proposal, stores the new content, the confirmed status and the release state of
    /// the new content.
    pub fn edit_and_accept(&mut self, id: i64, content: &str) -> (done: Result<(), BoardError>)
        ensures
            extends(old(self).requests(), final(self).requests()),
            edit_requests(id, content@, added(old(self).requests(), final(self).requests()), done),
            final(self).same_store(old(self)),
            old(self).log_on_own_file() ==> final(self).log_on_own_file(),
    {
        let mut receipts: Vec<Receipt> = Vec::new();
        let done = self.apply_edit(id, content, &mut receipts);
        proof { lemma_from_empty(receipts@); }
        self.record(receipts);
        done
    }

    /// Releases record `id` if it waits for release approval. The receipt of its
    /// request is added to `receipts`.
    pub(crate) fn apply_approval(&self, id: i64, receipts: &mut Vec<Receipt>) -> (done: Result<(), BoardError>)
        ensures
            grew(old(receipts)@, final(receipts)@),
            kept_on(old(receipts)@, final(receipts)@, self.file()),
            approval_requests(id, appended(old(receipts)@, final(receipts)@), done),
    {
        let ghost r0 = receipts@;
        let done = self.write(UPDATE_RELEASE, release_args(id), receipts);
        proof { lemma_grew_by(r0, receipts@, StorageRequest::Write(UPDATE_RELEASE@, release_row(id), done is Ok)); }
        done
    }

    /// The developer approves the release of sensitive record `id`: stores the approval
    /// if the record still waits for it.
    pub fn approve_sensitive_release(&mut self, id: i64) -> (done: Result<(), BoardError>)
        ensures
            extends(old(self).requests(), final(self).requests()),
            approval_requests(id, added(old(self).requests(), final(self).requests()), done),
            final(self).same_store(old(self)),
            old(self).log_on_own_file() ==> final(self).log_on_own_file(),
    {
        let mut receipts: Vec<Receipt> = Vec::new();
        let done = self.apply_approval(id, &mut receipts);
        proof { lemma_from_empty(receipts@); }
        self.record(receipts);
        done
    }

    /// Records the revocation of `actor`'s session. The receipt of its request is added
    /// to `receipts`.
    pub(crate) fn apply_revocation(&self, actor: &str, receipts: &mut Vec<Receipt>) -> (done: Result<(), BoardError>)
        ensures
            write_outcome(done),
            grew(old(receipts)@, final(receipts)@),
            kept_on(old(receipts)@, final(receipts)@, self.file()),
            revocation_requests(actor@, appended(old(receipts)@, final(receipts)@), done),
    {
        let args = vec![SqlArg::Text(actor.to_owned())];
        assert(args_view(args@) =~= seq![SqlArgView::Text(actor@)]);
        let ghost r0 = receipts@;
        let done = self.write(INSERT_REVOKED, args, receipts);
        proof { lemma_grew_by(r0, receipts@, StorageRequest::Write(INSERT_REVOKED@, seq![SqlArgView::Text(actor@)], done is Ok)); }
        done
    }

    /// Revokes `actor`'s session: from now on its reads, subscriptions and proposals
    /// are refused, while its records stay in the history.
    pub fn revoke_session(&mut self, actor: &str) -> (done: Result<(), BoardError>)
        ensures
            write_outcome(done),
            extends(old(self).requests(), final(self).requests()),
            revocation_requests(actor@, added(old(self).requests(), final(self).requests()), done),
            final(self).same_store(old(self)),
            old(self).log_on_own_file() ==> final(self).log_on_own_file(),
    {
        let mut receipts: Vec<Receipt> = Vec::new();
        let done = self.apply_revocation(actor, &mut receipts);
        proof { lemma_from_empty(receipts@); }
        self.record(receipts);
        done
    }

    /// The goal, then the records, of task `task_id`; the receipts of the two queries
    /// are added to `receipts` (only the first, when it finds no goal or fails).
    pub(crate) fn task_state(&self, task_id: i64, receipts: &mut Vec<Receipt>) -> (state: Result<(String, Ledger), BoardError>)
        ensures
            grew(old(receipts)@, final(receipts)@),
            kept_on(old(receipts)@, final(receipts)@, self.file()),
            task_reads(
                task_id,
                appended(old(receipts)@, final(receipts)@),
                state,
                |st: (String, Ledger), goal: Seq<char>, records: Seq<RecordView>| st.0@ == goal && st.1@ == records,
            ),
    {
        let ghost r0 = receipts@;
        let goal = match self.load_goal(task_id, receipts) {
            Ok(g) => g,
            Err(e) => return Err(e),
        };
        let ghost r1 = receipts@;
        let loaded = self.load_ledger(task_id, receipts);
        proof { lemma_grew_chain(r0, r1, receipts@); }
        match loaded {
            Ok(ledger) => Ok((goal, ledger)),
            Err(e) => Err(e),
        }
    }

    /// The access check of `actor`, then the goal and records of task `task_id`: the
    /// reads that the shared views start from. The receipts are added to `receipts`.
    fn shared_state(&self, task_id: i64, actor: &str, receipts: &mut Vec<Receipt>) -> (state: Result<
        (String, Ledger),
        BoardError,
    >)
        ensures
            grew(old(receipts)@, final(receipts)@),
            kept_on(old(receipts)@, final(receipts)@, self.file()),
            checked_access(
                actor@,
                appended(old(receipts)@, final(receipts)@),
                state,
                |rest: Seq<StorageRequest>| task_reads(
                    task_id,
                    rest,
                    state,
                    |st: (String, Ledger), goal: Seq<char>, records: Seq<RecordView>| st.0@ == goal && st.1@ == records,
                ),
            ),
    {
        let ghost r0 = receipts@;
        match self.authorize(actor, receipts) {
            Ok(()) => {},
            Err(e) => return Err(e),
        }
        let ghost r1 = receipts@;
        let state = self.task_state(task_id, receipts);
        proof {
            lemma_grew_chain(r0, r1, receipts@);
            assert(appended(r0, receipts@).skip(1) =~= appended(r1, receipts@));
        }
        state
    }

    /// The developer's snapshot of task `task_id`: its goal, confirmed and rejected
    /// records, read by the goal query and the records query of the task.
    pub fn resume(&self, task_id: i64) -> (snapshot: Result<Snapshot, Failure>)
        ensures
            snapshot_outcome(snapshot, task_id, self.file()),
    {
        let mut receipts: Vec<Receipt> = Vec::new();
        let state = self.task_state(task_id, &mut receipts);
        proof { lemma_from_empty(receipts@); }
        match state {
            Ok((goal, ledger)) => {
                let mut snapshot = ledger.snapshot(goal);
                snapshot.provenance = Requests::from_receipts(receipts);
                Ok(snapshot)
            },
            Err(error) => Err(Failure { error, provenance: Requests::from_receipts(receipts) }),
        }
    }

    /// The proposals of task `task_id` waiting for review, oldest first, read by the
    /// records query of the task.
    pub fn pending(&self, task_id: i64) -> (pending: Result<ReviewQueue, Failure>)
        ensures
            pending_outcome(pending, task_id, self.file()),
    {
        let mut receipts: Vec<Receipt> = Vec::new();
        let loaded = self.load_ledger(task_id, &mut receipts);
        proof { lemma_from_empty(receipts@); }
        match loaded {
            Ok(ledger) => {
                let records = ledger.pending();
                Ok(ReviewQueue { records, provenance: Requests::from_receipts(receipts) })
            },
            Err(error) => Err(Failure { error, provenance: Requests::from_receipts(receipts) }),
        }
    }

    /// The heartbeat of task `task_id` for `actor` under `schema`: the goal and the
    /// released confirmed records. Refused to a revoked actor.
    pub fn what_just_happened(&self, task_id: i64, schema: &str, actor: &str) -> (heartbeat: Result<
        Heartbeat,
        Failure,
    >)
        ensures
            heartbeat_outcome(heartbeat, task_id, schema@, actor@, self.file()),
    {
        let mut receipts: Vec<Receipt> = Vec::new();
        let state = self.shared_state(task_id, actor, &mut receipts);
        proof { lemma_from_empty(receipts@); }
        match state {
            Ok((goal, ledger)) => {
                let mut heartbeat = ledger.heartbeat(schema, goal);
                heartbeat.provenance = Requests::from_receipts(receipts);
                Ok(heartbeat)
            },
            Err(error) => Err(Failure { error, provenance: Requests::from_receipts(receipts) }),
        }
    }

    /// The curated handoff of task `task_id` for `actor` under `schema`. Refused to a
    /// revoked actor.
    pub fn compose_handoff(&self, task_id: i64, schema: &str, actor: &str) -> (handoff: Result<
        Handoff,
        Failure,
    >)
        ensures
            handoff_outcome(handoff, task_id, schema@, actor@, self.file()),
    {
        let mut receipts: Vec<Receipt> = Vec::new();
        let state = self.shared_state(task_id, actor, &mut receipts);
        proof { lemma_from_empty(receipts@); }
        match state {
            Ok((goal, ledger)) => {
                let mut handoff = ledger.handoff(schema, goal);
                handoff.provenance = Requests::from_receipts(receipts);
                Ok(handoff)
            },
            Err(error) => Err(Failure { error, provenance: Requests::from_receipts(receipts) }),
        }
    }

    /// Subscribes `actor` to the board's changes. Refused to a revoked actor.
    pub fn subscribe(&self, actor: &str) -> (subscription: Result<Subscription, Failure>)
        ensures
            subscription_outcome(subscription, actor@, self.file()),
    {
        let mut receipts: Vec<Receipt> = Vec::new();
        let allowed = self.authorize(actor, &mut receipts);
        proof { lemma_from_empty(receipts@); }
        match allowed {
            Ok(()) => Ok(Subscription { actor: actor.to_owned(), provenance: Requests::from_receipts(receipts) }),
            Err(error) => Err(Failure { error, provenance: Requests::from_receipts(receipts) }),
        }
    }
}

} // verus!
