//! How the engine's values are laid out in SQLite rows, read back and written.
use vstd::prelude::*;

use crate::ledger::{proposed_record, views, Ledger, Proposal, ProposalView, Record, RecordView};
use crate::records::{
    kind_from_str, kind_name, kind_named, release_state_name, release_state_named,
    sensitivity_str, status_name, status_named, RecordStatus, SensitiveReleaseState,
};
use crate::sqlite::{args_view, row_view, rows_view, SqlArg, SqlArgView, SqlValue, SqlValueView};
use crate::text::same_text;

verus! {

broadcast use vstd::seq_lib::group_seq_properties;

/// The tables of a board. A record row inserted without a release state (as another
/// writer of the file may do) takes `pending`, so it is withheld until approved.
pub const SCHEMA: &'static str = "CREATE TABLE IF NOT EXISTS tasks(id INTEGER PRIMARY KEY, title TEXT NOT NULL, goal TEXT NOT NULL); CREATE TABLE IF NOT EXISTS records(id INTEGER PRIMARY KEY, task_id INTEGER NOT NULL, kind TEXT NOT NULL, content TEXT NOT NULL, actor TEXT NOT NULL, status TEXT NOT NULL, sensitive_release_state TEXT NOT NULL DEFAULT 'pending', is_stale INTEGER NOT NULL DEFAULT 0, conflicts_with INTEGER); CREATE TABLE IF NOT EXISTS revoked_sessions(actor TEXT PRIMARY KEY);";

/// Reads the records of one task, oldest first, in the column order that [`decode_record`] expects.
pub const SELECT_TASK_RECORDS: &'static str = "SELECT id, kind, content, actor, status, sensitive_release_state, is_stale, conflicts_with FROM records WHERE task_id=?1 ORDER BY id";

/// The number of columns that the two record queries read.
pub const RECORD_COLUMNS: usize = 8;

/// Reads the goal of one task.
pub const SELECT_GOAL: &'static str = "SELECT goal FROM tasks WHERE id=?1";

/// Reads the revocation of one actor's session.
pub const SELECT_REVOKED: &'static str = "SELECT actor FROM revoked_sessions WHERE actor=?1";

pub const INSERT_TASK: &'static str = "INSERT INTO tasks(title, goal) VALUES (?1, ?2)";

pub const INSERT_RECORD: &'static str = "INSERT INTO records(task_id, kind, content, actor, status, sensitive_release_state, is_stale, conflicts_with) VALUES (?1, ?2, ?3, ?4, ?5, ?6, ?7, ?8)";

/// Gives a record a review status, if it is still a proposal.
pub const UPDATE_STATUS: &'static str = "UPDATE records SET status=?1 WHERE id=?2 AND status='proposed'";

/// Replaces a record's content, status and release state, if it is still a proposal.
pub const UPDATE_EDIT: &'static str = "UPDATE records SET content=?1, status=?2, sensitive_release_state=?3 WHERE id=?4 AND status='proposed'";

/// Sets a record's release state, if it still waits for approval: its stored state is
/// neither of the two names that do not read as waiting.
pub const UPDATE_RELEASE: &'static str = "UPDATE records SET sensitive_release_state=?1 WHERE id=?2 AND sensitive_release_state NOT IN ('approved', 'not_required')";

pub const INSERT_REVOKED: &'static str = "INSERT OR IGNORE INTO revoked_sessions(actor) VALUES (?1)";

/// The text in `v`, if it holds text.
pub open spec fn text_of(v: SqlValueView) -> Option<Seq<char>> {
    match v {
        SqlValueView::Text(s) => Some(s),
        _ => None,
    }
}

/// The integer in `v`, if it holds one.
pub open spec fn integer_of(v: SqlValueView) -> Option<i64> {
    match v {
        SqlValueView::Integer(n) => Some(n),
        _ => None,
    }
}

/// The record that a stored row describes. A row describes none when its kind or
/// status is not one the engine knows, or when it is not readable (see [`row_readable`]:
/// the reads of a task's records refuse such a row rather than skip it). A release state that is not a known name reads as `Pending`, a
/// staleness flag other than a nonzero integer reads as not stale, and a conflict
/// reference other than an integer reads as none.
pub open spec fn decode_record(row: Seq<SqlValueView>) -> Option<RecordView> {
    if row.len() != 8 {
        None
    } else {
        match (integer_of(row[0]), text_of(row[1]), text_of(row[2]), text_of(row[3]), text_of(row[4])) {
            (Some(id), Some(kind), Some(content), Some(actor), Some(status)) => {
                match (kind_named(kind), status_named(status)) {
                    (Some(kind), Some(status)) => {
                        let conflicts_with = integer_of(row[7]);
                        Some(RecordView {
                            id,
                            kind,
                            content,
                            actor,
                            status,
                            is_stale: match integer_of(row[6]) {
                                Some(n) => n != 0,
                                None => false,
                            },
                            is_conflict: conflicts_with is Some,
                            conflicts_with,
                            sensitive_release_state: match text_of(row[5]) {
                                Some(name) => release_state_named(name),
                                None => SensitiveReleaseState::Pending,
                            },
                        })
                    },
                    _ => None,
                }
            },
            _ => None,
        }
    }
}

/// The records that stored rows describe, in row order.
pub open spec fn decode_records(rows: Seq<Seq<SqlValueView>>) -> Seq<RecordView> {
    rows.filter_map(|row: Seq<SqlValueView>| decode_record(row))
}

/// The integer held by `v`.
fn read_integer(v: &SqlValue) -> (n: Option<i64>)
    ensures
        n == integer_of(v@),
{
    match v {
        SqlValue::Integer(n) => Some(*n),
        _ => None,
    }
}

/// The text held by `v`.
fn read_text(v: &SqlValue) -> (s: Option<String>)
    ensures
        match s {
            Some(s) => text_of(v@) == Some(s@),
            None => text_of(v@) is None,
        },
{
    match v {
        SqlValue::Text(s) => Some(s.clone()),
        _ => None,
    }
}

/// The record that a stored row describes.
pub fn decode_row(row: &Vec<SqlValue>) -> (record: Option<Record>)
    ensures
        match record {
            Some(r) => decode_record(row_view(row@)) == Some(r@),
            None => decode_record(row_view(row@)) is None,
        },
{
    let ghost cells = row_view(row@);
    if row.len() != 8 {
        return None;
    }
    assert(cells[0] == row@[0]@ && cells[1] == row@[1]@ && cells[2] == row@[2]@ && cells[3] == row@[3]@);
    assert(cells[4] == row@[4]@ && cells[5] == row@[5]@ && cells[6] == row@[6]@ && cells[7] == row@[7]@);
    let id = match read_integer(&row[0]) {
        Some(id) => id,
        None => return None,
    };
    let kind_name = match read_text(&row[1]) {
        Some(s) => s,
        None => return None,
    };
    let content = match read_text(&row[2]) {
        Some(s) => s,
        None => return None,
    };
    let actor = match read_text(&row[3]) {
        Some(s) => s,
        None => return None,
    };
    let status_name = match read_text(&row[4]) {
        Some(s) => s,
        None => return None,
    };
    let kind = match kind_from_str(kind_name.as_str()) {
        Some(k) => k,
        None => return None,
    };
    let status = match RecordStatus::from_name(status_name.as_str()) {
        Some(s) => s,
        None => return None,
    };
    let sensitive_release_state = match read_text(&row[5]) {
        Some(name) => SensitiveReleaseState::from_name(name.as_str()),
        None => SensitiveReleaseState::Pending,
    };
    let is_stale = match read_integer(&row[6]) {
        Some(n) => n != 0,
        None => false,
    };
    let conflicts_with = read_integer(&row[7]);
    Some(
        Record {
            id,
            kind,
            content,
            actor,
            status,
            is_stale,
            is_conflict: conflicts_with.is_some(),
            conflicts_with,
            sensitive_release_state,
        },
    )
}

/// The records that stored rows describe, in row order.
pub fn decode_ledger(rows: &Vec<Vec<SqlValue>>) -> (ledger: Ledger)
    ensures
        ledger@ == decode_records(rows_view(rows@)),
{
    let mut records: Vec<Record> = Vec::new();
    let mut i: usize = 0;
    while i < rows.len()
        invariant
            i <= rows.len(),
            views(records@) == decode_records(rows_view(rows@).take(i as int)),
        decreases rows.len() - i,
    {
        let ghost before = records@;
        let ghost done = rows_view(rows@).take(i as int);
        let ghost row = rows_view(rows@)[i as int];
        assert(rows_view(rows@).take(i as int + 1) =~= done.push(row));
        assert(done.push(row).drop_last() =~= done);
        assert(row == row_view(rows@[i as int]@));
        match decode_row(&rows[i]) {
            Some(r) => {
                records.push(r);
                assert(views(records@) =~= views(before).push(r@));
                assert(decode_records(done.push(row)) =~= decode_records(done) + seq![r@]);
            },
            None => {
                assert(decode_records(done.push(row)) =~= decode_records(done));
            },
        }
        i = i + 1;
    }
    assert(rows_view(rows@).take(i as int) =~= rows_view(rows@));
    Ledger { records }
}

/// Whether a stored record row can be read: it has the columns of the record queries,
/// its identifier is an integer, and its content and actor are text.
pub open spec fn row_readable(row: Seq<SqlValueView>) -> bool {
    &&& row.len() == 8
    &&& integer_of(row[0]) is Some
    &&& text_of(row[2]) is Some
    &&& text_of(row[3]) is Some
}

/// Whether every stored record row can be read.
pub open spec fn rows_readable(rows: Seq<Seq<SqlValueView>>) -> bool {
    forall|i: int| 0 <= i < rows.len() ==> #[trigger] row_readable(rows[i])
}

/// Whether every stored record row can be read.
pub fn all_rows_readable(rows: &Vec<Vec<SqlValue>>) -> (readable: bool)
    ensures
        readable == rows_readable(rows_view(rows@)),
{
    let ghost table = rows_view(rows@);
    let mut i: usize = 0;
    while i < rows.len()
        invariant
            i <= rows.len(),
            table == rows_view(rows@),
            forall|j: int| 0 <= j < i ==> #[trigger] row_readable(table[j]),
        decreases rows.len() - i,
    {
        let row = &rows[i];
        assert(table[i as int] == row_view(row@));
        if row.len() != 8 {
            assert(!row_readable(table[i as int]));
            return false;
        }
        assert(table[i as int][0] == row@[0]@);
        assert(table[i as int][2] == row@[2]@);
        assert(table[i as int][3] == row@[3]@);
        if read_integer(&row[0]).is_none() || read_text(&row[2]).is_none() || read_text(&row[3]).is_none() {
            assert(!row_readable(table[i as int]));
            return false;
        }
        i = i + 1;
    }
    true
}

/// The text in the first column of the first row, if there is one.
pub open spec fn first_text(rows: Seq<Seq<SqlValueView>>) -> Option<Seq<char>> {
    if rows.len() > 0 && rows[0].len() > 0 {
        text_of(rows[0][0])
    } else {
        None
    }
}

/// The text in the first column of the first row.
pub fn read_first_text(rows: &Vec<Vec<SqlValue>>) -> (text: Option<String>)
    ensures
        match text {
            Some(s) => first_text(rows_view(rows@)) == Some(s@),
            None => first_text(rows_view(rows@)) is None,
        },
{
    if rows.len() > 0 && rows[0].len() > 0 {
        assert(rows_view(rows@)[0] == row_view(rows@[0]@));
        assert(row_view(rows@[0]@)[0] == rows@[0]@[0]@);
        read_text(&rows[0][0])
    } else {
        None
    }
}

/// Whether some row holds `actor` as text in its first column.
pub open spec fn lists_actor(rows: Seq<Seq<SqlValueView>>, actor: Seq<char>) -> bool {
    exists|i: int| 0 <= i < rows.len() && rows[i].len() > 0 && #[trigger] text_of(rows[i][0]) == Some(actor)
}

/// Whether some row holds `actor` as text in its first column.
pub fn rows_list_actor(rows: &Vec<Vec<SqlValue>>, actor: &str) -> (listed: bool)
    ensures
        listed == lists_actor(rows_view(rows@), actor@),
{
    let ghost table = rows_view(rows@);
    let mut i: usize = 0;
    while i < rows.len()
        invariant
            i <= rows.len(),
            table == rows_view(rows@),
            forall|j: int| 0 <= j < i && table[j].len() > 0 ==> #[trigger] text_of(table[j][0]) != Some(actor@),
        decreases rows.len() - i,
    {
        assert(table[i as int] == row_view(rows@[i as int]@));
        if rows[i].len() > 0 {
            assert(table[i as int][0] == rows@[i as int]@[0]@);
            match read_text(&rows[i][0]) {
                Some(s) => {
                    if same_text(s.as_str(), actor) {
                        return true;
                    }
                },
                None => {},
            }
        }
        i = i + 1;
    }
    false
}

/// The stored form of a proposal for task `task_id`.
pub open spec fn proposal_row(task_id: i64, p: ProposalView) -> Seq<SqlArgView> {
    seq![
        SqlArgView::Integer(task_id),
        SqlArgView::Text(kind_name(p.kind)),
        SqlArgView::Text(p.content),
        SqlArgView::Text(p.actor),
        SqlArgView::Text(status_name(RecordStatus::Proposed)),
        SqlArgView::Text(release_state_name(p.sensitive_release_state)),
        SqlArgView::Integer(if p.is_stale { 1 } else { 0 }),
        match p.conflicts_with {
            Some(id) => SqlArgView::Integer(id),
            None => SqlArgView::Null,
        },
    ]
}

/// The arguments of [`INSERT_RECORD`] for proposal `p` of task `task_id`.
pub fn proposal_args(task_id: i64, p: &Proposal) -> (args: Vec<SqlArg>)
    ensures
        args_view(args@) == proposal_row(task_id, p@),
{
    let conflict = match p.conflicts_with {
        Some(id) => SqlArg::Integer(id),
        None => SqlArg::Null,
    };
    let args = vec![
        SqlArg::Integer(task_id),
        SqlArg::Text(p.kind.as_str().to_owned()),
        SqlArg::Text(p.content.clone()),
        SqlArg::Text(p.actor.clone()),
        SqlArg::Text(RecordStatus::Proposed.as_str().to_owned()),
        SqlArg::Text(sensitivity_str(&p.sensitive_release_state).to_owned()),
        SqlArg::Integer(if p.is_stale { 1 } else { 0 }),
        conflict,
    ];
    assert(args_view(args@) =~= proposal_row(task_id, p@));
    args
}

/// The value that a stored argument reads back as.
pub open spec fn stored_as(arg: SqlArgView) -> SqlValueView {
    match arg {
        SqlArgView::Null => SqlValueView::Null,
        SqlArgView::Integer(n) => SqlValueView::Integer(n),
        SqlArgView::Text(s) => SqlValueView::Text(s),
    }
}

/// The row that [`SELECT_TASK_RECORDS`] reads for the record that
/// [`INSERT_RECORD`] stored from `args` under identifier `id`: the identifier, then
/// every inserted column but the task's.
pub open spec fn row_read_back(id: i64, args: Seq<SqlArgView>) -> Seq<SqlValueView> {
    seq![SqlValueView::Integer(id)] + args.skip(1).map_values(|a: SqlArgView| stored_as(a))
}

/// A proposal written to storage reads back as the same proposed record.
pub proof fn lemma_proposal_reads_back(task_id: i64, id: i64, p: ProposalView)
    ensures
        decode_record(row_read_back(id, proposal_row(task_id, p))) == Some(proposed_record(id, p)),
{
    let row = row_read_back(id, proposal_row(task_id, p));
    assert(row.len() == 8);
    assert(row[1] == SqlValueView::Text(kind_name(p.kind)));
    assert(row[4] == SqlValueView::Text(status_name(RecordStatus::Proposed)));
    assert(row[5] == SqlValueView::Text(release_state_name(p.sensitive_release_state)));
    crate::records::lemma_kind_names_round_trip(p.kind);
    crate::records::lemma_status_names_round_trip(RecordStatus::Proposed);
    crate::records::lemma_release_state_names_round_trip(p.sensitive_release_state);
}

/// The row that lists `actor` in the revocation table.
pub open spec fn revocation_row(actor: Seq<char>) -> Seq<SqlValueView> {
    seq![SqlValueView::Text(actor)]
}

/// Revoking `actor` denies `actor`, and leaves every other actor as it was.
pub proof fn lemma_revocation_is_per_actor(rows: Seq<Seq<SqlValueView>>, actor: Seq<char>, other: Seq<char>)
    ensures
        lists_actor(rows.push(revocation_row(actor)), actor),
        other != actor ==> lists_actor(rows.push(revocation_row(actor)), other) == lists_actor(rows, other),
{
    let after = rows.push(revocation_row(actor));
    assert(text_of(after[rows.len() as int][0]) == Some(actor));
    if other != actor {
        if lists_actor(after, other) {
            let i = choose|i: int| 0 <= i < after.len() && after[i].len() > 0 && #[trigger] text_of(after[i][0]) == Some(other);
            assert(i < rows.len());
            assert(after[i] == rows[i]);
        }
        if lists_actor(rows, other) {
            let i = choose|i: int| 0 <= i < rows.len() && rows[i].len() > 0 && #[trigger] text_of(rows[i][0]) == Some(other);
            assert(after[i] == rows[i]);
        }
    }
}

/// The arguments of [`UPDATE_STATUS`] that give record `id` the status `status`.
pub open spec fn status_update_row(id: i64, status: RecordStatus) -> Seq<SqlArgView> {
    seq![SqlArgView::Text(status_name(status)), SqlArgView::Integer(id)]
}

/// The arguments of [`UPDATE_STATUS`] that give record `id` the status `status`.
pub fn status_update_args(id: i64, status: RecordStatus) -> (args: Vec<SqlArg>)
    ensures
        args_view(args@) == status_update_row(id, status),
{
    let args = vec![SqlArg::Text(status.as_str().to_owned()), SqlArg::Integer(id)];
    assert(args_view(args@) =~= status_update_row(id, status));
    args
}

/// The arguments of [`UPDATE_EDIT`] that confirm record `id` with `content` and release state `state`.
pub open spec fn edit_row(id: i64, content: Seq<char>, state: SensitiveReleaseState) -> Seq<SqlArgView> {
    seq![
        SqlArgView::Text(content),
        SqlArgView::Text(status_name(RecordStatus::Confirmed)),
        SqlArgView::Text(release_state_name(state)),
        SqlArgView::Integer(id),
    ]
}

/// The arguments of [`UPDATE_EDIT`] that confirm record `id` with `content` and release state `state`.
pub fn edit_args(id: i64, content: &str, state: SensitiveReleaseState) -> (args: Vec<SqlArg>)
    ensures
        args_view(args@) == edit_row(id, content@, state),
{
    let args = vec![
        SqlArg::Text(content.to_owned()),
        SqlArg::Text(RecordStatus::Confirmed.as_str().to_owned()),
        SqlArg::Text(sensitivity_str(&state).to_owned()),
        SqlArg::Integer(id),
    ];
    assert(args_view(args@) =~= edit_row(id, content@, state));
    args
}

/// The arguments of [`UPDATE_RELEASE`] that approve the release of record `id`.
pub open spec fn release_row(id: i64) -> Seq<SqlArgView> {
    seq![SqlArgView::Text(release_state_name(SensitiveReleaseState::Approved)), SqlArgView::Integer(id)]
}

/// The arguments of [`UPDATE_RELEASE`] that approve the release of record `id`.
pub fn release_args(id: i64) -> (args: Vec<SqlArg>)
    ensures
        args_view(args@) == release_row(id),
{
    let args = vec![
        SqlArg::Text(sensitivity_str(&SensitiveReleaseState::Approved).to_owned()),
        SqlArg::Integer(id),
    ];
    assert(args_view(args@) =~= release_row(id));
    args
}

/// What a stored record reads back as after each update the engine writes: the
/// status update, the edit and the release approval change exactly the fields they name.
pub proof fn lemma_updates_read_back(
    row: Seq<SqlValueView>,
    r: RecordView,
    status: RecordStatus,
    content: Seq<char>,
    state: SensitiveReleaseState,
)
    requires
        decode_record(row) == Some(r),
    ensures
        decode_record(row.update(4, SqlValueView::Text(status_name(status))))
            == Some(RecordView { status, ..r }),
        decode_record(row.update(5, SqlValueView::Text(release_state_name(SensitiveReleaseState::Approved))))
            == Some(RecordView { sensitive_release_state: SensitiveReleaseState::Approved, ..r }),
        decode_record(
            row.update(2, SqlValueView::Text(content)).update(4, SqlValueView::Text(status_name(RecordStatus::Confirmed))).update(
                5,
                SqlValueView::Text(release_state_name(state)),
            ),
        ) == Some(RecordView { content, status: RecordStatus::Confirmed, sensitive_release_state: state, ..r }),
{
    crate::records::lemma_status_names_round_trip(status);
    crate::records::lemma_status_names_round_trip(RecordStatus::Confirmed);
    crate::records::lemma_release_state_names_round_trip(SensitiveReleaseState::Approved);
    crate::records::lemma_release_state_names_round_trip(state);
}

} // verus!
