//! What the board's reads show after its writes. A read returns what storage answers,
//! so each law here takes the answers of the later read as given: those of a store
//! that kept the write, next to what the earlier read was answered. The reads in each
//! law are made on one database file, `file`.
use vstd::prelude::*;

use crate::board::{
    approval_requests, edit_requests, heartbeat_outcome, pending_outcome, response, review_requests,
    revocation_requests, snapshot_outcome, submit_requests, task_requests, BoardError, Failure, Task,
};
use crate::ledger::{planned_proposal, selected, views, Record, RecordView, Selection};
use crate::policy::initial_release_state;
use crate::records::{
    outcome_status, release_state_name, status_name, ProposalOutcome, RecordStatus, RecordType,
    SensitiveReleaseState,
};
use crate::review::{
    after_approval, after_edit, after_review, approved, edited, lemma_proposal_keeps_confirmed_state, reviewed,
};
use crate::sqlite::{SqlArgView, SqlValueView, StorageRequest};
use crate::storage::{
    decode_record, decode_records, integer_of, lemma_proposal_reads_back, lemma_revocation_is_per_actor,
    lemma_updates_read_back, proposal_row, revocation_row, row_read_back, stored_as,
};
use crate::views::{heartbeat_of, snapshot_of, Heartbeat, ReviewQueue, Snapshot, SnapshotView};

verus! {

/// The arguments of a write request.
pub open spec fn write_args(request: StorageRequest) -> Seq<SqlArgView> {
    match request {
        StorageRequest::Write(_, args, _) => args,
        _ => Seq::empty(),
    }
}

/// The rows that a read returned, or none when it failed.
pub open spec fn rows_returned(request: StorageRequest) -> Seq<Seq<SqlValueView>> {
    match response(request) {
        Some(rows) => rows,
        None => Seq::empty(),
    }
}

/// Rows followed by one more describe the records of the rows, then the record of the
/// new row, when it describes one.
proof fn lemma_decode_push(rows: Seq<Seq<SqlValueView>>, row: Seq<SqlValueView>)
    ensures
        decode_records(rows.push(row)) == match decode_record(row) {
            Some(r) => decode_records(rows).push(r),
            None => decode_records(rows),
        },
{
    let f = |row: Seq<SqlValueView>| decode_record(row);
    assert(rows.push(row).drop_last() =~= rows);
    assert(rows.push(row).last() == row);
    assert(decode_records(rows.push(row)) == rows.push(row).filter_map(f));
    assert(decode_records(rows) == rows.filter_map(f));
}

/// A proposal changes nothing that a snapshot shows, however it is flagged. Take a
/// proposal of task `task_id` that succeeded with `record`, and two snapshot reads of
/// the task that found the same goal, the later one answered with the records of the
/// earlier one followed by the row that the proposal inserted: the two snapshots are equal.
pub proof fn law_proposal_leaves_snapshot(
    task_id: i64,
    kind: RecordType,
    content: Seq<char>,
    actor: Seq<char>,
    base_version: Option<i64>,
    proposal: Seq<StorageRequest>,
    record: Record,
    before: Snapshot,
    after: Snapshot,
    file: Option<Seq<char>>,
)
    requires
        submit_requests(task_id, kind, content, actor, base_version, proposal, Ok::<Record, BoardError>(record)),
        snapshot_outcome(Ok::<Snapshot, Failure>(before), task_id, file),
        snapshot_outcome(Ok::<Snapshot, Failure>(after), task_id, file),
        after@.goal == before@.goal,
        rows_returned(after.provenance.requests()[1]) == rows_returned(before.provenance.requests()[1]).push(
            row_read_back(record.id, write_args(proposal[2])),
        ),
    ensures
        after@ == before@,
{
    let p = planned_proposal(decode_records(rows_returned(proposal[1])), kind, content, actor, base_version);
    assert(write_args(proposal[2]) == proposal_row(task_id, p));
    lemma_proposal_reads_back(task_id, record.id, p);
    let rows = rows_returned(before.provenance.requests()[1]);
    lemma_decode_push(rows, row_read_back(record.id, proposal_row(task_id, p)));
    lemma_proposal_keeps_confirmed_state(decode_records(rows), record.id, p, Seq::empty(), before@.goal);
}

/// A proposal joins the review queue as it was recorded, flags and release state
/// included. Take a proposal of task `task_id` that succeeded with `record`, and two
/// reads of the task's review queue, the later one answered with the rows of the
/// earlier one followed by the row that the proposal inserted: the later queue is the
/// earlier one followed by `record`.
pub proof fn law_proposal_joins_review_queue(
    task_id: i64,
    kind: RecordType,
    content: Seq<char>,
    actor: Seq<char>,
    base_version: Option<i64>,
    proposal: Seq<StorageRequest>,
    record: Record,
    before: ReviewQueue,
    after: ReviewQueue,
    file: Option<Seq<char>>,
)
    requires
        submit_requests(task_id, kind, content, actor, base_version, proposal, Ok::<Record, BoardError>(record)),
        pending_outcome(Ok::<ReviewQueue, Failure>(before), task_id, file),
        pending_outcome(Ok::<ReviewQueue, Failure>(after), task_id, file),
        rows_returned(after.provenance.requests()[0]) == rows_returned(before.provenance.requests()[0]).push(
            row_read_back(record.id, write_args(proposal[2])),
        ),
    ensures
        views(after.records@) == views(before.records@).push(record@),
{
    let p = planned_proposal(decode_records(rows_returned(proposal[1])), kind, content, actor, base_version);
    assert(write_args(proposal[2]) == proposal_row(task_id, p));
    lemma_proposal_reads_back(task_id, record.id, p);
    let rows = rows_returned(before.provenance.requests()[0]);
    lemma_decode_push(rows, row_read_back(record.id, proposal_row(task_id, p)));
    lemma_proposal_keeps_confirmed_state(decode_records(rows), record.id, p, Seq::empty(), Seq::empty());
}

/// The row that a one-column insert with `args` reads back as.
pub open spec fn inserted_row(args: Seq<SqlArgView>) -> Seq<SqlValueView> {
    args.map_values(|a: SqlArgView| stored_as(a))
}

/// A revoked actor is refused. After the revocation of `actor` succeeded, a heartbeat
/// read and a proposal by `actor` whose access checks were answered with the revocation
/// rows of an earlier check followed by the row that the revocation inserted are both
/// refused with `SessionRevoked`, before they read anything else; an access check of
/// any other actor answered the same way concludes as the earlier one did.
pub proof fn law_revocation_refuses(
    actor: Seq<char>,
    revocation: Seq<StorageRequest>,
    earlier: Seq<Seq<SqlValueView>>,
    task_id: i64,
    schema: Seq<char>,
    heartbeat: Result<Heartbeat, Failure>,
    kind: RecordType,
    content: Seq<char>,
    base_version: Option<i64>,
    proposal: Seq<StorageRequest>,
    proposed: Result<Record, BoardError>,
    other: Seq<char>,
    file: Option<Seq<char>>,
)
    requires
        revocation_requests(actor, revocation, Ok::<(), BoardError>(())),
        heartbeat_outcome(heartbeat, task_id, schema, actor, file),
        heartbeat matches Ok(h) ==> response(h.provenance.requests()[0]) == Some(earlier.push(inserted_row(write_args(revocation[0])))),
        heartbeat matches Err(f) ==> response(f.provenance.requests()[0]) == Some(earlier.push(inserted_row(write_args(revocation[0])))),
        submit_requests(task_id, kind, content, actor, base_version, proposal, proposed),
        response(proposal[0]) == Some(earlier.push(inserted_row(write_args(revocation[0])))),
    ensures
        heartbeat matches Err(f) && f.error matches BoardError::SessionRevoked(a) && a@ == actor,
        heartbeat matches Err(f) && f.provenance.requests().len() == 1,
        proposed matches Err(e) && e matches BoardError::SessionRevoked(a) && a@ == actor,
        proposal.len() == 1,
        other != actor ==> crate::storage::lists_actor(earlier.push(inserted_row(write_args(revocation[0]))), other)
            == crate::storage::lists_actor(earlier, other),
{
    assert(inserted_row(write_args(revocation[0])) =~= revocation_row(actor));
    lemma_revocation_is_per_actor(earlier, actor, other);
}

/// Rows after an update of the rows whose identifier is `id`: `change` applied to each of them.
pub open spec fn rows_updated(
    rows: Seq<Seq<SqlValueView>>,
    id: i64,
    change: spec_fn(Seq<SqlValueView>) -> Seq<SqlValueView>,
) -> Seq<Seq<SqlValueView>> {
    rows.map_values(|row: Seq<SqlValueView>| if row.len() > 0 && row[0] == SqlValueView::Integer(id) { change(row) } else { row })
}

/// Every row of `rows` with identifier `id` describes a record that `holds` of.
pub open spec fn rows_of_id_describe(rows: Seq<Seq<SqlValueView>>, id: i64, holds: spec_fn(RecordView) -> bool) -> bool {
    forall|i: int| 0 <= i < rows.len() && rows[i].len() > 0 && rows[i][0] == SqlValueView::Integer(id)
        ==> ((#[trigger] decode_record(rows[i])) matches Some(r) && holds(r))
}

/// Rows changed one by one describe the records changed one by one, where each changed
/// row describes the change of what the row described.
proof fn lemma_decode_map(
    rows: Seq<Seq<SqlValueView>>,
    upd: spec_fn(Seq<SqlValueView>) -> Seq<SqlValueView>,
    g: spec_fn(RecordView) -> RecordView,
)
    requires
        forall|i: int| 0 <= i < rows.len() ==> decode_record(#[trigger] upd(rows[i])) == match decode_record(rows[i]) {
            Some(r) => Some(g(r)),
            None => None,
        },
    ensures
        decode_records(rows.map_values(upd)) == decode_records(rows).map_values(g),
    decreases rows.len(),
{
    let f = |row: Seq<SqlValueView>| decode_record(row);
    if rows.len() == 0 {
        assert(rows.map_values(upd) =~= Seq::<Seq<SqlValueView>>::empty());
        assert(decode_records(rows.map_values(upd)) =~= decode_records(rows).map_values(g));
    } else {
        let init = rows.drop_last();
        assert forall|i: int| 0 <= i < init.len() implies decode_record(#[trigger] upd(init[i])) == match decode_record(init[i]) {
            Some(r) => Some(g(r)),
            None => None,
        } by {
            assert(init[i] == rows[i]);
        }
        lemma_decode_map(init, upd, g);
        let mapped = rows.map_values(upd);
        assert(mapped.drop_last() =~= init.map_values(upd));
        assert(mapped.last() == upd(rows.last()));
        assert(decode_records(mapped) == mapped.filter_map(f));
        assert(decode_records(rows) == rows.filter_map(f));
        assert(decode_records(init) == init.filter_map(f));
        assert(decode_records(init.map_values(upd)) == init.map_values(upd).filter_map(f));
        assert(decode_record(upd(rows[rows.len() - 1])) == match decode_record(rows[rows.len() - 1]) {
            Some(r) => Some(g(r)),
            None => None,
        });
        match decode_record(rows.last()) {
            Some(r) => {
                assert(decode_records(rows) == decode_records(init) + seq![r]);
                assert(decode_records(mapped) == decode_records(init.map_values(upd)) + seq![g(r)]);
                assert((decode_records(init) + seq![r]).map_values(g) =~= decode_records(init).map_values(g) + seq![g(r)]);
            },
            None => {
                assert(decode_records(rows) == decode_records(init));
                assert(decode_records(mapped) == decode_records(init.map_values(upd)));
            },
        }
    }
}

/// A row whose identifier is not `id` describes no record with identifier `id`.
proof fn lemma_other_row(row: Seq<SqlValueView>, id: i64)
    requires
        !(row.len() > 0 && row[0] == SqlValueView::Integer(id)),
    ensures
        decode_record(row) matches Some(r) ==> r.id != id,
{
    if decode_record(row) is Some {
        assert(integer_of(row[0]) is Some);
    }
}

/// A review shows in the next snapshot. Take a review of record `id` with `outcome`
/// whose update succeeded, and two snapshot reads of a task that found the same goal, where
/// every row of `id` that the earlier one read describes a proposal and the later one
/// was answered with the same rows but for the status that the review wrote: the later
/// snapshot is that of the earlier records after the review. Accepting moves the
/// proposal into the confirmed records, rejecting into the rejected ones.
pub proof fn law_review_shows_in_snapshot(
    task_id: i64,
    id: i64,
    outcome: ProposalOutcome,
    review: Seq<StorageRequest>,
    before: Snapshot,
    after: Snapshot,
    file: Option<Seq<char>>,
)
    requires
        review_requests(id, outcome, review, Ok::<(), BoardError>(())),
        snapshot_outcome(Ok::<Snapshot, Failure>(before), task_id, file),
        snapshot_outcome(Ok::<Snapshot, Failure>(after), task_id, file),
        after@.goal == before@.goal,
        rows_of_id_describe(
            rows_returned(before.provenance.requests()[1]),
            id,
            |r: RecordView| r.status == RecordStatus::Proposed,
        ),
        rows_returned(after.provenance.requests()[1]) == rows_updated(
            rows_returned(before.provenance.requests()[1]),
            id,
            |row: Seq<SqlValueView>| row.update(4, stored_as(write_args(review[0])[0])),
        ),
    ensures
        after@ == snapshot_of(
            before@.goal,
            after_review(decode_records(rows_returned(before.provenance.requests()[1])), id, outcome),
        ),
{
    let rows = rows_returned(before.provenance.requests()[1]);
    let status = outcome_status(outcome);
    assert(write_args(review[0])[0] == SqlArgView::Text(status_name(status)));
    let upd = |row: Seq<SqlValueView>| if row.len() > 0 && row[0] == SqlValueView::Integer(id) {
        row.update(4, stored_as(write_args(review[0])[0]))
    } else {
        row
    };
    let g = |r: RecordView| reviewed(r, id, outcome);
    assert forall|i: int| 0 <= i < rows.len() implies decode_record(#[trigger] upd(rows[i])) == match decode_record(rows[i]) {
        Some(r) => Some(g(r)),
        None => None,
    } by {
        let row = rows[i];
        if row.len() > 0 && row[0] == SqlValueView::Integer(id) {
            let r = decode_record(row)->0;
            lemma_updates_read_back(row, r, status, Seq::empty(), SensitiveReleaseState::Pending);
        } else {
            lemma_other_row(row, id);
        }
    }
    lemma_decode_map(rows, upd, g);
    assert(rows_returned(after.provenance.requests()[1]) == rows.map_values(upd));
}

/// An edit shows in the next snapshot. Take an edit of record `id` to `content` that
/// wrote it, and two snapshot reads of a task that found the same goal, where every
/// row of `id` that the earlier one read describes a proposal and the later one was
/// answered with the same rows but for the content, status and release state that the
/// edit wrote: the later snapshot is that of the earlier records after the edit, in which
/// the edited text, not the proposed one, is confirmed.
pub proof fn law_edit_shows_in_snapshot(
    task_id: i64,
    id: i64,
    content: Seq<char>,
    edit: Seq<StorageRequest>,
    before: Snapshot,
    after: Snapshot,
    file: Option<Seq<char>>,
)
    requires
        edit_requests(id, content, edit, Ok::<(), BoardError>(())),
        snapshot_outcome(Ok::<Snapshot, Failure>(before), task_id, file),
        snapshot_outcome(Ok::<Snapshot, Failure>(after), task_id, file),
        after@.goal == before@.goal,
        rows_of_id_describe(
            rows_returned(before.provenance.requests()[1]),
            id,
            |r: RecordView| r.status == RecordStatus::Proposed,
        ),
        rows_returned(after.provenance.requests()[1]) == rows_updated(
            rows_returned(before.provenance.requests()[1]),
            id,
            |row: Seq<SqlValueView>| row.update(2, stored_as(write_args(edit[0])[0])).update(
                4,
                stored_as(write_args(edit[0])[1]),
            ).update(5, stored_as(write_args(edit[0])[2])),
        ),
    ensures
        after@ == snapshot_of(
            before@.goal,
            after_edit(decode_records(rows_returned(before.provenance.requests()[1])), id, content),
        ),
{
    let rows = rows_returned(before.provenance.requests()[1]);
    let state = initial_release_state(content);
    assert(write_args(edit[0])[0] == SqlArgView::Text(content));
    assert(write_args(edit[0])[1] == SqlArgView::Text(status_name(RecordStatus::Confirmed)));
    assert(write_args(edit[0])[2] == SqlArgView::Text(release_state_name(state)));
    let upd = |row: Seq<SqlValueView>| if row.len() > 0 && row[0] == SqlValueView::Integer(id) {
        row.update(2, stored_as(write_args(edit[0])[0])).update(4, stored_as(write_args(edit[0])[1])).update(
            5,
            stored_as(write_args(edit[0])[2]),
        )
    } else {
        row
    };
    let g = |r: RecordView| edited(r, id, content);
    assert forall|i: int| 0 <= i < rows.len() implies decode_record(#[trigger] upd(rows[i])) == match decode_record(rows[i]) {
        Some(r) => Some(g(r)),
        None => None,
    } by {
        let row = rows[i];
        if row.len() > 0 && row[0] == SqlValueView::Integer(id) {
            let r = decode_record(row)->0;
            lemma_updates_read_back(row, r, RecordStatus::Confirmed, content, state);
        } else {
            lemma_other_row(row, id);
        }
    }
    lemma_decode_map(rows, upd, g);
    assert(rows_returned(after.provenance.requests()[1]) == rows.map_values(upd));
}

/// An approval shows in the next heartbeat. Take a release approval of record `id`
/// that wrote it, and two heartbeat reads of a task that found the same goal, where
/// every row of `id` that the earlier one read describes a record waiting for approval
/// and the later one was answered with the same rows but for the release state that
/// the approval wrote: the later heartbeat is that of the earlier records after the
/// approval, which carries the approved record once it is confirmed.
pub proof fn law_approval_shows_in_heartbeat(
    task_id: i64,
    id: i64,
    schema: Seq<char>,
    actor: Seq<char>,
    approval: Seq<StorageRequest>,
    before: Heartbeat,
    after: Heartbeat,
    file: Option<Seq<char>>,
)
    requires
        approval_requests(id, approval, Ok::<(), BoardError>(())),
        heartbeat_outcome(Ok::<Heartbeat, Failure>(before), task_id, schema, actor, file),
        heartbeat_outcome(Ok::<Heartbeat, Failure>(after), task_id, schema, actor, file),
        after@.goal == before@.goal,
        rows_of_id_describe(
            rows_returned(before.provenance.requests()[2]),
            id,
            |r: RecordView| r.sensitive_release_state == SensitiveReleaseState::Pending,
        ),
        rows_returned(after.provenance.requests()[2]) == rows_updated(
            rows_returned(before.provenance.requests()[2]),
            id,
            |row: Seq<SqlValueView>| row.update(5, stored_as(write_args(approval[0])[0])),
        ),
    ensures
        after@ == heartbeat_of(
            schema,
            before@.goal,
            after_approval(decode_records(rows_returned(before.provenance.requests()[2])), id),
        ),
{
    let rows = rows_returned(before.provenance.requests()[2]);
    assert(write_args(approval[0])[0] == SqlArgView::Text(release_state_name(SensitiveReleaseState::Approved)));
    let upd = |row: Seq<SqlValueView>| if row.len() > 0 && row[0] == SqlValueView::Integer(id) {
        row.update(5, stored_as(write_args(approval[0])[0]))
    } else {
        row
    };
    let g = |r: RecordView| approved(r, id);
    assert forall|i: int| 0 <= i < rows.len() implies decode_record(#[trigger] upd(rows[i])) == match decode_record(rows[i]) {
        Some(r) => Some(g(r)),
        None => None,
    } by {
        let row = rows[i];
        if row.len() > 0 && row[0] == SqlValueView::Integer(id) {
            let r = decode_record(row)->0;
            lemma_updates_read_back(row, r, r.status, Seq::empty(), SensitiveReleaseState::Pending);
        } else {
            lemma_other_row(row, id);
        }
    }
    lemma_decode_map(rows, upd, g);
    assert(rows_returned(after.provenance.requests()[2]) == rows.map_values(upd));
}

/// A new task resumes with its goal and nothing reviewed. Take a task creation that
/// succeeded, and a snapshot read of the new task whose goal query was answered with
/// the goal that the creation inserted and whose records query found no rows: the
/// snapshot shows that goal, and no confirmed or rejected record.
pub proof fn law_new_task_resumes_with_its_goal(
    title: Seq<char>,
    goal: Seq<char>,
    creation: Seq<StorageRequest>,
    task: Task,
    snapshot: Snapshot,
    file: Option<Seq<char>>,
)
    requires
        task_requests(title, goal, creation, Ok::<Task, BoardError>(task)),
        snapshot_outcome(Ok::<Snapshot, Failure>(snapshot), task.id, file),
        response(snapshot.provenance.requests()[0]) == Some(seq![seq![stored_as(write_args(creation[0])[1])]]),
        rows_returned(snapshot.provenance.requests()[1]) == Seq::<Seq<SqlValueView>>::empty(),
    ensures
        snapshot@ == (SnapshotView { goal, confirmed: Seq::empty(), rejected: Seq::empty() }),
{
    let none = Seq::<Seq<SqlValueView>>::empty();
    assert(decode_records(none) =~= Seq::<RecordView>::empty());
    assert(selected(Seq::<RecordView>::empty(), Selection::Status(RecordStatus::Confirmed)) =~= Seq::<RecordView>::empty());
    assert(selected(Seq::<RecordView>::empty(), Selection::Status(RecordStatus::Rejected)) =~= Seq::<RecordView>::empty());
}

/// Reading a snapshot changes nothing and depends on nothing but what storage answers:
/// it makes only reads, and two snapshot reads of a task answered alike are equal.
pub proof fn law_snapshot_reads_only(task_id: i64, first: Snapshot, second: Snapshot, file: Option<Seq<char>>)
    requires
        snapshot_outcome(Ok::<Snapshot, Failure>(first), task_id, file),
        snapshot_outcome(Ok::<Snapshot, Failure>(second), task_id, file),
        response(first.provenance.requests()[0]) == response(second.provenance.requests()[0]),
        response(first.provenance.requests()[1]) == response(second.provenance.requests()[1]),
    ensures
        forall|i: int| 0 <= i < first.provenance.requests().len()
            ==> (#[trigger] first.provenance.requests()[i]) is Read,
        first@ == second@,
{
}

} // verus!
