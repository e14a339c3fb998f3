//! The versioned Task Access API: the permission-scoped contract through which every
//! client (the board, agents, a phone-side client behind a relay) reads and proposes
//! task state. It holds no state of its own; the engine stays the only authority.
//! Every result carries the receipts of the requests it was made from.
use vstd::prelude::*;

use crate::board::{
    approval_requests, edit_requests, handoff_outcome, heartbeat_outcome, lemma_from_empty,
    made_on_file, pending_outcome, review_requests, revocation_requests, sent, snapshot_outcome,
    submit_requests, subscription_outcome, task_reads, Board, BoardError, Failure, Subscription,
};
use crate::ledger::{selected, views, Record, RecordView, Selection};
use crate::records::{ProposalOutcome, RecordStatus, RecordType};
use crate::sqlite::{on_file, Receipt, Requests, StorageRequest};
use crate::views::{pending_of, Handoff, Heartbeat, ReviewQueue, Snapshot};

verus! {

/// Access to one board through the versioned contract.
pub struct TaskAccessApi<'a> {
    board: &'a Board,
}

/// A proposal recorded through the API, with the requests it made. It reads as its record.
pub struct Proposed {
    pub record: Record,
    pub provenance: Requests,
}

impl core::ops::Deref for Proposed {
    type Target = Record;

    fn deref(&self) -> (record: &Record)
        ensures
            *record == self.record,
    {
        &self.record
    }
}

/// A proposal by `actor` through the API: the requests of the proposal procedure (the
/// access check, the read of the task's records, the insert of the planned proposal and
/// the identifier the database reported) and the record or error they lead to.
pub open spec fn proposed_outcome(
    result: Result<Proposed, Failure>,
    task_id: i64,
    kind: RecordType,
    content: Seq<char>,
    actor: Seq<char>,
    base_version: Option<i64>,
    file: Option<Seq<char>>,
) -> bool {
    &&& made_on_file(result, |p: Proposed| p.provenance, file)
    &&& submit_requests(
        task_id,
        kind,
        content,
        actor,
        base_version,
        sent(result, |p: Proposed| p.provenance),
        match result {
            Ok(p) => Ok::<Record, BoardError>(p.record),
            Err(f) => Err(f.error),
        },
    )
}

/// An outcome of a write through the API, with its receipts set aside.
pub open spec fn completion(result: Result<Requests, Failure>) -> Result<(), BoardError> {
    match result {
        Ok(_) => Ok(()),
        Err(f) => Err(f.error),
    }
}

/// The requests that a write through the API records, whether it succeeded or not.
pub open spec fn write_sent(result: Result<Requests, Failure>) -> Seq<StorageRequest> {
    sent(result, |r: Requests| r)
}

/// A review of record `id` with `outcome` through the API: the requests of the review
/// procedure and the outcome they lead to.
pub open spec fn review_outcome(result: Result<Requests, Failure>, id: i64, outcome: ProposalOutcome, file: Option<Seq<char>>) -> bool {
    &&& made_on_file(result, |r: Requests| r, file)
    &&& review_requests(id, outcome, write_sent(result), completion(result))
}

/// An edit of record `id` to `content` through the API: the requests of the edit
/// procedure and the outcome they lead to.
pub open spec fn edit_outcome(result: Result<Requests, Failure>, id: i64, content: Seq<char>, file: Option<Seq<char>>) -> bool {
    &&& made_on_file(result, |r: Requests| r, file)
    &&& edit_requests(id, content, write_sent(result), completion(result))
}

/// A release approval of record `id` through the API: the requests of the approval
/// procedure and the outcome they lead to.
pub open spec fn approval_outcome(result: Result<Requests, Failure>, id: i64, file: Option<Seq<char>>) -> bool {
    &&& made_on_file(result, |r: Requests| r, file)
    &&& approval_requests(id, write_sent(result), completion(result))
}

/// A revocation of `actor`'s session through the API: its one insert and its outcome.
pub open spec fn revocation_outcome(result: Result<Requests, Failure>, actor: Seq<char>, file: Option<Seq<char>>) -> bool {
    &&& made_on_file(result, |r: Requests| r, file)
    &&& revocation_requests(actor, write_sent(result), completion(result))
}

/// The outcome of a write through the API, from the write's own outcome and its receipts.
fn complete(done: Result<(), BoardError>, receipts: Vec<Receipt>) -> (result: Result<Requests, Failure>)
    ensures
        completion(result) == done,
        write_sent(result) == crate::sqlite::requests_of(receipts@),
        forall|file: Option<Seq<char>>| made_on_file(result, |r: Requests| r, file) == on_file(receipts@, file),
{
    match done {
        Ok(u) => {
            let result = Ok(Requests::from_receipts(receipts));
            assert(u == ());
            result
        },
        Err(error) => Err(Failure { error, provenance: Requests::from_receipts(receipts) }),
    }
}

impl<'a> TaskAccessApi<'a> {
    /// The contract over `board`.
    pub fn new(board: &'a Board) -> (api: TaskAccessApi<'a>)
        ensures
            api.board() == board,
    {
        TaskAccessApi { board }
    }

    /// The board this contract gives access to.
    pub closed spec fn board(&self) -> &'a Board {
        self.board
    }

    fn submit(&self, task_id: i64, kind: RecordType, content: &str, actor: &str, base_version: Option<i64>) -> (proposed:
        Result<Proposed, Failure>)
        ensures
            proposed_outcome(proposed, task_id, kind, content@, actor@, base_version, self.board().file()),
    {
        let mut receipts: Vec<Receipt> = Vec::new();
        let submitted = self.board.submit(task_id, kind, content, actor, base_version, &mut receipts);
        proof { lemma_from_empty(receipts@); }
        match submitted {
            Ok(record) => Ok(Proposed { record, provenance: Requests::from_receipts(receipts) }),
            Err(error) => Err(Failure { error, provenance: Requests::from_receipts(receipts) }),
        }
    }

    /// Records a typed proposal by `actor` against the current confirmed state.
    pub fn propose(&self, task_id: i64, kind: RecordType, content: &str, actor: &str) -> (proposed: Result<
        Proposed,
        Failure,
    >)
        ensures
            proposed_outcome(proposed, task_id, kind, content@, actor@, None, self.board().file()),
    {
        self.submit(task_id, kind, content, actor, None)
    }

    /// Records a typed proposal by `actor`, who last read board version `base_version`.
    pub fn propose_from_version(
        &self,
        task_id: i64,
        kind: RecordType,
        content: &str,
        actor: &str,
        base_version: i64,
    ) -> (proposed: Result<Proposed, Failure>)
        ensures
            proposed_outcome(proposed, task_id, kind, content@, actor@, Some(base_version), self.board().file()),
    {
        self.submit(task_id, kind, content, actor, Some(base_version))
    }

    fn review(&self, id: i64, outcome: ProposalOutcome) -> (done: Result<Requests, Failure>)
        ensures
            review_outcome(done, id, outcome, self.board().file()),
    {
        let mut receipts: Vec<Receipt> = Vec::new();
        let done = self.board.apply_review(id, outcome, &mut receipts);
        proof { lemma_from_empty(receipts@); }
        complete(done, receipts)
    }

    /// The developer accepts proposal `id`.
    pub fn accept(&self, id: i64) -> (done: Result<Requests, Failure>)
        ensures
            review_outcome(done, id, ProposalOutcome::Accept, self.board().file()),
    {
        self.review(id, ProposalOutcome::Accept)
    }

    /// The developer rejects proposal `id`.
    pub fn reject(&self, id: i64) -> (done: Result<Requests, Failure>)
        ensures
            review_outcome(done, id, ProposalOutcome::Reject, self.board().file()),
    {
        self.review(id, ProposalOutcome::Reject)
    }

    /// The developer edits proposal `id` to `content` and accepts it.
    pub fn edit_and_accept(&self, id: i64, content: &str) -> (done: Result<Requests, Failure>)
        ensures
            edit_outcome(done, id, content@, self.board().file()),
    {
        let mut receipts: Vec<Receipt> = Vec::new();
        let done = self.board.apply_edit(id, content, &mut receipts);
        proof { lemma_from_empty(receipts@); }
        complete(done, receipts)
    }

    /// The developer approves the release of sensitive record `id`.
    pub fn approve_sensitive_release(&self, id: i64) -> (done: Result<Requests, Failure>)
        ensures
            approval_outcome(done, id, self.board().file()),
    {
        let mut receipts: Vec<Receipt> = Vec::new();
        let done = self.board.apply_approval(id, &mut receipts);
        proof { lemma_from_empty(receipts@); }
        complete(done, receipts)
    }

    /// The developer revokes `actor`'s session.
    pub fn revoke_session(&self, actor: &str) -> (done: Result<Requests, Failure>)
        ensures
            revocation_outcome(done, actor@, self.board().file()),
    {
        let mut receipts: Vec<Receipt> = Vec::new();
        let done = self.board.apply_revocation(actor, &mut receipts);
        proof { lemma_from_empty(receipts@); }
        complete(done, receipts)
    }

    /// The developer's snapshot of task `task_id`.
    pub fn resume(&self, task_id: i64) -> (snapshot: Result<Snapshot, Failure>)
        ensures
            snapshot_outcome(snapshot, task_id, self.board().file()),
    {
        self.board.resume(task_id)
    }

    /// The proposals of task `task_id` waiting for review.
    pub fn pending(&self, task_id: i64) -> (pending: Result<ReviewQueue, Failure>)
        ensures
            pending_outcome(pending, task_id, self.board().file()),
    {
        self.board.pending(task_id)
    }

    /// "What just happened?": the heartbeat of task `task_id` for `actor` under `schema`.
    pub fn what_just_happened(&self, task_id: i64, schema: &str, actor: &str) -> (heartbeat: Result<
        Heartbeat,
        Failure,
    >)
        ensures
            heartbeat_outcome(heartbeat, task_id, schema@, actor@, self.board().file()),
    {
        self.board.what_just_happened(task_id, schema, actor)
    }

    /// The curated handoff of task `task_id` for `actor` under `schema`.
    pub fn compose_handoff(&self, task_id: i64, schema: &str, actor: &str) -> (handoff: Result<
        Handoff,
        Failure,
    >)
        ensures
            handoff_outcome(handoff, task_id, schema@, actor@, self.board().file()),
    {
        self.board.compose_handoff(task_id, schema, actor)
    }

    /// Subscribes `actor` to the board's changes.
    pub fn subscribe(&self, actor: &str) -> (subscription: Result<Subscription, Failure>)
        ensures
            subscription_outcome(subscription, actor@, self.board().file()),
    {
        self.board.subscribe(actor)
    }
}

/// A transport that carries approved API messages to another client without holding
/// any task state or authority of its own; this one delivers them in process.
pub struct LoopbackRelay;

impl LoopbackRelay {
    /// Forwards a heartbeat request for `actor` to the API and returns its answer unchanged.
    pub fn request_heartbeat(&self, api: &TaskAccessApi, task_id: i64, schema: &str, actor: &str) -> (heartbeat:
        Result<Heartbeat, Failure>)
        ensures
            heartbeat_outcome(heartbeat, task_id, schema@, actor@, api.board().file()),
    {
        api.what_just_happened(task_id, schema, actor)
    }
}

/// The always-visible board: a task's goal, its confirmed records and its review queue,
/// read together by the goal query and one records query of the task.
pub struct BoardView {
    pub task_id: i64,
    pub goal: String,
    pub confirmed: Vec<Record>,
    pub pending: Vec<Record>,
    /// The requests that the view was read from.
    pub provenance: Requests,
}

/// The board view of task `task_id`: the goal that its goal query returned, and the
/// confirmed records and proposals among the records that its records query returned,
/// or the error that their answers call for.
pub open spec fn board_view_outcome(result: Result<BoardView, Failure>, task_id: i64, file: Option<Seq<char>>) -> bool {
    &&& made_on_file(result, |v: BoardView| v.provenance, file)
    &&& task_reads(
        task_id,
        sent(result, |v: BoardView| v.provenance),
        match result {
            Ok(v) => Ok(v),
            Err(f) => Err(f.error),
        },
        |v: BoardView, goal: Seq<char>, records: Seq<RecordView>| {
            &&& v.task_id == task_id
            &&& v.goal@ == goal
            &&& views(v.confirmed@) == selected(records, Selection::Status(RecordStatus::Confirmed))
            &&& views(v.pending@) == pending_of(records)
        },
    )
}

impl BoardView {
    /// Loads the board view of task `task_id` through `api`.
    pub fn load(api: &TaskAccessApi, task_id: i64) -> (view: Result<BoardView, Failure>)
        ensures
            board_view_outcome(view, task_id, api.board().file()),
    {
        let mut receipts: Vec<Receipt> = Vec::new();
        let state = api.board.task_state(task_id, &mut receipts);
        proof { lemma_from_empty(receipts@); }
        match state {
            Ok((goal, ledger)) => {
                let confirmed = ledger.select(Selection::Status(RecordStatus::Confirmed));
                let pending = ledger.pending();
                Ok(BoardView { task_id, goal, confirmed, pending, provenance: Requests::from_receipts(receipts) })
            },
            Err(error) => Err(Failure { error, provenance: Requests::from_receipts(receipts) }),
        }
    }

    /// The developer accepts proposal `id` from the board.
    pub fn accept(&self, api: &TaskAccessApi, id: i64) -> (done: Result<Requests, Failure>)
        ensures
            review_outcome(done, id, ProposalOutcome::Accept, api.board().file()),
    {
        api.accept(id)
    }

    /// The developer rejects proposal `id` from the board.
    pub fn reject(&self, api: &TaskAccessApi, id: i64) -> (done: Result<Requests, Failure>)
        ensures
            review_outcome(done, id, ProposalOutcome::Reject, api.board().file()),
    {
        api.reject(id)
    }

    /// The developer edits proposal `id` to `content` and accepts it from the board.
    pub fn edit_and_accept(&self, api: &TaskAccessApi, id: i64, content: &str) -> (done: Result<Requests, Failure>)
        ensures
            edit_outcome(done, id, content@, api.board().file()),
    {
        api.edit_and_accept(id, content)
    }
}

} // verus!
