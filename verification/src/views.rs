//! What the engine shows of a task: the developer's snapshot and review queue, the
//! compact heartbeat for other clients, and the curated handoff.
use vstd::prelude::*;

use crate::ledger::{
    contents, select_from, selected, texts, views, Ledger, Record, RecordView, Selection,
};
use crate::records::{RecordStatus, RecordType};
use crate::sqlite::Requests;

verus! {

/// The developer's view of a task: its goal and the reviewed records.
pub struct Snapshot {
    pub goal: String,
    pub confirmed: Vec<Record>,
    pub rejected: Vec<Record>,
    /// The requests that the snapshot was read from.
    pub provenance: Requests,
}

pub struct SnapshotView {
    pub goal: Seq<char>,
    pub confirmed: Seq<RecordView>,
    pub rejected: Seq<RecordView>,
}

impl View for Snapshot {
    type V = SnapshotView;

    open spec fn view(&self) -> SnapshotView {
        SnapshotView {
            goal: self.goal@,
            confirmed: views(self.confirmed@),
            rejected: views(self.rejected@),
        }
    }
}

/// The compact, versioned answer to "what just happened?": the goal and the
/// contents of every confirmed record that may be released, in order.
pub struct Heartbeat {
    pub schema_version: String,
    pub goal: String,
    pub recent_changes: Vec<String>,
    /// The requests that the heartbeat was read from.
    pub provenance: Requests,
}

pub struct HeartbeatView {
    pub schema_version: Seq<char>,
    pub goal: Seq<char>,
    pub recent_changes: Seq<Seq<char>>,
}

impl View for Heartbeat {
    type V = HeartbeatView;

    open spec fn view(&self) -> HeartbeatView {
        HeartbeatView {
            schema_version: self.schema_version@,
            goal: self.goal@,
            recent_changes: texts(self.recent_changes@),
        }
    }
}

/// A curated handoff: the goal, and the released confirmed decisions, open
/// questions and changes (the next steps), each in order. Nothing else.
pub struct Handoff {
    pub schema_version: String,
    pub goal: String,
    pub decisions: Vec<String>,
    pub open_questions: Vec<String>,
    pub next_steps: Vec<String>,
    /// The requests that the handoff was read from.
    pub provenance: Requests,
}

pub struct HandoffView {
    pub schema_version: Seq<char>,
    pub goal: Seq<char>,
    pub decisions: Seq<Seq<char>>,
    pub open_questions: Seq<Seq<char>>,
    pub next_steps: Seq<Seq<char>>,
}

impl View for Handoff {
    type V = HandoffView;

    open spec fn view(&self) -> HandoffView {
        HandoffView {
            schema_version: self.schema_version@,
            goal: self.goal@,
            decisions: texts(self.decisions@),
            open_questions: texts(self.open_questions@),
            next_steps: texts(self.next_steps@),
        }
    }
}

/// A task's proposals waiting for review, oldest first, with the requests they were
/// read from. It reads as the `Vec` of its records.
pub struct ReviewQueue {
    pub records: Vec<Record>,
    pub provenance: Requests,
}

impl core::ops::Deref for ReviewQueue {
    type Target = Vec<Record>;

    fn deref(&self) -> (records: &Vec<Record>)
        ensures
            *records == self.records,
    {
        &self.records
    }
}

/// The snapshot of a task with `goal` whose records are `table`.
pub open spec fn snapshot_of(goal: Seq<char>, table: Seq<RecordView>) -> SnapshotView {
    SnapshotView {
        goal,
        confirmed: selected(table, Selection::Status(RecordStatus::Confirmed)),
        rejected: selected(table, Selection::Status(RecordStatus::Rejected)),
    }
}

/// The review queue of `table`: its proposed records, in order.
pub open spec fn pending_of(table: Seq<RecordView>) -> Seq<RecordView> {
    selected(table, Selection::Status(RecordStatus::Proposed))
}

/// The heartbeat of a task with `goal` whose records are `table`.
pub open spec fn heartbeat_of(schema: Seq<char>, goal: Seq<char>, table: Seq<RecordView>) -> HeartbeatView {
    HeartbeatView {
        schema_version: schema,
        goal,
        recent_changes: contents(selected(table, Selection::Shared)),
    }
}

/// The handoff of a task with `goal` whose records are `table`.
pub open spec fn handoff_of(schema: Seq<char>, goal: Seq<char>, table: Seq<RecordView>) -> HandoffView {
    HandoffView {
        schema_version: schema,
        goal,
        decisions: contents(selected(table, Selection::SharedKind(RecordType::Decision))),
        open_questions: contents(selected(table, Selection::SharedKind(RecordType::OpenQuestion))),
        next_steps: contents(selected(table, Selection::SharedKind(RecordType::Change))),
    }
}

impl Snapshot {
    /// The confirmed records of the snapshot that may be released to other clients:
    /// those not waiting for release approval.
    pub fn released(&self) -> (released: Vec<Record>)
        ensures
            views(released@) == selected(self@.confirmed, Selection::Shared),
    {
        select_from(&self.confirmed, Selection::Shared)
    }
}

impl Ledger {
    /// The developer's snapshot of the task.
    pub fn snapshot(&self, goal: String) -> (snapshot: Snapshot)
        ensures
            snapshot@ == snapshot_of(goal@, self@),
    {
        let confirmed = self.select(Selection::Status(RecordStatus::Confirmed));
        let rejected = self.select(Selection::Status(RecordStatus::Rejected));
        Snapshot { goal, confirmed, rejected, provenance: Requests::none() }
    }

    /// The proposals waiting for review, in order.
    pub fn pending(&self) -> (pending: Vec<Record>)
        ensures
            views(pending@) == pending_of(self@),
    {
        self.select(Selection::Status(RecordStatus::Proposed))
    }

    /// The heartbeat of the task under `schema`.
    pub fn heartbeat(&self, schema: &str, goal: String) -> (heartbeat: Heartbeat)
        ensures
            heartbeat@ == heartbeat_of(schema@, goal@, self@),
    {
        let recent_changes = self.select_contents(Selection::Shared);
        Heartbeat { schema_version: schema.to_owned(), goal, recent_changes, provenance: Requests::none() }
    }

    /// The curated handoff of the task under `schema`.
    pub fn handoff(&self, schema: &str, goal: String) -> (handoff: Handoff)
        ensures
            handoff@ == handoff_of(schema@, goal@, self@),
    {
        let decisions = self.select_contents(Selection::SharedKind(RecordType::Decision));
        let open_questions = self.select_contents(Selection::SharedKind(RecordType::OpenQuestion));
        let next_steps = self.select_contents(Selection::SharedKind(RecordType::Change));
        Handoff {
            schema_version: schema.to_owned(),
            goal,
            decisions,
            open_questions,
            next_steps,
            provenance: Requests::none(),
        }
    }
}

} // verus!
