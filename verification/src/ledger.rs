//! The records of one task, as read from storage, and everything the engine
//! decides from them: the confirmed board version, conflicts, staleness, and the
//! curated views (snapshot, review queue, heartbeat, handoff).
use vstd::prelude::*;

use crate::policy::{classify_sensitivity, initial_release_state};
use crate::records::{RecordStatus, RecordType, SensitiveReleaseState};
use crate::text::same_text;

verus! {

broadcast use vstd::seq_lib::group_seq_properties;

/// One task-state record with its provenance and review flags.
#[derive(Debug)]
pub struct Record {
    pub id: i64,
    pub kind: RecordType,
    pub content: String,
    pub actor: String,
    pub status: RecordStatus,
    pub is_stale: bool,
    pub is_conflict: bool,
    pub conflicts_with: Option<i64>,
    pub sensitive_release_state: SensitiveReleaseState,
}

/// The mathematical value of a [`Record`]: its text fields as character sequences.
pub struct RecordView {
    pub id: i64,
    pub kind: RecordType,
    pub content: Seq<char>,
    pub actor: Seq<char>,
    pub status: RecordStatus,
    pub is_stale: bool,
    pub is_conflict: bool,
    pub conflicts_with: Option<i64>,
    pub sensitive_release_state: SensitiveReleaseState,
}

impl View for Record {
    type V = RecordView;

    open spec fn view(&self) -> RecordView {
        RecordView {
            id: self.id,
            kind: self.kind,
            content: self.content@,
            actor: self.actor@,
            status: self.status,
            is_stale: self.is_stale,
            is_conflict: self.is_conflict,
            conflicts_with: self.conflicts_with,
            sensitive_release_state: self.sensitive_release_state,
        }
    }
}

impl Clone for Record {
    fn clone(&self) -> (copy: Self)
        ensures
            copy@ == self@,
    {
        Record {
            id: self.id,
            kind: self.kind,
            content: self.content.clone(),
            actor: self.actor.clone(),
            status: self.status,
            is_stale: self.is_stale,
            is_conflict: self.is_conflict,
            conflicts_with: self.conflicts_with,
            sensitive_release_state: self.sensitive_release_state,
        }
    }
}

/// The views of a sequence of records.
pub open spec fn views(records: Seq<Record>) -> Seq<RecordView> {
    records.map_values(|r: Record| r@)
}

/// The views of a sequence of strings.
pub open spec fn texts(strings: Seq<String>) -> Seq<Seq<char>> {
    strings.map_values(|s: String| s@)
}

/// The contents of a sequence of records, in order.
pub open spec fn contents(records: Seq<RecordView>) -> Seq<Seq<char>> {
    records.map_values(|r: RecordView| r.content)
}

/// A record may be released to other agents: it is confirmed, and its release
/// state is not waiting for the developer's approval.
pub open spec fn is_shareable(r: RecordView) -> bool {
    r.status == RecordStatus::Confirmed && r.sensitive_release_state
        != SensitiveReleaseState::Pending
}

/// Which records a view keeps.
#[derive(Clone, Copy, Debug, PartialEq, Eq, Structural)]
pub enum Selection {
    /// Records with this review status.
    Status(RecordStatus),
    /// Shareable records of every kind.
    Shared,
    /// Shareable records of this kind.
    SharedKind(RecordType),
    /// Confirmed records of this kind, released or not.
    ConfirmedKind(RecordType),
}

/// Whether `selection` keeps record `r`.
pub open spec fn selects(selection: Selection, r: RecordView) -> bool {
    match selection {
        Selection::Status(status) => r.status == status,
        Selection::Shared => is_shareable(r),
        Selection::SharedKind(kind) => is_shareable(r) && r.kind == kind,
        Selection::ConfirmedKind(kind) => r.status == RecordStatus::Confirmed && r.kind == kind,
    }
}

/// The predicate of `selection`.
pub open spec fn selector(selection: Selection) -> spec_fn(RecordView) -> bool {
    |r: RecordView| selects(selection, r)
}

/// The records of `table` that `selection` keeps, in table order.
pub open spec fn selected(table: Seq<RecordView>, selection: Selection) -> Seq<RecordView> {
    table.filter(selector(selection))
}

/// The confirmed board version: one for the task's creation, plus one for each confirmed record.
pub open spec fn board_version(table: Seq<RecordView>) -> int {
    selected(table, Selection::Status(RecordStatus::Confirmed)).len() as int + 1
}

/// Kinds of record that state something a later proposal can contradict.
pub open spec fn may_conflict(kind: RecordType) -> bool {
    kind == RecordType::Decision || kind == RecordType::Goal
}

/// The most recent confirmed record of `kind`, if there is one.
pub open spec fn latest_confirmed(table: Seq<RecordView>, kind: RecordType) -> Option<RecordView> {
    let confirmed = selected(table, Selection::ConfirmedKind(kind));
    if confirmed.len() == 0 {
        None
    } else {
        Some(confirmed.last())
    }
}

/// The confirmed record that a proposal of `kind` with `content` contradicts: the
/// latest confirmed record of the same kind, when that kind states something and the
/// proposed text differs from it.
pub open spec fn conflict_target(table: Seq<RecordView>, kind: RecordType, content: Seq<char>) -> Option<i64> {
    if may_conflict(kind) {
        match latest_confirmed(table, kind) {
            Some(current) => if current.content != content {
                Some(current.id)
            } else {
                None
            },
            None => None,
        }
    } else {
        None
    }
}

/// A proposal is stale when the board version its author read is not the current one.
/// A proposal made without a version is made against the current state.
pub open spec fn stale_against(table: Seq<RecordView>, base_version: Option<i64>) -> bool {
    match base_version {
        Some(version) => version != board_version(table),
        None => false,
    }
}

/// A proposal before storage gives it an identifier.
pub struct Proposal {
    pub kind: RecordType,
    pub content: String,
    pub actor: String,
    pub sensitive_release_state: SensitiveReleaseState,
    pub is_stale: bool,
    pub conflicts_with: Option<i64>,
}

/// The mathematical value of a [`Proposal`].
pub struct ProposalView {
    pub kind: RecordType,
    pub content: Seq<char>,
    pub actor: Seq<char>,
    pub sensitive_release_state: SensitiveReleaseState,
    pub is_stale: bool,
    pub conflicts_with: Option<i64>,
}

impl View for Proposal {
    type V = ProposalView;

    open spec fn view(&self) -> ProposalView {
        ProposalView {
            kind: self.kind,
            content: self.content@,
            actor: self.actor@,
            sensitive_release_state: self.sensitive_release_state,
            is_stale: self.is_stale,
            conflicts_with: self.conflicts_with,
        }
    }
}

/// The proposal that `actor` makes against `table`: flagged stale and conflicting as
/// the table says, and waiting for release approval when its content is sensitive.
pub open spec fn planned_proposal(
    table: Seq<RecordView>,
    kind: RecordType,
    content: Seq<char>,
    actor: Seq<char>,
    base_version: Option<i64>,
) -> ProposalView {
    ProposalView {
        kind,
        content,
        actor,
        sensitive_release_state: initial_release_state(content),
        is_stale: stale_against(table, base_version),
        conflicts_with: conflict_target(table, kind, content),
    }
}

/// The proposed record that storage holds under `id` for proposal `p`.
pub open spec fn proposed_record(id: i64, p: ProposalView) -> RecordView {
    RecordView {
        id,
        kind: p.kind,
        content: p.content,
        actor: p.actor,
        status: RecordStatus::Proposed,
        is_stale: p.is_stale,
        is_conflict: p.conflicts_with is Some,
        conflicts_with: p.conflicts_with,
        sensitive_release_state: p.sensitive_release_state,
    }
}

impl Proposal {
    /// The record that this proposal becomes once storage gave it `id`.
    pub fn into_record(self, id: i64) -> (record: Record)
        ensures
            record@ == proposed_record(id, self@),
    {
        let is_conflict = self.conflicts_with.is_some();
        Record {
            id,
            kind: self.kind,
            content: self.content,
            actor: self.actor,
            status: RecordStatus::Proposed,
            is_stale: self.is_stale,
            is_conflict,
            conflicts_with: self.conflicts_with,
            sensitive_release_state: self.sensitive_release_state,
        }
    }
}

/// The records of one task in storage order.
pub struct Ledger {
    pub records: Vec<Record>,
}

impl View for Ledger {
    type V = Seq<RecordView>;

    open spec fn view(&self) -> Seq<RecordView> {
        views(self.records@)
    }
}

/// Whether `selection` keeps `r`.
pub fn keeps(selection: Selection, r: &Record) -> (kept: bool)
    ensures
        kept == selects(selection, r@),
{
    let shareable = r.status == RecordStatus::Confirmed && r.sensitive_release_state
        != SensitiveReleaseState::Pending;
    match selection {
        Selection::Status(status) => r.status == status,
        Selection::Shared => shareable,
        Selection::SharedKind(kind) => shareable && r.kind == kind,
        Selection::ConfirmedKind(kind) => r.status == RecordStatus::Confirmed && r.kind == kind,
    }
}

/// The records of `records` that `selection` keeps, in order.
pub fn select_from(records: &Vec<Record>, selection: Selection) -> (kept: Vec<Record>)
    ensures
        views(kept@) == views(records@).filter(selector(selection)),
{
    let ghost table = views(records@);
    let mut kept: Vec<Record> = Vec::new();
    let mut i: usize = 0;
    while i < records.len()
        invariant
            i <= records.len(),
            table == views(records@),
            views(kept@) == table.take(i as int).filter(selector(selection)),
        decreases records.len() - i,
    {
        let r = &records[i];
        proof {
            assert(table.take(i as int + 1) =~= table.take(i as int).push(r@));
            table.take(i as int).lemma_filter_push(r@, selector(selection));
        }
        let ghost before = kept@;
        if keeps(selection, r) {
            kept.push(r.clone());
            assert(views(kept@) =~= views(before).push(r@));
        }
        i = i + 1;
    }
    assert(table.take(i as int) =~= table);
    kept
}

impl Ledger {
    /// The records that `selection` keeps, in storage order.
    pub fn select(&self, selection: Selection) -> (kept: Vec<Record>)
        ensures
            views(kept@) == selected(self@, selection),
    {
        select_from(&self.records, selection)
    }

    /// The contents of the records that `selection` keeps, in storage order.
    pub fn select_contents(&self, selection: Selection) -> (out: Vec<String>)
        ensures
            texts(out@) == contents(selected(self@, selection)),
    {
        let kept = self.select(selection);
        contents_of(&kept)
    }

    /// The number of confirmed records.
    pub fn confirmed_count(&self) -> (count: usize)
        ensures
            count == selected(self@, Selection::Status(RecordStatus::Confirmed)).len(),
    {
        let confirmed = self.select(Selection::Status(RecordStatus::Confirmed));
        confirmed.len()
    }

    /// The most recent confirmed record of `kind`.
    pub fn latest_confirmed(&self, kind: RecordType) -> (latest: Option<Record>)
        ensures
            match latest {
                Some(r) => latest_confirmed(self@, kind) == Some(r@),
                None => latest_confirmed(self@, kind) is None,
            },
    {
        let confirmed = self.select(Selection::ConfirmedKind(kind));
        if confirmed.len() == 0 {
            None
        } else {
            let last = confirmed.len() - 1;
            assert(views(confirmed@)[last as int] == confirmed@[last as int]@);
            Some(confirmed[last].clone())
        }
    }

    /// Whether a proposal based on `base_version` is behind the current board version.
    pub fn is_stale(&self, base_version: Option<i64>) -> (stale: bool)
        ensures
            stale == stale_against(self@, base_version),
    {
        match base_version {
            Some(version) => {
                let count = self.confirmed_count();
                (version as i128) != (count as i128) + 1
            },
            None => false,
        }
    }

    /// The confirmed record that a proposal of `kind` with `content` contradicts, if any.
    pub fn find_conflict(&self, kind: RecordType, content: &str) -> (target: Option<i64>)
        ensures
            target == conflict_target(self@, kind, content@),
    {
        if kind == RecordType::Decision || kind == RecordType::Goal {
            match self.latest_confirmed(kind) {
                Some(current) => {
                    if same_text(current.content.as_str(), content) {
                        None
                    } else {
                        Some(current.id)
                    }
                },
                None => None,
            }
        } else {
            None
        }
    }

    /// The proposal that `actor` makes against these records.
    pub fn plan_proposal(
        &self,
        kind: RecordType,
        content: &str,
        actor: &str,
        base_version: Option<i64>,
    ) -> (p: Proposal)
        ensures
            p@ == planned_proposal(self@, kind, content@, actor@, base_version),
    {
        let sensitive_release_state = classify_sensitivity(content);
        let is_stale = self.is_stale(base_version);
        let conflicts_with = self.find_conflict(kind, content);
        Proposal {
            kind,
            content: content.to_owned(),
            actor: actor.to_owned(),
            sensitive_release_state,
            is_stale,
            conflicts_with,
        }
    }
}

/// The contents of `records`, in order.
pub fn contents_of(records: &Vec<Record>) -> (out: Vec<String>)
    ensures
        texts(out@) == contents(views(records@)),
{
    let mut out: Vec<String> = Vec::new();
    let mut i: usize = 0;
    while i < records.len()
        invariant
            i <= records.len(),
            texts(out@) == contents(views(records@)).take(i as int),
        decreases records.len() - i,
    {
        let ghost before = out@;
        let text = records[i].content.clone();
        out.push(text);
        assert(views(records@)[i as int] == records@[i as int]@);
        assert(texts(out@) =~= texts(before).push(text@));
        i = i + 1;
        assert(texts(out@) =~= contents(views(records@)).take(i as int));
    }
    assert(contents(views(records@)).take(i as int) =~= contents(views(records@)));
    out
}

} // verus!
