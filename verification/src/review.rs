//! The developer's decisions on stored records (accept, reject, edit and accept,
//! release approval), what each does to a task's records, and the laws they keep.
use vstd::prelude::*;

use crate::ledger::{
    board_version, conflict_target, contents, proposed_record, selected, selector, selects, stale_against,
    ProposalView, RecordView, Selection,
};
use crate::policy::{initial_release_state, mentions_sensitive_marker};
use crate::records::{outcome_status, ProposalOutcome, RecordStatus, RecordType, SensitiveReleaseState};
use crate::views::{handoff_of, heartbeat_of, pending_of, snapshot_of};

verus! {

broadcast use vstd::seq_lib::group_seq_properties;

/// The status that reviewing `r` with `outcome` gives it: only a proposal changes.
pub open spec fn review_effect(r: RecordView, outcome: ProposalOutcome) -> Option<RecordStatus> {
    if r.status == RecordStatus::Proposed {
        Some(outcome_status(outcome))
    } else {
        None
    }
}

/// The release state that editing and accepting `r` with `content` gives it: only a
/// proposal can be edited, and the edited text is classified afresh.
pub open spec fn edit_effect(r: RecordView, content: Seq<char>) -> Option<SensitiveReleaseState> {
    if r.status == RecordStatus::Proposed {
        Some(initial_release_state(content))
    } else {
        None
    }
}

/// Whether approving the release of `r` changes it: only a record waiting for approval does.
pub open spec fn approval_effect(r: RecordView) -> bool {
    r.sensitive_release_state == SensitiveReleaseState::Pending
}

/// Record `r` after the record with `id` was reviewed with `outcome`.
pub open spec fn reviewed(r: RecordView, id: i64, outcome: ProposalOutcome) -> RecordView {
    if r.id == id {
        match review_effect(r, outcome) {
            Some(status) => RecordView { status, ..r },
            None => r,
        }
    } else {
        r
    }
}

/// Record `r` after the record with `id` was edited to `content` and accepted.
pub open spec fn edited(r: RecordView, id: i64, content: Seq<char>) -> RecordView {
    if r.id == id {
        match edit_effect(r, content) {
            Some(state) => RecordView {
                content,
                status: RecordStatus::Confirmed,
                sensitive_release_state: state,
                ..r
            },
            None => r,
        }
    } else {
        r
    }
}

/// Record `r` after the release of the record with `id` was approved.
pub open spec fn approved(r: RecordView, id: i64) -> RecordView {
    if r.id == id && approval_effect(r) {
        RecordView { sensitive_release_state: SensitiveReleaseState::Approved, ..r }
    } else {
        r
    }
}

/// A task's records after the record with `id` was reviewed with `outcome`.
pub open spec fn after_review(table: Seq<RecordView>, id: i64, outcome: ProposalOutcome) -> Seq<RecordView> {
    table.map_values(|r: RecordView| reviewed(r, id, outcome))
}

/// A task's records after the record with `id` was edited to `content` and accepted.
pub open spec fn after_edit(table: Seq<RecordView>, id: i64, content: Seq<char>) -> Seq<RecordView> {
    table.map_values(|r: RecordView| edited(r, id, content))
}

/// A task's records after the release of the record with `id` was approved.
pub open spec fn after_approval(table: Seq<RecordView>, id: i64) -> Seq<RecordView> {
    table.map_values(|r: RecordView| approved(r, id))
}

/// No two records of a task share an identifier.
pub open spec fn ids_unique(table: Seq<RecordView>) -> bool {
    forall|i: int, j: int| 0 <= i < table.len() && 0 <= j < table.len() && i != j ==> table[i].id != table[j].id
}

/// A change of records that keeps every record a filter keeps, and keeps no record it drops.
proof fn lemma_filter_of_stable_map(
    table: Seq<RecordView>,
    f: spec_fn(RecordView) -> RecordView,
    p: spec_fn(RecordView) -> bool,
)
    requires
        forall|r: RecordView| #[trigger] p(f(r)) == p(r),
        forall|r: RecordView| p(r) ==> #[trigger] f(r) == r,
    ensures
        table.map_values(f).filter(p) == table.filter(p),
    decreases table.len(),
{
    if table.len() > 0 {
        let rest = table.drop_last();
        lemma_filter_of_stable_map(rest, f, p);
        assert(table.map_values(f) =~= rest.map_values(f).push(f(table.last())));
        assert(table =~= rest.push(table.last()));
        rest.map_values(f).lemma_filter_push(f(table.last()), p);
        rest.lemma_filter_push(table.last(), p);
    }
}

/// Replacing one record that a filter drops by one that it keeps adds one to the filtered length.
proof fn lemma_filter_update_gains_one(
    table: Seq<RecordView>,
    k: int,
    x: RecordView,
    p: spec_fn(RecordView) -> bool,
)
    requires
        0 <= k < table.len(),
        !p(table[k]),
        p(x),
    ensures
        table.update(k, x).filter(p).len() == table.filter(p).len() + 1,
    decreases table.len(),
{
    let rest = table.drop_last();
    assert(table =~= rest.push(table.last()));
    rest.lemma_filter_push(table.last(), p);
    if k == table.len() - 1 {
        assert(table.update(k, x) =~= rest.push(x));
        rest.lemma_filter_push(x, p);
    } else {
        lemma_filter_update_gains_one(rest, k, x, p);
        assert(table.update(k, x) =~= rest.update(k, x).push(table.last()));
        rest.update(k, x).lemma_filter_push(table.last(), p);
    }
}

/// Proposing adds one record to the review queue and changes nothing that is
/// confirmed: the snapshot, the board version, the heartbeat and the handoff all stay
/// as they were, whatever the proposal says and however it is flagged.
pub proof fn lemma_proposal_keeps_confirmed_state(
    table: Seq<RecordView>,
    id: i64,
    proposal: ProposalView,
    schema: Seq<char>,
    goal: Seq<char>,
)
    ensures
        ({
            let after = table.push(proposed_record(id, proposal));
            &&& snapshot_of(goal, after) == snapshot_of(goal, table)
            &&& board_version(after) == board_version(table)
            &&& heartbeat_of(schema, goal, after) == heartbeat_of(schema, goal, table)
            &&& handoff_of(schema, goal, after) == handoff_of(schema, goal, table)
            &&& pending_of(after) == pending_of(table).push(proposed_record(id, proposal))
        }),
{
    let r = proposed_record(id, proposal);
    table.lemma_filter_push(r, selector(Selection::Status(RecordStatus::Confirmed)));
    table.lemma_filter_push(r, selector(Selection::Status(RecordStatus::Rejected)));
    table.lemma_filter_push(r, selector(Selection::Status(RecordStatus::Proposed)));
    table.lemma_filter_push(r, selector(Selection::Shared));
    table.lemma_filter_push(r, selector(Selection::SharedKind(RecordType::Decision)));
    table.lemma_filter_push(r, selector(Selection::SharedKind(RecordType::OpenQuestion)));
    table.lemma_filter_push(r, selector(Selection::SharedKind(RecordType::Change)));
}

/// Rejecting a proposal changes nothing that is confirmed or released: the confirmed
/// records, the board version, the heartbeat and the handoff stay as they were.
pub proof fn lemma_rejection_keeps_confirmed_state(
    table: Seq<RecordView>,
    id: i64,
    schema: Seq<char>,
    goal: Seq<char>,
)
    ensures
        ({
            let after = after_review(table, id, ProposalOutcome::Reject);
            &&& snapshot_of(goal, after).confirmed == snapshot_of(goal, table).confirmed
            &&& board_version(after) == board_version(table)
            &&& heartbeat_of(schema, goal, after) == heartbeat_of(schema, goal, table)
            &&& handoff_of(schema, goal, after) == handoff_of(schema, goal, table)
        }),
{
    let f = |r: RecordView| reviewed(r, id, ProposalOutcome::Reject);
    assert(after_review(table, id, ProposalOutcome::Reject) == table.map_values(f));
    lemma_filter_of_stable_map(table, f, selector(Selection::Status(RecordStatus::Confirmed)));
    lemma_filter_of_stable_map(table, f, selector(Selection::Shared));
    lemma_filter_of_stable_map(table, f, selector(Selection::SharedKind(RecordType::Decision)));
    lemma_filter_of_stable_map(table, f, selector(Selection::SharedKind(RecordType::OpenQuestion)));
    lemma_filter_of_stable_map(table, f, selector(Selection::SharedKind(RecordType::Change)));
}

/// Reviewing a record that is not a proposal (already confirmed, already rejected,
/// or absent) changes nothing: confirmed state is never silently replaced.
pub proof fn lemma_review_of_non_proposal_changes_nothing(
    table: Seq<RecordView>,
    id: i64,
    outcome: ProposalOutcome,
)
    requires
        forall|i: int| 0 <= i < table.len() && #[trigger] table[i].id == id ==> table[i].status != RecordStatus::Proposed,
    ensures
        after_review(table, id, outcome) == table,
{
    assert(after_review(table, id, outcome) =~= table);
}

/// Accepting the proposal at position `k` confirms exactly that record: the board
/// version rises by one and the snapshot's confirmed records include it.
pub proof fn lemma_accept_confirms_one(table: Seq<RecordView>, k: int, goal: Seq<char>)
    requires
        ids_unique(table),
        0 <= k < table.len(),
        table[k].status == RecordStatus::Proposed,
    ensures
        ({
            let after = after_review(table, table[k].id, ProposalOutcome::Accept);
            &&& board_version(after) == board_version(table) + 1
            &&& snapshot_of(goal, after).confirmed.contains(RecordView { status: RecordStatus::Confirmed, ..table[k] })
        }),
{
    let id = table[k].id;
    let x = RecordView { status: RecordStatus::Confirmed, ..table[k] };
    let after = after_review(table, id, ProposalOutcome::Accept);
    assert(after =~= table.update(k, x));
    let p = selector(Selection::Status(RecordStatus::Confirmed));
    lemma_filter_update_gains_one(table, k, x, p);
    table.update(k, x).lemma_filter_contains(p, k);
}

/// A record waiting for release approval, a proposal or a rejected record never
/// reaches the heartbeat or the handoff: everything they carry is confirmed and released.
pub proof fn lemma_only_released_records_are_shared(table: Seq<RecordView>, kind: RecordType, j: int)
    ensures
        0 <= j < selected(table, Selection::Shared).len() ==> {
            let r = selected(table, Selection::Shared)[j];
            r.status == RecordStatus::Confirmed && r.sensitive_release_state != SensitiveReleaseState::Pending
        },
        0 <= j < selected(table, Selection::SharedKind(kind)).len() ==> {
            let r = selected(table, Selection::SharedKind(kind))[j];
            &&& r.status == RecordStatus::Confirmed
            &&& r.sensitive_release_state != SensitiveReleaseState::Pending
            &&& r.kind == kind
        },
{
    if 0 <= j < selected(table, Selection::Shared).len() {
        table.lemma_filter_pred(selector(Selection::Shared), j);
    }
    if 0 <= j < selected(table, Selection::SharedKind(kind)).len() {
        table.lemma_filter_pred(selector(Selection::SharedKind(kind)), j);
    }
}

/// Approving the release of a confirmed record that waits for approval puts its
/// content into the heartbeat, and withdraws nothing that was shared before.
pub proof fn lemma_approval_releases(table: Seq<RecordView>, k: int, schema: Seq<char>, goal: Seq<char>)
    requires
        ids_unique(table),
        0 <= k < table.len(),
        table[k].status == RecordStatus::Confirmed,
        table[k].sensitive_release_state == SensitiveReleaseState::Pending,
    ensures
        ({
            let after = after_approval(table, table[k].id);
            &&& heartbeat_of(schema, goal, after).recent_changes.contains(table[k].content)
            &&& forall|i: int| 0 <= i < table.len() && selects(Selection::Shared, #[trigger] table[i])
                ==> selected(after, Selection::Shared).contains(table[i])
        }),
{
    let id = table[k].id;
    let x = RecordView { sensitive_release_state: SensitiveReleaseState::Approved, ..table[k] };
    let after = after_approval(table, id);
    assert(after =~= table.update(k, x));
    let p = selector(Selection::Shared);
    after.lemma_filter_contains(p, k);
    let shared = after.filter(p);
    let j = choose|j: int| 0 <= j < shared.len() && shared[j] == x;
    assert(contents(shared)[j] == table[k].content);
    assert forall|i: int| 0 <= i < table.len() && selects(Selection::Shared, #[trigger] table[i])
        implies selected(after, Selection::Shared).contains(table[i]) by {
        assert(after[i] == table[i]);
        after.lemma_filter_contains(p, i);
    }
}

/// Editing a proposal into content with a sensitive marker and accepting it keeps
/// that record out of the heartbeat and the handoff until its release is approved.
pub proof fn lemma_sensitive_edit_is_withheld(table: Seq<RecordView>, k: int, content: Seq<char>)
    requires
        ids_unique(table),
        0 <= k < table.len(),
        table[k].status == RecordStatus::Proposed,
        mentions_sensitive_marker(content),
    ensures
        ({
            let after = after_edit(table, table[k].id, content);
            forall|r: RecordView| #[trigger] selected(after, Selection::Shared).contains(r) ==> r.id != table[k].id
        }),
{
    let id = table[k].id;
    let after = after_edit(table, id, content);
    let p = selector(Selection::Shared);
    assert forall|r: RecordView| #[trigger] selected(after, Selection::Shared).contains(r) implies r.id != id by {
        after.lemma_filter_contains_rev(p, r);
        let i = choose|i: int| 0 <= i < after.len() && after[i] == r;
        let j = choose|j: int| 0 <= j < after.filter(p).len() && after.filter(p)[j] == r;
        after.lemma_filter_pred(p, j);
        if i != k {
            assert(after[i] == table[i]);
        }
    }
}

/// Open questions, changes and handoffs never conflict with confirmed state; only a
/// decision or goal that differs from the latest confirmed one of its kind does.
pub proof fn lemma_conflicts_only_between_differing_statements(
    table: Seq<RecordView>,
    kind: RecordType,
    content: Seq<char>,
)
    ensures
        (kind == RecordType::OpenQuestion || kind == RecordType::Change || kind == RecordType::Handoff)
            ==> conflict_target(table, kind, content) is None,
        conflict_target(table, kind, content) matches Some(id) ==> exists|i: int|
            0 <= i < table.len() && #[trigger] table[i].id == id && table[i].status == RecordStatus::Confirmed
                && table[i].kind == kind && table[i].content != content,
{
    let p = selector(Selection::ConfirmedKind(kind));
    let confirmed = table.filter(p);
    if confirmed.len() > 0 {
        let last = confirmed.last();
        table.lemma_filter_pred(p, confirmed.len() - 1);
        table.lemma_filter_contains_rev(p, last);
    }
}

/// A proposal made from the current board version is not stale, one made from any
/// other version is, and one made without a version never is.
pub proof fn lemma_stale_exactly_when_behind(table: Seq<RecordView>, version: i64)
    ensures
        stale_against(table, Some(version)) <==> version != board_version(table),
        !stale_against(table, None),
{
}

/// Once a proposal is accepted, a proposal based on the version read before the
/// acceptance is stale.
pub proof fn lemma_acceptance_makes_earlier_reads_stale(table: Seq<RecordView>, k: int, version: i64)
    requires
        ids_unique(table),
        0 <= k < table.len(),
        table[k].status == RecordStatus::Proposed,
        version == board_version(table),
    ensures
        stale_against(after_review(table, table[k].id, ProposalOutcome::Accept), Some(version)),
{
    lemma_accept_confirms_one(table, k, Seq::empty());
}

} // verus!
