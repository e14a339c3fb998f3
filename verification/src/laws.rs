//! What the engine's decisions and views are for, stated over a task's records
//! directly: which confirmed record a proposal contradicts, when content needs release
//! approval, which records each view carries and in what order, and how a proposal's
//! conflict flag reads.
use vstd::prelude::*;

use crate::ledger::{planned_proposal, proposed_record, ProposalView, RecordView};
use crate::policy::initial_release_state;
use crate::records::{RecordStatus, RecordType, SensitiveReleaseState};
use crate::storage::decode_record;
use crate::sqlite::SqlValueView;
use crate::views::{handoff_of, heartbeat_of, pending_of, snapshot_of};

verus! {

broadcast use vstd::seq_lib::group_seq_properties;

/// The last record of `table` that `keep` keeps is the one at `i`, when `keep` keeps it
/// and no later record.
proof fn lemma_last_kept(table: Seq<RecordView>, keep: spec_fn(RecordView) -> bool, i: int)
    requires
        0 <= i < table.len(),
        keep(table[i]),
        forall|j: int| i < j < table.len() ==> !keep(#[trigger] table[j]),
    ensures
        table.filter(keep).len() > 0,
        table.filter(keep).last() == table[i],
    decreases table.len(),
{
    let init = table.drop_last();
    assert(table =~= init.push(table.last()));
    init.lemma_filter_push(table.last(), keep);
    if i == table.len() - 1 {
        assert(table.last() == table[i]);
    } else {
        assert(!keep(table[table.len() - 1]));
        assert forall|j: int| i < j < init.len() implies !keep(#[trigger] init[j]) by {
            assert(init[j] == table[j]);
        }
        assert(init[i] == table[i]);
        lemma_last_kept(init, keep, i);
    }
}

/// Filters that keep the same records give the same records.
proof fn lemma_same_filter(table: Seq<RecordView>, p: spec_fn(RecordView) -> bool, q: spec_fn(RecordView) -> bool)
    requires
        forall|r: RecordView| #[trigger] p(r) == q(r),
    ensures
        table.filter(p) == table.filter(q),
{
    assert(p =~= q);
}

/// A decision or goal proposal that differs from the latest confirmed record of its kind
/// is flagged as conflicting with that record: if the record at `i` is the last confirmed
/// one of the proposal's kind and its text is not the proposal's, the proposal records
/// a conflict with it, whatever older confirmed records of the kind say.
pub proof fn law_proposal_flags_the_statement_it_contradicts(
    table: Seq<RecordView>,
    kind: RecordType,
    content: Seq<char>,
    actor: Seq<char>,
    base_version: Option<i64>,
    i: int,
)
    requires
        kind == RecordType::Decision || kind == RecordType::Goal,
        0 <= i < table.len(),
        table[i].status == RecordStatus::Confirmed,
        table[i].kind == kind,
        forall|j: int| i < j < table.len() ==> !(#[trigger] table[j].status == RecordStatus::Confirmed && table[j].kind == kind),
        table[i].content != content,
    ensures
        planned_proposal(table, kind, content, actor, base_version).conflicts_with == Some(table[i].id),
{
    let keep = |r: RecordView| r.status == RecordStatus::Confirmed && r.kind == kind;
    lemma_last_kept(table, keep, i);
    lemma_same_filter(table, keep, crate::ledger::selector(crate::ledger::Selection::ConfirmedKind(kind)));
}

/// A proposal flags no conflict when nothing it could contradict is confirmed: an open
/// question, change or handoff never conflicts, nor does a decision or goal while no
/// record of its kind is confirmed, nor one that repeats the latest confirmed record of
/// its kind.
pub proof fn law_proposal_flags_no_conflict_without_a_contradiction(
    table: Seq<RecordView>,
    kind: RecordType,
    content: Seq<char>,
    actor: Seq<char>,
    base_version: Option<i64>,
)
    ensures
        !(kind == RecordType::Decision || kind == RecordType::Goal)
            ==> planned_proposal(table, kind, content, actor, base_version).conflicts_with is None,
        (forall|j: int| 0 <= j < table.len() ==> !(#[trigger] table[j].status == RecordStatus::Confirmed && table[j].kind == kind))
            ==> planned_proposal(table, kind, content, actor, base_version).conflicts_with is None,
        forall|i: int| 0 <= i < table.len() && #[trigger] table[i].status == RecordStatus::Confirmed && table[i].kind == kind
            && table[i].content == content
            && (forall|j: int| i < j < table.len() ==> !(#[trigger] table[j].status == RecordStatus::Confirmed && table[j].kind == kind))
            ==> planned_proposal(table, kind, content, actor, base_version).conflicts_with is None,
{
    let keep = |r: RecordView| r.status == RecordStatus::Confirmed && r.kind == kind;
    lemma_same_filter(table, keep, crate::ledger::selector(crate::ledger::Selection::ConfirmedKind(kind)));
    if forall|j: int| 0 <= j < table.len() ==> !(#[trigger] table[j].status == RecordStatus::Confirmed && table[j].kind == kind) {
        if table.filter(keep).len() > 0 {
            let f = table.filter(keep);
            table.lemma_filter_contains_rev(keep, f[0]);
        }
    }
    assert forall|i: int| 0 <= i < table.len() && #[trigger] table[i].status == RecordStatus::Confirmed && table[i].kind == kind
        && table[i].content == content
        && (forall|j: int| i < j < table.len() ==> !(#[trigger] table[j].status == RecordStatus::Confirmed && table[j].kind == kind))
        implies planned_proposal(table, kind, content, actor, base_version).conflicts_with is None by {
        lemma_last_kept(table, keep, i);
    }
}

/// A proposal is stale exactly when its author read a board version, and that version
/// is not one plus the number of confirmed records.
pub proof fn law_proposal_is_stale_when_behind(
    table: Seq<RecordView>,
    kind: RecordType,
    content: Seq<char>,
    actor: Seq<char>,
    base_version: Option<i64>,
)
    ensures
        planned_proposal(table, kind, content, actor, base_version).is_stale == match base_version {
            Some(v) => v != table.filter(|r: RecordView| r.status == RecordStatus::Confirmed).len() + 1,
            None => false,
        },
        planned_proposal(table, kind, content, actor, base_version).kind == kind,
        planned_proposal(table, kind, content, actor, base_version).content == content,
        planned_proposal(table, kind, content, actor, base_version).actor == actor,
{
    lemma_same_filter(table, |r: RecordView| r.status == RecordStatus::Confirmed, crate::ledger::selector(crate::ledger::Selection::Status(RecordStatus::Confirmed)));
}

/// `marker` occurs in the text `a + marker + b`, after `a`.
proof fn lemma_marker_found(a: Seq<char>, marker: Seq<char>, b: Seq<char>)
    requires
        forall|k: int| 0 <= k < marker.len() ==> !('A' <= #[trigger] marker[k] && marker[k] <= 'Z'),
    ensures
        crate::text::occurs_at(crate::text::folded(a + marker + b), marker, a.len() as int),
{
    let text = a + marker + b;
    let f = crate::text::folded(text);
    assert forall|k: int| 0 <= k < marker.len() implies #[trigger] f.subrange(a.len() as int, (a.len() + marker.len()) as int)[k] == marker[k] by {
        assert(text[a.len() + k] == marker[k]);
    }
    assert(f.subrange(a.len() as int, (a.len() + marker.len()) as int) =~= marker);
}

/// Content that mentions an explicit marker waits for release approval wherever the
/// marker stands, at the start, in the middle or at the very end: for all texts `a` and
/// `b`, each of `a + m + b` with `m` one of "api key", "password", "secret" and
/// "access token" starts out `Pending`.
pub proof fn law_marked_content_waits_for_approval(a: Seq<char>, b: Seq<char>)
    ensures
        initial_release_state(a + "api key"@ + b) == SensitiveReleaseState::Pending,
        initial_release_state(a + "password"@ + b) == SensitiveReleaseState::Pending,
        initial_release_state(a + "secret"@ + b) == SensitiveReleaseState::Pending,
        initial_release_state(a + "access token"@ + b) == SensitiveReleaseState::Pending,
{
    reveal_strlit("api key");
    reveal_strlit("password");
    reveal_strlit("secret");
    reveal_strlit("access token");
    lemma_marker_found(a, "api key"@, b);
    lemma_marker_found(a, "password"@, b);
    lemma_marker_found(a, "secret"@, b);
    lemma_marker_found(a, "access token"@, b);
}

/// `upper` is `lower` written in capitals: it folds to `lower`, which folding keeps.
proof fn lemma_capitals_fold(upper: Seq<char>, lower: Seq<char>)
    requires
        upper.len() == lower.len(),
        forall|k: int| 0 <= k < lower.len() ==> crate::text::lower_char(#[trigger] upper[k]) == lower[k],
        forall|k: int| 0 <= k < lower.len() ==> !('A' <= #[trigger] lower[k] && lower[k] <= 'Z'),
    ensures
        forall|a: Seq<char>, b: Seq<char>| #[trigger] crate::text::occurs_at(
            crate::text::folded(a + upper + b),
            lower,
            a.len() as int,
        ),
{
    assert forall|a: Seq<char>, b: Seq<char>| #[trigger] crate::text::occurs_at(
        crate::text::folded(a + upper + b),
        lower,
        a.len() as int,
    ) by {
        let text = a + upper + b;
        let f = crate::text::folded(text);
        assert forall|k: int| 0 <= k < lower.len() implies #[trigger] f.subrange(a.len() as int, (a.len() + lower.len()) as int)[k] == lower[k] by {
            assert(text[a.len() + k] == upper[k]);
        }
        assert(f.subrange(a.len() as int, (a.len() + lower.len()) as int) =~= lower);
    }
}

/// Markers are found whatever their ASCII case: content holding "API KEY", "PASSWORD",
/// "SECRET" or "ACCESS TOKEN" anywhere starts out waiting for release approval.
pub proof fn law_capitalised_markers_wait_for_approval(a: Seq<char>, b: Seq<char>)
    ensures
        initial_release_state(a + "API KEY"@ + b) == SensitiveReleaseState::Pending,
        initial_release_state(a + "PASSWORD"@ + b) == SensitiveReleaseState::Pending,
        initial_release_state(a + "SECRET"@ + b) == SensitiveReleaseState::Pending,
        initial_release_state(a + "ACCESS TOKEN"@ + b) == SensitiveReleaseState::Pending,
{
    reveal_strlit("api key");
    reveal_strlit("password");
    reveal_strlit("secret");
    reveal_strlit("access token");
    reveal_strlit("API KEY");
    reveal_strlit("PASSWORD");
    reveal_strlit("SECRET");
    reveal_strlit("ACCESS TOKEN");
    lemma_capitals_fold("API KEY"@, "api key"@);
    lemma_capitals_fold("PASSWORD"@, "password"@);
    lemma_capitals_fold("SECRET"@, "secret"@);
    lemma_capitals_fold("ACCESS TOKEN"@, "access token"@);
    assert(crate::text::occurs_at(crate::text::folded(a + "API KEY"@ + b), "api key"@, a.len() as int));
    assert(crate::text::occurs_at(crate::text::folded(a + "PASSWORD"@ + b), "password"@, a.len() as int));
    assert(crate::text::occurs_at(crate::text::folded(a + "SECRET"@ + b), "secret"@, a.len() as int));
    assert(crate::text::occurs_at(crate::text::folded(a + "ACCESS TOKEN"@ + b), "access token"@, a.len() as int));
}

/// A snapshot carries the goal, every confirmed record and every rejected record of the
/// task, each in table order, and nothing else.
pub proof fn law_snapshot_keeps_every_reviewed_record(goal: Seq<char>, table: Seq<RecordView>)
    ensures
        snapshot_of(goal, table).goal == goal,
        snapshot_of(goal, table).confirmed == table.filter(|r: RecordView| r.status == RecordStatus::Confirmed),
        snapshot_of(goal, table).rejected == table.filter(|r: RecordView| r.status == RecordStatus::Rejected),
{
    lemma_same_filter(table, |r: RecordView| r.status == RecordStatus::Confirmed, crate::ledger::selector(crate::ledger::Selection::Status(RecordStatus::Confirmed)));
    lemma_same_filter(table, |r: RecordView| r.status == RecordStatus::Rejected, crate::ledger::selector(crate::ledger::Selection::Status(RecordStatus::Rejected)));
}

/// The review queue carries every proposal of the task, in table order, and nothing else.
pub proof fn law_review_queue_keeps_every_proposal(table: Seq<RecordView>)
    ensures
        pending_of(table) == table.filter(|r: RecordView| r.status == RecordStatus::Proposed),
{
    lemma_same_filter(table, |r: RecordView| r.status == RecordStatus::Proposed, crate::ledger::selector(crate::ledger::Selection::Status(RecordStatus::Proposed)));
}

/// Whether `r` is a confirmed record of `kind` (of any kind when `kind` is `None`) that
/// is not waiting for release approval.
pub open spec fn released_of(kind: Option<RecordType>) -> spec_fn(RecordView) -> bool {
    |r: RecordView|
        r.status == RecordStatus::Confirmed && r.sensitive_release_state != SensitiveReleaseState::Pending
            && match kind {
            Some(k) => r.kind == k,
            None => true,
        }
}

/// The content of every confirmed record of `kind` (of any kind when `kind` is `None`)
/// that is not waiting for release approval, in table order.
pub open spec fn released_contents(table: Seq<RecordView>, kind: Option<RecordType>) -> Seq<Seq<char>> {
    table.filter(released_of(kind)).map_values(|r: RecordView| r.content)
}

/// The heartbeat carries the goal and the content of every confirmed record that is not
/// waiting for release approval, in table order, and nothing else.
pub proof fn law_heartbeat_carries_every_released_record(schema: Seq<char>, goal: Seq<char>, table: Seq<RecordView>)
    ensures
        heartbeat_of(schema, goal, table).schema_version == schema,
        heartbeat_of(schema, goal, table).goal == goal,
        heartbeat_of(schema, goal, table).recent_changes == released_contents(table, None),
{
    lemma_same_filter(table, released_of(None), crate::ledger::selector(crate::ledger::Selection::Shared));
    assert(released_contents(table, None) =~= crate::ledger::contents(
        crate::ledger::selected(table, crate::ledger::Selection::Shared),
    ));
}

/// The handoff carries the goal and, in table order, the content of every confirmed
/// decision, open question and change that is not waiting for release approval, and
/// nothing else.
pub proof fn law_handoff_carries_every_released_statement(schema: Seq<char>, goal: Seq<char>, table: Seq<RecordView>)
    ensures
        handoff_of(schema, goal, table).schema_version == schema,
        handoff_of(schema, goal, table).goal == goal,
        handoff_of(schema, goal, table).decisions == released_contents(table, Some(RecordType::Decision)),
        handoff_of(schema, goal, table).open_questions == released_contents(table, Some(RecordType::OpenQuestion)),
        handoff_of(schema, goal, table).next_steps == released_contents(table, Some(RecordType::Change)),
{
    lemma_released_kind(table, RecordType::Decision);
    lemma_released_kind(table, RecordType::OpenQuestion);
    lemma_released_kind(table, RecordType::Change);
}

/// The released contents of one kind are the handoff's selection of that kind.
proof fn lemma_released_kind(table: Seq<RecordView>, kind: RecordType)
    ensures
        released_contents(table, Some(kind)) == crate::ledger::contents(
            crate::ledger::selected(table, crate::ledger::Selection::SharedKind(kind)),
        ),
{
    lemma_same_filter(table, released_of(Some(kind)), crate::ledger::selector(crate::ledger::Selection::SharedKind(kind)));
    assert(released_contents(table, Some(kind)) =~= crate::ledger::contents(
        crate::ledger::selected(table, crate::ledger::Selection::SharedKind(kind)),
    ));
}

/// A proposed record is the proposal under its identifier, waiting for review, and it
/// reads as conflicting exactly when it names a record it conflicts with, whatever its kind.
pub proof fn law_proposed_record_is_the_proposal(id: i64, p: ProposalView)
    ensures
        proposed_record(id, p).id == id,
        proposed_record(id, p).kind == p.kind,
        proposed_record(id, p).content == p.content,
        proposed_record(id, p).actor == p.actor,
        proposed_record(id, p).status == RecordStatus::Proposed,
        proposed_record(id, p).is_stale == p.is_stale,
        proposed_record(id, p).conflicts_with == p.conflicts_with,
        proposed_record(id, p).is_conflict == (p.conflicts_with is Some),
        proposed_record(id, p).sensitive_release_state == p.sensitive_release_state,
{
}

/// A stored record reads as conflicting exactly when it names a record it conflicts
/// with, whatever its kind.
pub proof fn law_stored_conflict_flag_matches_its_target(row: Seq<SqlValueView>)
    ensures
        decode_record(row) matches Some(r) ==> r.is_conflict == (r.conflicts_with is Some),
{
}

} // verus!
