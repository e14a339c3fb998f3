use synclined_core::ledger::{Ledger, Selection};
use synclined_core::{Record, RecordStatus, RecordType, SensitiveReleaseState};
use synclined_core::RecordStatus::{Confirmed, Proposed, Rejected};
use synclined_core::SensitiveReleaseState::{Approved, NotRequired, Pending};

fn record(
    id: i64,
    kind: RecordType,
    content: &str,
    status: RecordStatus,
    state: SensitiveReleaseState,
) -> Record {
    Record {
        id,
        kind,
        content: content.to_string(),
        actor: "agent".to_string(),
        status,
        is_stale: false,
        is_conflict: false,
        conflicts_with: None,
        sensitive_release_state: state,
    }
}

fn sample() -> Ledger {
    Ledger {
        records: vec![
            record(1, RecordType::Decision, "Use retries", Confirmed, NotRequired),
            record(2, RecordType::Decision, "Store the api key", Confirmed, Pending),
            record(3, RecordType::Change, "Add metrics", Confirmed, Approved),
            record(4, RecordType::OpenQuestion, "Which timeout?", Proposed, NotRequired),
            record(5, RecordType::Change, "Drop logs", Rejected, NotRequired),
            record(6, RecordType::Decision, "Use backoff", Confirmed, NotRequired),
        ],
    }
}

#[test]
fn ledger_views_select_exactly_what_their_contracts_name() {
    let ledger = sample();
    let snapshot = ledger.snapshot("Goal".to_string());
    assert_eq!(snapshot.confirmed.iter().map(|r| r.id).collect::<Vec<_>>(), vec![1, 2, 3, 6]);
    assert_eq!(snapshot.rejected.iter().map(|r| r.id).collect::<Vec<_>>(), vec![5]);
    assert_eq!(ledger.pending().iter().map(|r| r.id).collect::<Vec<_>>(), vec![4]);
    let heartbeat = ledger.heartbeat("v9", "Goal".to_string());
    assert_eq!(heartbeat.schema_version, "v9");
    assert_eq!(heartbeat.recent_changes, vec!["Use retries", "Add metrics", "Use backoff"]);
    let handoff = ledger.handoff("v9", "Goal".to_string());
    assert_eq!(handoff.decisions, vec!["Use retries", "Use backoff"]);
    assert!(handoff.open_questions.is_empty());
    assert_eq!(handoff.next_steps, vec!["Add metrics"]);
    assert_eq!(ledger.confirmed_count(), 4);
    assert_eq!(ledger.select_contents(Selection::ConfirmedKind(RecordType::Decision)).len(), 3);
}

#[test]
fn ledger_plans_proposals_against_its_records() {
    let ledger = sample();
    assert_eq!(ledger.latest_confirmed(RecordType::Decision).unwrap().id, 6);
    assert!(ledger.latest_confirmed(RecordType::Goal).is_none());
    let p = ledger.plan_proposal(RecordType::Decision, "Use jitter", "bot", Some(5));
    assert!(!p.is_stale);
    assert_eq!(p.conflicts_with, Some(6));
    assert_eq!(p.sensitive_release_state, SensitiveReleaseState::NotRequired);
    let r = p.into_record(7);
    assert_eq!(r.id, 7);
    assert!(r.is_conflict);
    assert_eq!(r.status, RecordStatus::Proposed);
    assert_eq!(r.actor, "bot");
    let q = ledger.plan_proposal(RecordType::Decision, "Use backoff", "bot", Some(4));
    assert!(q.is_stale);
    assert_eq!(q.conflicts_with, None);
    let s = ledger.plan_proposal(RecordType::OpenQuestion, "Any SECRET here?", "bot", None);
    assert_eq!(s.sensitive_release_state, SensitiveReleaseState::Pending);
    assert_eq!(s.conflicts_with, None);
    assert!(Ledger { records: Vec::new() }.find_conflict(RecordType::Decision, "x").is_none());
    assert!(!Ledger { records: Vec::new() }.is_stale(Some(1)));
}
