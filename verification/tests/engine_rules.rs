use synclined_core::{
    kind_from_str, sensitivity_str, Board, BoardError, BoardView, Failure, ProposalOutcome, RecordStatus,
    RecordType, SensitiveReleaseState, TaskAccessApi,
};

fn fresh_board() -> (tempfile::NamedTempFile, Board, i64) {
    let database = tempfile::NamedTempFile::new().unwrap();
    let mut board = Board::open(database.path()).unwrap();
    let task = board.create_task("Fix login timeout", "Keep session behavior unchanged").unwrap();
    (database, board, task.id)
}

#[test]
fn kind_names_read_back_and_unknown_names_are_refused() {
    for kind in [
        RecordType::Goal,
        RecordType::Decision,
        RecordType::Change,
        RecordType::OpenQuestion,
        RecordType::Handoff,
    ] {
        assert_eq!(kind_from_str(kind.as_str()), Some(kind));
    }
    assert_eq!(RecordType::OpenQuestion.as_str(), "open_question");
    assert_eq!(kind_from_str("chat"), None);
    assert_eq!(kind_from_str("Goal"), None);
    assert_eq!(kind_from_str(""), None);
}

#[test]
fn status_and_release_names_read_back_and_unknown_release_fails_closed() {
    for status in [RecordStatus::Proposed, RecordStatus::Confirmed, RecordStatus::Rejected] {
        assert_eq!(RecordStatus::from_name(status.as_str()), Some(status));
    }
    assert_eq!(RecordStatus::from_name("superseded"), None);
    assert_eq!(sensitivity_str(&SensitiveReleaseState::NotRequired), "not_required");
    assert_eq!(sensitivity_str(&SensitiveReleaseState::Pending), "pending");
    assert_eq!(sensitivity_str(&SensitiveReleaseState::Approved), "approved");
    for state in [
        SensitiveReleaseState::NotRequired,
        SensitiveReleaseState::Pending,
        SensitiveReleaseState::Approved,
    ] {
        assert_eq!(SensitiveReleaseState::from_name(sensitivity_str(&state)), state);
    }
    assert_eq!(SensitiveReleaseState::from_name("unexpected"), SensitiveReleaseState::Pending);
    assert_eq!(SensitiveReleaseState::from_name("APPROVED"), SensitiveReleaseState::Pending);
    assert_eq!(ProposalOutcome::Accept.status(), RecordStatus::Confirmed);
    assert_eq!(ProposalOutcome::Reject.status(), RecordStatus::Rejected);
}

#[test]
fn markers_inside_words_count_and_near_misses_do_not() {
    let (_db, mut board, task) = fresh_board();
    let expect = [
        ("rotate the Secrets file", SensitiveReleaseState::Pending),
        ("my-API Key here", SensitiveReleaseState::Pending),
        ("reset passwords nightly", SensitiveReleaseState::Pending),
        ("access-token rotation", SensitiveReleaseState::NotRequired),
        ("apikey rotation", SensitiveReleaseState::NotRequired),
        ("token budget", SensitiveReleaseState::NotRequired),
        ("", SensitiveReleaseState::NotRequired),
    ];
    for (content, state) in expect {
        let record = board.propose(task, RecordType::Change, content, "agent").unwrap();
        assert_eq!(record.sensitive_release_state, state, "{content}");
    }
}

#[test]
fn proposal_from_the_current_version_is_not_stale_and_any_other_is() {
    let (_db, mut board, task) = fresh_board();
    let fresh = board.propose_from_version(task, RecordType::Change, "Add metrics", "agent", 1).unwrap();
    assert!(!fresh.is_stale);
    assert_eq!(fresh.status, RecordStatus::Proposed);
    board.review(fresh.id, ProposalOutcome::Accept).unwrap();

    let behind = board.propose_from_version(task, RecordType::Change, "Add logs", "agent", 1).unwrap();
    assert!(behind.is_stale);
    let current = board.propose_from_version(task, RecordType::Change, "Add logs", "agent", 2).unwrap();
    assert!(!current.is_stale);
    let ahead = board.propose_from_version(task, RecordType::Change, "Add logs", "agent", 3).unwrap();
    assert!(ahead.is_stale);
    let unversioned = board.propose(task, RecordType::Change, "Add logs", "agent").unwrap();
    assert!(!unversioned.is_stale);

    board.review(behind.id, ProposalOutcome::Reject).unwrap();
    let after_rejection = board.propose_from_version(task, RecordType::Change, "x", "agent", 2).unwrap();
    assert!(!after_rejection.is_stale);
}

#[test]
fn conflicts_point_at_the_latest_differing_statement_of_the_same_kind() {
    let (_db, mut board, task) = fresh_board();
    let first = board.propose(task, RecordType::Decision, "Ten seconds", "dev").unwrap();
    assert!(!first.is_conflict);
    board.review(first.id, ProposalOutcome::Accept).unwrap();
    let second = board.propose(task, RecordType::Decision, "Twenty seconds", "dev").unwrap();
    assert_eq!(second.conflicts_with, Some(first.id));
    board.review(second.id, ProposalOutcome::Accept).unwrap();

    let third = board.propose(task, RecordType::Decision, "Thirty seconds", "agent").unwrap();
    assert!(third.is_conflict);
    assert_eq!(third.conflicts_with, Some(second.id));

    let same = board.propose(task, RecordType::Decision, "Twenty seconds", "agent").unwrap();
    assert!(!same.is_conflict);
    assert_eq!(same.conflicts_with, None);

    let goal = board.propose(task, RecordType::Goal, "Ship faster", "dev").unwrap();
    assert!(!goal.is_conflict);
    board.review(goal.id, ProposalOutcome::Accept).unwrap();
    let other_goal = board.propose(task, RecordType::Goal, "Ship safer", "agent").unwrap();
    assert_eq!(other_goal.conflicts_with, Some(goal.id));

    let change = board.propose(task, RecordType::Change, "Add metrics", "dev").unwrap();
    board.review(change.id, ProposalOutcome::Accept).unwrap();
    let other_change = board.propose(task, RecordType::Change, "Add logs", "agent").unwrap();
    assert!(!other_change.is_conflict);
    let handoff = board.propose(task, RecordType::Handoff, "Hand over", "agent").unwrap();
    assert!(!handoff.is_conflict);
}

#[test]
fn proposing_leaves_confirmed_state_and_shared_views_unchanged() {
    let (_db, mut board, task) = fresh_board();
    let accepted = board.propose(task, RecordType::Decision, "Keep ten seconds", "dev").unwrap();
    board.review(accepted.id, ProposalOutcome::Accept).unwrap();
    let before = board.resume(task).unwrap();
    let heartbeat_before = board.what_just_happened(task, "v1", "reader").unwrap();

    let proposal = board.propose(task, RecordType::Decision, "Use thirty seconds", "agent").unwrap();
    let after = board.resume(task).unwrap();
    let heartbeat_after = board.what_just_happened(task, "v1", "reader").unwrap();

    assert_eq!(before.confirmed.len(), after.confirmed.len());
    assert_eq!(after.confirmed[0].content, "Keep ten seconds");
    assert_eq!(heartbeat_before.recent_changes, heartbeat_after.recent_changes);
    let pending = board.pending(task).unwrap();
    assert_eq!(pending.len(), 1);
    assert_eq!(pending[0].id, proposal.id);
    assert_eq!(pending[0].actor, "agent");
    assert_eq!(pending[0].kind, RecordType::Decision);
}

#[test]
fn reviewing_a_reviewed_or_missing_record_changes_nothing() {
    let (_db, mut board, task) = fresh_board();
    let record = board.propose(task, RecordType::Change, "Add metrics", "agent").unwrap();
    board.review(record.id, ProposalOutcome::Accept).unwrap();
    board.review(record.id, ProposalOutcome::Reject).unwrap();
    board.edit_and_accept(record.id, "Something else").unwrap();
    board.review(record.id + 100, ProposalOutcome::Accept).unwrap();

    let snapshot = board.resume(task).unwrap();
    assert_eq!(snapshot.confirmed.len(), 1);
    assert_eq!(snapshot.confirmed[0].content, "Add metrics");
    assert!(snapshot.rejected.is_empty());

    let rejected = board.propose(task, RecordType::Change, "Drop metrics", "agent").unwrap();
    board.review(rejected.id, ProposalOutcome::Reject).unwrap();
    board.review(rejected.id, ProposalOutcome::Accept).unwrap();
    let snapshot = board.resume(task).unwrap();
    assert_eq!(snapshot.confirmed.len(), 1);
    assert_eq!(snapshot.rejected.len(), 1);
    assert_eq!(snapshot.rejected[0].status, RecordStatus::Rejected);
}

#[test]
fn editing_sensitive_content_into_routine_content_releases_it_and_approval_is_idempotent() {
    let (_db, mut board, task) = fresh_board();
    let record = board.propose(task, RecordType::Change, "password: hunter2", "agent").unwrap();
    assert_eq!(record.sensitive_release_state, SensitiveReleaseState::Pending);
    board.edit_and_accept(record.id, "Rotate the credential").unwrap();
    let heartbeat = board.what_just_happened(task, "v2", "reader").unwrap();
    assert_eq!(heartbeat.schema_version, "v2");
    assert_eq!(heartbeat.recent_changes, vec!["Rotate the credential"]);
    assert_eq!(
        board.resume(task).unwrap().confirmed[0].sensitive_release_state,
        SensitiveReleaseState::NotRequired
    );
    board.approve_sensitive_release(record.id).unwrap();
    assert_eq!(
        board.resume(task).unwrap().confirmed[0].sensitive_release_state,
        SensitiveReleaseState::NotRequired
    );
}

#[test]
fn approving_a_sensitive_proposal_before_acceptance_releases_it_once_accepted() {
    let (_db, mut board, task) = fresh_board();
    let record = board.propose(task, RecordType::Change, "secret rotation plan", "agent").unwrap();
    board.approve_sensitive_release(record.id).unwrap();
    assert!(board.what_just_happened(task, "v1", "reader").unwrap().recent_changes.is_empty());
    board.review(record.id, ProposalOutcome::Accept).unwrap();
    assert_eq!(
        board.what_just_happened(task, "v1", "reader").unwrap().recent_changes,
        vec!["secret rotation plan"]
    );
}

#[test]
fn each_error_comes_with_its_own_cause() {
    let missing = std::path::Path::new("/nonexistent-directory/for/sure/board.db");
    assert!(matches!(Board::open(missing), Err(BoardError::Storage(_))));

    let (_db, mut board, task) = fresh_board();
    match board.resume(task + 1000) {
        Err(Failure { error: BoardError::TaskNotFound(id), .. }) => assert_eq!(id, task + 1000),
        Err(other) => panic!("unexpected {other:?}"),
        Ok(_) => panic!("a snapshot of a missing task"),
    }
    let missing_task = board.what_just_happened(task + 1000, "v1", "reader").err().unwrap();
    assert_eq!(missing_task.error.message(), format!("task not found: {}", task + 1000));

    board.revoke_session("gone").unwrap();
    board.revoke_session("gone").unwrap();
    let denied = board.propose(task, RecordType::Change, "x", "gone").unwrap_err();
    match &denied {
        BoardError::SessionRevoked(actor) => assert_eq!(actor, "gone"),
        other => panic!("unexpected {other:?}"),
    }
    assert_eq!(denied.message(), "session revoked: gone");
    assert!(matches!(board.subscribe("gone"), Err(Failure { error: BoardError::SessionRevoked(_), .. })));
    assert_eq!(board.subscribe("present").unwrap().actor, "present");
    assert!(board.what_just_happened(task, "v1", "gone-but-not-quite").is_ok());
}

#[test]
fn rows_of_unknown_kind_or_status_are_left_out_of_every_view() {
    let (db, mut board, task) = fresh_board();
    let record = board.propose(task, RecordType::Change, "Known change", "agent").unwrap();
    board.review(record.id, ProposalOutcome::Accept).unwrap();
    let connection = rusqlite::Connection::open(db.path()).unwrap();
    connection
        .execute(
            "INSERT INTO records(task_id, kind, content, actor, status, sensitive_release_state) VALUES (?1, 'chat', 'chat line', 'agent', 'confirmed', 'not_required')",
            [task],
        )
        .unwrap();
    connection
        .execute(
            "INSERT INTO records(task_id, kind, content, actor, status, sensitive_release_state) VALUES (?1, 'change', 'superseded line', 'agent', 'superseded', 'not_required')",
            [task],
        )
        .unwrap();
    let snapshot = board.resume(task).unwrap();
    assert_eq!(snapshot.confirmed.len(), 1);
    assert!(board.pending(task).unwrap().is_empty());
    assert_eq!(
        board.what_just_happened(task, "v1", "reader").unwrap().recent_changes,
        vec!["Known change"]
    );
}

#[test]
fn heartbeat_carries_every_released_kind_in_order_and_handoff_only_three() {
    let (_db, mut board, task) = fresh_board();
    let mut ids = Vec::new();
    for (kind, content) in [
        (RecordType::Goal, "Goal record"),
        (RecordType::Change, "First change"),
        (RecordType::Handoff, "Handoff record"),
        (RecordType::OpenQuestion, "A question"),
        (RecordType::Decision, "A decision"),
    ] {
        let r = board.propose(task, kind, content, "agent").unwrap();
        board.review(r.id, ProposalOutcome::Accept).unwrap();
        ids.push(r.id);
    }
    let rejected = board.propose(task, RecordType::Change, "Rejected change", "agent").unwrap();
    board.review(rejected.id, ProposalOutcome::Reject).unwrap();
    board.propose(task, RecordType::Change, "Pending change", "agent").unwrap();

    let heartbeat = board.what_just_happened(task, "v1", "reader").unwrap();
    assert_eq!(heartbeat.goal, "Keep session behavior unchanged");
    assert_eq!(
        heartbeat.recent_changes,
        vec!["Goal record", "First change", "Handoff record", "A question", "A decision"]
    );
    let handoff = board.compose_handoff(task, "v1", "reader").unwrap();
    assert_eq!(handoff.decisions, vec!["A decision"]);
    assert_eq!(handoff.open_questions, vec!["A question"]);
    assert_eq!(handoff.next_steps, vec!["First change"]);
}

#[test]
fn board_view_and_api_read_the_same_task_state() {
    let (_db, board, task) = fresh_board();
    let api = TaskAccessApi::new(&board);
    let kept = api.propose(task, RecordType::Decision, "Keep it", "agent").unwrap();
    api.accept(kept.id).unwrap();
    let waiting = api.propose(task, RecordType::Change, "Try it", "agent").unwrap();
    let view = BoardView::load(&api, task).unwrap();
    assert_eq!(view.task_id, task);
    assert_eq!(view.goal, "Keep session behavior unchanged");
    assert_eq!(view.confirmed.len(), 1);
    assert_eq!(view.confirmed[0].id, kept.id);
    assert_eq!(view.pending.len(), 1);
    assert_eq!(view.pending[0].id, waiting.id);
    view.edit_and_accept(&api, waiting.id, "Tried it").unwrap();
    let other = api.propose(task, RecordType::Change, "Skip it", "agent").unwrap();
    view.reject(&api, other.id).unwrap();
    let snapshot = api.resume(task).unwrap();
    assert_eq!(snapshot.confirmed[1].content, "Tried it");
    assert_eq!(snapshot.rejected[0].content, "Skip it");
    assert!(BoardView::load(&api, task + 1).is_err());
}

#[test]
fn revocation_is_per_actor_and_survives_reopening() {
    let database = tempfile::NamedTempFile::new().unwrap();
    let mut board = Board::open(database.path()).unwrap();
    let task = board.create_task("Title", "Goal").unwrap();
    let api = TaskAccessApi::new(&board);
    api.revoke_session("a").unwrap();
    assert!(api.propose(task.id, RecordType::Change, "x", "b").is_ok());
    assert!(api.propose(task.id, RecordType::Change, "x", "a").is_err());
    drop(board);
    let reopened = Board::open(database.path()).unwrap();
    assert!(reopened.subscribe("a").is_err());
    assert!(reopened.subscribe("b").is_ok());
    assert!(reopened.compose_handoff(task.id, "v1", "a").is_err());
}

#[test]
fn stored_text_that_is_not_utf8_is_a_storage_error_not_a_crash() {
    let (db, mut board, task) = fresh_board();
    let record = board.propose(task, RecordType::Change, "Fine", "agent").unwrap();
    let connection = rusqlite::Connection::open(db.path()).unwrap();
    connection
        .execute("UPDATE records SET content=CAST(X'FF' AS TEXT) WHERE id=?1", [record.id])
        .unwrap();
    assert!(matches!(board.resume(task), Err(Failure { error: BoardError::Storage(_), .. })));
    assert!(matches!(board.pending(task), Err(Failure { error: BoardError::Storage(_), .. })));
    assert!(board.review(record.id, ProposalOutcome::Accept).is_ok());
}

#[test]
fn a_record_whose_content_is_a_blob_fails_the_reads_of_its_task() {
    let (db, mut board, task) = fresh_board();
    let record = board.propose(task, RecordType::Change, "Readable", "agent").unwrap();
    board.review(record.id, ProposalOutcome::Accept).unwrap();
    let connection = rusqlite::Connection::open(db.path()).unwrap();
    connection
        .execute(
            "INSERT INTO records(task_id, kind, content, actor, status, sensitive_release_state) VALUES (?1, 'change', X'6869', 'agent', 'confirmed', 'not_required')",
            [task],
        )
        .unwrap();
    let failure = board.resume(task).err().unwrap();
    assert!(matches!(failure.error, BoardError::UnreadableRecord));
    assert_eq!(failure.error.message(), "a stored record cannot be read");
    assert!(matches!(board.pending(task), Err(Failure { error: BoardError::UnreadableRecord, .. })));
    assert!(board.what_just_happened(task, "v1", "reader").is_err());
    assert!(matches!(
        board.propose(task, RecordType::Change, "More", "agent"),
        Err(BoardError::UnreadableRecord)
    ));
    let api = TaskAccessApi::new(&board);
    assert!(BoardView::load(&api, task).is_err());
}

#[test]
fn reviews_edits_and_approvals_change_only_records_still_waiting_for_them() {
    let (db, mut board, task) = fresh_board();
    let record = board.propose(task, RecordType::Change, "Plain change", "agent").unwrap();
    board.review(record.id, ProposalOutcome::Accept).unwrap();
    board.review(record.id, ProposalOutcome::Reject).unwrap();
    board.edit_and_accept(record.id, "Rewritten").unwrap();
    let snapshot = board.resume(task).unwrap();
    assert_eq!(snapshot.confirmed.len(), 1);
    assert_eq!(snapshot.confirmed[0].content, "Plain change");
    assert!(snapshot.rejected.is_empty());
    board.approve_sensitive_release(record.id).unwrap();
    let connection = rusqlite::Connection::open(db.path()).unwrap();
    let state: String = connection
        .query_row("SELECT sensitive_release_state FROM records WHERE id=?1", [record.id], |r| r.get(0))
        .unwrap();
    assert_eq!(state, "not_required");
    connection
        .execute(
            "INSERT INTO records(task_id, kind, content, actor, status, sensitive_release_state) VALUES (?1, 'chat', 'chat line', 'agent', 'proposed', 'not_required')",
            [task],
        )
        .unwrap();
    let unknown = connection.last_insert_rowid();
    board.review(unknown, ProposalOutcome::Reject).unwrap();
    let status: String = connection
        .query_row("SELECT status FROM records WHERE id=?1", [unknown], |r| r.get(0))
        .unwrap();
    assert_eq!(status, "rejected");
}
