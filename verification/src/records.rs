use vstd::prelude::*;

use crate::text::same_text;

verus! {

/// The five kinds of task-state record that a board shares.
#[derive(Clone, Copy, Debug, PartialEq, Eq, Structural)]
pub enum RecordType {
    Goal,
    Decision,
    Change,
    OpenQuestion,
    Handoff,
}

/// Where a record stands in review.
#[derive(Clone, Copy, Debug, PartialEq, Eq, Structural)]
pub enum RecordStatus {
    Proposed,
    Confirmed,
    Rejected,
}

/// Whether a record may be released to another agent or into a handoff.
#[derive(Clone, Copy, Debug, PartialEq, Eq, Structural)]
pub enum SensitiveReleaseState {
    /// Routine content: released once confirmed.
    NotRequired,
    /// Sensitive content (or an unreadable stored state): withheld until approved.
    Pending,
    /// Sensitive content that the developer explicitly released.
    Approved,
}

/// The developer's decision on a proposal.
#[derive(Clone, Copy, Debug, PartialEq, Eq, Structural)]
pub enum ProposalOutcome {
    Accept,
    Reject,
}

/// The name under which a record kind is stored.
pub open spec fn kind_name(kind: RecordType) -> Seq<char> {
    match kind {
        RecordType::Goal => "goal"@,
        RecordType::Decision => "decision"@,
        RecordType::Change => "change"@,
        RecordType::OpenQuestion => "open_question"@,
        RecordType::Handoff => "handoff"@,
    }
}

/// The kind stored under `name`, if `name` is one of the five kind names.
pub open spec fn kind_named(name: Seq<char>) -> Option<RecordType> {
    if name == kind_name(RecordType::Goal) {
        Some(RecordType::Goal)
    } else if name == kind_name(RecordType::Decision) {
        Some(RecordType::Decision)
    } else if name == kind_name(RecordType::Change) {
        Some(RecordType::Change)
    } else if name == kind_name(RecordType::OpenQuestion) {
        Some(RecordType::OpenQuestion)
    } else if name == kind_name(RecordType::Handoff) {
        Some(RecordType::Handoff)
    } else {
        None
    }
}

/// The name under which a review status is stored.
pub open spec fn status_name(status: RecordStatus) -> Seq<char> {
    match status {
        RecordStatus::Proposed => "proposed"@,
        RecordStatus::Confirmed => "confirmed"@,
        RecordStatus::Rejected => "rejected"@,
    }
}

/// The status stored under `name`, if `name` is one of the three status names.
pub open spec fn status_named(name: Seq<char>) -> Option<RecordStatus> {
    if name == status_name(RecordStatus::Proposed) {
        Some(RecordStatus::Proposed)
    } else if name == status_name(RecordStatus::Confirmed) {
        Some(RecordStatus::Confirmed)
    } else if name == status_name(RecordStatus::Rejected) {
        Some(RecordStatus::Rejected)
    } else {
        None
    }
}

/// The name under which a release state is stored.
pub open spec fn release_state_name(state: SensitiveReleaseState) -> Seq<char> {
    match state {
        SensitiveReleaseState::NotRequired => "not_required"@,
        SensitiveReleaseState::Pending => "pending"@,
        SensitiveReleaseState::Approved => "approved"@,
    }
}

/// The release state read back from a stored name. Any name other than
/// `not_required` and `approved` reads as `Pending`: an unrecognised state fails closed.
pub open spec fn release_state_named(name: Seq<char>) -> SensitiveReleaseState {
    if name == release_state_name(SensitiveReleaseState::NotRequired) {
        SensitiveReleaseState::NotRequired
    } else if name == release_state_name(SensitiveReleaseState::Approved) {
        SensitiveReleaseState::Approved
    } else {
        SensitiveReleaseState::Pending
    }
}

/// The status a proposal takes on review.
pub open spec fn outcome_status(outcome: ProposalOutcome) -> RecordStatus {
    match outcome {
        ProposalOutcome::Accept => RecordStatus::Confirmed,
        ProposalOutcome::Reject => RecordStatus::Rejected,
    }
}

impl RecordType {
    /// The stored name of this kind.
    pub fn as_str(self) -> (name: &'static str)
        ensures
            name@ == kind_name(self),
    {
        match self {
            RecordType::Goal => "goal",
            RecordType::Decision => "decision",
            RecordType::Change => "change",
            RecordType::OpenQuestion => "open_question",
            RecordType::Handoff => "handoff",
        }
    }
}

/// The kind named `name`; `None` for any other text.
pub fn kind_from_str(name: &str) -> (kind: Option<RecordType>)
    ensures
        kind == kind_named(name@),
{
    if same_text(name, "goal") {
        Some(RecordType::Goal)
    } else if same_text(name, "decision") {
        Some(RecordType::Decision)
    } else if same_text(name, "change") {
        Some(RecordType::Change)
    } else if same_text(name, "open_question") {
        Some(RecordType::OpenQuestion)
    } else if same_text(name, "handoff") {
        Some(RecordType::Handoff)
    } else {
        None
    }
}

impl RecordStatus {
    /// The stored name of this status.
    pub fn as_str(self) -> (name: &'static str)
        ensures
            name@ == status_name(self),
    {
        match self {
            RecordStatus::Proposed => "proposed",
            RecordStatus::Confirmed => "confirmed",
            RecordStatus::Rejected => "rejected",
        }
    }

    /// The status named `name`; `None` for any other text.
    pub fn from_name(name: &str) -> (status: Option<RecordStatus>)
        ensures
            status == status_named(name@),
    {
        if same_text(name, "proposed") {
            Some(RecordStatus::Proposed)
        } else if same_text(name, "confirmed") {
            Some(RecordStatus::Confirmed)
        } else if same_text(name, "rejected") {
            Some(RecordStatus::Rejected)
        } else {
            None
        }
    }
}

/// The stored name of a release state.
pub fn sensitivity_str(state: &SensitiveReleaseState) -> (name: &'static str)
    ensures
        name@ == release_state_name(*state),
{
    match state {
        SensitiveReleaseState::NotRequired => "not_required",
        SensitiveReleaseState::Pending => "pending",
        SensitiveReleaseState::Approved => "approved",
    }
}

impl SensitiveReleaseState {
    /// The release state read back from its stored name; unknown names read as `Pending`.
    pub fn from_name(name: &str) -> (state: SensitiveReleaseState)
        ensures
            state == release_state_named(name@),
    {
        if same_text(name, "not_required") {
            SensitiveReleaseState::NotRequired
        } else if same_text(name, "approved") {
            SensitiveReleaseState::Approved
        } else {
            SensitiveReleaseState::Pending
        }
    }
}

impl ProposalOutcome {
    /// The status that a proposal takes when reviewed with this outcome.
    pub fn status(self) -> (status: RecordStatus)
        ensures
            status == outcome_status(self),
    {
        match self {
            ProposalOutcome::Accept => RecordStatus::Confirmed,
            ProposalOutcome::Reject => RecordStatus::Rejected,
        }
    }
}

/// A kind's stored name reads back as that kind, and no two kinds share a name.
pub proof fn lemma_kind_names_round_trip(kind: RecordType)
    ensures
        kind_named(kind_name(kind)) == Some(kind),
{
    reveal_strlit("goal");
    reveal_strlit("decision");
    reveal_strlit("change");
    reveal_strlit("open_question");
    reveal_strlit("handoff");
    assert("goal"@.len() == 4);
    assert("decision"@.len() == 8);
    assert("change"@.len() == 6);
    assert("open_question"@.len() == 13);
    assert("handoff"@.len() == 7);
}

/// A status's stored name reads back as that status.
pub proof fn lemma_status_names_round_trip(status: RecordStatus)
    ensures
        status_named(status_name(status)) == Some(status),
{
    reveal_strlit("proposed");
    reveal_strlit("confirmed");
    reveal_strlit("rejected");
    assert("proposed"@.len() == 8);
    assert("confirmed"@.len() == 9);
    assert("rejected"@.len() == 8);
    assert("proposed"@[0] != "rejected"@[0]);
}

/// A release state's stored name reads back as that state.
pub proof fn lemma_release_state_names_round_trip(state: SensitiveReleaseState)
    ensures
        release_state_named(release_state_name(state)) == state,
{
    reveal_strlit("not_required");
    reveal_strlit("pending");
    reveal_strlit("approved");
    assert("not_required"@.len() == 12);
    assert("pending"@.len() == 7);
    assert("approved"@.len() == 8);
}

} // verus!
