use vstd::prelude::*;

use crate::records::SensitiveReleaseState;
use crate::text::{chars_of, folded, folded_chars, occurs_in, occurs_in_exec};

verus! {

/// Whether `content` carries an explicit sensitive marker ("api key", "password",
/// "secret" or "access token"), ignoring ASCII case.
pub open spec fn mentions_sensitive_marker(content: Seq<char>) -> bool {
    let text = folded(content);
    ||| occurs_in(text, "api key"@)
    ||| occurs_in(text, "password"@)
    ||| occurs_in(text, "secret"@)
    ||| occurs_in(text, "access token"@)
}

/// The release state that new content starts in: sensitive content waits for approval.
pub open spec fn initial_release_state(content: Seq<char>) -> SensitiveReleaseState {
    if mentions_sensitive_marker(content) {
        SensitiveReleaseState::Pending
    } else {
        SensitiveReleaseState::NotRequired
    }
}

/// Whether the already lower-cased `text` contains `marker`.
fn holds_marker(text: &Vec<char>, marker: &str) -> (found: bool)
    ensures
        found == occurs_in(text@, marker@),
{
    let needle = chars_of(marker);
    occurs_in_exec(text, &needle)
}

/// The release state for new content under the explicit-marker policy.
pub fn classify_sensitivity(content: &str) -> (state: SensitiveReleaseState)
    ensures
        state == initial_release_state(content@),
{
    let text = folded_chars(content);
    if holds_marker(&text, "api key") || holds_marker(&text, "password") || holds_marker(
        &text,
        "secret",
    ) || holds_marker(&text, "access token") {
        SensitiveReleaseState::Pending
    } else {
        SensitiveReleaseState::NotRequired
    }
}

} // verus!
