//! The prompt builder: maps a user-chosen action (and optional tone)
//! to a deterministic system prompt for the upstream gateway.

use vstd::prelude::*;
use vstd::string::*;

use crate::errors::{ClassifiedError, ErrorKind};
use crate::text::str_eq;

verus! {

/// The enumerated text-transformation actions.
#[derive(Debug)]
pub enum ActionKind {
    /// Editorial correction, output restricted to the corrected text.
    Proofread,
    /// Rewrite in the given tone; an absent tone means "professional".
    ToneRewrite(Option<String>),
    /// Improve and expand a draft.
    DraftExpand,
}

/// The tone to use: the given one, or the fixed default.
pub open spec fn tone_or_default(tone: Option<String>) -> Seq<char> {
    match tone {
        Option::Some(t) => t@,
        Option::None => "professional"@,
    }
}

/// The system prompt for each action, a total deterministic function.
pub open spec fn prompt_of(a: ActionKind) -> Seq<char> {
    match a {
        ActionKind::Proofread => "You are a professional editor. Please proofread and correct the following text for grammar, spelling, punctuation, and clarity. Return only the corrected text without additional commentary."@,
        ActionKind::ToneRewrite(tone) => "You are a writing assistant. Please rewrite the following text in a "@
            + tone_or_default(tone)
            + " tone. Maintain the original meaning but adjust the style and language to match the requested tone. Return only the rewritten text without additional commentary."@,
        ActionKind::DraftExpand => "You are a helpful writing assistant. Please help improve and expand the following text to make it more complete, clear, and professional. Return only the improved text without additional commentary."@,
    }
}

/// Every action maps to a non-empty prompt.
pub proof fn lemma_prompt_nonempty(a: ActionKind)
    ensures
        prompt_of(a).len() > 0,
{
    reveal_strlit("You are a professional editor. Please proofread and correct the following text for grammar, spelling, punctuation, and clarity. Return only the corrected text without additional commentary.");
    reveal_strlit("You are a writing assistant. Please rewrite the following text in a ");
    reveal_strlit("You are a helpful writing assistant. Please help improve and expand the following text to make it more complete, clear, and professional. Return only the improved text without additional commentary.");
}

/// Build the system prompt for `a`.
pub fn build_prompt(a: &ActionKind) -> (r: String)
    ensures
        r@ == prompt_of(*a),
{
    match a {
        ActionKind::Proofread => "You are a professional editor. Please proofread and correct the following text for grammar, spelling, punctuation, and clarity. Return only the corrected text without additional commentary.".to_owned(),
        ActionKind::ToneRewrite(tone) => {
            let mut out = "You are a writing assistant. Please rewrite the following text in a ".to_owned();
            let t: &str = match tone {
                Option::Some(t) => t.as_str(),
                Option::None => "professional",
            };
            out.append(t);
            out.append(" tone. Maintain the original meaning but adjust the style and language to match the requested tone. Return only the rewritten text without additional commentary.");
            out
        },
        ActionKind::DraftExpand => "You are a helpful writing assistant. Please help improve and expand the following text to make it more complete, clear, and professional. Return only the improved text without additional commentary.".to_owned(),
    }
}

/// Map the wire-level action string to an `ActionKind`; an unknown
/// string fails fast with `UnsupportedAction`, never silently defaults.
pub fn parse_action(action: &str, tone: Option<String>) -> (r: Result<ActionKind, ClassifiedError>)
    ensures
        action@ == "proofread"@ ==> (r matches Ok(ActionKind::Proofread)),
        action@ == "tone"@ ==> (r matches Ok(ActionKind::ToneRewrite(t)) && t == tone),
        action@ == "draft"@ ==> (r matches Ok(ActionKind::DraftExpand)),
        !(action@ == "proofread"@ || action@ == "tone"@ || action@ == "draft"@) ==> (r matches Err(
            e,
        ) && e.kind == ErrorKind::UnsupportedAction && e.detail@ == "Unknown action specified"@),
{
    proof {
        reveal_strlit("proofread");
        reveal_strlit("tone");
        reveal_strlit("draft");
        assert("proofread"@.len() == 9);
        assert("tone"@.len() == 4);
        assert("draft"@.len() == 5);
    }
    if str_eq(action, "proofread") {
        Ok(ActionKind::Proofread)
    } else if str_eq(action, "tone") {
        Ok(ActionKind::ToneRewrite(tone))
    } else if str_eq(action, "draft") {
        Ok(ActionKind::DraftExpand)
    } else {
        Err(
            ClassifiedError::new(
                ErrorKind::UnsupportedAction,
                "Unknown action specified".to_owned(),
            ),
        )
    }
}

} // verus!
