//! The system prompt that opens every conversation.

use vstd::prelude::*;
use vstd::string::*;

verus! {

/// The part of the system prompt before the current time.
pub const PROMPT_HEAD: &'static str =
    "You are an expert log parser and your purpose is to find report any errors or potential problems in the log.\n                                              IMPORTANT ALWAYS REFERENCE YOUR FINDINGS.\n\n                                              Current time is ";

/// The part of the system prompt after the current time.
pub const PROMPT_TAIL: &'static str =
    ".\n\n                                              The log is as follows:";

/// The text of the system prompt for a given rendering of the current time:
/// the fixed instruction with the time set into it.
pub open spec fn system_prompt_text(now: Seq<char>) -> Seq<char> {
    PROMPT_HEAD@ + now + PROMPT_TAIL@
}

/// Builds the system prompt around the given rendering of the current time.
pub fn system_prompt(now: &str) -> (prompt: String)
    ensures
        prompt@ == system_prompt_text(now@),
{
    let mut prompt: String = String::from_str(PROMPT_HEAD);
    prompt.append(now);
    prompt.append(PROMPT_TAIL);
    prompt
}

} // verus!
