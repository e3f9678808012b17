use vstd::prelude::*;
use vstd::string::*;

verus! {

pub const SUMMARY_HEADER: &'static str = "\n\nConversation so far (summarized):\n";

pub const MESSAGE_HEADER: &'static str = "\n\nUser's new message:\n\"";

pub const REPLY_FOOTER: &'static str = "\"\n\nAssistant, please respond:\n";

pub const PREVIOUS_HEADER: &'static str = "\nPrevious summary:\n";

pub const LATEST_HEADER: &'static str = "\n\nUser's latest message:\n\"";

pub const ASSISTANT_HEADER: &'static str = "\"\n\nAssistant's reply:\n\"";

pub const SUMMARY_FOOTER: &'static str = "\"\n\nPlease provide an updated very detailed summary of these contents.
No less than 10 sentences, use detail
No more than 40 sentences if needed


If repeated themes start occring use this into consideration for your response:
";

/// The reply request: persona, the summarized conversation so far, and the new message.
pub open spec fn reply_prompt(persona: Seq<char>, summary: Seq<char>, message: Seq<char>) -> Seq<char> {
    persona + SUMMARY_HEADER@ + summary + MESSAGE_HEADER@ + message + REPLY_FOOTER@
}

/// The re-summarization request: prior summary, new message and the assistant's reply.
pub open spec fn summarization_prompt(
    summary: Seq<char>,
    message: Seq<char>,
    reply: Seq<char>,
) -> Seq<char> {
    PREVIOUS_HEADER@ + summary + LATEST_HEADER@ + message + ASSISTANT_HEADER@ + reply
        + SUMMARY_FOOTER@
}

/// Composes the request for the assistant's reply. Nothing is truncated.
pub fn build_reply_prompt(persona: &str, summary: &str, message: &str) -> (r: String)
    ensures
        r@ == reply_prompt(persona@, summary@, message@),
{
    let mut s = String::from_str(persona);
    s.append(SUMMARY_HEADER);
    s.append(summary);
    s.append(MESSAGE_HEADER);
    s.append(message);
    s.append(REPLY_FOOTER);
    s
}

/// Composes the request for the updated summary. Nothing is truncated.
pub fn build_summarization_prompt(summary: &str, message: &str, reply: &str) -> (r: String)
    ensures
        r@ == summarization_prompt(summary@, message@, reply@),
{
    let mut s = String::from_str(PREVIOUS_HEADER);
    s.append(summary);
    s.append(LATEST_HEADER);
    s.append(message);
    s.append(ASSISTANT_HEADER);
    s.append(reply);
    s.append(SUMMARY_FOOTER);
    s
}

/// The reply request holds the prior summary and the new message, each whole,
/// at fixed offsets.
pub proof fn reply_prompt_holds_inputs(persona: Seq<char>, summary: Seq<char>, message: Seq<char>)
    ensures
        ({
            let p = reply_prompt(persona, summary, message);
            let s0: int = (persona.len() + SUMMARY_HEADER@.len()) as int;
            let m0: int = s0 + summary.len() + MESSAGE_HEADER@.len();
            &&& p.subrange(0, persona.len() as int) == persona
            &&& p.subrange(s0 as int, s0 + summary.len()) == summary
            &&& p.subrange(m0 as int, m0 + message.len()) == message
        }),
{
    let p = reply_prompt(persona, summary, message);
    let s0: int = (persona.len() + SUMMARY_HEADER@.len()) as int;
    let m0: int = s0 + summary.len() + MESSAGE_HEADER@.len();
    assert(p.subrange(0, persona.len() as int) =~= persona);
    assert(p.subrange(s0 as int, s0 + summary.len()) =~= summary);
    assert(p.subrange(m0 as int, m0 + message.len()) =~= message);
}

/// The re-summarization request holds the prior summary, the new message and the
/// reply, each whole, at fixed offsets.
pub proof fn summarization_prompt_holds_inputs(summary: Seq<char>, message: Seq<char>, reply: Seq<char>)
    ensures
        ({
            let p = summarization_prompt(summary, message, reply);
            let s0: int = (PREVIOUS_HEADER@.len()) as int;
            let m0: int = s0 + summary.len() + LATEST_HEADER@.len();
            let r0: int = m0 + message.len() + ASSISTANT_HEADER@.len();
            &&& p.subrange(s0 as int, s0 + summary.len()) == summary
            &&& p.subrange(m0 as int, m0 + message.len()) == message
            &&& p.subrange(r0 as int, r0 + reply.len()) == reply
        }),
{
    let p = summarization_prompt(summary, message, reply);
    let s0: int = (PREVIOUS_HEADER@.len()) as int;
    let m0: int = s0 + summary.len() + LATEST_HEADER@.len();
    let r0: int = m0 + message.len() + ASSISTANT_HEADER@.len();
    assert(p.subrange(s0 as int, s0 + summary.len()) =~= summary);
    assert(p.subrange(m0 as int, m0 + message.len()) =~= message);
    assert(p.subrange(r0 as int, r0 + reply.len()) =~= reply);
}

} // verus!
