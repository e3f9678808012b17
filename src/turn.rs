use vstd::prelude::*;
use vstd::string::*;

use crate::generation::{
    first_or, reply_from_candidates, summary_from_candidates, GenerationError, NO_REPLY,
};
use crate::models::{opt_view, MessageRequest, MessageResponse, User};
use crate::persona::{effective_persona, persona_of};
use crate::prompt::{build_reply_prompt, build_summarization_prompt, reply_prompt, summarization_prompt};

verus! {

/// How a turn failed, as the caller sees it.
#[derive(Debug, PartialEq, Eq, Structural, Clone, Copy)]
pub enum TurnError {
    /// The turn names a user id that does not exist: log in again.
    Unauthorized,
    /// Storage or generation failed: try again later.
    Internal,
}

/// What the outside world reports back to a running turn.
#[derive(Debug)]
pub enum TurnEvent {
    /// The user lookup by id finished.
    UserLoaded(Option<User>),
    /// The summary lookup finished.
    SummaryLoaded(Option<String>),
    /// The backend answered with these candidates, possibly none.
    Generated(Vec<String>),
    /// The new summary was stored.
    SummarySaved,
    /// The generation backend failed.
    GenerationFailed,
    /// A storage operation failed.
    StoreFailed,
}

/// What a running turn asks the outside world to do next.
#[derive(Debug)]
pub enum TurnAction {
    LoadUser(i32),
    LoadSummary(i32),
    Generate(String),
    SaveSummary(i32, String),
    Respond(MessageResponse),
    Reject(TurnError),
}

/// Where a turn stands.
#[derive(Debug)]
pub enum TurnPhase {
    /// Waiting for the user record.
    AwaitUser,
    /// Waiting for the stored summary of this user.
    AwaitSummary(User),
    /// Waiting for the reply; holds the user id and the prior summary.
    AwaitReply(i32, String),
    /// Waiting for the new summary; holds the user id, prior summary and reply.
    AwaitNewSummary(i32, String, String),
    /// Waiting for the summary to be stored; holds the user id and reply.
    AwaitSaved(i32, String),
    /// The turn has answered or failed.
    Done,
}

/// One chat turn in flight.
#[derive(Debug)]
pub struct Turn {
    pub user_id: i32,
    pub message: String,
    pub default_persona: String,
    pub phase: TurnPhase,
}

/// The prior summary as it enters the prompts: empty when none is stored.
pub open spec fn prior_text(s: Option<Seq<char>>) -> Seq<char> {
    match s {
        Some(t) => t,
        None => Seq::empty(),
    }
}

/// Whether the event is the one the phase waits for.
pub open spec fn expects(phase: TurnPhase, event: TurnEvent) -> bool {
    match (phase, event) {
        (TurnPhase::AwaitUser, TurnEvent::UserLoaded(_)) => true,
        (TurnPhase::AwaitSummary(_), TurnEvent::SummaryLoaded(_)) => true,
        (TurnPhase::AwaitReply(_, _), TurnEvent::Generated(_)) => true,
        (TurnPhase::AwaitNewSummary(_, _, _), TurnEvent::Generated(_)) => true,
        (TurnPhase::AwaitSaved(_, _), TurnEvent::SummarySaved) => true,
        _ => false,
    }
}

impl Turn {
    /// Starts a turn for a chat request: the user is looked up first.
    pub fn start(req: &MessageRequest, default_persona: &str) -> (r: (Turn, TurnAction))
        ensures
            r.0.user_id == req.user_id,
            r.0.message@ == req.message@,
            r.0.default_persona@ == default_persona@,
            r.0.phase is AwaitUser,
            r.1 == TurnAction::LoadUser(req.user_id),
    {
        let t = Turn {
            user_id: req.user_id,
            message: req.message.clone(),
            default_persona: String::from_str(default_persona),
            phase: TurnPhase::AwaitUser,
        };
        (t, TurnAction::LoadUser(req.user_id))
    }

    /// Takes the turn one step on: from its phase and the event, the next phase
    /// and what to do. Any failure, or an event the phase does not wait for,
    /// ends the turn with an internal error and nothing stored.
    pub fn advance(self, event: TurnEvent) -> (r: (Turn, TurnAction))
        ensures
            r.0.user_id == self.user_id,
            r.0.message == self.message,
            r.0.default_persona == self.default_persona,
            !expects(self.phase, event) ==> r.0.phase is Done && r.1 == TurnAction::Reject(
                TurnError::Internal,
            ),
            self.phase is AwaitUser && event == TurnEvent::UserLoaded(None) ==> r.0.phase is Done
                && r.1 == TurnAction::Reject(TurnError::Unauthorized),
            self.phase is AwaitUser && event is UserLoaded && event->UserLoaded_0 is Some ==> ({
                let u = event->UserLoaded_0->Some_0;
                r.0.phase == TurnPhase::AwaitSummary(u) && r.1 == TurnAction::LoadSummary(u.id)
            }),
            self.phase is AwaitSummary && event is SummaryLoaded ==> ({
                let u = self.phase->AwaitSummary_0;
                let prior = prior_text(opt_view(event->SummaryLoaded_0));
                &&& r.0.phase is AwaitReply
                &&& r.0.phase->AwaitReply_0 == u.id
                &&& r.0.phase->AwaitReply_1@ == prior
                &&& r.1 is Generate
                &&& r.1->Generate_0@ == reply_prompt(
                    persona_of(opt_view(u.prompt), self.default_persona@),
                    prior,
                    self.message@,
                )
            }),
            self.phase is AwaitReply && event is Generated ==> ({
                let prior = self.phase->AwaitReply_1@;
                let reply = first_or(event->Generated_0@, NO_REPLY@);
                &&& r.0.phase is AwaitNewSummary
                &&& r.0.phase->AwaitNewSummary_0 == self.phase->AwaitReply_0
                &&& r.0.phase->AwaitNewSummary_1@ == prior
                &&& r.0.phase->AwaitNewSummary_2@ == reply
                &&& r.1 is Generate
                &&& r.1->Generate_0@ == summarization_prompt(prior, self.message@, reply)
            }),
            self.phase is AwaitNewSummary && event is Generated ==> ({
                let prior = self.phase->AwaitNewSummary_1@;
                &&& r.0.phase is AwaitSaved
                &&& r.0.phase->AwaitSaved_0 == self.phase->AwaitNewSummary_0
                &&& r.0.phase->AwaitSaved_1 == self.phase->AwaitNewSummary_2
                &&& r.1 is SaveSummary
                &&& r.1->SaveSummary_0 == self.phase->AwaitNewSummary_0
                &&& r.1->SaveSummary_1@ == first_or(event->Generated_0@, prior)
            }),
            self.phase is AwaitSaved && event is SummarySaved ==> ({
                &&& r.0.phase is Done
                &&& r.1 is Respond
                &&& r.1->Respond_0.reply == self.phase->AwaitSaved_1
                &&& r.1->Respond_0.user_id == self.phase->AwaitSaved_0
            }),
    {
        let Turn { user_id, message, default_persona, phase } = self;
        let (next, action) = match (phase, event) {
            (TurnPhase::AwaitUser, TurnEvent::UserLoaded(found)) => match found {
                Some(u) => {
                    let id = u.id;
                    (TurnPhase::AwaitSummary(u), TurnAction::LoadSummary(id))
                },
                None => (TurnPhase::Done, TurnAction::Reject(TurnError::Unauthorized)),
            },
            (TurnPhase::AwaitSummary(u), TurnEvent::SummaryLoaded(found)) => {
                let prior = match found {
                    Some(s) => s,
                    None => String::new(),
                };
                let persona = effective_persona(&u, default_persona.as_str());
                let prompt = build_reply_prompt(persona.as_str(), prior.as_str(), message.as_str());
                (TurnPhase::AwaitReply(u.id, prior), TurnAction::Generate(prompt))
            },
            (TurnPhase::AwaitReply(id, prior), TurnEvent::Generated(candidates)) => {
                let reply = reply_from_candidates(&candidates);
                let prompt = build_summarization_prompt(
                    prior.as_str(),
                    message.as_str(),
                    reply.as_str(),
                );
                (TurnPhase::AwaitNewSummary(id, prior, reply), TurnAction::Generate(prompt))
            },
            (TurnPhase::AwaitNewSummary(id, prior, reply), TurnEvent::Generated(candidates)) => {
                let summary = summary_from_candidates(&candidates, prior.as_str());
                (TurnPhase::AwaitSaved(id, reply), TurnAction::SaveSummary(id, summary))
            },
            (TurnPhase::AwaitSaved(id, reply), TurnEvent::SummarySaved) => {
                (TurnPhase::Done, TurnAction::Respond(MessageResponse { reply: reply, user_id: id }))
            },
            _ => (TurnPhase::Done, TurnAction::Reject(TurnError::Internal)),
        };
        (Turn { user_id, message, default_persona, phase: next }, action)
    }
}

/// The event that a generation outcome reports.
pub fn generation_event(outcome: Result<Vec<String>, GenerationError>) -> (r: TurnEvent)
    ensures
        match outcome {
            Ok(c) => r == TurnEvent::Generated(c),
            Err(_) => r == TurnEvent::GenerationFailed,
        },
{
    match outcome {
        Ok(c) => TurnEvent::Generated(c),
        Err(_) => TurnEvent::GenerationFailed,
    }
}

} // verus!
