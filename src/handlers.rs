use vstd::prelude::*;
use vstd::string::*;

use crate::generation::{first_or, GenerationError, NO_REPLY};
use crate::models::{
    opt_view, LoginRequest, LoginResponse, MessageRequest, MessageResponse, PromptUpdateRequest,
    SummaryResponse, UpdatePromptResponse, User,
};
use crate::persona::{effective_persona, persona_of};
use crate::store::{Store, StoreError};
use crate::turn::{generation_event, prior_text, Turn, TurnAction, TurnError, TurnEvent};

verus! {

/// The answer to a persona query, given the user lookup: the persona in force,
/// or none when the user does not exist.
pub fn prompt_of(user: Option<User>, default_persona: &str) -> (r: Option<String>)
    ensures
        match user {
            Some(u) => r is Some && r->Some_0@ == persona_of(opt_view(u.prompt), default_persona@),
            None => r is None,
        },
{
    match user {
        Some(u) => Some(effective_persona(&u, default_persona)),
        None => None,
    }
}

/// The answer to a persona update, given whether a user was updated.
pub fn update_outcome(updated: bool, req: PromptUpdateRequest) -> (r: Option<UpdatePromptResponse>)
    ensures
        updated ==> r is Some && r->Some_0.prompt == req.new_prompt,
        !updated ==> r is None,
{
    if updated {
        Some(UpdatePromptResponse { prompt: req.new_prompt })
    } else {
        None
    }
}

/// The answer to a summary query, given the stored summary.
pub fn summary_outcome(summary: Option<String>) -> (r: Option<SummaryResponse>)
    ensures
        match summary {
            Some(s) => r is Some && r->Some_0.summary == s,
            None => r is None,
        },
{
    match summary {
        Some(s) => Some(SummaryResponse { summary: s }),
        None => None,
    }
}

/// Logs a user in by name, creating the user with the default persona on
/// first login, and reports the user's id and current summary.
pub fn login_handler(store: &mut Store, req: &LoginRequest, default_persona: &str) -> (r: Result<
    LoginResponse,
    StoreError,
>)
    requires
        old(store)@.wf(),
    ensures
        final(store)@.wf(),
        old(store)@.has_name(req.username@) ==> final(store)@ == old(store)@ && r is Ok
            && old(store)@.has_user(r->Ok_0.user_id as int) && old(store)@.user(
            r->Ok_0.user_id as int,
        ).name == req.username@ && opt_view(r->Ok_0.summary) == old(store)@.summary(
            r->Ok_0.user_id as int,
        ),
        !old(store)@.has_name(req.username@) && old(store)@.users.len() < i32::MAX ==> r is Ok
            && final(store)@ == old(store)@.with_new_user(req.username@, default_persona@)
            && r->Ok_0.user_id == old(store)@.users.len() + 1 && r->Ok_0.summary is None,
        !old(store)@.has_name(req.username@) && old(store)@.users.len() == i32::MAX ==> r == Err::<
            LoginResponse,
            StoreError,
        >(StoreError::Exhausted) && final(store)@ == old(store)@,
{
    let user = match store.get_or_create_user(req.username.as_str(), default_persona) {
        Ok(u) => u,
        Err(e) => return Err(e),
    };
    let summary = store.get_conversation_summary(user.id);
    Ok(LoginResponse { user_id: user.id, summary: summary })
}

/// The persona in force for a user; none when the user does not exist.
pub fn get_prompt_handler(store: &Store, user_id: i32, default_persona: &str) -> (r: Option<String>)
    requires
        store@.wf(),
    ensures
        !store@.has_user(user_id as int) ==> r is None,
        store@.has_user(user_id as int) ==> r is Some && r->Some_0@ == persona_of(
            store@.user(user_id as int).prompt,
            default_persona@,
        ),
{
    prompt_of(store.get_user_by_id(user_id), default_persona)
}

/// Replaces a user's persona; none when the user does not exist.
pub fn update_prompt_handler(store: &mut Store, user_id: i32, req: PromptUpdateRequest) -> (r: Option<
    UpdatePromptResponse,
>)
    requires
        old(store)@.wf(),
    ensures
        final(store)@.wf(),
        !old(store)@.has_user(user_id as int) ==> r is None && final(store)@ == old(store)@,
        old(store)@.has_user(user_id as int) ==> r is Some && r->Some_0.prompt@ == req.new_prompt@
            && final(store)@.users[user_id - 1].prompt == Some(req.new_prompt@)
            && final(store)@.users[user_id - 1].id == old(store)@.users[user_id - 1].id
            && final(store)@.users[user_id - 1].name == old(store)@.users[user_id - 1].name
            && final(store)@.summaries == old(store)@.summaries,
{
    let updated = store.update_user_prompt(user_id, req.new_prompt.as_str());
    update_outcome(updated, req)
}

/// The stored summary of a user; none before the first turn or for an unknown id.
pub fn get_summary_handler(store: &Store, user_id: i32) -> (r: Option<SummaryResponse>)
    requires
        store@.wf(),
    ensures
        r is Some <==> store@.summary(user_id as int) is Some,
        r is Some ==> store@.summary(user_id as int) == Some(r->Some_0.summary@),
{
    summary_outcome(store.get_conversation_summary(user_id))
}

/// Runs one chat turn against the store, with the backend's outcome for the
/// reply request and for the summarization request. The turn is all or
/// nothing: the summary changes exactly when the reply is returned.
pub fn chat_handler(
    store: &mut Store,
    req: &MessageRequest,
    default_persona: &str,
    reply_outcome: Result<Vec<String>, GenerationError>,
    summary_outcome: Result<Vec<String>, GenerationError>,
) -> (r: Result<MessageResponse, TurnError>)
    requires
        old(store)@.wf(),
    ensures
        final(store)@.wf(),
        !old(store)@.has_user(req.user_id as int) ==> r == Err::<MessageResponse, TurnError>(
            TurnError::Unauthorized,
        ) && final(store)@ == old(store)@,
        old(store)@.has_user(req.user_id as int) && reply_outcome is Err ==> r == Err::<
            MessageResponse,
            TurnError,
        >(TurnError::Internal) && final(store)@ == old(store)@,
        old(store)@.has_user(req.user_id as int) && summary_outcome is Err ==> r == Err::<
            MessageResponse,
            TurnError,
        >(TurnError::Internal) && final(store)@ == old(store)@,
        old(store)@.has_user(req.user_id as int) && reply_outcome is Ok && summary_outcome is Ok
            ==> r is Ok && r->Ok_0.user_id == req.user_id && r->Ok_0.reply@ == first_or(
            reply_outcome->Ok_0@,
            NO_REPLY@,
        ) && final(store)@ == old(store)@.with_summary(
            req.user_id as int,
            first_or(summary_outcome->Ok_0@, prior_text(old(store)@.summary(req.user_id as int))),
        ),
{
    let (turn, _) = Turn::start(req, default_persona);
    let found = store.get_user_by_id(req.user_id);
    proof {
        if store@.has_user(req.user_id as int) {
            assert(store@.users[req.user_id - 1].id == req.user_id);
        }
    }
    let (turn, action) = turn.advance(TurnEvent::UserLoaded(found));
    let user_id = match action {
        TurnAction::LoadSummary(id) => id,
        TurnAction::Reject(e) => return Err(e),
        _ => return Err(TurnError::Internal),
    };
    let prior = store.get_conversation_summary(user_id);
    let (turn, action) = turn.advance(TurnEvent::SummaryLoaded(prior));
    let (turn, action) = turn.advance(generation_event(reply_outcome));
    match action {
        TurnAction::Generate(_) => {},
        TurnAction::Reject(e) => return Err(e),
        _ => return Err(TurnError::Internal),
    }
    let (turn, action) = turn.advance(generation_event(summary_outcome));
    let (id, summary) = match action {
        TurnAction::SaveSummary(id, s) => (id, s),
        TurnAction::Reject(e) => return Err(e),
        _ => return Err(TurnError::Internal),
    };
    let event = match store.update_conversation_summary(id, summary.as_str()) {
        Ok(()) => TurnEvent::SummarySaved,
        Err(_) => TurnEvent::StoreFailed,
    };
    let (_, action) = turn.advance(event);
    match action {
        TurnAction::Respond(resp) => Ok(resp),
        TurnAction::Reject(e) => Err(e),
        _ => Err(TurnError::Internal),
    }
}

} // verus!
