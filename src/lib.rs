//! Conversation-memory core of a psychologist-persona chat backend.
//!
//! The library binds a user name to a persona prompt and a running summary of
//! the dialogue, composes the two generation requests of a turn, and decides
//! the outcome of each turn step. The application reaches the database and the
//! text-generation backend and feeds their results back in; `Store` is the
//! record store's model, on which whole turns run.

mod generation;
mod handlers;
mod laws;
mod models;
mod persona;
mod prompt;
mod store;
mod turn;

pub use generation::{
    first_or, reply_from_candidates, summary_from_candidates, GenerationError, NO_REPLY,
};
pub use handlers::{
    chat_handler, get_prompt_handler, get_summary_handler, login_handler, prompt_of,
    summary_outcome, update_outcome, update_prompt_handler,
};
pub use laws::{
    fresh_user_gets_default_persona, login_is_idempotent, summary_is_replaced, summary_keeps_wf,
};
pub use models::{
    copy_opt, opt_view, Conversation, LoginRequest, LoginResponse, MessageRequest,
    MessageResponse, PromptUpdateRequest, SummaryResponse, UpdatePromptResponse, User, UserView,
};
pub use persona::{effective_persona, persona_of, DEFAULT_PROMPT};
pub use prompt::{
    build_reply_prompt, build_summarization_prompt, reply_prompt, reply_prompt_holds_inputs,
    summarization_prompt, summarization_prompt_holds_inputs,
};
pub use store::{Store, StoreError, StoreView};
pub use turn::{
    expects, generation_event, prior_text, Turn, TurnAction, TurnError, TurnEvent, TurnPhase,
};
