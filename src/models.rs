use vstd::prelude::*;

verus! {

/// Mathematical picture of a user record.
pub struct UserView {
    pub id: int,
    pub name: Seq<char>,
    pub prompt: Option<Seq<char>>,
}

pub open spec fn opt_view(s: Option<String>) -> Option<Seq<char>> {
    match s {
        Some(t) => Some(t@),
        None => None,
    }
}

/// Copies an optional string, keeping its value.
pub fn copy_opt(s: &Option<String>) -> (r: Option<String>)
    ensures
        r == *s,
{
    match s {
        Some(t) => Some(t.clone()),
        None => None,
    }
}

/// A user: a unique name, an id assigned by the store, and an optional persona.
#[derive(Debug)]
pub struct User {
    pub id: i32,
    pub name: String,
    pub prompt: Option<String>,
}

impl View for User {
    type V = UserView;

    open spec fn view(&self) -> UserView {
        UserView { id: self.id as int, name: self.name@, prompt: opt_view(self.prompt) }
    }
}

impl User {
    /// An identical copy of this record.
    pub fn duplicate(&self) -> (r: User)
        ensures
            r == *self,
    {
        User { id: self.id, name: self.name.clone(), prompt: copy_opt(&self.prompt) }
    }
}

/// The stored summary row of one user.
#[derive(Debug)]
pub struct Conversation {
    pub user_id: i32,
    pub conversation_summary: Option<String>,
}

/// A chat turn request: the user's new message.
#[derive(Debug)]
pub struct MessageRequest {
    pub message: String,
    pub user_id: i32,
}

/// The answer to a successful chat turn.
#[derive(Debug)]
pub struct MessageResponse {
    pub reply: String,
    pub user_id: i32,
}

/// A login request by user name.
#[derive(Debug)]
pub struct LoginRequest {
    pub username: String,
}

/// The answer to a login: the user's id and current summary, if any.
#[derive(Debug)]
pub struct LoginResponse {
    pub user_id: i32,
    pub summary: Option<String>,
}

/// A request to replace a user's persona prompt.
#[derive(Debug)]
pub struct PromptUpdateRequest {
    pub new_prompt: String,
}

/// The answer to a summary query.
#[derive(Debug)]
pub struct SummaryResponse {
    pub summary: String,
}

/// The answer to a persona update: the prompt now in force.
#[derive(Debug)]
pub struct UpdatePromptResponse {
    pub prompt: String,
}

} // verus!
