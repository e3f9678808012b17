use vstd::prelude::*;
use vstd::string::*;

verus! {

/// The generation backend could not be reached or refused the request.
#[derive(Debug, PartialEq, Eq, Structural, Clone, Copy)]
pub enum GenerationError {
    Unavailable,
}

/// What the reply step yields when the backend returns no candidate.
pub const NO_REPLY: &'static str = "(No reply)";

/// The first candidate's text, or the fallback when there is none.
pub open spec fn first_or(candidates: Seq<String>, fallback: Seq<char>) -> Seq<char> {
    if candidates.len() > 0 {
        candidates[0]@
    } else {
        fallback
    }
}

/// The assistant's reply taken from the backend's candidates: the first one,
/// or the placeholder when the list is empty.
pub fn reply_from_candidates(candidates: &Vec<String>) -> (r: String)
    ensures
        r@ == first_or(candidates@, NO_REPLY@),
{
    if candidates.len() > 0 {
        candidates[0].clone()
    } else {
        String::from_str(NO_REPLY)
    }
}

/// The new summary taken from the backend's candidates: the first one, or the
/// prior summary unchanged when the list is empty.
pub fn summary_from_candidates(candidates: &Vec<String>, prior: &str) -> (r: String)
    ensures
        r@ == first_or(candidates@, prior@),
{
    if candidates.len() > 0 {
        candidates[0].clone()
    } else {
        String::from_str(prior)
    }
}

} // verus!
