use vstd::prelude::*;

use crate::persona::persona_of;
use crate::store::StoreView;

verus! {

/// Logging in twice with a new name gives one user. The first login creates
/// the user with the next id and the given persona; in the resulting store that
/// user is the only one with this name, so the second login, which finds the
/// name and leaves the store as it is, answers the same id and persona.
pub proof fn login_is_idempotent(s: StoreView, name: Seq<char>, persona: Seq<char>)
    requires
        s.wf(),
        !s.has_name(name),
        s.users.len() < i32::MAX,
    ensures
        ({
            let s2 = s.with_new_user(name, persona);
            &&& s2.wf()
            &&& s2.has_name(name)
            &&& forall|id: int|
                s2.has_user(id) && #[trigger] s2.user(id).name == name ==> id == (s.users.len() + 1) as int
                    && s2.user(id).prompt == Some(persona)
        }),
{
    let s2 = s.with_new_user(name, persona);
    let n = s.users.len() as int;
    assert(s2.users[n].name == name);
    assert forall|id: int| s2.has_user(id) && #[trigger] s2.user(id).name == name implies id == n
        + 1 && s2.user(id).prompt == Some(persona) by {
        if id != n + 1 {
            assert(s.users[id - 1] == s2.users[id - 1]);
        }
    }
}

/// A user created at login and never given a persona of its own is answered
/// the default persona.
pub proof fn fresh_user_gets_default_persona(s: StoreView, name: Seq<char>, persona: Seq<char>)
    requires
        s.wf(),
        !s.has_name(name),
        s.users.len() < i32::MAX,
    ensures
        persona_of(s.with_new_user(name, persona).user((s.users.len() + 1) as int).prompt, persona)
            == persona,
{
}

/// A new user has no summary; storing a summary makes it the user's summary,
/// and storing a second one replaces the first rather than adding to it.
pub proof fn summary_is_replaced(
    s: StoreView,
    name: Seq<char>,
    persona: Seq<char>,
    first: Seq<char>,
    second: Seq<char>,
)
    requires
        s.wf(),
        !s.has_name(name),
        s.users.len() < i32::MAX,
    ensures
        ({
            let id: int = (s.users.len() + 1) as int;
            let s1 = s.with_new_user(name, persona);
            let s2 = s1.with_summary(id, first);
            let s3 = s2.with_summary(id, second);
            &&& s1.summary(id) is None
            &&& s2.wf() && s2.summary(id) == Some(first)
            &&& s3.wf() && s3.summary(id) == Some(second)
        }),
{
    let s1 = s.with_new_user(name, persona);
    login_is_idempotent(s, name, persona);
    summary_keeps_wf(s1, (s.users.len() + 1) as int, first);
    summary_keeps_wf(s1.with_summary((s.users.len() + 1) as int, first), (s.users.len() + 1) as int, second);
}

/// Storing a summary for an existing user keeps the store well formed and
/// changes no other user's summary.
pub proof fn summary_keeps_wf(s: StoreView, id: int, summary: Seq<char>)
    requires
        s.wf(),
        s.has_user(id),
    ensures
        s.with_summary(id, summary).wf(),
        s.with_summary(id, summary).summary(id) == Some(summary),
        forall|other: int| other != id ==> #[trigger] s.with_summary(id, summary).summary(other) == s.summary(other),
{
}

} // verus!
