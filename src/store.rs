use vstd::prelude::*;
use vstd::string::*;

use crate::models::{copy_opt, opt_view, Conversation, User, UserView};

verus! {

/// Why a store operation was refused.
#[derive(Debug, PartialEq, Eq, Structural, Clone, Copy)]
pub enum StoreError {
    /// A user with that name exists already.
    Conflict,
    /// No id is left to assign to a new user.
    Exhausted,
    /// The operation names a user id that does not exist.
    MissingUser,
}

/// Mathematical picture of the store: the users in order of creation (the
/// user with id `k` at index `k - 1`) and, beside each, its stored summary.
pub struct StoreView {
    pub users: Seq<UserView>,
    pub summaries: Seq<Option<Seq<char>>>,
}

impl StoreView {
    /// Ids follow creation order, names are unique, one summary slot per user.
    pub open spec fn wf(self) -> bool {
        &&& self.summaries.len() == self.users.len()
        &&& self.users.len() <= i32::MAX
        &&& forall|i: int| 0 <= i < self.users.len() ==> #[trigger] self.users[i].id == i + 1
        &&& forall|i: int, j: int|
            0 <= i < self.users.len() && 0 <= j < self.users.len() && i != j
                ==> #[trigger] self.users[i].name != #[trigger] self.users[j].name
    }

    pub open spec fn has_user(self, id: int) -> bool {
        1 <= id <= self.users.len()
    }

    pub open spec fn user(self, id: int) -> UserView {
        self.users[id - 1]
    }

    pub open spec fn has_name(self, name: Seq<char>) -> bool {
        exists|i: int| 0 <= i < self.users.len() && #[trigger] self.users[i].name == name
    }

    /// The summary stored for a user; absent for an unknown id.
    pub open spec fn summary(self, id: int) -> Option<Seq<char>> {
        if self.has_user(id) {
            self.summaries[id - 1]
        } else {
            None
        }
    }

    /// The store after a summary is stored for a user.
    pub open spec fn with_summary(self, id: int, summary: Seq<char>) -> StoreView {
        StoreView { users: self.users, summaries: self.summaries.update(id - 1, Some(summary)) }
    }

    /// The store after creating a user with the next id.
    pub open spec fn with_new_user(self, name: Seq<char>, prompt: Seq<char>) -> StoreView {
        StoreView {
            users: self.users.push(
                UserView { id: (self.users.len() + 1) as int, name: name, prompt: Some(prompt) },
            ),
            summaries: self.summaries.push(None),
        }
    }
}

/// The record store of users and their summaries.
pub struct Store {
    users: Vec<User>,
    summaries: Vec<Option<String>>,
}

impl View for Store {
    type V = StoreView;

    closed spec fn view(&self) -> StoreView {
        StoreView {
            users: self.users@.map_values(|u: User| u@),
            summaries: self.summaries@.map_values(|s: Option<String>| opt_view(s)),
        }
    }
}

impl Store {
    /// An empty store.
    pub fn new() -> (r: Store)
        ensures
            r@.wf(),
            r@.users.len() == 0,
    {
        let r = Store { users: Vec::new(), summaries: Vec::new() };
        assert(r@.users =~= Seq::<UserView>::empty());
        r
    }

    /// Index of the user with this name.
    fn find_name(&self, name: &str) -> (r: Option<usize>)
        requires
            self@.wf(),
        ensures
            match r {
                Some(i) => i < self@.users.len() && self@.users[i as int].name == name@,
                None => !self@.has_name(name@),
            },
    {
        let key = String::from_str(name);
        let mut i: usize = 0;
        while i < self.users.len()
            invariant
                i <= self.users.len(),
                key@ == name@,
                self@.users.len() == self.users@.len(),
                forall|k: int| 0 <= k < i ==> self@.users[k].name != name@,
            decreases self.users.len() - i,
        {
            assert(self@.users[i as int] == self.users@[i as int]@);
            if self.users[i].name == key {
                return Some(i);
            }
            i = i + 1;
        }
        None
    }

    /// Inserts a new user with the next id; refused when the name is taken.
    pub fn create_user(&mut self, name: &str, prompt: &str) -> (r: Result<User, StoreError>)
        requires
            old(self)@.wf(),
        ensures
            final(self)@.wf(),
            old(self)@.has_name(name@) ==> r == Err::<User, StoreError>(StoreError::Conflict)
                && final(self)@ == old(self)@,
            !old(self)@.has_name(name@) && old(self)@.users.len() == i32::MAX ==> r == Err::<
                User,
                StoreError,
            >(StoreError::Exhausted) && final(self)@ == old(self)@,
            !old(self)@.has_name(name@) && old(self)@.users.len() < i32::MAX ==> r is Ok
                && final(self)@ == old(self)@.with_new_user(name@, prompt@) && r->Ok_0@
                == final(self)@.users.last(),
    {
        if let Some(_) = self.find_name(name) {
            return Err(StoreError::Conflict);
        }
        if self.users.len() >= i32::MAX as usize {
            return Err(StoreError::Exhausted);
        }
        let ghost before = self@;
        let id = (self.users.len() + 1) as i32;
        let user = User {
            id: id,
            name: String::from_str(name),
            prompt: Some(String::from_str(prompt)),
        };
        self.users.push(user.duplicate());
        self.summaries.push(None);
        assert(self@.users =~= before.with_new_user(name@, prompt@).users);
        assert(self@.summaries =~= before.with_new_user(name@, prompt@).summaries);
        Ok(user)
    }

    /// Looks a user up by id.
    pub fn get_user_by_id(&self, user_id: i32) -> (r: Option<User>)
        requires
            self@.wf(),
        ensures
            match r {
                Some(u) => self@.has_user(user_id as int) && u@ == self@.user(user_id as int),
                None => !self@.has_user(user_id as int),
            },
    {
        if 1 <= user_id && user_id as usize <= self.users.len() {
            let i = (user_id - 1) as usize;
            assert(self@.users[i as int] == self.users@[i as int]@);
            Some(self.users[i].duplicate())
        } else {
            None
        }
    }

    /// Looks a user up by name.
    pub fn get_user_by_name(&self, name: &str) -> (r: Option<User>)
        requires
            self@.wf(),
        ensures
            match r {
                Some(u) => self@.has_user(u.id as int) && u@ == self@.user(u.id as int)
                    && u@.name == name@,
                None => !self@.has_name(name@),
            },
    {
        match self.find_name(name) {
            Some(i) => {
                assert(self@.users[i as int] == self.users@[i as int]@);
                assert(self@.users[i as int].id == i + 1);
                Some(self.users[i].duplicate())
            },
            None => None,
        }
    }

    /// Returns the user with this name, creating it with the given persona when
    /// absent. An existing user is returned unchanged.
    pub fn get_or_create_user(&mut self, name: &str, default_prompt: &str) -> (r: Result<
        User,
        StoreError,
    >)
        requires
            old(self)@.wf(),
        ensures
            final(self)@.wf(),
            old(self)@.has_name(name@) ==> final(self)@ == old(self)@ && r is Ok
                && old(self)@.has_user(r->Ok_0.id as int) && r->Ok_0@ == old(self)@.user(
                r->Ok_0.id as int,
            ) && r->Ok_0@.name == name@,
            !old(self)@.has_name(name@) && old(self)@.users.len() == i32::MAX ==> r == Err::<
                User,
                StoreError,
            >(StoreError::Exhausted) && final(self)@ == old(self)@,
            !old(self)@.has_name(name@) && old(self)@.users.len() < i32::MAX ==> r is Ok
                && final(self)@ == old(self)@.with_new_user(name@, default_prompt@) && r->Ok_0@
                == final(self)@.users.last(),
    {
        if let Some(u) = self.get_user_by_name(name) {
            return Ok(u);
        }
        match self.create_user(name, default_prompt) {
            Ok(u) => Ok(u),
            Err(StoreError::Conflict) => match self.get_user_by_name(name) {
                Some(u) => Ok(u),
                None => Err(StoreError::Conflict),
            },
            Err(e) => Err(e),
        }
    }

    /// Replaces a user's persona; false when no user has this id.
    pub fn update_user_prompt(&mut self, user_id: i32, new_prompt: &str) -> (r: bool)
        requires
            old(self)@.wf(),
        ensures
            final(self)@.wf(),
            r == old(self)@.has_user(user_id as int),
            !r ==> final(self)@ == old(self)@,
            r ==> final(self)@ == (StoreView {
                users: old(self)@.users.update(
                    user_id - 1,
                    UserView { prompt: Some(new_prompt@), ..old(self)@.user(user_id as int) },
                ),
                summaries: old(self)@.summaries,
            }),
    {
        if 1 <= user_id && user_id as usize <= self.users.len() {
            let ghost before = self@;
            let i = (user_id - 1) as usize;
            let u = User {
                id: self.users[i].id,
                name: self.users[i].name.clone(),
                prompt: Some(String::from_str(new_prompt)),
            };
            self.users.set(i, u);
            assert(self@.users =~= before.users.update(
                user_id - 1,
                UserView { prompt: Some(new_prompt@), ..before.user(user_id as int) },
            ));
            assert(self@.summaries =~= before.summaries);
            true
        } else {
            false
        }
    }

    /// The summary stored for a user, if any.
    pub fn get_conversation_summary(&self, user_id: i32) -> (r: Option<String>)
        requires
            self@.wf(),
        ensures
            opt_view(r) == self@.summary(user_id as int),
    {
        if 1 <= user_id && user_id as usize <= self.users.len() {
            let i = (user_id - 1) as usize;
            assert(self@.summaries[i as int] == opt_view(self.summaries@[i as int]));
            copy_opt(&self.summaries[i])
        } else {
            None
        }
    }

    /// The summary row of a user, present once a summary has been stored.
    pub fn get_conversation_summary_by_user_id(&self, user_id: i32) -> (r: Option<Conversation>)
        requires
            self@.wf(),
        ensures
            r is Some <==> self@.summary(user_id as int) is Some,
            r is Some ==> r->Some_0.user_id == user_id && opt_view(
                r->Some_0.conversation_summary,
            ) == self@.summary(user_id as int),
    {
        match self.get_conversation_summary(user_id) {
            Some(s) => Some(Conversation { user_id: user_id, conversation_summary: Some(s) }),
            None => None,
        }
    }

    /// Stores a user's summary, replacing any earlier one.
    pub fn update_conversation_summary(&mut self, user_id: i32, summary: &str) -> (r: Result<
        (),
        StoreError,
    >)
        requires
            old(self)@.wf(),
        ensures
            final(self)@.wf(),
            !old(self)@.has_user(user_id as int) ==> r == Err::<(), StoreError>(
                StoreError::MissingUser,
            ) && final(self)@ == old(self)@,
            old(self)@.has_user(user_id as int) ==> r is Ok && final(self)@ == old(self)@.with_summary(
                user_id as int,
                summary@,
            ),
    {
        if 1 <= user_id && user_id as usize <= self.users.len() {
            let ghost before = self@;
            let i = (user_id - 1) as usize;
            self.summaries.set(i, Some(String::from_str(summary)));
            assert(self@.summaries =~= before.summaries.update(user_id - 1, Some(summary@)));
            assert(self@.users =~= before.users);
            Ok(())
        } else {
            Err(StoreError::MissingUser)
        }
    }
}

} // verus!
