//! Registered users: unique by identifier and by username, immutable once
//! created.

use vstd::prelude::*;
use crate::error::{DatabaseError, SmError, UserError};
use crate::model::User;

verus! {

/// The user with identifier `id` among `users`, if any.
pub open spec fn user_with_id(users: Seq<User>, id: u128) -> Option<User> {
    if exists|i: int| 0 <= i < users.len() && users[i].id == id {
        Some(users[choose|i: int| 0 <= i < users.len() && users[i].id == id])
    } else {
        None
    }
}

/// The user named `name` among `users`, if any.
pub open spec fn user_named(users: Seq<User>, name: Seq<char>) -> Option<User> {
    if exists|i: int| 0 <= i < users.len() && users[i].username@ == name {
        Some(users[choose|i: int| 0 <= i < users.len() && users[i].username@ == name])
    } else {
        None
    }
}

/// No two users share an identifier or a username.
pub open spec fn users_unique(users: Seq<User>) -> bool {
    forall|i: int, j: int|
        0 <= i < users.len() && 0 <= j < users.len() && i != j ==> {
            &&& users[i].id != users[j].id
            &&& users[i].username@ != users[j].username@
        }
}

/// The users known to the broker.
pub struct UserRepository {
    users: Vec<User>,
}

impl View for UserRepository {
    type V = Seq<User>;

    closed spec fn view(&self) -> Seq<User> {
        self.users@
    }
}

impl UserRepository {
    pub open spec fn wf(&self) -> bool {
        users_unique(self@)
    }

    pub fn new() -> (r: UserRepository)
        ensures
            r.wf(),
            r@ == Seq::<User>::empty(),
    {
        UserRepository { users: Vec::new() }
    }

    fn index_of_id(&self, id: u128) -> (r: Option<usize>)
        requires
            self.wf(),
        ensures
            match r {
                Some(i) => i < self@.len() && self@[i as int].id == id
                    && user_with_id(self@, id) == Some(self@[i as int]),
                None => user_with_id(self@, id) is None,
            },
    {
        let mut i: usize = 0;
        while i < self.users.len()
            invariant
                i <= self@.len(),
                self.wf(),
                forall|k: int| 0 <= k < i ==> self@[k].id != id,
            decreases self@.len() - i,
        {
            if self.users[i].id == id {
                assert(self@[i as int].id == id);
                let ghost c = choose|k: int| 0 <= k < self@.len() && self@[k].id == id;
                assert(c == i as int);
                return Some(i);
            }
            i = i + 1;
        }
        None
    }

    fn index_of_name(&self, name: &String) -> (r: Option<usize>)
        requires
            self.wf(),
        ensures
            match r {
                Some(i) => i < self@.len() && self@[i as int].username@ == name@
                    && user_named(self@, name@) == Some(self@[i as int]),
                None => user_named(self@, name@) is None,
            },
    {
        let mut i: usize = 0;
        while i < self.users.len()
            invariant
                i <= self@.len(),
                self.wf(),
                forall|k: int| 0 <= k < i ==> self@[k].username@ != name@,
            decreases self@.len() - i,
        {
            if self.users[i].username.eq(name) {
                assert(self@[i as int].username@ == name@);
                let ghost c = choose|k: int| 0 <= k < self@.len() && self@[k].username@ == name@;
                assert(c == i as int);
                return Some(i);
            }
            i = i + 1;
        }
        None
    }

    /// Registers a user under the identifier `id`. A taken username is
    /// `UserAlreadyExists`; a taken identifier is a database fault.
    pub fn create(
        &mut self,
        id: u128,
        username: String,
        public_encryption_key: String,
        public_verify_key: String,
    ) -> (r: Result<User, SmError>)
        requires
            old(self).wf(),
        ensures
            final(self).wf(),
            user_named(old(self)@, username@) is Some ==> r == Err::<User, SmError>(
                SmError::User(UserError::UserAlreadyExists),
            ) && final(self)@ == old(self)@,
            user_named(old(self)@, username@) is None && user_with_id(old(self)@, id) is Some ==> r
                == Err::<User, SmError>(SmError::Database(DatabaseError::Arbitrary))
                && final(self)@ == old(self)@,
            user_named(old(self)@, username@) is None && user_with_id(old(self)@, id) is None ==> {
                let u = User { id, username, public_encryption_key, public_verify_key };
                &&& r == Ok::<User, SmError>(u)
                &&& final(self)@ == old(self)@.push(u)
            },
    {
        if self.index_of_name(&username).is_some() {
            return Err(SmError::User(UserError::UserAlreadyExists));
        }
        if self.index_of_id(id).is_some() {
            return Err(SmError::Database(DatabaseError::Arbitrary));
        }
        let user = User { id, username, public_encryption_key, public_verify_key };
        let copy = user.duplicate();
        proof {
            assert forall|k: int| 0 <= k < self@.len() implies self@[k].id != id
                && self@[k].username@ != user.username@ by {
                if self@[k].id == id {
                    assert(user_with_id(self@, id) is Some);
                }
                if self@[k].username@ == user.username@ {
                    assert(user_named(self@, user.username@) is Some);
                }
            }
        }
        self.users.push(user);
        Ok(copy)
    }

    pub fn find_by_username(&self, username: &String) -> (r: Option<User>)
        requires
            self.wf(),
        ensures
            r == user_named(self@, username@),
    {
        match self.index_of_name(username) {
            Some(i) => Some(self.users[i].duplicate()),
            None => None,
        }
    }

    pub fn find_by_id(&self, id: u128) -> (r: Option<User>)
        requires
            self.wf(),
        ensures
            r == user_with_id(self@, id),
    {
        match self.index_of_id(id) {
            Some(i) => Some(self.users[i].duplicate()),
            None => None,
        }
    }
}

} // verus!
