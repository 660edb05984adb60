//! Login sessions: requested with a challenge, activated by a signature over
//! it, valid until they expire or are logged out.

use vstd::prelude::*;
use crate::error::{DatabaseError, SessionError, SmError, UserError};
use crate::model::{Session, CHALLENGE_LENGTH, LATEST_INSTANT, SESSION_LIFETIME};
use crate::services::{is_alphanumeric, new_challenge};
use crate::users::{user_with_id, UserRepository};

verus! {

/// The session with identifier `id` among `sessions`, if any.
pub open spec fn session_with_id(sessions: Seq<Session>, id: u128) -> Option<Session> {
    if exists|i: int| 0 <= i < sessions.len() && sessions[i].session_id == id {
        Some(sessions[choose|i: int| 0 <= i < sessions.len() && sessions[i].session_id == id])
    } else {
        None
    }
}

/// A session challenge: 24 ASCII letters and digits.
pub open spec fn valid_challenge(c: Seq<char>) -> bool {
    c.len() == CHALLENGE_LENGTH && forall|i: int| 0 <= i < c.len() ==> is_alphanumeric(#[trigger] c[i])
}

/// No two sessions share an identifier.
pub open spec fn sessions_unique(sessions: Seq<Session>) -> bool {
    forall|i: int, j: int|
        0 <= i < sessions.len() && 0 <= j < sessions.len() && i != j ==> sessions[i].session_id
            != sessions[j].session_id
}

/// A session is live at `now` while it has not expired, and, unless inactive
/// sessions are asked for too, only once it is active.
pub open spec fn session_live(s: Session, include_inactive: bool, now: i64) -> bool {
    (s.active || include_inactive) && now < s.expires_at_utc
}

/// What `get_session` finds.
pub open spec fn live_session(
    sessions: Seq<Session>,
    id: u128,
    include_inactive: bool,
    now: i64,
) -> Option<Session> {
    match session_with_id(sessions, id) {
        Some(s) => if session_live(s, include_inactive, now) {
            Some(s)
        } else {
            None
        },
        None => None,
    }
}

/// A session just requested by `user_id` at `now`.
pub open spec fn new_session(session_id: u128, user_id: u128, challenge: String, now: i64) -> Session {
    Session {
        session_id,
        user_id,
        active: false,
        challenge_string: challenge,
        requested_at_utc: now,
        activated_at_utc: None,
        expires_at_utc: (now + SESSION_LIFETIME) as i64,
    }
}

pub open spec fn with_activity(s: Session, active: bool, activated_at: Option<i64>) -> Session {
    Session {
        session_id: s.session_id,
        user_id: s.user_id,
        active,
        challenge_string: s.challenge_string,
        requested_at_utc: s.requested_at_utc,
        activated_at_utc: activated_at,
        expires_at_utc: s.expires_at_utc,
    }
}

/// The sessions after `id` was activated at `now`.
pub open spec fn sessions_activated(sessions: Seq<Session>, id: u128, now: i64) -> Seq<Session> {
    sessions.map_values(
        |s: Session|
            if s.session_id == id {
                with_activity(s, true, Some(now))
            } else {
                s
            },
    )
}

/// The sessions after `id` was logged out.
pub open spec fn sessions_logged_out(sessions: Seq<Session>, id: u128) -> Seq<Session> {
    sessions.map_values(
        |s: Session|
            if s.session_id == id {
                with_activity(s, false, s.activated_at_utc)
            } else {
                s
            },
    )
}

/// The sessions that the broker has handed out.
pub struct SessionRepository {
    sessions: Vec<Session>,
}

impl View for SessionRepository {
    type V = Seq<Session>;

    closed spec fn view(&self) -> Seq<Session> {
        self.sessions@
    }
}

impl SessionRepository {
    pub open spec fn wf(&self) -> bool {
        sessions_unique(self@)
    }

    pub fn new() -> (r: SessionRepository)
        ensures
            r.wf(),
            r@ == Seq::<Session>::empty(),
    {
        SessionRepository { sessions: Vec::new() }
    }

    fn index_of(&self, id: u128) -> (r: Option<usize>)
        requires
            self.wf(),
        ensures
            match r {
                Some(i) => i < self@.len() && self@[i as int].session_id == id
                    && session_with_id(self@, id) == Some(self@[i as int]),
                None => session_with_id(self@, id) is None,
            },
    {
        let mut i: usize = 0;
        while i < self.sessions.len()
            invariant
                i <= self@.len(),
                self.wf(),
                forall|k: int| 0 <= k < i ==> self@[k].session_id != id,
            decreases self@.len() - i,
        {
            if self.sessions[i].session_id == id {
                assert(self@[i as int].session_id == id);
                let ghost c = choose|k: int| 0 <= k < self@.len() && self@[k].session_id == id;
                assert(c == i as int);
                return Some(i);
            }
            i = i + 1;
        }
        None
    }

    /// Opens a session `session_id` for `user_id` with a freshly drawn
    /// challenge of 24 ASCII letters and digits, expiring two hours after
    /// `now`. A user that does not exist is `UserNotFound`; a taken session
    /// identifier is a database fault.
    pub fn request_session(
        &mut self,
        users: &UserRepository,
        user_id: u128,
        session_id: u128,
        now: i64,
    ) -> (r: Result<Session, SmError>)
        requires
            old(self).wf(),
            users.wf(),
            now <= LATEST_INSTANT,
        ensures
            final(self).wf(),
            user_with_id(users@, user_id) is None ==> r == Err::<Session, SmError>(
                SmError::User(UserError::UserNotFound),
            ),
            user_with_id(users@, user_id) is Some && session_with_id(old(self)@, session_id) is Some
                ==> r == Err::<Session, SmError>(SmError::Database(DatabaseError::Arbitrary)),
            r is Err ==> final(self)@ == old(self)@,
            user_with_id(users@, user_id) is Some && session_with_id(old(self)@, session_id) is None
                ==> (r matches Ok(s) && s == new_session(session_id, user_id, s.challenge_string, now)
                && final(self)@ == old(self)@.push(s)),
            r matches Ok(s) ==> valid_challenge(s.challenge_string@),
    {
        let challenge = new_challenge();
        self.request_session_with_challenge(users, user_id, session_id, challenge, now)
    }

    /// Opens a session `session_id` for `user_id` with the given challenge,
    /// expiring two hours after `now`. A user that does not exist is
    /// `UserNotFound`; a taken session identifier is a database fault.
    pub fn request_session_with_challenge(
        &mut self,
        users: &UserRepository,
        user_id: u128,
        session_id: u128,
        challenge_string: String,
        now: i64,
    ) -> (r: Result<Session, SmError>)
        requires
            old(self).wf(),
            users.wf(),
            now <= LATEST_INSTANT,
        ensures
            final(self).wf(),
            user_with_id(users@, user_id) is None ==> r == Err::<Session, SmError>(
                SmError::User(UserError::UserNotFound),
            ) && final(self)@ == old(self)@,
            user_with_id(users@, user_id) is Some && session_with_id(old(self)@, session_id) is Some
                ==> r == Err::<Session, SmError>(SmError::Database(DatabaseError::Arbitrary))
                && final(self)@ == old(self)@,
            user_with_id(users@, user_id) is Some && session_with_id(old(self)@, session_id) is None
                ==> {
                let s = new_session(session_id, user_id, challenge_string, now);
                &&& r == Ok::<Session, SmError>(s)
                &&& final(self)@ == old(self)@.push(s)
            },
    {
        if users.find_by_id(user_id).is_none() {
            return Err(SmError::User(UserError::UserNotFound));
        }
        if self.index_of(session_id).is_some() {
            return Err(SmError::Database(DatabaseError::Arbitrary));
        }
        let session = Session {
            session_id,
            user_id,
            active: false,
            challenge_string,
            requested_at_utc: now,
            activated_at_utc: None,
            expires_at_utc: now + SESSION_LIFETIME,
        };
        let copy = session.duplicate();
        proof {
            assert forall|k: int| 0 <= k < self@.len() implies self@[k].session_id
                != session_id by {
                if self@[k].session_id == session_id {
                    assert(session_with_id(self@, session_id) is Some);
                }
            }
        }
        self.sessions.push(session);
        Ok(copy)
    }

    /// Activates session `session_id` at `now`, unless it is unknown or has
    /// expired (`SessionNotFound`).
    pub fn activate_session(&mut self, session_id: u128, now: i64) -> (r: Result<(), SmError>)
        requires
            old(self).wf(),
        ensures
            final(self).wf(),
            live_session(old(self)@, session_id, true, now) is None ==> r == Err::<(), SmError>(
                SmError::Session(SessionError::SessionNotFound),
            ) && final(self)@ == old(self)@,
            live_session(old(self)@, session_id, true, now) is Some ==> r is Ok && final(self)@
                == sessions_activated(old(self)@, session_id, now),
    {
        match self.index_of(session_id) {
            None => Err(SmError::Session(SessionError::SessionNotFound)),
            Some(i) => {
                if !(now < self.sessions[i].expires_at_utc) {
                    return Err(SmError::Session(SessionError::SessionNotFound));
                }
                let old_session = self.sessions[i].duplicate();
                let updated = Session {
                    session_id: old_session.session_id,
                    user_id: old_session.user_id,
                    active: true,
                    challenge_string: old_session.challenge_string,
                    requested_at_utc: old_session.requested_at_utc,
                    activated_at_utc: Some(now),
                    expires_at_utc: old_session.expires_at_utc,
                };
                let ghost before = self@;
                self.sessions.set(i, updated);
                proof {
                    assert forall|k: int| 0 <= k < before.len() implies #[trigger] self@[k] == (
                    if before[k].session_id == session_id {
                        with_activity(before[k], true, Some(now))
                    } else {
                        before[k]
                    }) by {
                        if k != i && before[k].session_id == session_id {
                            assert(before[i as int].session_id == session_id);
                        }
                    }
                    assert(self@ =~= sessions_activated(before, session_id, now));
                }
                Ok(())
            },
        }
    }

    /// The session `session_id` if it is live at `now`.
    pub fn get_session(&self, session_id: u128, include_inactive: bool, now: i64) -> (r: Option<
        Session,
    >)
        requires
            self.wf(),
        ensures
            r == live_session(self@, session_id, include_inactive, now),
    {
        match self.index_of(session_id) {
            None => None,
            Some(i) => {
                let s = &self.sessions[i];
                if (s.active || include_inactive) && now < s.expires_at_utc {
                    Some(s.duplicate())
                } else {
                    None
                }
            },
        }
    }

    /// Marks session `session_id` inactive; an unknown session is left alone.
    pub fn logout_session(&mut self, session_id: u128) -> (r: Result<(), SmError>)
        requires
            old(self).wf(),
        ensures
            final(self).wf(),
            r is Ok,
            final(self)@ == sessions_logged_out(old(self)@, session_id),
    {
        let ghost before = self@;
        match self.index_of(session_id) {
            None => {
                proof {
                    assert forall|k: int| 0 <= k < before.len() implies before[k].session_id
                        != session_id by {
                        if before[k].session_id == session_id {
                            assert(session_with_id(before, session_id) is Some);
                        }
                    }
                    assert(self@ =~= sessions_logged_out(before, session_id));
                }
                Ok(())
            },
            Some(i) => {
                let old_session = self.sessions[i].duplicate();
                let updated = Session {
                    session_id: old_session.session_id,
                    user_id: old_session.user_id,
                    active: false,
                    challenge_string: old_session.challenge_string,
                    requested_at_utc: old_session.requested_at_utc,
                    activated_at_utc: old_session.activated_at_utc,
                    expires_at_utc: old_session.expires_at_utc,
                };
                self.sessions.set(i, updated);
                proof {
                    assert forall|k: int| 0 <= k < before.len() implies #[trigger] self@[k] == (
                    if before[k].session_id == session_id {
                        with_activity(before[k], false, before[k].activated_at_utc)
                    } else {
                        before[k]
                    }) by {
                        if k != i && before[k].session_id == session_id {
                            assert(before[i as int].session_id == session_id);
                        }
                    }
                    assert(self@ =~= sessions_logged_out(before, session_id));
                }
                Ok(())
            },
        }
    }
}

} // verus!
