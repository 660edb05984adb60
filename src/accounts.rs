//! Registration, the challenge-response login, and resolving a bearer
//! session to its user.

use vstd::prelude::*;
use vstd::string::*;
use crate::error::{CryptographyError, DatabaseError, SessionError, SmError, UserError, ValidationError};
use crate::model::{Session, User, LATEST_INSTANT};
use crate::services::{
    is_alphanumeric, signature_valid, valid_public_key, CryptographyService,
};
use crate::sessions::{
    valid_challenge, live_session, new_session, session_with_id, sessions_activated, SessionRepository,
};
use crate::users::{user_named, user_with_id, UserRepository};

verus! {

/// Validation of values of type `T` before they are acted on.
pub trait Validate<T> {
    spec fn accepts(&self, value: &T) -> bool;

    fn validate(&self, value: &T) -> (r: Result<(), ValidationError>)
        ensures
            r is Ok <==> self.accepts(value),
    ;
}

pub open spec fn is_username_char(c: char) -> bool {
    is_alphanumeric(c) || c == '_' || c == '-'
}

/// A username has at least three characters, each an ASCII letter or digit,
/// `_` or `-`.
pub open spec fn valid_username(name: Seq<char>) -> bool {
    name.len() >= 3 && forall|i: int| 0 <= i < name.len() ==> is_username_char(#[trigger] name[i])
}

/// Registration of a user with their two public keys.
pub struct RegisterUserCommand {
    pub username: String,
    pub public_encryption_key: String,
    pub public_verify_key: String,
}

impl RegisterUserCommand {
    /// Registers the user under identifier `id`; see `UserRepository::create`.
    pub fn handle(self, user_repository: &mut UserRepository, id: u128) -> (r: Result<User, SmError>)
        requires
            old(user_repository).wf(),
        ensures
            final(user_repository).wf(),
            user_named(old(user_repository)@, self.username@) is Some ==> r == Err::<User, SmError>(
                SmError::User(UserError::UserAlreadyExists),
            ),
            user_named(old(user_repository)@, self.username@) is None && user_with_id(
                old(user_repository)@,
                id,
            ) is Some ==> r == Err::<User, SmError>(SmError::Database(DatabaseError::Arbitrary)),
            r is Err ==> final(user_repository)@ == old(user_repository)@,
            user_named(old(user_repository)@, self.username@) is None && user_with_id(
                old(user_repository)@,
                id,
            ) is None ==> {
                let u = User {
                    id,
                    username: self.username,
                    public_encryption_key: self.public_encryption_key,
                    public_verify_key: self.public_verify_key,
                };
                &&& r == Ok::<User, SmError>(u)
                &&& final(user_repository)@ == old(user_repository)@.push(u)
            },
    {
        user_repository.create(id, self.username, self.public_encryption_key, self.public_verify_key)
    }
}

/// Checks registrations: a valid username, and a public encryption key that is base64 DER
/// RSA keys.
pub struct UserCommandValidator<'a, CS: CryptographyService>(pub &'a CS);

/// Whether `name` is a valid username.
pub fn is_valid_username(name: &str) -> (r: bool)
    ensures
        r == valid_username(name@),
{
    let n = name.unicode_len();
    if n < 3 {
        return false;
    }
    let mut i: usize = 0;
    while i < n
        invariant
            n == name@.len(),
            i <= n,
            forall|k: int| 0 <= k < i ==> is_username_char(#[trigger] name@[k]),
        decreases n - i,
    {
        let c = name.get_char(i);
        let ok = ('a' <= c && c <= 'z') || ('A' <= c && c <= 'Z') || ('0' <= c && c <= '9') || c
            == '_' || c == '-';
        if !ok {
            return false;
        }
        i = i + 1;
    }
    true
}

impl<'a, CS: CryptographyService> Validate<RegisterUserCommand> for UserCommandValidator<'a, CS> {
    open spec fn accepts(&self, value: &RegisterUserCommand) -> bool {
        &&& valid_username(value.username@)
        &&& valid_public_key(value.public_encryption_key@)
    }

    fn validate(&self, value: &RegisterUserCommand) -> (r: Result<(), ValidationError>) {
        if !is_valid_username(value.username.as_str()) {
            return Err(
                ValidationError(
                    String::from_str(
                        "Username must be at least 3 characters long and contain only ASCII letters, numbers, underscores, and hyphens",
                    ),
                ),
            );
        }
        if !self.0.validate_public_key(value.public_encryption_key.as_str()) {
            return Err(ValidationError(String::from_str("Not a valid base64 SPKI public key")));
        }
        Ok(())
    }
}

/// The first step of login: a challenge for the named user to sign.
pub struct RequestSessionCommand {
    pub username: String,
}

impl RequestSessionCommand {
    /// Opens session `session_id` for the named user, with a freshly drawn
    /// challenge of 24 ASCII letters and digits; an unknown username is
    /// `InvalidCredentials`.
    pub fn handle(
        self,
        user_repository: &UserRepository,
        session_repository: &mut SessionRepository,
        session_id: u128,
        now: i64,
    ) -> (r: Result<Session, SmError>)
        requires
            user_repository.wf(),
            old(session_repository).wf(),
            now <= LATEST_INSTANT,
        ensures
            final(session_repository).wf(),
            user_named(user_repository@, self.username@) is None ==> r == Err::<Session, SmError>(
                SmError::User(UserError::InvalidCredentials),
            ),
            session_with_id(old(session_repository)@, session_id) is Some ==> r is Err,
            r is Err ==> final(session_repository)@ == old(session_repository)@,
            user_named(user_repository@, self.username@) is Some && session_with_id(
                old(session_repository)@,
                session_id,
            ) is None ==> {
                let u = user_named(user_repository@, self.username@).unwrap();
                r matches Ok(s) && s == new_session(session_id, u.id, s.challenge_string, now)
                    && final(session_repository)@ == old(session_repository)@.push(s)
            },
            r matches Ok(s) ==> valid_challenge(s.challenge_string@),
    {
        let user = match user_repository.find_by_username(&self.username) {
            Some(u) => u,
            None => return Err(SmError::User(UserError::InvalidCredentials)),
        };
        proof {
            let j = choose|j: int|
                0 <= j < user_repository@.len() && user_repository@[j].username@ == self.username@;
        }
        session_repository.request_session(user_repository, user.id, session_id, now)
    }
}

/// The second step of login: the signature of the session's challenge.
pub struct ActivateSessionCommand {
    pub session_id: u128,
    pub challenge_signature: String,
}

impl ActivateSessionCommand {
    /// Whether activation succeeds: the session is unexpired, its user is
    /// known, and the signature verifies over its challenge under the user's
    /// verify key.
    pub open spec fn succeeds(self, users: Seq<User>, sessions: Seq<Session>, now: i64) -> bool {
        match live_session(sessions, self.session_id, true, now) {
            None => false,
            Some(s) => match user_with_id(users, s.user_id) {
                None => false,
                Some(u) => signature_valid(
                    s.challenge_string@,
                    self.challenge_signature@,
                    u.public_verify_key@,
                ),
            },
        }
    }

    /// Activates the session at `now` if the challenge signature verifies. An
    /// unknown or expired session is `SessionNotFound`, a missing user
    /// `UserNotFound`, a signature that does not verify `InvalidSignature`.
    pub fn handle<CS: CryptographyService>(
        self,
        user_repository: &UserRepository,
        session_repository: &mut SessionRepository,
        cryptography_service: &CS,
        now: i64,
    ) -> (r: Result<(), SmError>)
        requires
            user_repository.wf(),
            old(session_repository).wf(),
        ensures
            final(session_repository).wf(),
            r is Ok <==> self.succeeds(user_repository@, old(session_repository)@, now),
            r is Ok ==> final(session_repository)@ == sessions_activated(
                old(session_repository)@,
                self.session_id,
                now,
            ),
            r is Err ==> final(session_repository)@ == old(session_repository)@,
            live_session(old(session_repository)@, self.session_id, true, now) is None ==> r
                == Err::<(), SmError>(SmError::Session(SessionError::SessionNotFound)),
            live_session(old(session_repository)@, self.session_id, true, now) matches Some(s)
                && user_with_id(user_repository@, s.user_id) is None ==> r == Err::<(), SmError>(
                SmError::User(UserError::UserNotFound),
            ),
            r is Err ==> (live_session(old(session_repository)@, self.session_id, true, now) matches Some(s)
                ==> (user_with_id(user_repository@, s.user_id) is Some ==> r == Err::<(), SmError>(
                SmError::Cryptography(CryptographyError::InvalidSignature),
            ))),
    {
        let session = match session_repository.get_session(self.session_id, true, now) {
            Some(s) => s,
            None => return Err(SmError::Session(SessionError::SessionNotFound)),
        };
        let user = match user_repository.find_by_id(session.user_id) {
            Some(u) => u,
            None => return Err(SmError::User(UserError::UserNotFound)),
        };
        if !cryptography_service.validate_signature(
            session.challenge_string.as_str(),
            self.challenge_signature.as_str(),
            user.public_verify_key.as_str(),
        ) {
            return Err(SmError::Cryptography(CryptographyError::InvalidSignature));
        }
        session_repository.activate_session(self.session_id, now)
    }
}

/// What authenticating bearer session `session_id` at `now` gives: the
/// session's user while the session is active and unexpired, else
/// `SessionNotFound`. A live session whose user is missing is a fault.
pub open spec fn authenticated_user(
    users: Seq<User>,
    sessions: Seq<Session>,
    session_id: u128,
    now: i64,
) -> Result<User, SmError> {
    match live_session(sessions, session_id, false, now) {
        None => Err(SmError::Session(SessionError::SessionNotFound)),
        Some(s) => match user_with_id(users, s.user_id) {
            Some(u) => Ok(u),
            None => Err(SmError::Database(DatabaseError::Arbitrary)),
        },
    }
}

/// The user that a bearer session belongs to.
pub struct GetUserBySessionQuery {
    pub session: u128,
}

impl GetUserBySessionQuery {
    pub fn handle(
        self,
        user_repository: &UserRepository,
        session_repository: &SessionRepository,
        now: i64,
    ) -> (r: Result<User, SmError>)
        requires
            user_repository.wf(),
            session_repository.wf(),
        ensures
            r == authenticated_user(user_repository@, session_repository@, self.session, now),
    {
        let session = match session_repository.get_session(self.session, false, now) {
            Some(s) => s,
            None => return Err(SmError::Session(SessionError::SessionNotFound)),
        };
        match user_repository.find_by_id(session.user_id) {
            Some(u) => Ok(u),
            None => Err(SmError::Database(DatabaseError::Arbitrary)),
        }
    }
}

/// A user looked up by username.
pub struct GetUserByUsernameQuery {
    pub username: String,
}

impl GetUserByUsernameQuery {
    pub fn handle(self, user_repository: &UserRepository) -> (r: Result<Option<User>, SmError>)
        requires
            user_repository.wf(),
        ensures
            r == Ok::<Option<User>, SmError>(user_named(user_repository@, self.username@)),
    {
        Ok(user_repository.find_by_username(&self.username))
    }
}

/// A user looked up by identifier.
pub struct GetUserByIdQuery {
    pub user_id: u128,
}

impl GetUserByIdQuery {
    pub fn handle(self, user_repository: &UserRepository) -> (r: Result<Option<User>, SmError>)
        requires
            user_repository.wf(),
        ensures
            r == Ok::<Option<User>, SmError>(user_with_id(user_repository@, self.user_id)),
    {
        Ok(user_repository.find_by_id(self.user_id))
    }
}

} // verus!
