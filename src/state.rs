//! The broker's state as one value, with one operation per endpoint, and the
//! resolution of a request's bearer session.

use vstd::prelude::*;
use vstd::string::*;
use crate::accounts::{
    authenticated_user, ActivateSessionCommand, GetUserBySessionQuery, GetUserByUsernameQuery,
    RegisterUserCommand, RequestSessionCommand, UserCommandValidator, Validate,
};
use crate::error::{ApiError, DatabaseError, SmError, StampError, UserError};
use crate::laws::{lemma_spending_spends, lemma_spent_stays_spent};
use crate::mail::{
    stored_message, GetAllMessagesForUserQuery, GetMessageByIdQuery, SendMessageWithOnetimeStampCommand,
    SendMessageWithPeriodicStampCommand,
};
use crate::messages::{listing, message_of, MessageRepository};
use crate::model::{
    Message, OneTimeStampTracker, OnetimeStamp, PeriodicStamp, Session, User,
    BASE_STAMP_DIFFICULTY, LATEST_INSTANT, ONETIME_STAMP_LIFETIME, SYSTEM_ISSUER,
};
use crate::services::{
    is_base64_text, work_score, parse_identifier, parsed_uuid, BcryptPasswordService, JsonService, OpensslCryptographyService,
    ProofOfWork,
};
use crate::sessions::{
    live_session, new_session, session_with_id, sessions_activated, valid_challenge,
    SessionRepository,
};
use crate::stamps::{issue_refusal, IssueSystemStampCommand, RequestSystemStampIssueCommand};
use crate::tracking::{
    request_with_id, requests_solved, stamp_spent, OneTimeStampTrackerRepository, StampRequestRepository,
    SystemKeyRepository,
};
use crate::users::{user_named, user_with_id, UserRepository};

verus! {

/// Why a request's bearer session did not resolve to a user.
#[derive(Debug, Clone, Copy, PartialEq, Eq, Structural)]
pub enum AuthRejection {
    MissingHeader,
    InvalidHeader,
    InvalidSessionId,
    InvalidSession,
    ServerError,
}

/// The text that reports a rejected bearer session.
pub open spec fn auth_rejection_text(e: AuthRejection) -> Seq<char> {
    match e {
        AuthRejection::MissingHeader => "Missing authorization header"@,
        AuthRejection::InvalidHeader => "Invalid authorization header"@,
        AuthRejection::InvalidSessionId => "Invalid session ID"@,
        AuthRejection::InvalidSession => "Invalid session"@,
        AuthRejection::ServerError => "Server error"@,
    }
}

impl AuthRejection {
    pub fn status_code(&self) -> (r: u16)
        ensures
            *self == AuthRejection::ServerError ==> r == 500,
            *self != AuthRejection::ServerError ==> r == 401,
    {
        match self {
            AuthRejection::ServerError => 500,
            _ => 401,
        }
    }

    pub fn message(&self) -> (r: String)
        ensures
            r@ == auth_rejection_text(*self),
    {
        match self {
            AuthRejection::MissingHeader => String::from_str("Missing authorization header"),
            AuthRejection::InvalidHeader => String::from_str("Invalid authorization header"),
            AuthRejection::InvalidSessionId => String::from_str("Invalid session ID"),
            AuthRejection::InvalidSession => String::from_str("Invalid session"),
            AuthRejection::ServerError => String::from_str("Server error"),
        }
    }
}

/// The token of an `Authorization` header of the form `Bearer <token>`.
pub open spec fn bearer_token(header: Seq<char>) -> Option<Seq<char>> {
    if header.len() >= 7 && header.subrange(0, 7) == seq!['B', 'e', 'a', 'r', 'e', 'r', ' '] {
        Some(header.subrange(7, header.len() as int))
    } else {
        None
    }
}

/// The token of a bearer `Authorization` header.
pub fn strip_bearer(header: &str) -> (r: Option<&str>)
    ensures
        match r {
            Some(t) => bearer_token(header@) == Some(t@),
            None => bearer_token(header@) is None,
        },
{
    let n = header.unicode_len();
    if n < 7 {
        return None;
    }
    let ok = header.get_char(0) == 'B' && header.get_char(1) == 'e' && header.get_char(2) == 'a'
        && header.get_char(3) == 'r' && header.get_char(4) == 'e' && header.get_char(5) == 'r'
        && header.get_char(6) == ' ';
    if !ok {
        assert(header@.subrange(0, 7) != seq!['B', 'e', 'a', 'r', 'e', 'r', ' ']) by {
            let p = header@.subrange(0, 7);
            assert(p[0] == header@[0] && p[1] == header@[1] && p[2] == header@[2] && p[3]
                == header@[3] && p[4] == header@[4] && p[5] == header@[5] && p[6] == header@[6]);
        }
        return None;
    }
    assert(header@.subrange(0, 7) =~= seq!['B', 'e', 'a', 'r', 'e', 'r', ' ']);
    Some(header.substring_char(7, n))
}

/// What resolving an `Authorization` header at `now` gives.
pub open spec fn auth_outcome(
    users: Seq<User>,
    sessions: Seq<Session>,
    header: Option<Seq<char>>,
    now: i64,
) -> Result<User, AuthRejection> {
    match header {
        None => Err(AuthRejection::MissingHeader),
        Some(h) => match bearer_token(h) {
            None => Err(AuthRejection::InvalidHeader),
            Some(t) => match parsed_uuid(t) {
                None => Err(AuthRejection::InvalidSessionId),
                Some(id) => match authenticated_user(users, sessions, id, now) {
                    Ok(u) => Ok(u),
                    Err(SmError::Session(_)) => Err(AuthRejection::InvalidSession),
                    Err(_) => Err(AuthRejection::ServerError),
                },
            },
        },
    }
}

/// Every session belongs to a registered user.
pub open spec fn sessions_have_users(users: Seq<User>, sessions: Seq<Session>) -> bool {
    forall|i: int| 0 <= i < sessions.len() ==> #[trigger] user_with_id(users, sessions[i].user_id) is Some
}

/// The client on whose behalf a request acts, proved by a bearer session.
pub struct AuthUser(pub User);

/// A message to send under a one-time stamp; the sender is the client.
pub struct SendMessageWithOnetimeStampCommandDto {
    pub recipient_id: u128,
    pub content: String,
    pub metadata: String,
    pub signature: String,
    pub stamp: OnetimeStamp,
}

/// A message to send under a periodic stamp; the sender is the client,
/// whatever `sender_id` says.
pub struct SendMessageWithPeriodicStampCommandDto {
    pub sender_id: u128,
    pub recipient_id: u128,
    pub content: String,
    pub metadata: String,
    pub signature: String,
    pub stamp: PeriodicStamp,
}

/// A claim on a stamp request, with its proof of work.
pub struct IssueSystemStampCommandDto {
    pub stamp_request_id: u128,
    pub proof_of_work: ProofOfWork,
}

/// Everything the broker keeps, and the services it works with.
pub struct AppState {
    pub user_repository: UserRepository,
    pub session_repository: SessionRepository,
    pub message_repository: MessageRepository,
    pub tracker_repository: OneTimeStampTrackerRepository,
    pub stamp_request_repository: StampRequestRepository,
    pub system_key_repository: SystemKeyRepository,
    pub password_service: BcryptPasswordService,
    pub cryptography_service: OpensslCryptographyService,
    pub serialize_service: JsonService,
}

impl AppState {
    pub open spec fn wf(&self) -> bool {
        &&& self.user_repository.wf()
        &&& self.session_repository.wf()
        &&& self.message_repository.wf()
        &&& self.tracker_repository.wf()
        &&& self.stamp_request_repository.wf()
        &&& sessions_have_users(self.user_repository@, self.session_repository@)
    }

    /// An empty broker, without system keys yet.
    pub fn new() -> (r: AppState)
        ensures
            r.wf(),
            r.user_repository@.len() == 0,
            r.session_repository@.len() == 0,
            r.message_repository@.len() == 0,
            r.tracker_repository@.len() == 0,
            r.stamp_request_repository@.len() == 0,
            r.system_key_repository@ is None,
    {
        AppState {
            user_repository: UserRepository::new(),
            session_repository: SessionRepository::new(),
            message_repository: MessageRepository::new(),
            tracker_repository: OneTimeStampTrackerRepository::new(),
            stamp_request_repository: StampRequestRepository::new(),
            system_key_repository: SystemKeyRepository::new(),
            password_service: BcryptPasswordService,
            cryptography_service: OpensslCryptographyService,
            serialize_service: JsonService,
        }
    }

    /// Resolves the `Authorization` header of a request to its user.
    pub fn authenticate(&self, header: Option<&str>, now: i64) -> (r: Result<AuthUser, AuthRejection>)
        requires
            self.wf(),
        ensures
            match auth_outcome(
                self.user_repository@,
                self.session_repository@,
                match header {
                    Some(h) => Some(h@),
                    None => None,
                },
                now,
            ) {
                Ok(u) => r matches Ok(a) && a.0 == u,
                Err(e) => r matches Err(f) && f == e,
            },
            !(r matches Err(AuthRejection::ServerError)),
    {
        let header = match header {
            Some(h) => h,
            None => return Err(AuthRejection::MissingHeader),
        };
        let token = match strip_bearer(header) {
            Some(t) => t,
            None => return Err(AuthRejection::InvalidHeader),
        };
        let session_id = match parse_identifier(token) {
            Some(id) => id,
            None => return Err(AuthRejection::InvalidSessionId),
        };
        proof {
            if let Some(s) = live_session(self.session_repository@, session_id, false, now) {
                let i = choose|i: int|
                    0 <= i < self.session_repository@.len()
                        && self.session_repository@[i].session_id == session_id;
                assert(user_with_id(self.user_repository@, self.session_repository@[i].user_id) is Some);
            }
        }
        match (GetUserBySessionQuery { session: session_id }).handle(
            &self.user_repository,
            &self.session_repository,
            now,
        ) {
            Ok(u) => Ok(AuthUser(u)),
            Err(SmError::Session(_)) => Err(AuthRejection::InvalidSession),
            Err(_) => Err(AuthRejection::ServerError),
        }
    }

    /// `GET /user/:username`: the named user, or `UserNotFound`.
    pub fn get_user(&self, username: String) -> (r: Result<User, ApiError>)
        requires
            self.wf(),
        ensures
            match user_named(self.user_repository@, username@) {
                Some(u) => r matches Ok(v) && v == u,
                None => r matches Err(e) && e.0 == SmError::User(UserError::UserNotFound),
            },
    {
        match (GetUserByUsernameQuery { username }).handle(&self.user_repository) {
            Ok(Some(u)) => Ok(u),
            _ => Err(ApiError(SmError::User(UserError::UserNotFound))),
        }
    }

    /// `POST /user/register`: validates the registration, then registers it
    /// under the fresh identifier `id`.
    pub fn register_user(&mut self, command: RegisterUserCommand, id: u128) -> (r: Result<
        User,
        ApiError,
    >)
        requires
            old(self).wf(),
        ensures
            final(self).wf(),
            !(UserCommandValidator(&old(self).cryptography_service)).accepts(&command) ==> (r matches Err(e)
                && e.0 is Validation) && final(self).user_repository@ == old(self).user_repository@,
            r is Ok ==> (UserCommandValidator(&old(self).cryptography_service)).accepts(&command)
                && user_named(old(self).user_repository@, command.username@) is None,
            (UserCommandValidator(&old(self).cryptography_service)).accepts(&command) ==> {
                let u = User {
                    id,
                    username: command.username,
                    public_encryption_key: command.public_encryption_key,
                    public_verify_key: command.public_verify_key,
                };
                &&& user_named(old(self).user_repository@, command.username@) is Some ==> (r matches Err(e)
                    && e.0 == SmError::User(UserError::UserAlreadyExists))
                &&& user_named(old(self).user_repository@, command.username@) is None
                    && user_with_id(old(self).user_repository@, id) is Some ==> (r matches Err(e)
                    && e.0 == SmError::Database(DatabaseError::Arbitrary))
                &&& user_named(old(self).user_repository@, command.username@) is None
                    && user_with_id(old(self).user_repository@, id) is None ==> (r matches Ok(v)
                    && v == u && final(self).user_repository@ == old(self).user_repository@.push(u))
            },
            r is Err ==> final(self).user_repository@ == old(self).user_repository@,
            final(self).session_repository == old(self).session_repository,
            final(self).message_repository == old(self).message_repository,
            final(self).tracker_repository == old(self).tracker_repository,
            final(self).stamp_request_repository == old(self).stamp_request_repository,
            final(self).system_key_repository == old(self).system_key_repository,
    {
        let validator = UserCommandValidator(&self.cryptography_service);
        match validator.validate(&command) {
            Ok(()) => {},
            Err(e) => return Err(ApiError(SmError::Validation(e))),
        }
        let ghost users = self.user_repository@;
        match command.handle(&mut self.user_repository, id) {
            Ok(u) => {
                proof {
                    let sessions = self.session_repository@;
                    assert forall|i: int| 0 <= i < sessions.len() implies #[trigger] user_with_id(
                        self.user_repository@,
                        sessions[i].user_id,
                    ) is Some by {
                        assert(user_with_id(users, sessions[i].user_id) is Some);
                        let k = choose|k: int|
                            0 <= k < users.len() && users[k].id == sessions[i].user_id;
                        assert(self.user_repository@[k] == users[k]);
                    }
                }
                Ok(u)
            },
            Err(e) => Err(ApiError(e)),
        }
    }
    /// `POST /user/login`: a challenge for the named user, in session
    /// `session_id`; see `RequestSessionCommand::handle`.
    pub fn request_session(
        &mut self,
        command: RequestSessionCommand,
        session_id: u128,
        now: i64,
    ) -> (r: Result<Session, ApiError>)
        requires
            old(self).wf(),
            now <= LATEST_INSTANT,
        ensures
            final(self).wf(),
            user_named(old(self).user_repository@, command.username@) is None ==> (r matches Err(e)
                && e.0 == SmError::User(UserError::InvalidCredentials)),
            session_with_id(old(self).session_repository@, session_id) is Some ==> r is Err,
            user_named(old(self).user_repository@, command.username@) is Some && session_with_id(
                old(self).session_repository@,
                session_id,
            ) is None ==> {
                let u = user_named(old(self).user_repository@, command.username@).unwrap();
                r matches Ok(s) && s == new_session(session_id, u.id, s.challenge_string, now)
                    && final(self).session_repository@ == old(self).session_repository@.push(s)
            },
            r matches Ok(s) ==> valid_challenge(s.challenge_string@),
            r is Err ==> final(self).session_repository@ == old(self).session_repository@,
            final(self).user_repository == old(self).user_repository,
            final(self).message_repository == old(self).message_repository,
            final(self).tracker_repository == old(self).tracker_repository,
            final(self).stamp_request_repository == old(self).stamp_request_repository,
            final(self).system_key_repository == old(self).system_key_repository,
    {
        match command.handle(
            &self.user_repository,
            &mut self.session_repository,
            session_id,
            now,
        ) {
            Ok(s) => Ok(s),
            Err(e) => Err(ApiError(e)),
        }
    }

    /// `POST /user/login/confirm`: activates the session if the challenge
    /// signature verifies; see `ActivateSessionCommand::handle`.
    pub fn activate_session(&mut self, command: ActivateSessionCommand, now: i64) -> (r: Result<
        (),
        ApiError,
    >)
        requires
            old(self).wf(),
        ensures
            final(self).wf(),
            r is Ok <==> command.succeeds(
                old(self).user_repository@,
                old(self).session_repository@,
                now,
            ),
            r is Ok ==> final(self).session_repository@ == sessions_activated(
                old(self).session_repository@,
                command.session_id,
                now,
            ),
            r is Err ==> final(self).session_repository@ == old(self).session_repository@,
            final(self).user_repository == old(self).user_repository,
            final(self).message_repository == old(self).message_repository,
            final(self).tracker_repository == old(self).tracker_repository,
            final(self).stamp_request_repository == old(self).stamp_request_repository,
            final(self).system_key_repository == old(self).system_key_repository,
    {
        match command.handle(
            &self.user_repository,
            &mut self.session_repository,
            &self.cryptography_service,
            now,
        ) {
            Ok(()) => Ok(()),
            Err(e) => Err(ApiError(e)),
        }
    }

    /// `POST /user/whoami`: the authenticated user.
    pub fn whoami(user: AuthUser) -> (r: User)
        ensures
            r == user.0,
    {
        user.0
    }

    /// `POST /stamp/request_system_issue`: records stamp request
    /// `stamp_request_id`; see `RequestSystemStampIssueCommand::handle`.
    pub fn request_system_issue(
        &mut self,
        _user: &AuthUser,
        command: RequestSystemStampIssueCommand,
        stamp_request_id: u128,
        now: i64,
    ) -> (r: Result<u128, ApiError>)
        requires
            old(self).wf(),
            now <= LATEST_INSTANT,
        ensures
            final(self).wf(),
            r matches Ok(id) ==> id == stamp_request_id && (request_with_id(
                final(self).stamp_request_repository@,
                id,
            ) matches Some(q) && q.recipient_id == command.recipient_id
                && q.difficulty == BASE_STAMP_DIFFICULTY && q.solved_at is None),
            user_with_id(old(self).user_repository@, command.recipient_id) is None || user_with_id(
                old(self).user_repository@,
                command.sender_id,
            ) is None ==> (r matches Err(e) && e.0 == SmError::User(UserError::UserNotFound)),
            user_with_id(old(self).user_repository@, command.recipient_id) is Some && user_with_id(
                old(self).user_repository@,
                command.sender_id,
            ) is Some ==> {
                &&& request_with_id(old(self).stamp_request_repository@, stamp_request_id) is None
                    ==> (r matches Ok(id) && id == stamp_request_id)
                &&& request_with_id(old(self).stamp_request_repository@, stamp_request_id) is Some
                    ==> (r matches Err(e) && e.0 == SmError::Database(DatabaseError::Arbitrary))
            },
            r is Err ==> final(self).stamp_request_repository@
                == old(self).stamp_request_repository@,
            final(self).user_repository == old(self).user_repository,
            final(self).session_repository == old(self).session_repository,
            final(self).message_repository == old(self).message_repository,
            final(self).tracker_repository == old(self).tracker_repository,
            final(self).system_key_repository == old(self).system_key_repository,
    {
        match command.handle(
            &self.user_repository,
            &mut self.stamp_request_repository,
            stamp_request_id,
            now,
        ) {
            Ok(id) => Ok(id),
            Err(e) => Err(ApiError(e)),
        }
    }

    /// `POST /stamp/system_issue`: mints stamp `stamp_id` for the client;
    /// see `IssueSystemStampCommand::handle`.
    pub fn system_issue(
        &mut self,
        user: &AuthUser,
        command_dto: IssueSystemStampCommandDto,
        stamp_id: u128,
        now: i64,
    ) -> (r: Result<OnetimeStamp, ApiError>)
        requires
            old(self).wf(),
            now <= LATEST_INSTANT,
        ensures
            final(self).wf(),
            issue_refusal(
                old(self).user_repository@,
                old(self).stamp_request_repository@,
                old(self).tracker_repository@,
                old(self).system_key_repository@,
                command_dto.stamp_request_id,
                command_dto.proof_of_work.proof,
                stamp_id,
                now,
            ) matches Some(e) ==> (r matches Err(f) && f.0 == e),
            issue_refusal(
                old(self).user_repository@,
                old(self).stamp_request_repository@,
                old(self).tracker_repository@,
                old(self).system_key_repository@,
                command_dto.stamp_request_id,
                command_dto.proof_of_work.proof,
                stamp_id,
                now,
            ) is None && r is Err ==> (r matches Err(f) && f.0 == SmError::Database(
                DatabaseError::Arbitrary,
            )),
            (request_with_id(old(self).stamp_request_repository@, command_dto.stamp_request_id) matches Some(q)
                && now < q.valid_to && q.solved_at is None && (work_score(
                command_dto.proof_of_work.proof,
                command_dto.stamp_request_id,
            ) as int) < (q.difficulty as int)) ==> (r matches Err(f) && f.0 == SmError::Stamp(
                StampError::InvalidProofOfWork,
            )),
            r matches Ok(st) ==> {
                &&& request_with_id(old(self).stamp_request_repository@, command_dto.stamp_request_id)
                    matches Some(q) && st.recipient_id == q.recipient_id
                &&& st.stamp_id == stamp_id
                &&& st.issuer_id == SYSTEM_ISSUER
                &&& st.sender_id == user.0.id
                &&& st.valid_to == Some((now + ONETIME_STAMP_LIFETIME) as i64)
                &&& is_base64_text(st.signature@)
                &&& st.signature@.len() > 0
                &&& final(self).tracker_repository@ == old(self).tracker_repository@.push(
                    OneTimeStampTracker {
                        stamp_id,
                        recipient_id: st.recipient_id,
                        used_or_revoked: false,
                    },
                )
                &&& final(self).stamp_request_repository@ == requests_solved(
                    old(self).stamp_request_repository@,
                    command_dto.stamp_request_id,
                    now,
                )
                &&& !stamp_spent(final(self).tracker_repository@, stamp_id)
            },
            r is Err ==> final(self).stamp_request_repository@
                == old(self).stamp_request_repository@ && final(self).tracker_repository@
                == old(self).tracker_repository@,
            final(self).user_repository == old(self).user_repository,
            final(self).session_repository == old(self).session_repository,
            final(self).message_repository == old(self).message_repository,
            final(self).system_key_repository == old(self).system_key_repository,
            forall|id: u128|
                stamp_spent(old(self).tracker_repository@, id) ==> #[trigger] stamp_spent(
                    final(self).tracker_repository@,
                    id,
                ),
    {
        let command = IssueSystemStampCommand {
            sender_id: user.0.id,
            stamp_request_id: command_dto.stamp_request_id,
            proof_of_work: command_dto.proof_of_work,
        };
        let ghost before = self.tracker_repository@;
        let r = command.handle(
            &self.user_repository,
            &mut self.stamp_request_repository,
            &mut self.tracker_repository,
            &self.system_key_repository,
            &self.cryptography_service,
            &self.serialize_service,
            stamp_id,
            now,
        );
        match r {
            Ok(st) => {
                proof {
                    assert forall|id: u128| stamp_spent(before, id) implies #[trigger] stamp_spent(
                        self.tracker_repository@,
                        id,
                    ) by {
                        lemma_spent_stays_spent(before, id, stamp_id, st.recipient_id);
                    }
                    let t = self.tracker_repository@;
                    let n = (t.len() - 1) as int;
                    assert(t[n].stamp_id == stamp_id);
                    let c = choose|k: int| 0 <= k < t.len() && t[k].stamp_id == stamp_id;
                    assert(c == n);
                }
                Ok(st)
            },
            Err(e) => Err(ApiError(e)),
        }
    }

    /// `POST /message/send_onetime`: sends a message from the client under
    /// a one-time stamp, which it spends; see
    /// `SendMessageWithOnetimeStampCommand::handle`.
    pub fn send_onetime(
        &mut self,
        user: &AuthUser,
        command_dto: SendMessageWithOnetimeStampCommandDto,
        now: i64,
    ) -> (r: Result<(), ApiError>)
        requires
            old(self).wf(),
        ensures
            final(self).wf(),
            ({
                let command = SendMessageWithOnetimeStampCommand {
                    sender_id: user.0.id,
                    recipient_id: command_dto.recipient_id,
                    content: command_dto.content,
                    metadata: command_dto.metadata,
                    signature: command_dto.signature,
                    stamp: command_dto.stamp,
                };
                let refusal = command.refusal(
                    old(self).user_repository@,
                    old(self).tracker_repository@,
                    old(self).system_key_repository@,
                    now,
                );
                &&& refusal matches Some(e) ==> (r matches Err(f) && f.0 == e)
                &&& refusal is None ==> (r is Ok <==> old(self).message_repository.next_id()
                    < i64::MAX)
            }),
            r is Ok ==> stamp_spent(
                final(self).tracker_repository@,
                command_dto.stamp.stamp_id,
            ) && final(self).message_repository@ == old(self).message_repository@.push(
                stored_message(
                    old(self).message_repository.next_id(),
                    command_dto.recipient_id,
                    command_dto.metadata,
                    command_dto.content,
                ),
            ),
            r is Err ==> final(self).message_repository@ == old(self).message_repository@
                && final(self).tracker_repository@ == old(self).tracker_repository@,
            final(self).user_repository == old(self).user_repository,
            final(self).session_repository == old(self).session_repository,
            final(self).stamp_request_repository == old(self).stamp_request_repository,
            final(self).system_key_repository == old(self).system_key_repository,
            forall|id: u128|
                stamp_spent(old(self).tracker_repository@, id) ==> #[trigger] stamp_spent(
                    final(self).tracker_repository@,
                    id,
                ),
    {
        let stamp_id = command_dto.stamp.stamp_id;
        let stamp_recipient_id = command_dto.stamp.recipient_id;
        let command = SendMessageWithOnetimeStampCommand {
            sender_id: user.0.id,
            recipient_id: command_dto.recipient_id,
            content: command_dto.content,
            metadata: command_dto.metadata,
            signature: command_dto.signature,
            stamp: command_dto.stamp,
        };
        let ghost before = self.tracker_repository@;
        let r = command.handle(
            &self.user_repository,
            &self.cryptography_service,
            &self.serialize_service,
            &mut self.tracker_repository,
            &self.system_key_repository,
            &mut self.message_repository,
            now,
        );
        match r {
            Ok(()) => {
                proof {
                    lemma_spending_spends(before, stamp_id, stamp_recipient_id);
                    assert forall|id: u128| stamp_spent(before, id) implies #[trigger] stamp_spent(
                        self.tracker_repository@,
                        id,
                    ) by {
                        lemma_spent_stays_spent(before, id, stamp_id, stamp_recipient_id);
                    }
                }
                Ok(())
            },
            Err(e) => Err(ApiError(e)),
        }
    }

    /// `POST /message/send_periodic`: sends a message from the client under
    /// a periodic stamp; see `SendMessageWithPeriodicStampCommand::handle`.
    pub fn send_periodic(
        &mut self,
        user: &AuthUser,
        command_dto: SendMessageWithPeriodicStampCommandDto,
        now: i64,
    ) -> (r: Result<(), ApiError>)
        requires
            old(self).wf(),
        ensures
            final(self).wf(),
            ({
                let command = SendMessageWithPeriodicStampCommand {
                    sender_id: user.0.id,
                    recipient_id: command_dto.recipient_id,
                    content: command_dto.content,
                    metadata: command_dto.metadata,
                    signature: command_dto.signature,
                    stamp: command_dto.stamp,
                };
                let refusal = command.refusal(old(self).user_repository@, now);
                &&& refusal matches Some(e) ==> (r matches Err(f) && f.0 == e)
                &&& refusal is None ==> (r is Ok <==> old(self).message_repository.next_id()
                    < i64::MAX)
            }),
            r is Ok ==> final(self).message_repository@ == old(self).message_repository@.push(
                stored_message(
                    old(self).message_repository.next_id(),
                    command_dto.recipient_id,
                    command_dto.metadata,
                    command_dto.content,
                ),
            ),
            r is Err ==> final(self).message_repository@ == old(self).message_repository@,
            final(self).user_repository == old(self).user_repository,
            final(self).session_repository == old(self).session_repository,
            final(self).tracker_repository == old(self).tracker_repository,
            final(self).stamp_request_repository == old(self).stamp_request_repository,
            final(self).system_key_repository == old(self).system_key_repository,
    {
        let command = SendMessageWithPeriodicStampCommand {
            sender_id: user.0.id,
            recipient_id: command_dto.recipient_id,
            content: command_dto.content,
            metadata: command_dto.metadata,
            signature: command_dto.signature,
            stamp: command_dto.stamp,
        };
        match command.handle(
            &self.user_repository,
            &self.cryptography_service,
            &self.serialize_service,
            &mut self.message_repository,
            now,
        ) {
            Ok(()) => Ok(()),
            Err(e) => Err(ApiError(e)),
        }
    }

    /// `GET /message/get_all`: the client's mailbox listing, above
    /// `above_id` if given, as (identifier, metadata) pairs.
    pub fn get_all_messages(&self, user: &AuthUser, above_id: Option<i64>) -> (r: Result<
        Vec<(i64, String)>,
        ApiError,
    >)
        requires
            self.wf(),
        ensures
            r matches Ok(v) && v@.len() == listing(self.message_repository@, user.0.id, above_id).len()
                && forall|i: int|
                0 <= i < v@.len() ==> #[trigger] v@[i].0 == listing(
                    self.message_repository@,
                    user.0.id,
                    above_id,
                )[i].0 && v@[i].1 == listing(self.message_repository@, user.0.id, above_id)[i].1.0,
    {
        let listed = match above_id {
            None => (GetAllMessagesForUserQuery { recipient_id: user.0.id }).handle(
                &self.message_repository,
            ),
            Some(_) => self.message_repository.list_messages(user.0.id, above_id),
        };
        let listed = match listed {
            Ok(v) => v,
            Err(e) => return Err(ApiError(e)),
        };
        let mut out: Vec<(i64, String)> = Vec::new();
        let mut i: usize = 0;
        while i < listed.len()
            invariant
                i <= listed@.len(),
                out@.len() == i,
                forall|k: int|
                    0 <= k < i ==> #[trigger] out@[k].0 == listed@[k].0 && out@[k].1
                        == listed@[k].1.0,
            decreases listed@.len() - i,
        {
            let (id, metadata) = (listed[i].0, listed[i].1.0.clone());
            out.push((id, metadata));
            i = i + 1;
        }
        let ghost l = listing(self.message_repository@, user.0.id, above_id);
        assert(listed@ == l);
        assert(out@.len() == l.len());
        assert forall|k: int| 0 <= k < out@.len() implies #[trigger] out@[k].0 == l[k].0 && out@[k].1 == l[k].1.0 by {
            assert(out@[k].0 == listed@[k].0);
        }
        Ok(out)
    }

    /// `GET /message/:id`: message `id` if the client is its recipient.
    pub fn get_message_by_id(&self, user: &AuthUser, message_id: i64) -> (r: Result<
        Option<Message>,
        ApiError,
    >)
        requires
            self.wf(),
        ensures
            r matches Ok(m) && m == message_of(self.message_repository@, user.0.id, message_id),
    {
        match (GetMessageByIdQuery { recipient_id: user.0.id, message_id }).handle(
            &self.message_repository,
        ) {
            Ok(m) => Ok(m),
            Err(e) => Err(ApiError(e)),
        }
    }
}

} // verus!
