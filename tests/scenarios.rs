use safemail::accounts::{ActivateSessionCommand, RegisterUserCommand, RequestSessionCommand};
use safemail::error::{CryptographyError, SessionError, SmError, StampError, UserError};
use safemail::model::{
    OnetimeStamp, PeriodicStamp, User, MessageMetadata, ONETIME_STAMP_LIFETIME, SESSION_LIFETIME,
    SYSTEM_ISSUER,
};
use safemail::services::{CryptographyService, OpensslCryptographyService, ProofOfWork};
use safemail::stamps::{onetime_signing_text, periodic_signing_text, VerifyOnetimeStampCommand};
use safemail::state::{
    AppState, AuthRejection, AuthUser, IssueSystemStampCommandDto,
    SendMessageWithOnetimeStampCommandDto, SendMessageWithPeriodicStampCommandDto,
};
use safemail::stamps::RequestSystemStampIssueCommand;
use safemail::model::SystemKeyPair;

const NOW: i64 = 1_700_000_000_000_000_000;

struct Keys {
    public: String,
    private: String,
}

fn keys() -> Keys {
    let (public, private) = OpensslCryptographyService.generate_key_pair().unwrap();
    Keys { public, private }
}

fn sign(text: &str, k: &Keys) -> String {
    OpensslCryptographyService.produce_signature(text, &k.private).unwrap()
}

fn register(state: &mut AppState, name: &str, id: u128, k: &Keys) -> User {
    state
        .register_user(
            RegisterUserCommand {
                username: name.to_string(),
                public_encryption_key: k.public.clone(),
                public_verify_key: k.public.clone(),
            },
            id,
        )
        .unwrap()
}

fn with_system_keys(state: &mut AppState) -> Keys {
    let k = keys();
    state
        .system_key_repository
        .init_system_keys(SystemKeyPair { private_key: k.private.clone(), public_key: k.public.clone() })
        .unwrap();
    k
}

fn auth(user: &User) -> AuthUser {
    AuthUser(user.duplicate())
}

fn bearer(session_id: u128) -> String {
    format!("Bearer {}", uuid::Uuid::from_u128(session_id))
}

fn issue_stamp(state: &mut AppState, sender: &User, recipient: &User, request_id: u128, stamp_id: u128) -> OnetimeStamp {
    let r = state
        .request_system_issue(
            &auth(sender),
            RequestSystemStampIssueCommand { recipient_id: recipient.id, sender_id: sender.id },
            request_id,
            NOW,
        )
        .unwrap();
    assert_eq!(r, request_id);
    state
        .system_issue(
            &auth(sender),
            IssueSystemStampCommandDto { stamp_request_id: r, proof_of_work: ProofOfWork { proof: 0 } },
            stamp_id,
            NOW,
        )
        .unwrap()
}

fn send_with(state: &mut AppState, sender: &User, k: &Keys, recipient: &User, stamp: OnetimeStamp, body: &str) -> Result<(), SmError> {
    let metadata = "subject".to_string();
    let signature = sign(&format!("{}\n{}", metadata, body), k);
    state
        .send_onetime(
            &auth(sender),
            SendMessageWithOnetimeStampCommandDto {
                recipient_id: recipient.id,
                content: body.to_string(),
                metadata,
                signature,
                stamp,
            },
            NOW + 1,
        )
        .map_err(|e| e.0)
}

fn copy_stamp(s: &OnetimeStamp) -> OnetimeStamp {
    OnetimeStamp {
        stamp_id: s.stamp_id,
        issuer_id: s.issuer_id,
        recipient_id: s.recipient_id,
        sender_id: s.sender_id,
        valid_to: s.valid_to,
        signature: s.signature.clone(),
    }
}

fn copy(s: &PeriodicStamp) -> PeriodicStamp {
    PeriodicStamp {
        issuer_id: s.issuer_id,
        recipient_id: s.recipient_id,
        sender_id: s.sender_id,
        valid_from: s.valid_from,
        valid_to: s.valid_to,
        signature: s.signature.clone(),
    }
}

#[test]
fn registration_and_login() {
    let mut state = AppState::new();
    let k = keys();
    let alice = register(&mut state, "alice", 11, &k);
    let session = state
        .request_session(RequestSessionCommand { username: "alice".to_string() }, 100, NOW)
        .unwrap();
    assert_eq!(session.challenge_string.len(), 24);
    assert!(session.challenge_string.chars().all(|c| c.is_ascii_alphanumeric()));
    assert_eq!(session.user_id, alice.id);
    assert_eq!(session.session_id, 100);
    assert_eq!(session.activated_at_utc, None);
    assert_eq!(session.expires_at_utc, NOW + SESSION_LIFETIME);
    assert!(!session.active);
    // not active yet: no login
    assert!(matches!(state.authenticate(Some(&bearer(100)), NOW + 1), Err(AuthRejection::InvalidSession)));
    let signature = sign(&session.challenge_string, &k);
    state
        .activate_session(ActivateSessionCommand { session_id: 100, challenge_signature: signature }, NOW + 2)
        .unwrap();
    let user = state.authenticate(Some(&bearer(100)), NOW + 3).unwrap();
    let me = AppState::whoami(user);
    assert_eq!(me.id, alice.id);
    assert_eq!(me.username, "alice");
}

#[test]
fn expired_session() {
    let mut state = AppState::new();
    let k = keys();
    register(&mut state, "alice", 11, &k);
    let session = state
        .request_session(RequestSessionCommand { username: "alice".to_string() }, 100, NOW)
        .unwrap();
    let signature = sign(&session.challenge_string, &k);
    state
        .activate_session(ActivateSessionCommand { session_id: 100, challenge_signature: signature }, NOW + 2)
        .unwrap();
    assert!(state.authenticate(Some(&bearer(100)), session.expires_at_utc - 1).is_ok());
    let rejected = state.authenticate(Some(&bearer(100)), session.expires_at_utc);
    assert!(matches!(rejected, Err(AuthRejection::InvalidSession)));
    assert_eq!(AuthRejection::InvalidSession.status_code(), 401);
    let q = safemail::accounts::GetUserBySessionQuery { session: 100 };
    let r = q.handle(&state.user_repository, &state.session_repository, session.expires_at_utc + 5);
    assert!(matches!(r, Err(SmError::Session(SessionError::SessionNotFound))));
}

#[test]
fn activation_needs_the_users_signature() {
    let mut state = AppState::new();
    let k = keys();
    let other = keys();
    register(&mut state, "alice", 11, &k);
    let session = state
        .request_session(RequestSessionCommand { username: "alice".to_string() }, 100, NOW)
        .unwrap();
    let wrong = sign(&session.challenge_string, &other);
    let r = state.activate_session(ActivateSessionCommand { session_id: 100, challenge_signature: wrong }, NOW + 1);
    assert!(matches!(r, Err(e) if matches!(e.0, SmError::Cryptography(CryptographyError::InvalidSignature))));
    let over_other_text = sign("another challenge", &k);
    let r = state.activate_session(ActivateSessionCommand { session_id: 100, challenge_signature: over_other_text }, NOW + 1);
    assert!(r.is_err());
    let unknown = state.activate_session(ActivateSessionCommand { session_id: 999, challenge_signature: sign("x", &k) }, NOW + 1);
    assert!(matches!(unknown, Err(e) if matches!(e.0, SmError::Session(SessionError::SessionNotFound))));
    let late = sign(&session.challenge_string, &k);
    let r = state.activate_session(ActivateSessionCommand { session_id: 100, challenge_signature: late }, session.expires_at_utc);
    assert!(matches!(r, Err(e) if matches!(e.0, SmError::Session(SessionError::SessionNotFound))));
    let good = sign(&session.challenge_string, &k);
    assert!(state.activate_session(ActivateSessionCommand { session_id: 100, challenge_signature: good }, NOW + 1).is_ok());
}

#[test]
fn onetime_issuance() {
    let mut state = AppState::new();
    let system = with_system_keys(&mut state);
    let alice = register(&mut state, "alice", 11, &keys());
    let bob = register(&mut state, "bob", 22, &keys());
    let stamp = issue_stamp(&mut state, &alice, &bob, 500, 900);
    assert_eq!(stamp.stamp_id, 900);
    assert_eq!(stamp.issuer_id, SYSTEM_ISSUER);
    assert_eq!(stamp.recipient_id, bob.id);
    assert_eq!(stamp.sender_id, alice.id);
    assert_eq!(stamp.valid_to, Some(NOW + ONETIME_STAMP_LIFETIME));
    assert!(!stamp.signature.is_empty());
    // the signature verifies under the system's public key
    let text = onetime_signing_text(&state.serialize_service, &stamp);
    assert!(OpensslCryptographyService.validate_signature(&text, &stamp.signature, &system.public));
    let verdict = VerifyOnetimeStampCommand(copy_stamp(&stamp)).handle(
        &state.user_repository,
        &state.cryptography_service,
        &state.serialize_service,
        &state.tracker_repository,
        &state.system_key_repository,
        NOW + 1,
    );
    assert!(matches!(verdict, Ok(true)));
    let tracker = state.tracker_repository.get_by_id(900).unwrap().unwrap();
    assert!(!tracker.used_or_revoked);
    assert_eq!(tracker.recipient_id, bob.id);
}

#[test]
fn replayed_stamp_is_refused() {
    let mut state = AppState::new();
    with_system_keys(&mut state);
    let ka = keys();
    let alice = register(&mut state, "alice", 11, &ka);
    let bob = register(&mut state, "bob", 22, &keys());
    let stamp = issue_stamp(&mut state, &alice, &bob, 500, 900);
    assert!(send_with(&mut state, &alice, &ka, &bob, copy_stamp(&stamp), "hello").is_ok());
    assert!(state.tracker_repository.get_by_id(900).unwrap().unwrap().used_or_revoked);
    let again = send_with(&mut state, &alice, &ka, &bob, copy_stamp(&stamp), "hello again");
    assert!(matches!(again, Err(SmError::Stamp(StampError::InvalidStamp))));
    let api = safemail::error::ApiError(again.unwrap_err());
    assert_eq!(api.status_code(), 401);
    assert_eq!(api.body(), "Stamp error: Invalid stamp");
    assert_eq!(state.message_repository.list_messages(bob.id, None).unwrap().len(), 1);
}

#[test]
fn forged_stamp_is_refused() {
    let mut state = AppState::new();
    with_system_keys(&mut state);
    let ka = keys();
    let ke = keys();
    let alice = register(&mut state, "alice", 11, &ka);
    let bob = register(&mut state, "bob", 22, &keys());
    let eve = register(&mut state, "eve", 33, &ke);
    let mut forged = OnetimeStamp {
        stamp_id: 4242,
        issuer_id: eve.id,
        recipient_id: bob.id,
        sender_id: alice.id,
        valid_to: None,
        signature: String::new(),
    };
    let text = onetime_signing_text(&state.serialize_service, &forged);
    forged.signature = sign(&text, &ke);
    let verdict = VerifyOnetimeStampCommand(copy_stamp(&forged)).handle(
        &state.user_repository,
        &state.cryptography_service,
        &state.serialize_service,
        &state.tracker_repository,
        &state.system_key_repository,
        NOW,
    );
    assert!(matches!(verdict, Ok(false)));
    let sent = send_with(&mut state, &alice, &ka, &bob, forged, "hi");
    assert!(matches!(sent, Err(SmError::Stamp(StampError::InvalidStamp))));
    assert_eq!(state.message_repository.list_messages(bob.id, None).unwrap().len(), 0);
}

#[test]
fn listing_and_fetch() {
    let mut state = AppState::new();
    let kb = keys();
    let bob = register(&mut state, "bob", 22, &kb);
    let carol = register(&mut state, "carol", 44, &keys());
    for id in 1..=20i64 {
        let recipient = if id == 7 || id == 12 || id == 20 { bob.id } else { carol.id };
        let m = state
            .message_repository
            .create_message(recipient, MessageMetadata(format!("meta {}", id)), format!("body {}", id))
            .unwrap();
        assert_eq!(m.id, id);
    }
    let all = state.get_all_messages(&auth(&bob), None).unwrap();
    assert_eq!(all, vec![(7, "meta 7".to_string()), (12, "meta 12".to_string()), (20, "meta 20".to_string())]);
    let above = state.get_all_messages(&auth(&bob), Some(12)).unwrap();
    assert_eq!(above, vec![(20, "meta 20".to_string())]);
    let m = state.get_message_by_id(&auth(&bob), 20).unwrap().unwrap();
    assert_eq!(m.content, "body 20");
    assert_eq!(m.recipient_id, bob.id);
    assert!(state.get_message_by_id(&auth(&carol), 20).unwrap().is_none());
}

#[test]
fn periodic_stamp_from_the_recipient() {
    let mut state = AppState::new();
    let ka = keys();
    let kb = keys();
    let alice = register(&mut state, "alice", 11, &ka);
    let bob = register(&mut state, "bob", 22, &kb);
    let mut stamp = PeriodicStamp {
        issuer_id: bob.id,
        recipient_id: bob.id,
        sender_id: alice.id,
        valid_from: NOW - 10,
        valid_to: NOW + 10,
        signature: String::new(),
    };
    let text = periodic_signing_text(&state.serialize_service, &stamp);
    stamp.signature = sign(&text, &kb);
    let body = "periodic hello";
    let metadata = "m".to_string();
    let signature = sign(&format!("{}\n{}", metadata, body), &ka);
    let dto = |stamp: PeriodicStamp, signature: String| SendMessageWithPeriodicStampCommandDto {
        sender_id: alice.id,
        recipient_id: bob.id,
        content: body.to_string(),
        metadata: metadata.clone(),
        signature,
        stamp,
    };
    // outside its period the stamp is invalid
    let late = state.send_periodic(&auth(&alice), dto(copy(&stamp), signature.clone()), NOW + 11);
    assert!(matches!(late, Err(e) if matches!(e.0, SmError::Stamp(StampError::InvalidStamp))));
    let verdict = safemail::stamps::VerifyPeriodicStampCommand(copy(&stamp)).handle(
        &state.user_repository,
        &state.cryptography_service,
        &state.serialize_service,
        NOW - 11,
    );
    assert!(matches!(verdict, Ok(false)));
    // a bad message signature
    let bad = state.send_periodic(&auth(&alice), dto(copy(&stamp), sign("other", &ka)), NOW);
    assert!(matches!(bad, Err(e) if matches!(e.0, SmError::Cryptography(CryptographyError::InvalidSignature))));
    assert!(state.send_periodic(&auth(&alice), dto(copy(&stamp), signature.clone()), NOW).is_ok());
    // periodic stamps are not spent
    assert!(state.send_periodic(&auth(&alice), dto(copy(&stamp), signature), NOW).is_ok());
    assert_eq!(state.get_all_messages(&auth(&bob), None).unwrap().len(), 2);
}

#[test]
fn periodic_stamp_from_a_third_party() {
    let mut state = AppState::new();
    let ka = keys();
    let ke = keys();
    let alice = register(&mut state, "alice", 11, &ka);
    let bob = register(&mut state, "bob", 22, &keys());
    let eve = register(&mut state, "eve", 33, &ke);
    let mut stamp = PeriodicStamp {
        issuer_id: eve.id,
        recipient_id: bob.id,
        sender_id: alice.id,
        valid_from: NOW - 10,
        valid_to: NOW + 10,
        signature: String::new(),
    };
    let text = periodic_signing_text(&state.serialize_service, &stamp);
    stamp.signature = sign(&text, &ke);
    let metadata = "m".to_string();
    let signature = sign(&format!("{}\n{}", metadata, "x"), &ka);
    let r = state.send_periodic(
        &auth(&alice),
        SendMessageWithPeriodicStampCommandDto {
            sender_id: alice.id,
            recipient_id: bob.id,
            content: "x".to_string(),
            metadata,
            signature,
            stamp,
        },
        NOW,
    );
    assert!(matches!(r, Err(e) if matches!(e.0, SmError::Stamp(StampError::InvalidStamp))));
}

#[test]
fn stamp_bound_to_its_recipient() {
    let mut state = AppState::new();
    with_system_keys(&mut state);
    let ka = keys();
    let alice = register(&mut state, "alice", 11, &ka);
    let bob = register(&mut state, "bob", 22, &keys());
    let carol = register(&mut state, "carol", 44, &keys());
    let stamp = issue_stamp(&mut state, &alice, &bob, 500, 900);
    let r = send_with(&mut state, &alice, &ka, &carol, copy_stamp(&stamp), "hi");
    assert!(matches!(r, Err(SmError::Stamp(StampError::InvalidStamp))));
    assert!(!state.tracker_repository.get_by_id(900).unwrap().unwrap().used_or_revoked);
}

#[test]
fn unknown_users() {
    let mut state = AppState::new();
    let r = state.request_session(RequestSessionCommand { username: "nobody".to_string() }, 1, NOW);
    assert!(matches!(r, Err(e) if matches!(e.0, SmError::User(UserError::InvalidCredentials))));
    let g = state.get_user("nobody".to_string());
    assert!(matches!(g, Err(e) if e.status_code() == 404));
    let alice = register(&mut state, "alice", 11, &keys());
    let r = state.request_system_issue(&auth(&alice), RequestSystemStampIssueCommand { recipient_id: 77, sender_id: alice.id }, 1, NOW);
    assert!(matches!(r, Err(e) if matches!(e.0, SmError::User(UserError::UserNotFound))));
    assert_eq!(state.get_user("alice".to_string()).unwrap().id, 11);
}
