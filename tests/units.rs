use safemail::accounts::{is_valid_username, RegisterUserCommand, UserCommandValidator, Validate};
use safemail::error::{ApiError, DatabaseError, SessionError, SmError, StampError, UserError, ValidationError, CryptographyError};
use safemail::messages::MessageRepository;
use safemail::model::{MessageMetadata, OnetimeStamp, PeriodicStamp, SystemKeyPair};
use safemail::services::{
    new_challenge, new_identifier, parse_identifier, BcryptPasswordService, CryptographyService,
    JsonService, OpensslCryptographyService, PasswordService, ProofOfWork,
};
use safemail::sessions::SessionRepository;
use safemail::stamps::{record_issued_stamp, onetime_signing_text, periodic_signing_text, IssueSystemStampCommand, RequestSystemStampIssueCommand};
use safemail::state::{strip_bearer, AppState, AuthRejection};
use safemail::tracking::{OneTimeStampTrackerRepository, StampRequestRepository, SystemKeyRepository};
use safemail::users::UserRepository;

const NOW: i64 = 1_700_000_000_000_000_000;

#[test]
fn error_texts_and_statuses() {
    let cases: Vec<(SmError, u16, &str)> = vec![
        (SmError::Database(DatabaseError::Arbitrary), 500, "Database error: Database error"),
        (SmError::User(UserError::UserNotFound), 404, "User error: User not found"),
        (SmError::User(UserError::UserAlreadyExists), 409, "User error: User already exists"),
        (SmError::User(UserError::InvalidCredentials), 401, "User error: Invalid username or password"),
        (SmError::User(UserError::InvalidUsername), 400, "User error: Username is invalid"),
        (SmError::User(UserError::InvalidPassword), 400, "User error: Password is invalid"),
        (SmError::User(UserError::InvalidPublicKey), 400, "User error: Public key is invalid"),
        (SmError::Session(SessionError::SessionNotFound), 401, "Session error: Non-expired session not found"),
        (SmError::Validation(ValidationError("bad".to_string())), 400, "Validation error: bad"),
        (SmError::Cryptography(CryptographyError::InvalidSignature), 400, "Cryptography error: Invalid signature"),
        (SmError::Stamp(StampError::InvalidStamp), 401, "Stamp error: Invalid stamp"),
        (SmError::Stamp(StampError::InvalidTimePeriod), 401, "Stamp error: Out of time period"),
        (SmError::Stamp(StampError::InvalidProofOfWork), 401, "Stamp error: Invalid proof of work"),
        (SmError::Stamp(StampError::StampRequestNotFound), 401, "Stamp error: Stamp request not found"),
        (SmError::Stamp(StampError::StampRequestExpired), 401, "Stamp error: Stamp request expired"),
    ];
    for (e, status, text) in cases {
        assert_eq!(e.message(), text);
        let api = ApiError::from(e);
        assert_eq!(api.status_code(), status);
        assert_eq!(api.body(), text);
    }
    assert_eq!(ApiError::from(UserError::UserAlreadyExists).status_code(), 409);
    assert_eq!(ApiError::from(ValidationError("x".to_string())).status_code(), 400);
}

#[test]
fn canonical_json_forms() {
    let json = JsonService;
    assert_eq!(json.serialize_id(0), "\"00000000-0000-0000-0000-000000000000\"");
    assert_eq!(
        json.serialize_id(0x550e8400_e29b_41d4_a716_446655440000),
        "\"550e8400-e29b-41d4-a716-446655440000\""
    );
    assert_eq!(json.serialize_instant(0), "\"1970-01-01T00:00:00Z\"");
    assert_eq!(json.serialize_instant(1_500_000_000), "\"1970-01-01T00:00:01.500Z\"");
    assert_eq!(json.serialize_optional_instant(None), "null");
    assert_eq!(json.serialize_optional_instant(Some(0)), "\"1970-01-01T00:00:00Z\"");
}

#[test]
fn signing_inputs() {
    let json = JsonService;
    let s = OnetimeStamp { stamp_id: 1, issuer_id: 0, recipient_id: 2, sender_id: 3, valid_to: None, signature: "sig".to_string() };
    let expected = "\"00000000-0000-0000-0000-000000000001\"\n\"00000000-0000-0000-0000-000000000000\"\n\"00000000-0000-0000-0000-000000000002\"\n\"00000000-0000-0000-0000-000000000003\"\nnull";
    assert_eq!(onetime_signing_text(&json, &s), expected);
    // same fields, another signature: the same text
    let t = OnetimeStamp { stamp_id: 1, issuer_id: 0, recipient_id: 2, sender_id: 3, valid_to: None, signature: "other".to_string() };
    assert_eq!(onetime_signing_text(&json, &t), onetime_signing_text(&json, &s));
    let p = PeriodicStamp { issuer_id: 2, recipient_id: 2, sender_id: 3, valid_from: 0, valid_to: 60_000_000_000, signature: String::new() };
    let expected = "\"00000000-0000-0000-0000-000000000002\"\n\"00000000-0000-0000-0000-000000000002\"\n\"00000000-0000-0000-0000-000000000003\"\n\"1970-01-01T00:00:00Z\"\n\"1970-01-01T00:01:00Z\"";
    assert_eq!(periodic_signing_text(&json, &p), expected);
}

#[test]
fn usernames() {
    assert!(is_valid_username("alice"));
    assert!(is_valid_username("a_b-9"));
    assert!(!is_valid_username("al"));
    assert!(!is_valid_username("al ice"));
    assert!(!is_valid_username("ålice"));
    assert!(!is_valid_username(""));
}

#[test]
fn registration_validation() {
    let (public, _) = OpensslCryptographyService.generate_key_pair().unwrap();
    let validator = UserCommandValidator(&OpensslCryptographyService);
    let ok = RegisterUserCommand { username: "alice".to_string(), public_encryption_key: public.clone(), public_verify_key: public.clone() };
    assert!(validator.validate(&ok).is_ok());
    let short = RegisterUserCommand { username: "al".to_string(), public_encryption_key: public.clone(), public_verify_key: public.clone() };
    let e = validator.validate(&short).unwrap_err();
    assert_eq!(e.0, "Username must be at least 3 characters long and contain only ASCII letters, numbers, underscores, and hyphens");
    let bad_key = RegisterUserCommand { username: "alice".to_string(), public_encryption_key: "not base64!".to_string(), public_verify_key: public.clone() };
    assert_eq!(validator.validate(&bad_key).unwrap_err().0, "Not a valid base64 SPKI public key");
    let odd_verify_key = RegisterUserCommand { username: "alice".to_string(), public_encryption_key: public.clone(), public_verify_key: "not base64!".to_string() };
    assert!(validator.validate(&odd_verify_key).is_ok());
    let mut state = AppState::new();
    let r = state.register_user(short, 1);
    assert!(matches!(r, Err(e) if e.status_code() == 400));
    assert!(state.register_user(ok, 1).is_ok());
    let dup = RegisterUserCommand { username: "alice".to_string(), public_encryption_key: public.clone(), public_verify_key: public };
    let r = state.register_user(dup, 2);
    assert!(matches!(r, Err(e) if matches!(e.0, SmError::User(UserError::UserAlreadyExists))));
}

#[test]
fn public_keys_and_signatures() {
    let crypto = OpensslCryptographyService;
    let (public, private) = crypto.generate_key_pair().unwrap();
    assert!(crypto.validate_public_key(&public));
    assert!(!crypto.validate_public_key("AAAA"));
    assert!(!crypto.validate_public_key("%%%"));
    let sig = crypto.produce_signature("hello", &private).unwrap();
    assert!(crypto.validate_signature("hello", &sig, &public));
    assert!(!crypto.validate_signature("hellO", &sig, &public));
    assert!(!crypto.validate_signature("hello", "not base64", &public));
    assert!(!crypto.validate_signature("hello", &sig, "AAAA"));
    assert!(crypto.produce_signature("hello", "%%%").is_none());
}

#[test]
fn passwords() {
    let svc = BcryptPasswordService;
    let hashed = svc.hash_password("secret".to_string()).unwrap();
    assert_ne!(hashed, "secret");
    assert!(svc.verify_password("secret".to_string(), &hashed));
    assert!(!svc.verify_password("other".to_string(), &hashed));
    assert!(!svc.verify_password("secret".to_string(), "not a hash"));
}

#[test]
fn fresh_values() {
    let a = new_identifier();
    let b = new_identifier();
    assert_ne!(a, 0);
    assert_ne!(a, b);
    let c = new_challenge();
    assert_eq!(c.len(), 24);
    assert!(c.chars().all(|ch| ch.is_ascii_alphanumeric()));
    assert_eq!(parse_identifier("550e8400-e29b-41d4-a716-446655440000"), Some(0x550e8400_e29b_41d4_a716_446655440000));
    assert_eq!(parse_identifier("nope"), None);
}

#[test]
fn proof_of_work_scores() {
    let w = ProofOfWork { proof: 7 };
    let s1 = w.score(42);
    assert_eq!(s1, w.score(42));
    assert_ne!(s1, 7);
    assert_ne!(w.score(42), w.score(43));
}

#[test]
fn bearer_headers() {
    assert_eq!(strip_bearer("Bearer abc"), Some("abc"));
    assert_eq!(strip_bearer("Bearer "), Some(""));
    assert_eq!(strip_bearer("Basic abc"), None);
    assert_eq!(strip_bearer("Bear"), None);
    let state = AppState::new();
    assert!(matches!(state.authenticate(None, NOW), Err(AuthRejection::MissingHeader)));
    assert!(matches!(state.authenticate(Some("Token x"), NOW), Err(AuthRejection::InvalidHeader)));
    assert!(matches!(state.authenticate(Some("Bearer zz"), NOW), Err(AuthRejection::InvalidSessionId)));
    assert!(matches!(
        state.authenticate(Some("Bearer 550e8400-e29b-41d4-a716-446655440000"), NOW),
        Err(AuthRejection::InvalidSession)
    ));
    assert_eq!(AuthRejection::MissingHeader.message(), "Missing authorization header");
    assert_eq!(AuthRejection::InvalidHeader.message(), "Invalid authorization header");
    assert_eq!(AuthRejection::InvalidSessionId.message(), "Invalid session ID");
    assert_eq!(AuthRejection::InvalidSession.message(), "Invalid session");
    assert_eq!(AuthRejection::ServerError.message(), "Server error");
    assert_eq!(AuthRejection::ServerError.status_code(), 500);
}

#[test]
fn user_repository() {
    let mut users = UserRepository::new();
    let u = users.create(1, "alice".to_string(), "e".to_string(), "v".to_string()).unwrap();
    assert_eq!(u.id, 1);
    let dup_name = users.create(2, "alice".to_string(), "e".to_string(), "v".to_string());
    assert!(matches!(dup_name, Err(SmError::User(UserError::UserAlreadyExists))));
    let dup_id = users.create(1, "bob".to_string(), "e".to_string(), "v".to_string());
    assert!(matches!(dup_id, Err(SmError::Database(DatabaseError::Arbitrary))));
    assert_eq!(users.find_by_username(&"alice".to_string()).unwrap().id, 1);
    assert!(users.find_by_id(2).is_none());
}

#[test]
fn session_repository() {
    let mut users = UserRepository::new();
    users.create(1, "alice".to_string(), "e".to_string(), "v".to_string()).unwrap();
    let mut sessions = SessionRepository::new();
    let missing_user = sessions.request_session(&users, 9, 100, NOW);
    assert!(matches!(missing_user, Err(SmError::User(UserError::UserNotFound))));
    let s = sessions.request_session(&users, 1, 100, NOW).unwrap();
    assert_eq!(s.challenge_string.len(), 24);
    assert!(s.challenge_string.chars().all(|c| c.is_ascii_alphanumeric()));
    assert_eq!(s.expires_at_utc, NOW + safemail::model::SESSION_LIFETIME);
    let fixed = sessions.request_session_with_challenge(&users, 1, 101, "c".to_string(), NOW).unwrap();
    assert_eq!(fixed.challenge_string, "c");
    assert!(sessions.request_session(&users, 1, 100, NOW).is_err());
    assert!(sessions.get_session(100, false, NOW).is_none());
    assert!(sessions.get_session(100, true, NOW).is_some());
    sessions.activate_session(100, NOW + 1).unwrap();
    let active = sessions.get_session(100, false, NOW + 2).unwrap();
    assert!(active.active);
    assert_eq!(active.activated_at_utc, Some(NOW + 1));
    assert!(sessions.get_session(100, false, s.expires_at_utc).is_none());
    sessions.logout_session(100).unwrap();
    assert!(sessions.get_session(100, false, NOW + 3).is_none());
}

#[test]
fn message_repository() {
    let mut messages = MessageRepository::new();
    let a = messages.create_message(5, MessageMetadata("m1".to_string()), "c1".to_string()).unwrap();
    let b = messages.create_message(5, MessageMetadata("m2".to_string()), "c2".to_string()).unwrap();
    assert_eq!((a.id, b.id), (1, 2));
    messages.update_recipient_metadata(2, "read".to_string()).unwrap();
    assert_eq!(messages.get_message(5, 2).unwrap().unwrap().recipient_metadata, Some("read".to_string()));
    assert!(messages.get_message(6, 2).unwrap().is_none());
    messages.delete_message(1).unwrap();
    let listed = messages.list_messages(5, None).unwrap();
    assert_eq!(listed.len(), 1);
    assert_eq!(listed[0].0, 2);
    assert_eq!(listed[0].1 .0, "m2");
    let c = messages.create_message(5, MessageMetadata("m3".to_string()), "c3".to_string()).unwrap();
    assert_eq!(c.id, 3);
}

#[test]
fn system_keys_are_set_once() {
    let mut keys = SystemKeyRepository::new();
    assert!(keys.get_system_keys().unwrap().is_none());
    keys.init_system_keys(SystemKeyPair { private_key: "p1".to_string(), public_key: "k1".to_string() }).unwrap();
    keys.init_system_keys(SystemKeyPair { private_key: "p2".to_string(), public_key: "k2".to_string() }).unwrap();
    assert_eq!(keys.get_system_keys().unwrap().unwrap().public_key, "k1");
}

#[test]
fn tracker_repository() {
    let mut trackers = OneTimeStampTrackerRepository::new();
    trackers.insert(9, 2).unwrap();
    assert!(matches!(trackers.insert(9, 2), Err(SmError::Database(DatabaseError::Arbitrary))));
    assert!(!trackers.get_by_id(9).unwrap().unwrap().used_or_revoked);
    trackers.set_used_or_revoked(9).unwrap();
    assert!(trackers.get_by_id(9).unwrap().unwrap().used_or_revoked);
    trackers.spend(10, 3);
    assert!(trackers.get_by_id(10).unwrap().unwrap().used_or_revoked);
    assert!(trackers.get_by_id(11).unwrap().is_none());
}

fn issue_setup() -> (UserRepository, StampRequestRepository, OneTimeStampTrackerRepository, SystemKeyRepository) {
    let mut users = UserRepository::new();
    users.create(1, "alice".to_string(), "e".to_string(), "v".to_string()).unwrap();
    users.create(2, "bob".to_string(), "e".to_string(), "v".to_string()).unwrap();
    let mut keys = SystemKeyRepository::new();
    let (public, private) = OpensslCryptographyService.generate_key_pair().unwrap();
    keys.init_system_keys(SystemKeyPair { private_key: private, public_key: public }).unwrap();
    (users, StampRequestRepository::new(), OneTimeStampTrackerRepository::new(), keys)
}

fn issue(users: &UserRepository, requests: &mut StampRequestRepository, trackers: &mut OneTimeStampTrackerRepository, keys: &SystemKeyRepository, request: u128, stamp_id: u128, now: i64) -> Result<OnetimeStamp, SmError> {
    IssueSystemStampCommand { stamp_request_id: request, sender_id: 1, proof_of_work: ProofOfWork { proof: 0 } }
        .handle(users, requests, trackers, keys, &OpensslCryptographyService, &JsonService, stamp_id, now)
}

#[test]
fn work_is_accepted_once() {
    let (users, mut requests, mut trackers, keys) = issue_setup();
    let id = RequestSystemStampIssueCommand { recipient_id: 2, sender_id: 1 }.handle(&users, &mut requests, 70, NOW).unwrap();
    assert_eq!(id, 70);
    let q = requests.get_stamp_request(70).unwrap().unwrap();
    assert_eq!(q.difficulty, 50_000);
    assert!(ProofOfWork { proof: 0 }.score(70) >= 50_000);
    assert!(issue(&users, &mut requests, &mut trackers, &keys, 70, 900, NOW + 1).is_ok());
    assert!(requests.get_stamp_request(70).unwrap().unwrap().solved_at.is_some());
    let again = issue(&users, &mut requests, &mut trackers, &keys, 70, 901, NOW + 2);
    assert!(matches!(again, Err(SmError::Stamp(StampError::StampRequestExpired))));
    assert!(trackers.get_by_id(901).unwrap().is_none());
}

#[test]
fn issuance_refusals() {
    let (users, mut requests, mut trackers, keys) = issue_setup();
    let unknown = issue(&users, &mut requests, &mut trackers, &keys, 5, 900, NOW);
    assert!(matches!(unknown, Err(SmError::Stamp(StampError::StampRequestNotFound))));
    RequestSystemStampIssueCommand { recipient_id: 2, sender_id: 1 }.handle(&users, &mut requests, 71, NOW).unwrap();
    let q = requests.get_stamp_request(71).unwrap().unwrap();
    let expired = issue(&users, &mut requests, &mut trackers, &keys, 71, 900, q.valid_to);
    assert!(matches!(expired, Err(SmError::Stamp(StampError::StampRequestExpired))));
    let no_keys = issue(&users, &mut requests, &mut trackers, &SystemKeyRepository::new(), 71, 900, NOW);
    assert!(matches!(no_keys, Err(SmError::Database(DatabaseError::Arbitrary))));
    assert!(requests.get_stamp_request(71).unwrap().unwrap().solved_at.is_none());
}

#[test]
fn recording_an_issued_stamp() {
    let mut requests = StampRequestRepository::new();
    let mut trackers = OneTimeStampTrackerRepository::new();
    requests.create_stamp_request(70, 50_000, 2, NOW).unwrap();
    let unsigned = || OnetimeStamp { stamp_id: 900, issuer_id: 0, recipient_id: 2, sender_id: 1, valid_to: Some(NOW + 5), signature: String::new() };
    let none = record_issued_stamp(unsigned(), None, 70, &mut requests, &mut trackers, NOW);
    assert!(matches!(none, Err(SmError::Database(DatabaseError::Arbitrary))));
    assert!(trackers.get_by_id(900).unwrap().is_none());
    assert!(requests.get_stamp_request(70).unwrap().unwrap().solved_at.is_none());
    let signed = record_issued_stamp(unsigned(), Some("c2ln".to_string()), 70, &mut requests, &mut trackers, NOW + 1).unwrap();
    assert_eq!(signed.signature, "c2ln");
    assert_eq!(signed.stamp_id, 900);
    assert_eq!(signed.valid_to, Some(NOW + 5));
    assert!(!trackers.get_by_id(900).unwrap().unwrap().used_or_revoked);
    assert_eq!(requests.get_stamp_request(70).unwrap().unwrap().solved_at, Some(NOW + 1));
    let twice = record_issued_stamp(unsigned(), Some("c2ln".to_string()), 70, &mut requests, &mut trackers, NOW + 2);
    assert!(matches!(twice, Err(SmError::Database(DatabaseError::Arbitrary))));
}
