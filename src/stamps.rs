//! The stamp engine: canonical signing input, verification of periodic and
//! one-time stamps, and system issuance of one-time stamps against proof of
//! work.

use vstd::prelude::*;
use crate::error::{DatabaseError, SmError, StampError, UserError};
use crate::model::{
    OneTimeStampTracker, OnetimeStamp, OnetimeStampRequest, PeriodicStamp, SystemKeyPair, User,
    BASE_STAMP_DIFFICULTY, LATEST_INSTANT, ONETIME_STAMP_LIFETIME, STAMP_REQUEST_WINDOW,
    SYSTEM_ISSUER,
};
use crate::services::{
    is_base64_text, json_of_id, json_of_instant, json_of_optional_instant, signature_valid,
    work_score, CryptographyService, JsonService, ProofOfWork,
};
use crate::tracking::{
    request_with_id, requests_solved, stamp_spent, tracker_with_id, OneTimeStampTrackerRepository,
    StampRequestRepository, SystemKeyRepository,
};
use crate::users::{user_with_id, UserRepository};

verus! {

/// Only the recipient or the broker itself may issue a stamp to a recipient.
pub open spec fn issuer_authorized(issuer_id: u128, recipient_id: u128) -> bool {
    issuer_id == recipient_id || issuer_id == SYSTEM_ISSUER
}

/// The text that a periodic stamp's signature signs: the JSON forms of its
/// issuer, recipient, sender, start and end, one per line.
pub open spec fn periodic_signing_input(
    issuer_id: u128,
    recipient_id: u128,
    sender_id: u128,
    valid_from: i64,
    valid_to: i64,
) -> Seq<char> {
    json_of_id(issuer_id) + "\n"@ + json_of_id(recipient_id) + "\n"@ + json_of_id(sender_id)
        + "\n"@ + json_of_instant(valid_from) + "\n"@ + json_of_instant(valid_to)
}

/// The text that a one-time stamp's signature signs: the JSON forms of its
/// identifier, issuer, recipient, sender and end (`null` if open), one per
/// line.
pub open spec fn onetime_signing_input(
    stamp_id: u128,
    issuer_id: u128,
    recipient_id: u128,
    sender_id: u128,
    valid_to: Option<i64>,
) -> Seq<char> {
    json_of_id(stamp_id) + "\n"@ + json_of_id(issuer_id) + "\n"@ + json_of_id(recipient_id) + "\n"@
        + json_of_id(sender_id) + "\n"@ + json_of_optional_instant(valid_to)
}

pub open spec fn periodic_plaintext(s: PeriodicStamp) -> Seq<char> {
    periodic_signing_input(s.issuer_id, s.recipient_id, s.sender_id, s.valid_from, s.valid_to)
}

pub open spec fn onetime_plaintext(s: OnetimeStamp) -> Seq<char> {
    onetime_signing_input(s.stamp_id, s.issuer_id, s.recipient_id, s.sender_id, s.valid_to)
}

/// The verdict on a periodic stamp at `now`: both parties must be known
/// (else `InvalidStamp`); then it is valid iff `now` lies in the stamp's
/// period, the issuer's signature verifies and the issuer may issue it.
pub open spec fn periodic_verdict(users: Seq<User>, s: PeriodicStamp, now: i64) -> Result<
    bool,
    SmError,
> {
    match user_with_id(users, s.issuer_id) {
        None => Err(SmError::Stamp(StampError::InvalidStamp)),
        Some(issuer) => match user_with_id(users, s.recipient_id) {
            None => Err(SmError::Stamp(StampError::InvalidStamp)),
            Some(_) => Ok(
                s.valid_from <= now && now <= s.valid_to && signature_valid(
                    periodic_plaintext(s),
                    s.signature@,
                    issuer.public_verify_key@,
                ) && issuer_authorized(s.issuer_id, s.recipient_id),
            ),
        },
    }
}

/// The key that verifies stamps of `issuer_id`: the broker's own for the
/// system issuer (its absence is a fault), else the issuer's verify key.
pub open spec fn issuer_key(users: Seq<User>, keys: Option<SystemKeyPair>, issuer_id: u128) -> Result<
    Seq<char>,
    SmError,
> {
    if issuer_id == SYSTEM_ISSUER {
        match keys {
            Some(k) => Ok(k.public_key@),
            None => Err(SmError::Database(DatabaseError::Arbitrary)),
        }
    } else {
        match user_with_id(users, issuer_id) {
            Some(u) => Ok(u.public_verify_key@),
            None => Err(SmError::User(UserError::UserNotFound)),
        }
    }
}

/// The verdict on a one-time stamp at `now`: a spent stamp is invalid; then
/// the issuer's key and the recipient must resolve, and an end that has
/// passed is `InvalidTimePeriod`; then it is valid iff the signature verifies
/// and the issuer may issue it.
pub open spec fn onetime_verdict(
    users: Seq<User>,
    trackers: Seq<OneTimeStampTracker>,
    keys: Option<SystemKeyPair>,
    s: OnetimeStamp,
    now: i64,
) -> Result<bool, SmError> {
    if stamp_spent(trackers, s.stamp_id) {
        Ok(false)
    } else {
        match issuer_key(users, keys, s.issuer_id) {
            Err(e) => Err(e),
            Ok(key) => if user_with_id(users, s.recipient_id) is None {
                Err(SmError::User(UserError::UserNotFound))
            } else if s.valid_to matches Some(t) && t < now {
                Err(SmError::Stamp(StampError::InvalidTimePeriod))
            } else {
                Ok(
                    signature_valid(onetime_plaintext(s), s.signature@, key) && issuer_authorized(
                        s.issuer_id,
                        s.recipient_id,
                    ),
                )
            },
        }
    }
}

/// The canonical signing input of a periodic stamp.
pub fn periodic_signing_text(json: &JsonService, s: &PeriodicStamp) -> (r: String)
    ensures
        r@ == periodic_plaintext(*s),
{
    let mut r = json.serialize_id(s.issuer_id);
    r.append("\n");
    let part = json.serialize_id(s.recipient_id);
    r.append(part.as_str());
    r.append("\n");
    let part = json.serialize_id(s.sender_id);
    r.append(part.as_str());
    r.append("\n");
    let part = json.serialize_instant(s.valid_from);
    r.append(part.as_str());
    r.append("\n");
    let part = json.serialize_instant(s.valid_to);
    r.append(part.as_str());
    r
}

/// The canonical signing input of a one-time stamp.
pub fn onetime_signing_text(json: &JsonService, s: &OnetimeStamp) -> (r: String)
    ensures
        r@ == onetime_plaintext(*s),
{
    let mut r = json.serialize_id(s.stamp_id);
    r.append("\n");
    let part = json.serialize_id(s.issuer_id);
    r.append(part.as_str());
    r.append("\n");
    let part = json.serialize_id(s.recipient_id);
    r.append(part.as_str());
    r.append("\n");
    let part = json.serialize_id(s.sender_id);
    r.append(part.as_str());
    r.append("\n");
    let part = json.serialize_optional_instant(s.valid_to);
    r.append(part.as_str());
    r
}

/// Verification of a periodic stamp.
pub struct VerifyPeriodicStampCommand(pub PeriodicStamp);

impl VerifyPeriodicStampCommand {
    pub fn handle<CS: CryptographyService>(
        self,
        user_repository: &UserRepository,
        cryptography_service: &CS,
        serialize_service: &JsonService,
        now: i64,
    ) -> (r: Result<bool, SmError>)
        requires
            user_repository.wf(),
        ensures
            r == periodic_verdict(user_repository@, self.0, now),
    {
        let stamp = self.0;
        let issuer = match user_repository.find_by_id(stamp.issuer_id) {
            Some(u) => u,
            None => return Err(SmError::Stamp(StampError::InvalidStamp)),
        };
        let recipient = match user_repository.find_by_id(stamp.recipient_id) {
            Some(u) => u,
            None => return Err(SmError::Stamp(StampError::InvalidStamp)),
        };
        if now < stamp.valid_from || stamp.valid_to < now {
            return Ok(false);
        }
        let plaintext = periodic_signing_text(serialize_service, &stamp);
        let signed = cryptography_service.validate_signature(
            plaintext.as_str(),
            stamp.signature.as_str(),
            issuer.public_verify_key.as_str(),
        );
        proof {
            let i = choose|i: int|
                0 <= i < user_repository@.len() && user_repository@[i].id == stamp.issuer_id;
            let j = choose|j: int|
                0 <= j < user_repository@.len() && user_repository@[j].id == stamp.recipient_id;
        }
        Ok(signed && (issuer.id == recipient.id || issuer.id == SYSTEM_ISSUER))
    }
}

/// Verification of a one-time stamp; it does not spend the stamp.
pub struct VerifyOnetimeStampCommand(pub OnetimeStamp);

impl VerifyOnetimeStampCommand {
    pub fn handle<CS: CryptographyService>(
        self,
        user_repository: &UserRepository,
        cryptography_service: &CS,
        serialize_service: &JsonService,
        tracker_repository: &OneTimeStampTrackerRepository,
        system_key_repository: &SystemKeyRepository,
        now: i64,
    ) -> (r: Result<bool, SmError>)
        requires
            user_repository.wf(),
            tracker_repository.wf(),
        ensures
            r == onetime_verdict(
                user_repository@,
                tracker_repository@,
                system_key_repository@,
                self.0,
                now,
            ),
    {
        let stamp = self.0;
        let existing = tracker_repository.get_by_id(stamp.stamp_id);
        if let Ok(Some(tracker)) = existing {
            if tracker.used_or_revoked {
                return Ok(false);
            }
        }
        let issuer_key = if stamp.issuer_id == SYSTEM_ISSUER {
            match system_key_repository.get_system_keys() {
                Ok(Some(keys)) => keys.public_key,
                _ => return Err(SmError::Database(DatabaseError::Arbitrary)),
            }
        } else {
            match user_repository.find_by_id(stamp.issuer_id) {
                Some(issuer) => issuer.public_verify_key,
                None => return Err(SmError::User(UserError::UserNotFound)),
            }
        };
        let recipient = match user_repository.find_by_id(stamp.recipient_id) {
            Some(u) => u,
            None => return Err(SmError::User(UserError::UserNotFound)),
        };
        if let Some(valid_to) = stamp.valid_to {
            if valid_to < now {
                return Err(SmError::Stamp(StampError::InvalidTimePeriod));
            }
        }
        let plaintext = onetime_signing_text(serialize_service, &stamp);
        let signed = cryptography_service.validate_signature(
            plaintext.as_str(),
            stamp.signature.as_str(),
            issuer_key.as_str(),
        );
        proof {
            let j = choose|j: int|
                0 <= j < user_repository@.len() && user_repository@[j].id == stamp.recipient_id;
        }
        Ok(signed && (stamp.issuer_id == recipient.id || stamp.issuer_id == SYSTEM_ISSUER))
    }
}

/// A request for the broker to issue a one-time stamp from `sender_id` to
/// `recipient_id`.
pub struct RequestSystemStampIssueCommand {
    pub recipient_id: u128,
    pub sender_id: u128,
}

impl RequestSystemStampIssueCommand {
    /// Records request `stamp_request_id` at the base difficulty, once both
    /// parties are known (else `UserNotFound`).
    pub fn handle(
        self,
        user_repository: &UserRepository,
        stamp_request_repository: &mut StampRequestRepository,
        stamp_request_id: u128,
        now: i64,
    ) -> (r: Result<u128, SmError>)
        requires
            user_repository.wf(),
            old(stamp_request_repository).wf(),
            now <= LATEST_INSTANT,
        ensures
            final(stamp_request_repository).wf(),
            user_with_id(user_repository@, self.recipient_id) is None || user_with_id(
                user_repository@,
                self.sender_id,
            ) is None ==> r == Err::<u128, SmError>(SmError::User(UserError::UserNotFound))
                && final(stamp_request_repository)@ == old(stamp_request_repository)@,
            user_with_id(user_repository@, self.recipient_id) is Some && user_with_id(
                user_repository@,
                self.sender_id,
            ) is Some ==> (r == Ok::<u128, SmError>(stamp_request_id) <==> request_with_id(
                old(stamp_request_repository)@,
                stamp_request_id,
            ) is None),
            r is Ok ==> request_with_id(final(stamp_request_repository)@, stamp_request_id)
                == Some(
                OnetimeStampRequest {
                    stamp_request_id,
                    recipient_id: self.recipient_id,
                    difficulty: BASE_STAMP_DIFFICULTY,
                    valid_to: (now + STAMP_REQUEST_WINDOW) as i64,
                    solved_at: None,
                },
            ),
            r is Err ==> final(stamp_request_repository)@ == old(stamp_request_repository)@,
            r is Ok ==> r == Ok::<u128, SmError>(stamp_request_id),
            r is Err && user_with_id(user_repository@, self.recipient_id) is Some && user_with_id(
                user_repository@,
                self.sender_id,
            ) is Some ==> r == Err::<u128, SmError>(SmError::Database(DatabaseError::Arbitrary)),
    {
        let recipient = match user_repository.find_by_id(self.recipient_id) {
            Some(u) => u,
            None => return Err(SmError::User(UserError::UserNotFound)),
        };
        if user_repository.find_by_id(self.sender_id).is_none() {
            return Err(SmError::User(UserError::UserNotFound));
        }
        proof {
            let j = choose|j: int|
                0 <= j < user_repository@.len() && user_repository@[j].id == self.recipient_id;
        }
        let r = stamp_request_repository.create_stamp_request(
            stamp_request_id,
            BASE_STAMP_DIFFICULTY,
            recipient.id,
            now,
        );
        proof {
            if r is Ok {
                let q = stamp_request_repository@;
                let n = (q.len() - 1) as int;
                assert(q[n].stamp_request_id == stamp_request_id);
                let c = choose|i: int| 0 <= i < q.len() && q[i].stamp_request_id == stamp_request_id;
                assert(c == n);
            }
        }
        r
    }
}

/// Why issuance for request `request_id` is refused before anything is
/// signed, if it is: an unknown request, one that has expired or was solved
/// already, too little work, an unknown recipient, missing system keys, or a
/// stamp identifier that is tracked already.
pub open spec fn issue_refusal(
    users: Seq<User>,
    requests: Seq<OnetimeStampRequest>,
    trackers: Seq<OneTimeStampTracker>,
    keys: Option<SystemKeyPair>,
    request_id: u128,
    proof: u128,
    stamp_id: u128,
    now: i64,
) -> Option<SmError> {
    match request_with_id(requests, request_id) {
        None => Some(SmError::Stamp(StampError::StampRequestNotFound)),
        Some(q) => if q.valid_to <= now || q.solved_at is Some {
            Some(SmError::Stamp(StampError::StampRequestExpired))
        } else if (work_score(proof, request_id) as int) < (q.difficulty as int) {
            Some(SmError::Stamp(StampError::InvalidProofOfWork))
        } else if user_with_id(users, q.recipient_id) is None {
            Some(SmError::User(UserError::UserNotFound))
        } else if keys is None {
            Some(SmError::Database(DatabaseError::Arbitrary))
        } else if tracker_with_id(trackers, stamp_id) is Some {
            Some(SmError::Database(DatabaseError::Arbitrary))
        } else {
            None
        },
    }
}

/// `stamp` with signature `signature`.
pub open spec fn with_signature(stamp: OnetimeStamp, signature: String) -> OnetimeStamp {
    OnetimeStamp {
        stamp_id: stamp.stamp_id,
        issuer_id: stamp.issuer_id,
        recipient_id: stamp.recipient_id,
        sender_id: stamp.sender_id,
        valid_to: stamp.valid_to,
        signature,
    }
}

/// Completes the issuance of `unsigned` for request `request_id` once the
/// signer has answered: with a signature, the stamp carries it, is tracked
/// unspent and the request is marked solved at `now`; without one, or when
/// the stamp is tracked already, a database fault that changes nothing.
pub fn record_issued_stamp(
    unsigned: OnetimeStamp,
    signature: Option<String>,
    request_id: u128,
    stamp_request_repo: &mut StampRequestRepository,
    tracker_repo: &mut OneTimeStampTrackerRepository,
    now: i64,
) -> (r: Result<OnetimeStamp, SmError>)
    requires
        old(stamp_request_repo).wf(),
        old(tracker_repo).wf(),
    ensures
        final(stamp_request_repo).wf(),
        final(tracker_repo).wf(),
        signature is None || tracker_with_id(old(tracker_repo)@, unsigned.stamp_id) is Some ==> r
            == Err::<OnetimeStamp, SmError>(SmError::Database(DatabaseError::Arbitrary))
            && final(stamp_request_repo)@ == old(stamp_request_repo)@ && final(tracker_repo)@
            == old(tracker_repo)@,
        signature matches Some(sig) ==> (tracker_with_id(old(tracker_repo)@, unsigned.stamp_id)
            is None ==> {
            &&& r == Ok::<OnetimeStamp, SmError>(with_signature(unsigned, sig))
            &&& final(tracker_repo)@ == old(tracker_repo)@.push(
                OneTimeStampTracker {
                    stamp_id: unsigned.stamp_id,
                    recipient_id: unsigned.recipient_id,
                    used_or_revoked: false,
                },
            )
            &&& final(stamp_request_repo)@ == requests_solved(
                old(stamp_request_repo)@,
                request_id,
                now,
            )
        }),
{
    let sig = match signature {
        Some(sig) => sig,
        None => return Err(SmError::Database(DatabaseError::Arbitrary)),
    };
    if tracker_repo.insert(unsigned.stamp_id, unsigned.recipient_id).is_err() {
        return Err(SmError::Database(DatabaseError::Arbitrary));
    }
    let _ = stamp_request_repo.mark_solved(request_id, now);
    Ok(
        OnetimeStamp {
            stamp_id: unsigned.stamp_id,
            issuer_id: unsigned.issuer_id,
            recipient_id: unsigned.recipient_id,
            sender_id: unsigned.sender_id,
            valid_to: unsigned.valid_to,
            signature: sig,
        },
    )
}

/// Issuance of a one-time stamp for a solved stamp request.
pub struct IssueSystemStampCommand {
    pub stamp_request_id: u128,
    pub sender_id: u128,
    pub proof_of_work: ProofOfWork,
}

impl IssueSystemStampCommand {
    /// Mints stamp `stamp_id` from the broker to the request's recipient,
    /// valid for fifteen minutes after `now`, signs it with the system key,
    /// tracks it unspent and marks the request solved. Refusals change
    /// nothing; so does a signing failure, a database fault.
    pub fn handle<CS: CryptographyService>(
        self,
        user_repository: &UserRepository,
        stamp_request_repo: &mut StampRequestRepository,
        tracker_repo: &mut OneTimeStampTrackerRepository,
        system_key_repo: &SystemKeyRepository,
        crypto_service: &CS,
        serialize_service: &JsonService,
        stamp_id: u128,
        now: i64,
    ) -> (r: Result<OnetimeStamp, SmError>)
        requires
            user_repository.wf(),
            old(stamp_request_repo).wf(),
            old(tracker_repo).wf(),
            now <= LATEST_INSTANT,
        ensures
            final(stamp_request_repo).wf(),
            final(tracker_repo).wf(),
            ({
                let refusal = issue_refusal(
                    user_repository@,
                    old(stamp_request_repo)@,
                    old(tracker_repo)@,
                    system_key_repo@,
                    self.stamp_request_id,
                    self.proof_of_work.proof,
                    stamp_id,
                    now,
                );
                &&& refusal matches Some(e) ==> r == Err::<OnetimeStamp, SmError>(e)
                &&& refusal is None && r is Err ==> r == Err::<OnetimeStamp, SmError>(
                    SmError::Database(DatabaseError::Arbitrary),
                )
            }),
            r is Err ==> final(stamp_request_repo)@ == old(stamp_request_repo)@
                && final(tracker_repo)@ == old(tracker_repo)@,
            (request_with_id(old(stamp_request_repo)@, self.stamp_request_id) matches Some(q)
                && now < q.valid_to && q.solved_at is None && (work_score(
                self.proof_of_work.proof,
                self.stamp_request_id,
            ) as int) < (q.difficulty as int)) ==> r == Err::<OnetimeStamp, SmError>(
                SmError::Stamp(StampError::InvalidProofOfWork),
            ),
            r matches Ok(st) ==> {
                &&& issue_refusal(
                    user_repository@,
                    old(stamp_request_repo)@,
                    old(tracker_repo)@,
                    system_key_repo@,
                    self.stamp_request_id,
                    self.proof_of_work.proof,
                    stamp_id,
                    now,
                ) is None
                &&& request_with_id(old(stamp_request_repo)@, self.stamp_request_id) matches Some(q)
                    && st.recipient_id == q.recipient_id
                &&& st.stamp_id == stamp_id
                &&& st.issuer_id == SYSTEM_ISSUER
                &&& st.sender_id == self.sender_id
                &&& st.valid_to == Some((now + ONETIME_STAMP_LIFETIME) as i64)
                &&& is_base64_text(st.signature@)
                &&& st.signature@.len() > 0
                &&& final(tracker_repo)@ == old(tracker_repo)@.push(
                    OneTimeStampTracker {
                        stamp_id,
                        recipient_id: st.recipient_id,
                        used_or_revoked: false,
                    },
                )
                &&& final(stamp_request_repo)@ == requests_solved(
                    old(stamp_request_repo)@,
                    self.stamp_request_id,
                    now,
                )
            },
    {
        let request = match stamp_request_repo.get_stamp_request(self.stamp_request_id) {
            Ok(Some(q)) => q,
            _ => return Err(SmError::Stamp(StampError::StampRequestNotFound)),
        };
        if request.valid_to <= now || request.solved_at.is_some() {
            return Err(SmError::Stamp(StampError::StampRequestExpired));
        }
        let score = self.proof_of_work.score(self.stamp_request_id);
        let enough = request.difficulty <= 0 || score >= request.difficulty as u128;
        if !enough {
            return Err(SmError::Stamp(StampError::InvalidProofOfWork));
        }
        let recipient = match user_repository.find_by_id(request.recipient_id) {
            Some(u) => u,
            None => return Err(SmError::User(UserError::UserNotFound)),
        };
        let system_keys = match system_key_repo.get_system_keys() {
            Ok(Some(k)) => k,
            _ => return Err(SmError::Database(DatabaseError::Arbitrary)),
        };
        match tracker_repo.get_by_id(stamp_id) {
            Ok(None) => {},
            _ => return Err(SmError::Database(DatabaseError::Arbitrary)),
        }
        let unsigned = OnetimeStamp {
            stamp_id,
            issuer_id: SYSTEM_ISSUER,
            recipient_id: recipient.id,
            sender_id: self.sender_id,
            valid_to: Some(now + ONETIME_STAMP_LIFETIME),
            signature: String::new(),
        };
        let plaintext = onetime_signing_text(serialize_service, &unsigned);
        let signature = crypto_service.produce_signature(
            plaintext.as_str(),
            system_keys.private_key.as_str(),
        );
        proof {
            let j = choose|j: int|
                0 <= j < user_repository@.len() && user_repository@[j].id == request.recipient_id;
        }
        record_issued_stamp(
            unsigned,
            signature,
            self.stamp_request_id,
            stamp_request_repo,
            tracker_repo,
            now,
        )
    }
}

} // verus!
