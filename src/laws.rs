//! The laws that the broker upholds, stated over the models of its
//! repositories and proved from the contracts of its operations.

use vstd::prelude::*;
use crate::accounts::authenticated_user;
use crate::error::{SessionError, SmError, StampError};
use crate::mail::{message_plaintext, send_refusal, SendMessageWithOnetimeStampCommand};
use crate::model::{
    OneTimeStampTracker, OnetimeStamp, OnetimeStampRequest, PeriodicStamp, Session, SystemKeyPair,
    User,
};
use crate::services::{signature_valid, work_score};
use crate::sessions::session_with_id;
use crate::stamps::{
    issue_refusal, issuer_authorized, onetime_plaintext, onetime_verdict, periodic_plaintext,
    periodic_verdict,
};
use crate::tracking::{
    request_with_id, requests_solved, requests_unique, stamp_spent, tracker_with_id,
    trackers_after_spending, trackers_spent, trackers_unique,
};
use crate::users::user_with_id;

verus! {

proof fn lemma_tracker_at(trackers: Seq<OneTimeStampTracker>, i: int)
    requires
        trackers_unique(trackers),
        0 <= i < trackers.len(),
    ensures
        tracker_with_id(trackers, trackers[i].stamp_id) == Some(trackers[i]),
{
    let id = trackers[i].stamp_id;
    let c = choose|k: int| 0 <= k < trackers.len() && trackers[k].stamp_id == id;
    assert(c == i);
}

/// Once a stamp is spent it stays spent, whatever is done to the trackers:
/// tracking a new stamp, marking any stamp spent, or spending any stamp.
pub proof fn lemma_spent_stays_spent(
    trackers: Seq<OneTimeStampTracker>,
    spent_id: u128,
    other_id: u128,
    recipient_id: u128,
)
    requires
        trackers_unique(trackers),
        stamp_spent(trackers, spent_id),
    ensures
        stamp_spent(trackers_spent(trackers, other_id), spent_id),
        stamp_spent(trackers_after_spending(trackers, other_id, recipient_id), spent_id),
        tracker_with_id(trackers, other_id) is None ==> stamp_spent(
            trackers.push(
                OneTimeStampTracker { stamp_id: other_id, recipient_id, used_or_revoked: false },
            ),
            spent_id,
        ),
{
    let i = choose|k: int| 0 <= k < trackers.len() && trackers[k].stamp_id == spent_id;
    lemma_tracker_at(trackers, i);
    let t1 = trackers_spent(trackers, other_id);
    assert(trackers_unique(t1));
    lemma_tracker_at(t1, i);
    if tracker_with_id(trackers, other_id) is None {
        let t2 = trackers.push(
            OneTimeStampTracker { stamp_id: other_id, recipient_id, used_or_revoked: false },
        );
        let t3 = trackers.push(
            OneTimeStampTracker { stamp_id: other_id, recipient_id, used_or_revoked: true },
        );
        assert forall|k: int| 0 <= k < trackers.len() implies trackers[k].stamp_id != other_id by {
            if trackers[k].stamp_id == other_id {
                assert(tracker_with_id(trackers, other_id) is Some);
            }
        }
        assert(trackers_unique(t2));
        assert(trackers_unique(t3));
        assert(t2[i] == trackers[i]);
        assert(t3[i] == trackers[i]);
        lemma_tracker_at(t2, i);
        lemma_tracker_at(t3, i);
    }
}

/// Spending a stamp leaves it spent.
pub proof fn lemma_spending_spends(
    trackers: Seq<OneTimeStampTracker>,
    stamp_id: u128,
    recipient_id: u128,
)
    requires
        trackers_unique(trackers),
    ensures
        stamp_spent(trackers_after_spending(trackers, stamp_id, recipient_id), stamp_id),
{
    if tracker_with_id(trackers, stamp_id) is Some {
        let i = choose|k: int| 0 <= k < trackers.len() && trackers[k].stamp_id == stamp_id;
        let t1 = trackers_spent(trackers, stamp_id);
        assert(trackers_unique(t1));
        lemma_tracker_at(t1, i);
    } else {
        let t = trackers.push(
            OneTimeStampTracker { stamp_id, recipient_id, used_or_revoked: true },
        );
        assert forall|k: int| 0 <= k < trackers.len() implies trackers[k].stamp_id != stamp_id by {
            if trackers[k].stamp_id == stamp_id {
                assert(tracker_with_id(trackers, stamp_id) is Some);
            }
        }
        assert(trackers_unique(t));
        lemma_tracker_at(t, trackers.len() as int);
    }
}

/// A send that presents a spent one-time stamp, from a known sender, is
/// refused as an invalid stamp.
pub proof fn lemma_spent_stamp_refused(
    users: Seq<User>,
    trackers: Seq<OneTimeStampTracker>,
    keys: Option<SystemKeyPair>,
    command: SendMessageWithOnetimeStampCommand,
    now: i64,
)
    requires
        stamp_spent(trackers, command.stamp.stamp_id),
        user_with_id(users, command.sender_id) is Some,
    ensures
        command.refusal(users, trackers, keys, now) == Some(SmError::Stamp(StampError::InvalidStamp)),
{
}

/// A stamp of either kind is valid only if its issuer is its recipient or
/// the broker itself.
pub proof fn lemma_stamp_authority(
    users: Seq<User>,
    trackers: Seq<OneTimeStampTracker>,
    keys: Option<SystemKeyPair>,
    onetime: OnetimeStamp,
    periodic: PeriodicStamp,
    now: i64,
)
    ensures
        onetime_verdict(users, trackers, keys, onetime, now) == Ok::<bool, SmError>(true)
            ==> issuer_authorized(onetime.issuer_id, onetime.recipient_id),
        periodic_verdict(users, periodic, now) == Ok::<bool, SmError>(true) ==> issuer_authorized(
            periodic.issuer_id,
            periodic.recipient_id,
        ),
{
}

/// Once a session has expired, authenticating with it is `SessionNotFound`.
pub proof fn lemma_expired_session_refused(
    users: Seq<User>,
    sessions: Seq<Session>,
    session_id: u128,
    now: i64,
)
    requires
        session_with_id(sessions, session_id) matches Some(s) && now >= s.expires_at_utc,
    ensures
        authenticated_user(users, sessions, session_id, now) == Err::<User, SmError>(
            SmError::Session(SessionError::SessionNotFound),
        ),
{
}

/// A message that is admitted carries its sender's signature over its
/// metadata and content, under the sender's registered verify key.
pub proof fn lemma_admitted_message_signed(
    users: Seq<User>,
    sender_id: u128,
    recipient_id: u128,
    metadata: Seq<char>,
    content: Seq<char>,
    signature: Seq<char>,
    verdict: Result<bool, SmError>,
    stamp_sender_id: u128,
    stamp_recipient_id: u128,
)
    requires
        send_refusal(
            users,
            sender_id,
            recipient_id,
            metadata,
            content,
            signature,
            verdict,
            stamp_sender_id,
            stamp_recipient_id,
        ) is None,
    ensures
        user_with_id(users, sender_id) matches Some(u) && signature_valid(
            message_plaintext(metadata, content),
            signature,
            u.public_verify_key@,
        ),
{
}

/// Equal stamp fields give byte-identical signing input.
pub proof fn lemma_signing_input_deterministic(
    a: OnetimeStamp,
    b: OnetimeStamp,
    p: PeriodicStamp,
    q: PeriodicStamp,
)
    requires
        a.stamp_id == b.stamp_id && a.issuer_id == b.issuer_id && a.recipient_id == b.recipient_id
            && a.sender_id == b.sender_id && a.valid_to == b.valid_to,
        p.issuer_id == q.issuer_id && p.recipient_id == q.recipient_id && p.sender_id == q.sender_id
            && p.valid_from == q.valid_from && p.valid_to == q.valid_to,
    ensures
        onetime_plaintext(a) == onetime_plaintext(b),
        periodic_plaintext(p) == periodic_plaintext(q),
{
}

/// Issuance goes ahead only for a proof whose score reaches the request's
/// difficulty; once it went ahead, the request is solved and issuing for it
/// again is refused.
pub proof fn lemma_work_accepted_once(
    users: Seq<User>,
    requests: Seq<OnetimeStampRequest>,
    trackers: Seq<OneTimeStampTracker>,
    keys: Option<SystemKeyPair>,
    request_id: u128,
    proof: u128,
    stamp_id: u128,
    now: i64,
    later_proof: u128,
    later_stamp_id: u128,
    later: i64,
    later_trackers: Seq<OneTimeStampTracker>,
)
    requires
        requests_unique(requests),
        issue_refusal(users, requests, trackers, keys, request_id, proof, stamp_id, now) is None,
    ensures
        request_with_id(requests, request_id) matches Some(q) && (work_score(proof, request_id)
            as int) >= (q.difficulty as int),
        issue_refusal(
            users,
            requests_solved(requests, request_id, now),
            later_trackers,
            keys,
            request_id,
            later_proof,
            later_stamp_id,
            later,
        ) == Some(SmError::Stamp(StampError::StampRequestExpired)),
{
    let i = choose|k: int| 0 <= k < requests.len() && requests[k].stamp_request_id == request_id;
    let solved = requests_solved(requests, request_id, now);
    assert(requests_unique(solved));
    assert(solved[i].stamp_request_id == request_id);
    let c = choose|k: int| 0 <= k < solved.len() && solved[k].stamp_request_id == request_id;
    assert(c == i);
}

} // verus!
