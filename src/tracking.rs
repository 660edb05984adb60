//! What the broker remembers of stamps: the one-time stamps it issued and
//! whether they were spent, the proof-of-work requests it handed out, and
//! its own signing keys.

use vstd::prelude::*;
use crate::error::{DatabaseError, SmError};
use crate::model::{
    OneTimeStampTracker, OnetimeStampRequest, SystemKeyPair, LATEST_INSTANT, STAMP_REQUEST_WINDOW,
};

verus! {

/// The tracker of stamp `id` among `trackers`, if any.
pub open spec fn tracker_with_id(trackers: Seq<OneTimeStampTracker>, id: u128) -> Option<
    OneTimeStampTracker,
> {
    if exists|i: int| 0 <= i < trackers.len() && trackers[i].stamp_id == id {
        Some(trackers[choose|i: int| 0 <= i < trackers.len() && trackers[i].stamp_id == id])
    } else {
        None
    }
}

/// No two trackers share a stamp identifier.
pub open spec fn trackers_unique(trackers: Seq<OneTimeStampTracker>) -> bool {
    forall|i: int, j: int|
        0 <= i < trackers.len() && 0 <= j < trackers.len() && i != j ==> trackers[i].stamp_id
            != trackers[j].stamp_id
}

/// No two requests share an identifier.
pub open spec fn requests_unique(requests: Seq<OnetimeStampRequest>) -> bool {
    forall|i: int, j: int|
        0 <= i < requests.len() && 0 <= j < requests.len() && i != j
            ==> requests[i].stamp_request_id != requests[j].stamp_request_id
}

/// Whether stamp `id` was spent or revoked.
pub open spec fn stamp_spent(trackers: Seq<OneTimeStampTracker>, id: u128) -> bool {
    match tracker_with_id(trackers, id) {
        Some(t) => t.used_or_revoked,
        None => false,
    }
}

/// The trackers after stamp `id` was marked spent.
pub open spec fn trackers_spent(trackers: Seq<OneTimeStampTracker>, id: u128) -> Seq<
    OneTimeStampTracker,
> {
    trackers.map_values(
        |t: OneTimeStampTracker|
            if t.stamp_id == id {
                OneTimeStampTracker {
                    stamp_id: t.stamp_id,
                    recipient_id: t.recipient_id,
                    used_or_revoked: true,
                }
            } else {
                t
            },
    )
}

/// The trackers after stamp `id`, to `recipient_id`, was spent.
pub open spec fn trackers_after_spending(
    trackers: Seq<OneTimeStampTracker>,
    id: u128,
    recipient_id: u128,
) -> Seq<OneTimeStampTracker> {
    if tracker_with_id(trackers, id) is Some {
        trackers_spent(trackers, id)
    } else {
        trackers.push(OneTimeStampTracker { stamp_id: id, recipient_id, used_or_revoked: true })
    }
}

/// The request `id` among `requests`, if any.
pub open spec fn request_with_id(requests: Seq<OnetimeStampRequest>, id: u128) -> Option<
    OnetimeStampRequest,
> {
    if exists|i: int| 0 <= i < requests.len() && requests[i].stamp_request_id == id {
        Some(
            requests[choose|i: int| 0 <= i < requests.len() && requests[i].stamp_request_id == id],
        )
    } else {
        None
    }
}

/// The requests after request `id` was solved at `now`.
pub open spec fn requests_solved(requests: Seq<OnetimeStampRequest>, id: u128, now: i64) -> Seq<
    OnetimeStampRequest,
> {
    requests.map_values(
        |q: OnetimeStampRequest|
            if q.stamp_request_id == id {
                OnetimeStampRequest {
                    stamp_request_id: q.stamp_request_id,
                    recipient_id: q.recipient_id,
                    difficulty: q.difficulty,
                    valid_to: q.valid_to,
                    solved_at: Some(now),
                }
            } else {
                q
            },
    )
}

/// The one-time stamps that the broker tracks.
pub struct OneTimeStampTrackerRepository {
    trackers: Vec<OneTimeStampTracker>,
}

impl View for OneTimeStampTrackerRepository {
    type V = Seq<OneTimeStampTracker>;

    closed spec fn view(&self) -> Seq<OneTimeStampTracker> {
        self.trackers@
    }
}

impl OneTimeStampTrackerRepository {
    pub open spec fn wf(&self) -> bool {
        trackers_unique(self@)
    }

    pub fn new() -> (r: OneTimeStampTrackerRepository)
        ensures
            r.wf(),
            r@ == Seq::<OneTimeStampTracker>::empty(),
    {
        OneTimeStampTrackerRepository { trackers: Vec::new() }
    }

    fn index_of(&self, id: u128) -> (r: Option<usize>)
        requires
            self.wf(),
        ensures
            match r {
                Some(i) => i < self@.len() && self@[i as int].stamp_id == id
                    && tracker_with_id(self@, id) == Some(self@[i as int]),
                None => tracker_with_id(self@, id) is None,
            },
    {
        let mut i: usize = 0;
        while i < self.trackers.len()
            invariant
                i <= self@.len(),
                self.wf(),
                forall|k: int| 0 <= k < i ==> self@[k].stamp_id != id,
            decreases self@.len() - i,
        {
            if self.trackers[i].stamp_id == id {
                assert(self@[i as int].stamp_id == id);
                let ghost c = choose|k: int| 0 <= k < self@.len() && self@[k].stamp_id == id;
                assert(c == i as int);
                return Some(i);
            }
            i = i + 1;
        }
        None
    }

    /// Starts tracking stamp `stamp_id`, unspent; a stamp tracked already is
    /// a database fault.
    pub fn insert(&mut self, stamp_id: u128, recipient_id: u128) -> (r: Result<(), SmError>)
        requires
            old(self).wf(),
        ensures
            final(self).wf(),
            tracker_with_id(old(self)@, stamp_id) is Some ==> r == Err::<(), SmError>(
                SmError::Database(DatabaseError::Arbitrary),
            ) && final(self)@ == old(self)@,
            tracker_with_id(old(self)@, stamp_id) is None ==> r is Ok && final(self)@ == old(
                self,
            )@.push(OneTimeStampTracker { stamp_id, recipient_id, used_or_revoked: false }),
    {
        if self.index_of(stamp_id).is_some() {
            return Err(SmError::Database(DatabaseError::Arbitrary));
        }
        proof {
            assert forall|k: int| 0 <= k < self@.len() implies self@[k].stamp_id != stamp_id by {
                if self@[k].stamp_id == stamp_id {
                    assert(tracker_with_id(self@, stamp_id) is Some);
                }
            }
        }
        self.trackers.push(OneTimeStampTracker { stamp_id, recipient_id, used_or_revoked: false });
        Ok(())
    }

    pub fn get_by_id(&self, stamp_id: u128) -> (r: Result<Option<OneTimeStampTracker>, SmError>)
        requires
            self.wf(),
        ensures
            r == Ok::<Option<OneTimeStampTracker>, SmError>(tracker_with_id(self@, stamp_id)),
    {
        match self.index_of(stamp_id) {
            Some(i) => Ok(Some(self.trackers[i])),
            None => Ok(None),
        }
    }

    /// Marks stamp `stamp_id` spent; an untracked stamp is left alone.
    pub fn set_used_or_revoked(&mut self, stamp_id: u128) -> (r: Result<(), SmError>)
        requires
            old(self).wf(),
        ensures
            final(self).wf(),
            r is Ok,
            final(self)@ == trackers_spent(old(self)@, stamp_id),
    {
        let ghost before = self@;
        match self.index_of(stamp_id) {
            None => {
                proof {
                    assert forall|k: int| 0 <= k < before.len() implies before[k].stamp_id
                        != stamp_id by {
                        if before[k].stamp_id == stamp_id {
                            assert(tracker_with_id(before, stamp_id) is Some);
                        }
                    }
                    assert(self@ =~= trackers_spent(before, stamp_id));
                }
                Ok(())
            },
            Some(i) => {
                let t = self.trackers[i];
                self.trackers.set(
                    i,
                    OneTimeStampTracker {
                        stamp_id: t.stamp_id,
                        recipient_id: t.recipient_id,
                        used_or_revoked: true,
                    },
                );
                proof {
                    assert forall|k: int| 0 <= k < before.len() && k != i implies before[k].stamp_id
                        != stamp_id by {
                        assert(before[i as int].stamp_id == stamp_id);
                    }
                    assert(self@ =~= trackers_spent(before, stamp_id));
                }
                Ok(())
            },
        }
    }
    /// Spends stamp `stamp_id`: marks its tracker spent, or starts tracking
    /// it spent if it was not tracked, so that it is never admitted again.
    pub fn spend(&mut self, stamp_id: u128, recipient_id: u128)
        requires
            old(self).wf(),
        ensures
            final(self).wf(),
            final(self)@ == trackers_after_spending(old(self)@, stamp_id, recipient_id),
    {
        let ghost before = self@;
        if self.index_of(stamp_id).is_none() {
            proof {
                assert forall|k: int| 0 <= k < self@.len() implies self@[k].stamp_id != stamp_id by {
                    if self@[k].stamp_id == stamp_id {
                        assert(tracker_with_id(self@, stamp_id) is Some);
                    }
                }
            }
            self.trackers.push(OneTimeStampTracker { stamp_id, recipient_id, used_or_revoked: true });
        } else {
            let _ = self.set_used_or_revoked(stamp_id);
        }
    }
}

/// The proof-of-work stamp requests that the broker handed out.
pub struct StampRequestRepository {
    requests: Vec<OnetimeStampRequest>,
}

impl View for StampRequestRepository {
    type V = Seq<OnetimeStampRequest>;

    closed spec fn view(&self) -> Seq<OnetimeStampRequest> {
        self.requests@
    }
}

impl StampRequestRepository {
    pub open spec fn wf(&self) -> bool {
        requests_unique(self@)
    }

    pub fn new() -> (r: StampRequestRepository)
        ensures
            r.wf(),
            r@ == Seq::<OnetimeStampRequest>::empty(),
    {
        StampRequestRepository { requests: Vec::new() }
    }

    fn index_of(&self, id: u128) -> (r: Option<usize>)
        requires
            self.wf(),
        ensures
            match r {
                Some(i) => i < self@.len() && self@[i as int].stamp_request_id == id
                    && request_with_id(self@, id) == Some(self@[i as int]),
                None => request_with_id(self@, id) is None,
            },
    {
        let mut i: usize = 0;
        while i < self.requests.len()
            invariant
                i <= self@.len(),
                self.wf(),
                forall|k: int| 0 <= k < i ==> self@[k].stamp_request_id != id,
            decreases self@.len() - i,
        {
            if self.requests[i].stamp_request_id == id {
                assert(self@[i as int].stamp_request_id == id);
                let ghost c = choose|k: int|
                    0 <= k < self@.len() && self@[k].stamp_request_id == id;
                assert(c == i as int);
                return Some(i);
            }
            i = i + 1;
        }
        None
    }

    /// Records request `stamp_request_id` for a stamp to `recipient_id`,
    /// solvable until the request window after `now` has passed; a taken
    /// identifier is a database fault.
    pub fn create_stamp_request(
        &mut self,
        stamp_request_id: u128,
        difficulty: i64,
        recipient_id: u128,
        now: i64,
    ) -> (r: Result<u128, SmError>)
        requires
            old(self).wf(),
            now <= LATEST_INSTANT,
        ensures
            final(self).wf(),
            request_with_id(old(self)@, stamp_request_id) is Some ==> r == Err::<u128, SmError>(
                SmError::Database(DatabaseError::Arbitrary),
            ) && final(self)@ == old(self)@,
            request_with_id(old(self)@, stamp_request_id) is None ==> r == Ok::<u128, SmError>(
                stamp_request_id,
            ) && final(self)@ == old(self)@.push(
                OnetimeStampRequest {
                    stamp_request_id,
                    recipient_id,
                    difficulty,
                    valid_to: (now + STAMP_REQUEST_WINDOW) as i64,
                    solved_at: None,
                },
            ),
    {
        if self.index_of(stamp_request_id).is_some() {
            return Err(SmError::Database(DatabaseError::Arbitrary));
        }
        proof {
            assert forall|k: int| 0 <= k < self@.len() implies self@[k].stamp_request_id
                != stamp_request_id by {
                if self@[k].stamp_request_id == stamp_request_id {
                    assert(request_with_id(self@, stamp_request_id) is Some);
                }
            }
        }
        self.requests.push(
            OnetimeStampRequest {
                stamp_request_id,
                recipient_id,
                difficulty,
                valid_to: now + STAMP_REQUEST_WINDOW,
                solved_at: None,
            },
        );
        Ok(stamp_request_id)
    }

    pub fn get_stamp_request(&self, stamp_request_id: u128) -> (r: Result<
        Option<OnetimeStampRequest>,
        SmError,
    >)
        requires
            self.wf(),
        ensures
            r == Ok::<Option<OnetimeStampRequest>, SmError>(
                request_with_id(self@, stamp_request_id),
            ),
    {
        match self.index_of(stamp_request_id) {
            Some(i) => Ok(Some(self.requests[i])),
            None => Ok(None),
        }
    }

    /// Records that request `stamp_request_id` was solved at `now`; an
    /// unknown request is left alone.
    pub fn mark_solved(&mut self, stamp_request_id: u128, now: i64) -> (r: Result<(), SmError>)
        requires
            old(self).wf(),
        ensures
            final(self).wf(),
            r is Ok,
            final(self)@ == requests_solved(old(self)@, stamp_request_id, now),
    {
        let ghost before = self@;
        match self.index_of(stamp_request_id) {
            None => {
                proof {
                    assert forall|k: int| 0 <= k < before.len() implies before[k].stamp_request_id
                        != stamp_request_id by {
                        if before[k].stamp_request_id == stamp_request_id {
                            assert(request_with_id(before, stamp_request_id) is Some);
                        }
                    }
                    assert(self@ =~= requests_solved(before, stamp_request_id, now));
                }
                Ok(())
            },
            Some(i) => {
                let q = self.requests[i];
                self.requests.set(
                    i,
                    OnetimeStampRequest {
                        stamp_request_id: q.stamp_request_id,
                        recipient_id: q.recipient_id,
                        difficulty: q.difficulty,
                        valid_to: q.valid_to,
                        solved_at: Some(now),
                    },
                );
                proof {
                    assert forall|k: int| 0 <= k < before.len() && k != i implies before[k].stamp_request_id
                        != stamp_request_id by {
                        assert(before[i as int].stamp_request_id == stamp_request_id);
                    }
                    assert(self@ =~= requests_solved(before, stamp_request_id, now));
                }
                Ok(())
            },
        }
    }
}

/// The broker's signing key pair, set once.
pub struct SystemKeyRepository {
    keys: Option<SystemKeyPair>,
}

impl View for SystemKeyRepository {
    type V = Option<SystemKeyPair>;

    closed spec fn view(&self) -> Option<SystemKeyPair> {
        self.keys
    }
}

impl SystemKeyRepository {
    pub fn new() -> (r: SystemKeyRepository)
        ensures
            r@ is None,
    {
        SystemKeyRepository { keys: None }
    }

    /// Sets the key pair, unless one is set already, which then stays.
    pub fn init_system_keys(&mut self, system_key: SystemKeyPair) -> (r: Result<(), SmError>)
        ensures
            r is Ok,
            old(self)@ is Some ==> final(self)@ == old(self)@,
            old(self)@ is None ==> final(self)@ == Some(system_key),
    {
        if self.keys.is_none() {
            self.keys = Some(system_key);
        }
        Ok(())
    }

    pub fn get_system_keys(&self) -> (r: Result<Option<SystemKeyPair>, SmError>)
        ensures
            r == Ok::<Option<SystemKeyPair>, SmError>(self@),
    {
        match &self.keys {
            Some(k) => Ok(Some(k.duplicate())),
            None => Ok(None),
        }
    }
}

} // verus!
