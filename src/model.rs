//! The records that the broker keeps and exchanges.
//!
//! Identifiers are 128-bit values (the integer form of a UUID). Instants are
//! nanoseconds since the Unix epoch, in UTC.

use vstd::prelude::*;

verus! {

/// The identity of the broker's own signing authority (the nil UUID).
pub const SYSTEM_ISSUER: u128 = 0;

/// The proof-of-work score that a one-time stamp request demands.
pub const BASE_STAMP_DIFFICULTY: i64 = 50_000;

/// Nanoseconds in a minute.
pub const NANOS_PER_MINUTE: i64 = 60_000_000_000;

/// How long a requested session may be activated and used: two hours.
pub const SESSION_LIFETIME: i64 = 7_200_000_000_000;

/// How long a system-issued one-time stamp stays valid: fifteen minutes.
pub const ONETIME_STAMP_LIFETIME: i64 = 900_000_000_000;

/// How long a stamp request can be solved after it was made: fifteen minutes.
pub const STAMP_REQUEST_WINDOW: i64 = 900_000_000_000;

/// The latest instant that the broker accepts as the current time; later
/// instants leave no room for a session's lifetime in an `i64`.
pub const LATEST_INSTANT: i64 = 9_223_364_836_854_775_807;

/// The number of characters of a session challenge.
pub const CHALLENGE_LENGTH: usize = 24;

pub struct User {
    pub id: u128,
    pub username: String,
    pub public_encryption_key: String,
    pub public_verify_key: String,
}

impl User {
    pub fn duplicate(&self) -> (r: User)
        ensures
            r == *self,
    {
        User {
            id: self.id,
            username: self.username.clone(),
            public_encryption_key: self.public_encryption_key.clone(),
            public_verify_key: self.public_verify_key.clone(),
        }
    }
}

pub struct Session {
    pub session_id: u128,
    pub user_id: u128,
    pub active: bool,
    pub challenge_string: String,
    pub requested_at_utc: i64,
    pub activated_at_utc: Option<i64>,
    pub expires_at_utc: i64,
}

impl Session {
    pub fn duplicate(&self) -> (r: Session)
        ensures
            r == *self,
    {
        Session {
            session_id: self.session_id,
            user_id: self.user_id,
            active: self.active,
            challenge_string: self.challenge_string.clone(),
            requested_at_utc: self.requested_at_utc,
            activated_at_utc: self.activated_at_utc,
            expires_at_utc: self.expires_at_utc,
        }
    }
}

/// A stamp by which `issuer_id` lets `sender_id` write to `recipient_id`
/// during a period; never stored by the broker.
pub struct PeriodicStamp {
    pub issuer_id: u128,
    pub recipient_id: u128,
    pub sender_id: u128,
    pub valid_from: i64,
    pub valid_to: i64,
    pub signature: String,
}

/// A stamp that admits a single message, tracked by its `stamp_id`.
pub struct OnetimeStamp {
    pub stamp_id: u128,
    pub issuer_id: u128,
    pub recipient_id: u128,
    pub sender_id: u128,
    pub valid_to: Option<i64>,
    pub signature: String,
}

/// A stamp request as a client sees it.
pub struct OneTimeStampRequest {
    pub stamp_request_id: u128,
    pub difficulty: i64,
    pub valid_to: i64,
    pub solved_at: Option<i64>,
}

/// A stamp request as the broker stores it.
#[derive(Clone, Copy)]
pub struct OnetimeStampRequest {
    pub stamp_request_id: u128,
    pub recipient_id: u128,
    pub difficulty: i64,
    pub valid_to: i64,
    pub solved_at: Option<i64>,
}

/// The broker's record of a one-time stamp that it issued.
#[derive(Clone, Copy)]
pub struct OneTimeStampTracker {
    pub stamp_id: u128,
    pub recipient_id: u128,
    pub used_or_revoked: bool,
}

/// The sender's metadata of a message, opaque to the broker.
pub struct MessageMetadata(pub String);

impl MessageMetadata {
    pub fn duplicate(&self) -> (r: MessageMetadata)
        ensures
            r == *self,
    {
        MessageMetadata(self.0.clone())
    }
}

pub struct Message {
    pub id: i64,
    pub recipient_id: u128,
    pub metadata: String,
    pub recipient_metadata: Option<String>,
    pub content: String,
}

impl Message {
    pub fn duplicate(&self) -> (r: Message)
        ensures
            r == *self,
    {
        let recipient_metadata = match &self.recipient_metadata {
            Some(m) => Some(m.clone()),
            None => None,
        };
        Message {
            id: self.id,
            recipient_id: self.recipient_id,
            metadata: self.metadata.clone(),
            recipient_metadata,
            content: self.content.clone(),
        }
    }
}

/// The key pair with which the broker signs the one-time stamps it issues.
pub struct SystemKeyPair {
    pub private_key: String,
    pub public_key: String,
}

impl SystemKeyPair {
    pub fn duplicate(&self) -> (r: SystemKeyPair)
        ensures
            r == *self,
    {
        SystemKeyPair { private_key: self.private_key.clone(), public_key: self.public_key.clone() }
    }
}

} // verus!
