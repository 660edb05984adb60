//! The message admission pipeline and the mailbox read path.

use vstd::prelude::*;
use crate::error::{CryptographyError, SmError, StampError, UserError};
use crate::messages::{listing, message_of, MessageRepository};
use crate::model::{
    Message, MessageMetadata, OneTimeStampTracker, OnetimeStamp, PeriodicStamp, SystemKeyPair, User,
};
use crate::services::{signature_valid, CryptographyService, JsonService};
use crate::stamps::{
    issuer_authorized, onetime_verdict, periodic_verdict, VerifyOnetimeStampCommand, VerifyPeriodicStampCommand,
};
use crate::tracking::{stamp_spent, trackers_after_spending, OneTimeStampTrackerRepository, SystemKeyRepository};
use crate::users::{user_with_id, UserRepository};

verus! {

/// The text that a message's signature signs: its metadata, a newline, and
/// its content.
pub open spec fn message_plaintext(metadata: Seq<char>, content: Seq<char>) -> Seq<char> {
    metadata + "\n"@ + content
}

/// Why a message is refused, if it is, given the verdict on its stamp: an
/// unknown sender, a stamp that failed to resolve, a stamp that is invalid
/// or names another sender or recipient, or a signature that does not
/// verify under the sender's key.
pub open spec fn send_refusal(
    users: Seq<User>,
    sender_id: u128,
    recipient_id: u128,
    metadata: Seq<char>,
    content: Seq<char>,
    signature: Seq<char>,
    verdict: Result<bool, SmError>,
    stamp_sender_id: u128,
    stamp_recipient_id: u128,
) -> Option<SmError> {
    match user_with_id(users, sender_id) {
        None => Some(SmError::User(UserError::UserNotFound)),
        Some(sender) => match verdict {
            Err(e) => Some(e),
            Ok(valid) => if !valid || stamp_sender_id != sender_id || stamp_recipient_id
                != recipient_id {
                Some(SmError::Stamp(StampError::InvalidStamp))
            } else if !signature_valid(
                message_plaintext(metadata, content),
                signature,
                sender.public_verify_key@,
            ) {
                Some(SmError::Cryptography(CryptographyError::InvalidSignature))
            } else {
                None
            },
        },
    }
}

/// The message that a successful send stores under identifier `id`.
pub open spec fn stored_message(id: i64, recipient_id: u128, metadata: String, content: String) -> Message {
    Message { id, recipient_id, metadata, recipient_metadata: None, content }
}

/// A message sent under a periodic stamp.
pub struct SendMessageWithPeriodicStampCommand {
    pub sender_id: u128,
    pub recipient_id: u128,
    pub content: String,
    pub metadata: String,
    pub signature: String,
    pub stamp: PeriodicStamp,
}

impl SendMessageWithPeriodicStampCommand {
    pub open spec fn refusal(self, users: Seq<User>, now: i64) -> Option<SmError> {
        send_refusal(
            users,
            self.sender_id,
            self.recipient_id,
            self.metadata@,
            self.content@,
            self.signature@,
            periodic_verdict(users, self.stamp, now),
            self.stamp.sender_id,
            self.stamp.recipient_id,
        )
    }

    /// Admits the message into the recipient's mailbox unless it is refused;
    /// a refused message changes nothing.
    pub fn handle<CS: CryptographyService>(
        self,
        user_repository: &UserRepository,
        cryptography_service: &CS,
        serialize_service: &JsonService,
        message_repository: &mut MessageRepository,
        now: i64,
    ) -> (r: Result<(), SmError>)
        requires
            user_repository.wf(),
            old(message_repository).wf(),
        ensures
            final(message_repository).wf(),
            self.refusal(user_repository@, now) matches Some(e) ==> r == Err::<(), SmError>(e)
                && final(message_repository)@ == old(message_repository)@,
            self.refusal(user_repository@, now) is None ==> (r is Ok <==> old(
                message_repository,
            ).next_id() < i64::MAX),
            r is Ok ==> final(message_repository)@ == old(message_repository)@.push(
                stored_message(
                    old(message_repository).next_id(),
                    self.recipient_id,
                    self.metadata,
                    self.content,
                ),
            ),
            r is Err ==> final(message_repository)@ == old(message_repository)@,
    {
        let sender = match user_repository.find_by_id(self.sender_id) {
            Some(u) => u,
            None => return Err(SmError::User(UserError::UserNotFound)),
        };
        let stamp_sender_id = self.stamp.sender_id;
        let stamp_recipient_id = self.stamp.recipient_id;
        let verdict = VerifyPeriodicStampCommand(self.stamp).handle(
            user_repository,
            cryptography_service,
            serialize_service,
            now,
        );
        let valid = match verdict {
            Ok(v) => v,
            Err(e) => return Err(e),
        };
        if !valid || stamp_sender_id != self.sender_id || stamp_recipient_id != self.recipient_id {
            return Err(SmError::Stamp(StampError::InvalidStamp));
        }
        let mut plaintext = self.metadata.clone();
        plaintext.append("\n");
        plaintext.append(self.content.as_str());
        if !cryptography_service.validate_signature(
            plaintext.as_str(),
            self.signature.as_str(),
            sender.public_verify_key.as_str(),
        ) {
            return Err(SmError::Cryptography(CryptographyError::InvalidSignature));
        }
        match message_repository.create_message(
            self.recipient_id,
            MessageMetadata(self.metadata),
            self.content,
        ) {
            Ok(_) => Ok(()),
            Err(e) => Err(e),
        }
    }
}

/// A message sent under a one-time stamp, which it spends.
pub struct SendMessageWithOnetimeStampCommand {
    pub sender_id: u128,
    pub recipient_id: u128,
    pub content: String,
    pub metadata: String,
    pub signature: String,
    pub stamp: OnetimeStamp,
}

impl SendMessageWithOnetimeStampCommand {
    pub open spec fn refusal(
        self,
        users: Seq<User>,
        trackers: Seq<OneTimeStampTracker>,
        keys: Option<SystemKeyPair>,
        now: i64,
    ) -> Option<SmError> {
        send_refusal(
            users,
            self.sender_id,
            self.recipient_id,
            self.metadata@,
            self.content@,
            self.signature@,
            onetime_verdict(users, trackers, keys, self.stamp, now),
            self.stamp.sender_id,
            self.stamp.recipient_id,
        )
    }

    /// Admits the message into the recipient's mailbox and spends its stamp,
    /// in one step, unless it is refused; a refused message changes nothing.
    pub fn handle<CS: CryptographyService>(
        self,
        user_repository: &UserRepository,
        cryptography_service: &CS,
        serialize_service: &JsonService,
        tracker_repository: &mut OneTimeStampTrackerRepository,
        system_key_repository: &SystemKeyRepository,
        message_repository: &mut MessageRepository,
        now: i64,
    ) -> (r: Result<(), SmError>)
        requires
            user_repository.wf(),
            old(tracker_repository).wf(),
            old(message_repository).wf(),
        ensures
            final(message_repository).wf(),
            final(tracker_repository).wf(),
            self.refusal(user_repository@, old(tracker_repository)@, system_key_repository@, now) matches Some(e)
                ==> r == Err::<(), SmError>(e),
            self.refusal(user_repository@, old(tracker_repository)@, system_key_repository@, now) is None
                ==> (r is Ok <==> old(message_repository).next_id() < i64::MAX),
            r is Ok ==> final(message_repository)@ == old(message_repository)@.push(
                stored_message(
                    old(message_repository).next_id(),
                    self.recipient_id,
                    self.metadata,
                    self.content,
                ),
            ) && final(tracker_repository)@ == trackers_after_spending(
                old(tracker_repository)@,
                self.stamp.stamp_id,
                self.stamp.recipient_id,
            ),
            r is Err ==> final(message_repository)@ == old(message_repository)@
                && final(tracker_repository)@ == old(tracker_repository)@,
            user_with_id(user_repository@, self.sender_id) is Some && stamp_spent(
                old(tracker_repository)@,
                self.stamp.stamp_id,
            ) ==> r == Err::<(), SmError>(SmError::Stamp(StampError::InvalidStamp)),
            user_with_id(user_repository@, self.sender_id) is Some && onetime_verdict(
                user_repository@,
                old(tracker_repository)@,
                system_key_repository@,
                self.stamp,
                now,
            ) is Ok && !issuer_authorized(self.stamp.issuer_id, self.stamp.recipient_id) ==> r
                == Err::<(), SmError>(SmError::Stamp(StampError::InvalidStamp)),
    {
        let sender = match user_repository.find_by_id(self.sender_id) {
            Some(u) => u,
            None => return Err(SmError::User(UserError::UserNotFound)),
        };
        let stamp_id = self.stamp.stamp_id;
        let stamp_sender_id = self.stamp.sender_id;
        let stamp_recipient_id = self.stamp.recipient_id;
        let verdict = VerifyOnetimeStampCommand(self.stamp).handle(
            user_repository,
            cryptography_service,
            serialize_service,
            tracker_repository,
            system_key_repository,
            now,
        );
        let valid = match verdict {
            Ok(v) => v,
            Err(e) => return Err(e),
        };
        if !valid || stamp_sender_id != self.sender_id || stamp_recipient_id != self.recipient_id {
            return Err(SmError::Stamp(StampError::InvalidStamp));
        }
        let mut plaintext = self.metadata.clone();
        plaintext.append("\n");
        plaintext.append(self.content.as_str());
        if !cryptography_service.validate_signature(
            plaintext.as_str(),
            self.signature.as_str(),
            sender.public_verify_key.as_str(),
        ) {
            return Err(SmError::Cryptography(CryptographyError::InvalidSignature));
        }
        match message_repository.create_message(
            self.recipient_id,
            MessageMetadata(self.metadata),
            self.content,
        ) {
            Ok(_) => {
                tracker_repository.spend(stamp_id, stamp_recipient_id);
                Ok(())
            },
            Err(e) => Err(e),
        }
    }
}

/// The listing of a recipient's mailbox.
pub struct GetAllMessagesForUserQuery {
    pub recipient_id: u128,
}

impl GetAllMessagesForUserQuery {
    pub fn handle(&self, message_repository: &MessageRepository) -> (r: Result<
        Vec<(i64, MessageMetadata)>,
        SmError,
    >)
        requires
            message_repository.wf(),
        ensures
            r matches Ok(v) && v@ == listing(message_repository@, self.recipient_id, None),
    {
        message_repository.list_messages(self.recipient_id, None)
    }
}

/// One message of a recipient's mailbox.
pub struct GetMessageByIdQuery {
    pub recipient_id: u128,
    pub message_id: i64,
}

impl GetMessageByIdQuery {
    pub fn handle(&self, message_repository: &MessageRepository) -> (r: Result<
        Option<Message>,
        SmError,
    >)
        requires
            message_repository.wf(),
        ensures
            r == Ok::<Option<Message>, SmError>(
                message_of(message_repository@, self.recipient_id, self.message_id),
            ),
    {
        message_repository.get_message(self.recipient_id, self.message_id)
    }
}

} // verus!
