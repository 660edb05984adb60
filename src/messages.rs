//! Mailboxes: messages appended under increasing identifiers, listed and
//! fetched by their recipient.

use vstd::prelude::*;
use crate::error::{DatabaseError, SmError};
use crate::model::{Message, MessageMetadata};

verus! {

/// Whether a listing for `recipient_id`, above `above_id` if given, shows `m`.
pub open spec fn listed(m: Message, recipient_id: u128, above_id: Option<i64>) -> bool {
    m.recipient_id == recipient_id && match above_id {
        Some(k) => m.id > k,
        None => true,
    }
}

/// The listing of `msgs` for `recipient_id`: identifier and metadata of each
/// message shown, in stored order.
pub open spec fn listing(msgs: Seq<Message>, recipient_id: u128, above_id: Option<i64>) -> Seq<
    (i64, MessageMetadata),
>
    decreases msgs.len(),
{
    if msgs.len() == 0 {
        Seq::empty()
    } else {
        let rest = listing(msgs.drop_last(), recipient_id, above_id);
        let m = msgs.last();
        if listed(m, recipient_id, above_id) {
            rest.push((m.id, MessageMetadata(m.metadata)))
        } else {
            rest
        }
    }
}

/// The message `id` of `recipient_id` among `msgs`, if any.
pub open spec fn message_of(msgs: Seq<Message>, recipient_id: u128, id: i64) -> Option<Message> {
    if exists|i: int| 0 <= i < msgs.len() && msgs[i].id == id && msgs[i].recipient_id == recipient_id {
        Some(
            msgs[choose|i: int|
                0 <= i < msgs.len() && msgs[i].id == id && msgs[i].recipient_id == recipient_id],
        )
    } else {
        None
    }
}

/// Identifiers increase strictly along `msgs`.
pub open spec fn ids_ascending(msgs: Seq<Message>) -> bool {
    forall|i: int, j: int| 0 <= i < j < msgs.len() ==> msgs[i].id < msgs[j].id
}

pub open spec fn with_recipient_metadata(m: Message, recipient_metadata: String) -> Message {
    Message {
        id: m.id,
        recipient_id: m.recipient_id,
        metadata: m.metadata,
        recipient_metadata: Some(recipient_metadata),
        content: m.content,
    }
}

/// The stored messages of all mailboxes.
pub struct MessageRepository {
    messages: Vec<Message>,
    next_id: i64,
}

impl View for MessageRepository {
    type V = Seq<Message>;

    closed spec fn view(&self) -> Seq<Message> {
        self.messages@
    }
}

impl MessageRepository {
    /// The identifier that the next message will get.
    pub closed spec fn next_id(&self) -> i64 {
        self.next_id
    }

    pub open spec fn wf(&self) -> bool {
        &&& ids_ascending(self@)
        &&& 1 <= self.next_id()
        &&& forall|i: int| 0 <= i < self@.len() ==> 1 <= #[trigger] self@[i].id < self.next_id()
    }

    pub fn new() -> (r: MessageRepository)
        ensures
            r.wf(),
            r@ == Seq::<Message>::empty(),
            r.next_id() == 1,
    {
        MessageRepository { messages: Vec::new(), next_id: 1 }
    }

    /// Stores a message for `recipient_id` under the next identifier; when the
    /// identifiers are used up, a database fault.
    pub fn create_message(
        &mut self,
        recipient_id: u128,
        metadata: MessageMetadata,
        content: String,
    ) -> (r: Result<Message, SmError>)
        requires
            old(self).wf(),
        ensures
            final(self).wf(),
            old(self).next_id() == i64::MAX ==> r == Err::<Message, SmError>(
                SmError::Database(DatabaseError::Arbitrary),
            ) && final(self)@ == old(self)@ && final(self).next_id() == old(self).next_id(),
            old(self).next_id() < i64::MAX ==> {
                let m = Message {
                    id: old(self).next_id(),
                    recipient_id,
                    metadata: metadata.0,
                    recipient_metadata: None,
                    content,
                };
                &&& r == Ok::<Message, SmError>(m)
                &&& final(self)@ == old(self)@.push(m)
                &&& final(self).next_id() == old(self).next_id() + 1
            },
    {
        if self.next_id == i64::MAX {
            return Err(SmError::Database(DatabaseError::Arbitrary));
        }
        let m = Message {
            id: self.next_id,
            recipient_id,
            metadata: metadata.0,
            recipient_metadata: None,
            content,
        };
        let copy = m.duplicate();
        self.messages.push(m);
        self.next_id = self.next_id + 1;
        Ok(copy)
    }

    fn index_of(&self, id: i64) -> (r: Option<usize>)
        requires
            self.wf(),
        ensures
            match r {
                Some(i) => i < self@.len() && self@[i as int].id == id,
                None => forall|k: int| 0 <= k < self@.len() ==> self@[k].id != id,
            },
    {
        let mut i: usize = 0;
        while i < self.messages.len()
            invariant
                i <= self@.len(),
                forall|k: int| 0 <= k < i ==> self@[k].id != id,
            decreases self@.len() - i,
        {
            if self.messages[i].id == id {
                return Some(i);
            }
            i = i + 1;
        }
        None
    }

    /// The message `id` if `recipient_id` is its recipient; otherwise none,
    /// as if it did not exist.
    pub fn get_message(&self, recipient_id: u128, id: i64) -> (r: Result<Option<Message>, SmError>)
        requires
            self.wf(),
        ensures
            r == Ok::<Option<Message>, SmError>(message_of(self@, recipient_id, id)),
    {
        match self.index_of(id) {
            None => Ok(None),
            Some(i) => {
                if self.messages[i].recipient_id == recipient_id {
                    let ghost c = choose|k: int|
                        0 <= k < self@.len() && self@[k].id == id && self@[k].recipient_id
                            == recipient_id;
                    assert(c == i as int) by {
                        if c < i {
                            assert(self@[c].id < self@[i as int].id);
                        } else if c > i {
                            assert(self@[i as int].id < self@[c].id);
                        }
                    }
                    Ok(Some(self.messages[i].duplicate()))
                } else {
                    proof {
                        assert forall|k: int| 0 <= k < self@.len() && self@[k].id == id implies
                            self@[k].recipient_id != recipient_id by {
                            if k < i {
                                assert(self@[k].id < self@[i as int].id);
                            } else if k > i {
                                assert(self@[i as int].id < self@[k].id);
                            }
                        }
                    }
                    Ok(None)
                }
            },
        }
    }

    /// Sets the recipient's metadata of message `id`; an unknown message is
    /// left alone.
    pub fn update_recipient_metadata(&mut self, id: i64, recipient_metadata: String) -> (r: Result<
        (),
        SmError,
    >)
        requires
            old(self).wf(),
        ensures
            final(self).wf(),
            r is Ok,
            final(self).next_id() == old(self).next_id(),
            final(self)@ == old(self)@.map_values(
                |m: Message|
                    if m.id == id {
                        with_recipient_metadata(m, recipient_metadata)
                    } else {
                        m
                    },
            ),
    {
        let ghost before = self@;
        match self.index_of(id) {
            None => {
                assert(self@ =~= before.map_values(
                    |m: Message|
                        if m.id == id {
                            with_recipient_metadata(m, recipient_metadata)
                        } else {
                            m
                        },
                ));
                Ok(())
            },
            Some(i) => {
                let m = self.messages[i].duplicate();
                let updated = Message {
                    id: m.id,
                    recipient_id: m.recipient_id,
                    metadata: m.metadata,
                    recipient_metadata: Some(recipient_metadata),
                    content: m.content,
                };
                self.messages.set(i, updated);
                proof {
                    assert forall|k: int| 0 <= k < before.len() && k != i implies before[k].id
                        != id by {
                        if k < i {
                            assert(before[k].id < before[i as int].id);
                        } else {
                            assert(before[i as int].id < before[k].id);
                        }
                    }
                    assert(self@ =~= before.map_values(
                        |m: Message|
                            if m.id == id {
                                with_recipient_metadata(m, recipient_metadata)
                            } else {
                                m
                            },
                    ));
                }
                Ok(())
            },
        }
    }

    /// The identifier and metadata of each message of `recipient_id` (above
    /// `above_id` if given), in increasing order of identifier.
    pub fn list_messages(&self, recipient_id: u128, above_id: Option<i64>) -> (r: Result<
        Vec<(i64, MessageMetadata)>,
        SmError,
    >)
        requires
            self.wf(),
        ensures
            r matches Ok(v) && v@ == listing(self@, recipient_id, above_id),
    {
        let mut out: Vec<(i64, MessageMetadata)> = Vec::new();
        let mut i: usize = 0;
        while i < self.messages.len()
            invariant
                i <= self@.len(),
                out@ == listing(self@.take(i as int), recipient_id, above_id),
            decreases self@.len() - i,
        {
            let m = &self.messages[i];
            let shown = m.recipient_id == recipient_id && match above_id {
                Some(k) => m.id > k,
                None => true,
            };
            assert(self@.take(i as int + 1).drop_last() =~= self@.take(i as int));
            if shown {
                out.push((m.id, MessageMetadata(m.metadata.clone())));
            }
            i = i + 1;
        }
        assert(self@.take(self@.len() as int) =~= self@);
        Ok(out)
    }

    /// Removes message `id`; an unknown message is left alone.
    pub fn delete_message(&mut self, id: i64) -> (r: Result<(), SmError>)
        requires
            old(self).wf(),
        ensures
            final(self).wf(),
            r is Ok,
            final(self).next_id() == old(self).next_id(),
            final(self)@ == old(self)@.filter(|m: Message| m.id != id),
    {
        let ghost before = self@;
        match self.index_of(id) {
            None => {
                proof {
                    assert(before.filter(|m: Message| m.id != id) =~= before) by {
                        lemma_filter_all(before, |m: Message| m.id != id);
                    }
                }
                Ok(())
            },
            Some(i) => {
                let _removed = self.messages.remove(i);
                proof {
                    lemma_remove_is_filter(before, i as int, id);
                    assert(self@ =~= before.remove(i as int));
                }
                Ok(())
            },
        }
    }
}

/// A listing shows identifiers in strictly increasing order when the
/// messages are stored so, and each of them lies above `above_id` if given.
pub proof fn lemma_listing_ordered(msgs: Seq<Message>, recipient_id: u128, above_id: Option<i64>)
    requires
        ids_ascending(msgs),
    ensures
        ({
            let l = listing(msgs, recipient_id, above_id);
            &&& forall|i: int, j: int| 0 <= i < j < l.len() ==> #[trigger] l[i].0 < #[trigger] l[j].0
            &&& forall|i: int|
                0 <= i < l.len() ==> match above_id {
                    Some(k) => #[trigger] l[i].0 > k,
                    None => true,
                }
        }),
    decreases msgs.len(),
{
    if msgs.len() > 0 {
        let rest = msgs.drop_last();
        lemma_listing_ordered(rest, recipient_id, above_id);
        lemma_listing_from(rest, recipient_id, above_id);
        let l = listing(msgs, recipient_id, above_id);
        let lr = listing(rest, recipient_id, above_id);
        let last = msgs.last();
        assert forall|i: int| 0 <= i < lr.len() implies #[trigger] lr[i].0 < last.id by {
            let k = choose|k: int|
                0 <= k < rest.len() && listed(rest[k], recipient_id, above_id) && rest[k].id
                    == lr[i].0;
            assert(msgs[k] == rest[k]);
            assert(msgs[k].id < msgs[msgs.len() - 1].id);
        }
        if listed(last, recipient_id, above_id) {
            assert(l == lr.push((last.id, MessageMetadata(last.metadata))));
            assert forall|i: int, j: int| 0 <= i < j < l.len() implies #[trigger] l[i].0
                < #[trigger] l[j].0 by {
                assert(l[i] == lr[i]);
                if j < lr.len() {
                    assert(l[j] == lr[j]);
                }
            }
            assert forall|i: int| 0 <= i < l.len() implies match above_id {
                Some(k) => #[trigger] l[i].0 > k,
                None => true,
            } by {
                if i < lr.len() {
                    assert(l[i] == lr[i]);
                }
            }
        }
    }
}

/// Some message of `msgs` that a listing shows has identifier `id`.
pub open spec fn shows_stored(msgs: Seq<Message>, recipient_id: u128, above_id: Option<i64>, id: i64) -> bool {
    exists|k: int| 0 <= k < msgs.len() && listed(msgs[k], recipient_id, above_id) && msgs[k].id == id
}

/// Every entry of a listing comes from a message of `msgs` that the listing
/// shows.
pub proof fn lemma_listing_from(msgs: Seq<Message>, recipient_id: u128, above_id: Option<i64>)
    ensures
        forall|i: int|
            0 <= i < listing(msgs, recipient_id, above_id).len() ==> shows_stored(
                msgs,
                recipient_id,
                above_id,
                #[trigger] listing(msgs, recipient_id, above_id)[i].0,
            ),
    decreases msgs.len(),
{
    if msgs.len() > 0 {
        let rest = msgs.drop_last();
        lemma_listing_from(rest, recipient_id, above_id);
        let l = listing(msgs, recipient_id, above_id);
        let lr = listing(rest, recipient_id, above_id);
        assert forall|i: int| 0 <= i < l.len() implies shows_stored(
            msgs,
            recipient_id,
            above_id,
            #[trigger] l[i].0,
        ) by {
            if i < lr.len() {
                let k = choose|k: int|
                    0 <= k < rest.len() && listed(rest[k], recipient_id, above_id) && rest[k].id
                        == lr[i].0;
                assert(msgs[k] == rest[k]);
                assert(l[i] == lr[i]);
                assert(listed(msgs[k], recipient_id, above_id) && msgs[k].id == l[i].0);
            } else {
                let k = msgs.len() - 1;
                assert(msgs[k] == msgs.last());
                assert(listed(msgs[k], recipient_id, above_id) && msgs[k].id == l[i].0);
            }
        }
    } else {
        assert(listing(msgs, recipient_id, above_id) =~= Seq::<(i64, MessageMetadata)>::empty());
    }
}

/// Removing the only message with identifier `id` filters it out.
proof fn lemma_remove_is_filter(s: Seq<Message>, i: int, id: i64)
    requires
        ids_ascending(s),
        0 <= i < s.len(),
        s[i].id == id,
    ensures
        s.remove(i) == s.filter(|m: Message| m.id != id),
{
    let pred = |m: Message| m.id != id;
    let a = s.take(i);
    let b = seq![s[i]];
    let c = s.skip(i + 1);
    assert(s =~= a + (b + c));
    Seq::filter_distributes_over_add(a, b + c, pred);
    Seq::filter_distributes_over_add(b, c, pred);
    assert forall|k: int| 0 <= k < a.len() implies pred(a[k]) by {
        assert(s[k].id < s[i].id);
    }
    assert forall|k: int| 0 <= k < c.len() implies pred(c[k]) by {
        assert(s[i].id < s[i + 1 + k].id);
    }
    lemma_filter_all(a, pred);
    lemma_filter_all(c, pred);
    reveal_with_fuel(Seq::filter, 2);
    assert(b.drop_last() =~= Seq::<Message>::empty());
    assert(b.filter(pred) =~= Seq::<Message>::empty());
    assert(s.remove(i) =~= a + c);
}

/// Filtering by a predicate that holds of every element keeps the sequence.
proof fn lemma_filter_all(s: Seq<Message>, p: spec_fn(Message) -> bool)
    requires
        forall|k: int| 0 <= k < s.len() ==> p(s[k]),
    ensures
        s.filter(p) == s,
    decreases s.len(),
{
    reveal(Seq::filter);
    if s.len() > 0 {
        lemma_filter_all(s.drop_last(), p);
    }
    assert(s.filter(p) =~= s);
}

} // verus!
