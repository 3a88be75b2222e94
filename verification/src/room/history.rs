//! What a user is sent of the past when a socket is opened.

use vstd::prelude::*;

use crate::clock::{utc_now, Timestamp};
use crate::reply::DatabaseFailure;
use crate::room::socket::{ChatMessage, ChatMessageView};

verus! {

/// How long a socket waits before it gets anything of the past.
pub const CATCH_UP_DELAY_MILLIS: u64 = 300;

/// A stored message, with the name of its sender.
#[derive(Debug)]
pub struct HistoryRow {
    pub id: String,
    pub sender_id: u128,
    pub sender_name: String,
    pub encrypted_content: String,
    pub recipients: Vec<u128>,
    pub created_at: Timestamp,
    pub room: String,
    pub expires_at: Timestamp,
}

/// A key that waits in the database.
#[derive(Debug)]
pub struct PendingKeyRow {
    pub id: u128,
    pub from_user_id: u128,
    pub to_user_id: u128,
    pub encrypted_key: String,
    pub key_id: String,
}

/// A key that waited, as its user gets it.
#[derive(Debug)]
pub struct PendingKeyDelivery {
    pub id: u128,
    pub message: ChatMessage,
}

impl HistoryRow {
    /// The seconds that the message has left at `now`; none once it has run out.
    pub open spec fn ttl_at(self, now: Timestamp) -> i64 {
        let left = self.expires_at.seconds_since(now);
        if left < 0 {
            0
        } else {
            left as i64
        }
    }

    /// The message as it is sent at `now`.
    pub open spec fn message_at(self, now: Timestamp) -> ChatMessageView {
        ChatMessageView::EncryptedMessage {
            sender_id: self.sender_id,
            sender_username: self.sender_name@,
            encrypted_content: self.encrypted_content@,
            recipients: self.recipients@,
            timestamp: self.created_at,
            message_id: self.id@,
            room: Some(self.room@),
            ttl_seconds: Some(self.ttl_at(now)),
        }
    }

    /// Whether `message` is the message as it is sent at some time.
    pub open spec fn may_be_sent_as(self, message: ChatMessageView) -> bool {
        exists|now: Timestamp| #[trigger] now.is_reading() && message == self.message_at(now)
    }

    /// The message as it is sent at `now`.
    pub fn into_message(self, now: &Timestamp) -> (message: ChatMessage)
        requires
            self.expires_at.wf(),
            now.wf(),
        ensures
            message@ == self.message_at(*now),
    {
        let left: i64 = self.expires_at.whole_seconds_since(now);
        let ttl: i64 = if left < 0 {
            0
        } else {
            left
        };
        ChatMessage::EncryptedMessage {
            sender_id: self.sender_id,
            sender_username: self.sender_name,
            encrypted_content: self.encrypted_content,
            recipients: self.recipients,
            timestamp: self.created_at,
            message_id: self.id,
            room: Some(self.room),
            ttl_seconds: Some(ttl),
        }
    }
}

impl PendingKeyRow {
    /// The key as its user gets it.
    pub open spec fn message(self) -> ChatMessageView {
        ChatMessageView::KeyExchange {
            from_user_id: self.from_user_id,
            to_user_id: self.to_user_id,
            encrypted_key: self.encrypted_key@,
            key_id: self.key_id@,
            scope: Some("dm"@),
        }
    }
}

/// What a socket that was opened gets of the past, step by step.
#[derive(Clone, Copy, Debug, PartialEq, Eq, Structural)]
pub enum CatchUp {
    /// Let so many milliseconds pass, so that other clients can announce
    /// themselves.
    Wait { millis: u64 },
    /// Send the keys that waited.
    SendKeys,
    /// Send the stored messages.
    SendHistory,
    /// Nothing is left to be done.
    Done,
}

impl CatchUp {
    /// The step after this one: keys before the messages that need them.
    pub open spec fn next(self) -> CatchUp {
        match self {
            CatchUp::Wait { .. } => CatchUp::SendKeys,
            CatchUp::SendKeys => CatchUp::SendHistory,
            CatchUp::SendHistory => CatchUp::Done,
            CatchUp::Done => CatchUp::Done,
        }
    }

    /// The first step.
    pub fn start() -> (step: CatchUp)
        ensures
            step == (CatchUp::Wait { millis: CATCH_UP_DELAY_MILLIS }),
    {
        CatchUp::Wait { millis: CATCH_UP_DELAY_MILLIS }
    }

    /// The step after this one, where `outcome` is what came of it: one that the
    /// database failed is passed over.
    pub fn after(self, outcome: Result<(), DatabaseFailure>) -> (step: CatchUp)
        ensures
            step == self.next(),
    {
        match (self, outcome) {
            (CatchUp::Wait { .. }, _) => CatchUp::SendKeys,
            (CatchUp::SendKeys, Ok(())) => CatchUp::SendHistory,
            (CatchUp::SendKeys, Err(_)) => CatchUp::SendHistory,
            (CatchUp::SendHistory, _) => CatchUp::Done,
            (CatchUp::Done, _) => CatchUp::Done,
        }
    }
}

/// The stored messages in `rows`, which come newest first, as they are sent:
/// oldest first, each with the time that it has left.
pub fn send_recent_history(rows: Vec<HistoryRow>) -> (messages: Vec<ChatMessage>)
    requires
        forall|i: int| 0 <= i < rows@.len() ==> (#[trigger] rows@[i]).expires_at.wf(),
    ensures
        messages@.len() == rows@.len(),
        forall|i: int|
            0 <= i < rows@.len() ==> rows@[rows@.len() - 1 - i].may_be_sent_as(
                (#[trigger] messages@[i])@,
            ),
{
    let ghost all = rows@;
    let mut left = rows;
    let mut messages: Vec<ChatMessage> = Vec::new();
    while left.len() > 0
        invariant
            messages@.len() + left@.len() == all.len(),
            left@ == all.take(left@.len() as int),
            forall|i: int| 0 <= i < all.len() ==> (#[trigger] all[i]).expires_at.wf(),
            forall|i: int|
                0 <= i < messages@.len() ==> all[all.len() - 1 - i].may_be_sent_as(
                    (#[trigger] messages@[i])@,
                ),
        decreases left@.len(),
    {
        let now = utc_now();
        if let Some(row) = left.pop() {
            let message = row.into_message(&now);
            assert(row.may_be_sent_as(message@));
            messages.push(message);
        }
    }
    messages
}

/// The keys in `rows` as their user gets them.
pub fn send_pending_dm_keys(rows: Vec<PendingKeyRow>) -> (deliveries: Vec<PendingKeyDelivery>)
    ensures
        deliveries@.len() == rows@.len(),
        forall|i: int|
            0 <= i < rows@.len() ==> (#[trigger] deliveries@[i]).id == rows@[i].id
                && deliveries@[i].message@ == rows@[i].message(),
{
    let mut deliveries: Vec<PendingKeyDelivery> = Vec::new();
    for row in it: rows.into_iter()
        invariant
            it.seq() == rows@,
            deliveries@.len() == it.index(),
            forall|i: int|
                0 <= i < it.index() ==> (#[trigger] deliveries@[i]).id == rows@[i].id
                    && deliveries@[i].message@ == rows@[i].message(),
    {
        deliveries.push(
            PendingKeyDelivery {
                id: row.id,
                message: ChatMessage::KeyExchange {
                    from_user_id: row.from_user_id,
                    to_user_id: row.to_user_id,
                    encrypted_key: row.encrypted_key,
                    key_id: row.key_id,
                    scope: Some("dm".to_owned()),
                },
            },
        );
    }
    deliveries
}

/// The ids of the attempts that went out.
pub open spec fn ids_sent(attempts: Seq<(u128, bool)>) -> Seq<u128> {
    attempts.filter(|attempt: (u128, bool)| attempt.1).map_values(
        |attempt: (u128, bool)| attempt.0,
    )
}

/// One more attempt adds its id, if it went out.
pub(crate) proof fn ids_sent_next(attempts: Seq<(u128, bool)>, next: (u128, bool))
    ensures
        ids_sent(attempts.push(next)) == (if next.1 {
            ids_sent(attempts).push(next.0)
        } else {
            ids_sent(attempts)
        }),
{
    reveal(Seq::filter);
    let sent = |attempt: (u128, bool)| attempt.1;
    assert(attempts.push(next).drop_last() =~= attempts);
    assert(attempts.push(next).filter(sent) =~= if next.1 {
        attempts.filter(sent).push(next)
    } else {
        attempts.filter(sent)
    });
    assert(ids_sent(attempts.push(next)) =~= if next.1 {
        ids_sent(attempts).push(next.0)
    } else {
        ids_sent(attempts)
    });
}

/// Which keys to mark as delivered, where each attempt says whether the key
/// went out; nothing if none did.
pub fn keys_to_mark(attempts: &Vec<(u128, bool)>) -> (marked: Option<Vec<u128>>)
    ensures
        match marked {
            Some(ids) => ids@ == ids_sent(attempts@) && ids@.len() > 0,
            None => ids_sent(attempts@).len() == 0,
        },
{
    let mut ids: Vec<u128> = Vec::new();
    let mut i: usize = 0;
    assert(ids@ =~= ids_sent(attempts@.take(0))) by {
        reveal(Seq::filter);
    }
    while i < attempts.len()
        invariant
            i <= attempts.len(),
            ids@ == ids_sent(attempts@.take(i as int)),
        decreases attempts.len() - i,
    {
        proof {
            ids_sent_next(attempts@.take(i as int), attempts@[i as int]);
            assert(attempts@.take(i + 1) =~= attempts@.take(i as int).push(attempts@[i as int]));
        }
        if attempts[i].1 {
            ids.push(attempts[i].0);
        }
        i = i + 1;
    }
    assert(attempts@.take(attempts@.len() as int) =~= attempts@);
    if ids.len() == 0 {
        None
    } else {
        Some(ids)
    }
}

} // verus!
