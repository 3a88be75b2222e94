//! What to do about a message that came in over a socket.

use vstd::prelude::*;

use crate::auth::account::{shown_ttl, DEFAULT_TTL_SECONDS};
use crate::clock::Timestamp;
use crate::reply::{opt_text, DatabaseFailure};
use crate::room::routing::{
    forward_to_user, is_online, reaches_user, user_is_online, Delivery, EncryptedChat,
};
use crate::room::socket::{ChatMessage, Connection};
use crate::state::AppState;

verus! {

/// A key that waits in the database for a user who is offline.
#[derive(Debug)]
pub struct PendingKey {
    pub from_user_id: u128,
    pub to_user_id: u128,
    pub encrypted_key: String,
    pub key_id: String,
}

/// An encrypted message as the database keeps it.
#[derive(Debug)]
pub struct StoredMessage {
    pub id: String,
    pub sender_id: u128,
    pub encrypted_content: String,
    pub recipients: Vec<u128>,
    pub created_at: Timestamp,
    pub room: String,
    pub expires_at: Timestamp,
}

impl StoredMessage {
    /// Whether this keeps `chat`, sent by `sender_user_id`, for `ttl_seconds`.
    pub open spec fn keeps(self, sender_user_id: u128, chat: EncryptedChat, ttl_seconds: i64) -> bool {
        &&& self.id == chat.message_id
        &&& self.sender_id == sender_user_id
        &&& self.encrypted_content == chat.encrypted_content
        &&& self.recipients@ == chat.recipients@
        &&& self.created_at == chat.timestamp
        &&& self.room == chat.room
        &&& self.expires_at == chat.timestamp.plus(ttl_seconds as int)
    }
}

/// What to do about a message.
pub enum ChatAction {
    /// Store it and forward it. Its lifetime is `ttl_seconds`, or what
    /// `effective_ttl` says if the message names none.
    Forward { chat: EncryptedChat, ttl_seconds: Option<i64> },
    /// Look the public keys of these users up, and answer the sender.
    FetchPublicKeys { user_ids: Vec<u128>, request_id: String },
    /// Hand it to one user as it came; `pending` is to be kept if that user is
    /// offline.
    Relay { to_user_id: u128, message: ChatMessage, pending: PendingKey },
    /// Pass it on to every socket as it came.
    Broadcast(ChatMessage),
}

/// What becomes of a key.
pub struct KeyRelay {
    /// It goes to a socket of its user.
    pub delivery: Option<Delivery>,
    /// It is kept for later.
    pub keep: Option<PendingKey>,
}

impl KeyRelay {
    /// Whether this hands `message` to a socket of `user`, or keeps `pending`
    /// if they have none.
    pub open spec fn passes_on(
        self,
        connections: Map<u128, Connection>,
        user: u128,
        message: ChatMessage,
        pending: PendingKey,
    ) -> bool {
        &&& reaches_user(self.delivery, connections, user, message@)
        &&& self.delivery matches Some(delivery) ==> delivery.message == message
        &&& self.keep == (if is_online(connections, user) {
            None
        } else {
            Some(pending)
        })
    }
}

/// The room of a message; one that names no room goes to everyone if it has
/// several recipients.
pub open spec fn room_of(room: Option<Seq<char>>, recipients: nat) -> Seq<char> {
    match room {
        Some(room) => room,
        None => if recipients > 1 {
            "global"@
        } else {
            "dm"@
        },
    }
}

/// The lifetime of a message in seconds: the one that it names, or else the one
/// that its sender chose, or else a day.
pub open spec fn ttl_of(named: Option<i64>, stored: Result<Option<i32>, DatabaseFailure>) -> i64 {
    match (named, stored) {
        (Some(ttl), _) => ttl,
        (None, Ok(chosen)) => shown_ttl(chosen) as i64,
        (None, Err(_)) => DEFAULT_TTL_SECONDS as i64,
    }
}

/// Whether `action` is what to do about a message from `sender`.
pub open spec fn is_action(action: ChatAction, sender: u128, message: ChatMessage) -> bool {
    match message {
        ChatMessage::EncryptedMessage {
            encrypted_content,
            recipients,
            timestamp,
            message_id,
            room,
            ttl_seconds,
            ..
        } => {
            &&& action matches ChatAction::Forward { chat, ttl_seconds: ttl }
            &&& ttl == ttl_seconds
            &&& chat.encrypted_content == encrypted_content
            &&& chat.recipients == recipients
            &&& chat.timestamp == timestamp
            &&& chat.message_id == message_id
            &&& chat.room@ == room_of(opt_text(room), recipients@.len())
        },
        ChatMessage::RequestPublicKeys { user_ids, request_id } => {
            action == (ChatAction::FetchPublicKeys { user_ids, request_id })
        },
        ChatMessage::KeyExchange { to_user_id, encrypted_key, key_id, .. } => {
            action == (ChatAction::Relay {
                to_user_id,
                message,
                pending: PendingKey { from_user_id: sender, to_user_id, encrypted_key, key_id },
            })
        },
        _ => action == ChatAction::Broadcast(message),
    }
}

/// What to do about a message from `sender_user_id`.
pub fn handle_chat_message(sender_user_id: u128, message: ChatMessage) -> (action: ChatAction)
    ensures
        is_action(action, sender_user_id, message),
{
    match message {
        ChatMessage::EncryptedMessage {
            encrypted_content,
            recipients,
            timestamp,
            message_id,
            room,
            ttl_seconds,
            ..
        } => {
            let room = match room {
                Some(room) => room,
                None => {
                    if recipients.len() > 1 {
                        "global".to_owned()
                    } else {
                        "dm".to_owned()
                    }
                },
            };
            ChatAction::Forward {
                chat: EncryptedChat { encrypted_content, recipients, timestamp, message_id, room },
                ttl_seconds,
            }
        },
        ChatMessage::RequestPublicKeys { user_ids, request_id } => {
            ChatAction::FetchPublicKeys { user_ids, request_id }
        },
        ChatMessage::KeyExchange { from_user_id, to_user_id, encrypted_key, key_id, scope } => {
            let pending = PendingKey {
                from_user_id: sender_user_id,
                to_user_id,
                encrypted_key: encrypted_key.clone(),
                key_id: key_id.clone(),
            };
            ChatAction::Relay {
                to_user_id,
                message: ChatMessage::KeyExchange {
                    from_user_id,
                    to_user_id,
                    encrypted_key,
                    key_id,
                    scope,
                },
                pending,
            }
        },
        other => ChatAction::Broadcast(other),
    }
}

/// The lifetime of a message in seconds, where `stored` is what the database
/// holds for its sender.
pub fn effective_ttl(named: Option<i64>, stored: Result<Option<i32>, DatabaseFailure>) -> (ttl: i64)
    ensures
        ttl == ttl_of(named, stored),
{
    match named {
        Some(ttl) => ttl,
        None => match stored {
            Ok(Some(ttl)) => ttl as i64,
            Ok(None) => DEFAULT_TTL_SECONDS as i64,
            Err(_) => DEFAULT_TTL_SECONDS as i64,
        },
    }
}

/// The message as the database keeps it for `ttl_seconds`.
pub fn message_to_store(sender_user_id: u128, chat: &EncryptedChat, ttl_seconds: i64) -> (stored:
    StoredMessage)
    requires
        chat.timestamp.wf(),
        chat.timestamp.can_add(ttl_seconds as int),
    ensures
        stored.keeps(sender_user_id, *chat, ttl_seconds),
{
    StoredMessage {
        id: chat.message_id.clone(),
        sender_id: sender_user_id,
        encrypted_content: chat.encrypted_content.clone(),
        recipients: chat.recipients.clone(),
        created_at: chat.timestamp,
        room: chat.room.clone(),
        expires_at: chat.timestamp.add_seconds(ttl_seconds),
    }
}

/// Hands a key to a socket of its user, or keeps it if they are offline.
pub fn relay_key(
    state: &AppState,
    to_user_id: u128,
    message: ChatMessage,
    pending: PendingKey,
) -> (relay: KeyRelay)
    ensures
        relay.passes_on(state@.connections, to_user_id, message, pending),
{
    let delivery = forward_to_user(state, to_user_id, message);
    let keep = if user_is_online(state, to_user_id) {
        None
    } else {
        Some(pending)
    };
    KeyRelay { delivery, keep }
}

} // verus!
