//! What callers can rely on, said of the calls themselves: of what goes in and
//! what comes out, and of how two calls relate.

use vstd::prelude::*;

use crate::auth::account::DirectoryEntry;
use crate::clock::Timestamp;
use crate::reply::{DatabaseFailure, StatusCode};
use crate::room::chat::{
    effective_ttl, handle_chat_message, message_to_store, relay_key, ChatAction, KeyRelay,
    PendingKey, StoredMessage,
};
use crate::room::history::{
    keys_to_mark, send_pending_dm_keys, send_recent_history, CatchUp, HistoryRow,
    PendingKeyDelivery, PendingKeyRow,
};
use crate::room::laws::picking_sockets;
use crate::room::routing::{
    broadcast_message, forward_along, forward_encrypted_message, forward_to_user,
    handle_public_keys_request, targets_of, user_is_online, Broadcast, Delivery, EncryptedChat,
};
use crate::room::socket::{
    close_socket, close_socket_at, handle_socket, handle_socket_at, on_socket_event, online_users,
    ws_handler, ChatMessage, Connection, Session, SocketAction, SocketEvent, SocketOpening,
    UserInfo,
};
use crate::room::Room;
use crate::state::AppState;

verus! {

/// Every socket of every recipient gets a message, but for the socket that it
/// came from, and none gets it twice. Without recipients, everyone else gets it.
pub proof fn forwarding_serves_all_recipients(
    order: &Vec<(u128, Connection)>,
    sender: u128,
    sender_user_id: u128,
    sender_username: &str,
    chat: &EncryptedChat,
    ttl_seconds: i64,
    deliveries: Vec<Delivery>,
)
    requires
        call_ensures(
            forward_along,
            (order, sender, sender_user_id, sender_username, chat, ttl_seconds),
            deliveries,
        ),
    ensures
        forall|i: int, k: int|
            0 <= i < order@.len() && 0 <= k < chat.recipients@.len() && (
            #[trigger] order@[i]).0 != sender && order@[i].1.user_id
                == #[trigger] chat.recipients@[k] ==> exists|d: int|
                0 <= d < deliveries@.len() && (#[trigger] deliveries@[d]).connection_id
                    == order@[i].0,
        chat.recipients@.len() == 0 ==> forall|i: int|
            0 <= i < order@.len() && (#[trigger] order@[i]).0 != sender ==> exists|d: int|
                0 <= d < deliveries@.len() && (#[trigger] deliveries@[d]).connection_id
                    == order@[i].0,
        forall|d: int|
            0 <= d < deliveries@.len() ==> (#[trigger] deliveries@[d]).connection_id != sender,
        (forall|i: int, j: int|
            0 <= i < j < order@.len() ==> (#[trigger] order@[i]).0 != (#[trigger] order@[j]).0)
            ==> forall|d: int, e: int|
            0 <= d < e < deliveries@.len() ==> (#[trigger] deliveries@[d]).connection_id != (
            #[trigger] deliveries@[e]).connection_id,
{
    let targets = targets_of(order@, sender, chat.recipients@);
    let wanted = |socket: (u128, Connection)|
        crate::room::routing::is_target(socket, sender, chat.recipients@);
    assert(targets == order@.filter(wanted));
    picking_sockets(order@, wanted);
    assert forall|i: int|
        0 <= i < order@.len() && wanted(#[trigger] order@[i]) implies exists|d: int|
        0 <= d < deliveries@.len() && (#[trigger] deliveries@[d]).connection_id == order@[i].0 by {
        let d = targets.index_of(order@[i]);
        assert(deliveries@[d].connection_id == targets[d].0);
    }
    assert forall|i: int, k: int|
        0 <= i < order@.len() && 0 <= k < chat.recipients@.len() && (
        #[trigger] order@[i]).0 != sender && order@[i].1.user_id
            == #[trigger] chat.recipients@[k] implies exists|d: int|
        0 <= d < deliveries@.len() && (#[trigger] deliveries@[d]).connection_id == order@[i].0 by {
        assert(wanted(order@[i]));
    }
    if chat.recipients@.len() == 0 {
        assert forall|i: int|
            0 <= i < order@.len() && (#[trigger] order@[i]).0 != sender implies exists|d: int|
            0 <= d < deliveries@.len() && (#[trigger] deliveries@[d]).connection_id
                == order@[i].0 by {
            assert(wanted(order@[i]));
        }
    }
    assert forall|d: int| 0 <= d < deliveries@.len() implies (
    #[trigger] deliveries@[d]).connection_id != sender by {
        assert(wanted(targets[d]));
    }
    if forall|i: int, j: int|
        0 <= i < j < order@.len() ==> (#[trigger] order@[i]).0 != (#[trigger] order@[j]).0 {
        assert forall|d: int, e: int| 0 <= d < e < deliveries@.len() implies (
        #[trigger] deliveries@[d]).connection_id != (#[trigger] deliveries@[e]).connection_id by {
            assert(targets[d].0 != targets[e].0);
        }
    }
}

/// A socket that gets a message with recipients belongs to one of them.
pub proof fn forwarding_serves_nobody_else(
    order: &Vec<(u128, Connection)>,
    sender: u128,
    sender_user_id: u128,
    sender_username: &str,
    chat: &EncryptedChat,
    ttl_seconds: i64,
    deliveries: Vec<Delivery>,
    d: int,
)
    requires
        call_ensures(
            forward_along,
            (order, sender, sender_user_id, sender_username, chat, ttl_seconds),
            deliveries,
        ),
        0 <= d < deliveries@.len(),
    ensures
        exists|i: int|
            {
                &&& 0 <= i < order@.len()
                &&& (#[trigger] order@[i]).0 == deliveries@[d].connection_id
                &&& chat.recipients@.len() == 0 || exists|k: int|
                    0 <= k < chat.recipients@.len() && #[trigger] chat.recipients@[k]
                        == order@[i].1.user_id
            },
{
    let targets = targets_of(order@, sender, chat.recipients@);
    let wanted = |socket: (u128, Connection)|
        crate::room::routing::is_target(socket, sender, chat.recipients@);
    assert(targets == order@.filter(wanted));
    picking_sockets(order@, wanted);
    assert(wanted(targets[d]));
    assert(order@.contains(targets[d]));
    let i = order@.index_of(targets[d]);
    assert(order@[i] == targets[d]);
    assert(deliveries@[d].connection_id == targets[d].0);
    if chat.recipients@.len() > 0 {
        let k = chat.recipients@.index_of(order@[i].1.user_id);
        assert(chat.recipients@[k] == order@[i].1.user_id);
    }
}

/// What a socket gets of a message is what was sent: the content, the time, the
/// id, the room and the lifetime, under the name of the user whose socket it
/// came from. If recipients are named, it lists them all; if not, it lists the
/// users of the sockets that have got it so far.
pub proof fn forwarded_messages_are_kept_intact(
    order: &Vec<(u128, Connection)>,
    sender: u128,
    sender_user_id: u128,
    sender_username: &str,
    chat: &EncryptedChat,
    ttl_seconds: i64,
    deliveries: Vec<Delivery>,
)
    requires
        call_ensures(
            forward_along,
            (order, sender, sender_user_id, sender_username, chat, ttl_seconds),
            deliveries,
        ),
    ensures
        forall|d: int|
            0 <= d < deliveries@.len() ==> {
                &&& (#[trigger] deliveries@[d]).message matches ChatMessage::EncryptedMessage {
                    sender_id,
                    sender_username: name,
                    encrypted_content,
                    recipients,
                    timestamp,
                    message_id,
                    room: Some(room),
                    ttl_seconds: Some(ttl),
                }
                &&& sender_id == sender_user_id
                &&& name@ == sender_username@
                &&& encrypted_content@ == chat.encrypted_content@
                &&& timestamp == chat.timestamp
                &&& message_id@ == chat.message_id@
                &&& room@ == chat.room@
                &&& ttl == ttl_seconds
                &&& chat.recipients@.len() > 0 ==> recipients@ == chat.recipients@
                &&& chat.recipients@.len() == 0 ==> recipients@.len() == d + 1
                &&& chat.recipients@.len() == 0 ==> forall|e: int|
                    0 <= e <= d ==> exists|i: int|
                        0 <= i < order@.len() && (#[trigger] order@[i]).0
                            == deliveries@[e].connection_id && order@[i].1.user_id
                            == #[trigger] recipients@[e]
            },
{
    let targets = targets_of(order@, sender, chat.recipients@);
    let wanted = |socket: (u128, Connection)|
        crate::room::routing::is_target(socket, sender, chat.recipients@);
    assert(targets == order@.filter(wanted));
    picking_sockets(order@, wanted);
    assert forall|d: int| 0 <= d < deliveries@.len() implies {
        &&& (#[trigger] deliveries@[d]).message matches ChatMessage::EncryptedMessage {
            recipients,
            ..
        }
        &&& chat.recipients@.len() == 0 ==> recipients@.len() == d + 1
        &&& chat.recipients@.len() == 0 ==> forall|e: int|
            0 <= e <= d ==> exists|i: int|
                0 <= i < order@.len() && (#[trigger] order@[i]).0
                    == deliveries@[e].connection_id && order@[i].1.user_id
                    == #[trigger] recipients@[e]
    } by {
        let recipients = deliveries@[d].message->EncryptedMessage_recipients;
        if chat.recipients@.len() == 0 {
            assert forall|e: int| 0 <= e <= d implies exists|i: int|
                0 <= i < order@.len() && (#[trigger] order@[i]).0
                    == deliveries@[e].connection_id && order@[i].1.user_id
                    == #[trigger] recipients@[e] by {
                let i = order@.index_of(targets[e]);
                assert(order@.contains(targets[e]));
                assert(order@[i] == targets[e]);
                assert(deliveries@[e].connection_id == targets[e].0);
            }
        }
    }
}

/// Of the open sockets, exactly those get a message that are not the sender's
/// and whose user is a recipient, each once; without recipients, all but the
/// sender's.
pub proof fn open_sockets_of_recipients_get_the_message(
    state: &AppState,
    sender: u128,
    sender_user_id: u128,
    sender_username: &str,
    chat: &EncryptedChat,
    ttl_seconds: i64,
    deliveries: Vec<Delivery>,
)
    requires
        call_ensures(
            forward_encrypted_message,
            (state, sender, sender_user_id, sender_username, chat, ttl_seconds),
            deliveries,
        ),
    ensures
        forall|id: u128, k: int|
            #[trigger] state.connections@.contains_key(id) && id != sender && 0 <= k
                < chat.recipients@.len() && state.connections@[id].user_id
                == #[trigger] chat.recipients@[k] ==> exists|d: int|
                0 <= d < deliveries@.len() && (#[trigger] deliveries@[d]).connection_id == id,
        chat.recipients@.len() == 0 ==> forall|id: u128| #[trigger]
            state.connections@.contains_key(id) && id != sender ==> exists|d: int|
                0 <= d < deliveries@.len() && (#[trigger] deliveries@[d]).connection_id == id,
        forall|d: int|
            0 <= d < deliveries@.len() ==> {
                let id = (#[trigger] deliveries@[d]).connection_id;
                &&& id != sender
                &&& state.connections@.contains_key(id)
                &&& chat.recipients@.len() == 0 || exists|k: int|
                    0 <= k < chat.recipients@.len() && #[trigger] chat.recipients@[k]
                        == state.connections@[id].user_id
            },
        forall|d: int, e: int|
            0 <= d < e < deliveries@.len() ==> (#[trigger] deliveries@[d]).connection_id != (
            #[trigger] deliveries@[e]).connection_id,
        forall|d: int|
            0 <= d < deliveries@.len() ==> {
                &&& (#[trigger] deliveries@[d]).message matches ChatMessage::EncryptedMessage {
                    sender_id,
                    sender_username: name,
                    encrypted_content,
                    recipients,
                    timestamp,
                    message_id,
                    room: Some(room),
                    ttl_seconds: Some(ttl),
                }
                &&& sender_id == sender_user_id
                &&& name@ == sender_username@
                &&& encrypted_content@ == chat.encrypted_content@
                &&& timestamp == chat.timestamp
                &&& message_id@ == chat.message_id@
                &&& room@ == chat.room@
                &&& ttl == ttl_seconds
                &&& chat.recipients@.len() > 0 ==> recipients@ == chat.recipients@
                &&& chat.recipients@.len() == 0 ==> recipients@.len() == d + 1 && forall|e: int|
                    0 <= e <= d ==> #[trigger] recipients@[e]
                        == state.connections@[deliveries@[e].connection_id].user_id
            },
{
    let order = choose|order: Seq<(u128, Connection)>| #[trigger]
        crate::room::routing::is_walk(order, state@.connections)
            && crate::room::routing::are_deliveries(
            deliveries@,
            order,
            sender,
            sender_user_id,
            sender_username@,
            *chat,
            ttl_seconds,
        );
    let targets = targets_of(order, sender, chat.recipients@);
    let wanted = |socket: (u128, Connection)|
        crate::room::routing::is_target(socket, sender, chat.recipients@);
    assert(targets == order.filter(wanted));
    picking_sockets(order, wanted);
    assert forall|id: u128| #[trigger]
        state.connections@.contains_key(id) && wanted(
            (id, state.connections@[id]),
        ) implies exists|d: int|
        0 <= d < deliveries@.len() && (#[trigger] deliveries@[d]).connection_id == id by {
        let i = order.index_of((id, state.connections@[id]));
        assert(order[i] == (id, state.connections@[id]));
        let d = targets.index_of(order[i]);
        assert(deliveries@[d].connection_id == targets[d].0);
    }
    assert forall|id: u128, k: int|
        #[trigger] state.connections@.contains_key(id) && id != sender && 0 <= k
            < chat.recipients@.len() && state.connections@[id].user_id
            == #[trigger] chat.recipients@[k] implies exists|d: int|
        0 <= d < deliveries@.len() && (#[trigger] deliveries@[d]).connection_id == id by {
        assert(wanted((id, state.connections@[id])));
    }
    if chat.recipients@.len() == 0 {
        assert forall|id: u128| #[trigger]
            state.connections@.contains_key(id) && id != sender implies exists|d: int|
            0 <= d < deliveries@.len() && (#[trigger] deliveries@[d]).connection_id == id by {
            assert(wanted((id, state.connections@[id])));
        }
    }
    assert forall|d: int| 0 <= d < deliveries@.len() implies {
        let id = (#[trigger] deliveries@[d]).connection_id;
        &&& id != sender
        &&& id == targets[d].0
        &&& state.connections@.contains_key(id)
        &&& state.connections@[id] == targets[d].1
        &&& chat.recipients@.len() == 0 || exists|k: int|
            0 <= k < chat.recipients@.len() && #[trigger] chat.recipients@[k]
                == state.connections@[id].user_id
    } by {
        assert(wanted(targets[d]));
        let i = order.index_of(targets[d]);
        assert(order[i] == targets[d]);
    }
    assert forall|d: int, e: int| 0 <= d < e < deliveries@.len() implies (
    #[trigger] deliveries@[d]).connection_id != (#[trigger] deliveries@[e]).connection_id by {
        assert(targets[d].0 != targets[e].0);
    }
    assert forall|d: int|
        0 <= d < deliveries@.len() && chat.recipients@.len() == 0 implies {
        &&& (#[trigger] deliveries@[d]).message matches ChatMessage::EncryptedMessage {
            recipients,
            ..
        }
        &&& recipients@.len() == d + 1 && forall|e: int|
            0 <= e <= d ==> #[trigger] recipients@[e]
                == state.connections@[deliveries@[e].connection_id].user_id
    } by {
        let recipients = deliveries@[d].message->EncryptedMessage_recipients;
        assert forall|e: int| 0 <= e <= d implies #[trigger] recipients@[e]
            == state.connections@[deliveries@[e].connection_id].user_id by {
            assert(deliveries@[e].connection_id == targets[e].0);
        }
    }
}

/// An encrypted message keeps the room that it names, whoever its recipients
/// are. One that names none goes to everyone if it has several recipients, and
/// is a direct message otherwise. Its content, recipients, time, id and lifetime
/// are passed on as they came.
pub proof fn named_rooms_are_kept(sender: u128, message: ChatMessage, action: ChatAction)
    requires
        call_ensures(handle_chat_message, (sender, message), action),
        message is EncryptedMessage,
    ensures
        action is Forward,
        match message->EncryptedMessage_room {
            Some(room) => action->Forward_chat.room@ == room@,
            None => {
                &&& message->EncryptedMessage_recipients@.len() >= 2
                    ==> action->Forward_chat.room@ == "global"@
                &&& message->EncryptedMessage_recipients@.len() < 2
                    ==> action->Forward_chat.room@ == "dm"@
            },
        },
        action->Forward_chat.encrypted_content@ == message->EncryptedMessage_encrypted_content@,
        action->Forward_chat.recipients@ == message->EncryptedMessage_recipients@,
        action->Forward_chat.timestamp == message->EncryptedMessage_timestamp,
        action->Forward_chat.message_id@ == message->EncryptedMessage_message_id@,
        action->Forward_ttl_seconds == message->EncryptedMessage_ttl_seconds,
{
}

/// A message is passed on to everyone unless it is encrypted, carries a key or
/// asks for keys, and then it is the message that came.
pub proof fn other_messages_are_passed_on_unchanged(
    sender: u128,
    message: ChatMessage,
    action: ChatAction,
)
    requires
        call_ensures(handle_chat_message, (sender, message), action),
    ensures
        action is Broadcast <==> !(message is EncryptedMessage || message is KeyExchange
            || message is RequestPublicKeys),
        action is Broadcast ==> action->Broadcast_0 == message,
        action is Forward <==> message is EncryptedMessage,
        action is Relay <==> message is KeyExchange,
        action is FetchPublicKeys <==> message is RequestPublicKeys,
        message is RequestPublicKeys ==> action->user_ids@
            == message->RequestPublicKeys_user_ids@ && action->FetchPublicKeys_request_id@
            == message->RequestPublicKeys_request_id@,
{
}

/// A key goes to its user just as it came, with its scope and all its other
/// parts, if they have a socket open. If not, it is kept for them as a key from
/// the user who sent it.
pub proof fn keys_are_relayed_unchanged(
    sender: u128,
    message: ChatMessage,
    action: ChatAction,
    state: &AppState,
    relay: KeyRelay,
)
    requires
        call_ensures(handle_chat_message, (sender, message), action),
        message is KeyExchange,
        call_ensures(
            relay_key,
            (state, action->to_user_id, action->Relay_message, action->Relay_pending),
            relay,
        ),
    ensures
        action is Relay,
        relay.delivery matches Some(delivery) ==> {
            &&& delivery.message matches ChatMessage::KeyExchange {
                from_user_id,
                to_user_id,
                encrypted_key,
                key_id,
                scope,
            }
            &&& from_user_id == message->from_user_id
            &&& to_user_id == message->to_user_id
            &&& encrypted_key@ == message->encrypted_key@
            &&& key_id@ == message->KeyExchange_key_id@
            &&& scope == message->scope
            &&& state.connections@.contains_key(delivery.connection_id)
            &&& state.connections@[delivery.connection_id].user_id == message->to_user_id
        },
        relay.delivery is None <==> forall|id: u128| #[trigger]
            state.connections@.contains_key(id) ==> state.connections@[id].user_id
                != message->to_user_id,
        relay.keep is Some <==> relay.delivery is None,
        relay.keep matches Some(kept) ==> {
            &&& kept.from_user_id == sender
            &&& kept.to_user_id == message->to_user_id
            &&& kept.encrypted_key@ == message->encrypted_key@
            &&& kept.key_id@ == message->KeyExchange_key_id@
        },
{
}

/// Handing a key on gives it to a socket of the user that it is for, as it is,
/// and keeps what is to be kept just if there is none.
pub proof fn keys_go_to_whom_they_are_for(
    state: &AppState,
    to_user_id: u128,
    message: ChatMessage,
    pending: PendingKey,
    relay: KeyRelay,
)
    requires
        call_ensures(relay_key, (state, to_user_id, message, pending), relay),
    ensures
        (exists|id: u128| #[trigger]
            state.connections@.contains_key(id) && state.connections@[id].user_id == to_user_id)
            ==> relay.keep is None && relay.delivery is Some,
        !(exists|id: u128| #[trigger]
            state.connections@.contains_key(id) && state.connections@[id].user_id == to_user_id)
            ==> relay.keep == Some(pending) && relay.delivery is None,
        relay.delivery matches Some(delivery) ==> delivery.message == message
            && state.connections@.contains_key(delivery.connection_id)
            && state.connections@[delivery.connection_id].user_id == to_user_id,
{
}

/// The lifetime that a message names always counts. Only where it names none
/// does the one count that its sender chose, and a day where that is not known.
pub proof fn named_lifetimes_win(
    named: Option<i64>,
    stored: Result<Option<i32>, DatabaseFailure>,
    ttl: i64,
)
    requires
        call_ensures(effective_ttl, (named, stored), ttl),
    ensures
        named is Some ==> named == Some(ttl),
        named is None ==> (stored matches Ok(Some(chosen)) ==> ttl == chosen),
        named is None && (stored is Err || stored == Ok::<Option<i32>, DatabaseFailure>(None))
            ==> ttl == 24 * 60 * 60,
{
}

/// A message is stored with everything that it came with, under the user who
/// sent it, and runs out exactly its lifetime after it was sent.
pub proof fn messages_are_stored_intact(
    sender: u128,
    chat: &EncryptedChat,
    ttl_seconds: i64,
    stored: StoredMessage,
)
    requires
        call_ensures(message_to_store, (sender, chat, ttl_seconds), stored),
        chat.timestamp.wf(),
        chat.timestamp.can_add(ttl_seconds as int),
    ensures
        stored.id@ == chat.message_id@,
        stored.sender_id == sender,
        stored.encrypted_content@ == chat.encrypted_content@,
        stored.recipients@ == chat.recipients@,
        stored.room@ == chat.room@,
        stored.created_at == chat.timestamp,
        chat.timestamp.nanos < 1000000000 ==> stored.expires_at.secs - chat.timestamp.secs
            == ttl_seconds && stored.expires_at.nanos == chat.timestamp.nanos,
        chat.timestamp.nanos >= 1000000000 && ttl_seconds > 0 ==> stored.expires_at.secs
            - chat.timestamp.secs == ttl_seconds && stored.expires_at.nanos
            == chat.timestamp.nanos - 1000000000,
        chat.timestamp.nanos >= 1000000000 && ttl_seconds < 0 ==> stored.expires_at.secs
            - chat.timestamp.secs == ttl_seconds + 1 && stored.expires_at.nanos
            == chat.timestamp.nanos - 1000000000,
        chat.timestamp.nanos >= 1000000000 && ttl_seconds == 0 ==> stored.expires_at
            == chat.timestamp,
{
}

/// The nanoseconds from `start` to `end`. A leap second counts when it lies
/// between the two times of day.
pub open spec fn nanos_between(start: Timestamp, end: Timestamp) -> int {
    let leap: int = if end.secs % 86400 > start.secs % 86400 && start.nanos >= 1000000000 {
        1
    } else if end.secs % 86400 < start.secs % 86400 && end.nanos >= 1000000000 {
        -1
    } else {
        0
    };
    (end.secs - start.secs + leap) * 1000000000 + end.nanos - start.nanos
}

/// Whether `ttl` seconds are what is left at `now` of a time that runs out at
/// `end`: whole seconds, and none once it has run out.
pub open spec fn is_time_left(ttl: i64, end: Timestamp, now: Timestamp) -> bool {
    let left = nanos_between(now, end);
    if left < 0 {
        ttl == 0
    } else {
        ttl * 1000000000 <= left && left < (ttl + 1) * 1000000000
    }
}

/// A stored message that runs out `n` seconds from now is sent with `n` seconds
/// left, however old it is.
pub proof fn time_left_is_counted_from_now(
    row: HistoryRow,
    now: &Timestamp,
    message: ChatMessage,
    n: int,
)
    requires
        call_ensures(HistoryRow::into_message, (row, now), message),
        row.expires_at.wf(),
        now.wf(),
        now.nanos < 1000000000,
        n >= 0,
        row.expires_at.secs == now.secs + n,
        row.expires_at.nanos == now.nanos,
    ensures
        row.expires_at == now.plus(n),
        message matches ChatMessage::EncryptedMessage { ttl_seconds: Some(ttl), .. } && ttl == n,
{
}

/// What is left of a stored message depends on when it runs out and on the time
/// alone: two rows that run out together are sent with the same lifetime.
pub proof fn time_left_depends_on_the_end_alone(
    first: HistoryRow,
    second: HistoryRow,
    now: &Timestamp,
    one: ChatMessage,
    other: ChatMessage,
)
    requires
        call_ensures(HistoryRow::into_message, (first, now), one),
        call_ensures(HistoryRow::into_message, (second, now), other),
        first.expires_at.wf(),
        now.wf(),
        first.expires_at == second.expires_at,
    ensures
        one matches ChatMessage::EncryptedMessage { ttl_seconds: Some(left), .. } && is_time_left(
            left,
            first.expires_at,
            *now,
        ),
        one->EncryptedMessage_ttl_seconds == other->EncryptedMessage_ttl_seconds,
{
}

/// A stored message is sent with everything that was stored, the room and the
/// name of its sender included.
pub proof fn history_keeps_messages_intact(row: HistoryRow, now: &Timestamp, message: ChatMessage)
    requires
        call_ensures(HistoryRow::into_message, (row, now), message),
        row.expires_at.wf(),
        now.wf(),
    ensures
        message matches ChatMessage::EncryptedMessage {
            sender_id,
            sender_username,
            encrypted_content,
            recipients,
            timestamp,
            message_id,
            room: Some(room),
            ttl_seconds: Some(ttl),
        } && sender_id == row.sender_id && sender_username@ == row.sender_name@
            && encrypted_content@ == row.encrypted_content@ && recipients@ == row.recipients@
            && timestamp == row.created_at && message_id@ == row.id@ && room@ == row.room@ && ttl
            >= 0,
{
}

/// The history is the rows turned round, each message as it was stored, with the
/// time that it had left at some reading of the clock.
pub proof fn history_is_every_row_turned_round(
    rows: Vec<HistoryRow>,
    messages: Vec<ChatMessage>,
    i: int,
)
    requires
        call_ensures(send_recent_history, (rows,), messages),
        forall|j: int| 0 <= j < rows@.len() ==> (#[trigger] rows@[j]).expires_at.wf(),
        0 <= i < rows@.len(),
    ensures
        messages@.len() == rows@.len(),
        ({
            let row = rows@[rows@.len() - 1 - i];
            &&& messages@[i] matches ChatMessage::EncryptedMessage {
                sender_id,
                sender_username,
                encrypted_content,
                recipients,
                timestamp,
                message_id,
                room: Some(room),
                ttl_seconds: Some(ttl),
            }
            &&& sender_id == row.sender_id
            &&& sender_username@ == row.sender_name@
            &&& encrypted_content@ == row.encrypted_content@
            &&& recipients@ == row.recipients@
            &&& timestamp == row.created_at
            &&& message_id@ == row.id@
            &&& room@ == row.room@
            &&& exists|now: Timestamp| #[trigger]
                now.is_reading() && is_time_left(ttl, row.expires_at, now)
        }),
{
    let row = rows@[rows@.len() - 1 - i];
    assert(row.may_be_sent_as(messages@[i]@));
    let now = choose|now: Timestamp| #[trigger]
        now.is_reading() && messages@[i]@ == row.message_at(now);
    assert(row.expires_at.wf());
    assert(now.is_reading());
}

/// Keys that waited come out one for one, in their order, as keys for direct
/// messages.
pub proof fn waiting_keys_come_out_one_for_one(
    rows: Vec<PendingKeyRow>,
    deliveries: Vec<PendingKeyDelivery>,
    i: int,
)
    requires
        call_ensures(send_pending_dm_keys, (rows,), deliveries),
        0 <= i < rows@.len(),
    ensures
        deliveries@.len() == rows@.len(),
        deliveries@[i].id == rows@[i].id,
        deliveries@[i].message matches ChatMessage::KeyExchange {
            from_user_id,
            to_user_id,
            encrypted_key,
            key_id,
            scope: Some(scope),
        } && from_user_id == rows@[i].from_user_id && to_user_id == rows@[i].to_user_id
            && encrypted_key@ == rows@[i].encrypted_key@ && key_id@ == rows@[i].key_id@ && scope@
            == "dm"@,
{
    assert(deliveries@[i].message@ == rows@[i].message());
}

/// The ids in a list that may be missing.
pub open spec fn listed(ids: Option<Vec<u128>>) -> Seq<u128> {
    match ids {
        Some(ids) => ids@,
        None => Seq::empty(),
    }
}

/// A further attempt adds its key to those to be marked just if it went out, and
/// changes nothing about the others. Without attempts there is nothing to mark,
/// and an empty list is never handed out.
pub proof fn each_key_that_went_out_is_marked(
    before: &Vec<(u128, bool)>,
    after: &Vec<(u128, bool)>,
    key: u128,
    sent: bool,
    first: Option<Vec<u128>>,
    second: Option<Vec<u128>>,
)
    requires
        call_ensures(keys_to_mark, (before,), first),
        call_ensures(keys_to_mark, (after,), second),
        after@ == before@.push((key, sent)),
    ensures
        sent ==> listed(second) == listed(first).push(key),
        !sent ==> listed(second) == listed(first),
        before@.len() == 0 ==> first is None,
        first matches Some(ids) ==> ids@.len() > 0,
{
    reveal(Seq::filter);
    crate::room::history::ids_sent_next(before@, (key, sent));
}

/// After waiting come the keys, after the keys the history, whether or not the
/// database failed, and then nothing.
pub proof fn failures_do_not_stop_catching_up(
    start: CatchUp,
    outcomes: (
        Result<(), DatabaseFailure>,
        Result<(), DatabaseFailure>,
        Result<(), DatabaseFailure>,
    ),
    second: CatchUp,
    third: CatchUp,
    fourth: CatchUp,
)
    requires
        call_ensures(CatchUp::start, (), start),
        call_ensures(CatchUp::after, (start, outcomes.0), second),
        call_ensures(CatchUp::after, (second, outcomes.1), third),
        call_ensures(CatchUp::after, (third, outcomes.2), fourth),
    ensures
        start == (CatchUp::Wait { millis: 300 }),
        second is SendKeys,
        third is SendHistory,
        fourth is Done,
{
}

/// One socket more in the walk adds its user at the end of those who are online,
/// unless it is the socket that asks.
pub proof fn each_other_socket_counts_as_online(
    before: Vec<(u128, Connection)>,
    after: Vec<(u128, Connection)>,
    next: (u128, Connection),
    own: u128,
    first: Vec<UserInfo>,
    second: Vec<UserInfo>,
)
    requires
        call_ensures(online_users, (before, own), first),
        call_ensures(online_users, (after, own), second),
        after@ == before@.push(next),
    ensures
        before@.len() == 0 ==> first@.len() == 0,
        next.0 == own ==> second@.len() == first@.len(),
        next.0 != own ==> second@.len() == first@.len() + 1 && second@.last().user_id
            == next.1.user_id && second@.last().username@ == next.1.username@,
        forall|i: int|
            0 <= i < first@.len() ==> (#[trigger] second@[i]).user_id == first@[i].user_id
                && second@[i].username@ == first@[i].username@,
{
    reveal(Seq::filter);
    crate::room::socket::online_in_next(before@, own, next);
    let shown = |user: UserInfo| user@;
    let firsts = first@.map_values(shown);
    let seconds = second@.map_values(shown);
    assert(first@.len() == firsts.len() && second@.len() == seconds.len());
    assert forall|i: int| 0 <= i < first@.len() implies (#[trigger] second@[i]).user_id
        == first@[i].user_id && second@[i].username@ == first@[i].username@ by {
        assert(seconds[i] == firsts[i]);
        assert(seconds[i] == second@[i]@ && firsts[i] == first@[i]@);
    }
    if next.0 != own {
        assert(seconds[firsts.len() as int] == second@.last()@);
    }
}

/// Whether `users` lists who is behind the open sockets other than `own`, each
/// socket once.
pub open spec fn lists_the_others(
    users: Seq<UserInfo>,
    connections: Map<u128, Connection>,
    own: u128,
) -> bool {
    exists|ids: Seq<u128>| #[trigger]
        ids.no_duplicates() && ids.len() == users.len() && (forall|i: int|
            0 <= i < ids.len() ==> (#[trigger] ids[i]) != own && connections.contains_key(ids[i])
                && users[i].user_id == connections[ids[i]].user_id && users[i].username@
                == connections[ids[i]].username@) && (forall|id: u128| #[trigger]
            connections.contains_key(id) && id != own ==> ids.contains(id))
}

/// The ids of the sockets in `order` other than `own`.
spec fn other_ids(order: Seq<(u128, Connection)>, own: u128) -> Seq<u128>
    decreases order.len(),
{
    if order.len() == 0 {
        Seq::empty()
    } else if order.last().0 != own {
        other_ids(order.drop_last(), own).push(order.last().0)
    } else {
        other_ids(order.drop_last(), own)
    }
}

proof fn online_users_stand_behind_other_sockets(order: Seq<(u128, Connection)>, own: u128)
    ensures
        ({
            let told = crate::room::socket::online_in(order, own);
            let ids = other_ids(order, own);
            &&& told.len() == ids.len()
            &&& forall|i: int|
                0 <= i < ids.len() ==> exists|k: int|
                    0 <= k < order.len() && (#[trigger] order[k]).0 == #[trigger] ids[i] && ids[i]
                        != own && order[k].1.user_id == told[i].user_id && order[k].1.username@
                        == told[i].username
            &&& forall|k: int|
                0 <= k < order.len() && (#[trigger] order[k]).0 != own ==> ids.contains(order[k].0)
            &&& (forall|i: int, j: int|
                0 <= i < j < order.len() ==> (#[trigger] order[i]).0 != (#[trigger] order[j]).0)
                ==> ids.no_duplicates()
        }),
    decreases order.len(),
{
    if order.len() == 0 {
        reveal(Seq::filter);
        assert(crate::room::socket::online_in(order, own).len() == 0);
    } else {
        let rest = order.drop_last();
        let last = order.last();
        let before = other_ids(rest, own);
        let ids = other_ids(order, own);
        let told_before = crate::room::socket::online_in(rest, own);
        let told = crate::room::socket::online_in(order, own);
        online_users_stand_behind_other_sockets(rest, own);
        crate::room::socket::online_in_next(rest, own, last);
        assert(order =~= rest.push(last));
        assert forall|i: int| 0 <= i < ids.len() implies exists|k: int|
            0 <= k < order.len() && (#[trigger] order[k]).0 == #[trigger] ids[i] && ids[i] != own
                && order[k].1.user_id == told[i].user_id && order[k].1.username@
                == told[i].username by {
            if i < before.len() {
                assert(ids[i] == before[i]);
                let k = choose|k: int|
                    0 <= k < rest.len() && (#[trigger] rest[k]).0 == before[i] && before[i] != own
                        && rest[k].1.user_id == told_before[i].user_id && rest[k].1.username@
                        == told_before[i].username;
                assert(order[k] == rest[k]);
            } else {
                assert(order[order.len() - 1] == last);
            }
        }
        assert forall|k: int|
            0 <= k < order.len() && (#[trigger] order[k]).0 != own implies ids.contains(
            order[k].0,
        ) by {
            if k < rest.len() {
                assert(rest[k] == order[k]);
                let i = before.index_of(rest[k].0);
                assert(ids[i] == order[k].0);
            } else {
                assert(ids[ids.len() - 1] == order[k].0);
            }
        }
        if forall|i: int, j: int|
            0 <= i < j < order.len() ==> (#[trigger] order[i]).0 != (#[trigger] order[j]).0 {
            assert forall|i: int, j: int| 0 <= i < j < rest.len() implies (#[trigger] rest[i]).0
                != (#[trigger] rest[j]).0 by {
                assert(order[i] == rest[i] && order[j] == rest[j]);
            }
            assert forall|i: int, j: int| 0 <= i < j < ids.len() implies ids[i] != ids[j] by {
                assert(ids[i] == before[i]);
                if j == before.len() {
                    let k = choose|k: int|
                        0 <= k < rest.len() && (#[trigger] rest[k]).0 == before[i] && before[i]
                            != own && rest[k].1.user_id == told_before[i].user_id
                            && rest[k].1.username@ == told_before[i].username;
                    assert(order[k] == rest[k]);
                    assert(order[order.len() - 1] == last);
                } else {
                    assert(ids[j] == before[j]);
                }
            }
        }
    }
}

proof fn online_users_are_the_others(
    online: ChatMessage,
    order: Seq<(u128, Connection)>,
    connections: Map<u128, Connection>,
    own: u128,
)
    requires
        crate::room::routing::is_walk(order, connections),
        online@ == (crate::room::socket::ChatMessageView::OnlineUsers {
            users: crate::room::socket::online_in(order, own),
        }),
    ensures
        online matches ChatMessage::OnlineUsers { users } && lists_the_others(
            users@,
            connections,
            own,
        ),
{
    let users = online->users@;
    let shown = users.map_values(|user: UserInfo| user@);
    let told = crate::room::socket::online_in(order, own);
    let ids = other_ids(order, own);
    online_users_stand_behind_other_sockets(order, own);
    assert(shown == told);
    assert(ids.no_duplicates());
    assert forall|i: int| 0 <= i < ids.len() implies (#[trigger] ids[i]) != own
        && connections.contains_key(ids[i]) && users[i].user_id == connections[ids[i]].user_id
        && users[i].username@ == connections[ids[i]].username@ by {
        assert(shown[i] == users[i]@);
        let k = choose|k: int|
            0 <= k < order.len() && (#[trigger] order[k]).0 == ids[i] && ids[i] != own
                && order[k].1.user_id == told[i].user_id && order[k].1.username@
                == told[i].username;
        assert(connections[order[k].0] == order[k].1);
    }
    assert forall|id: u128| #[trigger] connections.contains_key(id) && id != own implies ids.contains(
        id,
    ) by {
        let socket = (id, connections[id]);
        let k = order.index_of(socket);
        assert(order[k] == socket);
    }
}

/// Opening a socket adds it for its user and changes nothing else. The newcomer
/// is told of every other open socket's user; everyone, the newcomer included,
/// is told of the newcomer.
pub proof fn opening_announces_the_newcomer(
    state: &mut AppState,
    session: &Session,
    connection_id: u128,
    now: Timestamp,
    opening: SocketOpening,
)
    requires
        call_ensures(handle_socket_at, (state, session, connection_id, now), opening),
    ensures
        opening.connection_id == connection_id,
        final(state).connections@.contains_key(connection_id),
        final(state).connections@[connection_id].user_id == session.user_id,
        final(state).connections@[connection_id].username@ == session.username@,
        forall|id: u128|
            id != connection_id ==> (#[trigger] final(state).connections@.contains_key(id)
                <==> old(state).connections@.contains_key(id)) && (
            old(state).connections@.contains_key(id) ==> final(state).connections@[id]
                == old(state).connections@[id]),
        final(state).sessions@ == old(state).sessions@,
        final(state).temp_sessions@ == old(state).temp_sessions@,
        final(state).otp_store@ == old(state).otp_store@,
        opening.online matches ChatMessage::OnlineUsers { users } && lists_the_others(
            users@,
            final(state).connections@,
            connection_id,
        ),
        opening.joined.message matches ChatMessage::UserJoined { username, user_id, timestamp }
            && username@ == session.username@ && user_id == session.user_id && timestamp == now,
        opening.joined.targets@.no_duplicates(),
        forall|id: u128| #[trigger]
            opening.joined.targets@.contains(id) <==> id == connection_id
                || old(state).connections@.contains_key(id),
{
    let order = choose|order: Seq<(u128, Connection)>| #[trigger]
        crate::room::routing::is_walk(order, final(state)@.connections) && opening.online@ == (
        crate::room::socket::ChatMessageView::OnlineUsers {
            users: crate::room::socket::online_in(order, connection_id),
        });
    online_users_are_the_others(
        opening.online,
        order,
        final(state).connections@,
        connection_id,
    );
    assert forall|id: u128| #[trigger] opening.joined.targets@.contains(id) <==> id == connection_id
        || old(state).connections@.contains_key(id) by {
        assert(opening.joined.targets@.contains(id) <==> final(state)@.connections.contains_key(
            id,
        ));
    }
}

/// A socket that is opened under a fresh id does the same.
pub proof fn opening_with_a_fresh_id_announces_the_newcomer(
    state: &mut AppState,
    session: &Session,
    opening: SocketOpening,
)
    requires
        call_ensures(handle_socket, (state, session), opening),
    ensures
        final(state).connections@.contains_key(opening.connection_id),
        final(state).connections@[opening.connection_id].user_id == session.user_id,
        final(state).connections@[opening.connection_id].username@ == session.username@,
        forall|id: u128|
            id != opening.connection_id ==> (#[trigger] final(state).connections@.contains_key(id)
                <==> old(state).connections@.contains_key(id)) && (
            old(state).connections@.contains_key(id) ==> final(state).connections@[id]
                == old(state).connections@[id]),
        final(state).sessions@ == old(state).sessions@,
        final(state).temp_sessions@ == old(state).temp_sessions@,
        final(state).otp_store@ == old(state).otp_store@,
        opening.online matches ChatMessage::OnlineUsers { users } && lists_the_others(
            users@,
            final(state).connections@,
            opening.connection_id,
        ),
        opening.joined.message matches ChatMessage::UserJoined { username, user_id, timestamp }
            && username@ == session.username@ && user_id == session.user_id
            && timestamp.is_reading(),
        opening.joined.targets@.no_duplicates(),
        forall|id: u128| #[trigger]
            opening.joined.targets@.contains(id) <==> id == opening.connection_id
                || old(state).connections@.contains_key(id),
{
    let order = choose|order: Seq<(u128, Connection)>| #[trigger]
        crate::room::routing::is_walk(order, final(state)@.connections) && opening.online@ == (
        crate::room::socket::ChatMessageView::OnlineUsers {
            users: crate::room::socket::online_in(order, opening.connection_id),
        });
    online_users_are_the_others(
        opening.online,
        order,
        final(state).connections@,
        opening.connection_id,
    );
    assert forall|id: u128| #[trigger] opening.joined.targets@.contains(id) <==> id
        == opening.connection_id || old(state).connections@.contains_key(id) by {
        assert(opening.joined.targets@.contains(id) <==> final(state)@.connections.contains_key(
            id,
        ));
    }
}

/// Closing a socket takes it away and nothing else, and tells every socket that
/// is left who has gone.
pub proof fn closing_tells_those_who_are_left(
    state: &mut AppState,
    session: &Session,
    connection_id: u128,
    now: Timestamp,
    left: Broadcast,
)
    requires
        call_ensures(close_socket_at, (state, session, connection_id, now), left),
    ensures
        !final(state).connections@.contains_key(connection_id),
        forall|id: u128|
            id != connection_id ==> (#[trigger] final(state).connections@.contains_key(id)
                <==> old(state).connections@.contains_key(id)) && (
            old(state).connections@.contains_key(id) ==> final(state).connections@[id]
                == old(state).connections@[id]),
        final(state).sessions@ == old(state).sessions@,
        final(state).temp_sessions@ == old(state).temp_sessions@,
        final(state).otp_store@ == old(state).otp_store@,
        left.message matches ChatMessage::UserLeft { username, user_id, timestamp } && username@
            == session.username@ && user_id == session.user_id && timestamp == now,
        left.targets@.no_duplicates(),
        forall|id: u128| #[trigger]
            left.targets@.contains(id) <==> id != connection_id
                && old(state).connections@.contains_key(id),
{
    assert forall|id: u128| #[trigger] left.targets@.contains(id) <==> id != connection_id
        && old(state).connections@.contains_key(id) by {
        assert(left.targets@.contains(id) <==> final(state)@.connections.contains_key(id));
    }
}

/// Closing a socket now does the same, with a reading of the clock.
pub proof fn closing_now_tells_those_who_are_left(
    state: &mut AppState,
    session: &Session,
    connection_id: u128,
    left: Broadcast,
)
    requires
        call_ensures(close_socket, (state, session, connection_id), left),
    ensures
        !final(state).connections@.contains_key(connection_id),
        forall|id: u128|
            id != connection_id ==> (#[trigger] final(state).connections@.contains_key(id)
                <==> old(state).connections@.contains_key(id)) && (
            old(state).connections@.contains_key(id) ==> final(state).connections@[id]
                == old(state).connections@[id]),
        final(state).sessions@ == old(state).sessions@,
        final(state).temp_sessions@ == old(state).temp_sessions@,
        final(state).otp_store@ == old(state).otp_store@,
        left.message matches ChatMessage::UserLeft { username, user_id, timestamp } && username@
            == session.username@ && user_id == session.user_id && timestamp.is_reading(),
        left.targets@.no_duplicates(),
        forall|id: u128| #[trigger]
            left.targets@.contains(id) <==> id != connection_id
                && old(state).connections@.contains_key(id),
{
    assert forall|id: u128| #[trigger] left.targets@.contains(id) <==> id != connection_id
        && old(state).connections@.contains_key(id) by {
        assert(left.targets@.contains(id) <==> final(state)@.connections.contains_key(id));
    }
}

/// Only a text that could be read is acted on, as it was read; the socket is
/// closed just if the client says goodbye, nothing more can come in, or nothing
/// more can go out.
pub proof fn sockets_close_only_when_a_direction_ends(event: SocketEvent, action: SocketAction)
    requires
        call_ensures(on_socket_event, (event,), action),
    ensures
        action matches SocketAction::Handle(message) ==> event == SocketEvent::Text(Some(message)),
        event matches SocketEvent::Text(Some(_)) ==> action is Handle,
        action is Stop <==> event is Close || event is ReceiveEnded || event is SendFailed || event
            is QueueEnded,
{
}

/// Whoever opens a socket does so in the session that their cookie names, and
/// nobody does without one.
pub proof fn sockets_belong_to_the_session_of_the_cookie(
    state: &AppState,
    session_id: Option<&str>,
    res: Result<Session, StatusCode>,
)
    requires
        call_ensures(ws_handler, (state, session_id), res),
    ensures
        res matches Ok(session) ==> session_id is Some && state.sessions@.contains_key(
            session_id->0@,
        ) && session == state.sessions@[session_id->0@],
        session_id is Some && state.sessions@.contains_key(session_id->0@) ==> res is Ok,
        res matches Err(status) ==> status == StatusCode::Unauthorized,
{
}

/// A walk visits every open socket, each once, and none besides.
pub proof fn walks_visit_every_socket_once(state: &AppState, order: Vec<(u128, Connection)>)
    requires
        call_ensures(AppState::walk, (state,), order),
    ensures
        forall|i: int|
            0 <= i < order@.len() ==> state.connections@.contains_key((#[trigger] order@[i]).0)
                && state.connections@[order@[i].0] == order@[i].1,
        forall|id: u128| #[trigger]
            state.connections@.contains_key(id) ==> exists|i: int|
                0 <= i < order@.len() && (#[trigger] order@[i]).0 == id,
        forall|i: int, j: int|
            0 <= i < j < order@.len() ==> (#[trigger] order@[i]).0 != (#[trigger] order@[j]).0,
{
    assert forall|id: u128| #[trigger] state.connections@.contains_key(id) implies exists|i: int|
        0 <= i < order@.len() && (#[trigger] order@[i]).0 == id by {
        let i = order@.index_of((id, state.connections@[id]));
        assert(order@.contains((id, state@.connections[id])));
        assert(order@[i].0 == id);
    }
}

/// A user is online just if a socket of theirs is open, and is then reached over
/// one of theirs with the message as it is.
pub proof fn messages_reach_a_socket_of_their_user(
    state: &AppState,
    user: u128,
    message: ChatMessage,
    online: bool,
    delivery: Option<Delivery>,
)
    requires
        call_ensures(user_is_online, (state, user), online),
        call_ensures(forward_to_user, (state, user, message), delivery),
    ensures
        online <==> exists|id: u128| #[trigger]
            state.connections@.contains_key(id) && state.connections@[id].user_id == user,
        delivery is Some <==> online,
        delivery matches Some(delivery) ==> delivery.message == message
            && state.connections@.contains_key(delivery.connection_id)
            && state.connections@[delivery.connection_id].user_id == user,
{
}

/// A broadcast carries the message as it is to every open socket but the
/// excluded one, each once.
pub proof fn broadcasts_reach_all_but_the_excluded(
    state: &AppState,
    excluded: Option<u128>,
    message: ChatMessage,
    broadcast: Broadcast,
)
    requires
        call_ensures(broadcast_message, (state, excluded, message), broadcast),
    ensures
        broadcast.message == message,
        forall|id: u128| #[trigger]
            state.connections@.contains_key(id) && excluded != Some(id)
                ==> broadcast.targets@.contains(id),
        forall|i: int|
            0 <= i < broadcast.targets@.len() ==> state.connections@.contains_key(
                #[trigger] broadcast.targets@[i],
            ) && excluded != Some(broadcast.targets@[i]),
        forall|i: int, j: int|
            0 <= i < j < broadcast.targets@.len() ==> broadcast.targets@[i]
                != broadcast.targets@[j],
{
    assert forall|i: int| 0 <= i < broadcast.targets@.len() implies state.connections@.contains_key(
        #[trigger] broadcast.targets@[i],
    ) && excluded != Some(broadcast.targets@[i]) by {
        assert(broadcast.targets@.contains(broadcast.targets@[i]));
    }
    assert forall|id: u128| #[trigger]
        state.connections@.contains_key(id) && excluded != Some(id) implies broadcast.targets@.contains(
        id,
    ) by {
        assert(broadcast.targets@.contains(id) <==> state@.connections.contains_key(id) && excluded
            != Some(id));
    }
}

/// Whoever asks for keys is answered over a socket of theirs under the id of
/// their request, if they have one open and the directory could be read. A user
/// more in the directory adds their key at the end of the answer just if they
/// have one.
pub proof fn requests_for_keys_are_answered(
    state: &AppState,
    requester: u128,
    before: Vec<DirectoryEntry>,
    after: Vec<DirectoryEntry>,
    next: DirectoryEntry,
    request_id: String,
    first: Option<Delivery>,
    second: Option<Delivery>,
)
    requires
        call_ensures(
            handle_public_keys_request,
            (state, requester, Ok::<Vec<DirectoryEntry>, DatabaseFailure>(before), request_id),
            first,
        ),
        call_ensures(
            handle_public_keys_request,
            (state, requester, Ok::<Vec<DirectoryEntry>, DatabaseFailure>(after), request_id),
            second,
        ),
        after@ == before@.push(next),
    ensures
        second is Some <==> exists|id: u128| #[trigger]
            state.connections@.contains_key(id) && state.connections@[id].user_id == requester,
        first is Some <==> second is Some,
        second matches Some(delivery) ==> state.connections@.contains_key(delivery.connection_id)
            && state.connections@[delivery.connection_id].user_id == requester,
        second is Some ==> {
            &&& first->0.message matches ChatMessage::PublicKeysResponse {
                keys: fewer,
                request_id: first_id,
            }
            &&& second->0.message matches ChatMessage::PublicKeysResponse {
                keys: more,
                request_id: second_id,
            }
            &&& first_id@ == request_id@
            &&& second_id@ == request_id@
            &&& before@.len() == 0 ==> fewer@.len() == 0
            &&& next.public_key is None ==> more@.len() == fewer@.len()
            &&& next.public_key matches Some(key) ==> more@.len() == fewer@.len() + 1
                && more@.last().user_id == next.id && more@.last().username@ == next.name@
                && more@.last().public_key@ == key@
            &&& forall|i: int|
                0 <= i < fewer@.len() ==> (#[trigger] more@[i]).user_id == fewer@[i].user_id
                    && more@[i].username@ == fewer@[i].username@ && more@[i].public_key@
                    == fewer@[i].public_key@
        },
{
    reveal(Seq::filter);
    crate::room::routing::known_keys_of_next(before@, next);
    if second is Some && first is Some {
        let shown = |key: crate::room::socket::PublicKeyInfo| key@;
        let fewer = first->0.message->PublicKeysResponse_keys@;
        let more = second->0.message->PublicKeysResponse_keys@;
        let fewer_shown = fewer.map_values(shown);
        let more_shown = more.map_values(shown);
        assert(fewer_shown == crate::room::routing::known_keys(before@));
        assert(more_shown == crate::room::routing::known_keys(after@));
        assert forall|i: int| 0 <= i < fewer.len() implies (#[trigger] more[i]).user_id
            == fewer[i].user_id && more[i].username@ == fewer[i].username@ && more[i].public_key@
            == fewer[i].public_key@ by {
            assert(more_shown[i] == fewer_shown[i]);
            assert(more_shown[i] == more[i]@ && fewer_shown[i] == fewer[i]@);
        }
        if next.public_key is Some {
            assert(more_shown[fewer.len() as int] == more.last()@);
        }
    }
}

/// Where the directory could not be read, nobody is answered.
pub proof fn requests_for_keys_fail_silently(
    state: &AppState,
    requester: u128,
    request_id: String,
    delivery: Option<Delivery>,
)
    requires
        call_ensures(
            handle_public_keys_request,
            (
                state,
                requester,
                Err::<Vec<DirectoryEntry>, DatabaseFailure>(DatabaseFailure),
                request_id,
            ),
            delivery,
        ),
    ensures
        delivery is None,
{
}

/// A room has the name and the participants that it was made with, and the id
/// too where one was given.
pub proof fn rooms_are_as_they_were_asked_for(
    id: u128,
    name: String,
    participant_ids: Vec<u128>,
    given: Room,
    fresh: Room,
)
    requires
        call_ensures(Room::with_id, (id, name, participant_ids), given),
        call_ensures(Room::new, (name, participant_ids), fresh),
    ensures
        given.id == id,
        given.name@ == name@,
        given.participant_ids@ == participant_ids@,
        fresh.name@ == name@,
        fresh.participant_ids@ == participant_ids@,
        crate::ids::is_random_uuid(fresh.id),
{
}

} // verus!
