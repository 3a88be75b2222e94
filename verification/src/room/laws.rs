//! What holds of sockets and messages as a whole.

use vstd::prelude::*;

use crate::clock::Timestamp;
use crate::room::chat::{is_action, ChatAction, KeyRelay, PendingKey, StoredMessage};
use crate::room::history::{CatchUp, HistoryRow, PendingKeyRow};
use crate::room::routing::{
    are_deliveries, is_online, is_target, is_walk, reaches_user, targets_of, Delivery,
    EncryptedChat,
};
use crate::room::socket::{ChatMessage, ChatMessageView, Connection, Session};
use crate::state::AppStateView;

verus! {

/// Picking sockets out of a row keeps only sockets of the row that are wanted,
/// all of them, and none twice if none stood there twice.
pub(crate) proof fn picking_sockets(
    order: Seq<(u128, Connection)>,
    wanted: spec_fn((u128, Connection)) -> bool,
)
    ensures
        forall|i: int|
            0 <= i < order.filter(wanted).len() ==> order.contains(
                #[trigger] order.filter(wanted)[i],
            ) && wanted(order.filter(wanted)[i]),
        forall|i: int|
            0 <= i < order.len() && wanted(#[trigger] order[i]) ==> order.filter(wanted).contains(
                order[i],
            ),
        (forall|i: int, j: int|
            0 <= i < j < order.len() ==> (#[trigger] order[i]).0 != (#[trigger] order[j]).0) ==> (
        forall|i: int, j: int|
            0 <= i < j < order.filter(wanted).len() ==> (#[trigger] order.filter(wanted)[i]).0 != (
            #[trigger] order.filter(wanted)[j]).0),
    decreases order.len(),
{
    reveal(Seq::filter);
    if order.len() > 0 {
        let rest = order.drop_last();
        let picked = order.filter(wanted);
        let before = rest.filter(wanted);
        picking_sockets(rest, wanted);
        assert forall|i: int| 0 <= i < picked.len() implies order.contains(#[trigger] picked[i])
            && wanted(picked[i]) by {
            if i < before.len() {
                assert(picked[i] == before[i]);
                let k = rest.index_of(before[i]);
                assert(order[k] == picked[i]);
            } else {
                assert(order[order.len() - 1] == picked[i]);
            }
        }
        assert forall|i: int| 0 <= i < order.len() && wanted(#[trigger] order[i]) implies picked.contains(
            order[i],
        ) by {
            if i < rest.len() {
                assert(rest[i] == order[i]);
                let k = before.index_of(rest[i]);
                assert(picked[k] == order[i]);
            } else {
                assert(picked[picked.len() - 1] == order[i]);
            }
        }
        if forall|i: int, j: int|
            0 <= i < j < order.len() ==> (#[trigger] order[i]).0 != (#[trigger] order[j]).0 {
            assert forall|i: int, j: int| 0 <= i < j < rest.len() implies (#[trigger] rest[i]).0 != (
            #[trigger] rest[j]).0 by {
                assert(order[i] == rest[i] && order[j] == rest[j]);
            }
            assert forall|i: int, j: int| 0 <= i < j < picked.len() implies (#[trigger] picked[i]).0
                != (#[trigger] picked[j]).0 by {
                assert(picked[i] == before[i]);
                if j < before.len() {
                    assert(picked[j] == before[j]);
                } else {
                    let k = rest.index_of(before[i]);
                    assert(order[k] == picked[i]);
                    assert(order[order.len() - 1] == picked[j]);
                }
            }
        }
    }
}

/// An encrypted message goes to exactly the sockets that it is meant for: never
/// back to the socket that sent it, to no socket twice, to every other socket
/// of a recipient, and to every other socket at all if no recipient is named.
pub proof fn message_reaches_exactly_its_targets(
    deliveries: Seq<Delivery>,
    order: Seq<(u128, Connection)>,
    connections: Map<u128, Connection>,
    sender: u128,
    sender_user_id: u128,
    sender_username: Seq<char>,
    chat: EncryptedChat,
    ttl_seconds: i64,
)
    requires
        is_walk(order, connections),
        are_deliveries(
            deliveries,
            order,
            sender,
            sender_user_id,
            sender_username,
            chat,
            ttl_seconds,
        ),
    ensures
        forall|i: int|
            0 <= i < deliveries.len() ==> {
                let id = (#[trigger] deliveries[i]).connection_id;
                &&& connections.contains_key(id)
                &&& is_target((id, connections[id]), sender, chat.recipients@)
            },
        forall|i: int, j: int|
            0 <= i < j < deliveries.len() ==> (#[trigger] deliveries[i]).connection_id != (
            #[trigger] deliveries[j]).connection_id,
        forall|id: u128| #[trigger]
            connections.contains_key(id) && is_target(
                (id, connections[id]),
                sender,
                chat.recipients@,
            ) ==> exists|i: int|
                0 <= i < deliveries.len() && (#[trigger] deliveries[i]).connection_id == id,
{
    let wanted = |socket: (u128, Connection)| is_target(socket, sender, chat.recipients@);
    let targets = targets_of(order, sender, chat.recipients@);
    picking_sockets(order, wanted);
    assert(targets == order.filter(wanted));
    assert forall|i: int| 0 <= i < deliveries.len() implies {
        let id = (#[trigger] deliveries[i]).connection_id;
        &&& connections.contains_key(id)
        &&& is_target((id, connections[id]), sender, chat.recipients@)
    } by {
        let k = order.index_of(targets[i]);
        assert(order[k] == targets[i]);
        assert(wanted(targets[i]));
        assert(targets[i] == (targets[i].0, targets[i].1));
    }
    assert forall|i: int, j: int| 0 <= i < j < deliveries.len() implies (
    #[trigger] deliveries[i]).connection_id != (#[trigger] deliveries[j]).connection_id by {
        assert(targets[i].0 != targets[j].0);
    }
    assert forall|id: u128| #[trigger]
        connections.contains_key(id) && is_target(
            (id, connections[id]),
            sender,
            chat.recipients@,
        ) implies exists|i: int|
        0 <= i < deliveries.len() && (#[trigger] deliveries[i]).connection_id == id by {
        let socket = (id, connections[id]);
        let k = order.index_of(socket);
        assert(order[k] == socket);
        assert(wanted(order[k]));
        let i = targets.index_of(socket);
        assert(deliveries[i].connection_id == id);
    }
}

/// Whatever the order in which sockets are visited, a message with recipients
/// tells every socket the same: the content as it was sent, all the recipients,
/// and as its sender the user behind the socket that it came from.
pub proof fn message_is_told_as_it_was_sent(
    deliveries: Seq<Delivery>,
    order: Seq<(u128, Connection)>,
    sender: u128,
    sender_user_id: u128,
    sender_username: Seq<char>,
    chat: EncryptedChat,
    ttl_seconds: i64,
    i: int,
)
    requires
        are_deliveries(
            deliveries,
            order,
            sender,
            sender_user_id,
            sender_username,
            chat,
            ttl_seconds,
        ),
        chat.recipients@.len() > 0,
        0 <= i < deliveries.len(),
    ensures
        deliveries[i].message@ == chat.as_told(
            sender_user_id,
            sender_username,
            chat.recipients@,
            ttl_seconds,
        ),
{
}

/// The last socket that a message to everyone reaches is told the users of all
/// the sockets that got it.
pub proof fn last_socket_is_told_everyone(
    deliveries: Seq<Delivery>,
    order: Seq<(u128, Connection)>,
    sender: u128,
    sender_user_id: u128,
    sender_username: Seq<char>,
    chat: EncryptedChat,
    ttl_seconds: i64,
)
    requires
        are_deliveries(
            deliveries,
            order,
            sender,
            sender_user_id,
            sender_username,
            chat,
            ttl_seconds,
        ),
        chat.recipients@.len() == 0,
        deliveries.len() > 0,
    ensures
        deliveries.last().message@ == chat.as_told(
            sender_user_id,
            sender_username,
            targets_of(order, sender, chat.recipients@).map_values(
                |socket: (u128, Connection)| socket.1.user_id,
            ),
            ttl_seconds,
        ),
{
    let targets = targets_of(order, sender, chat.recipients@);
    assert(targets.take(targets.len() as int) =~= targets);
    assert(deliveries[deliveries.len() - 1] == deliveries.last());
}

/// Whom an encrypted message claims to come from makes no difference to what is
/// done about it.
pub proof fn claimed_sender_is_ignored(
    sender: u128,
    first: ChatAction,
    second: ChatAction,
    first_id: u128,
    first_name: String,
    second_id: u128,
    second_name: String,
    encrypted_content: String,
    recipients: Vec<u128>,
    timestamp: Timestamp,
    message_id: String,
    room: Option<String>,
    ttl_seconds: Option<i64>,
)
    requires
        is_action(
            first,
            sender,
            ChatMessage::EncryptedMessage {
                sender_id: first_id,
                sender_username: first_name,
                encrypted_content,
                recipients,
                timestamp,
                message_id,
                room,
                ttl_seconds,
            },
        ),
        is_action(
            second,
            sender,
            ChatMessage::EncryptedMessage {
                sender_id: second_id,
                sender_username: second_name,
                encrypted_content,
                recipients,
                timestamp,
                message_id,
                room,
                ttl_seconds,
            },
        ),
    ensures
        first->Forward_ttl_seconds == second->Forward_ttl_seconds,
        first->Forward_chat.room@ == second->Forward_chat.room@,
        forall|user: u128, name: Seq<char>, told: Seq<u128>, ttl: i64|
            first->Forward_chat.as_told(user, name, told, ttl)
                == second->Forward_chat.as_told(user, name, told, ttl),
{
}

/// A user who has an open socket is reached, and nobody else.
pub proof fn online_users_are_reached(
    delivery: Option<Delivery>,
    connections: Map<u128, Connection>,
    user: u128,
    message: ChatMessageView,
)
    requires
        reaches_user(delivery, connections, user, message),
    ensures
        delivery is Some <==> is_online(connections, user),
{
}

/// A user is online once they have opened a socket, and closing a socket that
/// was opened under a fresh id puts everything back as it was.
pub proof fn closing_undoes_opening(state: AppStateView, connection_id: u128, session: Session)
    ensures
        is_online(state.with_socket(connection_id, session).connections, session.user_id),
        !state.connections.contains_key(connection_id) ==> state.with_socket(
            connection_id,
            session,
        ).without_socket(connection_id) == state,
{
    assert(state.with_socket(connection_id, session).connections.contains_key(connection_id));
    if !state.connections.contains_key(connection_id) {
        assert(state.with_socket(connection_id, session).without_socket(connection_id) =~= state);
    }
}

/// Sockets come and go without touching sessions, logins that wait, or codes.
pub proof fn sockets_leave_logins_alone(
    state: AppStateView,
    connection_id: u128,
    session: Session,
    cookie: Option<Seq<char>>,
)
    ensures
        state.with_socket(connection_id, session).authorized(cookie) == state.authorized(cookie),
        state.without_socket(connection_id).authorized(cookie) == state.authorized(cookie),
        state.with_socket(connection_id, session).temp_sessions == state.temp_sessions,
        state.without_socket(connection_id).temp_sessions == state.temp_sessions,
        state.with_socket(connection_id, session).otp_store == state.otp_store,
        state.without_socket(connection_id).otp_store == state.otp_store,
        state.inv() ==> state.with_socket(connection_id, session).inv(),
        state.inv() ==> state.without_socket(connection_id).inv(),
{
}

/// A message that was stored is read back as it was sent: with its sender, its
/// content, its recipients, its room and its id. It never has less than nothing
/// left, and at the moment of sending it has its whole lifetime left; if that
/// moment lies in a leap second, only if the lifetime ends later in the day.
pub proof fn stored_message_is_read_back(
    stored: StoredMessage,
    row: HistoryRow,
    chat: EncryptedChat,
    sender_user_id: u128,
    ttl_seconds: i64,
    now: Timestamp,
)
    requires
        now.wf(),
        chat.timestamp.wf(),
        chat.timestamp.can_add(ttl_seconds as int),
        stored.keeps(sender_user_id, chat, ttl_seconds),
        row.id == stored.id,
        row.sender_id == stored.sender_id,
        row.encrypted_content == stored.encrypted_content,
        row.recipients == stored.recipients,
        row.created_at == stored.created_at,
        row.room == stored.room,
        row.expires_at == stored.expires_at,
    ensures
        row.message_at(now) == chat.as_told(
            sender_user_id,
            row.sender_name@,
            chat.recipients@,
            row.ttl_at(now),
        ),
        row.ttl_at(now) >= 0,
        ttl_seconds <= 0 ==> row.ttl_at(chat.timestamp) == 0,
        ttl_seconds > 0 && (chat.timestamp.in_leap_second() ==> row.expires_at.later_in_day(
            chat.timestamp,
        )) ==> row.ttl_at(chat.timestamp) == ttl_seconds,
{
}

/// Whatever comes of each step, a socket that was opened gets the keys that
/// waited before any stored message, then the stored messages, and then no more.
pub proof fn keys_come_before_history(start: CatchUp)
    requires
        start is Wait,
    ensures
        start.next() is SendKeys,
        start.next().next() is SendHistory,
        start.next().next().next() is Done,
        CatchUp::Done.next() is Done,
{
}

/// A key is either handed to a socket of its user or kept for them, never both
/// and never neither.
pub proof fn key_is_handed_over_or_kept(
    relay: KeyRelay,
    connections: Map<u128, Connection>,
    user: u128,
    message: ChatMessage,
    pending: PendingKey,
)
    requires
        relay.passes_on(connections, user, message, pending),
    ensures
        relay.delivery is Some <==> relay.keep is None,
{
}

/// A key that was kept for a user is read back, once they are there, as a key
/// for direct messages from the user who sent it, whomever the message claimed
/// to come from.
pub proof fn kept_key_is_delivered_later(
    action: ChatAction,
    relay: KeyRelay,
    connections: Map<u128, Connection>,
    sender: u128,
    message: ChatMessage,
    row: PendingKeyRow,
)
    requires
        message is KeyExchange,
        is_action(action, sender, message),
        relay.passes_on(
            connections,
            action->to_user_id,
            action->Relay_message,
            action->Relay_pending,
        ),
        relay.keep matches Some(kept) && row.from_user_id == kept.from_user_id && row.to_user_id
            == kept.to_user_id && row.encrypted_key == kept.encrypted_key && row.key_id
            == kept.key_id,
    ensures
        !is_online(connections, message->to_user_id),
        row.message() == (ChatMessageView::KeyExchange {
            from_user_id: sender,
            to_user_id: message->to_user_id,
            encrypted_key: message->encrypted_key@,
            key_id: message->KeyExchange_key_id@,
            scope: Some("dm"@),
        }),
{
}

} // verus!
