//! Which open sockets a message goes to.

use vstd::prelude::*;

use crate::auth::account::DirectoryEntry;
use crate::clock::Timestamp;
use crate::reply::DatabaseFailure;
use crate::room::socket::{
    ChatMessage, ChatMessageView, Connection, PublicKeyInfo, PublicKeyView,
};
use crate::state::AppState;

verus! {

/// A message for one socket.
#[derive(Debug)]
pub struct Delivery {
    pub connection_id: u128,
    pub message: ChatMessage,
}

/// One message for several sockets.
#[derive(Debug)]
pub struct Broadcast {
    pub targets: Vec<u128>,
    pub message: ChatMessage,
}

/// An encrypted message that a user sends.
#[derive(Debug)]
pub struct EncryptedChat {
    pub encrypted_content: String,
    pub recipients: Vec<u128>,
    pub timestamp: Timestamp,
    pub message_id: String,
    pub room: String,
}

/// Whether `order` visits every open socket once.
pub open spec fn is_walk(
    order: Seq<(u128, Connection)>,
    connections: Map<u128, Connection>,
) -> bool {
    &&& forall|i: int|
        0 <= i < order.len() ==> connections.contains_key((#[trigger] order[i]).0)
            && connections[order[i].0] == order[i].1
    &&& forall|id: u128| #[trigger]
        connections.contains_key(id) ==> order.contains((id, connections[id]))
    &&& forall|i: int, j: int|
        0 <= i < j < order.len() ==> (#[trigger] order[i]).0 != (#[trigger] order[j]).0
}

/// Whether a message from the socket `sender` to `recipients` goes to a socket;
/// no recipients means everyone.
pub open spec fn is_target(
    socket: (u128, Connection),
    sender: u128,
    recipients: Seq<u128>,
) -> bool {
    socket.0 != sender && (recipients.len() == 0 || recipients.contains(socket.1.user_id))
}

/// The sockets in `order` that a message from the socket `sender` to
/// `recipients` goes to.
pub open spec fn targets_of(
    order: Seq<(u128, Connection)>,
    sender: u128,
    recipients: Seq<u128>,
) -> Seq<(u128, Connection)> {
    order.filter(|socket: (u128, Connection)| is_target(socket, sender, recipients))
}

/// The recipients that the `i`-th of the `targets` is told of. A message to
/// everyone names those who have got it so far.
pub open spec fn told_recipients(
    targets: Seq<(u128, Connection)>,
    recipients: Seq<u128>,
    i: int,
) -> Seq<u128> {
    if recipients.len() == 0 {
        targets.take(i + 1).map_values(|socket: (u128, Connection)| socket.1.user_id)
    } else {
        recipients
    }
}

impl EncryptedChat {
    /// The message as a socket gets it.
    pub open spec fn as_told(
        self,
        sender_user_id: u128,
        sender_username: Seq<char>,
        recipients: Seq<u128>,
        ttl_seconds: i64,
    ) -> ChatMessageView {
        ChatMessageView::EncryptedMessage {
            sender_id: sender_user_id,
            sender_username,
            encrypted_content: self.encrypted_content@,
            recipients,
            timestamp: self.timestamp,
            message_id: self.message_id@,
            room: Some(self.room@),
            ttl_seconds: Some(ttl_seconds),
        }
    }
}

/// Whether `deliveries` carry `chat` to the sockets that it goes to, in the
/// order in which `order` visits them.
pub open spec fn are_deliveries(
    deliveries: Seq<Delivery>,
    order: Seq<(u128, Connection)>,
    sender: u128,
    sender_user_id: u128,
    sender_username: Seq<char>,
    chat: EncryptedChat,
    ttl_seconds: i64,
) -> bool {
    let targets = targets_of(order, sender, chat.recipients@);
    &&& deliveries.len() == targets.len()
    &&& forall|i: int|
        0 <= i < deliveries.len() ==> {
            &&& (#[trigger] deliveries[i]).connection_id == targets[i].0
            &&& deliveries[i].message@ == chat.as_told(
                sender_user_id,
                sender_username,
                told_recipients(targets, chat.recipients@, i),
                ttl_seconds,
            )
        }
}

impl AppState {
    /// The open sockets, in the order in which the table hands them out.
    pub fn walk(&self) -> (order: Vec<(u128, Connection)>)
        ensures
            is_walk(order@, self@.connections),
    {
        let mut order: Vec<(u128, Connection)> = Vec::new();
        for entry in it: self.connections.iter()
            invariant
                it.seq().no_duplicates(),
                forall|i: int|
                    0 <= i < it.seq().len() ==> self.connections@.contains_key(
                        *(#[trigger] it.seq()[i]).0,
                    ) && self.connections@[*it.seq()[i].0] == *it.seq()[i].1,
                forall|id: u128| #[trigger]
                    self.connections@.contains_key(id) ==> order@.contains(
                        (id, self.connections@[id]),
                    ) || exists|j: int|
                        it.index() <= j < it.seq().len() && #[trigger] it.seq()[j] == (
                            &id,
                            &self.connections@[id],
                        ),
                order@.len() == it.index(),
                forall|i: int|
                    0 <= i < order@.len() ==> (#[trigger] order@[i]) == (
                        *it.seq()[i].0,
                        *it.seq()[i].1,
                    ),
        {
            let (id, connection) = entry;
            let ghost before = order@;
            order.push(
                (
                    *id,
                    Connection {
                        username: connection.username.clone(),
                        user_id: connection.user_id,
                    },
                ),
            );
            assert forall|id: u128| #[trigger] self.connections@.contains_key(id) implies order@.contains(
                (id, self.connections@[id]),
            ) || exists|j: int|
                it.index() + 1 <= j < it.seq().len() && #[trigger] it.seq()[j] == (
                    &id,
                    &self.connections@[id],
                ) by {
                if before.contains((id, self.connections@[id])) {
                    let k = before.index_of((id, self.connections@[id]));
                    assert(order@[k] == (id, self.connections@[id]));
                } else {
                    let j = choose|j: int|
                        it.index() <= j < it.seq().len() && #[trigger] it.seq()[j] == (
                            &id,
                            &self.connections@[id],
                        );
                    if j == it.index() {
                        assert(order@[j] == (id, self.connections@[id]));
                    }
                }
            }
        }
        order
    }
}

/// Whether `id` is one of `ids`.
fn is_among(ids: &Vec<u128>, id: u128) -> (found: bool)
    ensures
        found == ids@.contains(id),
{
    let mut i: usize = 0;
    while i < ids.len()
        invariant
            i <= ids.len(),
            forall|j: int| 0 <= j < i ==> ids@[j] != id,
        decreases ids.len() - i,
    {
        if ids[i] == id {
            return true;
        }
        i = i + 1;
    }
    false
}

/// Carries `chat` from the socket `sender` to the sockets that it goes to, in
/// the order in which `order` visits them.
pub fn forward_along(
    order: &Vec<(u128, Connection)>,
    sender: u128,
    sender_user_id: u128,
    sender_username: &str,
    chat: &EncryptedChat,
    ttl_seconds: i64,
) -> (deliveries: Vec<Delivery>)
    ensures
        are_deliveries(
            deliveries@,
            order@,
            sender,
            sender_user_id,
            sender_username@,
            *chat,
            ttl_seconds,
        ),
{
    let to_all = chat.recipients.len() == 0;
    let mut told: Vec<u128> = chat.recipients.clone();
    let mut deliveries: Vec<Delivery> = Vec::new();
    let ghost wanted = |socket: (u128, Connection)| is_target(socket, sender, chat.recipients@);
    assert(order@.take(0).filter(wanted) =~= Seq::<(u128, Connection)>::empty()) by {
        reveal(Seq::filter);
    }
    let mut i: usize = 0;
    while i < order.len()
        invariant
            i <= order.len(),
            to_all == (chat.recipients@.len() == 0),
            wanted == (|socket: (u128, Connection)| is_target(socket, sender, chat.recipients@)),
            told@ == (if to_all {
                order@.take(i as int).filter(wanted).map_values(
                    |socket: (u128, Connection)| socket.1.user_id,
                )
            } else {
                chat.recipients@
            }),
            are_deliveries(
                deliveries@,
                order@.take(i as int),
                sender,
                sender_user_id,
                sender_username@,
                *chat,
                ttl_seconds,
            ),
        decreases order.len() - i,
    {
        let connection_id: u128 = order[i].0;
        let user_id: u128 = order[i].1.user_id;
        let ghost seen = order@.take(i as int).filter(wanted);
        let ghost next = order@.take(i + 1).filter(wanted);
        assert(next == if wanted(order@[i as int]) {
            seen.push(order@[i as int])
        } else {
            seen
        }) by {
            reveal(Seq::filter);
            assert(order@.take(i + 1).drop_last() =~= order@.take(i as int));
        }
        if connection_id != sender && (to_all || is_among(&chat.recipients, user_id)) {
            if to_all {
                told.push(user_id);
            }
            deliveries.push(
                Delivery {
                    connection_id,
                    message: ChatMessage::EncryptedMessage {
                        sender_id: sender_user_id,
                        sender_username: sender_username.to_owned(),
                        encrypted_content: chat.encrypted_content.clone(),
                        recipients: told.clone(),
                        timestamp: chat.timestamp,
                        message_id: chat.message_id.clone(),
                        room: Some(chat.room.clone()),
                        ttl_seconds: Some(ttl_seconds),
                    },
                },
            );
            proof {
                let to_user = |socket: (u128, Connection)| socket.1.user_id;
                assert(next.map_values(to_user) =~= seen.map_values(to_user).push(user_id));
                assert(next.take(next.len() as int) =~= next);
                assert forall|k: int| 0 <= k < seen.len() implies #[trigger] told_recipients(
                    next,
                    chat.recipients@,
                    k,
                ) == told_recipients(seen, chat.recipients@, k) by {
                    assert(next.take(k + 1) =~= seen.take(k + 1));
                }
            }
        }
        i = i + 1;
    }
    assert(order@.take(order@.len() as int) =~= order@);
    deliveries
}

/// Carries `chat` from the socket `sender` to the open sockets that it goes to.
///
/// The sockets are visited in an order of the table's choosing, so whom a
/// message to everyone names as its recipients so far is left to that order.
pub fn forward_encrypted_message(
    state: &AppState,
    sender: u128,
    sender_user_id: u128,
    sender_username: &str,
    chat: &EncryptedChat,
    ttl_seconds: i64,
) -> (deliveries: Vec<Delivery>)
    ensures
        exists|order: Seq<(u128, Connection)>| #[trigger]
            is_walk(order, state@.connections) && are_deliveries(
                deliveries@,
                order,
                sender,
                sender_user_id,
                sender_username@,
                *chat,
                ttl_seconds,
            ),
{
    let order = state.walk();
    forward_along(&order, sender, sender_user_id, sender_username, chat, ttl_seconds)
}

/// Whether a user has an open socket.
pub open spec fn is_online(connections: Map<u128, Connection>, user: u128) -> bool {
    exists|id: u128| #[trigger] connections.contains_key(id) && connections[id].user_id == user
}

/// Whether `delivery` carries `message` to one socket of `user`; nothing is
/// carried only if they have none.
pub open spec fn reaches_user(
    delivery: Option<Delivery>,
    connections: Map<u128, Connection>,
    user: u128,
    message: ChatMessageView,
) -> bool {
    match delivery {
        Some(delivery) => {
            &&& connections.contains_key(delivery.connection_id)
            &&& connections[delivery.connection_id].user_id == user
            &&& delivery.message@ == message
        },
        None => !is_online(connections, user),
    }
}

/// One open socket of `user`.
fn socket_of(state: &AppState, user: u128) -> (found: Option<u128>)
    ensures
        match found {
            Some(id) => state@.connections.contains_key(id) && state@.connections[id].user_id
                == user,
            None => !is_online(state@.connections, user),
        },
{
    let order = state.walk();
    let mut i: usize = 0;
    while i < order.len()
        invariant
            i <= order.len(),
            is_walk(order@, state@.connections),
            forall|j: int| 0 <= j < i ==> (#[trigger] order@[j]).1.user_id != user,
        decreases order.len() - i,
    {
        if order[i].1.user_id == user {
            return Some(order[i].0);
        }
        i = i + 1;
    }
    assert forall|id: u128| #[trigger]
        state@.connections.contains_key(id) implies state@.connections[id].user_id != user by {
        let k = order@.index_of((id, state@.connections[id]));
        assert(order@[k] == (id, state@.connections[id]));
    }
    None
}

/// Whether a user has an open socket.
pub fn user_is_online(state: &AppState, user_id: u128) -> (online: bool)
    ensures
        online == is_online(state@.connections, user_id),
{
    socket_of(state, user_id).is_some()
}

/// Carries a message to one socket of a user.
pub fn forward_to_user(state: &AppState, to_user_id: u128, message: ChatMessage) -> (delivery:
    Option<Delivery>)
    ensures
        reaches_user(delivery, state@.connections, to_user_id, message@),
        delivery matches Some(delivery) ==> delivery.message == message,
{
    match socket_of(state, to_user_id) {
        Some(connection_id) => Some(Delivery { connection_id, message }),
        None => None,
    }
}

/// Carries a message to every open socket but the excluded one.
pub fn broadcast_message(
    state: &AppState,
    exclude_connection_id: Option<u128>,
    message: ChatMessage,
) -> (broadcast: Broadcast)
    ensures
        broadcast.message == message,
        broadcast.targets@.no_duplicates(),
        forall|id: u128| #[trigger]
            broadcast.targets@.contains(id) <==> state@.connections.contains_key(id)
                && exclude_connection_id != Some(id),
{
    let order = state.walk();
    let mut targets: Vec<u128> = Vec::new();
    let mut i: usize = 0;
    while i < order.len()
        invariant
            i <= order.len(),
            is_walk(order@, state@.connections),
            targets@.no_duplicates(),
            forall|id: u128| #[trigger]
                targets@.contains(id) <==> exclude_connection_id != Some(id) && exists|j: int|
                    0 <= j < i && (#[trigger] order@[j]).0 == id,
        decreases order.len() - i,
    {
        let id: u128 = order[i].0;
        let excluded = match exclude_connection_id {
            Some(excluded) => excluded == id,
            None => false,
        };
        let ghost before = targets@;
        if !excluded {
            targets.push(id);
            assert(!before.contains(id));
            assert(targets@.last() == id);
            assert forall|other: u128| #[trigger] targets@.contains(other) <==> before.contains(
                other,
            ) || other == id by {
                if before.contains(other) {
                    let k = before.index_of(other);
                    assert(targets@[k] == other);
                }
            }
        }
        assert forall|other: u128| #[trigger] targets@.contains(other) <==> exclude_connection_id
            != Some(other) && exists|j: int| 0 <= j < i + 1 && (#[trigger] order@[j]).0 == other by {
            if other == id {
                assert(order@[i as int].0 == other);
            }
        }
        i = i + 1;
    }
    assert forall|id: u128| #[trigger] targets@.contains(id) <==> state@.connections.contains_key(
        id,
    ) && exclude_connection_id != Some(id) by {
        if state@.connections.contains_key(id) {
            let k = order@.index_of((id, state@.connections[id]));
            assert(order@[k].0 == id);
        }
    }
    Broadcast { targets, message }
}

/// The public key that a directory entry holds.
pub open spec fn key_of(entry: DirectoryEntry) -> PublicKeyView {
    PublicKeyView {
        user_id: entry.id,
        username: entry.name@,
        public_key: entry.public_key->0@,
    }
}

/// The public keys in a row of directory entries, without the users who have
/// none.
pub open spec fn known_keys(entries: Seq<DirectoryEntry>) -> Seq<PublicKeyView> {
    entries.filter(|entry: DirectoryEntry| entry.public_key is Some).map_values(
        |entry: DirectoryEntry| key_of(entry),
    )
}

/// One more directory entry adds its public key, if it has one.
pub(crate) proof fn known_keys_of_next(entries: Seq<DirectoryEntry>, next: DirectoryEntry)
    ensures
        known_keys(entries.push(next)) == (if next.public_key is Some {
            known_keys(entries).push(key_of(next))
        } else {
            known_keys(entries)
        }),
{
    reveal(Seq::filter);
    let has_key = |entry: DirectoryEntry| entry.public_key is Some;
    assert(entries.push(next).drop_last() =~= entries);
    assert(entries.push(next).filter(has_key) =~= if next.public_key is Some {
        entries.filter(has_key).push(next)
    } else {
        entries.filter(has_key)
    });
    assert(known_keys(entries.push(next)) =~= if next.public_key is Some {
        known_keys(entries).push(key_of(next))
    } else {
        known_keys(entries)
    });
}

/// The public keys in a row of directory entries.
fn collect_keys(entries: Vec<DirectoryEntry>) -> (keys: Vec<PublicKeyInfo>)
    ensures
        keys@.map_values(|key: PublicKeyInfo| key@) == known_keys(entries@),
{
    let mut keys: Vec<PublicKeyInfo> = Vec::new();
    let ghost shown = |key: PublicKeyInfo| key@;
    assert(keys@.map_values(shown) =~= known_keys(entries@.take(0))) by {
        reveal(Seq::filter);
    }
    for entry in it: entries.into_iter()
        invariant
            it.seq() == entries@,
            shown == (|key: PublicKeyInfo| key@),
            keys@.map_values(shown) == known_keys(entries@.take(it.index())),
    {
        proof {
            known_keys_of_next(entries@.take(it.index()), entry);
            assert(entries@.take(it.index() + 1) =~= entries@.take(it.index()).push(entry));
        }
        let ghost before = keys@;
        if let Some(public_key) = entry.public_key {
            let key = PublicKeyInfo { user_id: entry.id, username: entry.name, public_key };
            keys.push(key);
            assert(keys@.map_values(shown) =~= before.map_values(shown).push(key@));
        }
    }
    assert(entries@.take(entries@.len() as int) =~= entries@);
    keys
}

/// The answer to a user who asked over a socket for public keys, where `loaded`
/// is what the directory holds. Where the directory fails, there is none.
pub fn handle_public_keys_request(
    state: &AppState,
    requester_id: u128,
    loaded: Result<Vec<DirectoryEntry>, DatabaseFailure>,
    request_id: String,
) -> (delivery: Option<Delivery>)
    ensures
        match loaded {
            Ok(entries) => reaches_user(
                delivery,
                state@.connections,
                requester_id,
                ChatMessageView::PublicKeysResponse {
                    keys: known_keys(entries@),
                    request_id: request_id@,
                },
            ),
            Err(_) => delivery is None,
        },
{
    match loaded {
        Ok(entries) => {
            let response = ChatMessage::PublicKeysResponse {
                keys: collect_keys(entries),
                request_id,
            };
            forward_to_user(state, requester_id, response)
        },
        Err(_) => None,
    }
}

} // verus!
