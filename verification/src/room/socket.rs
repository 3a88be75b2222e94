//! Open sockets and the messages that pass between them.

use vstd::prelude::*;

use crate::clock::{utc_now, Timestamp};
use crate::ids::{is_random_uuid, random_uuid};
use crate::reply::{opt_str, opt_text, StatusCode};
use crate::room::routing::{broadcast_message, is_walk, Broadcast};
use crate::state::{AppState, AppStateView};

verus! {

/// A login that has been completed, or that waits for its one-time code.
#[derive(Clone, Debug)]
pub struct Session {
    pub user_id: u128,
    pub username: String,
    pub created_at: Timestamp,
}

/// The user behind an open socket.
#[derive(Clone, Debug)]
pub struct Connection {
    pub username: String,
    pub user_id: u128,
}

/// What passes over a socket, in either direction.
#[derive(Clone, Debug)]
pub enum ChatMessage {
    UserJoined { username: String, user_id: u128, timestamp: Timestamp },
    UserLeft { username: String, user_id: u128, timestamp: Timestamp },
    /// An encrypted message for certain recipients.
    EncryptedMessage {
        sender_id: u128,
        sender_username: String,
        encrypted_content: String,
        recipients: Vec<u128>,
        timestamp: Timestamp,
        message_id: String,
        /// `global` or `dm`.
        room: Option<String>,
        ttl_seconds: Option<i64>,
    },
    /// A symmetric key, encrypted for one user.
    KeyExchange {
        from_user_id: u128,
        to_user_id: u128,
        encrypted_key: String,
        key_id: String,
        /// `global` or `dm`.
        scope: Option<String>,
    },
    SystemMessage { content: String, timestamp: Timestamp },
    RequestPublicKeys { user_ids: Vec<u128>, request_id: String },
    PublicKeysResponse { keys: Vec<PublicKeyInfo>, request_id: String },
    /// Who was online when a socket was opened.
    OnlineUsers { users: Vec<UserInfo> },
}

/// A user's public key.
#[derive(Clone, Debug)]
pub struct PublicKeyInfo {
    pub user_id: u128,
    pub username: String,
    pub public_key: String,
}

/// A user who is online.
#[derive(Clone, Debug)]
pub struct UserInfo {
    pub user_id: u128,
    pub username: String,
}

/// What clients put inside an encrypted message.
#[derive(Clone, Debug)]
pub struct EncryptedMessageContent {
    pub content: String,
    /// Initialization vector.
    pub iv: String,
    /// Which symmetric key was used.
    pub key_id: String,
}

/// The contents of a `PublicKeyInfo`.
#[verifier::ext_equal]
pub struct PublicKeyView {
    pub user_id: u128,
    pub username: Seq<char>,
    pub public_key: Seq<char>,
}

/// The contents of a `UserInfo`.
#[verifier::ext_equal]
pub struct UserInfoView {
    pub user_id: u128,
    pub username: Seq<char>,
}

/// The contents of a `ChatMessage`.
#[verifier::ext_equal]
pub enum ChatMessageView {
    UserJoined { username: Seq<char>, user_id: u128, timestamp: Timestamp },
    UserLeft { username: Seq<char>, user_id: u128, timestamp: Timestamp },
    EncryptedMessage {
        sender_id: u128,
        sender_username: Seq<char>,
        encrypted_content: Seq<char>,
        recipients: Seq<u128>,
        timestamp: Timestamp,
        message_id: Seq<char>,
        room: Option<Seq<char>>,
        ttl_seconds: Option<i64>,
    },
    KeyExchange {
        from_user_id: u128,
        to_user_id: u128,
        encrypted_key: Seq<char>,
        key_id: Seq<char>,
        scope: Option<Seq<char>>,
    },
    SystemMessage { content: Seq<char>, timestamp: Timestamp },
    RequestPublicKeys { user_ids: Seq<u128>, request_id: Seq<char> },
    PublicKeysResponse { keys: Seq<PublicKeyView>, request_id: Seq<char> },
    OnlineUsers { users: Seq<UserInfoView> },
}

impl View for PublicKeyInfo {
    type V = PublicKeyView;

    open spec fn view(&self) -> PublicKeyView {
        PublicKeyView {
            user_id: self.user_id,
            username: self.username@,
            public_key: self.public_key@,
        }
    }
}

impl View for UserInfo {
    type V = UserInfoView;

    open spec fn view(&self) -> UserInfoView {
        UserInfoView { user_id: self.user_id, username: self.username@ }
    }
}

impl View for ChatMessage {
    type V = ChatMessageView;

    open spec fn view(&self) -> ChatMessageView {
        match *self {
            ChatMessage::UserJoined { username, user_id, timestamp } => {
                ChatMessageView::UserJoined { username: username@, user_id, timestamp }
            },
            ChatMessage::UserLeft { username, user_id, timestamp } => {
                ChatMessageView::UserLeft { username: username@, user_id, timestamp }
            },
            ChatMessage::EncryptedMessage {
                sender_id,
                sender_username,
                encrypted_content,
                recipients,
                timestamp,
                message_id,
                room,
                ttl_seconds,
            } => ChatMessageView::EncryptedMessage {
                sender_id,
                sender_username: sender_username@,
                encrypted_content: encrypted_content@,
                recipients: recipients@,
                timestamp,
                message_id: message_id@,
                room: opt_text(room),
                ttl_seconds,
            },
            ChatMessage::KeyExchange {
                from_user_id,
                to_user_id,
                encrypted_key,
                key_id,
                scope,
            } => ChatMessageView::KeyExchange {
                from_user_id,
                to_user_id,
                encrypted_key: encrypted_key@,
                key_id: key_id@,
                scope: opt_text(scope),
            },
            ChatMessage::SystemMessage { content, timestamp } => {
                ChatMessageView::SystemMessage { content: content@, timestamp }
            },
            ChatMessage::RequestPublicKeys { user_ids, request_id } => {
                ChatMessageView::RequestPublicKeys {
                    user_ids: user_ids@,
                    request_id: request_id@,
                }
            },
            ChatMessage::PublicKeysResponse { keys, request_id } => {
                ChatMessageView::PublicKeysResponse {
                    keys: keys@.map_values(|key: PublicKeyInfo| key@),
                    request_id: request_id@,
                }
            },
            ChatMessage::OnlineUsers { users } => ChatMessageView::OnlineUsers {
                users: users@.map_values(|user: UserInfo| user@),
            },
        }
    }
}

/// The session of someone who wants to open a socket.
pub fn ws_handler(state: &AppState, session_id: Option<&str>) -> (res: Result<Session, StatusCode>)
    ensures
        res == state@.authorized(opt_str(session_id)),
{
    match state.authorize(session_id) {
        Ok(session) => Ok(
            Session {
                user_id: session.user_id,
                username: session.username.clone(),
                created_at: session.created_at,
            },
        ),
        Err(status) => Err(status),
    }
}

/// What to send when a socket has been opened.
pub struct SocketOpening {
    /// The id of the new socket.
    pub connection_id: u128,
    /// Who is online, for the new socket alone.
    pub online: ChatMessage,
    /// That the user has joined, for every socket.
    pub joined: Broadcast,
}

impl AppStateView {
    /// The state once `session` has opened the socket `connection_id`.
    pub open spec fn with_socket(self, connection_id: u128, session: Session) -> AppStateView {
        AppStateView {
            connections: self.connections.insert(
                connection_id,
                Connection { username: session.username, user_id: session.user_id },
            ),
            ..self
        }
    }

    /// The state once the socket `connection_id` is closed.
    pub open spec fn without_socket(self, connection_id: u128) -> AppStateView {
        AppStateView { connections: self.connections.remove(connection_id), ..self }
    }
}

/// Who is online behind the sockets in `order`, apart from the socket `own`.
pub open spec fn online_in(order: Seq<(u128, Connection)>, own: u128) -> Seq<UserInfoView> {
    order.filter(|socket: (u128, Connection)| socket.0 != own).map_values(
        |socket: (u128, Connection)|
            UserInfoView { user_id: socket.1.user_id, username: socket.1.username@ },
    )
}

/// Whether `targets` are the open sockets, each once.
pub open spec fn are_all_sockets(targets: Seq<u128>, connections: Map<u128, Connection>) -> bool {
    &&& targets.no_duplicates()
    &&& forall|id: u128| #[trigger] targets.contains(id) <==> connections.contains_key(id)
}

/// One more socket adds its user, unless it is the socket `own`.
pub(crate) proof fn online_in_next(order: Seq<(u128, Connection)>, own: u128, next: (u128, Connection))
    ensures
        online_in(order.push(next), own) == (if next.0 != own {
            online_in(order, own).push(
                UserInfoView { user_id: next.1.user_id, username: next.1.username@ },
            )
        } else {
            online_in(order, own)
        }),
{
    reveal(Seq::filter);
    let other = |socket: (u128, Connection)| socket.0 != own;
    assert(order.push(next).drop_last() =~= order);
    assert(order.push(next).filter(other) =~= if next.0 != own {
        order.filter(other).push(next)
    } else {
        order.filter(other)
    });
    assert(online_in(order.push(next), own) =~= if next.0 != own {
        online_in(order, own).push(
            UserInfoView { user_id: next.1.user_id, username: next.1.username@ },
        )
    } else {
        online_in(order, own)
    });
}

/// Who is online behind the sockets in `order`, apart from the socket `own`.
pub fn online_users(order: Vec<(u128, Connection)>, own: u128) -> (users: Vec<UserInfo>)
    ensures
        users@.map_values(|user: UserInfo| user@) == online_in(order@, own),
{
    let mut users: Vec<UserInfo> = Vec::new();
    let ghost shown = |user: UserInfo| user@;
    assert(users@.map_values(shown) =~= online_in(order@.take(0), own)) by {
        reveal(Seq::filter);
    }
    for socket in it: order.into_iter()
        invariant
            it.seq() == order@,
            shown == (|user: UserInfo| user@),
            users@.map_values(shown) == online_in(order@.take(it.index()), own),
    {
        proof {
            online_in_next(order@.take(it.index()), own, socket);
            assert(order@.take(it.index() + 1) =~= order@.take(it.index()).push(socket));
        }
        let (connection_id, connection) = socket;
        let ghost before = users@;
        if connection_id != own {
            let user = UserInfo { user_id: connection.user_id, username: connection.username };
            users.push(user);
            assert(users@.map_values(shown) =~= before.map_values(shown).push(user@));
        }
    }
    assert(order@.take(order@.len() as int) =~= order@);
    users
}

/// Opens the socket `connection_id` for a session at `now`.
pub fn handle_socket_at(
    state: &mut AppState,
    session: &Session,
    connection_id: u128,
    now: Timestamp,
) -> (opening: SocketOpening)
    ensures
        final(state)@ == old(state)@.with_socket(connection_id, *session),
        opening.connection_id == connection_id,
        exists|order: Seq<(u128, Connection)>| #[trigger]
            is_walk(order, final(state)@.connections) && opening.online@
                == (ChatMessageView::OnlineUsers { users: online_in(order, connection_id) }),
        opening.joined.message@ == (ChatMessageView::UserJoined {
            username: session.username@,
            user_id: session.user_id,
            timestamp: now,
        }),
        are_all_sockets(opening.joined.targets@, final(state)@.connections),
{
    state.connections.insert(
        connection_id,
        Connection { username: session.username.clone(), user_id: session.user_id },
    );
    let order = state.walk();
    let online = ChatMessage::OnlineUsers { users: online_users(order, connection_id) };
    let message = ChatMessage::UserJoined {
        username: session.username.clone(),
        user_id: session.user_id,
        timestamp: now,
    };
    let joined = broadcast_message(state, None, message);
    SocketOpening { connection_id, online, joined }
}

/// Opens a socket with a fresh id for a session.
pub fn handle_socket(state: &mut AppState, session: &Session) -> (opening: SocketOpening)
    ensures
        is_random_uuid(opening.connection_id),
        final(state)@ == old(state)@.with_socket(opening.connection_id, *session),
        exists|order: Seq<(u128, Connection)>| #[trigger]
            is_walk(order, final(state)@.connections) && opening.online@
                == (ChatMessageView::OnlineUsers {
                users: online_in(order, opening.connection_id),
            }),
        exists|now: Timestamp| #[trigger]
            now.is_reading() && opening.joined.message@ == (ChatMessageView::UserJoined {
                username: session.username@,
                user_id: session.user_id,
                timestamp: now,
            }),
        are_all_sockets(opening.joined.targets@, final(state)@.connections),
{
    let connection_id: u128 = random_uuid();
    let now = utc_now();
    handle_socket_at(state, session, connection_id, now)
}

/// Closes the socket `connection_id` of a session at `now`, and tells every
/// socket that is left.
pub fn close_socket_at(
    state: &mut AppState,
    session: &Session,
    connection_id: u128,
    now: Timestamp,
) -> (left: Broadcast)
    ensures
        final(state)@ == old(state)@.without_socket(connection_id),
        left.message@ == (ChatMessageView::UserLeft {
            username: session.username@,
            user_id: session.user_id,
            timestamp: now,
        }),
        are_all_sockets(left.targets@, final(state)@.connections),
{
    state.connections.remove(&connection_id);
    let message = ChatMessage::UserLeft {
        username: session.username.clone(),
        user_id: session.user_id,
        timestamp: now,
    };
    broadcast_message(state, None, message)
}

/// Closes a socket of a session, and tells every socket that is left.
pub fn close_socket(state: &mut AppState, session: &Session, connection_id: u128) -> (left:
    Broadcast)
    ensures
        final(state)@ == old(state)@.without_socket(connection_id),
        exists|now: Timestamp| #[trigger]
            now.is_reading() && left.message@ == (ChatMessageView::UserLeft {
                username: session.username@,
                user_id: session.user_id,
                timestamp: now,
            }),
        are_all_sockets(left.targets@, final(state)@.connections),
{
    let now = utc_now();
    close_socket_at(state, session, connection_id, now)
}

/// What happens on an open socket.
pub enum SocketEvent {
    /// A text came in; it holds a message, unless it could not be read.
    Text(Option<ChatMessage>),
    Ping,
    Pong,
    /// The client said goodbye.
    Close,
    /// Something came in that is neither text nor control.
    Unsupported,
    /// Nothing more will come in.
    ReceiveEnded,
    /// A message went out.
    Sent,
    /// A message could not go out.
    SendFailed,
    /// No more messages will be queued for the socket, or some were lost.
    QueueEnded,
}

/// What to do about it.
pub enum SocketAction {
    /// Act on the message, and go on.
    Handle(ChatMessage),
    /// Go on.
    Continue,
    /// Close the socket.
    Stop,
}

/// What to do about an event on an open socket. Texts that cannot be read are
/// passed over; whatever ends one direction ends the socket.
pub fn on_socket_event(event: SocketEvent) -> (action: SocketAction)
    ensures
        action == (match event {
            SocketEvent::Text(Some(message)) => SocketAction::Handle(message),
            SocketEvent::Text(None) => SocketAction::Continue,
            SocketEvent::Ping => SocketAction::Continue,
            SocketEvent::Pong => SocketAction::Continue,
            SocketEvent::Unsupported => SocketAction::Continue,
            SocketEvent::Sent => SocketAction::Continue,
            SocketEvent::Close => SocketAction::Stop,
            SocketEvent::ReceiveEnded => SocketAction::Stop,
            SocketEvent::SendFailed => SocketAction::Stop,
            SocketEvent::QueueEnded => SocketAction::Stop,
        }),
{
    match event {
        SocketEvent::Text(Some(message)) => SocketAction::Handle(message),
        SocketEvent::Text(None)
        | SocketEvent::Ping
        | SocketEvent::Pong
        | SocketEvent::Unsupported
        | SocketEvent::Sent => SocketAction::Continue,
        SocketEvent::Close
        | SocketEvent::ReceiveEnded
        | SocketEvent::SendFailed
        | SocketEvent::QueueEnded => SocketAction::Stop,
    }
}

} // verus!
