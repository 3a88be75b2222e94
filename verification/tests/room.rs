use realtime_chat::auth::account::DirectoryEntry;
use realtime_chat::clock::Timestamp;
use realtime_chat::reply::{DatabaseFailure, StatusCode};
use realtime_chat::room::chat::{
    effective_ttl, handle_chat_message, message_to_store, relay_key, ChatAction,
};
use realtime_chat::room::history::{
    keys_to_mark, send_pending_dm_keys, send_recent_history, CatchUp, HistoryRow, PendingKeyRow,
};
use realtime_chat::room::routing::{
    broadcast_message, forward_along, forward_encrypted_message, forward_to_user,
    handle_public_keys_request, user_is_online, Delivery, EncryptedChat,
};
use realtime_chat::room::socket::{
    close_socket, close_socket_at, handle_socket, handle_socket_at, on_socket_event, online_users,
    ws_handler, ChatMessage, SocketAction, SocketEvent,
};
use realtime_chat::room::Room;
use realtime_chat::{AppState, Connection, Session};

fn at(secs: i64) -> Timestamp {
    Timestamp::new(secs, 0).unwrap()
}

fn session(user_id: u128, name: &str) -> Session {
    Session { user_id, username: name.into(), created_at: at(0) }
}

fn connection(user_id: u128) -> Connection {
    Connection { username: format!("user{}", user_id), user_id }
}

/// Sockets 10 and 11 belong to user 1, socket 20 to user 2, socket 30 to user 3.
fn crowd() -> AppState {
    let mut state = AppState::new();
    for (socket, user) in [(10, 1), (11, 1), (20, 2), (30, 3)] {
        state.connections.insert(socket, connection(user));
    }
    state
}

fn chat(recipients: Vec<u128>) -> EncryptedChat {
    EncryptedChat {
        encrypted_content: "c".into(),
        recipients,
        timestamp: at(1000),
        message_id: "m".into(),
        room: "dm".into(),
    }
}

fn encrypted(recipients: Vec<u128>, room: Option<&str>, ttl_seconds: Option<i64>) -> ChatMessage {
    ChatMessage::EncryptedMessage {
        sender_id: 99,
        sender_username: "mallory".into(),
        encrypted_content: "c".into(),
        recipients,
        timestamp: at(1000),
        message_id: "m".into(),
        room: room.map(|room| room.to_string()),
        ttl_seconds,
    }
}

fn sockets(deliveries: &[Delivery]) -> Vec<u128> {
    let mut ids: Vec<u128> = deliveries.iter().map(|delivery| delivery.connection_id).collect();
    ids.sort();
    ids
}

fn sorted(mut ids: Vec<u128>) -> Vec<u128> {
    ids.sort();
    ids
}

fn told(message: &ChatMessage) -> Vec<u128> {
    match message {
        ChatMessage::EncryptedMessage { recipients, .. } => recipients.clone(),
        _ => panic!("not an encrypted message"),
    }
}

#[test]
fn rooms_get_fresh_ids() {
    let one = Room::new("r".into(), vec![1, 2]);
    let two = Room::new("r".into(), vec![1, 2]);
    assert_eq!(one.name, "r");
    assert_eq!(one.participant_ids, [1, 2]);
    assert_ne!(one.id, two.id);
    assert_eq!((one.id >> 76) & 0xf, 4);
    assert_eq!(Room::with_id(5, "r".into(), Vec::new()).id, 5);
}

#[test]
fn sockets_need_a_session() {
    let mut state = AppState::new();
    state.sessions.insert("s".into(), session(1, "ada"));
    assert_eq!(ws_handler(&state, None).unwrap_err(), StatusCode::Unauthorized);
    assert_eq!(ws_handler(&state, Some("x")).unwrap_err(), StatusCode::Unauthorized);
    let found = ws_handler(&state, Some("s")).unwrap();
    assert_eq!((found.user_id, found.username.as_str()), (1, "ada"));
    assert_eq!(found.created_at, at(0));
}

#[test]
fn newcomers_are_announced_and_told_who_is_there() {
    let mut state = crowd();
    let opening = handle_socket_at(&mut state, &session(4, "dan"), 40, at(5));
    assert_eq!(opening.connection_id, 40);
    assert_eq!(state.connections[&40].username, "dan");
    match opening.online {
        ChatMessage::OnlineUsers { users } => {
            let ids = sorted(users.iter().map(|user| user.user_id).collect());
            assert_eq!(ids, [1, 1, 2, 3]);
        }
        _ => panic!("not the users online"),
    }
    assert_eq!(sorted(opening.joined.targets), [10, 11, 20, 30, 40]);
    match opening.joined.message {
        ChatMessage::UserJoined { username, user_id, timestamp } => {
            assert_eq!((username.as_str(), user_id, timestamp), ("dan", 4, at(5)));
        }
        _ => panic!("not a greeting"),
    }
}

#[test]
fn leavers_are_announced_to_those_left() {
    let mut state = crowd();
    let left = close_socket_at(&mut state, &session(2, "bob"), 20, at(6));
    assert!(!state.connections.contains_key(&20));
    assert_eq!(sorted(left.targets), [10, 11, 30]);
    match left.message {
        ChatMessage::UserLeft { username, user_id, timestamp } => {
            assert_eq!((username.as_str(), user_id, timestamp), ("bob", 2, at(6)));
        }
        _ => panic!("not a goodbye"),
    }
}

#[test]
fn closing_takes_back_what_opening_did() {
    let mut state = AppState::new();
    let opening = handle_socket(&mut state, &session(1, "ada"));
    assert_eq!((opening.connection_id >> 76) & 0xf, 4);
    assert!(user_is_online(&state, 1));
    match opening.online {
        ChatMessage::OnlineUsers { users } => assert!(users.is_empty()),
        _ => panic!("not the users online"),
    }
    let left = close_socket(&mut state, &session(1, "ada"), opening.connection_id);
    assert!(left.targets.is_empty());
    assert!(state.connections.is_empty());
    assert!(!user_is_online(&state, 1));
}

#[test]
fn online_users_are_listed_in_order() {
    let order = vec![(30, connection(3)), (10, connection(1)), (20, connection(2))];
    let users = online_users(order, 10);
    assert_eq!(users.len(), 2);
    assert_eq!((users[0].user_id, users[0].username.as_str()), (3, "user3"));
    assert_eq!(users[1].user_id, 2);
}

#[test]
fn messages_go_to_every_socket_of_the_recipients() {
    let state = crowd();
    let deliveries = forward_encrypted_message(&state, 20, 2, "bob", &chat(vec![1, 2]), 60);
    assert_eq!(sockets(&deliveries), [10, 11]);
    for delivery in &deliveries {
        match &delivery.message {
            ChatMessage::EncryptedMessage {
                sender_id,
                sender_username,
                encrypted_content,
                recipients,
                timestamp,
                message_id,
                room,
                ttl_seconds,
            } => {
                assert_eq!(*sender_id, 2);
                assert_eq!(sender_username, "bob");
                assert_eq!(encrypted_content, "c");
                assert_eq!(recipients, &[1, 2]);
                assert_eq!(*timestamp, at(1000));
                assert_eq!(message_id, "m");
                assert_eq!(room.as_deref(), Some("dm"));
                assert_eq!(*ttl_seconds, Some(60));
            }
            _ => panic!("not an encrypted message"),
        }
    }
}

#[test]
fn own_other_sockets_get_messages_to_oneself() {
    let state = crowd();
    let deliveries = forward_encrypted_message(&state, 10, 1, "ada", &chat(vec![1]), 60);
    assert_eq!(sockets(&deliveries), [11]);
    let nobody = forward_encrypted_message(&state, 10, 1, "ada", &chat(vec![9]), 60);
    assert!(nobody.is_empty());
}

#[test]
fn messages_without_recipients_go_to_everyone_else() {
    let state = crowd();
    let deliveries = forward_encrypted_message(&state, 10, 1, "ada", &chat(Vec::new()), 60);
    assert_eq!(sockets(&deliveries), [11, 20, 30]);
    let mut names: Vec<u128> = Vec::new();
    for delivery in &deliveries {
        names.push(state.connections[&delivery.connection_id].user_id);
        assert_eq!(told(&delivery.message), names);
    }
}

#[test]
fn order_of_the_walk_is_the_order_of_deliveries() {
    let order = vec![(30, connection(3)), (10, connection(1)), (20, connection(2))];
    let deliveries = forward_along(&order, 10, 1, "ada", &chat(Vec::new()), 60);
    assert_eq!(deliveries[0].connection_id, 30);
    assert_eq!(told(&deliveries[0].message), [3]);
    assert_eq!(deliveries[1].connection_id, 20);
    assert_eq!(told(&deliveries[1].message), [3, 2]);
    assert_eq!(deliveries.len(), 2);
}

#[test]
fn every_socket_is_walked_once() {
    let ids: Vec<u128> = crowd().walk().iter().map(|socket| socket.0).collect();
    assert_eq!(sorted(ids), [10, 11, 20, 30]);
}

#[test]
fn one_socket_of_a_user_is_reached() {
    let state = crowd();
    let message = ChatMessage::SystemMessage { content: "x".into(), timestamp: at(0) };
    let delivery = forward_to_user(&state, 1, message.clone()).unwrap();
    assert!(delivery.connection_id == 10 || delivery.connection_id == 11);
    assert!(matches!(delivery.message, ChatMessage::SystemMessage { .. }));
    assert!(forward_to_user(&state, 9, message).is_none());
    assert!(user_is_online(&state, 3));
    assert!(!user_is_online(&state, 9));
}

#[test]
fn broadcasts_spare_the_excluded_socket() {
    let state = crowd();
    let message = ChatMessage::SystemMessage { content: "x".into(), timestamp: at(0) };
    let some = broadcast_message(&state, Some(20), message.clone());
    assert_eq!(sorted(some.targets), [10, 11, 30]);
    let all = broadcast_message(&state, None, message);
    assert_eq!(sorted(all.targets), [10, 11, 20, 30]);
    assert!(matches!(all.message, ChatMessage::SystemMessage { .. }));
}

#[test]
fn requested_keys_leave_out_users_without_one() {
    let state = crowd();
    let loaded = vec![
        DirectoryEntry { id: 1, name: "ada".into(), public_key: None },
        DirectoryEntry { id: 2, name: "bob".into(), public_key: Some("k".into()) },
    ];
    let delivery = handle_public_keys_request(&state, 3, Ok(loaded), "r".into()).unwrap();
    assert_eq!(delivery.connection_id, 30);
    match delivery.message {
        ChatMessage::PublicKeysResponse { keys, request_id } => {
            assert_eq!(request_id, "r");
            assert_eq!(keys.len(), 1);
            assert_eq!(keys[0].user_id, 2);
            assert_eq!(keys[0].username, "bob");
            assert_eq!(keys[0].public_key, "k");
        }
        _ => panic!("not an answer"),
    }
    assert!(handle_public_keys_request(&state, 9, Ok(Vec::new()), "r".into()).is_none());
    let failed = handle_public_keys_request(&state, 3, Err(DatabaseFailure), "r".into());
    assert!(failed.is_none());
}

#[test]
fn encrypted_messages_are_forwarded_whoever_they_claim_to_come_from() {
    match handle_chat_message(1, encrypted(vec![2], Some("global"), Some(5))) {
        ChatAction::Forward { chat, ttl_seconds } => {
            assert_eq!(chat.encrypted_content, "c");
            assert_eq!(chat.recipients, [2]);
            assert_eq!(chat.timestamp, at(1000));
            assert_eq!(chat.message_id, "m");
            assert_eq!(chat.room, "global");
            assert_eq!(ttl_seconds, Some(5));
            let deliveries = forward_along(&vec![(20, connection(2))], 10, 1, "ada", &chat, 5);
            match &deliveries[0].message {
                ChatMessage::EncryptedMessage { sender_id, sender_username, .. } => {
                    assert_eq!((*sender_id, sender_username.as_str()), (1, "ada"));
                }
                _ => panic!("not an encrypted message"),
            }
        }
        _ => panic!("not forwarded"),
    }
}

#[test]
fn rooms_are_inferred_from_the_recipients() {
    for (recipients, room) in [(vec![], "dm"), (vec![2], "dm"), (vec![2, 3], "global")] {
        match handle_chat_message(1, encrypted(recipients, None, None)) {
            ChatAction::Forward { chat, ttl_seconds } => {
                assert_eq!(chat.room, room);
                assert_eq!(ttl_seconds, None);
            }
            _ => panic!("not forwarded"),
        }
    }
}

#[test]
fn other_messages_find_their_way() {
    let request = ChatMessage::RequestPublicKeys { user_ids: vec![1, 2], request_id: "r".into() };
    match handle_chat_message(1, request) {
        ChatAction::FetchPublicKeys { user_ids, request_id } => {
            assert_eq!(user_ids, [1, 2]);
            assert_eq!(request_id, "r");
        }
        _ => panic!("not looked up"),
    }
    let others = [
        ChatMessage::SystemMessage { content: "x".into(), timestamp: at(0) },
        ChatMessage::UserJoined { username: "x".into(), user_id: 1, timestamp: at(0) },
        ChatMessage::UserLeft { username: "x".into(), user_id: 1, timestamp: at(0) },
        ChatMessage::PublicKeysResponse { keys: Vec::new(), request_id: "r".into() },
        ChatMessage::OnlineUsers { users: Vec::new() },
    ];
    for other in others {
        let shown = format!("{:?}", other);
        match handle_chat_message(1, other) {
            ChatAction::Broadcast(message) => assert_eq!(format!("{:?}", message), shown),
            _ => panic!("not passed on"),
        }
    }
}

#[test]
fn lifetimes_are_named_or_chosen_or_a_day() {
    assert_eq!(effective_ttl(Some(-5), Ok(Some(60))), -5);
    assert_eq!(effective_ttl(None, Ok(Some(60))), 60);
    assert_eq!(effective_ttl(None, Ok(None)), 86400);
    assert_eq!(effective_ttl(None, Err(DatabaseFailure)), 86400);
}

#[test]
fn stored_messages_are_read_back() {
    let stored = message_to_store(1, &chat(vec![2, 3]), 4_000_000_000);
    assert_eq!(stored.expires_at, at(4_000_001_000));
    assert_eq!(stored.created_at, at(1000));
    assert_eq!(stored.sender_id, 1);
    let row = HistoryRow {
        id: stored.id,
        sender_id: stored.sender_id,
        sender_name: "ada".into(),
        encrypted_content: stored.encrypted_content,
        recipients: stored.recipients,
        created_at: stored.created_at,
        room: stored.room,
        expires_at: stored.expires_at,
    };
    match row.into_message(&at(1000)) {
        ChatMessage::EncryptedMessage {
            sender_id,
            sender_username,
            encrypted_content,
            recipients,
            timestamp,
            message_id,
            room,
            ttl_seconds,
        } => {
            assert_eq!((sender_id, sender_username.as_str()), (1, "ada"));
            assert_eq!(encrypted_content, "c");
            assert_eq!(recipients, [2, 3]);
            assert_eq!(timestamp, at(1000));
            assert_eq!(message_id, "m");
            assert_eq!(room.as_deref(), Some("dm"));
            assert_eq!(ttl_seconds, Some(4_000_000_000));
        }
        _ => panic!("not an encrypted message"),
    }
}

#[test]
fn history_is_sent_oldest_first() {
    let row = |id: &str, expires_at: i64| HistoryRow {
        id: id.into(),
        sender_id: 1,
        sender_name: "ada".into(),
        encrypted_content: "c".into(),
        recipients: Vec::new(),
        created_at: at(0),
        room: "global".into(),
        expires_at: at(expires_at),
    };
    let messages = send_recent_history(vec![row("new", 1), row("old", 4_000_000_000)]);
    let seen: Vec<(String, i64)> = messages
        .into_iter()
        .map(|message| match message {
            ChatMessage::EncryptedMessage { message_id, ttl_seconds, .. } => {
                (message_id, ttl_seconds.unwrap())
            }
            _ => panic!("not an encrypted message"),
        })
        .collect();
    assert_eq!(seen[0].0, "old");
    assert!(seen[0].1 > 0 && seen[0].1 < 4_000_000_000);
    assert_eq!(seen[1], ("new".to_string(), 0));
}

#[test]
fn keys_are_handed_over_or_kept_and_delivered_later() {
    let state = crowd();
    for (to_user_id, online) in [(2, true), (9, false)] {
        let message = ChatMessage::KeyExchange {
            from_user_id: 99,
            to_user_id,
            encrypted_key: "e".into(),
            key_id: "k".into(),
            scope: None,
        };
        let shown = format!("{:?}", message);
        let (to, message, pending) = match handle_chat_message(1, message) {
            ChatAction::Relay { to_user_id, message, pending } => (to_user_id, message, pending),
            _ => panic!("not relayed"),
        };
        assert_eq!(to, to_user_id);
        let relay = relay_key(&state, to, message, pending);
        assert_eq!(relay.delivery.is_some(), online);
        assert_eq!(relay.keep.is_none(), online);
        if let Some(delivery) = relay.delivery {
            assert_eq!(delivery.connection_id, 20);
            assert_eq!(format!("{:?}", delivery.message), shown);
        }
        if let Some(kept) = relay.keep {
            let row = PendingKeyRow {
                id: 77,
                from_user_id: kept.from_user_id,
                to_user_id: kept.to_user_id,
                encrypted_key: kept.encrypted_key,
                key_id: kept.key_id,
            };
            let deliveries = send_pending_dm_keys(vec![row]);
            assert_eq!(deliveries.len(), 1);
            assert_eq!(deliveries[0].id, 77);
            match &deliveries[0].message {
                ChatMessage::KeyExchange {
                    from_user_id,
                    to_user_id,
                    encrypted_key,
                    key_id,
                    scope,
                } => {
                    assert_eq!((*from_user_id, *to_user_id), (1, 9));
                    assert_eq!((encrypted_key.as_str(), key_id.as_str()), ("e", "k"));
                    assert_eq!(scope.as_deref(), Some("dm"));
                }
                _ => panic!("not a key"),
            }
        }
    }
}

#[test]
fn only_keys_that_went_out_are_marked() {
    assert_eq!(keys_to_mark(&vec![(1, true), (2, false), (3, true)]), Some(vec![1, 3]));
    assert_eq!(keys_to_mark(&vec![(1, false)]), None);
    assert_eq!(keys_to_mark(&Vec::new()), None);
}

#[test]
fn events_decide_whether_a_socket_stays_open() {
    let message = ChatMessage::SystemMessage { content: "x".into(), timestamp: at(0) };
    let handled = on_socket_event(SocketEvent::Text(Some(message)));
    assert!(matches!(handled, SocketAction::Handle(ChatMessage::SystemMessage { .. })));
    let stays = [
        SocketEvent::Text(None),
        SocketEvent::Ping,
        SocketEvent::Pong,
        SocketEvent::Unsupported,
        SocketEvent::Sent,
    ];
    for event in stays {
        assert!(matches!(on_socket_event(event), SocketAction::Continue));
    }
    let ends = [
        SocketEvent::Close,
        SocketEvent::ReceiveEnded,
        SocketEvent::SendFailed,
        SocketEvent::QueueEnded,
    ];
    for event in ends {
        assert!(matches!(on_socket_event(event), SocketAction::Stop));
    }
}

#[test]
fn sockets_leave_sessions_alone() {
    let mut state = AppState::new();
    state.sessions.insert("s".into(), session(1, "ada"));
    let opening = handle_socket(&mut state, &session(1, "ada"));
    assert!(state.authorize(Some("s")).is_ok());
    close_socket(&mut state, &session(1, "ada"), opening.connection_id);
    assert!(state.authorize(Some("s")).is_ok());
}

#[test]
fn keys_are_sent_before_the_history_whatever_happens() {
    for outcome in [Ok(()), Err(DatabaseFailure)] {
        let step = CatchUp::start();
        assert_eq!(step, CatchUp::Wait { millis: 300 });
        let step = step.after(outcome);
        assert_eq!(step, CatchUp::SendKeys);
        let step = step.after(outcome);
        assert_eq!(step, CatchUp::SendHistory);
        let step = step.after(outcome);
        assert_eq!(step, CatchUp::Done);
        assert_eq!(step.after(outcome), CatchUp::Done);
    }
}
