use chat_room_server::handler::room::{join_room, remove_user_from_single_room};
use chat_room_server::handler::user::{login_user, logout_handler, AuthRequest};
use chat_room_server::handler::websocket::{
    authenticate, bind_connection, close_connection, continue_connection, deliver,
    get_username_from_first_message,
    open_connection, recipients_of, register_connection, send_message_to_the_room,
    unregister_connection, user_connection, Connection, Dispatch, Event, Frame, IncomingMessage,
};
use chat_room_server::helper::LogLevel;
use chat_room_server::model::{Room, RoomMap, UserMap};

fn text(s: &str) -> Event {
    Event::Frame(Frame::Text(s.to_string()))
}

fn reached(dispatch: &Dispatch) -> Vec<(String, String)> {
    let mut pairs: Vec<(String, String)> = dispatch
        .recipients
        .iter()
        .map(|r| (r.user_name.clone(), r.connection_id.clone()))
        .collect();
    pairs.sort();
    pairs
}

fn pair(user: &str, connection: &str) -> (String, String) {
    (user.to_string(), connection.to_string())
}

fn two_users_in_general() -> (UserMap, RoomMap) {
    let mut users = UserMap::new();
    let mut rooms = RoomMap::new();
    login_user("alice", "A", &mut users);
    login_user("bob", "B", &mut users);
    join_room("alice", "general", &mut rooms);
    join_room("bob", "general", &mut rooms);
    (users, rooms)
}

#[test]
fn handshake_accepts_valid_credentials() {
    let (users, _) = two_users_in_general();
    let found = get_username_from_first_message(
        &text("{\"username\":\"alice\",\"token\":\"A\"}"),
        &users,
    );
    assert_eq!(found.value, Some("alice".to_string()));
    assert!(found.log.is_empty());
}

#[test]
fn handshake_passes_over_other_members() {
    let (users, _) = two_users_in_general();
    let found = get_username_from_first_message(
        &text("{\"device\":7,\"token\":\"B\",\"extra\":[1,2],\"username\":\"bob\"}"),
        &users,
    );
    assert_eq!(found.value, Some("bob".to_string()));
}

#[test]
fn handshake_refuses_a_wrong_token() {
    let (users, _) = two_users_in_general();
    let found = get_username_from_first_message(
        &text("{\"username\":\"alice\",\"token\":\"B\"}"),
        &users,
    );
    assert_eq!(found.value, None);
    assert_eq!(found.log.len(), 1);
    assert_eq!(found.log[0].message, "Wrong token for user alice");
}

#[test]
fn handshake_refuses_an_unknown_user() {
    let (users, _) = two_users_in_general();
    let found = get_username_from_first_message(
        &text("{\"username\":\"carol\",\"token\":\"A\"}"),
        &users,
    );
    assert_eq!(found.value, None);
    assert_eq!(found.log[0].message, "User carol was not logged in");
}

#[test]
fn handshake_refuses_text_that_is_not_json() {
    let (users, _) = two_users_in_general();
    let found = get_username_from_first_message(&text("alice A"), &users);
    assert_eq!(found.value, None);
    assert_eq!(found.log[0].level, LogLevel::Error);
    assert_eq!(
        found.log[0].message,
        "Error parsing incoming message: the text is not JSON"
    );
}

#[test]
fn handshake_refuses_json_without_the_members() {
    let (users, _) = two_users_in_general();
    for first in [
        "{\"username\":\"alice\"}",
        "{\"token\":\"A\"}",
        "{\"user_name\":\"alice\",\"token\":\"A\"}",
        "{\"username\":\"alice\",\"token\":7}",
        "[\"alice\",\"A\"]",
        "\"alice\"",
        "null",
    ] {
        let found = get_username_from_first_message(&text(first), &users);
        assert_eq!(found.value, None);
        assert_eq!(
            found.log[0].message,
            "Error parsing incoming message: a member is missing or is not a string"
        );
    }
}

#[test]
fn handshake_refuses_frames_without_text() {
    let (users, _) = two_users_in_general();
    let found = get_username_from_first_message(&Event::Frame(Frame::Binary), &users);
    assert_eq!(found.value, None);
    assert_eq!(
        found.log[0].message,
        "Received websocket message that is not a string: Binary"
    );
    let found = get_username_from_first_message(&Event::Frame(Frame::Close), &users);
    assert_eq!(found.value, None);
    assert_eq!(
        found.log[0].message,
        "Received websocket message that is not a string: Close"
    );
}

#[test]
fn handshake_refuses_failures_and_the_end() {
    let (users, _) = two_users_in_general();
    let found = get_username_from_first_message(&Event::ReadFailed("reset".to_string()), &users);
    assert_eq!(found.value, None);
    assert_eq!(
        found.log[0].message,
        "Error receiving websocket message for user unknown: reset"
    );
    let found = get_username_from_first_message(&Event::WriteFailed("gone".to_string()), &users);
    assert_eq!(found.value, None);
    assert_eq!(found.log[0].message, "Error sending websocket message: gone");
    let found = get_username_from_first_message(&Event::Finished, &users);
    assert_eq!(found.value, None);
    assert!(found.log.is_empty());
}

#[test]
fn authenticate_checks_the_token() {
    let (users, _) = two_users_in_general();
    let ok = authenticate(
        chat_room_server::handler::user::AuthRequest {
            user_name: "bob".to_string(),
            token: "B".to_string(),
        },
        &users,
    );
    assert_eq!(ok.value, Some("bob".to_string()));
    let bad = authenticate(
        chat_room_server::handler::user::AuthRequest {
            user_name: "bob".to_string(),
            token: "A".to_string(),
        },
        &users,
    );
    assert_eq!(bad.value, None);
}

#[test]
fn opening_registers_a_fresh_connection() {
    let (mut users, _) = two_users_in_general();
    let step = open_connection(&text("{\"username\":\"alice\",\"token\":\"A\"}"), &mut users);
    let id = match step.next {
        Connection::Authenticated { user_name, connection_id } => {
            assert_eq!(user_name, "alice");
            connection_id
        },
        other => panic!("not bound: {:?}", other),
    };
    assert_eq!(id.len(), 32);
    assert!(id.chars().all(|c| c.is_ascii_digit() || ('a'..='f').contains(&c)));
    assert!(step.dispatch.is_none());
    assert_eq!(step.log.len(), 1);
    assert_eq!(step.log[0].message, "User alice connected to websocket");
    let alice = users.get("alice").unwrap();
    assert_eq!(alice.sender.len(), 1);
    assert!(alice.sender.contains(&id));
    assert_eq!(alice.token, "A");
    assert!(users.get("bob").unwrap().sender.is_empty());
}

#[test]
fn refused_opening_changes_nothing() {
    let (mut users, _) = two_users_in_general();
    register_connection("alice", "c1", &mut users);
    for first in [
        text("{\"username\":\"alice\",\"token\":\"nope\"}"),
        text("{\"username\":\"carol\",\"token\":\"A\"}"),
        text("not json"),
        Event::Frame(Frame::Ping),
        Event::ReadFailed("reset".to_string()),
        Event::Finished,
    ] {
        let step = open_connection(&first, &mut users);
        assert!(matches!(step.next, Connection::Closed));
        assert!(step.dispatch.is_none());
        let last = step.log.last().unwrap();
        assert_eq!(
            last.message,
            "Error receiving websocket message for user unknown: no message received"
        );
        assert_eq!(users.get("alice").unwrap().sender.len(), 1);
        assert!(users.get("alice").unwrap().sender.contains("c1"));
        assert!(users.get("bob").unwrap().sender.is_empty());
        assert!(users.get("carol").is_none());
    }
}

#[test]
fn register_and_unregister_connections() {
    let (mut users, _) = two_users_in_general();
    let record = register_connection("alice", "c1", &mut users);
    assert_eq!(record.message, "User alice connected to websocket");
    assert_eq!(record.level, LogLevel::Info);
    register_connection("alice", "c2", &mut users);
    register_connection("alice", "c3", &mut users);
    assert_eq!(users.get("alice").unwrap().sender.len(), 3);
    let record = unregister_connection("alice", "c2", &mut users);
    assert_eq!(record.message, "User alice disconnected from websocket");
    let alice = users.get("alice").unwrap();
    assert_eq!(alice.sender.len(), 2);
    assert!(alice.sender.contains("c1"));
    assert!(!alice.sender.contains("c2"));
    assert!(alice.sender.contains("c3"));
    assert_eq!(alice.token, "A");
}

#[test]
fn registering_for_a_user_who_is_not_logged_in_does_nothing() {
    let (mut users, _) = two_users_in_general();
    let record = register_connection("carol", "c1", &mut users);
    assert_eq!(record.message, "User carol was not logged in");
    assert_eq!(record.level, LogLevel::Warn);
    let record = unregister_connection("carol", "c1", &mut users);
    assert_eq!(record.message, "User carol was not logged in");
    assert!(users.get("carol").is_none());
    assert!(users.get("alice").unwrap().sender.is_empty());
}

#[test]
fn registering_the_same_connection_twice_keeps_one() {
    let (mut users, _) = two_users_in_general();
    register_connection("alice", "c1", &mut users);
    register_connection("alice", "c1", &mut users);
    assert_eq!(users.get("alice").unwrap().sender.len(), 1);
}

#[test]
fn closing_the_last_connection_keeps_the_login() {
    let (mut users, rooms) = two_users_in_general();
    register_connection("alice", "c1", &mut users);
    let step = close_connection("alice", "c1", Vec::new(), &mut users);
    assert!(matches!(step.next, Connection::Closed));
    assert_eq!(step.log.len(), 1);
    assert_eq!(step.log[0].message, "User alice disconnected from websocket");
    let alice = users.get("alice").unwrap();
    assert!(alice.sender.is_empty());
    assert_eq!(alice.token, "A");
    assert!(rooms.get("general").unwrap().users.contains("alice"));
}

#[test]
fn delivery_reaches_every_connection_of_every_member() {
    let (mut users, mut rooms) = two_users_in_general();
    login_user("carol", "C", &mut users);
    join_room("carol", "elsewhere", &mut rooms);
    register_connection("alice", "a1", &mut users);
    register_connection("alice", "a2", &mut users);
    register_connection("bob", "b1", &mut users);
    register_connection("carol", "c1", &mut users);
    let incoming = IncomingMessage { room_name: "general".to_string(), message: "hi".to_string() };
    let out = deliver("alice", &incoming, &users, &rooms);
    assert!(out.log.is_empty());
    let dispatch = out.value.unwrap();
    assert_eq!(
        reached(&dispatch),
        vec![pair("alice", "a1"), pair("alice", "a2"), pair("bob", "b1")]
    );
    assert_eq!(
        dispatch.payload,
        "{\"type\":\"message\",\"content\":{\"userName\":\"alice\",\"roomName\":\"general\",\"message\":\"hi\"}}"
    );
}

#[test]
fn delivery_to_a_member_without_connections_goes_nowhere() {
    let (mut users, rooms) = two_users_in_general();
    register_connection("alice", "a1", &mut users);
    let incoming = IncomingMessage { room_name: "general".to_string(), message: "hi".to_string() };
    let dispatch = deliver("alice", &incoming, &users, &rooms).value.unwrap();
    assert_eq!(reached(&dispatch), vec![pair("alice", "a1")]);
    assert!(rooms.get("general").unwrap().users.contains("bob"));
}

#[test]
fn delivery_skips_members_who_are_not_logged_in() {
    let (mut users, mut rooms) = two_users_in_general();
    join_room("ghost", "general", &mut rooms);
    register_connection("bob", "b1", &mut users);
    let list = recipients_of(rooms.get("general").unwrap(), &users);
    assert_eq!(list.len(), 1);
    assert_eq!(list[0].user_name, "bob");
    assert_eq!(list[0].connection_id, "b1");
}

#[test]
fn delivery_to_a_room_that_does_not_exist_is_dropped() {
    let (mut users, rooms) = two_users_in_general();
    register_connection("alice", "a1", &mut users);
    let incoming = IncomingMessage { room_name: "nowhere".to_string(), message: "hi".to_string() };
    let out = deliver("alice", &incoming, &users, &rooms);
    assert!(out.value.is_none());
    assert_eq!(out.log.len(), 1);
    assert_eq!(out.log[0].message, "Room nowhere does not exist");
    assert_eq!(out.log[0].level, LogLevel::Warn);
}

#[test]
fn delivery_follows_membership_at_the_time() {
    let (mut users, mut rooms) = two_users_in_general();
    login_user("carol", "C", &mut users);
    register_connection("alice", "a1", &mut users);
    register_connection("bob", "b1", &mut users);
    register_connection("carol", "c1", &mut users);
    let incoming = IncomingMessage { room_name: "general".to_string(), message: "hi".to_string() };

    let before = deliver("alice", &incoming, &users, &rooms).value.unwrap();
    assert_eq!(reached(&before), vec![pair("alice", "a1"), pair("bob", "b1")]);

    join_room("carol", "general", &mut rooms);
    remove_user_from_single_room("bob", "general", &mut rooms);
    let after = deliver("alice", &incoming, &users, &rooms).value.unwrap();
    assert_eq!(reached(&after), vec![pair("alice", "a1"), pair("carol", "c1")]);
    assert_eq!(reached(&before), vec![pair("alice", "a1"), pair("bob", "b1")]);
}

#[test]
fn a_closed_connection_receives_nothing_more() {
    let (mut users, rooms) = two_users_in_general();
    register_connection("bob", "b1", &mut users);
    register_connection("bob", "b2", &mut users);
    register_connection("bob", "b3", &mut users);
    unregister_connection("bob", "b2", &mut users);
    assert_eq!(users.get("bob").unwrap().sender.len(), 2);
    let incoming = IncomingMessage { room_name: "general".to_string(), message: "hi".to_string() };
    let dispatch = deliver("alice", &incoming, &users, &rooms).value.unwrap();
    assert_eq!(reached(&dispatch), vec![pair("bob", "b1"), pair("bob", "b3")]);
}

#[test]
fn a_sender_who_is_no_member_reaches_the_members() {
    let (mut users, rooms) = two_users_in_general();
    login_user("carol", "C", &mut users);
    register_connection("carol", "c1", &mut users);
    register_connection("bob", "b1", &mut users);
    let incoming = IncomingMessage { room_name: "general".to_string(), message: "hi".to_string() };
    let dispatch = deliver("carol", &incoming, &users, &rooms).value.unwrap();
    assert_eq!(reached(&dispatch), vec![pair("bob", "b1")]);
}

#[test]
fn frames_that_hold_no_message_are_dropped() {
    let (mut users, rooms) = two_users_in_general();
    register_connection("bob", "b1", &mut users);
    let out = send_message_to_the_room("alice", &Frame::Text("{oops".to_string()), &users, &rooms);
    assert!(out.value.is_none());
    assert_eq!(out.log[0].message, "Error parsing incoming message: the text is not JSON");
    let out = send_message_to_the_room(
        "alice",
        &Frame::Text("{\"roomName\":\"general\"}".to_string()),
        &users,
        &rooms,
    );
    assert!(out.value.is_none());
    assert_eq!(
        out.log[0].message,
        "Error parsing incoming message: a member is missing or is not a string"
    );
    let out = send_message_to_the_room("alice", &Frame::Binary, &users, &rooms);
    assert!(out.value.is_none());
    assert_eq!(out.log[0].message, "Received websocket message that is not a string: Binary");
    let out = send_message_to_the_room("alice", &Frame::Pong, &users, &rooms);
    assert!(out.value.is_none());
    assert_eq!(out.log[0].message, "Received websocket message that is not a string: Pong");
    let out = send_message_to_the_room("alice", &Frame::Close, &users, &rooms);
    assert!(out.value.is_none());
    assert_eq!(out.log[0].message, "Closing websocket connection for user alice...");
    assert_eq!(out.log[0].level, LogLevel::Info);
}

#[test]
fn a_text_frame_with_a_message_is_delivered() {
    let (mut users, rooms) = two_users_in_general();
    register_connection("bob", "b1", &mut users);
    let out = send_message_to_the_room(
        "alice",
        &Frame::Text("{\"message\":\"a \\\"quoted\\\" line\\n\",\"roomName\":\"general\"}".to_string()),
        &users,
        &rooms,
    );
    let dispatch = out.value.unwrap();
    assert_eq!(reached(&dispatch), vec![pair("bob", "b1")]);
    assert_eq!(
        dispatch.payload,
        "{\"type\":\"message\",\"content\":{\"userName\":\"alice\",\"roomName\":\"general\",\"message\":\"a \\\"quoted\\\" line\\n\"}}"
    );
}

#[test]
fn a_bound_connection_stays_open_on_bad_frames() {
    let (mut users, rooms) = two_users_in_general();
    register_connection("alice", "a1", &mut users);
    for event in [text("nonsense"), Event::Frame(Frame::Binary), Event::Frame(Frame::Ping)] {
        let step = continue_connection("alice".to_string(), "a1".to_string(), &event, &mut users, &rooms);
        match step.next {
            Connection::Authenticated { user_name, connection_id } => {
                assert_eq!(user_name, "alice");
                assert_eq!(connection_id, "a1");
            },
            other => panic!("closed: {:?}", other),
        }
        assert!(step.dispatch.is_none());
        assert_eq!(step.log.len(), 1);
        assert!(users.get("alice").unwrap().sender.contains("a1"));
    }
}

#[test]
fn a_bound_connection_ends_on_close_failure_and_end() {
    for (event, first) in [
        (Event::Frame(Frame::Close), Some("Closing websocket connection for user alice...")),
        (
            Event::ReadFailed("reset".to_string()),
            Some("Error receiving websocket message for user alice: reset"),
        ),
        (Event::WriteFailed("gone".to_string()), Some("Error sending websocket message: gone")),
        (Event::Finished, None),
    ] {
        let (mut users, rooms) = two_users_in_general();
        register_connection("alice", "a1", &mut users);
        register_connection("alice", "a2", &mut users);
        register_connection("bob", "b1", &mut users);
        let state = Connection::Authenticated {
            user_name: "alice".to_string(),
            connection_id: "a1".to_string(),
        };
        let step = user_connection(state, &event, &mut users, &rooms);
        assert!(matches!(step.next, Connection::Closed));
        assert!(step.dispatch.is_none());
        let messages: Vec<&str> = step.log.iter().map(|r| r.message.as_str()).collect();
        let mut expected: Vec<&str> = Vec::new();
        if let Some(line) = first {
            expected.push(line);
        }
        expected.push("User alice disconnected from websocket");
        assert_eq!(messages, expected);
        let alice = users.get("alice").unwrap();
        assert_eq!(alice.sender.len(), 1);
        assert!(alice.sender.contains("a2"));
        assert!(users.get("bob").unwrap().sender.contains("b1"));
        assert!(rooms.get("general").unwrap().users.contains("alice"));
    }
}

#[test]
fn a_connection_that_outlives_its_login_ends_without_it() {
    let (mut users, mut rooms) = two_users_in_general();
    register_connection("alice", "a1", &mut users);
    logout_handler(
        AuthRequest { user_name: "alice".to_string(), token: "A".to_string() },
        &mut users,
        &mut rooms,
    );
    let state = Connection::Authenticated {
        user_name: "alice".to_string(),
        connection_id: "a1".to_string(),
    };
    let step = user_connection(state, &Event::Finished, &mut users, &rooms);
    assert!(matches!(step.next, Connection::Closed));
    assert_eq!(step.log.len(), 1);
    assert_eq!(step.log[0].message, "User alice was not logged in");
    assert!(users.get("alice").is_none());
}

#[test]
fn a_closed_connection_stays_closed() {
    let (mut users, rooms) = two_users_in_general();
    register_connection("alice", "a1", &mut users);
    for event in [
        text("{\"username\":\"alice\",\"token\":\"A\"}"),
        text("{\"roomName\":\"general\",\"message\":\"hi\"}"),
        Event::Frame(Frame::Close),
        Event::Finished,
    ] {
        let step = user_connection(Connection::Closed, &event, &mut users, &rooms);
        assert!(matches!(step.next, Connection::Closed));
        assert!(step.dispatch.is_none());
        assert!(step.log.is_empty());
        assert_eq!(users.get("alice").unwrap().sender.len(), 1);
    }
}

#[test]
fn an_unbound_connection_cannot_publish() {
    let (mut users, rooms) = two_users_in_general();
    register_connection("bob", "b1", &mut users);
    let step = user_connection(
        Connection::Unauthenticated,
        &text("{\"roomName\":\"general\",\"message\":\"hi\"}"),
        &mut users,
        &rooms,
    );
    assert!(matches!(step.next, Connection::Closed));
    assert!(step.dispatch.is_none());
}

#[test]
fn recipients_of_an_empty_room_are_none() {
    let (users, _) = two_users_in_general();
    let mut room = Room::new("alice".to_string());
    room.users.remove("alice");
    assert!(recipients_of(&room, &users).is_empty());
}

#[test]
fn a_connection_begins_unbound() {
    let start = chat_room_server::handler::websocket::streaming_handler();
    assert!(matches!(start.value, Connection::Unauthenticated));
    assert_eq!(start.log.len(), 1);
    assert_eq!(start.log[0].message, "Initiating websocket connection...");
    assert_eq!(start.log[0].level, LogLevel::Info);
}

#[test]
fn binding_needs_an_identifier_that_is_new_to_the_user() {
    let (mut users, _) = two_users_in_general();
    register_connection("alice", "c1", &mut users);

    let step = bind_connection("alice".to_string(), "c1".to_string(), Vec::new(), &mut users);
    assert!(matches!(step.next, Connection::Closed));
    assert!(step.dispatch.is_none());
    assert_eq!(step.log.len(), 1);
    assert_eq!(step.log[0].level, LogLevel::Error);
    assert_eq!(step.log[0].message, "Connection identifier in use for user alice");
    assert_eq!(users.get("alice").unwrap().sender.len(), 1);

    let step = bind_connection("alice".to_string(), "c2".to_string(), Vec::new(), &mut users);
    match step.next {
        Connection::Authenticated { user_name, connection_id } => {
            assert_eq!(user_name, "alice");
            assert_eq!(connection_id, "c2");
        },
        other => panic!("not bound: {:?}", other),
    }
    assert_eq!(step.log[0].message, "User alice connected to websocket");
    assert_eq!(users.get("alice").unwrap().sender.len(), 2);

    let step = bind_connection("bob".to_string(), "c1".to_string(), Vec::new(), &mut users);
    assert!(matches!(step.next, Connection::Authenticated { .. }));
    assert!(users.get("bob").unwrap().sender.contains("c1"));
}

#[test]
fn binding_needs_a_login() {
    let (mut users, _) = two_users_in_general();
    let earlier = vec![chat_room_server::helper::log_initiating_ws_connection()];
    let step = bind_connection("carol".to_string(), "c1".to_string(), earlier, &mut users);
    assert!(matches!(step.next, Connection::Closed));
    assert_eq!(step.log.len(), 2);
    assert_eq!(step.log[0].message, "Initiating websocket connection...");
    assert_eq!(step.log[1].message, "User carol was not logged in");
    assert!(users.get("carol").is_none());
}
