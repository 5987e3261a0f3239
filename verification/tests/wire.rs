use chat_room_server::handler::user::AuthRequest;
use chat_room_server::handler::websocket::{
    frame_communication, frame_message, CommunicationContent, Frame, IncomingMessage,
    OutgoingCommunication, OutgoingMessage,
};
use chat_room_server::json::{read_two_members, DecodeError};

#[test]
fn frame_message_puts_the_parts_in_place() {
    assert_eq!(
        frame_message("\"alice\"", "\"general\"", "\"hi\""),
        "{\"userName\":\"alice\",\"roomName\":\"general\",\"message\":\"hi\"}"
    );
    assert_eq!(frame_message("", "", ""), "{\"userName\":,\"roomName\":,\"message\":}");
    assert_eq!(frame_message("1", "2", "3"), "{\"userName\":1,\"roomName\":2,\"message\":3}");
}

#[test]
fn frame_communication_puts_the_parts_in_place() {
    assert_eq!(
        frame_communication("\"message\"", "{}"),
        "{\"type\":\"message\",\"content\":{}}"
    );
    assert_eq!(frame_communication("", ""), "{\"type\":,\"content\":}");
}

#[test]
fn outgoing_message_is_written_as_json() {
    let message = OutgoingMessage {
        user_name: "alice".to_string(),
        room_name: "general".to_string(),
        message: "hi".to_string(),
    };
    assert_eq!(
        message.to_json(),
        "{\"userName\":\"alice\",\"roomName\":\"general\",\"message\":\"hi\"}"
    );
    let content = CommunicationContent::OutgoingMessage(message);
    assert_eq!(
        content.to_json(),
        "{\"userName\":\"alice\",\"roomName\":\"general\",\"message\":\"hi\"}"
    );
}

#[test]
fn outgoing_communication_is_written_as_json() {
    let out = OutgoingCommunication::message("alice", "general", "hi");
    assert_eq!(out.communication_type, "message");
    assert_eq!(
        out.to_json(),
        "{\"type\":\"message\",\"content\":{\"userName\":\"alice\",\"roomName\":\"general\",\"message\":\"hi\"}}"
    );
}

#[test]
fn written_strings_are_escaped() {
    let out = OutgoingCommunication::message("a\"b", "back\\slash", "line\nbreak\ttab \u{1} é");
    assert_eq!(
        out.to_json(),
        "{\"type\":\"message\",\"content\":{\"userName\":\"a\\\"b\",\"roomName\":\"back\\\\slash\",\"message\":\"line\\nbreak\\ttab \\u0001 é\"}}"
    );
}

#[test]
fn written_json_reads_back() {
    let out = OutgoingCommunication::message("a\"b", "general", "line\nbreak \\ {\"x\":1}");
    let value: serde_json::Value = serde_json::from_str(&out.to_json()).unwrap();
    assert_eq!(value["type"], "message");
    assert_eq!(value["content"]["userName"], "a\"b");
    assert_eq!(value["content"]["roomName"], "general");
    assert_eq!(value["content"]["message"], "line\nbreak \\ {\"x\":1}");
}

#[test]
fn incoming_message_is_read_from_json() {
    let incoming = IncomingMessage::from_json("{\"roomName\":\"general\",\"message\":\"hi\"}").unwrap();
    assert_eq!(incoming.room_name, "general");
    assert_eq!(incoming.message, "hi");
    let incoming =
        IncomingMessage::from_json(" { \"message\" : \"a\\nb\\u00e9\" , \"roomName\" : \"r\" , \"n\" : 1 } ")
            .unwrap();
    assert_eq!(incoming.room_name, "r");
    assert_eq!(incoming.message, "a\nbé");
}

#[test]
fn incoming_message_errors() {
    assert_eq!(IncomingMessage::from_json("").err(), Some(DecodeError::NotJson));
    assert_eq!(IncomingMessage::from_json("{").err(), Some(DecodeError::NotJson));
    assert_eq!(
        IncomingMessage::from_json("{\"roomName\":\"general\",\"message\":\"hi\"} x").err(),
        Some(DecodeError::NotJson)
    );
    assert_eq!(IncomingMessage::from_json("{}").err(), Some(DecodeError::MissingMember));
    assert_eq!(
        IncomingMessage::from_json("{\"roomName\":\"general\"}").err(),
        Some(DecodeError::MissingMember)
    );
    assert_eq!(
        IncomingMessage::from_json("{\"roomName\":\"general\",\"message\":null}").err(),
        Some(DecodeError::MissingMember)
    );
    assert_eq!(
        IncomingMessage::from_json("{\"room_name\":\"general\",\"message\":\"hi\"}").err(),
        Some(DecodeError::MissingMember)
    );
    assert_eq!(IncomingMessage::from_json("7").err(), Some(DecodeError::MissingMember));
}

#[test]
fn auth_request_is_read_from_json() {
    let auth = AuthRequest::from_json("{\"username\": \"alice\", \"token\": \"A\"}").unwrap();
    assert_eq!(auth.user_name, "alice");
    assert_eq!(auth.token, "A");
    assert_eq!(AuthRequest::from_json("alice").err(), Some(DecodeError::NotJson));
    assert_eq!(
        AuthRequest::from_json("{\"username\": \"alice\"}").err(),
        Some(DecodeError::MissingMember)
    );
    assert_eq!(
        AuthRequest::from_json("{\"userName\": \"alice\", \"token\": \"A\"}").err(),
        Some(DecodeError::MissingMember)
    );
}

#[test]
fn two_members_are_read_by_key() {
    let found = read_two_members("{\"a\":\"1\",\"b\":\"2\",\"c\":\"3\"}", "c", "a").unwrap();
    assert_eq!(found, ("3".to_string(), "1".to_string()));
    let same = read_two_members("{\"a\":\"1\"}", "a", "a").unwrap();
    assert_eq!(same, ("1".to_string(), "1".to_string()));
    assert_eq!(
        read_two_members("{\"a\":\"1\"}", "a", "b").err(),
        Some(DecodeError::MissingMember)
    );
    assert_eq!(read_two_members("{\"a\":}", "a", "a").err(), Some(DecodeError::NotJson));
}

#[test]
fn decode_errors_in_words() {
    assert_eq!(DecodeError::NotJson.describe(), "the text is not JSON");
    assert_eq!(DecodeError::MissingMember.describe(), "a member is missing or is not a string");
}

#[test]
fn frame_kinds_have_names() {
    assert_eq!(Frame::Text("x".to_string()).kind(), "Text");
    assert_eq!(Frame::Binary.kind(), "Binary");
    assert_eq!(Frame::Ping.kind(), "Ping");
    assert_eq!(Frame::Pong.kind(), "Pong");
    assert_eq!(Frame::Close.kind(), "Close");
}
