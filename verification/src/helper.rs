//! The records that the handlers report for the log.

use vstd::prelude::*;
use vstd::string::*;
use crate::handler::websocket::{kind_name, Frame};

verus! {

/// How grave a record is.
#[derive(Clone, Copy, Debug, PartialEq, Eq, Structural)]
pub enum LogLevel {
    Error,
    Warn,
    Info,
}

/// One record for the log: a level and a line of text.
#[derive(Debug)]
pub struct LogRecord {
    pub level: LogLevel,
    pub message: String,
}

/// A record as the contracts speak of it.
pub struct Line {
    pub level: LogLevel,
    pub message: Seq<char>,
}

impl View for LogRecord {
    type V = Line;

    open spec fn view(&self) -> Line {
        Line { level: self.level, message: self.message@ }
    }
}

/// The lines of a list of records.
pub open spec fn lines(records: Seq<LogRecord>) -> Seq<Line> {
    records.map_values(|r: LogRecord| r@)
}

/// A result together with the records that explain how it came about.
pub struct Logged<T> {
    pub value: T,
    pub log: Vec<LogRecord>,
}

/// A result with no record.
pub fn silent<T>(value: T) -> (r: Logged<T>)
    ensures
        r.value == value,
        lines(r.log@) == Seq::<Line>::empty(),
{
    Logged { value, log: Vec::new() }
}

/// A result with one record.
pub fn noted<T>(value: T, first: LogRecord) -> (r: Logged<T>)
    ensures
        r.value == value,
        lines(r.log@) == seq![first@],
{
    let mut log = Vec::new();
    log.push(first);
    Logged { value, log }
}

/// A result with two records.
pub fn noted_twice<T>(value: T, first: LogRecord, second: LogRecord) -> (r: Logged<T>)
    ensures
        r.value == value,
        lines(r.log@) == seq![first@, second@],
{
    let mut log = Vec::new();
    log.push(first);
    log.push(second);
    Logged { value, log }
}

/// Adds one record to a list.
pub fn note(log: &mut Vec<LogRecord>, next: LogRecord)
    ensures
        lines(final(log)@) == lines(old(log)@).push(next@),
{
    log.push(next);
}

/// A record with the given level and text.
fn record(level: LogLevel, message: String) -> (r: LogRecord)
    ensures
        r@ == (Line { level, message: message@ }),
{
    LogRecord { level, message }
}

/// A request came with a token that is not the user's.
pub open spec fn user_not_authorized(user_name: Seq<char>) -> Line {
    Line { level: LogLevel::Warn, message: "Wrong token for user "@ + user_name }
}

/// Builds the record that says: a request came with a token that is not the user's.
pub fn log_user_not_authorized(user_name: &str) -> (r: LogRecord)
    ensures
        r@ == user_not_authorized(user_name@),
{
    let mut message = String::from_str("Wrong token for user ");
    message.append(user_name);
    record(LogLevel::Warn, message)
}

/// A request named a user who is not logged in.
pub open spec fn user_not_logged_in(user_name: Seq<char>) -> Line {
    Line { level: LogLevel::Warn, message: "User "@ + user_name + " was not logged in"@ }
}

/// Builds the record that says: a request named a user who is not logged in.
pub fn log_user_not_logged_in(user_name: &str) -> (r: LogRecord)
    ensures
        r@ == user_not_logged_in(user_name@),
{
    let mut message = String::from_str("User ");
    message.append(user_name);
    message.append(" was not logged in");
    record(LogLevel::Warn, message)
}

/// A user logged in.
pub open spec fn user_logged_in(user_name: Seq<char>) -> Line {
    Line { level: LogLevel::Info, message: "User "@ + user_name + " logged in"@ }
}

/// Builds the record that says: a user logged in.
pub fn log_user_logged_in(user_name: &str) -> (r: LogRecord)
    ensures
        r@ == user_logged_in(user_name@),
{
    let mut message = String::from_str("User ");
    message.append(user_name);
    message.append(" logged in");
    record(LogLevel::Info, message)
}

/// A user logged out.
pub open spec fn user_logged_out(user_name: Seq<char>) -> Line {
    Line { level: LogLevel::Info, message: "User "@ + user_name + " logged out"@ }
}

/// Builds the record that says: a user logged out.
pub fn log_user_logged_out(user_name: &str) -> (r: LogRecord)
    ensures
        r@ == user_logged_out(user_name@),
{
    let mut message = String::from_str("User ");
    message.append(user_name);
    message.append(" logged out");
    record(LogLevel::Info, message)
}

/// A user was taken out of every room.
pub open spec fn all_rooms_left(user_name: Seq<char>) -> Line {
    Line { level: LogLevel::Info, message: "User "@ + user_name + " left all rooms"@ }
}

/// Builds the record that says: a user was taken out of every room.
pub fn log_all_rooms_left(user_name: &str) -> (r: LogRecord)
    ensures
        r@ == all_rooms_left(user_name@),
{
    let mut message = String::from_str("User ");
    message.append(user_name);
    message.append(" left all rooms");
    record(LogLevel::Info, message)
}

/// A login named a user who is logged in already.
pub open spec fn user_already_logged_in(user_name: Seq<char>) -> Line {
    Line { level: LogLevel::Warn, message: "User "@ + user_name + " already logged in"@ }
}

/// Builds the record that says: a login named a user who is logged in already.
pub fn log_user_already_logged_in(user_name: &str) -> (r: LogRecord)
    ensures
        r@ == user_already_logged_in(user_name@),
{
    let mut message = String::from_str("User ");
    message.append(user_name);
    message.append(" already logged in");
    record(LogLevel::Warn, message)
}

/// A user left a room.
pub open spec fn room_left(room_name: Seq<char>, user_name: Seq<char>) -> Line {
    Line { level: LogLevel::Info, message: "User "@ + user_name + " left room "@ + room_name }
}

/// Builds the record that says: a user left a room.
pub fn log_room_left(room_name: &str, user_name: &str) -> (r: LogRecord)
    ensures
        r@ == room_left(room_name@, user_name@),
{
    let mut message = String::from_str("User ");
    message.append(user_name);
    message.append(" left room ");
    message.append(room_name);
    record(LogLevel::Info, message)
}

/// A room lost its last member and was deleted.
pub open spec fn room_removed(room_name: Seq<char>) -> Line {
    Line { level: LogLevel::Info, message: "Room "@ + room_name + " removed"@ }
}

/// Builds the record that says: a room lost its last member and was deleted.
pub fn log_room_removed(room_name: &str) -> (r: LogRecord)
    ensures
        r@ == room_removed(room_name@),
{
    let mut message = String::from_str("Room ");
    message.append(room_name);
    message.append(" removed");
    record(LogLevel::Info, message)
}

/// A request named a room that does not exist.
pub open spec fn room_does_not_exist(room_name: Seq<char>) -> Line {
    Line { level: LogLevel::Warn, message: "Room "@ + room_name + " does not exist"@ }
}

/// Builds the record that says: a request named a room that does not exist.
pub fn log_room_does_not_exist(room_name: &str) -> (r: LogRecord)
    ensures
        r@ == room_does_not_exist(room_name@),
{
    let mut message = String::from_str("Room ");
    message.append(room_name);
    message.append(" does not exist");
    record(LogLevel::Warn, message)
}

/// A user joined a room of which they are a member already.
pub open spec fn user_already_joined_room(room_name: Seq<char>, user_name: Seq<char>) -> Line {
    Line { level: LogLevel::Warn, message: "User "@ + user_name + " already joined room "@ + room_name }
}

/// Builds the record that says: a user joined a room of which they are a member already.
pub fn log_user_already_joined_room(room_name: &str, user_name: &str) -> (r: LogRecord)
    ensures
        r@ == user_already_joined_room(room_name@, user_name@),
{
    let mut message = String::from_str("User ");
    message.append(user_name);
    message.append(" already joined room ");
    message.append(room_name);
    record(LogLevel::Warn, message)
}

/// A user joined a room that existed.
pub open spec fn room_joined(room_name: Seq<char>, user_name: Seq<char>) -> Line {
    Line { level: LogLevel::Info, message: "User "@ + user_name + " joined room "@ + room_name }
}

/// Builds the record that says: a user joined a room that existed.
pub fn log_room_joined(room_name: &str, user_name: &str) -> (r: LogRecord)
    ensures
        r@ == room_joined(room_name@, user_name@),
{
    let mut message = String::from_str("User ");
    message.append(user_name);
    message.append(" joined room ");
    message.append(room_name);
    record(LogLevel::Info, message)
}

/// A user joined a room that did not exist, which created it.
pub open spec fn user_created_room(user_name: Seq<char>, room_name: Seq<char>) -> Line {
    Line { level: LogLevel::Info, message: "User "@ + user_name + " created room "@ + room_name }
}

/// Builds the record that says: a user joined a room that did not exist, which created it.
pub fn log_user_created_room(user_name: &str, room_name: &str) -> (r: LogRecord)
    ensures
        r@ == user_created_room(user_name@, room_name@),
{
    let mut message = String::from_str("User ");
    message.append(user_name);
    message.append(" created room ");
    message.append(room_name);
    record(LogLevel::Info, message)
}

/// A connection was bound to a user.
pub open spec fn user_connected_to_ws(user_name: Seq<char>) -> Line {
    Line { level: LogLevel::Info, message: "User "@ + user_name + " connected to websocket"@ }
}

/// Builds the record that says: a connection was bound to a user.
pub fn log_user_connected_to_ws(user_name: &str) -> (r: LogRecord)
    ensures
        r@ == user_connected_to_ws(user_name@),
{
    let mut message = String::from_str("User ");
    message.append(user_name);
    message.append(" connected to websocket");
    record(LogLevel::Info, message)
}

/// A connection of a user ended.
pub open spec fn user_disconnected_from_ws(user_name: Seq<char>) -> Line {
    Line { level: LogLevel::Info, message: "User "@ + user_name + " disconnected from websocket"@ }
}

/// Builds the record that says: a connection of a user ended.
pub fn log_user_disconnected_from_ws(user_name: &str) -> (r: LogRecord)
    ensures
        r@ == user_disconnected_from_ws(user_name@),
{
    let mut message = String::from_str("User ");
    message.append(user_name);
    message.append(" disconnected from websocket");
    record(LogLevel::Info, message)
}

/// Reading from a connection failed.
pub open spec fn error_receiving_ws_message(user_name: Seq<char>, e: Seq<char>) -> Line {
    Line { level: LogLevel::Error, message: "Error receiving websocket message for user "@ + user_name + ": "@ + e }
}

/// Builds the record that says: reading from a connection failed.
pub fn log_error_receiving_ws_message(user_name: &str, e: &str) -> (r: LogRecord)
    ensures
        r@ == error_receiving_ws_message(user_name@, e@),
{
    let mut message = String::from_str("Error receiving websocket message for user ");
    message.append(user_name);
    message.append(": ");
    message.append(e);
    record(LogLevel::Error, message)
}

/// Writing to a connection failed.
pub open spec fn error_sending_ws_message(e: Seq<char>) -> Line {
    Line { level: LogLevel::Error, message: "Error sending websocket message: "@ + e }
}

/// Builds the record that says: writing to a connection failed.
pub fn log_error_sending_ws_message(e: &str) -> (r: LogRecord)
    ensures
        r@ == error_sending_ws_message(e@),
{
    let mut message = String::from_str("Error sending websocket message: ");
    message.append(e);
    record(LogLevel::Error, message)
}

/// A connection is being set up.
pub open spec fn initiating_ws_connection() -> Line {
    Line { level: LogLevel::Info, message: "Initiating websocket connection..."@ }
}

/// Builds the record that says: a connection is being set up.
pub fn log_initiating_ws_connection() -> (r: LogRecord)
    ensures
        r@ == initiating_ws_connection(),
{
    let message = String::from_str("Initiating websocket connection...");
    record(LogLevel::Info, message)
}

/// The peer asked to close the connection.
pub open spec fn closing_ws_connection(user_name: Seq<char>) -> Line {
    Line { level: LogLevel::Info, message: "Closing websocket connection for user "@ + user_name + "..."@ }
}

/// Builds the record that says: the peer asked to close the connection.
pub fn log_closing_ws_connection(user_name: &str) -> (r: LogRecord)
    ensures
        r@ == closing_ws_connection(user_name@),
{
    let mut message = String::from_str("Closing websocket connection for user ");
    message.append(user_name);
    message.append("...");
    record(LogLevel::Info, message)
}

/// A text frame did not hold the expected message.
pub open spec fn error_parsing_incoming_message(e: Seq<char>) -> Line {
    Line { level: LogLevel::Error, message: "Error parsing incoming message: "@ + e }
}

/// Builds the record that says: a text frame did not hold the expected message.
pub fn log_error_parsing_incoming_message(e: &str) -> (r: LogRecord)
    ensures
        r@ == error_parsing_incoming_message(e@),
{
    let mut message = String::from_str("Error parsing incoming message: ");
    message.append(e);
    record(LogLevel::Error, message)
}

/// A connection got an identifier that another connection of the user has.
pub open spec fn connection_id_in_use(user_name: Seq<char>) -> Line {
    Line {
        level: LogLevel::Error,
        message: "Connection identifier in use for user "@ + user_name,
    }
}

/// Builds the record that says: a connection got an identifier that another
/// connection of the user has.
pub fn log_connection_id_in_use(user_name: &str) -> (r: LogRecord)
    ensures
        r@ == connection_id_in_use(user_name@),
{
    let mut message = String::from_str("Connection identifier in use for user ");
    message.append(user_name);
    record(LogLevel::Error, message)
}

/// A frame came that holds no text.
pub open spec fn received_ws_message_not_str(msg: Frame) -> Line {
    Line {
        level: LogLevel::Warn,
        message: "Received websocket message that is not a string: "@ + kind_name(msg),
    }
}

/// Builds the record that says: a frame came that holds no text.
pub fn log_received_ws_message_not_str(msg: &Frame) -> (r: LogRecord)
    ensures
        r@ == received_ws_message_not_str(*msg),
{
    let mut message = String::from_str("Received websocket message that is not a string: ");
    message.append(msg.kind());
    record(LogLevel::Warn, message)
}

} // verus!
