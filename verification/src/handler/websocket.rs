//! Connections: the first frame that binds one to a user, the delivery of
//! messages to the members of a room, and the end of a connection.

use vstd::prelude::*;
use vstd::string::*;
use crate::handler::user::{check_credentials, credentials, valid, AuthRequest, Credentials};
use crate::helper::{
    closing_ws_connection, connection_id_in_use, error_parsing_incoming_message,
    error_receiving_ws_message, error_sending_ws_message, initiating_ws_connection, lines,
    log_closing_ws_connection, log_connection_id_in_use, log_error_parsing_incoming_message,
    log_error_receiving_ws_message, log_error_sending_ws_message, log_initiating_ws_connection,
    log_received_ws_message_not_str, log_room_does_not_exist, log_user_connected_to_ws,
    log_user_disconnected_from_ws, log_user_not_authorized, log_user_not_logged_in, note, noted,
    received_ws_message_not_str, room_does_not_exist, silent, user_connected_to_ws,
    user_disconnected_from_ws, user_not_authorized, user_not_logged_in, Line, LogRecord, Logged,
};
use crate::json::{quote, read_two_members, reason, string_literal, two_members, DecodeError};
use crate::model::{Identity, Memberships, Room, RoomMap, Sessions, UserMap};
use crate::table::{lemma_push_distinct, lemma_take_fresh, lemma_take_step, texts};
use crate::token::{fresh_identifier, is_identifier};

verus! {

/// One frame as the transport hands it over: text, or one of the kinds that
/// carry no text.
#[derive(Debug)]
pub enum Frame {
    Text(String),
    Binary,
    Ping,
    Pong,
    Close,
}

/// The name of a frame's kind.
pub open spec fn kind_name(frame: Frame) -> Seq<char> {
    match frame {
        Frame::Text(_) => "Text"@,
        Frame::Binary => "Binary"@,
        Frame::Ping => "Ping"@,
        Frame::Pong => "Pong"@,
        Frame::Close => "Close"@,
    }
}

impl Frame {
    /// The name of the frame's kind.
    pub fn kind(&self) -> (name: &'static str)
        ensures
            name@ == kind_name(*self),
    {
        match self {
            Frame::Text(_) => "Text",
            Frame::Binary => "Binary",
            Frame::Ping => "Ping",
            Frame::Pong => "Pong",
            Frame::Close => "Close",
        }
    }
}

/// What happened on a connection: a frame came, reading or writing failed
/// (with the transport's words for it), or the peer is gone.
#[derive(Debug)]
pub enum Event {
    Frame(Frame),
    ReadFailed(String),
    WriteFailed(String),
    Finished,
}

/// A message that a client publishes to a room.
pub struct IncomingMessage {
    pub room_name: String,
    pub message: String,
}

/// A message as the members of a room receive it.
pub struct OutgoingMessage {
    pub user_name: String,
    pub room_name: String,
    pub message: String,
}

/// What the server pushes to a connection: the kind of the content, and the
/// content.
pub struct OutgoingCommunication {
    pub communication_type: String,
    pub content: CommunicationContent,
}

/// The content of what the server pushes.
pub enum CommunicationContent {
    OutgoingMessage(OutgoingMessage),
}

/// The JSON object of a message, made of the string literals of its parts.
pub open spec fn message_object(
    user_literal: Seq<char>,
    room_literal: Seq<char>,
    message_literal: Seq<char>,
) -> Seq<char> {
    "{\"userName\":"@ + user_literal + ",\"roomName\":"@ + room_literal + ",\"message\":"@
        + message_literal + "}"@
}

/// The JSON object of a communication, made of the string literal of its
/// kind and the JSON text of its content.
pub open spec fn communication_object(type_literal: Seq<char>, content: Seq<char>) -> Seq<char> {
    "{\"type\":"@ + type_literal + ",\"content\":"@ + content + "}"@
}

/// The JSON text that a member receives for `text`, sent by `sender` to
/// `room_name`.
pub open spec fn envelope(sender: Seq<char>, room_name: Seq<char>, text: Seq<char>) -> Seq<char> {
    communication_object(
        string_literal("message"@),
        message_object(string_literal(sender), string_literal(room_name), string_literal(text)),
    )
}

/// Writes the JSON object of a message from the string literals of its parts.
pub fn frame_message(user_literal: &str, room_literal: &str, message_literal: &str) -> (json: String)
    ensures
        json@ == message_object(user_literal@, room_literal@, message_literal@),
{
    let mut json = String::from_str("{\"userName\":");
    json.append(user_literal);
    json.append(",\"roomName\":");
    json.append(room_literal);
    json.append(",\"message\":");
    json.append(message_literal);
    json.append("}");
    json
}

/// Writes the JSON object of a communication from the string literal of its
/// kind and the JSON text of its content.
pub fn frame_communication(type_literal: &str, content: &str) -> (json: String)
    ensures
        json@ == communication_object(type_literal@, content@),
{
    let mut json = String::from_str("{\"type\":");
    json.append(type_literal);
    json.append(",\"content\":");
    json.append(content);
    json.append("}");
    json
}

impl OutgoingMessage {
    /// The JSON text of the message.
    pub open spec fn json(&self) -> Seq<char> {
        message_object(
            string_literal(self.user_name@),
            string_literal(self.room_name@),
            string_literal(self.message@),
        )
    }

    /// Writes the message as JSON.
    pub fn to_json(&self) -> (json: String)
        ensures
            json@ == self.json(),
    {
        let user = quote(self.user_name.as_str());
        let room = quote(self.room_name.as_str());
        let message = quote(self.message.as_str());
        frame_message(user.as_str(), room.as_str(), message.as_str())
    }
}

impl CommunicationContent {
    /// The JSON text of the content.
    pub open spec fn json(&self) -> Seq<char> {
        match self {
            CommunicationContent::OutgoingMessage(message) => message.json(),
        }
    }

    /// Writes the content as JSON.
    pub fn to_json(&self) -> (json: String)
        ensures
            json@ == self.json(),
    {
        match self {
            CommunicationContent::OutgoingMessage(message) => message.to_json(),
        }
    }
}

impl OutgoingCommunication {
    /// The JSON text of the communication.
    pub open spec fn json(&self) -> Seq<char> {
        communication_object(string_literal(self.communication_type@), self.content.json())
    }

    /// The communication that carries `text`, sent by `sender` to `room_name`.
    pub fn message(sender: &str, room_name: &str, text: &str) -> (out: OutgoingCommunication)
        ensures
            out.communication_type@ == "message"@,
            out.content matches CommunicationContent::OutgoingMessage(m) && m.user_name@ == sender@
                && m.room_name@ == room_name@ && m.message@ == text@,
            out.json() == envelope(sender@, room_name@, text@),
    {
        OutgoingCommunication {
            communication_type: String::from_str("message"),
            content: CommunicationContent::OutgoingMessage(
                OutgoingMessage {
                    user_name: String::from_str(sender),
                    room_name: String::from_str(room_name),
                    message: String::from_str(text),
                },
            ),
        }
    }

    /// Writes the communication as JSON.
    pub fn to_json(&self) -> (json: String)
        ensures
            json@ == self.json(),
    {
        let kind = quote(self.communication_type.as_str());
        let content = self.content.to_json();
        frame_communication(kind.as_str(), content.as_str())
    }
}

impl AuthRequest {
    /// Reads the first frame of a connection: a JSON object with the string
    /// members `username` and `token`.
    pub fn from_json(text: &str) -> (found: Result<AuthRequest, DecodeError>)
        ensures
            match found {
                Ok(auth) => two_members(text@, "username"@, "token"@) == Ok::<
                    (Seq<char>, Seq<char>),
                    DecodeError,
                >((auth.user_name@, auth.token@)),
                Err(e) => two_members(text@, "username"@, "token"@) == Err::<
                    (Seq<char>, Seq<char>),
                    DecodeError,
                >(e),
            },
    {
        match read_two_members(text, "username", "token") {
            Ok(pair) => Ok(AuthRequest { user_name: pair.0, token: pair.1 }),
            Err(e) => Err(e),
        }
    }
}

impl IncomingMessage {
    /// Reads a published message: a JSON object with the string members
    /// `roomName` and `message`.
    pub fn from_json(text: &str) -> (found: Result<IncomingMessage, DecodeError>)
        ensures
            match found {
                Ok(incoming) => two_members(text@, "roomName"@, "message"@) == Ok::<
                    (Seq<char>, Seq<char>),
                    DecodeError,
                >((incoming.room_name@, incoming.message@)),
                Err(e) => two_members(text@, "roomName"@, "message"@) == Err::<
                    (Seq<char>, Seq<char>),
                    DecodeError,
                >(e),
            },
    {
        match read_two_members(text, "roomName", "message") {
            Ok(pair) => Ok(IncomingMessage { room_name: pair.0, message: pair.1 }),
            Err(e) => Err(e),
        }
    }
}

/// The user that a first event binds the connection to, if it does: the
/// event is a text frame that holds a user name and the token of that user's
/// login.
pub open spec fn handshake(first: Event, users: Sessions) -> Option<Seq<char>> {
    match first {
        Event::Frame(Frame::Text(text)) => match two_members(text@, "username"@, "token"@) {
            Ok(pair) => if valid(users, pair.0, pair.1) {
                Some(pair.0)
            } else {
                None
            },
            Err(_) => None,
        },
        _ => None,
    }
}

/// The records of the handshake on a first event.
pub open spec fn handshake_lines(first: Event, users: Sessions) -> Seq<Line> {
    match first {
        Event::Frame(Frame::Text(text)) => match two_members(text@, "username"@, "token"@) {
            Ok(pair) => match credentials(users, pair.0, pair.1) {
                Credentials::Valid => seq![],
                Credentials::WrongToken => seq![user_not_authorized(pair.0)],
                Credentials::NotLoggedIn => seq![user_not_logged_in(pair.0)],
            },
            Err(e) => seq![error_parsing_incoming_message(reason(e))],
        },
        Event::Frame(frame) => seq![received_ws_message_not_str(frame)],
        Event::ReadFailed(e) => seq![error_receiving_ws_message("unknown"@, e@)],
        Event::WriteFailed(e) => seq![error_sending_ws_message(e@)],
        Event::Finished => seq![],
    }
}

/// Checks the credentials that a first frame has brought. Reads the state
/// only.
pub fn authenticate(auth: AuthRequest, logged_users: &UserMap) -> (found: Logged<Option<String>>)
    ensures
        found.value is Some <==> valid(logged_users@, auth.user_name@, auth.token@),
        found.value matches Some(user_name) ==> user_name@ == auth.user_name@,
        lines(found.log@) == match credentials(logged_users@, auth.user_name@, auth.token@) {
            Credentials::Valid => Seq::<Line>::empty(),
            Credentials::WrongToken => seq![user_not_authorized(auth.user_name@)],
            Credentials::NotLoggedIn => seq![user_not_logged_in(auth.user_name@)],
        },
{
    match check_credentials(auth.user_name.as_str(), auth.token.as_str(), logged_users) {
        Credentials::Valid => silent(Some(auth.user_name)),
        Credentials::WrongToken => noted(None, log_user_not_authorized(auth.user_name.as_str())),
        Credentials::NotLoggedIn => noted(None, log_user_not_logged_in(auth.user_name.as_str())),
    }
}

/// Decides from the first event of a connection which user it belongs to.
/// Anything but a text frame with a user name and that user's token binds
/// the connection to nobody. Reads the state only.
pub fn get_username_from_first_message(first: &Event, logged_users: &UserMap) -> (found: Logged<
    Option<String>,
>)
    ensures
        found.value is Some <==> handshake(*first, logged_users@) is Some,
        found.value matches Some(user_name) ==> handshake(*first, logged_users@) == Some(
            user_name@,
        ),
        lines(found.log@) == handshake_lines(*first, logged_users@),
{
    match first {
        Event::Frame(Frame::Text(text)) => match AuthRequest::from_json(text.as_str()) {
            Ok(auth) => authenticate(auth, logged_users),
            Err(e) => noted(None, log_error_parsing_incoming_message(e.describe())),
        },
        Event::Frame(frame) => noted(None, log_received_ws_message_not_str(frame)),
        Event::ReadFailed(e) => noted(None, log_error_receiving_ws_message("unknown", e.as_str())),
        Event::WriteFailed(e) => noted(None, log_error_sending_ws_message(e.as_str())),
        Event::Finished => silent(None),
    }
}

/// One connection of one user: where a message is delivered.
#[derive(Debug)]
pub struct Recipient {
    pub user_name: String,
    pub connection_id: String,
}

impl View for Recipient {
    type V = (Seq<char>, Seq<char>);

    open spec fn view(&self) -> (Seq<char>, Seq<char>) {
        (self.user_name@, self.connection_id@)
    }
}

/// The connections of a list of recipients, as pairs of user name and
/// connection identifier.
pub open spec fn targets(recipients: Seq<Recipient>) -> Seq<(Seq<char>, Seq<char>)> {
    recipients.map_values(|r: Recipient| r@)
}

/// A text with the connections that it goes to.
#[derive(Debug)]
pub struct Dispatch {
    pub payload: String,
    pub recipients: Vec<Recipient>,
}

/// The open connections of the members of a room: every connection of every
/// member who is logged in. Where the sender is a member, the sender's own
/// connections are among them, the one that the message came on too.
pub open spec fn receivers(users: Sessions, members: Set<Seq<char>>) -> Set<(Seq<char>, Seq<char>)> {
    Set::new(
        |p: (Seq<char>, Seq<char>)|
            members.contains(p.0) && users.contains_key(p.0) && users[p.0].channels.contains(p.1),
    )
}

/// The connection `p` belongs to one of the first `upto` members.
spec fn reached(
    users: Sessions,
    members: Seq<Seq<char>>,
    upto: int,
    p: (Seq<char>, Seq<char>),
) -> bool {
    members.take(upto).contains(p.0) && users.contains_key(p.0) && users[p.0].channels.contains(
        p.1,
    )
}

/// Lists the open connections of a room's members, each once.
pub fn recipients_of(room: &Room, logged_users: &UserMap) -> (list: Vec<Recipient>)
    ensures
        targets(list@).no_duplicates(),
        targets(list@).to_set() == receivers(logged_users@, room@),
{
    let members = room.users.as_vec();
    let mut list: Vec<Recipient> = Vec::new();
    let mut i: usize = 0;
    while i < members.len()
        invariant
            i <= members.len(),
            texts(members@).no_duplicates(),
            targets(list@).no_duplicates(),
            forall|p: (Seq<char>, Seq<char>)| #[trigger]
                targets(list@).contains(p) <==> reached(
                    logged_users@,
                    texts(members@),
                    i as int,
                    p,
                ),
        decreases members.len() - i,
    {
        let member = &members[i];
        proof {
            lemma_take_step(texts(members@), i as int);
            lemma_take_fresh(texts(members@), i as int);
        }
        match logged_users.get(member.as_str()) {
            Some(user) => {
                let ids = user.sender.as_vec();
                let mut k: usize = 0;
                while k < ids.len()
                    invariant
                        k <= ids.len(),
                        texts(ids@).no_duplicates(),
                        targets(list@).no_duplicates(),
                        !texts(members@).take(i as int).contains(member@),
                        forall|p: (Seq<char>, Seq<char>)| #[trigger]
                            targets(list@).contains(p) <==> reached(
                                logged_users@,
                                texts(members@),
                                i as int,
                                p,
                            ) || (p.0 == member@ && texts(ids@).take(k as int).contains(p.1)),
                    decreases ids.len() - k,
                {
                    let recipient = Recipient {
                        user_name: member.clone(),
                        connection_id: ids[k].clone(),
                    };
                    proof {
                        lemma_take_step(texts(ids@), k as int);
                        lemma_take_fresh(texts(ids@), k as int);
                        lemma_push_distinct(targets(list@), recipient@);
                        assert(targets(list@.push(recipient)) =~= targets(list@).push(recipient@));
                        assert forall|p: (Seq<char>, Seq<char>)| #[trigger]
                            targets(list@).push(recipient@).contains(p) <==> targets(
                                list@,
                            ).contains(p) || p == recipient@ by {
                            assert(targets(list@).push(recipient@).to_set().contains(p)
                                <==> targets(list@).to_set().insert(recipient@).contains(p));
                        }
                    }
                    list.push(recipient);
                    k += 1;
                }
                proof {
                    assert(texts(ids@).take(ids@.len() as int) =~= texts(ids@));
                }
            },
            None => {},
        }
        i += 1;
    }
    proof {
        assert(texts(members@).take(members@.len() as int) =~= texts(members@));
    }
    list
}

/// What the delivery of `text`, sent by `sender` to `room_name`, gives: with
/// the room, the text in its envelope for each open connection of each
/// member, once; without the room, nothing but a record.
pub open spec fn delivered(
    sender: Seq<char>,
    room_name: Seq<char>,
    text: Seq<char>,
    users: Sessions,
    rooms: Memberships,
    dispatch: Option<Dispatch>,
    log: Seq<LogRecord>,
) -> bool {
    if rooms.contains_key(room_name) {
        &&& dispatch matches Some(d)
        &&& d.payload@ == envelope(sender, room_name, text)
        &&& targets(d.recipients@).no_duplicates()
        &&& targets(d.recipients@).to_set() == receivers(users, rooms[room_name])
        &&& lines(log) == Seq::<Line>::empty()
    } else {
        &&& dispatch is None
        &&& lines(log) == seq![room_does_not_exist(room_name)]
    }
}

/// Delivers a published message to the room it names: to every open
/// connection of every member. A sender who is a member receives the message
/// too, on the connection that it came on as on any other; a sender who is
/// no member reaches the members all the same. Reads the state only.
pub fn deliver(
    user_name: &str,
    incoming: &IncomingMessage,
    logged_users: &UserMap,
    rooms: &RoomMap,
) -> (out: Logged<Option<Dispatch>>)
    ensures
        delivered(
            user_name@,
            incoming.room_name@,
            incoming.message@,
            logged_users@,
            rooms@,
            out.value,
            out.log@,
        ),
{
    match rooms.get(incoming.room_name.as_str()) {
        Some(room) => {
            let recipients = recipients_of(room, logged_users);
            let payload = OutgoingCommunication::message(
                user_name,
                incoming.room_name.as_str(),
                incoming.message.as_str(),
            ).to_json();
            silent(Some(Dispatch { payload, recipients }))
        },
        None => noted(None, log_room_does_not_exist(incoming.room_name.as_str())),
    }
}

/// What a frame from `user_name` gives: a text frame that holds a message is
/// delivered; any other frame gives a record and nothing else.
pub open spec fn relayed(
    user_name: Seq<char>,
    msg: Frame,
    users: Sessions,
    rooms: Memberships,
    dispatch: Option<Dispatch>,
    log: Seq<LogRecord>,
) -> bool {
    match msg {
        Frame::Text(text) => match two_members(text@, "roomName"@, "message"@) {
            Ok(pair) => delivered(user_name, pair.0, pair.1, users, rooms, dispatch, log),
            Err(e) => dispatch is None && lines(log) == seq![
                error_parsing_incoming_message(reason(e)),
            ],
        },
        Frame::Close => dispatch is None && lines(log) == seq![closing_ws_connection(user_name)],
        _ => dispatch is None && lines(log) == seq![received_ws_message_not_str(msg)],
    }
}

/// Handles one frame of a connection that is bound to `user_name`. Reads the
/// state only.
pub fn send_message_to_the_room(
    user_name: &str,
    msg: &Frame,
    logged_users: &UserMap,
    rooms: &RoomMap,
) -> (out: Logged<Option<Dispatch>>)
    ensures
        relayed(user_name@, *msg, logged_users@, rooms@, out.value, out.log@),
{
    match msg {
        Frame::Text(text) => match IncomingMessage::from_json(text.as_str()) {
            Ok(incoming) => deliver(user_name, &incoming, logged_users, rooms),
            Err(e) => noted(None, log_error_parsing_incoming_message(e.describe())),
        },
        Frame::Close => noted(None, log_closing_ws_connection(user_name)),
        _ => noted(None, log_received_ws_message_not_str(msg)),
    }
}

/// The users after the connection `connection_id` has been opened for
/// `user_name`: nothing changes for a user who is not logged in.
pub open spec fn registered(users: Sessions, user_name: Seq<char>, connection_id: Seq<char>) -> Sessions {
    if users.contains_key(user_name) {
        users.insert(
            user_name,
            Identity {
                token: users[user_name].token,
                channels: users[user_name].channels.insert(connection_id),
            },
        )
    } else {
        users
    }
}

/// The users after the connection `connection_id` of `user_name` has ended:
/// nothing changes for a user who is not logged in.
pub open spec fn unregistered(users: Sessions, user_name: Seq<char>, connection_id: Seq<char>) -> Sessions {
    if users.contains_key(user_name) {
        users.insert(
            user_name,
            Identity {
                token: users[user_name].token,
                channels: users[user_name].channels.remove(connection_id),
            },
        )
    } else {
        users
    }
}

/// The connection `connection_id` is among those of `user_name`.
pub open spec fn is_open(users: Sessions, user_name: Seq<char>, connection_id: Seq<char>) -> bool {
    users.contains_key(user_name) && users[user_name].channels.contains(connection_id)
}

/// The record of a connection that is to be added to a user's: it says so,
/// or that the user is not logged in.
pub open spec fn connect_line(users: Sessions, user_name: Seq<char>) -> Line {
    if users.contains_key(user_name) {
        user_connected_to_ws(user_name)
    } else {
        user_not_logged_in(user_name)
    }
}

/// The record of a connection that is to be taken from a user's: it says
/// so, or that the user is not logged in.
pub open spec fn disconnect_line(users: Sessions, user_name: Seq<char>) -> Line {
    if users.contains_key(user_name) {
        user_disconnected_from_ws(user_name)
    } else {
        user_not_logged_in(user_name)
    }
}

/// Adds a connection to those of a user. Nothing changes when the user is
/// not logged in, and the record says so.
pub fn register_connection(user_name: &str, connection_id: &str, logged_users: &mut UserMap) -> (record:
    LogRecord)
    ensures
        final(logged_users)@ == registered(old(logged_users)@, user_name@, connection_id@),
        record@ == connect_line(old(logged_users)@, user_name@),
{
    match logged_users.take(user_name) {
        Some(mut user) => {
            user.sender.insert(String::from_str(connection_id));
            logged_users.put(user);
            log_user_connected_to_ws(user_name)
        },
        None => log_user_not_logged_in(user_name),
    }
}

/// Takes a connection from those of a user; the user's other connections
/// and the login stay. Nothing changes when the user is not logged in, and
/// the record says so.
pub fn unregister_connection(user_name: &str, connection_id: &str, logged_users: &mut UserMap) -> (record:
    LogRecord)
    ensures
        final(logged_users)@ == unregistered(old(logged_users)@, user_name@, connection_id@),
        is_open(old(logged_users)@, user_name@, connection_id@)
            ==> final(logged_users)@[user_name@].channels.len()
            == old(logged_users)@[user_name@].channels.len() - 1,
        record@ == disconnect_line(old(logged_users)@, user_name@),
{
    proof {
        logged_users.lemma_finite();
    }
    match logged_users.take(user_name) {
        Some(mut user) => {
            user.sender.remove(connection_id);
            logged_users.put(user);
            log_user_disconnected_from_ws(user_name)
        },
        None => log_user_not_logged_in(user_name),
    }
}

/// The state of one connection.
#[derive(Debug)]
pub enum Connection {
    /// Open; the frame that says whose it is has not come yet.
    Unauthenticated,
    /// Bound to a user, under an identifier of its own.
    Authenticated { user_name: String, connection_id: String },
    /// Ended.
    Closed,
}

/// The state of one connection as the contracts speak of it.
pub enum ConnectionView {
    Unauthenticated,
    Authenticated { user_name: Seq<char>, connection_id: Seq<char> },
    Closed,
}

impl View for Connection {
    type V = ConnectionView;

    open spec fn view(&self) -> ConnectionView {
        match self {
            Connection::Unauthenticated => ConnectionView::Unauthenticated,
            Connection::Authenticated { user_name, connection_id } => ConnectionView::Authenticated {
                user_name: user_name@,
                connection_id: connection_id@,
            },
            Connection::Closed => ConnectionView::Closed,
        }
    }
}

/// What one event does to a connection: its next state, what is to be
/// delivered, and the records.
#[derive(Debug)]
pub struct Step {
    pub next: Connection,
    pub dispatch: Option<Dispatch>,
    pub log: Vec<LogRecord>,
}

/// Begins a connection: it is open, and bound to nobody until its first
/// frame has come.
pub fn streaming_handler() -> (start: Logged<Connection>)
    ensures
        start.value@ == ConnectionView::Unauthenticated,
        lines(start.log@) == seq![initiating_ws_connection()],
{
    noted(Connection::Unauthenticated, log_initiating_ws_connection())
}

/// A connection can be bound to `user_name` under `connection_id`: the user
/// is logged in and has no connection of that identifier.
pub open spec fn can_bind(users: Sessions, user_name: Seq<char>, connection_id: Seq<char>) -> bool {
    users.contains_key(user_name) && !users[user_name].channels.contains(connection_id)
}

/// The record of an attempt to bind a connection.
pub open spec fn bind_line(users: Sessions, user_name: Seq<char>, connection_id: Seq<char>) -> Line {
    if !users.contains_key(user_name) {
        user_not_logged_in(user_name)
    } else if users[user_name].channels.contains(connection_id) {
        connection_id_in_use(user_name)
    } else {
        user_connected_to_ws(user_name)
    }
}

/// An attempt to bind a connection to `user_name` under `connection_id`,
/// after the records in `first`. Where the user is logged in and the
/// identifier is new among the user's connections, the connection is added
/// to them. Else it is closed, and the state stays as it was.
pub open spec fn binds(
    first: Seq<Line>,
    user_name: Seq<char>,
    connection_id: Seq<char>,
    before: Sessions,
    after: Sessions,
    step: Step,
) -> bool {
    &&& step.dispatch is None
    &&& lines(step.log@) == first.push(bind_line(before, user_name, connection_id))
    &&& if can_bind(before, user_name, connection_id) {
        &&& step.next@ == (ConnectionView::Authenticated { user_name, connection_id })
        &&& after == registered(before, user_name, connection_id)
    } else {
        &&& step.next@ == ConnectionView::Closed
        &&& after == before
    }
}

/// The first event of a connection. Where it holds valid credentials, the
/// connection is bound to their user under a fresh identifier. Where it does
/// not, the connection is closed and the state stays as it was.
pub open spec fn opens(first: Event, before: Sessions, after: Sessions, step: Step) -> bool {
    match handshake(first, before) {
        Some(user_name) => exists|connection_id: Seq<char>|
            is_identifier(connection_id) && #[trigger] binds(
                handshake_lines(first, before),
                user_name,
                connection_id,
                before,
                after,
                step,
            ),
        None => {
            &&& step.next@ == ConnectionView::Closed
            &&& step.dispatch is None
            &&& after == before
            &&& lines(step.log@) == handshake_lines(first, before).push(
                error_receiving_ws_message("unknown"@, "no message received"@),
            )
        },
    }
}

/// The end of the connection `connection_id` of `user_name`: it leaves the
/// user's connections, and nothing else changes.
pub open spec fn closes(
    first: Seq<Line>,
    user_name: Seq<char>,
    connection_id: Seq<char>,
    before: Sessions,
    after: Sessions,
    step: Step,
) -> bool {
    &&& step.next@ == ConnectionView::Closed
    &&& step.dispatch is None
    &&& after == unregistered(before, user_name, connection_id)
    &&& lines(step.log@) == first.push(disconnect_line(before, user_name))
}

/// An event on the connection `connection_id` of `user_name`. A frame other
/// than a close frame leaves the connection and the state as they are, and a
/// text frame that holds a message is delivered. A close frame, a failure or
/// the end of the stream ends the connection.
pub open spec fn proceeds(
    user_name: Seq<char>,
    connection_id: Seq<char>,
    event: Event,
    before: Sessions,
    after: Sessions,
    rooms: Memberships,
    step: Step,
) -> bool {
    match event {
        Event::Frame(Frame::Close) => closes(
            seq![closing_ws_connection(user_name)],
            user_name,
            connection_id,
            before,
            after,
            step,
        ),
        Event::Frame(frame) => {
            &&& step.next@ == (ConnectionView::Authenticated { user_name, connection_id })
            &&& after == before
            &&& relayed(user_name, frame, before, rooms, step.dispatch, step.log@)
        },
        Event::ReadFailed(e) => closes(
            seq![error_receiving_ws_message(user_name, e@)],
            user_name,
            connection_id,
            before,
            after,
            step,
        ),
        Event::WriteFailed(e) => closes(
            seq![error_sending_ws_message(e@)],
            user_name,
            connection_id,
            before,
            after,
            step,
        ),
        Event::Finished => closes(seq![], user_name, connection_id, before, after, step),
    }
}

/// Binds a connection to `user_name` under `connection_id`, with the records
/// in `log` ahead of its own. The connection is closed instead when the user
/// is not logged in, or has a connection of that identifier already.
pub fn bind_connection(
    user_name: String,
    connection_id: String,
    log: Vec<LogRecord>,
    logged_users: &mut UserMap,
) -> (step: Step)
    ensures
        binds(
            lines(log@),
            user_name@,
            connection_id@,
            old(logged_users)@,
            final(logged_users)@,
            step,
        ),
{
    let mut log = log;
    let in_use = match logged_users.get(user_name.as_str()) {
        Some(user) => Some(user.sender.contains(connection_id.as_str())),
        None => None,
    };
    match in_use {
        Some(false) => {
            let record = register_connection(
                user_name.as_str(),
                connection_id.as_str(),
                logged_users,
            );
            note(&mut log, record);
            Step {
                next: Connection::Authenticated { user_name, connection_id },
                dispatch: None,
                log,
            }
        },
        Some(true) => {
            note(&mut log, log_connection_id_in_use(user_name.as_str()));
            Step { next: Connection::Closed, dispatch: None, log }
        },
        None => {
            note(&mut log, log_user_not_logged_in(user_name.as_str()));
            Step { next: Connection::Closed, dispatch: None, log }
        },
    }
}

/// Handles the first event of a connection.
pub fn open_connection(first: &Event, logged_users: &mut UserMap) -> (step: Step)
    ensures
        opens(*first, old(logged_users)@, final(logged_users)@, step),
{
    let found = get_username_from_first_message(first, logged_users);
    match found.value {
        Some(user_name) => {
            let connection_id = fresh_identifier();
            let ghost fresh = connection_id@;
            let step = bind_connection(user_name, connection_id, found.log, logged_users);
            assert(binds(
                handshake_lines(*first, old(logged_users)@),
                handshake(*first, old(logged_users)@)->0,
                fresh,
                old(logged_users)@,
                logged_users@,
                step,
            ));
            step
        },
        None => {
            let mut log = found.log;
            note(&mut log, log_error_receiving_ws_message("unknown", "no message received"));
            Step { next: Connection::Closed, dispatch: None, log }
        },
    }
}

/// Ends the connection `connection_id` of `user_name`, with the records in
/// `log` ahead of its own.
pub fn close_connection(
    user_name: &str,
    connection_id: &str,
    log: Vec<LogRecord>,
    logged_users: &mut UserMap,
) -> (step: Step)
    ensures
        closes(
            lines(log@),
            user_name@,
            connection_id@,
            old(logged_users)@,
            final(logged_users)@,
            step,
        ),
{
    let mut log = log;
    let record = unregister_connection(user_name, connection_id, logged_users);
    note(&mut log, record);
    Step { next: Connection::Closed, dispatch: None, log }
}

/// Handles an event on a connection that is bound to a user.
pub fn continue_connection(
    user_name: String,
    connection_id: String,
    event: &Event,
    logged_users: &mut UserMap,
    rooms: &RoomMap,
) -> (step: Step)
    ensures
        proceeds(
            user_name@,
            connection_id@,
            *event,
            old(logged_users)@,
            final(logged_users)@,
            rooms@,
            step,
        ),
{
    match event {
        Event::Frame(Frame::Close) => {
            let log = noted((), log_closing_ws_connection(user_name.as_str())).log;
            close_connection(user_name.as_str(), connection_id.as_str(), log, logged_users)
        },
        Event::Frame(frame) => {
            let out = send_message_to_the_room(user_name.as_str(), frame, logged_users, rooms);
            Step {
                next: Connection::Authenticated { user_name, connection_id },
                dispatch: out.value,
                log: out.log,
            }
        },
        Event::ReadFailed(e) => {
            let log = noted(
                (),
                log_error_receiving_ws_message(user_name.as_str(), e.as_str()),
            ).log;
            close_connection(user_name.as_str(), connection_id.as_str(), log, logged_users)
        },
        Event::WriteFailed(e) => {
            let log = noted((), log_error_sending_ws_message(e.as_str())).log;
            close_connection(user_name.as_str(), connection_id.as_str(), log, logged_users)
        },
        Event::Finished => {
            let log = silent(()).log;
            close_connection(user_name.as_str(), connection_id.as_str(), log, logged_users)
        },
    }
}

/// One step of a connection: the state it is in and the event that came
/// give its next state, the change of the logged-in users, and what is to be
/// delivered. A closed connection stays closed, and nothing changes.
pub fn user_connection(
    state: Connection,
    event: &Event,
    logged_users: &mut UserMap,
    rooms: &RoomMap,
) -> (step: Step)
    ensures
        match state {
            Connection::Unauthenticated => opens(
                *event,
                old(logged_users)@,
                final(logged_users)@,
                step,
            ),
            Connection::Authenticated { user_name, connection_id } => proceeds(
                user_name@,
                connection_id@,
                *event,
                old(logged_users)@,
                final(logged_users)@,
                rooms@,
                step,
            ),
            Connection::Closed => {
                &&& step.next@ == ConnectionView::Closed
                &&& step.dispatch is None
                &&& final(logged_users)@ == old(logged_users)@
                &&& lines(step.log@) == Seq::<Line>::empty()
            },
        },
{
    match state {
        Connection::Unauthenticated => open_connection(event, logged_users),
        Connection::Authenticated { user_name, connection_id } => continue_connection(
            user_name,
            connection_id,
            event,
            logged_users,
            rooms,
        ),
        Connection::Closed => {
            let log = silent(()).log;
            Step { next: Connection::Closed, dispatch: None, log }
        },
    }
}

} // verus!
