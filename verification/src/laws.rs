//! What holds of the operations together, proved from their definitions.

use vstd::prelude::*;
use crate::handler::room::{joined, left, left_all, members, rooms_after_join, rooms_after_leave};
use crate::handler::user::{
    credentials, orphaned_by_logout, rooms_after_logout, status_of, users_after_login,
    users_after_logout, valid,
};
use crate::handler::websocket::{
    delivered, handshake, is_open, opens, proceeds, receivers, registered, targets, unregistered,
    ConnectionView, Dispatch, Event, Frame, Step,
};
use crate::handler::Status;
use crate::helper::LogRecord;
use crate::json::{two_members, DecodeError};
use crate::model::{members_logged_in, Memberships, Sessions};
use crate::token::is_identifier;

verus! {

/// A second login of a user who has not logged out in between is refused:
/// the user is found logged in, the state stays as the first login left it,
/// and every token that was valid stays valid, the token of the first login
/// among them.
pub proof fn second_login_is_refused(
    users: Sessions,
    user_name: Seq<char>,
    first: Seq<char>,
    second: Seq<char>,
)
    ensures
        users_after_login(users, user_name, first).contains_key(user_name),
        users_after_login(users_after_login(users, user_name, first), user_name, second)
            == users_after_login(users, user_name, first),
        !users.contains_key(user_name) ==> valid(
            users_after_login(users_after_login(users, user_name, first), user_name, second),
            user_name,
            first,
        ),
        forall|token: Seq<char>|
            valid(users_after_login(users, user_name, first), user_name, token) ==> valid(
                users_after_login(users_after_login(users, user_name, first), user_name, second),
                user_name,
                token,
            ),
{
}

/// Joining a room a second time changes nothing: the rooms are as the first
/// join left them, and the room has as many members as it had then.
pub proof fn repeated_join_changes_nothing(
    rooms: Memberships,
    user_name: Seq<char>,
    room_name: Seq<char>,
)
    ensures
        joined(rooms, user_name, room_name)[room_name].contains(user_name),
        joined(joined(rooms, user_name, room_name), user_name, room_name) == joined(
            rooms,
            user_name,
            room_name,
        ),
        joined(joined(rooms, user_name, room_name), user_name, room_name)[room_name].len() == joined(
            rooms,
            user_name,
            room_name,
        )[room_name].len(),
{
    let once = joined(rooms, user_name, room_name);
    assert(once[room_name].insert(user_name) =~= once[room_name]);
}

/// The same of the request: a second request to join, with the same
/// credentials, leaves the rooms as the first left them.
pub proof fn repeated_join_request_changes_nothing(
    users: Sessions,
    rooms: Memberships,
    user_name: Seq<char>,
    token: Seq<char>,
    room_name: Seq<char>,
)
    ensures
        rooms_after_join(
            users,
            rooms_after_join(users, rooms, user_name, token, room_name),
            user_name,
            token,
            room_name,
        ) == rooms_after_join(users, rooms, user_name, token, room_name),
{
    repeated_join_changes_nothing(rooms, user_name, room_name);
}

/// When the only member of a room leaves it, the room is deleted: it does
/// not exist afterwards, and nobody is a member of it.
pub proof fn last_member_leaving_deletes_room(
    rooms: Memberships,
    user_name: Seq<char>,
    room_name: Seq<char>,
)
    requires
        rooms.contains_key(room_name),
        rooms[room_name] == set![user_name],
    ensures
        !left(rooms, user_name, room_name).contains_key(room_name),
        members(left(rooms, user_name, room_name), room_name) == Set::<Seq<char>>::empty(),
{
}

/// A room that keeps a member when a user leaves it stays, with its other
/// members.
pub proof fn leaving_keeps_the_others(
    rooms: Memberships,
    user_name: Seq<char>,
    room_name: Seq<char>,
    other: Seq<char>,
)
    requires
        rooms.contains_key(room_name),
        rooms[room_name].contains(other),
        other != user_name,
    ensures
        left(rooms, user_name, room_name).contains_key(room_name),
        left(rooms, user_name, room_name)[room_name].contains(other),
        !left(rooms, user_name, room_name)[room_name].contains(user_name),
{
}

/// A logout with the token of the login takes the user out of every room.
/// Exactly the rooms that are left without a member are deleted by it, and
/// the other members of every room stay. The login itself is gone, and all
/// the connections that were open for it are left without one.
pub proof fn logout_leaves_every_room(
    users: Sessions,
    rooms: Memberships,
    user_name: Seq<char>,
    token: Seq<char>,
)
    requires
        valid(users, user_name, token),
    ensures
        !users_after_logout(users, user_name, token).contains_key(user_name),
        orphaned_by_logout(users, user_name, token) == users[user_name].channels,
        forall|room_name: Seq<char>|
            !(#[trigger] members(
                rooms_after_logout(users, rooms, user_name, token),
                room_name,
            )).contains(user_name),
        forall|room_name: Seq<char>| #[trigger]
            rooms_after_logout(users, rooms, user_name, token).contains_key(room_name) <==> (
            rooms.contains_key(room_name) && !rooms[room_name].remove(user_name).is_empty()),
        forall|room_name: Seq<char>| #[trigger]
            rooms_after_logout(users, rooms, user_name, token).contains_key(room_name)
                ==> !rooms_after_logout(users, rooms, user_name, token)[room_name].is_empty(),
        forall|room_name: Seq<char>, other: Seq<char>|
            other != user_name ==> (#[trigger] members(
                rooms_after_logout(users, rooms, user_name, token),
                room_name,
            ).contains(other) <==> members(rooms, room_name).contains(other)),
{
}

/// When one of a user's connections ends, the user stays logged in with the
/// same token and with the other connections: one connection fewer. The
/// other users are as they were, and a message to any set of members goes
/// to the same connections as before, but for the one that ended.
pub proof fn closing_one_connection_keeps_the_others(
    users: Sessions,
    user_name: Seq<char>,
    connection_id: Seq<char>,
    room_members: Set<Seq<char>>,
)
    requires
        is_open(users, user_name, connection_id),
        users[user_name].channels.finite(),
    ensures
        unregistered(users, user_name, connection_id).dom() == users.dom(),
        unregistered(users, user_name, connection_id)[user_name].token == users[user_name].token,
        unregistered(users, user_name, connection_id)[user_name].channels
            == users[user_name].channels.remove(connection_id),
        unregistered(users, user_name, connection_id)[user_name].channels.len()
            == users[user_name].channels.len() - 1,
        forall|other: Seq<char>|
            other != user_name && users.contains_key(other) ==> #[trigger] unregistered(
                users,
                user_name,
                connection_id,
            )[other] == users[other],
        receivers(unregistered(users, user_name, connection_id), room_members) == receivers(
            users,
            room_members,
        ).remove((user_name, connection_id)),
{
}

/// A message that is delivered to a room goes to exactly the open
/// connections of the users who are members of the room in the state that
/// the delivery reads, each once.
pub proof fn delivery_reaches_the_members(
    sender: Seq<char>,
    room_name: Seq<char>,
    text: Seq<char>,
    users: Sessions,
    rooms: Memberships,
    dispatch: Option<Dispatch>,
    log: Seq<LogRecord>,
)
    requires
        delivered(sender, room_name, text, users, rooms, dispatch, log),
    ensures
        dispatch is Some <==> rooms.contains_key(room_name),
        dispatch matches Some(d) ==> targets(d.recipients@).no_duplicates() && forall|
            user_name: Seq<char>,
            connection_id: Seq<char>,
        | #[trigger]
            targets(d.recipients@).contains((user_name, connection_id)) <==> (rooms[room_name].contains(
                user_name,
            ) && users.contains_key(user_name) && users[user_name].channels.contains(
                connection_id,
            )),
{
    if let Some(d) = dispatch {
        assert forall|user_name: Seq<char>, connection_id: Seq<char>| #[trigger]
            targets(d.recipients@).contains((user_name, connection_id)) <==> (
            rooms[room_name].contains(user_name) && users.contains_key(user_name)
                && users[user_name].channels.contains(connection_id)) by {
            let p = (user_name, connection_id);
            assert(receivers(users, rooms[room_name]).contains(p) <==> (rooms[room_name].contains(
                p.0,
            ) && users.contains_key(p.0) && users[p.0].channels.contains(p.1)));
        }
    }
}

/// No connection of a user who is no member of a room is among the
/// receivers of a message to it: not of one who joins only later, not of
/// one who has just left the room, and not of one who has just logged out.
pub proof fn only_members_receive(
    users: Sessions,
    rooms: Memberships,
    room_name: Seq<char>,
    user_name: Seq<char>,
    connection_id: Seq<char>,
)
    ensures
        !members(rooms, room_name).contains(user_name) ==> !receivers(
            users,
            members(rooms, room_name),
        ).contains((user_name, connection_id)),
        !receivers(users, members(left(rooms, user_name, room_name), room_name)).contains(
            (user_name, connection_id),
        ),
        !receivers(users, members(left_all(rooms, user_name), room_name)).contains(
            (user_name, connection_id),
        ),
        forall|token: Seq<char>|
            valid(users, user_name, token) ==> !receivers(
                #[trigger] users_after_logout(users, user_name, token),
                members(rooms, room_name),
            ).contains((user_name, connection_id)),
{
}

/// A request to join or to leave a room, or to log out, whose credentials
/// are not valid changes nothing; to join or to leave is refused then, and
/// so is a logout with a wrong token.
pub proof fn invalid_credentials_change_nothing(
    users: Sessions,
    rooms: Memberships,
    user_name: Seq<char>,
    token: Seq<char>,
    room_name: Seq<char>,
)
    requires
        !valid(users, user_name, token),
    ensures
        status_of(credentials(users, user_name, token)) == Status::Unauthorized,
        rooms_after_join(users, rooms, user_name, token, room_name) == rooms,
        rooms_after_leave(users, rooms, user_name, token, room_name) == rooms,
        users_after_logout(users, user_name, token) == users,
        rooms_after_logout(users, rooms, user_name, token) == rooms,
        orphaned_by_logout(users, user_name, token) == Set::<Seq<char>>::empty(),
{
}

/// A first frame whose credentials are not valid binds the connection to
/// nobody: the connection is closed, nothing is delivered, and the users
/// and their connections are as they were.
pub proof fn refused_handshake_changes_nothing(
    first: Event,
    text: String,
    user_name: Seq<char>,
    token: Seq<char>,
    before: Sessions,
    after: Sessions,
    step: Step,
)
    requires
        first == Event::Frame(Frame::Text(text)),
        two_members(text@, "username"@, "token"@) == Ok::<(Seq<char>, Seq<char>), DecodeError>(
            (user_name, token),
        ),
        !valid(before, user_name, token),
        opens(first, before, after, step),
    ensures
        handshake(first, before) is None,
        step.next@ == ConnectionView::Closed,
        step.dispatch is None,
        after == before,
{
}

/// The same of every first event that binds the connection to nobody: a
/// frame that is no text, a text that holds no credentials, a failure.
pub proof fn failed_handshake_changes_nothing(
    first: Event,
    before: Sessions,
    after: Sessions,
    step: Step,
)
    requires
        handshake(first, before) is None,
        opens(first, before, after, step),
    ensures
        step.next@ == ConnectionView::Closed,
        step.dispatch is None,
        after == before,
{
}

/// A first event either binds the connection or closes it, and a
/// connection that is closed by its first event changes nothing.
pub proof fn closed_at_opening_changes_nothing(
    first: Event,
    before: Sessions,
    after: Sessions,
    step: Step,
)
    requires
        opens(first, before, after, step),
    ensures
        step.next@ is Authenticated || step.next@ == ConnectionView::Closed,
        step.dispatch is None,
        step.next@ == ConnectionView::Closed ==> after == before,
{
}

/// A first event that binds the connection holds valid credentials of the
/// user it is bound to. The connection gets an identifier that none of the
/// user's connections has, and the user has one connection more.
pub proof fn opening_adds_one_connection(
    first: Event,
    user_name: Seq<char>,
    connection_id: Seq<char>,
    before: Sessions,
    after: Sessions,
    step: Step,
)
    requires
        opens(first, before, after, step),
        step.next@ == (ConnectionView::Authenticated { user_name, connection_id }),
        before.contains_key(user_name) ==> before[user_name].channels.finite(),
    ensures
        handshake(first, before) == Some(user_name),
        is_identifier(connection_id),
        before.contains_key(user_name),
        !before[user_name].channels.contains(connection_id),
        after == registered(before, user_name, connection_id),
        after[user_name].token == before[user_name].token,
        after[user_name].channels == before[user_name].channels.insert(connection_id),
        after[user_name].channels.len() == before[user_name].channels.len() + 1,
{
}

/// The first connection of a user is always bound: valid credentials of a
/// user who has no connection open bind the connection to that user.
pub proof fn first_connection_is_bound(
    first: Event,
    user_name: Seq<char>,
    before: Sessions,
    after: Sessions,
    step: Step,
)
    requires
        opens(first, before, after, step),
        handshake(first, before) == Some(user_name),
        before[user_name].channels.is_empty(),
    ensures
        step.next@ matches ConnectionView::Authenticated { user_name: bound, .. } && bound
            == user_name,
{
}

/// A connection is among its user's connections from the handshake that
/// binds it until it ends: the event that binds it adds it, an event that
/// leaves it open changes nothing, and the event that ends it takes it out.
pub proof fn connection_is_registered_while_open(
    user_name: Seq<char>,
    connection_id: Seq<char>,
    event: Event,
    before: Sessions,
    after: Sessions,
    rooms: Memberships,
    step: Step,
)
    ensures
        opens(event, before, after, step) && step.next@ == (ConnectionView::Authenticated {
            user_name,
            connection_id,
        }) ==> after.contains_key(user_name) && after[user_name].channels.contains(connection_id),
        proceeds(user_name, connection_id, event, before, after, rooms, step) && step.next@ == (
        ConnectionView::Authenticated { user_name, connection_id }) ==> after == before,
        proceeds(user_name, connection_id, event, before, after, rooms, step) && step.next@
            == ConnectionView::Closed && after.contains_key(user_name)
            ==> !after[user_name].channels.contains(connection_id),
        proceeds(user_name, connection_id, event, before, after, rooms, step) ==> step.next@ == (
        ConnectionView::Authenticated { user_name, connection_id }) || step.next@
            == ConnectionView::Closed,
{
}

/// Only users who are logged in are members of rooms, and every request
/// and every event of a connection keeps it so: a login, a request to join
/// or to leave, a logout, and the opening and the end of a connection.
pub proof fn members_stay_logged_in(
    users: Sessions,
    rooms: Memberships,
    user_name: Seq<char>,
    token: Seq<char>,
    room_name: Seq<char>,
    connection_id: Seq<char>,
)
    requires
        members_logged_in(users, rooms),
    ensures
        members_logged_in(users_after_login(users, user_name, token), rooms),
        members_logged_in(users, rooms_after_join(users, rooms, user_name, token, room_name)),
        members_logged_in(users, rooms_after_leave(users, rooms, user_name, token, room_name)),
        members_logged_in(
            users_after_logout(users, user_name, token),
            rooms_after_logout(users, rooms, user_name, token),
        ),
        members_logged_in(registered(users, user_name, connection_id), rooms),
        members_logged_in(unregistered(users, user_name, connection_id), rooms),
{
}

} // verus!
