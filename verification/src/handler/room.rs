//! Joining and leaving rooms.

use vstd::prelude::*;
use vstd::string::*;
use crate::handler::user::{
    answer, check_credentials, credentials, refusal_lines, status_of, valid, Credentials,
};
use crate::handler::Status;
use crate::helper::{
    lines, log_room_does_not_exist, log_room_joined, log_room_left, log_room_removed,
    log_user_already_joined_room, log_user_created_room, noted, room_does_not_exist, room_joined,
    room_left, room_removed, user_already_joined_room, user_created_room, Line, LogRecord, Logged,
};
use crate::model::{inhabited, Memberships, Room, RoomMap, Sessions, UserMap};
use crate::table::texts;

verus! {

/// A request to join or to leave a room.
pub struct JoinOrLeaveRequest {
    pub user_name: String,
    pub token: String,
    pub room_name: String,
}

/// The rooms after `user_name` has joined `room_name`: a room that did not
/// exist is created with that one member.
pub open spec fn joined(rooms: Memberships, user_name: Seq<char>, room_name: Seq<char>) -> Memberships {
    if rooms.contains_key(room_name) {
        rooms.insert(room_name, rooms[room_name].insert(user_name))
    } else {
        rooms.insert(room_name, set![user_name])
    }
}

/// The rooms after `user_name` has left `room_name`: a room that is left
/// without a member is deleted.
pub open spec fn left(rooms: Memberships, user_name: Seq<char>, room_name: Seq<char>) -> Memberships {
    if rooms.contains_key(room_name) && rooms[room_name].contains(user_name) {
        if rooms[room_name].remove(user_name).is_empty() {
            rooms.remove(room_name)
        } else {
            rooms.insert(room_name, rooms[room_name].remove(user_name))
        }
    } else {
        rooms
    }
}

/// The rooms after `user_name` has left every room: the rooms that are left
/// without a member are deleted.
pub open spec fn left_all(rooms: Memberships, user_name: Seq<char>) -> Memberships {
    Map::new(
        |k: Seq<char>| rooms.contains_key(k) && !rooms[k].remove(user_name).is_empty(),
        |k: Seq<char>| rooms[k].remove(user_name),
    )
}

/// The record of a join.
pub open spec fn join_line(rooms: Memberships, user_name: Seq<char>, room_name: Seq<char>) -> Line {
    if !rooms.contains_key(room_name) {
        user_created_room(user_name, room_name)
    } else if rooms[room_name].contains(user_name) {
        user_already_joined_room(room_name, user_name)
    } else {
        room_joined(room_name, user_name)
    }
}

/// The records of a user leaving one room.
pub open spec fn leave_lines(rooms: Memberships, user_name: Seq<char>, room_name: Seq<char>) -> Seq<Line> {
    if !rooms.contains_key(room_name) {
        seq![room_does_not_exist(room_name)]
    } else if !rooms[room_name].contains(user_name) {
        seq![]
    } else if rooms[room_name].remove(user_name).is_empty() {
        seq![room_left(room_name, user_name), room_removed(room_name)]
    } else {
        seq![room_left(room_name, user_name)]
    }
}

/// Takes a user out of a room's members. Nothing changes when the user is no
/// member; else the record of the leave is handed back.
pub fn remove_user(room: &mut Room, user_name: &str, room_name: &str) -> (record: Option<LogRecord>)
    ensures
        final(room)@ == old(room)@.remove(user_name@),
        record is Some <==> old(room)@.contains(user_name@),
        record matches Some(r) ==> r@ == room_left(room_name@, user_name@),
{
    if room.users.remove(user_name) {
        Some(log_room_left(room_name, user_name))
    } else {
        None
    }
}

/// Makes `user_name` a member of `room_name`. The room is created when it
/// does not exist; a user who is a member already stays one, once.
pub fn join_room(user_name: &str, room_name: &str, rooms: &mut RoomMap) -> (record: LogRecord)
    ensures
        inhabited(final(rooms)@),
        final(rooms)@ == joined(old(rooms)@, user_name@, room_name@),
        record@ == join_line(old(rooms)@, user_name@, room_name@),
{
    match rooms.take(room_name) {
        Some(mut room) => {
            let added = room.users.insert(String::from_str(user_name));
            rooms.put(String::from_str(room_name), room);
            if added {
                log_room_joined(room_name, user_name)
            } else {
                log_user_already_joined_room(room_name, user_name)
            }
        },
        None => {
            let room = Room::new(String::from_str(user_name));
            rooms.put(String::from_str(room_name), room);
            log_user_created_room(user_name, room_name)
        },
    }
}

/// Takes `user_name` out of `room_name`, and deletes the room when that was
/// its last member. Nothing changes when the room does not exist or the user
/// is no member of it.
pub fn remove_user_from_single_room(user_name: &str, room_name: &str, rooms: &mut RoomMap) -> (log:
    Vec<LogRecord>)
    ensures
        inhabited(final(rooms)@),
        final(rooms)@ == left(old(rooms)@, user_name@, room_name@),
        lines(log@) == leave_lines(old(rooms)@, user_name@, room_name@),
{
    let mut log: Vec<LogRecord> = Vec::new();
    match rooms.take(room_name) {
        Some(mut room) => {
            match remove_user(&mut room, user_name, room_name) {
                Some(record) => {
                    log.push(record);
                },
                None => {
                    assert(room@ =~= old(rooms)@[room_name@]);
                },
            }
            if room.users.is_empty() {
                log.push(log_room_removed(room_name));
            } else {
                rooms.put(String::from_str(room_name), room);
            }
        },
        None => {
            log.push(log_room_does_not_exist(room_name));
        },
    }
    log
}

/// Takes `user_name` out of every room, and deletes each room of which that
/// was the last member.
pub fn remove_user_from_all_rooms(user_name: &str, rooms: &mut RoomMap)
    ensures
        inhabited(final(rooms)@),
        final(rooms)@ == left_all(old(rooms)@, user_name@),
{
    let ghost before = rooms@;
    let mut kept = RoomMap::new();
    loop
        invariant
            forall|k: Seq<char>| #[trigger]
                rooms@.contains_key(k) ==> before.contains_key(k) && rooms@[k] == before[k],
            forall|k: Seq<char>| #[trigger]
                kept@.contains_key(k) <==> before.contains_key(k) && !rooms@.contains_key(k)
                    && !before[k].remove(user_name@).is_empty(),
            forall|k: Seq<char>| #[trigger]
                kept@.contains_key(k) ==> kept@[k] == before[k].remove(user_name@),
        ensures
            kept@ == left_all(before, user_name@),
        decreases rooms@.dom().len(),
    {
        proof {
            rooms.lemma_finite();
        }
        match rooms.pop() {
            Some((name, mut room)) => {
                remove_user(&mut room, user_name, name.as_str());
                if !room.users.is_empty() {
                    kept.put(name, room);
                }
            },
            None => {
                break ;
            },
        }
    }
    *rooms = kept;
}

/// The members of a room; nobody is a member of a room that does not exist.
pub open spec fn members(rooms: Memberships, room_name: Seq<char>) -> Set<Seq<char>> {
    if rooms.contains_key(room_name) {
        rooms[room_name]
    } else {
        Set::empty()
    }
}

/// The members of a room as they are now, each once; none for a room that
/// does not exist. Reads the state only.
pub fn members_of(room_name: &str, rooms: &RoomMap) -> (names: Vec<String>)
    ensures
        texts(names@).no_duplicates(),
        texts(names@).to_set() == members(rooms@, room_name@),
{
    let mut names: Vec<String> = Vec::new();
    match rooms.get(room_name) {
        Some(room) => {
            let stored = room.users.as_vec();
            let mut i: usize = 0;
            while i < stored.len()
                invariant
                    i <= stored.len(),
                    texts(names@) == texts(stored@).take(i as int),
                decreases stored.len() - i,
            {
                let name = stored[i].clone();
                let ghost copied = texts(names@);
                names.push(name);
                assert(texts(stored@).take(i + 1) =~= copied.push(stored[i as int]@));
                i += 1;
            }
            assert(texts(stored@).take(stored@.len() as int) =~= texts(stored@));
        },
        None => {},
    }
    names
}

/// The rooms after a request of `user_name` to join `room_name`: only with
/// the token of the user's login does the user join.
pub open spec fn rooms_after_join(
    users: Sessions,
    rooms: Memberships,
    user_name: Seq<char>,
    token: Seq<char>,
    room_name: Seq<char>,
) -> Memberships {
    if valid(users, user_name, token) {
        joined(rooms, user_name, room_name)
    } else {
        rooms
    }
}

/// The records of a request to join a room.
pub open spec fn join_lines(
    users: Sessions,
    rooms: Memberships,
    user_name: Seq<char>,
    token: Seq<char>,
    room_name: Seq<char>,
) -> Seq<Line> {
    if valid(users, user_name, token) {
        seq![join_line(rooms, user_name, room_name)]
    } else {
        refusal_lines(users, user_name, token)
    }
}

/// The rooms after a request of `user_name` to leave `room_name`: only with
/// the token of the user's login does the user leave.
pub open spec fn rooms_after_leave(
    users: Sessions,
    rooms: Memberships,
    user_name: Seq<char>,
    token: Seq<char>,
    room_name: Seq<char>,
) -> Memberships {
    if valid(users, user_name, token) {
        left(rooms, user_name, room_name)
    } else {
        rooms
    }
}

/// The records of a request to leave a room.
pub open spec fn leave_request_lines(
    users: Sessions,
    rooms: Memberships,
    user_name: Seq<char>,
    token: Seq<char>,
    room_name: Seq<char>,
) -> Seq<Line> {
    if valid(users, user_name, token) {
        leave_lines(rooms, user_name, room_name)
    } else {
        refusal_lines(users, user_name, token)
    }
}

/// Handles a request to join a room. The request is refused, and nothing
/// changes, unless the token is that of the user's login.
pub fn join_handler(body: JoinOrLeaveRequest, logged_users: &UserMap, rooms: &mut RoomMap) -> (reply:
    Logged<Status>)
    ensures
        inhabited(final(rooms)@),
        reply.value == status_of(credentials(logged_users@, body.user_name@, body.token@)),
        final(rooms)@ == rooms_after_join(
            logged_users@,
            old(rooms)@,
            body.user_name@,
            body.token@,
            body.room_name@,
        ),
        lines(reply.log@) == join_lines(
            logged_users@,
            old(rooms)@,
            body.user_name@,
            body.token@,
            body.room_name@,
        ),
{
    let user_name = body.user_name.as_str();
    match check_credentials(user_name, body.token.as_str(), logged_users) {
        Credentials::Valid => {
            let record = join_room(user_name, body.room_name.as_str(), rooms);
            noted(Status::Success, record)
        },
        refused => {
            rooms.inhabited();
            answer(refused, user_name)
        },
    }
}

/// Handles a request to leave a room. The request is refused, and nothing
/// changes, unless the token is that of the user's login.
pub fn leave_handler(body: JoinOrLeaveRequest, logged_users: &UserMap, rooms: &mut RoomMap) -> (reply:
    Logged<Status>)
    ensures
        inhabited(final(rooms)@),
        reply.value == status_of(credentials(logged_users@, body.user_name@, body.token@)),
        final(rooms)@ == rooms_after_leave(
            logged_users@,
            old(rooms)@,
            body.user_name@,
            body.token@,
            body.room_name@,
        ),
        lines(reply.log@) == leave_request_lines(
            logged_users@,
            old(rooms)@,
            body.user_name@,
            body.token@,
            body.room_name@,
        ),
{
    let user_name = body.user_name.as_str();
    match check_credentials(user_name, body.token.as_str(), logged_users) {
        Credentials::Valid => {
            let log = remove_user_from_single_room(user_name, body.room_name.as_str(), rooms);
            Logged { value: Status::Success, log }
        },
        refused => {
            rooms.inhabited();
            answer(refused, user_name)
        },
    }
}

} // verus!
