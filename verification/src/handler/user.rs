//! Login and logout, and the check of a user's token.

use vstd::prelude::*;
use vstd::string::*;
use crate::handler::room::{left_all, remove_user_from_all_rooms};
use crate::handler::Status;
use crate::helper::{
    all_rooms_left, lines, log_all_rooms_left, log_user_already_logged_in, log_user_logged_in,
    log_user_logged_out, log_user_not_authorized, log_user_not_logged_in, noted, noted_twice,
    silent, user_already_logged_in, user_logged_in, user_logged_out, user_not_authorized,
    user_not_logged_in, Line, LogRecord, Logged,
};
use crate::model::{inhabited, Identity, Memberships, RoomMap, Sessions, User, UserMap};
use crate::table::texts;
use crate::token::{fresh_identifier, is_identifier};

verus! {

/// A request to log in.
pub struct LoginRequest {
    pub user_name: String,
}

/// The answer to a login that succeeded.
#[derive(Debug)]
pub struct LoginResponse {
    pub token: String,
}

/// A user name with the token that proves it.
pub struct AuthRequest {
    pub user_name: String,
    pub token: String,
}

/// The answer to a request that was refused with a reason.
pub struct ErrorResponse {
    pub error: String,
}

/// The answer to a login.
pub enum LoginReply {
    Token(LoginResponse),
    Error(ErrorResponse),
}

/// What the check of a user name and a token finds.
#[derive(Clone, Copy, Debug, PartialEq, Eq, Structural)]
pub enum Credentials {
    Valid,
    WrongToken,
    NotLoggedIn,
}

/// What the check of `token` for `user_name` finds in `users`.
pub open spec fn credentials(users: Sessions, user_name: Seq<char>, token: Seq<char>) -> Credentials {
    if !users.contains_key(user_name) {
        Credentials::NotLoggedIn
    } else if users[user_name].token == token {
        Credentials::Valid
    } else {
        Credentials::WrongToken
    }
}

/// `user_name` is logged in, and `token` is the token of that login.
pub open spec fn valid(users: Sessions, user_name: Seq<char>, token: Seq<char>) -> bool {
    credentials(users, user_name, token) == Credentials::Valid
}

/// The users after `user_name` has logged in with `token`.
pub open spec fn logged_in(users: Sessions, user_name: Seq<char>, token: Seq<char>) -> Sessions {
    users.insert(user_name, Identity { token, channels: Set::empty() })
}

/// The users after an attempt to log `user_name` in with `token`: a user
/// who is logged in already stays as they are.
pub open spec fn users_after_login(users: Sessions, user_name: Seq<char>, token: Seq<char>) -> Sessions {
    if users.contains_key(user_name) {
        users
    } else {
        logged_in(users, user_name, token)
    }
}

/// The answer to a request whose credentials were checked: only valid ones
/// are accepted.
pub open spec fn status_of(found: Credentials) -> Status {
    match found {
        Credentials::Valid => Status::Success,
        _ => Status::Unauthorized,
    }
}

/// The record of a request that is refused for its credentials.
pub open spec fn refusal_lines(users: Sessions, user_name: Seq<char>, token: Seq<char>) -> Seq<Line> {
    match credentials(users, user_name, token) {
        Credentials::Valid => seq![],
        Credentials::WrongToken => seq![user_not_authorized(user_name)],
        Credentials::NotLoggedIn => seq![user_not_logged_in(user_name)],
    }
}

/// Answers a request by its credentials alone: valid ones are accepted
/// without a record, others are refused with the record that says why.
pub fn answer(found: Credentials, user_name: &str) -> (reply: Logged<Status>)
    ensures
        reply.value == status_of(found),
        lines(reply.log@) == match found {
            Credentials::Valid => Seq::<Line>::empty(),
            Credentials::WrongToken => seq![user_not_authorized(user_name@)],
            Credentials::NotLoggedIn => seq![user_not_logged_in(user_name@)],
        },
{
    match found {
        Credentials::Valid => silent(Status::Success),
        Credentials::WrongToken => noted(Status::Unauthorized, log_user_not_authorized(user_name)),
        Credentials::NotLoggedIn => noted(
            Status::Unauthorized,
            log_user_not_logged_in(user_name),
        ),
    }
}

/// Checks a token against the login of a user. Reads the state only.
pub fn check_credentials(user_name: &str, token: &str, logged_users: &UserMap) -> (found:
    Credentials)
    ensures
        found == credentials(logged_users@, user_name@, token@),
{
    match logged_users.get(user_name) {
        Some(user) => {
            if user.token == String::from_str(token) {
                Credentials::Valid
            } else {
                Credentials::WrongToken
            }
        },
        None => Credentials::NotLoggedIn,
    }
}

/// Whether `token` is the token of a login of `user_name`. Reads the state
/// only.
pub fn validate(user_name: &str, token: &str, logged_users: &UserMap) -> (ok: bool)
    ensures
        ok == valid(logged_users@, user_name@, token@),
{
    match check_credentials(user_name, token, logged_users) {
        Credentials::Valid => true,
        _ => false,
    }
}

/// Logs `user_name` in with `token`, unless a user of that name is logged in
/// already: then nothing changes. Tells whether the login took place.
pub fn login_user(user_name: &str, token: &str, logged_users: &mut UserMap) -> (done: bool)
    ensures
        done == !old(logged_users)@.contains_key(user_name@),
        final(logged_users)@ == users_after_login(old(logged_users)@, user_name@, token@),
{
    if logged_users.get(user_name).is_some() {
        false
    } else {
        let user = User::new(String::from_str(user_name), String::from_str(token));
        logged_users.put(user);
        true
    }
}

/// Handles a login. A fresh token is made for it; the user is logged in with
/// that token unless the name is logged in already, in which case the state
/// stays as it is and the reply carries the reason.
pub fn login_handler(body: LoginRequest, logged_users: &mut UserMap) -> (reply: Logged<LoginReply>)
    ensures
        old(logged_users)@.contains_key(body.user_name@) ==> {
            &&& reply.value matches LoginReply::Error(e)
            &&& e.error@ == "User already logged in"@
            &&& final(logged_users)@ == old(logged_users)@
            &&& lines(reply.log@) == seq![user_already_logged_in(body.user_name@)]
        },
        !old(logged_users)@.contains_key(body.user_name@) ==> {
            &&& reply.value matches LoginReply::Token(t)
            &&& is_identifier(t.token@)
            &&& final(logged_users)@ == logged_in(old(logged_users)@, body.user_name@, t.token@)
            &&& lines(reply.log@) == seq![user_logged_in(body.user_name@)]
        },
{
    let user_name = body.user_name;
    let token = fresh_identifier();
    if login_user(user_name.as_str(), token.as_str(), logged_users) {
        noted(
            LoginReply::Token(LoginResponse { token }),
            log_user_logged_in(user_name.as_str()),
        )
    } else {
        noted(
            LoginReply::Error(ErrorResponse { error: String::from_str("User already logged in") }),
            log_user_already_logged_in(user_name.as_str()),
        )
    }
}

/// The users after a request to log `user_name` out with `token`: with the
/// token of the login, the login ends, and all its connections with it.
pub open spec fn users_after_logout(users: Sessions, user_name: Seq<char>, token: Seq<char>) -> Sessions {
    if valid(users, user_name, token) {
        users.remove(user_name)
    } else {
        users
    }
}

/// The rooms after a request to log `user_name` out with `token`: with the
/// token of the login, the user leaves every room.
pub open spec fn rooms_after_logout(
    users: Sessions,
    rooms: Memberships,
    user_name: Seq<char>,
    token: Seq<char>,
) -> Memberships {
    if valid(users, user_name, token) {
        left_all(rooms, user_name)
    } else {
        rooms
    }
}

/// The answer to a request to log out: only a wrong token is refused. The
/// logout of a user who is not logged in counts as done.
pub open spec fn logout_status(users: Sessions, user_name: Seq<char>, token: Seq<char>) -> Status {
    match credentials(users, user_name, token) {
        Credentials::WrongToken => Status::Unauthorized,
        _ => Status::Success,
    }
}

/// The connections that a request to log out leaves without a login: with
/// the token of the login, all that were open for it.
pub open spec fn orphaned_by_logout(users: Sessions, user_name: Seq<char>, token: Seq<char>) -> Set<
    Seq<char>,
> {
    if valid(users, user_name, token) {
        users[user_name].channels
    } else {
        Set::empty()
    }
}

/// The records of a request to log out.
pub open spec fn logout_lines(users: Sessions, user_name: Seq<char>, token: Seq<char>) -> Seq<Line> {
    match credentials(users, user_name, token) {
        Credentials::Valid => seq![all_rooms_left(user_name), user_logged_out(user_name)],
        Credentials::WrongToken => seq![user_not_authorized(user_name)],
        Credentials::NotLoggedIn => seq![user_not_logged_in(user_name)],
    }
}

/// The outcome of a request to log out: the answer, and the identifiers of
/// the connections that were open for the login that has ended. They belong
/// to nobody now, and nothing is delivered to them any more.
pub struct Logout {
    pub status: Status,
    pub orphaned: Vec<String>,
}

/// Ends the login of `user_name`: the user leaves every room, rooms left
/// without a member are deleted, and then the login is deleted, with the
/// connections that were open for it. Their identifiers are handed back.
pub fn on_logout(user_name: &str, logged_users: &mut UserMap, rooms: &mut RoomMap) -> (ended:
    Logged<Vec<String>>)
    ensures
        inhabited(final(rooms)@),
        final(logged_users)@ == old(logged_users)@.remove(user_name@),
        final(rooms)@ == left_all(old(rooms)@, user_name@),
        texts(ended.value@).no_duplicates(),
        texts(ended.value@).to_set() == if old(logged_users)@.contains_key(user_name@) {
            old(logged_users)@[user_name@].channels
        } else {
            Set::empty()
        },
        lines(ended.log@) == seq![all_rooms_left(user_name@), user_logged_out(user_name@)],
{
    remove_user_from_all_rooms(user_name, rooms);
    let left = log_all_rooms_left(user_name);
    let orphaned = match logged_users.take(user_name) {
        Some(user) => user.sender.into_vec(),
        None => Vec::new(),
    };
    noted_twice(orphaned, left, log_user_logged_out(user_name))
}

/// Handles a logout. With the right token the user is taken out of every
/// room, rooms left without a member are deleted, and the login ends with all
/// its connections. With a wrong token nothing changes and the request is
/// refused. For a user who is not logged in nothing changes and the request
/// counts as done.
pub fn logout_handler(body: AuthRequest, logged_users: &mut UserMap, rooms: &mut RoomMap) -> (reply:
    Logged<Logout>)
    ensures
        inhabited(final(rooms)@),
        reply.value.status == logout_status(old(logged_users)@, body.user_name@, body.token@),
        texts(reply.value.orphaned@).no_duplicates(),
        texts(reply.value.orphaned@).to_set() == orphaned_by_logout(
            old(logged_users)@,
            body.user_name@,
            body.token@,
        ),
        final(logged_users)@ == users_after_logout(
            old(logged_users)@,
            body.user_name@,
            body.token@,
        ),
        final(rooms)@ == rooms_after_logout(
            old(logged_users)@,
            old(rooms)@,
            body.user_name@,
            body.token@,
        ),
        lines(reply.log@) == logout_lines(old(logged_users)@, body.user_name@, body.token@),
{
    let user_name = body.user_name.as_str();
    match check_credentials(user_name, body.token.as_str(), logged_users) {
        Credentials::Valid => {
            let ended = on_logout(user_name, logged_users, rooms);
            Logged {
                value: Logout { status: Status::Success, orphaned: ended.value },
                log: ended.log,
            }
        },
        Credentials::WrongToken => {
            rooms.inhabited();
            noted(
                Logout { status: Status::Unauthorized, orphaned: Vec::new() },
                log_user_not_authorized(user_name),
            )
        },
        Credentials::NotLoggedIn => {
            rooms.inhabited();
            noted(
                Logout { status: Status::Success, orphaned: Vec::new() },
                log_user_not_logged_in(user_name),
            )
        },
    }
}

} // verus!
