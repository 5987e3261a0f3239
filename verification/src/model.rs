//! The shared state: the users that are logged in and the rooms that exist.

use vstd::prelude::*;
use crate::table::{NameSet, Table};

verus! {

/// What the server holds of a logged-in user, as the contracts speak of it:
/// the token that was issued at login, and the connections that are open.
pub struct Identity {
    pub token: Seq<char>,
    pub channels: Set<Seq<char>>,
}

/// The logged-in users as the contracts speak of them, by user name.
pub type Sessions = Map<Seq<char>, Identity>;

/// The rooms as the contracts speak of them: the members of each, by room
/// name.
pub type Memberships = Map<Seq<char>, Set<Seq<char>>>;

/// A logged-in user: the name, the token issued at login, and the identifiers
/// of the connections that are open for this user.
pub struct User {
    pub user_name: String,
    pub token: String,
    pub sender: NameSet,
}

impl View for User {
    type V = Identity;

    open spec fn view(&self) -> Identity {
        Identity { token: self.token@, channels: self.sender@ }
    }
}

impl User {
    /// A user who has just logged in: no connection is open yet.
    pub fn new(user_name: String, token: String) -> (user: User)
        ensures
            user.user_name@ == user_name@,
            user@ == (Identity { token: token@, channels: Set::empty() }),
    {
        User { user_name, token, sender: NameSet::new() }
    }
}

/// A room: the names of its members.
pub struct Room {
    pub users: NameSet,
}

impl View for Room {
    type V = Set<Seq<char>>;

    open spec fn view(&self) -> Set<Seq<char>> {
        self.users@
    }
}

impl Room {
    /// A room with one member.
    pub fn new(user_name: String) -> (room: Room)
        ensures
            room@ == set![user_name@],
    {
        let mut users = NameSet::new();
        users.insert(user_name);
        Room { users }
    }
}

/// Every room has a member.
pub open spec fn inhabited(rooms: Memberships) -> bool {
    forall|k: Seq<char>| #[trigger] rooms.contains_key(k) ==> !rooms[k].is_empty()
}

/// Every member of every room is logged in.
pub open spec fn members_logged_in(users: Sessions, rooms: Memberships) -> bool {
    forall|room_name: Seq<char>, user_name: Seq<char>|
        rooms.contains_key(room_name) && #[trigger] rooms[room_name].contains(user_name)
            ==> users.contains_key(user_name)
}

/// The identities that a table of users stands for.
pub open spec fn identities(users: Map<Seq<char>, User>) -> Sessions {
    Map::new(|k: Seq<char>| users.contains_key(k), |k: Seq<char>| users[k]@)
}

/// The member sets that a table of rooms stands for.
pub open spec fn memberships(rooms: Map<Seq<char>, Room>) -> Memberships {
    Map::new(|k: Seq<char>| rooms.contains_key(k), |k: Seq<char>| rooms[k]@)
}

/// The users that are logged in, by name.
pub struct UserMap {
    table: Table<User>,
}

impl View for UserMap {
    type V = Sessions;

    closed spec fn view(&self) -> Sessions {
        identities(self.table@)
    }
}

impl UserMap {
    /// Every user is stored under their own name.
    #[verifier::type_invariant]
    spec fn named(&self) -> bool {
        forall|k: Seq<char>| #[trigger]
            self.table@.contains_key(k) ==> self.table@[k].user_name@ == k
    }

    /// Finitely many users are logged in, and each has finitely many
    /// connections.
    pub proof fn lemma_finite(&self)
        ensures
            self@.dom().finite(),
            forall|k: Seq<char>| #[trigger] self@.contains_key(k) ==> self@[k].channels.finite(),
    {
        self.table.lemma_finite();
        assert(self@.dom() =~= self.table@.dom());
        assert forall|k: Seq<char>| #[trigger] self@.contains_key(k) implies self@[k].channels.finite() by {
            self.table@[k].sender.lemma_finite();
        }
    }

    /// Nobody is logged in.
    pub fn new() -> (users: Self)
        ensures
            users@ == Sessions::empty(),
    {
        let users = UserMap { table: Table::new() };
        users
    }

    /// The user of that name, if one is logged in.
    pub fn get(&self, user_name: &str) -> (user: Option<&User>)
        ensures
            user is Some <==> self@.contains_key(user_name@),
            user matches Some(u) ==> u.user_name@ == user_name@ && u@ == self@[user_name@],
    {
        proof {
            use_type_invariant(self);
        }
        self.table.get(user_name)
    }

    /// Takes the user of that name out, if one is logged in.
    pub fn take(&mut self, user_name: &str) -> (user: Option<User>)
        ensures
            final(self)@ == old(self)@.remove(user_name@),
            user is Some <==> old(self)@.contains_key(user_name@),
            user matches Some(u) ==> u.user_name@ == user_name@ && u@ == old(self)@[user_name@],
    {
        proof {
            use_type_invariant(&*self);
        }
        let mut table = Table::new();
        std::mem::swap(&mut table, &mut self.table);
        let user = table.remove(user_name);
        self.table = table;
        user
    }

    /// Stores a user under their name, in place of any user of that name.
    pub fn put(&mut self, user: User)
        ensures
            final(self)@ == old(self)@.insert(user.user_name@, user@),
    {
        proof {
            use_type_invariant(&*self);
        }
        let key = user.user_name.clone();
        let mut table = Table::new();
        std::mem::swap(&mut table, &mut self.table);
        table.insert(key, user);
        self.table = table;
    }
}

/// The rooms that exist, by name. A room exists while it has a member.
pub struct RoomMap {
    table: Table<Room>,
}

impl View for RoomMap {
    type V = Memberships;

    closed spec fn view(&self) -> Memberships {
        memberships(self.table@)
    }
}

impl RoomMap {
    /// Every room has a member.
    #[verifier::type_invariant]
    spec fn occupied(&self) -> bool {
        forall|k: Seq<char>| #[trigger] self.table@.contains_key(k) ==> !self.table@[k]@.is_empty()
    }

    /// Finitely many rooms exist, and each has finitely many members.
    pub proof fn lemma_finite(&self)
        ensures
            self@.dom().finite(),
            forall|k: Seq<char>| #[trigger] self@.contains_key(k) ==> self@[k].finite(),
    {
        self.table.lemma_finite();
        assert(self@.dom() =~= self.table@.dom());
        assert forall|k: Seq<char>| #[trigger] self@.contains_key(k) implies self@[k].finite() by {
            self.table@[k].users.lemma_finite();
        }
    }

    /// Every room that exists has a member. A call makes this known to the
    /// caller's proof; it does nothing when the program runs.
    pub fn inhabited(&self)
        ensures
            inhabited(self@),
    {
        proof {
            use_type_invariant(self);
        }
    }

    /// No room exists.
    pub fn new() -> (rooms: Self)
        ensures
            rooms@ == Memberships::empty(),
    {
        let rooms = RoomMap { table: Table::new() };
        rooms
    }

    /// The room of that name, if it exists. Every room that exists has a
    /// member.
    pub fn get(&self, room_name: &str) -> (room: Option<&Room>)
        ensures
            inhabited(self@),
            room is Some <==> self@.contains_key(room_name@),
            room matches Some(r) ==> r@ == self@[room_name@],
    {
        proof {
            use_type_invariant(self);
        }
        self.table.get(room_name)
    }

    /// Takes the room of that name out, if it exists.
    pub fn take(&mut self, room_name: &str) -> (room: Option<Room>)
        ensures
            inhabited(old(self)@),
            inhabited(final(self)@),
            final(self)@ == old(self)@.remove(room_name@),
            room is Some <==> old(self)@.contains_key(room_name@),
            room matches Some(r) ==> r@ == old(self)@[room_name@],
    {
        proof {
            use_type_invariant(&*self);
        }
        let mut table = Table::new();
        std::mem::swap(&mut table, &mut self.table);
        let room = table.remove(room_name);
        self.table = table;
        room
    }

    /// Takes some room out; `None` when no room exists.
    pub fn pop(&mut self) -> (entry: Option<(String, Room)>)
        ensures
            inhabited(old(self)@),
            inhabited(final(self)@),
            entry is None <==> old(self)@.dom().is_empty(),
            entry is None ==> final(self)@ == old(self)@,
            entry matches Some((name, r)) ==> old(self)@.contains_key(name@) && r@ == old(
                self,
            )@[name@] && final(self)@ == old(self)@.remove(name@),
    {
        proof {
            use_type_invariant(&*self);
        }
        let mut table = Table::new();
        std::mem::swap(&mut table, &mut self.table);
        let entry = table.pop();
        self.table = table;
        entry
    }

    /// Stores a room that has a member under a name, in place of any room
    /// of that name.
    pub fn put(&mut self, room_name: String, room: Room)
        requires
            !room@.is_empty(),
        ensures
            inhabited(final(self)@),
            final(self)@ == old(self)@.insert(room_name@, room@),
    {
        proof {
            use_type_invariant(&*self);
        }
        let mut table = Table::new();
        std::mem::swap(&mut table, &mut self.table);
        table.insert(room_name, room);
        self.table = table;
    }
}

} // verus!
