//! The registry: composes two independent slot tables — one for rooms, one
//! for user sessions — and implements the domain operations on top of them.

use crate::collection::CapacityError;
use crate::collection::UniqueIdCollection;
pub use conclave_types::SessionId;
use vstd::prelude::*;

verus! {

/// A room, identified by its allocator-assigned key.  The registry stamps the
/// identifier onto the room right after allocation, so the stored room's
/// self-reported identifier always equals its slot key.
#[derive(Clone, Copy, Debug, PartialEq, Eq, Structural)]
pub struct Room {
    pub id: u8,
}

impl Room {
    /// A default-initialized room, before the registry stamps its identifier.
    pub fn new() -> (r: Room)
        ensures
            r.id == 0,
    {
        Room { id: 0 }
    }
}

/// One logged-in external identity.
pub struct UserSession {
    /// Opaque caller-supplied identity of the account-level user.
    pub guise_user_id: u64,
    /// Display name; empty right after login.
    pub name: String,
}

/// The registry.  Its two slot tables are independent: a room identifier and
/// a session identifier of the same numeric value are unrelated.
pub struct Server {
    pub rooms: UniqueIdCollection<Room>,
    pub user_sessions: UniqueIdCollection<UserSession>,
}

impl Server {
    /// Both slot tables are internally consistent, and every stored room's
    /// self-reported identifier equals its slot key.
    pub open spec fn wf(&self) -> bool {
        &&& self.rooms.wf()
        &&& self.user_sessions.wf()
        &&& forall|id: u8| #[trigger]
            self.rooms.slots_map().contains_key(id) ==> self.rooms.slots_map()[id].id == id
    }

    /// Creates a registry with no rooms and no sessions.
    pub fn new() -> (s: Self)
        ensures
            s.wf(),
            s.rooms.slots_map() == Map::<u8, Room>::empty(),
            s.rooms.free_ids() == Seq::<u8>::empty(),
            s.rooms.next_fresh() == 0,
            s.user_sessions.slots_map() == Map::<u8, UserSession>::empty(),
            s.user_sessions.free_ids() == Seq::<u8>::empty(),
            s.user_sessions.next_fresh() == 0,
    {
        Server { rooms: UniqueIdCollection::new(), user_sessions: UniqueIdCollection::new() }
    }

    /// Allocates a new room, stamps the allocator-assigned identifier onto
    /// it, and returns a copy of the stored room.  Fails exactly when the
    /// room identifier space is exhausted, leaving the registry unchanged.
    ///
    /// The session identifier is accepted for future authorization and is
    /// deliberately not validated against the session table; sessions are
    /// untouched.
    pub fn create_room(&mut self, _session_id: SessionId) -> (r: Result<Room, CapacityError>)
        requires
            old(self).wf(),
        ensures
            final(self).wf(),
            final(self).user_sessions == old(self).user_sessions,
            r is Ok <==> old(self).rooms.can_allocate(),
            match r {
                Ok(room) => {
                    &&& room.id as int == old(self).rooms.next_alloc_id()
                    &&& !old(self).rooms.slots_map().contains_key(room.id)
                    &&& final(self).rooms.slots_map() == old(self).rooms.slots_map().insert(
                        room.id,
                        room,
                    )
                    &&& final(self).rooms.slots_map().len() == old(self).rooms.slots_map().len()
                        + 1
                    &&& !final(self).rooms.free_ids().contains(room.id)
                    &&& if old(self).rooms.free_ids().len() > 0 {
                        final(self).rooms.free_ids() == old(self).rooms.free_ids().drop_first()
                            && final(self).rooms.next_fresh() == old(self).rooms.next_fresh()
                    } else {
                        final(self).rooms.free_ids() == old(self).rooms.free_ids() && final(self).rooms.next_fresh() == old(self).rooms.next_fresh() + 1
                    }
                },
                Err(_) => {
                    &&& final(self).rooms.slots_map() == old(self).rooms.slots_map()
                    &&& final(self).rooms.free_ids() == old(self).rooms.free_ids()
                    &&& final(self).rooms.next_fresh() == old(self).rooms.next_fresh()
                },
            },
    {
        let room = Room::new();
        match self.rooms.add_item(room) {
            Ok(index) => {
                let stamped = Room { id: index };
                let was_live = self.rooms.update_item(index, stamped);
                assert(was_live);
                assert(self.rooms.slots_map() =~= old(self).rooms.slots_map().insert(
                    index,
                    stamped,
                ));
                Ok(stamped)
            },
            Err(e) => Err(e),
        }
    }

    /// Removes the room with the given identifier, silently succeeding as a
    /// no-op when the identifier is not live.  Sessions are untouched.
    ///
    /// The session identifier is accepted for future authorization and is
    /// deliberately not validated against the session table.
    pub fn remove_room(&mut self, id: u8, _session_id: SessionId)
        requires
            old(self).wf(),
        ensures
            final(self).wf(),
            final(self).user_sessions == old(self).user_sessions,
            if old(self).rooms.slots_map().contains_key(id) {
                &&& final(self).rooms.slots_map() == old(self).rooms.slots_map().remove(id)
                &&& final(self).rooms.slots_map().len() == old(self).rooms.slots_map().len() - 1
                &&& final(self).rooms.free_ids() == old(self).rooms.free_ids().push(id)
            } else {
                &&& final(self).rooms.slots_map() == old(self).rooms.slots_map()
                &&& final(self).rooms.free_ids() == old(self).rooms.free_ids()
            },
            final(self).rooms.next_fresh() == old(self).rooms.next_fresh(),
    {
        self.rooms.remove_item(id);
    }

    /// Creates a session for the given external ("guise") identity, with an
    /// empty display name, and returns the new session identifier.  Fails
    /// exactly when the session identifier space is exhausted, leaving the
    /// registry unchanged.  Rooms are untouched.
    pub fn login_user(&mut self, guise_session_id: u64) -> (r: Result<SessionId, CapacityError>)
        requires
            old(self).wf(),
        ensures
            final(self).wf(),
            final(self).rooms == old(self).rooms,
            r is Ok <==> old(self).user_sessions.can_allocate(),
            match r {
                Ok(sid) => {
                    &&& sid < 256
                    &&& sid as int == old(self).user_sessions.next_alloc_id()
                    &&& !old(self).user_sessions.slots_map().contains_key(sid as u8)
                    &&& final(self).user_sessions.slots_map().dom() == old(self).user_sessions.slots_map().dom().insert(sid as u8)
                    &&& final(self).user_sessions.slots_map().len() == old(self).user_sessions.slots_map().len() + 1
                    &&& final(self).user_sessions.slots_map()[sid as u8].guise_user_id
                        == guise_session_id
                    &&& final(self).user_sessions.slots_map()[sid as u8].name@ == Seq::<
                        char,
                    >::empty()
                    &&& forall|j: u8|
                        j != sid as u8 && old(self).user_sessions.slots_map().contains_key(j)
                            ==> #[trigger] final(self).user_sessions.slots_map()[j] == old(self).user_sessions.slots_map()[j]
                    &&& !final(self).user_sessions.free_ids().contains(sid as u8)
                    &&& if old(self).user_sessions.free_ids().len() > 0 {
                        final(self).user_sessions.free_ids() == old(self).user_sessions.free_ids().drop_first() && final(self).user_sessions.next_fresh() == old(self).user_sessions.next_fresh()
                    } else {
                        final(self).user_sessions.free_ids() == old(self).user_sessions.free_ids()
                            && final(self).user_sessions.next_fresh() == old(self).user_sessions.next_fresh() + 1
                    }
                },
                Err(_) => {
                    &&& final(self).user_sessions.slots_map() == old(self).user_sessions.slots_map()
                    &&& final(self).user_sessions.free_ids() == old(self).user_sessions.free_ids()
                    &&& final(self).user_sessions.next_fresh() == old(self).user_sessions.next_fresh()
                },
            },
    {
        let session = UserSession { guise_user_id: guise_session_id, name: String::new() };
        match self.user_sessions.add_item(session) {
            Ok(unique_session_id) => Ok(unique_session_id as SessionId),
            Err(e) => Err(e),
        }
    }

    /// Looks the session identifier up; absent when no live session has it.
    /// A session identifier outside the 8-bit identifier space was never
    /// issued, so it is absent as well.  No side effects.
    pub fn get_user_session(&self, session_id: SessionId) -> (r: Option<&UserSession>)
        ensures
            match r {
                Some(s) => session_id < 256 && self.user_sessions.slots_map().contains_key(
                    session_id as u8,
                ) && *s == self.user_sessions.slots_map()[session_id as u8],
                None => session_id >= 256 || !self.user_sessions.slots_map().contains_key(
                    session_id as u8,
                ),
            },
    {
        if session_id < 256 {
            self.user_sessions.get_item(session_id as u8)
        } else {
            None
        }
    }
}

impl Default for Server {
    /// An empty registry, as [`Server::new`] creates it.
    fn default() -> (s: Self)
        ensures
            s.wf(),
            s.rooms.slots_map() == Map::<u8, Room>::empty(),
            s.rooms.free_ids() == Seq::<u8>::empty(),
            s.rooms.next_fresh() == 0,
            s.user_sessions.slots_map() == Map::<u8, UserSession>::empty(),
            s.user_sessions.free_ids() == Seq::<u8>::empty(),
            s.user_sessions.next_fresh() == 0,
    {
        Server::new()
    }
}

} // verus!
