//! The session orchestrator's bookkeeping.
//!
//! A session is one bot-in-room lifetime, identified by its room
//! name.  The registry enforces the one-bot-per-room rule: starting a
//! session for a room that already has a live one is rejected, and a
//! room-ended signal retires the name.  The signed-credential scope
//! the bot asks for when joining a room is fixed here as plain data;
//! signing it, and everything else that touches the room transport,
//! happens outside the library.

use vstd::prelude::*;

use crate::dispatch::spec_views;

verus! {

/// Time-to-live of the bot's signed room credential, in seconds.
pub const BOT_TOKEN_TTL_SECS: u64 = 300;

/// Why a session could not be started.
#[derive(Clone, Copy, Debug, PartialEq, Eq, Structural)]
pub enum SessionError {
    /// The room already has a live bot session.
    AlreadyActive,
}

/// The scope of the signed credential the bot joins a room with.
pub struct BotGrants {
    pub room: String,
    pub identity: String,
    pub name: String,
    pub ttl_secs: u64,
    pub room_list: bool,
    pub room_join: bool,
    pub room_admin: bool,
    pub can_publish: bool,
    pub room_record: bool,
    pub can_subscribe: bool,
    pub can_publish_data: bool,
    pub can_update_own_metadata: bool,
}

/// The credential scope for one room: the bot's fixed identity,
/// scoped to that room alone, with a short time-to-live.
pub fn bot_grants(room_name: &str) -> (g: BotGrants)
    ensures
        g.room@ == room_name@,
        g.identity@ == "SeeRee"@,
        g.name@ == "SeeRee"@,
        g.ttl_secs == BOT_TOKEN_TTL_SECS,
        g.room_list && g.room_join && g.room_admin && g.can_publish && g.room_record
            && g.can_subscribe && g.can_publish_data && g.can_update_own_metadata,
{
    BotGrants {
        room: String::from_str(room_name),
        identity: String::from_str("SeeRee"),
        name: String::from_str("SeeRee"),
        ttl_secs: BOT_TOKEN_TTL_SECS,
        room_list: true,
        room_join: true,
        room_admin: true,
        can_publish: true,
        room_record: true,
        can_subscribe: true,
        can_publish_data: true,
        can_update_own_metadata: true,
    }
}

/// The live sessions, one per room name.
pub struct SessionRegistry {
    /// The names of rooms with a live session.
    pub rooms: Vec<String>,
}

impl SessionRegistry {
    /// The names of the rooms with a live session, in start order.
    pub open spec fn active_rooms(self) -> Seq<Seq<char>> {
        spec_views(self.rooms@)
    }

    /// At most one live session per room name.
    pub open spec fn wf(self) -> bool {
        forall|i: int, j: int|
            0 <= i < j < self.active_rooms().len() ==> self.active_rooms()[i] != self.active_rooms()[j]
    }

    /// Whether the room has a live session.
    pub open spec fn spec_is_active(self, room: Seq<char>) -> bool {
        self.active_rooms().contains(room)
    }

    pub fn new() -> (r: SessionRegistry)
        ensures
            r.wf(),
            r.active_rooms() == Seq::<Seq<char>>::empty(),
    {
        let r = SessionRegistry { rooms: Vec::new() };
        proof {
            assert(r.active_rooms() =~= Seq::<Seq<char>>::empty());
        }
        r
    }

    /// The observable active/inactive flag for one room.
    pub fn is_active(&self, room: &str) -> (r: bool)
        ensures
            r == self.spec_is_active(room@),
    {
        let target = String::from_str(room);
        let n = self.rooms.len();
        let mut i: usize = 0;
        while i < n
            invariant
                0 <= i <= n,
                n == self.rooms@.len(),
                target@ == room@,
                forall|j: int| 0 <= j < i ==> self.active_rooms()[j] != room@,
            decreases n - i,
        {
            if self.rooms[i] == target {
                proof {
                    assert(self.active_rooms()[i as int] == room@);
                }
                return true;
            }
            i += 1;
        }
        proof {
            if self.spec_is_active(room@) {
                let k = choose|k: int|
                    0 <= k < self.active_rooms().len() && self.active_rooms()[k] == room@;
                assert(false);
            }
        }
        false
    }

    /// Start a session for the room: succeeds, and registers the
    /// name, exactly when the room has no live session yet; otherwise
    /// nothing changes and the start is rejected.
    pub fn start_session(&mut self, room: &str) -> (r: Result<(), SessionError>)
        requires
            old(self).wf(),
        ensures
            final(self).wf(),
            (r is Ok) == !old(self).spec_is_active(room@),
            r is Ok ==> final(self).active_rooms() == old(self).active_rooms().push(room@),
            r is Ok ==> final(self).spec_is_active(room@),
            r is Err ==> *final(self) == *old(self) && (r matches Err(e) && e is AlreadyActive),
    {
        if self.is_active(room) {
            Err(SessionError::AlreadyActive)
        } else {
            self.rooms.push(String::from_str(room));
            proof {
                assert(self.active_rooms() =~= old(self).active_rooms().push(room@));
                assert(self.active_rooms().last() == room@);
                assert(self.spec_is_active(room@));
                assert forall|i: int, j: int|
                    0 <= i < j < self.active_rooms().len() implies self.active_rooms()[i]
                    != self.active_rooms()[j] by {
                    if j == self.active_rooms().len() - 1 {
                        assert(!old(self).spec_is_active(room@));
                        assert(old(self).active_rooms()[i] != room@);
                    }
                }
            }
            Ok(())
        }
    }

    /// End the room's session, if it has one: afterwards the room has
    /// no live session, and every other room's session is untouched.
    /// Returns whether a session was live.
    pub fn end_session(&mut self, room: &str) -> (was_active: bool)
        requires
            old(self).wf(),
        ensures
            final(self).wf(),
            was_active == old(self).spec_is_active(room@),
            !final(self).spec_is_active(room@),
            forall|n: Seq<char>|
                n != room@
                    ==> final(self).spec_is_active(n) == old(self).spec_is_active(n),
            final(self).active_rooms().len()
                == old(self).active_rooms().len() - (if was_active { 1int } else { 0int }),
    {
        let target = String::from_str(room);
        let n = self.rooms.len();
        let mut i: usize = 0;
        while i < n
            invariant
                0 <= i <= n,
                n == self.rooms@.len(),
                target@ == room@,
                old(self).wf(),
                *self == *old(self),
                forall|j: int| 0 <= j < i ==> self.active_rooms()[j] != room@,
            decreases n - i,
        {
            if self.rooms[i] == target {
                proof {
                    assert(old(self).active_rooms()[i as int] == room@);
                }
                self.rooms.remove(i);
                proof {
                    let vold = old(self).active_rooms();
                    let vnew = self.active_rooms();
                    let idx = i as int;
                    assert(vnew =~= vold.remove(idx));
                    assert(vold[idx] == room@);
                    assert forall|a: int, b: int|
                        0 <= a < b < vnew.len() implies vnew[a] != vnew[b] by {
                        let a0 = if a < idx { a } else { a + 1 };
                        let b0 = if b < idx { b } else { b + 1 };
                        assert(vnew[a] == vold[a0]);
                        assert(vnew[b] == vold[b0]);
                    }
                    assert(!vnew.contains(room@)) by {
                        if vnew.contains(room@) {
                            let k = choose|k: int| 0 <= k < vnew.len() && vnew[k] == room@;
                            let k0 = if k < idx { k } else { k + 1 };
                            assert(vold[k0] == room@);
                            assert(vold[idx] == room@);
                        }
                    }
                    assert forall|m: Seq<char>|
                        m != room@ implies vnew.contains(m) == vold.contains(m) by {
                        if vold.contains(m) {
                            let k = choose|k: int| 0 <= k < vold.len() && vold[k] == m;
                            if k < idx {
                                assert(vnew[k] == m);
                            } else {
                                assert(k != idx);
                                assert(vnew[k - 1] == m);
                            }
                        }
                        if vnew.contains(m) {
                            let k = choose|k: int| 0 <= k < vnew.len() && vnew[k] == m;
                            let k0 = if k < idx { k } else { k + 1 };
                            assert(vold[k0] == m);
                        }
                    }
                    assert(vold.contains(room@)) by {
                        assert(vold[idx] == room@);
                    }
                }
                return true;
            }
            i += 1;
        }
        proof {
            if old(self).spec_is_active(room@) {
                let k = choose|k: int|
                    0 <= k < old(self).active_rooms().len() && old(self).active_rooms()[k] == room@;
                assert(false);
            }
        }
        false
    }
}

} // verus!
