//! The persisted per-guild aggregate and the records it is made of.

use vstd::prelude::*;

verus! {

/// Identifier that the chat platform gives to a guild, a member, a role or a channel.
#[derive(Clone, Copy, Debug, PartialEq, Eq, Structural)]
pub struct SnowflakeId(pub u64);

/// Identity of a case: the sixteen bytes of a universally unique identifier, read big-endian.
#[derive(Clone, Copy, Debug, PartialEq, Eq, Structural)]
pub struct CaseId(pub u128);

/// A dispute between two members, heard by a judge in a court room of its own.
///
/// A lawsuit with no verdict is active; one with a verdict is adjudicated and stays so.
#[derive(Debug, PartialEq)]
pub struct Lawsuit {
    pub id: CaseId,
    pub plaintiff: SnowflakeId,
    pub accused: SnowflakeId,
    pub judge: SnowflakeId,
    pub plaintiff_lawyer: Option<SnowflakeId>,
    pub accused_lawyer: Option<SnowflakeId>,
    pub reason: String,
    pub verdict: Option<String>,
    pub court_room: SnowflakeId,
}

impl Clone for Lawsuit {
    fn clone(&self) -> (copy: Self)
        ensures
            copy == *self,
    {
        let verdict = match &self.verdict {
            Some(text) => Some(text.clone()),
            None => None,
        };
        Lawsuit {
            id: self.id,
            plaintiff: self.plaintiff,
            accused: self.accused,
            judge: self.judge,
            plaintiff_lawyer: self.plaintiff_lawyer,
            accused_lawyer: self.accused_lawyer,
            reason: self.reason.clone(),
            verdict,
            court_room: self.court_room,
        }
    }
}

impl Lawsuit {
    /// The case is still waiting for its verdict.
    pub open spec fn is_active(&self) -> bool {
        self.verdict is None
    }

    pub fn active(&self) -> (open: bool)
        ensures
            open == self.is_active(),
    {
        self.verdict.is_none()
    }
}

/// A text channel provisioned for one lawsuit.
#[derive(Clone, Copy, Debug, PartialEq, Eq, Structural)]
pub struct CourtRoom {
    pub channel_id: SnowflakeId,
}

/// Everything that is persisted for one guild.
#[derive(Debug, PartialEq)]
pub struct State {
    pub guild_id: SnowflakeId,
    /// The role that marks imprisonment; while it is unset the prison is inactive.
    pub prison_role: Option<SnowflakeId>,
    /// The channel category under which court rooms are provisioned.
    pub court_category: Option<SnowflakeId>,
    /// In creation order.
    pub lawsuits: Vec<Lawsuit>,
    pub court_rooms: Vec<CourtRoom>,
    /// The members who are imprisoned; how often or where one is listed carries no meaning.
    pub prison_entries: Vec<SnowflakeId>,
}

/// What a [`State`] stands for: its lawsuits and rooms in order, its prisoners as a set.
pub struct StateView {
    pub guild_id: SnowflakeId,
    pub prison_role: Option<SnowflakeId>,
    pub court_category: Option<SnowflakeId>,
    pub lawsuits: Seq<Lawsuit>,
    pub court_rooms: Seq<CourtRoom>,
    pub prison_entries: Set<SnowflakeId>,
}

impl View for State {
    type V = StateView;

    open spec fn view(&self) -> StateView {
        StateView {
            guild_id: self.guild_id,
            prison_role: self.prison_role,
            court_category: self.court_category,
            lawsuits: self.lawsuits@,
            court_rooms: self.court_rooms@,
            prison_entries: self.prison_entries@.to_set(),
        }
    }
}

impl StateView {
    /// The aggregate of a guild of which nothing is recorded yet.
    pub open spec fn empty(guild_id: SnowflakeId) -> StateView {
        StateView {
            guild_id,
            prison_role: None,
            court_category: None,
            lawsuits: Seq::empty(),
            court_rooms: Seq::empty(),
            prison_entries: Set::empty(),
        }
    }

    /// Lawsuit `i` is bound to `room` and has no verdict.
    pub open spec fn is_active_in(self, i: int, room: SnowflakeId) -> bool {
        &&& 0 <= i < self.lawsuits.len()
        &&& self.lawsuits[i].court_room == room
        &&& self.lawsuits[i].verdict is None
    }

    /// Lawsuit `i` is the earliest active one in `room`.
    pub open spec fn is_first_active_in(self, i: int, room: SnowflakeId) -> bool {
        &&& self.is_active_in(i, room)
        &&& forall|j: int| 0 <= j < i ==> !self.is_active_in(j, room)
    }

    /// The position of the earliest active lawsuit in `room`, if the room hosts one.
    pub open spec fn active_case(self, room: SnowflakeId) -> Option<int> {
        if exists|i: int| self.is_first_active_in(i, room) {
            Some(choose|i: int| self.is_first_active_in(i, room))
        } else {
            None
        }
    }

    /// A court room record exists for the channel.
    pub open spec fn has_room(self, room: SnowflakeId) -> bool {
        exists|i: int|
            0 <= i < self.court_rooms.len() && #[trigger] self.court_rooms[i].channel_id == room
    }

    /// Some lawsuit, active or not, carries this identity.
    pub open spec fn has_case(self, id: CaseId) -> bool {
        exists|i: int| 0 <= i < self.lawsuits.len() && #[trigger] self.lawsuits[i].id == id
    }

    /// Some lawsuit, active or not, is bound to the channel.
    pub open spec fn has_case_in(self, room: SnowflakeId) -> bool {
        exists|i: int|
            0 <= i < self.lawsuits.len() && #[trigger] self.lawsuits[i].court_room == room
    }

    /// The channel is new to the aggregate: no room record and no lawsuit names it.
    pub open spec fn room_is_free(self, room: SnowflakeId) -> bool {
        !self.has_room(room) && !self.has_case_in(room)
    }

    /// The invariant of the aggregate: case identities are unique, court rooms are unique, and
    /// a room hosts at most one active case.
    pub open spec fn wf(self) -> bool {
        &&& forall|i: int, j: int|
            0 <= i < j < self.lawsuits.len() ==> #[trigger] self.lawsuits[i].id
                != #[trigger] self.lawsuits[j].id
        &&& forall|i: int, j: int|
            0 <= i < j < self.court_rooms.len() ==> #[trigger] self.court_rooms[i].channel_id
                != #[trigger] self.court_rooms[j].channel_id
        &&& forall|i: int, j: int|
            #![trigger self.lawsuits[i], self.lawsuits[j]]
            0 <= i < j < self.lawsuits.len() && self.lawsuits[i].verdict is None
                && self.lawsuits[j].verdict is None ==> self.lawsuits[i].court_room
                != self.lawsuits[j].court_room
    }
}

impl Clone for State {
    fn clone(&self) -> (copy: Self)
        ensures
            copy@ == self@,
    {
        let lawsuits = self.lawsuits.clone();
        let court_rooms = self.court_rooms.clone();
        let prison_entries = self.prison_entries.clone();
        assert(lawsuits@ =~= self.lawsuits@);
        assert(court_rooms@ =~= self.court_rooms@);
        assert(prison_entries@ =~= self.prison_entries@);
        State {
            guild_id: self.guild_id,
            prison_role: self.prison_role,
            court_category: self.court_category,
            lawsuits,
            court_rooms,
            prison_entries,
        }
    }
}

impl State {
    /// The aggregate that is persisted when a guild is first looked up.
    pub fn new(guild_id: SnowflakeId) -> (state: State)
        ensures
            state@ == StateView::empty(guild_id),
    {
        let state = State {
            guild_id,
            prison_role: None,
            court_category: None,
            lawsuits: Vec::new(),
            court_rooms: Vec::new(),
            prison_entries: Vec::new(),
        };
        assert(state.prison_entries@.to_set() =~= Set::<SnowflakeId>::empty());
        state
    }

    /// Looks up the active lawsuit that `room` hosts: the earliest one, should the aggregate
    /// list several.
    pub fn find_active_lawsuit(&self, room: SnowflakeId) -> (found: Option<usize>)
        ensures
            found matches Some(i) ==> self@.active_case(room) == Some(i as int),
            found is None ==> self@.active_case(room) is None,
            found matches Some(i) ==> self@.is_first_active_in(i as int, room),
            found is None ==> forall|i: int| !self@.is_active_in(i, room),
    {
        let mut i: usize = 0;
        while i < self.lawsuits.len()
            invariant
                i <= self.lawsuits.len(),
                forall|j: int| 0 <= j < i ==> !self@.is_active_in(j, room),
            decreases self.lawsuits.len() - i,
        {
            let lawsuit = &self.lawsuits[i];
            if lawsuit.court_room == room && lawsuit.verdict.is_none() {
                proof {
                    let view = self@;
                    assert(view.is_first_active_in(i as int, room));
                    let chosen = choose|k: int| view.is_first_active_in(k, room);
                    assert(view.is_first_active_in(chosen, room));
                    assert(view.is_active_in(chosen, room));
                    assert(view.is_active_in(i as int, room));
                    assert(chosen == i);
                }
                return Some(i);
            }
            i += 1;
        }
        proof {
            let view = self@;
            assert forall|k: int| !view.is_first_active_in(k, room) by {
                assert(!view.is_active_in(k, room));
            }
        }
        None
    }

    /// Looks up the court room record of a channel.
    pub fn find_court_room(&self, room: SnowflakeId) -> (found: Option<CourtRoom>)
        ensures
            found == if self@.has_room(room) {
                Some(CourtRoom { channel_id: room })
            } else {
                None
            },
    {
        let mut i: usize = 0;
        while i < self.court_rooms.len()
            invariant
                i <= self.court_rooms.len(),
                forall|j: int| 0 <= j < i ==> self.court_rooms@[j].channel_id != room,
            decreases self.court_rooms.len() - i,
        {
            if self.court_rooms[i].channel_id == room {
                assert(self@.court_rooms[i as int].channel_id == room);
                return Some(self.court_rooms[i]);
            }
            i += 1;
        }
        None
    }

    pub fn has_case(&self, id: CaseId) -> (found: bool)
        ensures
            found == self@.has_case(id),
    {
        let mut i: usize = 0;
        while i < self.lawsuits.len()
            invariant
                i <= self.lawsuits.len(),
                forall|j: int| 0 <= j < i ==> self.lawsuits@[j].id != id,
            decreases self.lawsuits.len() - i,
        {
            if self.lawsuits[i].id == id {
                assert(self@.lawsuits[i as int].id == id);
                return true;
            }
            i += 1;
        }
        false
    }

    pub fn has_case_in(&self, room: SnowflakeId) -> (found: bool)
        ensures
            found == self@.has_case_in(room),
    {
        let mut i: usize = 0;
        while i < self.lawsuits.len()
            invariant
                i <= self.lawsuits.len(),
                forall|j: int| 0 <= j < i ==> self.lawsuits@[j].court_room != room,
            decreases self.lawsuits.len() - i,
        {
            if self.lawsuits[i].court_room == room {
                assert(self@.lawsuits[i as int].court_room == room);
                return true;
            }
            i += 1;
        }
        false
    }

    pub fn room_is_free(&self, room: SnowflakeId) -> (free: bool)
        ensures
            free == self@.room_is_free(room),
    {
        self.find_court_room(room).is_none() && !self.has_case_in(room)
    }

    /// Whether the member is recorded as imprisoned.
    pub fn in_prison(&self, user: SnowflakeId) -> (held: bool)
        ensures
            held == self@.prison_entries.contains(user),
    {
        let mut i: usize = 0;
        while i < self.prison_entries.len()
            invariant
                i <= self.prison_entries.len(),
                forall|j: int| 0 <= j < i ==> self.prison_entries@[j] != user,
            decreases self.prison_entries.len() - i,
        {
            if self.prison_entries[i] == user {
                assert(self.prison_entries@[i as int] == user);
                return true;
            }
            i += 1;
        }
        false
    }
}

} // verus!
