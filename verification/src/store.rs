//! The guild aggregate store: field-level updates of one aggregate, and a store that keeps
//! one aggregate per guild in memory.

use vstd::prelude::*;
use crate::model::{CaseId, CourtRoom, Lawsuit, SnowflakeId, State, StateView};
use crate::protocol::{Effect, Event};

verus! {

/// One field-level update of a guild's aggregate. Each touches a single field, so that two
/// updates of different fields of one guild do not overwrite each other.
#[derive(Debug, PartialEq)]
pub enum StoreOp {
    SetPrisonRole(SnowflakeId),
    SetCourtCategory(SnowflakeId),
    AddLawsuit(Lawsuit),
    AddCourtRoom(CourtRoom),
    /// Closes the case of this identity, unless it is closed already.
    SetVerdict { case: CaseId, verdict: String },
    AddToPrison(SnowflakeId),
    RemoveFromPrison(SnowflakeId),
}

impl Clone for StoreOp {
    fn clone(&self) -> (copy: Self)
        ensures
            copy == *self,
    {
        match self {
            StoreOp::SetPrisonRole(role) => StoreOp::SetPrisonRole(*role),
            StoreOp::SetCourtCategory(category) => StoreOp::SetCourtCategory(*category),
            StoreOp::AddLawsuit(lawsuit) => StoreOp::AddLawsuit(lawsuit.clone()),
            StoreOp::AddCourtRoom(room) => StoreOp::AddCourtRoom(*room),
            StoreOp::SetVerdict { case, verdict } => StoreOp::SetVerdict {
                case: *case,
                verdict: verdict.clone(),
            },
            StoreOp::AddToPrison(user) => StoreOp::AddToPrison(*user),
            StoreOp::RemoveFromPrison(user) => StoreOp::RemoveFromPrison(*user),
        }
    }
}

/// The lawsuit as it reads once `verdict` has been ruled.
pub open spec fn adjudicated(lawsuit: Lawsuit, verdict: String) -> Lawsuit {
    Lawsuit { verdict: Some(verdict), ..lawsuit }
}

impl StateView {
    /// The lawsuits after a verdict was recorded for `case`: an active lawsuit of that
    /// identity is closed with the verdict, every other lawsuit is as before.
    pub open spec fn with_verdict(self, case: CaseId, verdict: String) -> Seq<Lawsuit> {
        Seq::new(
            self.lawsuits.len(),
            |i: int|
                if self.lawsuits[i].id == case && self.lawsuits[i].verdict is None {
                    adjudicated(self.lawsuits[i], verdict)
                } else {
                    self.lawsuits[i]
                },
        )
    }

    /// The aggregate after one field-level update.
    pub open spec fn apply(self, op: StoreOp) -> StateView {
        match op {
            StoreOp::SetPrisonRole(role) => StateView { prison_role: Some(role), ..self },
            StoreOp::SetCourtCategory(category) => StateView {
                court_category: Some(category),
                ..self
            },
            StoreOp::AddLawsuit(lawsuit) => StateView {
                lawsuits: self.lawsuits.push(lawsuit),
                ..self
            },
            StoreOp::AddCourtRoom(room) => StateView {
                court_rooms: self.court_rooms.push(room),
                ..self
            },
            StoreOp::SetVerdict { case, verdict } => StateView {
                lawsuits: self.with_verdict(case, verdict),
                ..self
            },
            StoreOp::AddToPrison(user) => StateView {
                prison_entries: self.prison_entries.insert(user),
                ..self
            },
            StoreOp::RemoveFromPrison(user) => StateView {
                prison_entries: self.prison_entries.remove(user),
                ..self
            },
        }
    }
}

impl State {
    fn record_verdict(&mut self, case: CaseId, verdict: String)
        ensures
            final(self)@ == old(self)@.apply(StoreOp::SetVerdict { case, verdict }),
    {
        let ghost before = self@;
        let mut i: usize = 0;
        while i < self.lawsuits.len()
            invariant
                i <= self.lawsuits.len(),
                self.lawsuits.len() == before.lawsuits.len(),
                self@ == (StateView { lawsuits: self.lawsuits@, ..before }),
                forall|j: int| 0 <= j < i ==> self.lawsuits@[j] == before.with_verdict(case, verdict)[j],
                forall|j: int| i <= j < self.lawsuits.len() ==> self.lawsuits@[j] == before.lawsuits[j],
            decreases self.lawsuits.len() - i,
        {
            if self.lawsuits[i].id == case && self.lawsuits[i].verdict.is_none() {
                let mut closed = self.lawsuits[i].clone();
                closed.verdict = Some(verdict.clone());
                self.lawsuits.set(i, closed);
            }
            i += 1;
        }
        assert(self.lawsuits@ =~= before.with_verdict(case, verdict));
    }

    fn forget_prisoner(&mut self, user: SnowflakeId)
        ensures
            final(self)@ == old(self)@.apply(StoreOp::RemoveFromPrison(user)),
    {
        let ghost before = self@;
        let mut kept: Vec<SnowflakeId> = Vec::new();
        let mut i: usize = 0;
        while i < self.prison_entries.len()
            invariant
                i <= self.prison_entries.len(),
                self@ == before,
                forall|k: int| 0 <= k < kept.len() ==> kept@[k] != user && self.prison_entries@.contains(kept@[k]),
                forall|j: int| 0 <= j < i && self.prison_entries@[j] != user ==> kept@.contains(self.prison_entries@[j]),
            decreases self.prison_entries.len() - i,
        {
            let entry = self.prison_entries[i];
            if entry != user {
                let ghost earlier = kept@;
                kept.push(entry);
                assert(kept@[kept.len() - 1] == entry);
                assert forall|j: int| 0 <= j < i && self.prison_entries@[j] != user implies kept@.contains(self.prison_entries@[j]) by {
                    let at = choose|k: int| 0 <= k < earlier.len() && earlier[k] == self.prison_entries@[j];
                    assert(kept@[at] == self.prison_entries@[j]);
                }
            }
            i += 1;
        }
        let ghost entries = self.prison_entries@;
        self.prison_entries = kept;
        assert(self.prison_entries@.to_set() =~= before.prison_entries.remove(user)) by {
            assert forall|x: SnowflakeId| self.prison_entries@.to_set().contains(x) == before.prison_entries.remove(user).contains(x) by {
                if self.prison_entries@.contains(x) {
                    assert(entries.contains(x));
                }
                if entries.contains(x) && x != user {
                    let j = choose|j: int| 0 <= j < entries.len() && entries[j] == x;
                    assert(self.prison_entries@.contains(entries[j]));
                }
            }
        }
    }

    /// Carries out one field-level update.
    pub fn apply(&mut self, op: StoreOp)
        ensures
            final(self)@ == old(self)@.apply(op),
    {
        match op {
            StoreOp::SetPrisonRole(role) => {
                self.prison_role = Some(role);
            },
            StoreOp::SetCourtCategory(category) => {
                self.court_category = Some(category);
            },
            StoreOp::AddLawsuit(lawsuit) => {
                self.lawsuits.push(lawsuit);
            },
            StoreOp::AddCourtRoom(room) => {
                self.court_rooms.push(room);
            },
            StoreOp::SetVerdict { case, verdict } => {
                self.record_verdict(case, verdict);
            },
            StoreOp::AddToPrison(user) => {
                let ghost before = self.prison_entries@;
                if !self.in_prison(user) {
                    self.prison_entries.push(user);
                    assert(self.prison_entries@[before.len() as int] == user);
                    assert forall|x: SnowflakeId| before.contains(x) implies self.prison_entries@.contains(x) by {
                        let k = choose|k: int| 0 <= k < before.len() && before[k] == x;
                        assert(self.prison_entries@[k] == x);
                    }
                }
                assert(self.prison_entries@.to_set() =~= before.to_set().insert(user));
            },
            StoreOp::RemoveFromPrison(user) => {
                self.forget_prisoner(user);
            },
        }
    }
}

/// The store's contents after a guild was looked up: an aggregate that exists is left as it
/// is, a missing one is created empty.
pub open spec fn ensured(
    guilds: Map<SnowflakeId, StateView>,
    guild: SnowflakeId,
) -> Map<SnowflakeId, StateView> {
    if guilds.dom().contains(guild) {
        guilds
    } else {
        guilds.insert(guild, StateView::empty(guild))
    }
}

/// The store's contents after a field-level update of one guild. The update creates the
/// aggregate where the guild has none yet.
pub open spec fn updated(
    guilds: Map<SnowflakeId, StateView>,
    guild: SnowflakeId,
    op: StoreOp,
) -> Map<SnowflakeId, StateView> {
    guilds.insert(guild, ensured(guilds, guild)[guild].apply(op))
}

/// A store that keeps the aggregates in memory: the reference for what the persisted store
/// holds after each operation. It never holds two aggregates for one guild.
pub struct GuildStore {
    guilds: Vec<State>,
}

impl View for GuildStore {
    type V = Map<SnowflakeId, StateView>;

    closed spec fn view(&self) -> Map<SnowflakeId, StateView> {
        Map::new(
            |guild: SnowflakeId| self.holds(guild),
            |guild: SnowflakeId| self.guilds@[self.slot(guild)]@,
        )
    }
}

impl GuildStore {
    spec fn holds(&self, guild: SnowflakeId) -> bool {
        exists|i: int| 0 <= i < self.guilds@.len() && #[trigger] self.guilds@[i].guild_id == guild
    }

    spec fn slot(&self, guild: SnowflakeId) -> int {
        choose|i: int| 0 <= i < self.guilds@.len() && #[trigger] self.guilds@[i].guild_id == guild
    }

    /// The store's invariant: no two aggregates are kept for one guild.
    pub closed spec fn wf(&self) -> bool {
        forall|i: int, j: int|
            0 <= i < j < self.guilds@.len() ==> #[trigger] self.guilds@[i].guild_id
                != #[trigger] self.guilds@[j].guild_id
    }

    proof fn slot_of(&self, i: int)
        requires
            self.wf(),
            0 <= i < self.guilds@.len(),
        ensures
            self.holds(self.guilds@[i].guild_id),
            self.slot(self.guilds@[i].guild_id) == i,
            self@[self.guilds@[i].guild_id] == self.guilds@[i]@,
    {
        let guild = self.guilds@[i].guild_id;
        let chosen = self.slot(guild);
        assert(self.guilds@[chosen].guild_id == guild);
        if chosen < i {
            assert(self.guilds@[chosen].guild_id != self.guilds@[i].guild_id);
        } else if i < chosen {
            assert(self.guilds@[i].guild_id != self.guilds@[chosen].guild_id);
        }
    }

    /// Appending an aggregate for a guild that had none files it under that guild and leaves
    /// the others alone.
    proof fn pushed(before: GuildStore, after: GuildStore)
        requires
            before.wf(),
            after.guilds@.len() == before.guilds@.len() + 1,
            after.guilds@.drop_last() == before.guilds@,
            !before.holds(after.guilds@.last().guild_id),
        ensures
            after.wf(),
            after@ == before@.insert(after.guilds@.last().guild_id, after.guilds@.last()@),
    {
        let last = before.guilds@.len() as int;
        let guild = after.guilds@[last].guild_id;
        assert forall|k: int| 0 <= k < last implies after.guilds@[k] == before.guilds@[k] by {
            assert(after.guilds@.drop_last()[k] == after.guilds@[k]);
        }
        assert(after.wf());
        after.slot_of(last);
        assert forall|g: SnowflakeId| #[trigger] before@.dom().contains(g) implies after@.dom().contains(g)
            && after@[g] == before@[g] by {
            let k = before.slot(g);
            before.slot_of(k);
            assert(after.guilds@[k].guild_id == g);
            after.slot_of(k);
        }
        assert forall|g: SnowflakeId| #[trigger] after@.dom().contains(g) && g != guild implies before@.dom().contains(g) by {
            let k = after.slot(g);
            assert(k != last);
            assert(before.guilds@[k].guild_id == g);
        }
        let goal = before@.insert(guild, after.guilds@[last]@);
        assert(after@.dom() =~= goal.dom());
        assert(after@ =~= goal);
    }

    /// Replacing one aggregate by another for the same guild changes that guild's entry only.
    proof fn replaced(before: GuildStore, after: GuildStore, i: int)
        requires
            before.wf(),
            0 <= i < before.guilds@.len(),
            after.guilds@.len() == before.guilds@.len(),
            after.guilds@[i].guild_id == before.guilds@[i].guild_id,
            forall|k: int| 0 <= k < before.guilds@.len() && k != i ==> after.guilds@[k] == before.guilds@[k],
        ensures
            after.wf(),
            after@ == before@.insert(before.guilds@[i].guild_id, after.guilds@[i]@),
    {
        let guild = before.guilds@[i].guild_id;
        assert forall|k: int| 0 <= k < before.guilds@.len() implies #[trigger] after.guilds@[k].guild_id
            == before.guilds@[k].guild_id by {}
        assert(after.wf());
        after.slot_of(i);
        before.slot_of(i);
        assert forall|g: SnowflakeId| #[trigger] before@.dom().contains(g) implies after@.dom().contains(g)
            && (g != guild ==> after@[g] == before@[g]) by {
            let k = before.slot(g);
            before.slot_of(k);
            assert(after.guilds@[k].guild_id == g);
            after.slot_of(k);
        }
        assert forall|g: SnowflakeId| #[trigger] after@.dom().contains(g) implies before@.dom().contains(g) by {
            let k = after.slot(g);
            assert(before.guilds@[k].guild_id == g);
        }
        let goal = before@.insert(guild, after.guilds@[i]@);
        assert(after@.dom() =~= goal.dom());
        assert(after@ =~= goal);
    }

    /// Dropping one aggregate removes that guild's entry only.
    proof fn dropped(before: GuildStore, after: GuildStore, i: int)
        requires
            before.wf(),
            0 <= i < before.guilds@.len(),
            after.guilds@ == before.guilds@.remove(i),
        ensures
            after.wf(),
            after@ == before@.remove(before.guilds@[i].guild_id),
    {
        let guild = before.guilds@[i].guild_id;
        assert forall|k: int| 0 <= k < after.guilds@.len() implies #[trigger] after.guilds@[k] == before.guilds@[if k
            < i {
            k
        } else {
            k + 1
        }] by {}
        assert(after.wf()) by {
            assert forall|a: int, b: int| 0 <= a < b < after.guilds@.len() implies #[trigger] after.guilds@[a].guild_id
                != #[trigger] after.guilds@[b].guild_id by {
                let a0 = if a < i { a } else { a + 1 };
                let b0 = if b < i { b } else { b + 1 };
                assert(before.guilds@[a0].guild_id != before.guilds@[b0].guild_id);
            }
        }
        assert forall|g: SnowflakeId| #[trigger] before@.dom().contains(g) && g != guild implies after@.dom().contains(g)
            && after@[g] == before@[g] by {
            let k = before.slot(g);
            before.slot_of(k);
            let k1 = if k < i { k } else { k - 1 };
            assert(after.guilds@[k1].guild_id == g);
            after.slot_of(k1);
        }
        assert forall|g: SnowflakeId| #[trigger] after@.dom().contains(g) implies before@.dom().contains(g) && g
            != guild by {
            let k = after.slot(g);
            let k0 = if k < i { k } else { k + 1 };
            assert(before.guilds@[k0].guild_id == g);
            if g == guild {
                if k0 < i {
                    assert(before.guilds@[k0].guild_id != before.guilds@[i].guild_id);
                } else {
                    assert(before.guilds@[i].guild_id != before.guilds@[k0].guild_id);
                }
            }
        }
        let goal = before@.remove(guild);
        assert(after@.dom() =~= goal.dom());
        assert(after@ =~= goal);
    }

    /// How many aggregates are kept for the guild.
    pub closed spec fn copies(&self, guild: SnowflakeId) -> nat {
        Self::count(self.guilds@, guild)
    }

    spec fn count(guilds: Seq<State>, guild: SnowflakeId) -> nat
        decreases guilds.len(),
    {
        if guilds.len() == 0 {
            0
        } else {
            Self::count(guilds.drop_last(), guild) + if guilds.last().guild_id == guild {
                1nat
            } else {
                0nat
            }
        }
    }

    proof fn count_of_distinct(guilds: Seq<State>, guild: SnowflakeId)
        requires
            forall|i: int, j: int|
                0 <= i < j < guilds.len() ==> #[trigger] guilds[i].guild_id
                    != #[trigger] guilds[j].guild_id,
        ensures
            Self::count(guilds, guild) == if exists|i: int|
                0 <= i < guilds.len() && #[trigger] guilds[i].guild_id == guild {
                1nat
            } else {
                0nat
            },
        decreases guilds.len(),
    {
        if guilds.len() > 0 {
            let front = guilds.drop_last();
            let last = guilds.len() - 1;
            assert forall|i: int| 0 <= i < front.len() implies front[i] == guilds[i] by {}
            Self::count_of_distinct(front, guild);
            if guilds[last].guild_id == guild {
                assert forall|i: int| 0 <= i < front.len() implies #[trigger] front[i].guild_id
                    != guild by {
                    assert(guilds[i].guild_id != guilds[last].guild_id);
                }
            } else if exists|i: int| 0 <= i < guilds.len() && #[trigger] guilds[i].guild_id == guild {
                let i = choose|i: int| 0 <= i < guilds.len() && #[trigger] guilds[i].guild_id == guild;
                assert(front[i].guild_id == guild);
            } else {
                assert forall|i: int| 0 <= i < front.len() implies #[trigger] front[i].guild_id
                    != guild by {
                    assert(guilds[i].guild_id != guild);
                }
            }
        }
    }

    /// A guild that the store knows has exactly one aggregate, and any other guild has none.
    pub proof fn one_aggregate_per_guild(&self, guild: SnowflakeId)
        requires
            self.wf(),
        ensures
            self.copies(guild) == if self@.dom().contains(guild) {
                1nat
            } else {
                0nat
            },
    {
        Self::count_of_distinct(self.guilds@, guild);
    }

    /// Every aggregate is filed under the guild that it names.
    pub proof fn keyed_by_guild(&self, guild: SnowflakeId)
        requires
            self@.dom().contains(guild),
        ensures
            self@[guild].guild_id == guild,
    {
        assert(self.holds(guild));
    }

    /// A store without any aggregate.
    pub fn new() -> (store: GuildStore)
        ensures
            store.wf(),
            store@ == Map::<SnowflakeId, StateView>::empty(),
    {
        let store = GuildStore { guilds: Vec::new() };
        assert(store@ =~= Map::<SnowflakeId, StateView>::empty());
        store
    }

    fn position(&self, guild: SnowflakeId) -> (found: Option<usize>)
        requires
            self.wf(),
        ensures
            found matches Some(i) ==> i < self.guilds@.len() && self.guilds@[i as int].guild_id == guild
                && self@.dom().contains(guild) && self@[guild] == self.guilds@[i as int]@,
            found is None ==> !self@.dom().contains(guild),
            found is None ==> forall|i: int| 0 <= i < self.guilds@.len() ==> self.guilds@[i].guild_id != guild,
    {
        let mut i: usize = 0;
        while i < self.guilds.len()
            invariant
                self.wf(),
                i <= self.guilds.len(),
                forall|j: int| 0 <= j < i ==> self.guilds@[j].guild_id != guild,
            decreases self.guilds.len() - i,
        {
            if self.guilds[i].guild_id == guild {
                proof {
                    self.slot_of(i as int);
                }
                return Some(i);
            }
            i += 1;
        }
        None
    }

    /// Whether an aggregate is persisted for the guild.
    pub fn contains(&self, guild: SnowflakeId) -> (held: bool)
        requires
            self.wf(),
        ensures
            held == self@.dom().contains(guild),
    {
        self.position(guild).is_some()
    }

    /// Returns the guild's aggregate, creating and persisting an empty one where the guild
    /// has none. Looking a guild up again changes nothing.
    pub fn find_or_insert_state(&mut self, guild: SnowflakeId) -> (state: State)
        requires
            old(self).wf(),
        ensures
            final(self).wf(),
            final(self)@ == ensured(old(self)@, guild),
            final(self)@.dom().contains(guild),
            state@ == final(self)@[guild],
            state@.guild_id == guild,
    {
        match self.position(guild) {
            Some(i) => {
                proof {
                    self.slot_of(i as int);
                }
                self.guilds[i].clone()
            },
            None => {
                let ghost before = *self;
                self.guilds.push(State::new(guild));
                proof {
                    assert(self.guilds@.drop_last() =~= before.guilds@);
                    Self::pushed(before, *self);
                }
                State::new(guild)
            },
        }
    }
    /// Carries out one field-level update of the guild's aggregate, creating the aggregate
    /// first where the guild has none.
    pub fn update(&mut self, guild: SnowflakeId, op: StoreOp)
        requires
            old(self).wf(),
        ensures
            final(self).wf(),
            final(self)@ == updated(old(self)@, guild, op),
    {
        let ghost before = *self;
        match self.position(guild) {
            Some(i) => {
                let mut state = self.guilds[i].clone();
                state.apply(op);
                self.guilds.set(i, state);
                proof {
                    Self::replaced(before, *self, i as int);
                    assert(self@ =~= updated(before@, guild, op));
                }
            },
            None => {
                let mut state = State::new(guild);
                state.apply(op);
                self.guilds.push(state);
                proof {
                    assert(self.guilds@.drop_last() =~= before.guilds@);
                    Self::pushed(before, *self);
                }
            },
        }
    }

    /// Whether the member is recorded as imprisoned in the guild.
    pub fn find_prison_entry(&self, guild: SnowflakeId, user: SnowflakeId) -> (found: bool)
        requires
            self.wf(),
        ensures
            found == (self@.dom().contains(guild) && self@[guild].prison_entries.contains(user)),
    {
        match self.position(guild) {
            Some(i) => self.guilds[i].in_prison(user),
            None => false,
        }
    }

    /// Deletes whatever is persisted for the guild: configuration, lawsuits, court rooms and
    /// prison entries.
    pub fn delete_guild(&mut self, guild: SnowflakeId)
        requires
            old(self).wf(),
        ensures
            final(self).wf(),
            final(self)@ == old(self)@.remove(guild),
    {
        let ghost before = *self;
        match self.position(guild) {
            Some(i) => {
                self.guilds.remove(i);
                proof {
                    Self::dropped(before, *self, i as int);
                }
            },
            None => {
                assert(self@ =~= before@.remove(guild));
            },
        }
    }
    /// Configures the role that marks imprisonment in the guild.
    pub fn set_prison_role(&mut self, guild: SnowflakeId, role: SnowflakeId)
        requires
            old(self).wf(),
        ensures
            final(self).wf(),
            final(self)@ == updated(old(self)@, guild, StoreOp::SetPrisonRole(role)),
    {
        self.update(guild, StoreOp::SetPrisonRole(role))
    }

    /// Configures the category under which the guild's court rooms are created.
    pub fn set_court_category(&mut self, guild: SnowflakeId, category: SnowflakeId)
        requires
            old(self).wf(),
        ensures
            final(self).wf(),
            final(self)@ == updated(old(self)@, guild, StoreOp::SetCourtCategory(category)),
    {
        self.update(guild, StoreOp::SetCourtCategory(category))
    }

    /// Appends a lawsuit to those of the guild.
    pub fn add_lawsuit(&mut self, guild: SnowflakeId, lawsuit: Lawsuit)
        requires
            old(self).wf(),
        ensures
            final(self).wf(),
            final(self)@ == updated(old(self)@, guild, StoreOp::AddLawsuit(lawsuit)),
    {
        self.update(guild, StoreOp::AddLawsuit(lawsuit))
    }

    /// Appends a court room to those of the guild.
    pub fn add_court_room(&mut self, guild: SnowflakeId, room: CourtRoom)
        requires
            old(self).wf(),
        ensures
            final(self).wf(),
            final(self)@ == updated(old(self)@, guild, StoreOp::AddCourtRoom(room)),
    {
        self.update(guild, StoreOp::AddCourtRoom(room))
    }

    /// Records the verdict of a case of the guild, unless the case has one already.
    pub fn set_verdict(&mut self, guild: SnowflakeId, case: CaseId, verdict: String)
        requires
            old(self).wf(),
        ensures
            final(self).wf(),
            final(self)@ == updated(old(self)@, guild, StoreOp::SetVerdict { case, verdict }),
    {
        self.update(guild, StoreOp::SetVerdict { case, verdict })
    }

    /// Records the member as imprisoned in the guild. Recording a prisoner again changes
    /// nothing.
    pub fn add_to_prison(&mut self, guild: SnowflakeId, user: SnowflakeId)
        requires
            old(self).wf(),
        ensures
            final(self).wf(),
            final(self)@ == updated(old(self)@, guild, StoreOp::AddToPrison(user)),
    {
        self.update(guild, StoreOp::AddToPrison(user))
    }

    /// Removes the member's prison entry in the guild.
    pub fn remove_from_prison(&mut self, guild: SnowflakeId, user: SnowflakeId)
        requires
            old(self).wf(),
        ensures
            final(self).wf(),
            final(self)@ == updated(old(self)@, guild, StoreOp::RemoveFromPrison(user)),
    {
        self.update(guild, StoreOp::RemoveFromPrison(user))
    }

    /// What carrying out `effect` on the store `before` leaves behind, and what it is
    /// answered with. An effect on the chat platform is none of the store's business: the
    /// store stays as it is and gives no answer.
    pub open spec fn performed(
        before: Map<SnowflakeId, StateView>,
        effect: Effect,
        after: Map<SnowflakeId, StateView>,
        answer: Option<Event>,
    ) -> bool {
        match effect {
            Effect::FindOrInsertState { guild } => {
                &&& after == ensured(before, guild)
                &&& answer matches Some(Event::State(state))
                &&& state@ == after[guild]
            },
            Effect::FindPrisonEntry { guild, user } => {
                &&& after == before
                &&& answer == Some(
                    Event::PrisonEntry(
                        before.dom().contains(guild) && before[guild].prison_entries.contains(user),
                    ),
                )
            },
            Effect::Update { guild, op } => {
                &&& after == updated(before, guild, op)
                &&& answer == Some(Event::Done)
            },
            Effect::DeleteGuild { guild } => {
                &&& after == before.remove(guild)
                &&& answer == Some(Event::Done)
            },
            _ => after == before && answer is None,
        }
    }

    /// Carries out an effect that concerns the store, and answers it. This store is always
    /// reachable: it never answers [`Event::Failed`].
    pub fn perform(&mut self, effect: Effect) -> (answer: Option<Event>)
        requires
            old(self).wf(),
        ensures
            final(self).wf(),
            Self::performed(old(self)@, effect, final(self)@, answer),
    {
        match effect {
            Effect::FindOrInsertState { guild } => {
                let state = self.find_or_insert_state(guild);
                Some(Event::State(state))
            },
            Effect::FindPrisonEntry { guild, user } => {
                let found = self.find_prison_entry(guild, user);
                Some(Event::PrisonEntry(found))
            },
            Effect::Update { guild, op } => {
                self.update(guild, op);
                Some(Event::Done)
            },
            Effect::DeleteGuild { guild } => {
                self.delete_guild(guild);
                Some(Event::Done)
            },
            _ => None,
        }
    }
}

} // verus!
