//! What holds of the store, the lawsuit lifecycle and the prison across operations.

use vstd::prelude::*;
use crate::handler::lawsuit::{
    clear_next, close_next, permission_override, ruling_stages, set_category_next,
    set_category_stages,
};
use crate::handler::prison::{
    arrest_next, arrest_stages, release_next, release_stages, set_role_next,
};
use crate::handler::{join_next, Channel, Context, Member};
use crate::lawsuit::{docket, room_stages, seated, LawsuitCtx};
use crate::model::{CourtRoom, Lawsuit, SnowflakeId, State, StateView};
use crate::protocol::{
    follow, follow_stands_at, state_at, Ack, Cause, Effect, Event, Next, Outcome, Refusal, Stage,
};
use crate::store::{adjudicated, ensured, updated, StoreOp};

verus! {

/// The store's contents after a guild was looked up `times` times in a row.
pub open spec fn looked_up(
    guilds: Map<SnowflakeId, StateView>,
    guild: SnowflakeId,
    times: nat,
) -> Map<SnowflakeId, StateView>
    decreases times,
{
    if times == 0 {
        guilds
    } else {
        ensured(looked_up(guilds, guild, (times - 1) as nat), guild)
    }
}

/// Looking a guild up any number of times comes to the same as looking it up once: the
/// guild has one aggregate then, the one it had or else an empty one, and no other guild's
/// aggregate is touched.
pub proof fn lookup_is_idempotent(
    guilds: Map<SnowflakeId, StateView>,
    guild: SnowflakeId,
    times: nat,
)
    requires
        times >= 1,
    ensures
        looked_up(guilds, guild, times) == ensured(guilds, guild),
        ensured(guilds, guild).dom().contains(guild),
        guilds.dom().contains(guild) ==> ensured(guilds, guild) == guilds,
        forall|other: SnowflakeId|
            other != guild ==> (ensured(guilds, guild).dom().contains(other)
                <==> guilds.dom().contains(other)),
        forall|other: SnowflakeId|
            other != guild && guilds.dom().contains(other) ==> ensured(guilds, guild)[other]
                == guilds[other],
    decreases times,
{
    if times > 1 {
        lookup_is_idempotent(guilds, guild, (times - 1) as nat);
    } else {
        assert(looked_up(guilds, guild, 0) == guilds);
    }
}

/// Deleting a guild and looking it up again yields an empty aggregate: no configuration, no
/// lawsuit, no court room and no prison entry survives.
pub proof fn clear_then_lookup_is_fresh(guilds: Map<SnowflakeId, StateView>, guild: SnowflakeId)
    ensures
        !guilds.remove(guild).dom().contains(guild),
        ensured(guilds.remove(guild), guild)[guild] == StateView::empty(guild),
        StateView::empty(guild).lawsuits.len() == 0,
        StateView::empty(guild).court_rooms.len() == 0,
        StateView::empty(guild).prison_entries == Set::<SnowflakeId>::empty(),
        StateView::empty(guild).wf(),
{
}

/// Whether an update keeps the aggregate's invariant: a lawsuit that is added has to bring
/// an identity of its own and, if it is active, a room without an active case; a court
/// room that is added has to be new. Every other update is admissible.
pub open spec fn admissible(state: StateView, op: StoreOp) -> bool {
    match op {
        StoreOp::AddLawsuit(lawsuit) => {
            &&& !state.has_case(lawsuit.id)
            &&& lawsuit.verdict is None ==> state.active_case(lawsuit.court_room) is None
        },
        StoreOp::AddCourtRoom(room) => !state.has_room(room.channel_id),
        _ => true,
    }
}

/// A room that hosts no first active case hosts no active case at all.
pub proof fn no_active_case_means_none(state: StateView, room: SnowflakeId)
    requires
        state.active_case(room) is None,
    ensures
        forall|i: int| !state.is_active_in(i, room),
{
    assert forall|i: int| !state.is_active_in(i, room) by {
        if state.is_active_in(i, room) {
            first_active_exists(state, room, i);
        }
    }
}

proof fn first_active_exists(state: StateView, room: SnowflakeId, i: int)
    requires
        state.is_active_in(i, room),
    ensures
        exists|k: int| state.is_first_active_in(k, room),
    decreases i,
{
    if exists|j: int| 0 <= j < i && state.is_active_in(j, room) {
        let j = choose|j: int| 0 <= j < i && state.is_active_in(j, room);
        first_active_exists(state, room, j);
    } else {
        assert(state.is_first_active_in(i, room));
    }
}

/// An admissible update of a well-formed aggregate leaves it well-formed.
pub proof fn update_preserves_wf(state: StateView, op: StoreOp)
    requires
        state.wf(),
        admissible(state, op),
    ensures
        state.apply(op).wf(),
{
    let after = state.apply(op);
    match op {
        StoreOp::AddLawsuit(lawsuit) => {
            let last = state.lawsuits.len() as int;
            if lawsuit.verdict is None {
                no_active_case_means_none(state, lawsuit.court_room);
            }
            assert forall|i: int, j: int| 0 <= i < j < after.lawsuits.len() implies #[trigger] after.lawsuits[i].id
                != #[trigger] after.lawsuits[j].id by {
                if j == last {
                    assert(state.lawsuits[i].id != lawsuit.id);
                }
            }
            assert forall|i: int, j: int|
                #![trigger after.lawsuits[i], after.lawsuits[j]]
                0 <= i < j < after.lawsuits.len() && after.lawsuits[i].verdict is None
                    && after.lawsuits[j].verdict is None implies after.lawsuits[i].court_room
                != after.lawsuits[j].court_room by {
                if j == last {
                    assert(!state.is_active_in(i, lawsuit.court_room));
                } else {
                    assert(after.lawsuits[i] == state.lawsuits[i]);
                    assert(after.lawsuits[j] == state.lawsuits[j]);
                }
            }
        },
        StoreOp::AddCourtRoom(room) => {
            let last = state.court_rooms.len() as int;
            assert forall|i: int, j: int| 0 <= i < j < after.court_rooms.len() implies #[trigger] after.court_rooms[i].channel_id
                != #[trigger] after.court_rooms[j].channel_id by {
                if j == last {
                    assert(state.court_rooms[i].channel_id != room.channel_id);
                }
            }
        },
        StoreOp::SetVerdict { case, verdict } => {
            assert forall|i: int, j: int|
                #![trigger after.lawsuits[i], after.lawsuits[j]]
                0 <= i < j < after.lawsuits.len() && after.lawsuits[i].verdict is None
                    && after.lawsuits[j].verdict is None implies after.lawsuits[i].court_room
                != after.lawsuits[j].court_room by {
                assert(after.lawsuits[i] == state.lawsuits[i]);
                assert(after.lawsuits[j] == state.lawsuits[j]);
            }
        },
        _ => {},
    }
}

/// In a well-formed aggregate an active case is the only one of its room: ruling on the
/// room finds this case and no other for as long as it is active.
pub proof fn active_case_is_unique(state: StateView, i: int, room: SnowflakeId)
    requires
        state.wf(),
        state.is_active_in(i, room),
    ensures
        state.active_case(room) == Some(i),
        forall|j: int| state.is_active_in(j, room) ==> j == i,
{
    assert forall|j: int| state.is_active_in(j, room) implies j == i by {
        if j < i {
            assert(state.lawsuits[j].court_room != state.lawsuits[i].court_room);
        } else if i < j {
            assert(state.lawsuits[i].court_room != state.lawsuits[j].court_room);
        }
    }
    assert(state.is_first_active_in(i, room));
    let chosen = choose|k: int| state.is_first_active_in(k, room);
    assert(state.is_active_in(chosen, room));
}

/// A case that was created has one court room, and is the active case that its room hosts.
///
/// When creating a case comes to persisting it, the update adds the lawsuit bound to the
/// channel that was just created. With that update and the one that records the room, a
/// well-formed aggregate stays well-formed; the new lawsuit is its last; exactly one room
/// record names the channel; and the active case of the channel is the new lawsuit.
pub proof fn created_case_has_its_room(
    lawsuit: Lawsuit,
    guild: SnowflakeId,
    state: State,
    room: SnowflakeId,
    next: Next,
)
    requires
        state@.wf(),
        lawsuit.verdict is None,
        LawsuitCtx::initialized(
            lawsuit,
            guild,
            seq![Event::State(state), Event::Channel(room)],
            next,
        ),
        next is Perform,
    ensures
        next == Next::Perform(docket(guild, lawsuit, room)),
        ({
            let created = state@.lawsuits.len() as int;
            let after = state@.apply(StoreOp::AddLawsuit(seated(lawsuit, room))).apply(
                StoreOp::AddCourtRoom(CourtRoom { channel_id: room }),
            );
            &&& after.wf()
            &&& after.lawsuits.len() == created + 1
            &&& after.lawsuits[created] == seated(lawsuit, room)
            &&& after.active_case(room) == Some(created)
            &&& after.has_room(room)
            &&& forall|i: int, j: int|
                0 <= i < after.court_rooms.len() && 0 <= j < after.court_rooms.len()
                    && after.court_rooms[i].channel_id == room && after.court_rooms[j].channel_id
                    == room ==> i == j
        }),
{
    let trace = seq![Event::State(state), Event::Channel(room)];
    assert(state_at(trace, 0) == Some(state));
    assert(trace[1] == Event::Channel(room));
    assert(state.court_category is Some);
    assert(state@.room_is_free(room));
    assert(!state@.has_case(lawsuit.id));
    let first = StoreOp::AddLawsuit(seated(lawsuit, room));
    let second = StoreOp::AddCourtRoom(CourtRoom { channel_id: room });
    let created = state@.lawsuits.len() as int;
    let middle = state@.apply(first);
    let after = middle.apply(second);
    assert(state@.active_case(room) is None) by {
        if state@.active_case(room) is Some {
            let k = choose|k: int| state@.is_first_active_in(k, room);
            assert(state@.is_active_in(k, room));
            assert(state@.lawsuits[k].court_room == room);
        }
    }
    update_preserves_wf(state@, first);
    assert(!middle.has_room(room));
    update_preserves_wf(middle, second);
    assert(after.lawsuits[created] == seated(lawsuit, room));
    assert(after.is_active_in(created, room));
    active_case_is_unique(after, created, room);
    assert(after.court_rooms[state@.court_rooms.len() as int].channel_id == room);
}

/// Without an active case in the channel a verdict is turned down and nothing is asked of
/// the store but the aggregate itself: whatever the answers say after the aggregate, no
/// update is issued, so no lawsuit is changed.
pub proof fn close_without_active_case(
    ctx: Context,
    member: Member,
    verdict: String,
    state: State,
    trace: Seq<Event>,
)
    requires
        ctx.guild() is Some,
        ctx matches Context::Application(invocation) && invocation.member == Some(member),
        trace.len() >= 1,
        trace[0] == Event::State(state),
        state@.active_case(ctx.channel()) is None,
    ensures
        close_next(ctx, verdict, trace) == Next::Finish(Outcome::Refused(Refusal::NoActiveCase)),
        close_next(ctx, verdict, Seq::empty()) == Next::Perform(
            Effect::FindOrInsertState { guild: ctx.guild().unwrap() },
        ),
{
}

/// Someone who is neither the judge of the active case nor holds the override is turned
/// down, and no update is issued: the case stays without a verdict.
pub proof fn close_by_stranger(
    ctx: Context,
    member: Member,
    verdict: String,
    state: State,
    trace: Seq<Event>,
    i: int,
)
    requires
        ctx.guild() is Some,
        ctx matches Context::Application(invocation) && invocation.member == Some(member),
        trace.len() >= 1,
        trace[0] == Event::State(state),
        state@.active_case(ctx.channel()) == Some(i),
        member.user != state.lawsuits@[i].judge,
        !permission_override(member),
    ensures
        close_next(ctx, verdict, trace) == Next::Finish(Outcome::Refused(Refusal::Unauthorized)),
{
    assert(state@.is_first_active_in(i, ctx.channel()));
}

/// A verdict is ruled once. After the update that a ruling issues, the case carries the
/// verdict, the room hosts no active case any more, and ruling again in that room finds no
/// active case.
pub proof fn verdict_closes_the_room(
    ctx: Context,
    member: Member,
    state: State,
    after: State,
    i: int,
    verdict: String,
    again: String,
    trace: Seq<Event>,
)
    requires
        ctx.guild() is Some,
        ctx matches Context::Application(invocation) && invocation.member == Some(member),
        state@.wf(),
        state@.active_case(ctx.channel()) == Some(i),
        after@ == state@.apply(StoreOp::SetVerdict { case: state.lawsuits@[i].id, verdict }),
        trace.len() >= 1,
        trace[0] == Event::State(after),
    ensures
        after@.wf(),
        after@.lawsuits[i] == adjudicated(state.lawsuits@[i], verdict),
        after@.active_case(ctx.channel()) is None,
        close_next(ctx, again, trace) == Next::Finish(Outcome::Refused(Refusal::NoActiveCase)),
{
    let room = ctx.channel();
    let op = StoreOp::SetVerdict { case: state.lawsuits@[i].id, verdict };
    assert(state@.is_first_active_in(i, room));
    active_case_is_unique(state@, i, room);
    update_preserves_wf(state@, op);
    assert forall|k: int| !after@.is_first_active_in(k, room) by {
        if after@.is_active_in(k, room) {
            assert(after@.lawsuits[k] == state@.lawsuits[k]);
            assert(state@.is_active_in(k, room));
        }
    }
}

/// A verdict, once set, is never cleared or changed: no update touches an adjudicated
/// lawsuit, and every lawsuit keeps its place.
pub proof fn verdict_is_final(state: StateView, op: StoreOp, i: int)
    requires
        0 <= i < state.lawsuits.len(),
        state.lawsuits[i].verdict is Some,
    ensures
        i < state.apply(op).lawsuits.len(),
        state.apply(op).lawsuits[i] == state.lawsuits[i],
{
}

/// A lawsuit is changed by its verdict only, and is never removed: after any update every
/// lawsuit is in its place, the same as before or, where the update ruled on it while it
/// was active, the same but for the verdict.
pub proof fn lawsuit_changes_by_verdict_only(state: StateView, op: StoreOp, i: int)
    requires
        0 <= i < state.lawsuits.len(),
    ensures
        state.apply(op).lawsuits.len() >= state.lawsuits.len(),
        state.apply(op).lawsuits[i] == state.lawsuits[i] || (op matches StoreOp::SetVerdict {
            case,
            verdict,
        } && state.lawsuits[i].id == case && state.lawsuits[i].verdict is None
            && state.apply(op).lawsuits[i] == adjudicated(state.lawsuits[i], verdict)),
{
}

/// Whether an update sets something rather than adds something to a list.
pub open spec fn settles(op: StoreOp) -> bool {
    !(op is AddLawsuit) && !(op is AddCourtRoom)
}

/// Setting something twice comes to the same as setting it once. Arresting a prisoner again
/// changes nothing that is recorded, and neither does releasing someone who is free, ruling
/// again on a case, or configuring the same role or category again.
pub proof fn repeating_changes_nothing(state: StateView, op: StoreOp)
    requires
        settles(op),
    ensures
        state.apply(op).apply(op) == state.apply(op),
        op matches StoreOp::AddToPrison(user) && state.prison_entries.contains(user)
            ==> state.apply(op) == state,
        op matches StoreOp::RemoveFromPrison(user) && !state.prison_entries.contains(user)
            ==> state.apply(op) == state,
{
    let once = state.apply(op);
    let twice = once.apply(op);
    assert(twice.lawsuits =~= once.lawsuits);
    assert(twice.prison_entries =~= once.prison_entries);
    match op {
        StoreOp::AddToPrison(user) => {
            if state.prison_entries.contains(user) {
                assert(once.prison_entries =~= state.prison_entries);
            }
        },
        StoreOp::RemoveFromPrison(user) => {
            if !state.prison_entries.contains(user) {
                assert(once.prison_entries =~= state.prison_entries);
            }
        },
        _ => {},
    }
}

/// A prisoner who rejoins gets the role again, and someone who was released does not.
///
/// After the update that an arrest issues, the store answers that the member has a prison
/// entry, and a join is answered by granting the configured role. What happened to the role
/// on the platform in between plays no part: the join is decided from the record alone.
/// After the update that a release issues, the store answers that there is no entry, and a
/// join ends without any grant.
pub proof fn rejoin_follows_the_record(
    guilds: Map<SnowflakeId, StateView>,
    member: Member,
    role: SnowflakeId,
    arrested: State,
    released: State,
)
    requires
        guilds.dom().contains(member.guild_id),
        guilds[member.guild_id].prison_role == Some(role),
        arrested@ == updated(guilds, member.guild_id, StoreOp::AddToPrison(member.user))[member.guild_id],
        released@ == updated(
            guilds,
            member.guild_id,
            StoreOp::RemoveFromPrison(member.user),
        )[member.guild_id],
    ensures
        arrested@.prison_entries.contains(member.user),
        join_next(member, seq![Event::State(arrested), Event::PrisonEntry(true)]) == Next::Perform(
            Effect::AddRole { guild: member.guild_id, user: member.user, role },
        ),
        !released@.prison_entries.contains(member.user),
        join_next(member, seq![Event::State(released), Event::PrisonEntry(false)]) == Next::Finish(
            Outcome::Silent,
        ),
{
    let first = seq![Event::State(arrested), Event::PrisonEntry(true)];
    assert(state_at(first, 0) == Some(arrested));
    assert(first[1] == Event::PrisonEntry(true));
    assert(first.skip(2).len() == 0);
    let second = seq![Event::State(released), Event::PrisonEntry(false)];
    assert(state_at(second, 0) == Some(released));
    assert(second[1] == Event::PrisonEntry(false));
}

/// A run of stages ends in its own outcome or in a failure, never otherwise.
pub proof fn follow_ends_as_told(answers: Seq<Event>, stages: Seq<Stage>, done: Outcome)
    ensures
        follow(answers, stages, done) matches Next::Finish(outcome) ==> outcome == done
            || outcome is Failed,
    decreases stages.len(),
{
    if stages.len() > 0 && answers.len() > 0 && answers[0] is Done {
        follow_ends_as_told(answers.skip(1), stages.skip(1), done);
    }
}

/// Whether an operation that was refused on `trace` had asked for nothing but the
/// aggregate: `first` is what it answered before any answer came in, `early` what it
/// answered to the aggregate alone, and `last` what it answered to the whole trace.
pub open spec fn refused_on_loading(
    guild: SnowflakeId,
    trace: Seq<Event>,
    first: Next,
    early: Next,
    last: Next,
) -> bool {
    &&& trace.len() >= 1
    &&& first == Next::Perform(Effect::FindOrInsertState { guild })
    &&& early == last
}

/// An arrest or a release that is refused has changed nothing: it is refused for want of a
/// prison role, on the strength of the aggregate alone, and nothing but the aggregate was
/// asked for.
pub proof fn prison_refusal_changes_nothing(
    ctx: Context,
    user: SnowflakeId,
    trace: Seq<Event>,
    refusal: Refusal,
)
    requires
        ctx.guild() is Some,
    ensures
        arrest_next(ctx, user, trace) == Next::Finish(Outcome::Refused(refusal)) ==> refusal
            == Refusal::NoPrisonRole && refused_on_loading(
            ctx.guild().unwrap(),
            trace,
            arrest_next(ctx, user, Seq::empty()),
            arrest_next(ctx, user, trace.take(1)),
            arrest_next(ctx, user, trace),
        ),
        release_next(ctx, user, trace) == Next::Finish(Outcome::Refused(refusal)) ==> refusal
            == Refusal::NoPrisonRole && refused_on_loading(
            ctx.guild().unwrap(),
            trace,
            release_next(ctx, user, Seq::empty()),
            release_next(ctx, user, trace.take(1)),
            release_next(ctx, user, trace),
        ),
{
    if trace.len() >= 1 {
        assert(trace.take(1)[0] == trace[0]);
        if let Some(state) = state_at(trace, 0) {
            if let Some(role) = state.prison_role {
                follow_ends_as_told(
                    trace.skip(1),
                    arrest_stages(ctx.guild().unwrap(), user, role),
                    Outcome::Acknowledged(Ack::Arrested),
                );
                follow_ends_as_told(
                    trace.skip(1),
                    release_stages(ctx.guild().unwrap(), user, role),
                    Outcome::Acknowledged(Ack::Released),
                );
            }
        }
    } else {
        assert(trace =~= Seq::empty());
    }
}

/// A verdict that is refused has changed nothing: whether for want of an active case or of
/// the right to rule, it is refused on the strength of the aggregate alone, and nothing
/// but the aggregate was asked for.
pub proof fn close_refusal_changes_nothing(
    ctx: Context,
    verdict: String,
    trace: Seq<Event>,
    refusal: Refusal,
)
    requires
        ctx.guild() is Some,
        close_next(ctx, verdict, trace) == Next::Finish(Outcome::Refused(refusal)),
    ensures
        refusal == Refusal::NoActiveCase || refusal == Refusal::Unauthorized,
        refused_on_loading(
            ctx.guild().unwrap(),
            trace,
            close_next(ctx, verdict, Seq::empty()),
            close_next(ctx, verdict, trace.take(1)),
            close_next(ctx, verdict, trace),
        ),
{
    if trace.len() >= 1 {
        assert(trace.take(1)[0] == trace[0]);
        if let Context::Application(invocation) = ctx {
            if let Some(member) = invocation.member {
                if let Some(state) = state_at(trace, 0) {
                    if let Some(i) = state@.active_case(invocation.channel_id) {
                        let ruled = LawsuitCtx::ruling(
                            state.lawsuits@[i],
                            permission_override(member),
                            member.user,
                            verdict,
                            CourtRoom { channel_id: invocation.channel_id },
                        );
                        if let Ok(op) = ruled {
                            follow_ends_as_told(
                                trace.skip(1),
                                ruling_stages(ctx.guild().unwrap(), op),
                                Outcome::Acknowledged(Ack::VerdictRuled),
                            );
                        }
                    }
                }
            }
        }
    } else {
        assert(trace =~= Seq::empty());
    }
}

/// A case that is refused has changed nothing: it is refused for want of a court category,
/// on the strength of the aggregate alone; no channel was created and nothing persisted.
pub proof fn create_refusal_changes_nothing(
    lawsuit: Lawsuit,
    guild: SnowflakeId,
    trace: Seq<Event>,
    refusal: Refusal,
)
    requires
        LawsuitCtx::initialized(lawsuit, guild, trace, Next::Finish(Outcome::Refused(refusal))),
    ensures
        refusal == Refusal::NoCourtCategory,
        trace.len() >= 1,
        LawsuitCtx::initialized(
            lawsuit,
            guild,
            Seq::empty(),
            Next::Perform(Effect::FindOrInsertState { guild }),
        ),
        LawsuitCtx::initialized(
            lawsuit,
            guild,
            trace.take(1),
            Next::Finish(Outcome::Refused(refusal)),
        ),
{
    assert(trace.take(1)[0] == trace[0]);
    if trace.len() > 2 {
        if let Event::Channel(room) = trace[1] {
            follow_ends_as_told(
                trace.skip(3),
                room_stages(guild, room),
                Outcome::Acknowledged(Ack::Created { room }),
            );
        }
    }
}

/// A case whose lawsuit is persisted gets the record of its room, whatever identity the
/// lawsuit was given: once the store has acknowledged the lawsuit, the next answer asks for
/// the record of the room, and with that acknowledged too the case is created. No answer
/// after the lawsuit depends on the lawsuit.
pub proof fn persisted_case_gets_its_room(
    lawsuit: Lawsuit,
    other: Lawsuit,
    guild: SnowflakeId,
    state: State,
    room: SnowflakeId,
    trace: Seq<Event>,
    next: Next,
)
    requires
        state.court_category is Some,
        state@.room_is_free(room),
        trace.len() >= 3,
        trace[0] == Event::State(state),
        trace[1] == Event::Channel(room),
        trace[2] == Event::Done,
        LawsuitCtx::initialized(lawsuit, guild, trace, next),
    ensures
        trace.len() == 3 ==> next == Next::Perform(
            Effect::Update { guild, op: StoreOp::AddCourtRoom(CourtRoom { channel_id: room }) },
        ),
        trace.len() > 3 && trace[3] is Done ==> next == Next::Finish(
            Outcome::Acknowledged(Ack::Created { room }),
        ),
        trace.len() > 3 && !(trace[3] is Done) ==> next == Next::failed(
            Cause::Store,
        ),
        !(next == Next::failed(Cause::CaseTaken)),
        LawsuitCtx::initialized(other, guild, trace, next),
{
    let later = trace.skip(3);
    let stages = room_stages(guild, room);
    let done = Outcome::Acknowledged(Ack::Created { room });
    if trace.len() == 3 {
        follow_stands_at(later, stages, done, 0);
    } else {
        assert(later[0] == trace[3]);
        if trace[3] is Done {
            follow_stands_at(later, stages, done, 1);
        } else {
            follow_stands_at(later, stages, done, 0);
        }
    }
}

/// Who may rule, rules. In a channel that hosts an active case the judge of the case and
/// whoever holds the override are answered with the update that records the verdict for
/// that case, and once it is acknowledged with the acknowledgement. Nothing else is asked
/// of the aggregate: a record of the room need not exist.
pub proof fn close_by_the_entitled(
    ctx: Context,
    member: Member,
    verdict: String,
    state: State,
    i: int,
)
    requires
        ctx.guild() is Some,
        ctx matches Context::Application(invocation) && invocation.member == Some(member),
        state@.active_case(ctx.channel()) == Some(i),
        member.user == state.lawsuits@[i].judge || permission_override(member),
    ensures
        close_next(ctx, verdict, seq![Event::State(state)]) == Next::Perform(
            Effect::Update {
                guild: ctx.guild().unwrap(),
                op: StoreOp::SetVerdict { case: state.lawsuits@[i].id, verdict },
            },
        ),
        close_next(ctx, verdict, seq![Event::State(state), Event::Done]) == Next::Finish(
            Outcome::Acknowledged(Ack::VerdictRuled),
        ),
{
    let guild = ctx.guild().unwrap();
    let op = StoreOp::SetVerdict { case: state.lawsuits@[i].id, verdict };
    let done = Outcome::Acknowledged(Ack::VerdictRuled);
    assert(state@.is_first_active_in(i, ctx.channel()));
    let first = seq![Event::State(state)];
    assert(state_at(first, 0) == Some(state));
    follow_stands_at(first.skip(1), ruling_stages(guild, op), done, 0);
    let second = seq![Event::State(state), Event::Done];
    assert(state_at(second, 0) == Some(state));
    assert(second.skip(1)[0] == Event::Done);
    follow_stands_at(second.skip(1), ruling_stages(guild, op), done, 1);
}

/// A channel that is no category is refused before anything is asked of the store, and
/// nothing else is ever refused of `set_category`.
pub proof fn category_refusal_changes_nothing(
    ctx: Context,
    category: Channel,
    trace: Seq<Event>,
    refusal: Refusal,
)
    requires
        set_category_next(ctx, category, trace) == Next::Finish(Outcome::Refused(refusal)),
    ensures
        refusal == Refusal::NotACategory,
        !(category is Category),
        set_category_next(ctx, category, Seq::empty()) == Next::Finish(Outcome::Refused(refusal)),
{
    if let Some(guild) = ctx.guild() {
        if let Channel::Category(id) = category {
            follow_ends_as_told(
                trace,
                set_category_stages(guild, id),
                Outcome::Acknowledged(Ack::CategorySet),
            );
        }
    }
}

/// A run of stages ends once every stage has an answer.
pub proof fn follow_ends(answers: Seq<Event>, stages: Seq<Stage>, done: Outcome)
    requires
        answers.len() >= stages.len(),
    ensures
        follow(answers, stages, done) is Finish,
    decreases stages.len(),
{
    if stages.len() > 0 && answers[0] is Done {
        follow_ends(answers.skip(1), stages.skip(1), done);
    }
}

/// Every operation ends. None asks for more than four effects: with four answers in, each
/// command and the join of a member has come to its outcome, whatever the answers were.
pub proof fn every_operation_ends(
    ctx: Context,
    member: Member,
    user: SnowflakeId,
    role: SnowflakeId,
    category: Channel,
    verdict: String,
    lawsuit: Lawsuit,
    guild: SnowflakeId,
    created: Next,
    trace: Seq<Event>,
)
    requires
        trace.len() >= 4,
        LawsuitCtx::initialized(lawsuit, guild, trace, created),
    ensures
        set_role_next(ctx, role, trace) is Finish,
        arrest_next(ctx, user, trace) is Finish,
        release_next(ctx, user, trace) is Finish,
        set_category_next(ctx, category, trace) is Finish,
        close_next(ctx, verdict, trace) is Finish,
        clear_next(ctx, trace) is Finish,
        join_next(member, trace) is Finish,
        created is Finish,
{
    assert forall|stages: Seq<Stage>, done: Outcome, from: int|
        0 <= from <= 3 && stages.len() <= 4 - from implies (#[trigger] follow(
        trace.skip(from),
        stages,
        done,
    )) is Finish by {
        follow_ends(trace.skip(from), stages, done);
    }
    assert(trace.skip(0) =~= trace);
}

} // verus!
