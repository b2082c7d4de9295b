//! The prison commands: a role marks a member as imprisoned, and the record of who is
//! imprisoned outlives whatever happens to the role on the platform.

use vstd::prelude::*;
use crate::handler::Context;
use crate::model::SnowflakeId;
use crate::protocol::{
    advance, follow, loaded, state_at, Ack, Cause, Command, Effect, Event, Next, Outcome, Refusal,
    Stage,
};
use crate::store::StoreOp;

verus! {

/// The commands of the `prison` group.
#[derive(Clone, Copy, Debug, PartialEq, Eq, Structural)]
pub enum PrisonCommand {
    /// Configures the role that marks imprisonment.
    SetRole { role: SnowflakeId },
    /// Imprisons a member.
    Arrest { user: SnowflakeId },
    /// Sets a member free.
    Release { user: SnowflakeId },
}

/// The stage that persists the prison role.
pub open spec fn set_role_stages(guild: SnowflakeId, role: SnowflakeId) -> Seq<Stage> {
    seq![
        Stage {
            effect: Effect::Update { guild, op: StoreOp::SetPrisonRole(role) },
            failure: Cause::Store,
        },
    ]
}

/// What `set_role` answers: the role is persisted for the guild, then acknowledged.
pub open spec fn set_role_next(ctx: Context, role: SnowflakeId, trace: Seq<Event>) -> Next {
    match ctx.guild() {
        None => Next::failed(Cause::GuildIdNotFound),
        Some(guild) => follow(
            trace,
            set_role_stages(guild, role),
            Outcome::Acknowledged(Ack::RoleSet),
        ),
    }
}

/// The stages of an arrest once the role is known: the entry is persisted first, so that it
/// stays when the member cannot be found or the role cannot be granted; then the member is
/// looked up and the role granted.
pub open spec fn arrest_stages(guild: SnowflakeId, user: SnowflakeId, role: SnowflakeId) -> Seq<
    Stage,
> {
    seq![
        Stage {
            effect: Effect::Update { guild, op: StoreOp::AddToPrison(user) },
            failure: Cause::Store,
        },
        Stage { effect: Effect::FetchMember { guild, user }, failure: Cause::FetchingGuildMember },
        Stage { effect: Effect::AddRole { guild, user, role }, failure: Cause::AddGuildMemberRole },
    ]
}

/// The stages of a release once the role is known: the entry is removed first, so that the
/// role is not granted again should taking it away fail.
pub open spec fn release_stages(guild: SnowflakeId, user: SnowflakeId, role: SnowflakeId) -> Seq<
    Stage,
> {
    seq![
        Stage {
            effect: Effect::Update { guild, op: StoreOp::RemoveFromPrison(user) },
            failure: Cause::Store,
        },
        Stage { effect: Effect::FetchMember { guild, user }, failure: Cause::FetchingGuildMember },
        Stage {
            effect: Effect::RemoveRole { guild, user, role },
            failure: Cause::RemoveGuildMemberRole,
        },
    ]
}

/// What `arrest` answers: the aggregate is loaded; without a prison role the request is
/// refused and nothing else happens; with one, the stages of the arrest run.
pub open spec fn arrest_next(ctx: Context, user: SnowflakeId, trace: Seq<Event>) -> Next {
    match ctx.guild() {
        None => Next::failed(Cause::GuildIdNotFound),
        Some(guild) => if trace.len() == 0 {
            Next::Perform(Effect::FindOrInsertState { guild })
        } else {
            match state_at(trace, 0) {
                None => Next::failed(Cause::Store),
                Some(state) => match state.prison_role {
                    None => Next::Finish(Outcome::Refused(Refusal::NoPrisonRole)),
                    Some(role) => follow(
                        trace.skip(1),
                        arrest_stages(guild, user, role),
                        Outcome::Acknowledged(Ack::Arrested),
                    ),
                },
            }
        },
    }
}

/// What `release` answers: as for an arrest, with the stages of the release.
pub open spec fn release_next(ctx: Context, user: SnowflakeId, trace: Seq<Event>) -> Next {
    match ctx.guild() {
        None => Next::failed(Cause::GuildIdNotFound),
        Some(guild) => if trace.len() == 0 {
            Next::Perform(Effect::FindOrInsertState { guild })
        } else {
            match state_at(trace, 0) {
                None => Next::failed(Cause::Store),
                Some(state) => match state.prison_role {
                    None => Next::Finish(Outcome::Refused(Refusal::NoPrisonRole)),
                    Some(role) => follow(
                        trace.skip(1),
                        release_stages(guild, user, role),
                        Outcome::Acknowledged(Ack::Released),
                    ),
                },
            }
        },
    }
}

/// What the `prison` group answers: outside a guild the command is turned away before
/// anything is done; within one, the command that was named runs.
pub open spec fn prison_next(ctx: Context, command: PrisonCommand, trace: Seq<Event>) -> Next {
    if ctx.guild() is None {
        Next::failed(Cause::GuildOnly)
    } else {
        match command {
            PrisonCommand::SetRole { role } => set_role_next(ctx, role, trace).during(
                Command::PrisonSetRole,
            ),
            PrisonCommand::Arrest { user } => arrest_next(ctx, user, trace).during(
                Command::PrisonArrest,
            ),
            PrisonCommand::Release { user } => release_next(ctx, user, trace).during(
                Command::PrisonRelease,
            ),
        }
    }
}

/// Routes a command of the `prison` group. The group is for guilds only.
pub fn prison(ctx: &Context, command: &PrisonCommand, trace: &Vec<Event>) -> (next: Next)
    ensures
        next == prison_next(*ctx, *command, trace@),
{
    if ctx.guild_id().is_none() {
        return Next::fail(Cause::GuildOnly);
    }
    match command {
        PrisonCommand::SetRole { role } => set_role(ctx, *role, trace),
        PrisonCommand::Arrest { user } => arrest(ctx, *user, trace),
        PrisonCommand::Release { user } => release(ctx, *user, trace),
    }
}

/// Sets the role for prisoners.
pub fn set_role(ctx: &Context, role: SnowflakeId, trace: &Vec<Event>) -> (next: Next)
    ensures
        next == set_role_next(*ctx, role, trace@).during(Command::PrisonSetRole),
{
    prison_set_role_impl(ctx, role, trace).within(Command::PrisonSetRole)
}

/// Imprisons someone.
pub fn arrest(ctx: &Context, user: SnowflakeId, trace: &Vec<Event>) -> (next: Next)
    ensures
        next == arrest_next(*ctx, user, trace@).during(Command::PrisonArrest),
{
    prison_arrest_impl(ctx, user, trace).within(Command::PrisonArrest)
}

/// Sets a prisoner free.
pub fn release(ctx: &Context, user: SnowflakeId, trace: &Vec<Event>) -> (next: Next)
    ensures
        next == release_next(*ctx, user, trace@).during(Command::PrisonRelease),
{
    prison_release_impl(ctx, user, trace).within(Command::PrisonRelease)
}

/// Persists the role that marks imprisonment in the guild of the invocation.
pub fn prison_set_role_impl(ctx: &Context, role: SnowflakeId, trace: &Vec<Event>) -> (next: Next)
    ensures
        next == set_role_next(*ctx, role, trace@),
{
    let guild = match ctx.guild_id() {
        Some(guild) => guild,
        None => {
            return Next::fail(Cause::GuildIdNotFound);
        },
    };
    let stages = vec![
        Stage {
            effect: Effect::Update { guild, op: StoreOp::SetPrisonRole(role) },
            failure: Cause::Store,
        },
    ];
    assert(stages@ =~= set_role_stages(guild, role));
    assert(trace@.skip(0) =~= trace@);
    advance(trace, 0, stages, Outcome::Acknowledged(Ack::RoleSet))
}

/// Records the member as imprisoned, then grants the prison role. Arresting a prisoner again
/// records nothing new and grants the role once more, in case the platform has lost it.
pub fn prison_arrest_impl(ctx: &Context, user: SnowflakeId, trace: &Vec<Event>) -> (next: Next)
    ensures
        next == arrest_next(*ctx, user, trace@),
{
    let guild = match ctx.guild_id() {
        Some(guild) => guild,
        None => {
            return Next::fail(Cause::GuildIdNotFound);
        },
    };
    if trace.len() == 0 {
        return Next::Perform(Effect::FindOrInsertState { guild });
    }
    let state = match loaded(trace, 0) {
        Some(state) => state,
        None => {
            return Next::fail(Cause::Store);
        },
    };
    let role = match state.prison_role {
        Some(role) => role,
        None => {
            return Next::Finish(Outcome::Refused(Refusal::NoPrisonRole));
        },
    };
    let stages = vec![
        Stage {
            effect: Effect::Update { guild, op: StoreOp::AddToPrison(user) },
            failure: Cause::Store,
        },
        Stage { effect: Effect::FetchMember { guild, user }, failure: Cause::FetchingGuildMember },
        Stage { effect: Effect::AddRole { guild, user, role }, failure: Cause::AddGuildMemberRole },
    ];
    assert(stages@ =~= arrest_stages(guild, user, role));
    advance(trace, 1, stages, Outcome::Acknowledged(Ack::Arrested))
}

/// Removes the member's prison entry, then takes the prison role away. Should that fail, the
/// member keeps the role for the time being, and no join will grant it again.
pub fn prison_release_impl(ctx: &Context, user: SnowflakeId, trace: &Vec<Event>) -> (next: Next)
    ensures
        next == release_next(*ctx, user, trace@),
{
    let guild = match ctx.guild_id() {
        Some(guild) => guild,
        None => {
            return Next::fail(Cause::GuildIdNotFound);
        },
    };
    if trace.len() == 0 {
        return Next::Perform(Effect::FindOrInsertState { guild });
    }
    let state = match loaded(trace, 0) {
        Some(state) => state,
        None => {
            return Next::fail(Cause::Store);
        },
    };
    let role = match state.prison_role {
        Some(role) => role,
        None => {
            return Next::Finish(Outcome::Refused(Refusal::NoPrisonRole));
        },
    };
    let stages = vec![
        Stage {
            effect: Effect::Update { guild, op: StoreOp::RemoveFromPrison(user) },
            failure: Cause::Store,
        },
        Stage { effect: Effect::FetchMember { guild, user }, failure: Cause::FetchingGuildMember },
        Stage {
            effect: Effect::RemoveRole { guild, user, role },
            failure: Cause::RemoveGuildMemberRole,
        },
    ];
    assert(stages@ =~= release_stages(guild, user, role));
    advance(trace, 1, stages, Outcome::Acknowledged(Ack::Released))
}

} // verus!
