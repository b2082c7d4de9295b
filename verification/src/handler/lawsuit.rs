//! The lawsuit commands: open a case, configure where court rooms go, rule a verdict, and
//! wipe what is recorded for a guild.

use vstd::prelude::*;
use crate::handler::{Channel, Context, Member};
use crate::lawsuit::LawsuitCtx;
use crate::model::{CaseId, CourtRoom, Lawsuit, SnowflakeId};
use crate::protocol::{
    advance, follow, loaded, state_at, Ack, Cause, Command, Effect, Event, Next, Outcome, Refusal,
    Stage,
};
use crate::store::StoreOp;

verus! {

/// The commands of the `lawsuit` group.
#[derive(Debug, PartialEq)]
pub enum LawsuitCommand {
    /// Opens a case.
    Create {
        plaintiff: SnowflakeId,
        accused: SnowflakeId,
        judge: SnowflakeId,
        reason: String,
        plaintiff_lawyer: Option<SnowflakeId>,
        accused_lawyer: Option<SnowflakeId>,
    },
    /// Configures the category under which court rooms are created.
    SetCategory { category: Channel },
    /// Rules the verdict of the case that is heard in the channel of the invocation.
    Close { verdict: String },
    /// Deletes everything that is recorded for the guild.
    Clear,
}

/// `bson::Uuid::new` followed by `bson::Uuid::bytes`: a version-4 identifier drawn from the
/// operating system's random source. Nothing is claimed of the value.
#[verifier::external_body]
fn fresh_case_id() -> (id: CaseId) {
    CaseId(u128::from_be_bytes(mongodb::bson::Uuid::new().bytes()))
}

/// serenity's `Permissions::contains`, asked for `Permissions::MANAGE_GUILD` of the
/// permission set with the given bits: bit five is the one that `MANAGE_GUILD` names.
#[verifier::external_body]
fn contains_manage_guild(bits: u64) -> (held: bool)
    ensures
        held == (bits & 0x20 == 0x20),
{
    poise::serenity_prelude::Permissions::from_bits_truncate(bits).contains(
        poise::serenity_prelude::Permissions::MANAGE_GUILD,
    )
}

/// A case as it is drafted from the arguments of the command: without a verdict, and not
/// bound to a room yet.
pub open spec fn drafted(
    id: CaseId,
    plaintiff: SnowflakeId,
    accused: SnowflakeId,
    judge: SnowflakeId,
    reason: String,
    plaintiff_lawyer: Option<SnowflakeId>,
    accused_lawyer: Option<SnowflakeId>,
) -> Lawsuit {
    Lawsuit {
        id,
        plaintiff,
        accused,
        judge,
        plaintiff_lawyer,
        accused_lawyer,
        reason,
        verdict: None,
        court_room: SnowflakeId(0),
    }
}

/// Whether `next` is what opening a case may answer: without a guild it fails; within one
/// it is what creating a case drafted from the arguments answers, under some identity.
pub open spec fn create_allows(
    ctx: Context,
    plaintiff: SnowflakeId,
    accused: SnowflakeId,
    judge: SnowflakeId,
    reason: String,
    plaintiff_lawyer: Option<SnowflakeId>,
    accused_lawyer: Option<SnowflakeId>,
    trace: Seq<Event>,
    next: Next,
) -> bool {
    match ctx.guild() {
        None => next == Next::failed(Cause::GuildIdNotFound),
        Some(guild) => exists|id: CaseId|
            LawsuitCtx::initialized(
                #[trigger] drafted(
                    id,
                    plaintiff,
                    accused,
                    judge,
                    reason,
                    plaintiff_lawyer,
                    accused_lawyer,
                ),
                guild,
                trace,
                next,
            ),
    }
}

/// The stage that persists the court category.
pub open spec fn set_category_stages(guild: SnowflakeId, category: SnowflakeId) -> Seq<Stage> {
    seq![
        Stage {
            effect: Effect::Update { guild, op: StoreOp::SetCourtCategory(category) },
            failure: Cause::Store,
        },
    ]
}

/// What `set_category` answers: a channel that is no category is refused and nothing is
/// persisted; a category is persisted for the guild, then acknowledged.
pub open spec fn set_category_next(ctx: Context, category: Channel, trace: Seq<Event>) -> Next {
    match ctx.guild() {
        None => Next::failed(Cause::GuildIdNotFound),
        Some(guild) => match category {
            Channel::Category(id) => follow(
                trace,
                set_category_stages(guild, id),
                Outcome::Acknowledged(Ack::CategorySet),
            ),
            _ => Next::Finish(Outcome::Refused(Refusal::NotACategory)),
        },
    }
}

/// Whether the member may rule in place of the judge: they hold the permission to manage
/// the guild. Where the platform sent no permissions along, they do not.
pub open spec fn permission_override(member: Member) -> bool {
    match member.permissions {
        Some(bits) => bits & 0x20 == 0x20,
        None => false,
    }
}

/// The stage that persists a ruling.
pub open spec fn ruling_stages(guild: SnowflakeId, op: StoreOp) -> Seq<Stage> {
    seq![Stage { effect: Effect::Update { guild, op }, failure: Cause::Store }]
}

/// What `close` answers. The command has to be invoked as an application command, by a
/// member, in a guild. The aggregate is loaded. The channel of the invocation has to host an
/// active case, that is a lawsuit without a verdict that is bound to it, or there is no
/// active case; whether the channel is on record as a court room plays no part. The member
/// has to be the judge of the case or to hold the override, or the request is refused.
/// Either way nothing is persisted. Else the verdict is recorded for the case, then
/// acknowledged.
pub open spec fn close_next(ctx: Context, verdict: String, trace: Seq<Event>) -> Next {
    match ctx.guild() {
        None => Next::failed(Cause::GuildIdNotFound),
        Some(guild) => match ctx {
            Context::Prefix(_) => Next::failed(Cause::WrongContext),
            Context::Application(invocation) => match invocation.member {
                None => Next::failed(Cause::MemberNotFound),
                Some(member) => if trace.len() == 0 {
                    Next::Perform(Effect::FindOrInsertState { guild })
                } else {
                    match state_at(trace, 0) {
                        None => Next::failed(Cause::FindGuildForVerdict),
                        Some(state) => match state@.active_case(invocation.channel_id) {
                            None => Next::Finish(Outcome::Refused(Refusal::NoActiveCase)),
                            Some(i) => match LawsuitCtx::ruling(
                                state.lawsuits@[i],
                                permission_override(member),
                                member.user,
                                verdict,
                                CourtRoom { channel_id: invocation.channel_id },
                            ) {
                                Err(refusal) => Next::Finish(Outcome::Refused(refusal)),
                                Ok(op) => follow(
                                    trace.skip(1),
                                    ruling_stages(guild, op),
                                    Outcome::Acknowledged(Ack::VerdictRuled),
                                ),
                            },
                        },
                    }
                },
            },
        },
    }
}

/// The stage that deletes the guild's aggregate.
pub open spec fn clear_stages(guild: SnowflakeId) -> Seq<Stage> {
    seq![Stage { effect: Effect::DeleteGuild { guild }, failure: Cause::Store }]
}

/// What `clear` answers: the aggregate is deleted whatever it holds, then acknowledged.
pub open spec fn clear_next(ctx: Context, trace: Seq<Event>) -> Next {
    match ctx.guild() {
        None => Next::failed(Cause::GuildIdNotFound),
        Some(guild) => follow(trace, clear_stages(guild), Outcome::Acknowledged(Ack::Cleared)),
    }
}

/// Whether `next` is what the `lawsuit` group may answer: outside a guild the command is
/// turned away before anything is done; within one, the command that was named runs, and a
/// failure is marked with it.
pub open spec fn lawsuit_allows(
    ctx: Context,
    command: LawsuitCommand,
    trace: Seq<Event>,
    next: Next,
) -> bool {
    if ctx.guild() is None {
        next == Next::failed(Cause::GuildOnly)
    } else {
        match command {
            LawsuitCommand::Create {
                plaintiff,
                accused,
                judge,
                reason,
                plaintiff_lawyer,
                accused_lawyer,
            } => exists|inner: Next|
                #[trigger] create_allows(
                    ctx,
                    plaintiff,
                    accused,
                    judge,
                    reason,
                    plaintiff_lawyer,
                    accused_lawyer,
                    trace,
                    inner,
                ) && next == inner.during(Command::LawsuitCreate),
            LawsuitCommand::SetCategory { category } => next == set_category_next(
                ctx,
                category,
                trace,
            ).during(Command::LawsuitSetCategory),
            LawsuitCommand::Close { verdict } => next == close_next(ctx, verdict, trace).during(
                Command::LawsuitClose,
            ),
            LawsuitCommand::Clear => next == clear_next(ctx, trace).during(Command::LawsuitClear),
        }
    }
}

/// Routes a command of the `lawsuit` group. The group is for guilds only.
pub fn lawsuit(ctx: &Context, command: &LawsuitCommand, trace: &Vec<Event>) -> (next: Next)
    ensures
        lawsuit_allows(*ctx, *command, trace@, next),
{
    if ctx.guild_id().is_none() {
        return Next::fail(Cause::GuildOnly);
    }
    match command {
        LawsuitCommand::Create {
            plaintiff,
            accused,
            judge,
            reason,
            plaintiff_lawyer,
            accused_lawyer,
        } => create(
            ctx,
            *plaintiff,
            *accused,
            *judge,
            reason.clone(),
            *plaintiff_lawyer,
            *accused_lawyer,
            trace,
        ),
        LawsuitCommand::SetCategory { category } => set_category(ctx, *category, trace),
        LawsuitCommand::Close { verdict } => close(ctx, verdict.clone(), trace),
        LawsuitCommand::Clear => clear(ctx, trace),
    }
}

/// Opens a new case.
pub fn create(
    ctx: &Context,
    plaintiff: SnowflakeId,
    accused: SnowflakeId,
    judge: SnowflakeId,
    reason: String,
    plaintiff_lawyer: Option<SnowflakeId>,
    accused_lawyer: Option<SnowflakeId>,
    trace: &Vec<Event>,
) -> (next: Next)
    ensures
        exists|inner: Next|
            #[trigger] create_allows(
                *ctx,
                plaintiff,
                accused,
                judge,
                reason,
                plaintiff_lawyer,
                accused_lawyer,
                trace@,
                inner,
            ) && next == inner.during(Command::LawsuitCreate),
{
    let inner = lawsuit_create_impl(
        ctx,
        plaintiff,
        accused,
        judge,
        reason,
        plaintiff_lawyer,
        accused_lawyer,
        trace,
    );
    assert(create_allows(
        *ctx,
        plaintiff,
        accused,
        judge,
        reason,
        plaintiff_lawyer,
        accused_lawyer,
        trace@,
        inner,
    ));
    inner.within(Command::LawsuitCreate)
}

/// Sets the category for court rooms.
pub fn set_category(ctx: &Context, category: Channel, trace: &Vec<Event>) -> (next: Next)
    ensures
        next == set_category_next(*ctx, category, trace@).during(Command::LawsuitSetCategory),
{
    lawsuit_set_category_impl(ctx, category, trace).within(Command::LawsuitSetCategory)
}

/// Closes the case and rules a verdict.
pub fn close(ctx: &Context, verdict: String, trace: &Vec<Event>) -> (next: Next)
    ensures
        next == close_next(*ctx, verdict, trace@).during(Command::LawsuitClose),
{
    lawsuit_close_impl(ctx, verdict, trace).within(Command::LawsuitClose)
}

/// Deletes all lawsuit data.
pub fn clear(ctx: &Context, trace: &Vec<Event>) -> (next: Next)
    ensures
        next == clear_next(*ctx, trace@).during(Command::LawsuitClear),
{
    lawsuit_clear_impl(ctx, trace).within(Command::LawsuitClear)
}

/// Drafts a case under a fresh identity and creates it. Each answer drafts the case anew;
/// the identity that counts is the one under which the lawsuit is handed to the store. That
/// happens in one answer only, the third, and no later answer looks at the identity.
pub fn lawsuit_create_impl(
    ctx: &Context,
    plaintiff: SnowflakeId,
    accused: SnowflakeId,
    judge: SnowflakeId,
    reason: String,
    plaintiff_lawyer: Option<SnowflakeId>,
    accused_lawyer: Option<SnowflakeId>,
    trace: &Vec<Event>,
) -> (next: Next)
    ensures
        create_allows(
            *ctx,
            plaintiff,
            accused,
            judge,
            reason,
            plaintiff_lawyer,
            accused_lawyer,
            trace@,
            next,
        ),
{
    let guild_id = match ctx.guild_id() {
        Some(guild) => guild,
        None => {
            return Next::fail(Cause::GuildIdNotFound);
        },
    };
    let lawsuit = Lawsuit {
        id: fresh_case_id(),
        plaintiff,
        accused,
        judge,
        plaintiff_lawyer,
        accused_lawyer,
        reason,
        verdict: None,
        court_room: SnowflakeId(0),
    };
    assert(lawsuit == drafted(
        lawsuit.id,
        plaintiff,
        accused,
        judge,
        reason,
        plaintiff_lawyer,
        accused_lawyer,
    ));
    let lawsuit_ctx = LawsuitCtx { lawsuit, guild_id };
    lawsuit_ctx.initialize(trace)
}

/// Persists the category under which court rooms are created, once the channel that was
/// named has proved to be one.
pub fn lawsuit_set_category_impl(ctx: &Context, category: Channel, trace: &Vec<Event>) -> (next:
    Next)
    ensures
        next == set_category_next(*ctx, category, trace@),
{
    let guild = match ctx.guild_id() {
        Some(guild) => guild,
        None => {
            return Next::fail(Cause::GuildIdNotFound);
        },
    };
    match category.category() {
        Some(id) => {
            let stages = vec![
                Stage {
                    effect: Effect::Update { guild, op: StoreOp::SetCourtCategory(id) },
                    failure: Cause::Store,
                },
            ];
            assert(stages@ =~= set_category_stages(guild, id));
            assert(trace@.skip(0) =~= trace@);
            advance(trace, 0, stages, Outcome::Acknowledged(Ack::CategorySet))
        },
        None => Next::Finish(Outcome::Refused(Refusal::NotACategory)),
    }
}

/// Rules the verdict of the active case that is heard in the channel of the invocation.
/// Whether the invoker may rule is decided from the aggregate as it is loaded for this very
/// ruling. The court room is left standing.
pub fn lawsuit_close_impl(ctx: &Context, verdict: String, trace: &Vec<Event>) -> (next: Next)
    ensures
        next == close_next(*ctx, verdict, trace@),
{
    let guild_id = match ctx.guild_id() {
        Some(guild) => guild,
        None => {
            return Next::fail(Cause::GuildIdNotFound);
        },
    };
    let application_context = match ctx {
        Context::Application(invocation) => invocation,
        Context::Prefix(_) => {
            return Next::fail(Cause::WrongContext);
        },
    };
    let member = match application_context.member {
        Some(member) => member,
        None => {
            return Next::fail(Cause::MemberNotFound);
        },
    };
    let permission_override = match member.permissions {
        Some(bits) => contains_manage_guild(bits),
        None => false,
    };
    let room_id = ctx.channel_id();
    if trace.len() == 0 {
        return Next::Perform(Effect::FindOrInsertState { guild: guild_id });
    }
    let state = match loaded(trace, 0) {
        Some(state) => state,
        None => {
            return Next::fail(Cause::FindGuildForVerdict);
        },
    };
    let lawsuit = match state.find_active_lawsuit(room_id) {
        Some(i) => state.lawsuits[i].clone(),
        None => {
            return Next::Finish(Outcome::Refused(Refusal::NoActiveCase));
        },
    };
    let room = CourtRoom { channel_id: room_id };
    let lawsuit_ctx = LawsuitCtx { lawsuit, guild_id };
    match lawsuit_ctx.rule_verdict(permission_override, member.user, verdict, room) {
        Err(refusal) => Next::Finish(Outcome::Refused(refusal)),
        Ok(op) => {
            let ghost ruled = op;
            let stages = vec![
                Stage { effect: Effect::Update { guild: guild_id, op }, failure: Cause::Store },
            ];
            assert(stages@ =~= ruling_stages(guild_id, ruled));
            advance(trace, 1, stages, Outcome::Acknowledged(Ack::VerdictRuled))
        },
    }
}

/// Deletes the aggregate of the guild of the invocation. There is no way back.
pub fn lawsuit_clear_impl(ctx: &Context, trace: &Vec<Event>) -> (next: Next)
    ensures
        next == clear_next(*ctx, trace@),
{
    let guild = match ctx.guild_id() {
        Some(guild) => guild,
        None => {
            return Next::fail(Cause::GuildIdNotFound);
        },
    };
    let stages = vec![Stage { effect: Effect::DeleteGuild { guild }, failure: Cause::Store }];
    assert(stages@ =~= clear_stages(guild));
    assert(trace@.skip(0) =~= trace@);
    advance(trace, 0, stages, Outcome::Acknowledged(Ack::Cleared))
}

} // verus!
