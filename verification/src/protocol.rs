//! The exchange between an operation and whoever carries out its effects.
//!
//! An operation never touches the store or the chat platform itself. Asked with the answers
//! it has received so far, it names the next effect to carry out, or says how it ended. The
//! caller carries the effect out, appends what came back to the answers, and asks again.

use vstd::prelude::*;
use crate::model::{SnowflakeId, State};
use crate::store::StoreOp;

verus! {

/// One call into the store or the chat platform.
#[derive(Debug, PartialEq)]
pub enum Effect {
    /// Load the guild's aggregate, creating it where it is missing. Answer: [`Event::State`].
    FindOrInsertState { guild: SnowflakeId },
    /// Ask whether the member is recorded as imprisoned. Answer: [`Event::PrisonEntry`].
    FindPrisonEntry { guild: SnowflakeId, user: SnowflakeId },
    /// Carry out one field-level update. Answer: [`Event::Done`].
    Update { guild: SnowflakeId, op: StoreOp },
    /// Delete the guild's aggregate. Answer: [`Event::Done`].
    DeleteGuild { guild: SnowflakeId },
    /// Create a text channel under the category. Answer: [`Event::Channel`].
    CreateChannel { guild: SnowflakeId, category: SnowflakeId, name: String },
    /// Look the member up on the platform. Answer: [`Event::Done`].
    FetchMember { guild: SnowflakeId, user: SnowflakeId },
    /// Grant the role to the member. Answer: [`Event::Done`].
    AddRole { guild: SnowflakeId, user: SnowflakeId, role: SnowflakeId },
    /// Take the role from the member. Answer: [`Event::Done`].
    RemoveRole { guild: SnowflakeId, user: SnowflakeId, role: SnowflakeId },
}

impl Clone for Effect {
    fn clone(&self) -> (copy: Self)
        ensures
            copy == *self,
    {
        match self {
            Effect::FindOrInsertState { guild } => Effect::FindOrInsertState { guild: *guild },
            Effect::FindPrisonEntry { guild, user } => Effect::FindPrisonEntry {
                guild: *guild,
                user: *user,
            },
            Effect::Update { guild, op } => Effect::Update { guild: *guild, op: op.clone() },
            Effect::DeleteGuild { guild } => Effect::DeleteGuild { guild: *guild },
            Effect::CreateChannel { guild, category, name } => Effect::CreateChannel {
                guild: *guild,
                category: *category,
                name: name.clone(),
            },
            Effect::FetchMember { guild, user } => Effect::FetchMember {
                guild: *guild,
                user: *user,
            },
            Effect::AddRole { guild, user, role } => Effect::AddRole {
                guild: *guild,
                user: *user,
                role: *role,
            },
            Effect::RemoveRole { guild, user, role } => Effect::RemoveRole {
                guild: *guild,
                user: *user,
                role: *role,
            },
        }
    }
}

/// What came back from an effect.
#[derive(Debug, PartialEq)]
pub enum Event {
    /// The aggregate as the store holds it.
    State(State),
    /// Whether a prison entry exists.
    PrisonEntry(bool),
    /// The channel that the platform created.
    Channel(SnowflakeId),
    /// The effect was carried out and acknowledged.
    Done,
    /// The store or the platform could not be reached, refused, or ran out of time. Nothing
    /// is known of what took effect.
    Failed,
}

/// The command in whose course a failure came up.
#[derive(Clone, Copy, Debug, PartialEq, Eq, Structural)]
pub enum Command {
    LawsuitCreate,
    LawsuitSetCategory,
    LawsuitClose,
    LawsuitClear,
    PrisonSetRole,
    PrisonArrest,
    PrisonRelease,
}

/// Where an operation broke off.
#[derive(Clone, Copy, Debug, PartialEq, Eq, Structural)]
pub enum Cause {
    /// A command for guilds was invoked outside of one.
    GuildOnly,
    /// The invoker lacks a permission that the command asks for.
    MissingUserPermissions,
    /// The invocation names no guild.
    GuildIdNotFound,
    /// The command was not invoked as an application command.
    WrongContext,
    /// The invocation names no invoking member.
    MemberNotFound,
    /// A store call was not acknowledged.
    Store,
    /// The aggregate could not be loaded to rule on a verdict.
    FindGuildForVerdict,
    /// The court room could not be created.
    CreateChannel,
    /// The platform handed out a channel that the aggregate already knows.
    RoomTaken,
    /// The identity drawn for a new case is in use already.
    CaseTaken,
    /// The member could not be looked up.
    FetchingGuildMember,
    /// The role could not be granted.
    AddGuildMemberRole,
    /// The role could not be taken away.
    RemoveGuildMemberRole,
    /// The role could not be granted again to a prisoner who rejoined.
    AddRoleInPrison,
    /// The words for the invoker could not be sent.
    Reply,
    /// The framework gave the invocation up for a reason of its own.
    Framework,
}

/// A failure of the store or the platform, or an invocation that cannot be served. It is
/// never tried again on its own; the caller may invoke the command once more.
#[derive(Clone, Copy, Debug, PartialEq, Eq, Structural)]
pub struct Failure {
    pub cause: Cause,
    pub command: Option<Command>,
}

impl Failure {
    pub open spec fn because(cause: Cause) -> Failure {
        Failure { cause, command: None }
    }

    /// A failure that no command has been named for yet.
    pub fn of(cause: Cause) -> (failure: Failure)
        ensures
            failure == Failure::because(cause),
    {
        Failure { cause, command: None }
    }

    pub open spec fn during(self, command: Command) -> Failure {
        Failure { cause: self.cause, command: Some(command) }
    }

    /// The same failure, marked as having come up in the course of `command`.
    pub fn within(self, command: Command) -> (failure: Failure)
        ensures
            failure == self.during(command),
    {
        Failure { cause: self.cause, command: Some(command) }
    }
}

/// A request that was turned down for a reason the user can act on. Nothing was changed.
#[derive(Clone, Copy, Debug, PartialEq, Eq, Structural)]
pub enum Refusal {
    /// No prison role is configured for the guild.
    NoPrisonRole,
    /// No court category is configured for the guild.
    NoCourtCategory,
    /// The channel hosts no active case.
    NoActiveCase,
    /// The requester is not the judge of the case and holds no override.
    Unauthorized,
    /// The channel that was named is not a category.
    NotACategory,
    /// The command can only be used within a guild.
    GuildOnly,
    /// The invoker lacks the permission that the command asks for.
    MissingUserPermissions,
}

/// What a request achieved.
#[derive(Clone, Copy, Debug, PartialEq, Eq, Structural)]
pub enum Ack {
    RoleSet,
    CategorySet,
    /// The case was created and is bound to this room.
    Created { room: SnowflakeId },
    VerdictRuled,
    Cleared,
    Arrested,
    Released,
}

/// How an operation ended.
#[derive(Clone, Copy, Debug, PartialEq, Eq, Structural)]
pub enum Outcome {
    Acknowledged(Ack),
    Refused(Refusal),
    /// Done, with nothing to tell anyone.
    Silent,
    /// The failure goes to the operator's log and no further.
    Logged(Failure),
    /// The failure goes to the operator's log, and the invoker is told that something went
    /// wrong, not what.
    Apologized(Failure),
    /// The failure is handed up to the caller.
    Failed(Failure),
}

impl Outcome {
    pub open spec fn during(self, command: Command) -> Outcome {
        match self {
            Outcome::Failed(failure) => Outcome::Failed(failure.during(command)),
            other => other,
        }
    }

    /// Marks a failure as having come up in the course of `command`; any other outcome is
    /// returned as it is.
    pub fn within(self, command: Command) -> (outcome: Outcome)
        ensures
            outcome == self.during(command),
    {
        match self {
            Outcome::Failed(failure) => Outcome::Failed(failure.within(command)),
            other => other,
        }
    }
}

/// The answer of an operation: the effect to carry out next, or the outcome.
#[derive(Debug, PartialEq)]
pub enum Next {
    Perform(Effect),
    Finish(Outcome),
}

impl Next {
    pub open spec fn failed(cause: Cause) -> Next {
        Next::Finish(Outcome::Failed(Failure::because(cause)))
    }

    /// The answer that ends an operation with a failure.
    pub fn fail(cause: Cause) -> (next: Next)
        ensures
            next == Next::failed(cause),
    {
        Next::Finish(Outcome::Failed(Failure::of(cause)))
    }

    pub open spec fn during(self, command: Command) -> Next {
        match self {
            Next::Finish(outcome) => Next::Finish(outcome.during(command)),
            other => other,
        }
    }

    /// Marks a failure as having come up in the course of `command`.
    pub fn within(self, command: Command) -> (next: Next)
        ensures
            next == self.during(command),
    {
        match self {
            Next::Finish(outcome) => Next::Finish(outcome.within(command)),
            other => other,
        }
    }
}

/// One step of a run of effects that are each merely acknowledged: the effect, and the cause
/// to report when it is not.
#[derive(Debug)]
pub struct Stage {
    pub effect: Effect,
    pub failure: Cause,
}

/// Where a run of stages stands, given the answers to the stages carried out so far: the
/// first stage without an answer is next; a stage that was answered by anything but
/// [`Event::Done`] ends the run with its failure, whatever was answered after it; when
/// every stage was acknowledged the run ends with `done`.
pub open spec fn follow(answers: Seq<Event>, stages: Seq<Stage>, done: Outcome) -> Next
    decreases stages.len(),
{
    if stages.len() == 0 {
        Next::Finish(done)
    } else if answers.len() == 0 {
        Next::Perform(stages[0].effect)
    } else if answers[0] is Done {
        follow(answers.skip(1), stages.skip(1), done)
    } else {
        Next::failed(stages[0].failure)
    }
}

/// The answers from position `from` of the trace on; none where the trace ends before.
pub open spec fn answers_from(trace: Seq<Event>, from: int) -> Seq<Event> {
    if 0 <= from <= trace.len() {
        trace.skip(from)
    } else {
        Seq::empty()
    }
}

/// Decides where a run of stages stands. The answers to the stages are those of `trace` from
/// position `from` on.
pub fn advance(trace: &Vec<Event>, from: usize, stages: Vec<Stage>, done: Outcome) -> (next: Next)
    ensures
        next == follow(answers_from(trace@, from as int), stages@, done),
{
    if from > trace.len() {
        return if stages.len() == 0 {
            Next::Finish(done)
        } else {
            Next::Perform(stages[0].effect.clone())
        };
    }
    let mut k: usize = 0;
    assert(stages@.skip(0) =~= stages@);
    while k < stages.len()
        invariant
            k <= stages.len(),
            from + k <= trace.len(),
            follow(trace@.skip(from as int), stages@, done) == follow(
                trace@.skip(from + k),
                stages@.skip(k as int),
                done,
            ),
        decreases stages.len() - k,
    {
        let ghost answers = trace@.skip(from + k);
        let ghost rest = stages@.skip(k as int);
        assert(rest.len() > 0 && rest[0] == stages@[k as int]);
        if from + k == trace.len() {
            assert(answers.len() == 0);
            return Next::Perform(stages[k].effect.clone());
        }
        assert(answers[0] == trace@[from + k]);
        match trace[from + k] {
            Event::Done => {},
            _ => {
                return Next::fail(stages[k].failure);
            },
        }
        assert(answers.skip(1) =~= trace@.skip(from + k + 1));
        assert(rest.skip(1) =~= stages@.skip(k + 1));
        k += 1;
    }
    assert(stages@.skip(k as int).len() == 0);
    Next::Finish(done)
}

/// Whether the first `count` answers are all acknowledgements.
pub open spec fn acknowledged(answers: Seq<Event>, count: int) -> bool {
    &&& count <= answers.len()
    &&& forall|i: int| 0 <= i < count ==> answers[i] is Done
}

/// Where a run stands, said without recursion. With every stage acknowledged the run ends
/// with its outcome. With the stages before stage `k` acknowledged, stage `k` is next when
/// it has no answer yet, and ends the run with its failure when its answer is anything but
/// an acknowledgement.
pub proof fn follow_stands_at(answers: Seq<Event>, stages: Seq<Stage>, done: Outcome, k: int)
    requires
        0 <= k <= stages.len(),
        acknowledged(answers, k),
    ensures
        k == stages.len() ==> follow(answers, stages, done) == Next::Finish(done),
        k < stages.len() && answers.len() == k ==> follow(answers, stages, done) == Next::Perform(
            stages[k].effect,
        ),
        k < stages.len() && answers.len() > k && !(answers[k] is Done) ==> follow(
            answers,
            stages,
            done,
        ) == Next::failed(stages[k].failure),
    decreases k,
{
    if k > 0 {
        assert(answers[0] is Done);
        let later = answers.skip(1);
        let rest = stages.skip(1);
        assert forall|i: int| 0 <= i < k - 1 implies later[i] is Done by {
            assert(later[i] == answers[i + 1]);
        }
        follow_stands_at(later, rest, done, k - 1);
        if k < stages.len() {
            assert(rest[k - 1] == stages[k]);
            if answers.len() > k {
                assert(later[k - 1] == answers[k]);
            }
        }
    }
}

/// The aggregate that answered the effect at position `at` of the trace, if one did.
pub open spec fn state_at(trace: Seq<Event>, at: int) -> Option<State> {
    if 0 <= at < trace.len() {
        match trace[at] {
            Event::State(state) => Some(state),
            _ => None,
        }
    } else {
        None
    }
}

pub fn loaded(trace: &Vec<Event>, at: usize) -> (found: Option<&State>)
    ensures
        found matches Some(state) ==> state_at(trace@, at as int) == Some(*state),
        found is None ==> state_at(trace@, at as int) is None,
{
    if at < trace.len() {
        match &trace[at] {
            Event::State(state) => Some(state),
            _ => None,
        }
    } else {
        None
    }
}

} // verus!
