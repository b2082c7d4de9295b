//! The dispatcher: it takes commands and platform events, has the engines decide, and turns
//! outcomes into the words that the user reads. It keeps no state between invocations.

use vstd::prelude::*;
use crate::model::SnowflakeId;
use crate::protocol::{
    advance, follow, loaded, state_at, Ack, Cause, Effect, Event, Failure, Next, Outcome, Refusal,
    Stage,
};
use crate::text::{decimal, digits};

pub mod lawsuit;
pub mod prison;

verus! {

/// What the dispatcher is configured with.
#[derive(Clone, Copy, Debug, PartialEq, Eq, Structural)]
pub struct Handler {
    /// The guild in which commands are registered while the bot is being developed.
    pub dev_guild_id: Option<SnowflakeId>,
    /// Whether commands are registered for every guild.
    pub set_global_commands: bool,
}

/// Words for the user who invoked a command.
#[derive(Debug, PartialEq)]
pub struct Response(pub String);

impl View for Response {
    type V = Seq<char>;

    open spec fn view(&self) -> Seq<char> {
        self.0@
    }
}

impl Response {
    /// The words as a string of their own.
    pub fn to_string(&self) -> (text: String)
        ensures
            text@ == self@,
    {
        self.0.clone()
    }
}

/// A member of a guild, as an invocation or a platform event names them.
#[derive(Clone, Copy, Debug, PartialEq, Eq, Structural)]
pub struct Member {
    pub guild_id: SnowflakeId,
    pub user: SnowflakeId,
    /// The bits of the member's permissions in the channel of the invocation, where the
    /// platform sent them along.
    pub permissions: Option<u64>,
}

/// An invocation as an application command.
#[derive(Clone, Copy, Debug, PartialEq, Eq, Structural)]
pub struct ApplicationContext {
    pub guild_id: Option<SnowflakeId>,
    pub channel_id: SnowflakeId,
    pub member: Option<Member>,
}

/// An invocation by a message with the command prefix.
#[derive(Clone, Copy, Debug, PartialEq, Eq, Structural)]
pub struct PrefixContext {
    pub guild_id: Option<SnowflakeId>,
    pub channel_id: SnowflakeId,
}

/// Where and by whom a command was invoked.
#[derive(Clone, Copy, Debug, PartialEq, Eq, Structural)]
pub enum Context {
    Application(ApplicationContext),
    Prefix(PrefixContext),
}

impl Context {
    pub open spec fn guild(self) -> Option<SnowflakeId> {
        match self {
            Context::Application(invocation) => invocation.guild_id,
            Context::Prefix(invocation) => invocation.guild_id,
        }
    }

    /// The guild in which the command was invoked, if it was invoked in one.
    pub fn guild_id(&self) -> (guild: Option<SnowflakeId>)
        ensures
            guild == self.guild(),
    {
        match self {
            Context::Application(invocation) => invocation.guild_id,
            Context::Prefix(invocation) => invocation.guild_id,
        }
    }

    pub open spec fn channel(self) -> SnowflakeId {
        match self {
            Context::Application(invocation) => invocation.channel_id,
            Context::Prefix(invocation) => invocation.channel_id,
        }
    }

    /// The channel in which the command was invoked.
    pub fn channel_id(&self) -> (channel: SnowflakeId)
        ensures
            channel == self.channel(),
    {
        match self {
            Context::Application(invocation) => invocation.channel_id,
            Context::Prefix(invocation) => invocation.channel_id,
        }
    }
}

/// A channel that was handed to a command, by its kind.
#[derive(Clone, Copy, Debug, PartialEq, Eq, Structural)]
pub enum Channel {
    /// A text, voice or other channel of a guild.
    Guild(SnowflakeId),
    /// A private channel between two users.
    Private(SnowflakeId),
    /// A category that groups channels of a guild.
    Category(SnowflakeId),
}

impl Channel {
    /// The category's identifier, if the channel is a category.
    pub fn category(self) -> (id: Option<SnowflakeId>)
        ensures
            id == (match self {
                Channel::Category(category) => Some(category),
                _ => None::<SnowflakeId>,
            }),
    {
        match self {
            Channel::Category(category) => Some(category),
            _ => None,
        }
    }
}

/// Something that happened on the platform.
#[derive(Clone, Copy, Debug, PartialEq, Eq, Structural)]
pub enum PlatformEvent {
    /// A member joined a guild, for the first time or again.
    GuildMemberAddition { new_member: Member },
    /// Anything else.
    Other,
}

/// The words in which a request is acknowledged.
pub open spec fn ack_text(ack: Ack) -> Seq<char> {
    match ack {
        Ack::RoleSet => "isch gsetzt"@,
        Ack::CategorySet => "isch gsetzt"@,
        Ack::Created { room } => "de prozess lauft in <#"@ + digits(room.0 as nat) + ">"@,
        Ack::VerdictRuled => "ich han en dir abschlosse"@,
        Ack::Cleared => "alles weg"@,
        Ack::Arrested => "isch igsperrt"@,
        Ack::Released => "d'freiheit wartet"@,
    }
}

/// The words in which a request is turned down.
pub open spec fn refusal_text(refusal: Refusal) -> Seq<char> {
    match refusal {
        Refusal::NoPrisonRole => "du mosch zerst e rolle setze mit /prison set_role"@,
        Refusal::NoCourtCategory => "du mosch zerst e kategorie setze mit /lawsuit set_category"@,
        Refusal::NoActiveCase => "i dem channel lauft kein aktive prozess!"@,
        Refusal::Unauthorized => "nur de richter cha de prozess abschlüsse!"@,
        Refusal::NotACategory => "Das ist keine Kategorie!"@,
        Refusal::GuildOnly => "du chasch de command nur uf emene serve nutze!"@,
        Refusal::MissingUserPermissions => "du häsch kei recht für da!"@,
    }
}

/// The words in which the invoker is told of a failure. They are the same for every failure
/// and give nothing of it away.
pub open spec fn apology_text() -> Seq<char> {
    "tuet mer leid, da isch öppis schiefgange!"@
}

/// What the user is told of an outcome. A failure is not for the user's eyes: where the
/// invoker is owed an answer it is the apology, whatever the failure was. A failure that is
/// logged only, one that is still on its way up to the error handler, and a silent outcome
/// have no words.
pub open spec fn outcome_text(outcome: Outcome) -> Option<Seq<char>> {
    match outcome {
        Outcome::Acknowledged(ack) => Some(ack_text(ack)),
        Outcome::Refused(refusal) => Some(refusal_text(refusal)),
        Outcome::Apologized(_) => Some(apology_text()),
        Outcome::Silent => None,
        Outcome::Logged(_) => None,
        Outcome::Failed(_) => None,
    }
}

fn acknowledge(ack: Ack) -> (response: Response)
    ensures
        response@ == ack_text(ack),
{
    match ack {
        Ack::RoleSet => Response(String::from_str("isch gsetzt")),
        Ack::CategorySet => Response(String::from_str("isch gsetzt")),
        Ack::Created { room } => {
            let mut text = String::from_str("de prozess lauft in <#");
            let number = decimal(room.0);
            text.append(number.as_str());
            text.append(">");
            Response(text)
        },
        Ack::VerdictRuled => Response(String::from_str("ich han en dir abschlosse")),
        Ack::Cleared => Response(String::from_str("alles weg")),
        Ack::Arrested => Response(String::from_str("isch igsperrt")),
        Ack::Released => Response(String::from_str("d'freiheit wartet")),
    }
}

fn refuse(refusal: Refusal) -> (response: Response)
    ensures
        response@ == refusal_text(refusal),
{
    match refusal {
        Refusal::NoPrisonRole => Response(
            String::from_str("du mosch zerst e rolle setze mit /prison set_role"),
        ),
        Refusal::NoCourtCategory => Response(
            String::from_str("du mosch zerst e kategorie setze mit /lawsuit set_category"),
        ),
        Refusal::NoActiveCase => Response(
            String::from_str("i dem channel lauft kein aktive prozess!"),
        ),
        Refusal::Unauthorized => Response(
            String::from_str("nur de richter cha de prozess abschlüsse!"),
        ),
        Refusal::NotACategory => Response(String::from_str("Das ist keine Kategorie!")),
        Refusal::GuildOnly => Response(
            String::from_str("du chasch de command nur uf emene serve nutze!"),
        ),
        Refusal::MissingUserPermissions => Response(
            String::from_str("du häsch kei recht für da!"),
        ),
    }
}

/// Puts an outcome into words for the user, where it has any.
pub fn respond(outcome: Outcome) -> (response: Option<Response>)
    ensures
        response is Some == outcome_text(outcome) is Some,
        response matches Some(words) ==> Some(words@) == outcome_text(outcome),
{
    match outcome {
        Outcome::Acknowledged(ack) => Some(acknowledge(ack)),
        Outcome::Refused(refusal) => Some(refuse(refusal)),
        Outcome::Apologized(_) => Some(
            Response(String::from_str("tuet mer leid, da isch öppis schiefgange!")),
        ),
        _ => None,
    }
}

/// The stage that grants a rejoined prisoner the prison role again.
pub open spec fn regrant(member: Member, role: SnowflakeId) -> Seq<Stage> {
    seq![
        Stage {
            effect: Effect::AddRole { guild: member.guild_id, user: member.user, role },
            failure: Cause::AddRoleInPrison,
        },
    ]
}

/// What is to be done when `member` joins a guild, given the answers so far: the aggregate
/// is loaded; where a prison role is configured the store is asked for the member's prison
/// entry; where there is one, the role is granted.
pub open spec fn join_next(member: Member, trace: Seq<Event>) -> Next {
    if trace.len() == 0 {
        Next::Perform(Effect::FindOrInsertState { guild: member.guild_id })
    } else {
        match state_at(trace, 0) {
            None => Next::failed(Cause::Store),
            Some(state) => match state.prison_role {
                None => Next::Finish(Outcome::Silent),
                Some(role) => if trace.len() == 1 {
                    Next::Perform(
                        Effect::FindPrisonEntry { guild: member.guild_id, user: member.user },
                    )
                } else {
                    match trace[1] {
                        Event::PrisonEntry(true) => follow(
                            trace.skip(2),
                            regrant(member, role),
                            Outcome::Silent,
                        ),
                        Event::PrisonEntry(false) => Next::Finish(Outcome::Silent),
                        _ => Next::failed(Cause::Store),
                    }
                },
            },
        }
    }
}

impl Handler {
    /// Decides what is to be done when a member joins a guild. A member who is recorded as
    /// imprisoned gets the prison role again: the platform strips a member who leaves of
    /// every role, and the record is what counts.
    pub fn handle_guild_member_join(&self, member: &Member, trace: &Vec<Event>) -> (next: Next)
        ensures
            next == join_next(*member, trace@),
    {
        let guild = member.guild_id;
        let user = member.user;
        if trace.len() == 0 {
            return Next::Perform(Effect::FindOrInsertState { guild });
        }
        let state = match loaded(trace, 0) {
            Some(state) => state,
            None => {
                return Next::fail(Cause::Store);
            },
        };
        let role = match state.prison_role {
            Some(role) => role,
            None => {
                return Next::Finish(Outcome::Silent);
            },
        };
        if trace.len() == 1 {
            return Next::Perform(Effect::FindPrisonEntry { guild, user });
        }
        match trace[1] {
            Event::PrisonEntry(true) => {
                let stages = vec![
                    Stage {
                        effect: Effect::AddRole { guild, user, role },
                        failure: Cause::AddRoleInPrison,
                    },
                ];
                assert(stages@ =~= regrant(*member, role));
                advance(trace, 2, stages, Outcome::Silent)
            },
            Event::PrisonEntry(false) => Next::Finish(Outcome::Silent),
            _ => Next::fail(Cause::Store),
        }
    }
}

/// What the listener answers to a platform event: for a member who joined, what
/// [`join_next`] says, but that a failure ends in the operator's log; for any other event,
/// nothing.
pub open spec fn listener_next(event: PlatformEvent, trace: Seq<Event>) -> Next {
    match event {
        PlatformEvent::GuildMemberAddition { new_member } => match join_next(new_member, trace) {
            Next::Finish(Outcome::Failed(failure)) => Next::Finish(Outcome::Logged(failure)),
            other => other,
        },
        PlatformEvent::Other => Next::Finish(Outcome::Silent),
    }
}

/// Handles a platform event. A failure on the way is logged for the operator; it is not
/// shown to the member, and nothing is rolled back or tried again.
pub fn listener(event: &PlatformEvent, data: &Handler, trace: &Vec<Event>) -> (next: Next)
    ensures
        next == listener_next(*event, trace@),
        !(next matches Next::Finish(Outcome::Failed(_))),
{
    match event {
        PlatformEvent::GuildMemberAddition { new_member } => {
            match data.handle_guild_member_join(new_member, trace) {
                Next::Finish(Outcome::Failed(failure)) => Next::Finish(Outcome::Logged(failure)),
                other => other,
            }
        },
        PlatformEvent::Other => Next::Finish(Outcome::Silent),
    }
}

/// What becomes of a failure that a command, or the framework on its behalf, handed up: the
/// invoker is told of a missing permission and of a command used outside a guild; any
/// other failure is logged for the operator, and the invoker gets the apology.
pub open spec fn handled(error: Failure) -> Outcome {
    match error.cause {
        Cause::MissingUserPermissions => Outcome::Refused(Refusal::MissingUserPermissions),
        Cause::GuildOnly => Outcome::Refused(Refusal::GuildOnly),
        _ => Outcome::Apologized(error),
    }
}

/// Decides what becomes of a failure. The command is not tried again. Whatever the failure
/// was, the invoker gets words: [`respond`] has some for every outcome of this function.
pub fn error_handler(error: Failure) -> (outcome: Outcome)
    ensures
        outcome == handled(error),
        outcome_text(outcome) is Some,
        !(error.cause is MissingUserPermissions) && !(error.cause is GuildOnly)
            ==> outcome_text(outcome) == Some(apology_text()),
{
    match error.cause {
        Cause::MissingUserPermissions => Outcome::Refused(Refusal::MissingUserPermissions),
        Cause::GuildOnly => Outcome::Refused(Refusal::GuildOnly),
        _ => Outcome::Apologized(error),
    }
}

} // verus!
