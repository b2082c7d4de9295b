//! The lawsuit lifecycle: a case is created together with its court room, is active until a
//! verdict is ruled, and is adjudicated from then on.

use vstd::prelude::*;
use crate::model::{CourtRoom, Lawsuit, SnowflakeId};
use crate::protocol::{
    advance, follow, loaded, state_at, Ack, Cause, Effect, Event, Next, Outcome, Refusal, Stage,
};
use crate::store::StoreOp;
use crate::text::{decimal, digits};

verus! {

/// A lawsuit on its way through one operation of its lifecycle, in its guild.
#[derive(Debug, PartialEq)]
pub struct LawsuitCtx {
    pub lawsuit: Lawsuit,
    pub guild_id: SnowflakeId,
}

/// The name of the court room of a case: it tells the parties by their identifiers.
pub open spec fn room_name(plaintiff: SnowflakeId, accused: SnowflakeId) -> Seq<char> {
    "prozess-"@ + digits(plaintiff.0 as nat) + "-"@ + digits(accused.0 as nat)
}

/// The lawsuit, bound to its court room.
pub open spec fn seated(lawsuit: Lawsuit, room: SnowflakeId) -> Lawsuit {
    Lawsuit { court_room: room, ..lawsuit }
}

/// The update that persists a new case: it adds the lawsuit, bound to its room.
pub open spec fn docket(guild: SnowflakeId, lawsuit: Lawsuit, room: SnowflakeId) -> Effect {
    Effect::Update { guild, op: StoreOp::AddLawsuit(seated(lawsuit, room)) }
}

/// The stage that follows once the lawsuit is persisted: the record of its room.
pub open spec fn room_stages(guild: SnowflakeId, room: SnowflakeId) -> Seq<Stage> {
    seq![
        Stage {
            effect: Effect::Update {
                guild,
                op: StoreOp::AddCourtRoom(CourtRoom { channel_id: room }),
            },
            failure: Cause::Store,
        },
    ]
}

fn name_room(plaintiff: SnowflakeId, accused: SnowflakeId) -> (name: String)
    ensures
        name@ == room_name(plaintiff, accused),
{
    let mut name = String::from_str("prozess-");
    let first = decimal(plaintiff.0);
    name.append(first.as_str());
    name.append("-");
    let second = decimal(accused.0);
    name.append(second.as_str());
    name
}

impl LawsuitCtx {
    /// Whether `next` is what creating the case answers to the answers so far.
    ///
    /// The aggregate is loaded. Without a court category the request is refused, and no
    /// channel is created. With one, a channel named after the parties is created under it.
    /// The channel has to be new to the aggregate, or the case is given up with nothing
    /// persisted. Then the lawsuit, bound to the channel, is handed to the store; only in
    /// that answer does the identity of the case count, and it has to be unused in the
    /// aggregate, or the case is given up with nothing persisted. Once the lawsuit is
    /// persisted the record of the room follows, whatever the identity, and the room is
    /// acknowledged. A channel that was created stays when persisting fails.
    pub open spec fn initialized(
        lawsuit: Lawsuit,
        guild: SnowflakeId,
        trace: Seq<Event>,
        next: Next,
    ) -> bool {
        if trace.len() == 0 {
            next == Next::Perform(Effect::FindOrInsertState { guild })
        } else {
            match state_at(trace, 0) {
                None => next == Next::failed(Cause::Store),
                Some(state) => match state.court_category {
                    None => next == Next::Finish(Outcome::Refused(Refusal::NoCourtCategory)),
                    Some(category) => if trace.len() == 1 {
                        &&& next matches Next::Perform(
                            Effect::CreateChannel { guild: in_guild, category: under, name },
                        )
                        &&& in_guild == guild
                        &&& under == category
                        &&& name@ == room_name(lawsuit.plaintiff, lawsuit.accused)
                    } else {
                        match trace[1] {
                            Event::Channel(room) => if !state@.room_is_free(room) {
                                next == Next::failed(Cause::RoomTaken)
                            } else if trace.len() == 2 {
                                if state@.has_case(lawsuit.id) {
                                    next == Next::failed(Cause::CaseTaken)
                                } else {
                                    next == Next::Perform(docket(guild, lawsuit, room))
                                }
                            } else {
                                next == Self::recorded(guild, room, trace)
                            },
                            _ => next == Next::failed(Cause::CreateChannel),
                        }
                    },
                },
            }
        }
    }

    /// What creating a case answers once the lawsuit was handed to the store, that is from
    /// the third answer on: a lawsuit that was not acknowledged ends the case as a failure of
    /// the store; after one that was, the record of the room is persisted and the room
    /// acknowledged. The lawsuit plays no part in it.
    pub open spec fn recorded(guild: SnowflakeId, room: SnowflakeId, trace: Seq<Event>) -> Next {
        if trace[2] is Done {
            follow(
                trace.skip(3),
                room_stages(guild, room),
                Outcome::Acknowledged(Ack::Created { room }),
            )
        } else {
            Next::failed(Cause::Store)
        }
    }

    /// Creates the case: provisions its court room and persists both.
    pub fn initialize(self, trace: &Vec<Event>) -> (next: Next)
        ensures
            Self::initialized(self.lawsuit, self.guild_id, trace@, next),
    {
        let guild = self.guild_id;
        if trace.len() == 0 {
            return Next::Perform(Effect::FindOrInsertState { guild });
        }
        let state = match loaded(trace, 0) {
            Some(state) => state,
            None => {
                return Next::fail(Cause::Store);
            },
        };
        let category = match state.court_category {
            Some(category) => category,
            None => {
                return Next::Finish(Outcome::Refused(Refusal::NoCourtCategory));
            },
        };
        if trace.len() == 1 {
            let name = name_room(self.lawsuit.plaintiff, self.lawsuit.accused);
            return Next::Perform(Effect::CreateChannel { guild, category, name });
        }
        let room = match trace[1] {
            Event::Channel(room) => room,
            _ => {
                return Next::fail(Cause::CreateChannel);
            },
        };
        if !state.room_is_free(room) {
            return Next::fail(Cause::RoomTaken);
        }
        if trace.len() == 2 {
            if state.has_case(self.lawsuit.id) {
                return Next::fail(Cause::CaseTaken);
            }
            let mut lawsuit = self.lawsuit;
            lawsuit.court_room = room;
            return Next::Perform(Effect::Update { guild, op: StoreOp::AddLawsuit(lawsuit) });
        }
        match trace[2] {
            Event::Done => {},
            _ => {
                return Next::fail(Cause::Store);
            },
        }
        let stages = vec![
            Stage {
                effect: Effect::Update {
                    guild,
                    op: StoreOp::AddCourtRoom(CourtRoom { channel_id: room }),
                },
                failure: Cause::Store,
            },
        ];
        assert(stages@ =~= room_stages(guild, room));
        advance(trace, 3, stages, Outcome::Acknowledged(Ack::Created { room }))
    }

    /// What ruling a verdict on the lawsuit comes to. A lawsuit that is adjudicated, or that
    /// is not heard in `room`, is no active case of that room. Of an active case only its
    /// judge may rule, or someone who holds the override. The ruling itself is the update
    /// that records the verdict for the case.
    pub open spec fn ruling(
        lawsuit: Lawsuit,
        permission_override: bool,
        invoker: SnowflakeId,
        verdict: String,
        room: CourtRoom,
    ) -> Result<StoreOp, Refusal> {
        if lawsuit.verdict is Some || lawsuit.court_room != room.channel_id {
            Err(Refusal::NoActiveCase)
        } else if !(permission_override || invoker == lawsuit.judge) {
            Err(Refusal::Unauthorized)
        } else {
            Ok(StoreOp::SetVerdict { case: lawsuit.id, verdict })
        }
    }

    /// Rules a verdict on the lawsuit. The verdict is free text and is taken as it is.
    pub fn rule_verdict(
        &self,
        permission_override: bool,
        invoker: SnowflakeId,
        verdict: String,
        room: CourtRoom,
    ) -> (ruled: Result<StoreOp, Refusal>)
        ensures
            ruled == Self::ruling(self.lawsuit, permission_override, invoker, verdict, room),
    {
        if self.lawsuit.verdict.is_some() || self.lawsuit.court_room != room.channel_id {
            Err(Refusal::NoActiveCase)
        } else if !(permission_override || invoker == self.lawsuit.judge) {
            Err(Refusal::Unauthorized)
        } else {
            Ok(StoreOp::SetVerdict { case: self.lawsuit.id, verdict })
        }
    }
}

} // verus!
