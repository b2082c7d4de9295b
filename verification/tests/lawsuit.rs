use guild_court::handler::lawsuit::{
    clear, close, create, lawsuit, lawsuit_clear_impl, lawsuit_close_impl, lawsuit_create_impl,
    lawsuit_set_category_impl, set_category, LawsuitCommand,
};
use guild_court::handler::{ApplicationContext, Channel, Context, Member, PrefixContext};
use guild_court::lawsuit::LawsuitCtx;
use guild_court::model::{CaseId, CourtRoom, Lawsuit, SnowflakeId, State};
use guild_court::protocol::{
    Ack, Cause, Command, Effect, Event, Failure, Next, Outcome, Refusal,
};
use guild_court::store::{GuildStore, StoreOp};

const GUILD: SnowflakeId = SnowflakeId(100);
const CATEGORY: SnowflakeId = SnowflakeId(7);
const PLAINTIFF: SnowflakeId = SnowflakeId(1);
const ACCUSED: SnowflakeId = SnowflakeId(2);
const JUDGE: SnowflakeId = SnowflakeId(3);
const STRANGER: SnowflakeId = SnowflakeId(4);
const MANAGE_GUILD: u64 = 1 << 5;

/// A chat platform that hands out channels with rising identifiers.
struct Platform {
    next_channel: u64,
    channels: Vec<(SnowflakeId, SnowflakeId, String)>,
    refuses_channels: bool,
}

impl Platform {
    fn new() -> Platform {
        Platform { next_channel: 1000, channels: Vec::new(), refuses_channels: false }
    }

    fn perform(&mut self, effect: &Effect) -> Event {
        match effect {
            Effect::CreateChannel { category, name, .. } => {
                if self.refuses_channels {
                    return Event::Failed;
                }
                let id = SnowflakeId(self.next_channel);
                self.next_channel += 1;
                self.channels.push((id, *category, name.clone()));
                Event::Channel(id)
            }
            _ => Event::Failed,
        }
    }
}

/// Carries out what an operation asks for until it ends. The store stops answering from
/// its `store_fails_at`-th effect on, if that is set.
fn drive_with(
    store: &mut GuildStore,
    platform: &mut Platform,
    store_fails_at: Option<usize>,
    ask: &dyn Fn(&Vec<Event>) -> Next,
) -> (Outcome, Vec<Effect>) {
    let mut trace = Vec::new();
    let mut effects = Vec::new();
    let mut store_calls = 0;
    loop {
        match ask(&trace) {
            Next::Finish(outcome) => return (outcome, effects),
            Next::Perform(effect) => {
                let for_store = !matches!(effect, Effect::CreateChannel { .. });
                let answer = if for_store {
                    store_calls += 1;
                    if store_fails_at.map_or(false, |at| store_calls >= at) {
                        Event::Failed
                    } else {
                        store.perform(effect.clone()).unwrap()
                    }
                } else {
                    platform.perform(&effect)
                };
                effects.push(effect);
                trace.push(answer);
            }
        }
    }
}

fn drive(
    store: &mut GuildStore,
    platform: &mut Platform,
    ask: &dyn Fn(&Vec<Event>) -> Next,
) -> (Outcome, Vec<Effect>) {
    drive_with(store, platform, None, ask)
}

fn invoked_by(user: SnowflakeId, permissions: Option<u64>, channel: SnowflakeId) -> Context {
    Context::Application(ApplicationContext {
        guild_id: Some(GUILD),
        channel_id: channel,
        member: Some(Member { guild_id: GUILD, user, permissions }),
    })
}

fn in_guild() -> Context {
    invoked_by(STRANGER, None, SnowflakeId(50))
}

fn outside_guild() -> Context {
    Context::Application(ApplicationContext {
        guild_id: None,
        channel_id: SnowflakeId(50),
        member: None,
    })
}

fn open_case(store: &mut GuildStore, platform: &mut Platform) -> (Outcome, Vec<Effect>) {
    drive(store, platform, &|trace| {
        create(&in_guild(), PLAINTIFF, ACCUSED, JUDGE, String::from("noise"), None, None, trace)
    })
}

fn rule(
    store: &mut GuildStore,
    platform: &mut Platform,
    ctx: Context,
    verdict: &str,
) -> (Outcome, Vec<Effect>) {
    drive(store, platform, &|trace| close(&ctx, String::from(verdict), trace))
}

fn case_in(id: u128, room: SnowflakeId) -> Lawsuit {
    Lawsuit {
        id: CaseId(id),
        plaintiff: PLAINTIFF,
        accused: ACCUSED,
        judge: JUDGE,
        plaintiff_lawyer: None,
        accused_lawyer: None,
        reason: String::from("noise"),
        verdict: None,
        court_room: room,
    }
}

#[test]
fn create_without_category_is_a_configuration_error() {
    let mut store = GuildStore::new();
    let mut platform = Platform::new();
    let (outcome, effects) = open_case(&mut store, &mut platform);
    assert_eq!(outcome, Outcome::Refused(Refusal::NoCourtCategory));
    assert_eq!(effects, vec![Effect::FindOrInsertState { guild: GUILD }]);
    assert!(platform.channels.is_empty());
    let state = store.find_or_insert_state(GUILD);
    assert!(state.lawsuits.is_empty());
    assert!(state.court_rooms.is_empty());
}

#[test]
fn create_binds_the_case_to_a_new_room() {
    let mut store = GuildStore::new();
    store.set_court_category(GUILD, CATEGORY);
    let mut platform = Platform::new();
    let (outcome, effects) = drive(&mut store, &mut platform, &|trace| {
        create(
            &in_guild(),
            PLAINTIFF,
            ACCUSED,
            JUDGE,
            String::from("noise"),
            Some(SnowflakeId(11)),
            Some(SnowflakeId(12)),
            trace,
        )
    });
    let room = SnowflakeId(1000);
    assert_eq!(outcome, Outcome::Acknowledged(Ack::Created { room }));
    assert_eq!(platform.channels, vec![(room, CATEGORY, String::from("prozess-1-2"))]);
    let state = store.find_or_insert_state(GUILD);
    assert_eq!(state.court_rooms, vec![CourtRoom { channel_id: room }]);
    assert_eq!(state.lawsuits.len(), 1);
    let lawsuit = &state.lawsuits[0];
    assert_eq!(lawsuit.plaintiff, PLAINTIFF);
    assert_eq!(lawsuit.accused, ACCUSED);
    assert_eq!(lawsuit.judge, JUDGE);
    assert_eq!(lawsuit.plaintiff_lawyer, Some(SnowflakeId(11)));
    assert_eq!(lawsuit.accused_lawyer, Some(SnowflakeId(12)));
    assert_eq!(lawsuit.reason, "noise");
    assert_eq!(lawsuit.verdict, None);
    assert_eq!(lawsuit.court_room, room);
    assert_eq!(effects.len(), 4);
    assert_eq!(effects[0], Effect::FindOrInsertState { guild: GUILD });
    assert_eq!(
        effects[1],
        Effect::CreateChannel { guild: GUILD, category: CATEGORY, name: String::from("prozess-1-2") }
    );
    assert_eq!(
        effects[2],
        Effect::Update { guild: GUILD, op: StoreOp::AddLawsuit(lawsuit.clone()) }
    );
    assert_eq!(
        effects[3],
        Effect::Update { guild: GUILD, op: StoreOp::AddCourtRoom(CourtRoom { channel_id: room }) }
    );
}

#[test]
fn every_case_gets_a_room_and_an_identity_of_its_own() {
    let mut store = GuildStore::new();
    store.set_court_category(GUILD, CATEGORY);
    let mut platform = Platform::new();
    for _ in 0..5 {
        let (outcome, _) = open_case(&mut store, &mut platform);
        assert!(matches!(outcome, Outcome::Acknowledged(Ack::Created { .. })));
    }
    let state = store.find_or_insert_state(GUILD);
    assert_eq!(state.lawsuits.len(), 5);
    assert_eq!(state.court_rooms.len(), 5);
    for i in 0..5 {
        assert_eq!(state.lawsuits[i].court_room, state.court_rooms[i].channel_id);
        assert_eq!(state.find_active_lawsuit(state.court_rooms[i].channel_id), Some(i));
        for j in 0..i {
            assert_ne!(state.lawsuits[i].id, state.lawsuits[j].id);
            assert_ne!(state.court_rooms[i], state.court_rooms[j]);
        }
    }
}

#[test]
fn create_gives_up_when_the_channel_cannot_be_created() {
    let mut store = GuildStore::new();
    store.set_court_category(GUILD, CATEGORY);
    let mut platform = Platform::new();
    platform.refuses_channels = true;
    let (outcome, effects) = open_case(&mut store, &mut platform);
    assert_eq!(
        outcome,
        Outcome::Failed(Failure {
            cause: Cause::CreateChannel,
            command: Some(Command::LawsuitCreate)
        })
    );
    assert_eq!(effects.len(), 2);
    assert!(store.find_or_insert_state(GUILD).lawsuits.is_empty());
}

#[test]
fn channel_stays_when_persisting_fails() {
    let mut store = GuildStore::new();
    store.set_court_category(GUILD, CATEGORY);
    let mut platform = Platform::new();
    let (outcome, effects) = drive_with(&mut store, &mut platform, Some(2), &|trace| {
        create(&in_guild(), PLAINTIFF, ACCUSED, JUDGE, String::from("noise"), None, None, trace)
    });
    assert_eq!(
        outcome,
        Outcome::Failed(Failure { cause: Cause::Store, command: Some(Command::LawsuitCreate) })
    );
    // Load, create the channel, try to persist the lawsuit: nothing is asked after that.
    assert_eq!(effects.len(), 3);
    assert_eq!(platform.channels.len(), 1);
    let state = store.find_or_insert_state(GUILD);
    assert!(state.lawsuits.is_empty());
    assert!(state.court_rooms.is_empty());
}

#[test]
fn lawsuit_without_room_record_is_ruled_all_the_same() {
    let mut store = GuildStore::new();
    store.set_court_category(GUILD, CATEGORY);
    let mut platform = Platform::new();
    // The lawsuit is persisted, the record of its room is not.
    let (outcome, _) = drive_with(&mut store, &mut platform, Some(3), &|trace| {
        create(&in_guild(), PLAINTIFF, ACCUSED, JUDGE, String::from("noise"), None, None, trace)
    });
    assert!(matches!(outcome, Outcome::Failed(_)));
    let room = SnowflakeId(1000);
    let state = store.find_or_insert_state(GUILD);
    assert_eq!(state.lawsuits.len(), 1);
    assert!(state.court_rooms.is_empty());
    let (outcome, _) = rule(&mut store, &mut platform, invoked_by(STRANGER, None, room), "guilty");
    assert_eq!(outcome, Outcome::Refused(Refusal::Unauthorized));
    assert_eq!(store.find_or_insert_state(GUILD).lawsuits[0].verdict, None);
    let (outcome, effects) = rule(&mut store, &mut platform, invoked_by(JUDGE, None, room), "guilty");
    assert_eq!(outcome, Outcome::Acknowledged(Ack::VerdictRuled));
    assert_eq!(effects.len(), 2);
    assert_eq!(
        store.find_or_insert_state(GUILD).lawsuits[0].verdict,
        Some(String::from("guilty"))
    );
}

#[test]
fn active_case_is_found_by_the_lawsuits_alone() {
    let guild = SnowflakeId(1);
    let room = SnowflakeId(200);
    let lawsuit = Lawsuit {
        id: CaseId(5),
        plaintiff: SnowflakeId(11),
        accused: SnowflakeId(12),
        judge: SnowflakeId(13),
        plaintiff_lawyer: None,
        accused_lawyer: None,
        reason: String::from("noise"),
        verdict: None,
        court_room: room,
    };
    let by = |user: u64, permissions: Option<u64>| {
        Context::Application(ApplicationContext {
            guild_id: Some(guild),
            channel_id: room,
            member: Some(Member { guild_id: guild, user: SnowflakeId(user), permissions }),
        })
    };
    let ruling = Next::Perform(Effect::Update {
        guild,
        op: StoreOp::SetVerdict { case: CaseId(5), verdict: String::from("guilty") },
    });
    let loaded = || {
        let mut state = State::new(guild);
        state.apply(StoreOp::AddLawsuit(lawsuit.clone()));
        assert!(state.court_rooms.is_empty());
        vec![Event::State(state)]
    };
    // The judge needs no override, and the override needs no judge.
    assert_eq!(lawsuit_close_impl(&by(13, None), String::from("guilty"), &loaded()), ruling);
    assert_eq!(lawsuit_close_impl(&by(13, Some(0)), String::from("guilty"), &loaded()), ruling);
    assert_eq!(
        lawsuit_close_impl(&by(14, Some(MANAGE_GUILD)), String::from("guilty"), &loaded()),
        ruling
    );
    // Anyone else is turned down for want of the right, not for want of a case.
    for stranger in [by(14, None), by(11, Some(0)), by(12, Some(!MANAGE_GUILD))] {
        assert_eq!(
            lawsuit_close_impl(&stranger, String::from("guilty"), &loaded()),
            Next::Finish(Outcome::Refused(Refusal::Unauthorized))
        );
    }
    let mut store = GuildStore::new();
    store.add_lawsuit(guild, lawsuit.clone());
    let mut platform = Platform::new();
    let (outcome, _) = rule(&mut store, &mut platform, by(13, None), "guilty");
    assert_eq!(outcome, Outcome::Acknowledged(Ack::VerdictRuled));
    let state = store.find_or_insert_state(guild);
    assert_eq!(state.lawsuits[0].verdict, Some(String::from("guilty")));
    assert!(state.court_rooms.is_empty());
}

#[test]
fn create_refuses_a_channel_that_is_known_already() {
    let mut state = State::new(GUILD);
    state.apply(StoreOp::SetCourtCategory(CATEGORY));
    state.apply(StoreOp::AddLawsuit(case_in(1, SnowflakeId(60))));
    state.apply(StoreOp::AddCourtRoom(CourtRoom { channel_id: SnowflakeId(61) }));
    for taken in [SnowflakeId(60), SnowflakeId(61)] {
        let trace = vec![Event::State(state.clone()), Event::Channel(taken)];
        let ctx = LawsuitCtx { lawsuit: case_in(2, SnowflakeId(0)), guild_id: GUILD };
        assert_eq!(ctx.initialize(&trace), Next::fail(Cause::RoomTaken));
    }
}

#[test]
fn create_refuses_an_identity_that_is_in_use() {
    let mut state = State::new(GUILD);
    state.apply(StoreOp::SetCourtCategory(CATEGORY));
    state.apply(StoreOp::AddLawsuit(case_in(1, SnowflakeId(60))));
    let trace = vec![Event::State(state), Event::Channel(SnowflakeId(62))];
    let ctx = LawsuitCtx { lawsuit: case_in(1, SnowflakeId(0)), guild_id: GUILD };
    assert_eq!(ctx.initialize(&trace), Next::fail(Cause::CaseTaken));
}

#[test]
fn identity_counts_only_when_the_lawsuit_is_handed_over() {
    let mut state = State::new(GUILD);
    state.apply(StoreOp::SetCourtCategory(CATEGORY));
    state.apply(StoreOp::AddLawsuit(case_in(1, SnowflakeId(60))));
    let room = SnowflakeId(62);
    let record = Next::Perform(Effect::Update {
        guild: GUILD,
        op: StoreOp::AddCourtRoom(CourtRoom { channel_id: room }),
    });
    // Identity 1 is in use, identity 2 is not: after the lawsuit is persisted both are
    // answered alike.
    for id in [1, 2] {
        let draft = || LawsuitCtx { lawsuit: case_in(id, SnowflakeId(0)), guild_id: GUILD };
        let answered = |rest: &[Event]| {
            let mut trace = vec![Event::State(state.clone()), Event::Channel(room)];
            for event in rest {
                trace.push(match event {
                    Event::Done => Event::Done,
                    _ => Event::Failed,
                });
            }
            trace
        };
        assert_eq!(draft().initialize(&answered(&[Event::Done])), record);
        assert_eq!(
            draft().initialize(&answered(&[Event::Done, Event::Done])),
            Next::Finish(Outcome::Acknowledged(Ack::Created { room }))
        );
        assert_eq!(draft().initialize(&answered(&[Event::Failed])), Next::fail(Cause::Store));
        assert_eq!(
            draft().initialize(&answered(&[Event::Done, Event::Failed])),
            Next::fail(Cause::Store)
        );
    }
}

#[test]
fn create_persists_lawsuit_and_room_when_every_effect_is_acknowledged() {
    // The aggregate holds lawsuits already; whatever identity is drawn in later answers,
    // the command goes on to the record of the room.
    let mut store = GuildStore::new();
    store.set_court_category(GUILD, CATEGORY);
    let mut platform = Platform::new();
    for round in 0..20 {
        let (outcome, effects) = open_case(&mut store, &mut platform);
        let room = SnowflakeId(1000 + round);
        assert_eq!(outcome, Outcome::Acknowledged(Ack::Created { room }));
        assert_eq!(effects.len(), 4);
        assert_eq!(
            effects[3],
            Effect::Update { guild: GUILD, op: StoreOp::AddCourtRoom(CourtRoom { channel_id: room }) }
        );
    }
    let state = store.find_or_insert_state(GUILD);
    assert_eq!(state.lawsuits.len(), 20);
    assert_eq!(state.court_rooms.len(), 20);
}

#[test]
fn initialize_persists_the_lawsuit_it_was_given() {
    let mut state = State::new(GUILD);
    state.apply(StoreOp::SetCourtCategory(CATEGORY));
    let room = SnowflakeId(62);
    let trace = vec![Event::State(state), Event::Channel(room)];
    let ctx = LawsuitCtx { lawsuit: case_in(77, SnowflakeId(0)), guild_id: GUILD };
    assert_eq!(
        ctx.initialize(&trace),
        Next::Perform(Effect::Update { guild: GUILD, op: StoreOp::AddLawsuit(case_in(77, room)) })
    );
}

#[test]
fn create_needs_a_guild() {
    let next = lawsuit_create_impl(
        &outside_guild(),
        PLAINTIFF,
        ACCUSED,
        JUDGE,
        String::from("noise"),
        None,
        None,
        &Vec::new(),
    );
    assert_eq!(next, Next::fail(Cause::GuildIdNotFound));
}

#[test]
fn verdict_by_the_judge_closes_the_case() {
    let mut store = GuildStore::new();
    store.set_court_category(GUILD, CATEGORY);
    let mut platform = Platform::new();
    let (outcome, _) = open_case(&mut store, &mut platform);
    let room = match outcome {
        Outcome::Acknowledged(Ack::Created { room }) => room,
        other => panic!("no case was created: {:?}", other),
    };
    let id = store.find_or_insert_state(GUILD).lawsuits[0].id;
    let (outcome, effects) = rule(&mut store, &mut platform, invoked_by(JUDGE, None, room), "guilty");
    assert_eq!(outcome, Outcome::Acknowledged(Ack::VerdictRuled));
    assert_eq!(
        effects,
        vec![
            Effect::FindOrInsertState { guild: GUILD },
            Effect::Update {
                guild: GUILD,
                op: StoreOp::SetVerdict { case: id, verdict: String::from("guilty") }
            },
        ]
    );
    let state = store.find_or_insert_state(GUILD);
    assert_eq!(state.lawsuits[0].verdict, Some(String::from("guilty")));
    // The room is left standing.
    assert_eq!(state.court_rooms, vec![CourtRoom { channel_id: room }]);
    // A second verdict finds no active case, whoever asks.
    for ctx in [invoked_by(JUDGE, None, room), invoked_by(STRANGER, Some(MANAGE_GUILD), room)] {
        let (outcome, effects) = rule(&mut store, &mut platform, ctx, "innocent");
        assert_eq!(outcome, Outcome::Refused(Refusal::NoActiveCase));
        assert_eq!(effects, vec![Effect::FindOrInsertState { guild: GUILD }]);
    }
    assert_eq!(
        store.find_or_insert_state(GUILD).lawsuits[0].verdict,
        Some(String::from("guilty"))
    );
}

#[test]
fn verdict_in_a_room_without_case_is_not_found() {
    let mut store = GuildStore::new();
    store.set_court_category(GUILD, CATEGORY);
    let mut platform = Platform::new();
    open_case(&mut store, &mut platform);
    let before = store.find_or_insert_state(GUILD);
    let elsewhere = SnowflakeId(55);
    let (outcome, effects) =
        rule(&mut store, &mut platform, invoked_by(JUDGE, Some(MANAGE_GUILD), elsewhere), "guilty");
    assert_eq!(outcome, Outcome::Refused(Refusal::NoActiveCase));
    assert_eq!(effects, vec![Effect::FindOrInsertState { guild: GUILD }]);
    assert_eq!(store.find_or_insert_state(GUILD), before);
}

#[test]
fn verdict_by_a_stranger_is_unauthorized() {
    let mut store = GuildStore::new();
    store.set_court_category(GUILD, CATEGORY);
    let mut platform = Platform::new();
    open_case(&mut store, &mut platform);
    let room = SnowflakeId(1000);
    for permissions in [None, Some(0), Some(!MANAGE_GUILD), Some(1 << 4), Some(1 << 6)] {
        let (outcome, effects) =
            rule(&mut store, &mut platform, invoked_by(STRANGER, permissions, room), "guilty");
        assert_eq!(outcome, Outcome::Refused(Refusal::Unauthorized));
        assert_eq!(effects, vec![Effect::FindOrInsertState { guild: GUILD }]);
        assert_eq!(store.find_or_insert_state(GUILD).lawsuits[0].verdict, None);
    }
    for party in [PLAINTIFF, ACCUSED] {
        let (outcome, _) = rule(&mut store, &mut platform, invoked_by(party, None, room), "guilty");
        assert_eq!(outcome, Outcome::Refused(Refusal::Unauthorized));
    }
}

#[test]
fn verdict_with_override_closes_the_case() {
    for permissions in [MANAGE_GUILD, MANAGE_GUILD | 1, u64::MAX] {
        let mut store = GuildStore::new();
        store.set_court_category(GUILD, CATEGORY);
        let mut platform = Platform::new();
        open_case(&mut store, &mut platform);
        let room = SnowflakeId(1000);
        let (outcome, _) = rule(
            &mut store,
            &mut platform,
            invoked_by(STRANGER, Some(permissions), room),
            "guilty",
        );
        assert_eq!(outcome, Outcome::Acknowledged(Ack::VerdictRuled));
        assert_eq!(
            store.find_or_insert_state(GUILD).lawsuits[0].verdict,
            Some(String::from("guilty"))
        );
    }
}

#[test]
fn verdict_text_is_taken_as_it_is() {
    let mut store = GuildStore::new();
    store.set_court_category(GUILD, CATEGORY);
    let mut platform = Platform::new();
    open_case(&mut store, &mut platform);
    let room = SnowflakeId(1000);
    let text = "  schuldig!\n<@1> \u{1F9D1}\u{200D}\u{2696}\u{FE0F} ";
    let (outcome, _) = rule(&mut store, &mut platform, invoked_by(JUDGE, None, room), text);
    assert_eq!(outcome, Outcome::Acknowledged(Ack::VerdictRuled));
    assert_eq!(store.find_or_insert_state(GUILD).lawsuits[0].verdict, Some(String::from(text)));
}

#[test]
fn close_checks_the_invocation_before_anything_is_loaded() {
    let trace = Vec::new();
    assert_eq!(
        lawsuit_close_impl(&outside_guild(), String::from("guilty"), &trace),
        Next::fail(Cause::GuildIdNotFound)
    );
    let by_prefix = Context::Prefix(PrefixContext { guild_id: Some(GUILD), channel_id: SnowflakeId(50) });
    assert_eq!(
        lawsuit_close_impl(&by_prefix, String::from("guilty"), &trace),
        Next::fail(Cause::WrongContext)
    );
    let nobody = Context::Application(ApplicationContext {
        guild_id: Some(GUILD),
        channel_id: SnowflakeId(50),
        member: None,
    });
    assert_eq!(
        lawsuit_close_impl(&nobody, String::from("guilty"), &trace),
        Next::fail(Cause::MemberNotFound)
    );
    assert_eq!(
        lawsuit_close_impl(&in_guild(), String::from("guilty"), &trace),
        Next::Perform(Effect::FindOrInsertState { guild: GUILD })
    );
}

#[test]
fn close_reports_store_failures() {
    assert_eq!(
        lawsuit_close_impl(&in_guild(), String::from("guilty"), &vec![Event::Failed]),
        Next::fail(Cause::FindGuildForVerdict)
    );
    let mut state = State::new(GUILD);
    let room = SnowflakeId(60);
    state.apply(StoreOp::AddLawsuit(case_in(1, room)));
    state.apply(StoreOp::AddCourtRoom(CourtRoom { channel_id: room }));
    let trace = vec![Event::State(state), Event::Failed];
    assert_eq!(
        close(&invoked_by(JUDGE, None, room), String::from("guilty"), &trace),
        Next::Finish(Outcome::Failed(Failure {
            cause: Cause::Store,
            command: Some(Command::LawsuitClose)
        }))
    );
}

#[test]
fn ruling_is_decided_from_the_lawsuit() {
    let room = CourtRoom { channel_id: SnowflakeId(60) };
    let ctx = LawsuitCtx { lawsuit: case_in(1, room.channel_id), guild_id: GUILD };
    assert_eq!(
        ctx.rule_verdict(false, JUDGE, String::from("guilty"), room),
        Ok(StoreOp::SetVerdict { case: CaseId(1), verdict: String::from("guilty") })
    );
    assert_eq!(
        ctx.rule_verdict(true, STRANGER, String::from("guilty"), room),
        Ok(StoreOp::SetVerdict { case: CaseId(1), verdict: String::from("guilty") })
    );
    assert_eq!(
        ctx.rule_verdict(false, STRANGER, String::from("guilty"), room),
        Err(Refusal::Unauthorized)
    );
    assert_eq!(
        ctx.rule_verdict(true, JUDGE, String::from("guilty"), CourtRoom { channel_id: SnowflakeId(61) }),
        Err(Refusal::NoActiveCase)
    );
    let mut closed = case_in(1, room.channel_id);
    closed.verdict = Some(String::from("guilty"));
    let ctx = LawsuitCtx { lawsuit: closed, guild_id: GUILD };
    assert_eq!(
        ctx.rule_verdict(true, JUDGE, String::from("innocent"), room),
        Err(Refusal::NoActiveCase)
    );
}

#[test]
fn set_category_takes_a_category() {
    let mut store = GuildStore::new();
    let mut platform = Platform::new();
    let (outcome, effects) = drive(&mut store, &mut platform, &|trace| {
        set_category(&in_guild(), Channel::Category(CATEGORY), trace)
    });
    assert_eq!(outcome, Outcome::Acknowledged(Ack::CategorySet));
    assert_eq!(
        effects,
        vec![Effect::Update { guild: GUILD, op: StoreOp::SetCourtCategory(CATEGORY) }]
    );
    assert_eq!(store.find_or_insert_state(GUILD).court_category, Some(CATEGORY));
}

#[test]
fn set_category_refuses_what_is_no_category() {
    for channel in [Channel::Guild(CATEGORY), Channel::Private(CATEGORY)] {
        let mut store = GuildStore::new();
        let mut platform = Platform::new();
        let (outcome, effects) =
            drive(&mut store, &mut platform, &|trace| set_category(&in_guild(), channel, trace));
        assert_eq!(outcome, Outcome::Refused(Refusal::NotACategory));
        assert!(effects.is_empty());
        assert!(!store.contains(GUILD));
    }
    assert_eq!(Channel::Category(CATEGORY).category(), Some(CATEGORY));
    assert_eq!(Channel::Guild(CATEGORY).category(), None);
    assert_eq!(Channel::Private(CATEGORY).category(), None);
}

#[test]
fn set_category_reports_a_store_failure() {
    assert_eq!(
        lawsuit_set_category_impl(&in_guild(), Channel::Category(CATEGORY), &vec![Event::Failed]),
        Next::fail(Cause::Store)
    );
    assert_eq!(
        lawsuit_set_category_impl(&outside_guild(), Channel::Category(CATEGORY), &Vec::new()),
        Next::fail(Cause::GuildIdNotFound)
    );
}

#[test]
fn clear_deletes_everything_of_the_guild() {
    let mut store = GuildStore::new();
    store.set_court_category(GUILD, CATEGORY);
    store.set_prison_role(GUILD, SnowflakeId(9));
    store.add_to_prison(GUILD, SnowflakeId(5));
    let mut platform = Platform::new();
    open_case(&mut store, &mut platform);
    let (outcome, effects) = drive(&mut store, &mut platform, &|trace| clear(&in_guild(), trace));
    assert_eq!(outcome, Outcome::Acknowledged(Ack::Cleared));
    assert_eq!(effects, vec![Effect::DeleteGuild { guild: GUILD }]);
    assert!(!store.contains(GUILD));
    assert_eq!(store.find_or_insert_state(GUILD), State::new(GUILD));
    // With the configuration gone, no case can be opened.
    let (outcome, _) = open_case(&mut store, &mut platform);
    assert_eq!(outcome, Outcome::Refused(Refusal::NoCourtCategory));
}

#[test]
fn clear_reports_a_store_failure() {
    assert_eq!(lawsuit_clear_impl(&in_guild(), &vec![Event::Failed]), Next::fail(Cause::Store));
    assert_eq!(
        clear(&in_guild(), &vec![Event::Failed]),
        Next::Finish(Outcome::Failed(Failure {
            cause: Cause::Store,
            command: Some(Command::LawsuitClear)
        }))
    );
    assert_eq!(lawsuit_clear_impl(&outside_guild(), &Vec::new()), Next::fail(Cause::GuildIdNotFound));
}

#[test]
fn lawsuit_group_is_for_guilds_only() {
    let trace = Vec::new();
    let turned_away = Next::Finish(Outcome::Failed(Failure::of(Cause::GuildOnly)));
    let commands = [
        LawsuitCommand::Create {
            plaintiff: PLAINTIFF,
            accused: ACCUSED,
            judge: JUDGE,
            reason: String::from("noise"),
            plaintiff_lawyer: None,
            accused_lawyer: None,
        },
        LawsuitCommand::SetCategory { category: Channel::Category(CATEGORY) },
        LawsuitCommand::Close { verdict: String::from("guilty") },
        LawsuitCommand::Clear,
    ];
    for command in commands.iter() {
        assert_eq!(lawsuit(&outside_guild(), command, &trace), turned_away);
    }
}

#[test]
fn lawsuit_group_routes_to_its_commands() {
    let mut store = GuildStore::new();
    let mut platform = Platform::new();
    let configure = LawsuitCommand::SetCategory { category: Channel::Category(CATEGORY) };
    let (outcome, _) =
        drive(&mut store, &mut platform, &|trace| lawsuit(&in_guild(), &configure, trace));
    assert_eq!(outcome, Outcome::Acknowledged(Ack::CategorySet));
    let open = LawsuitCommand::Create {
        plaintiff: PLAINTIFF,
        accused: ACCUSED,
        judge: JUDGE,
        reason: String::from("noise"),
        plaintiff_lawyer: None,
        accused_lawyer: None,
    };
    let (outcome, _) = drive(&mut store, &mut platform, &|trace| lawsuit(&in_guild(), &open, trace));
    let room = SnowflakeId(1000);
    assert_eq!(outcome, Outcome::Acknowledged(Ack::Created { room }));
    let rule = LawsuitCommand::Close { verdict: String::from("guilty") };
    let (outcome, _) = drive(&mut store, &mut platform, &|trace| {
        lawsuit(&invoked_by(JUDGE, None, room), &rule, trace)
    });
    assert_eq!(outcome, Outcome::Acknowledged(Ack::VerdictRuled));
    let (outcome, _) = drive(&mut store, &mut platform, &|trace| {
        lawsuit(&invoked_by(JUDGE, None, room), &rule, trace)
    });
    assert_eq!(outcome, Outcome::Refused(Refusal::NoActiveCase));
    let (outcome, _) = drive(&mut store, &mut platform, &|trace| {
        lawsuit(&in_guild(), &LawsuitCommand::Clear, trace)
    });
    assert_eq!(outcome, Outcome::Acknowledged(Ack::Cleared));
    assert!(!store.contains(GUILD));
}
