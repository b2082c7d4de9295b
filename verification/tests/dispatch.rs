use guild_court::handler::{error_handler, respond, Handler, Response};
use guild_court::model::SnowflakeId;
use guild_court::protocol::{
    advance, Ack, Cause, Command, Effect, Event, Failure, Next, Outcome, Refusal, Stage,
};
use guild_court::text::decimal;

const GUILD: SnowflakeId = SnowflakeId(100);

fn words(outcome: Outcome) -> Option<String> {
    respond(outcome).map(|response| response.to_string())
}

#[test]
fn acknowledgements_have_their_words() {
    assert_eq!(words(Outcome::Acknowledged(Ack::RoleSet)).unwrap(), "isch gsetzt");
    assert_eq!(words(Outcome::Acknowledged(Ack::CategorySet)).unwrap(), "isch gsetzt");
    assert_eq!(
        words(Outcome::Acknowledged(Ack::VerdictRuled)).unwrap(),
        "ich han en dir abschlosse"
    );
    assert_eq!(words(Outcome::Acknowledged(Ack::Cleared)).unwrap(), "alles weg");
    assert_eq!(words(Outcome::Acknowledged(Ack::Arrested)).unwrap(), "isch igsperrt");
    assert_eq!(words(Outcome::Acknowledged(Ack::Released)).unwrap(), "d'freiheit wartet");
}

#[test]
fn created_case_is_acknowledged_with_its_room() {
    assert_eq!(
        words(Outcome::Acknowledged(Ack::Created { room: SnowflakeId(1234567890) })).unwrap(),
        "de prozess lauft in <#1234567890>"
    );
    assert_eq!(
        words(Outcome::Acknowledged(Ack::Created { room: SnowflakeId(0) })).unwrap(),
        "de prozess lauft in <#0>"
    );
}

#[test]
fn refusals_have_their_words() {
    assert_eq!(
        words(Outcome::Refused(Refusal::NoPrisonRole)).unwrap(),
        "du mosch zerst e rolle setze mit /prison set_role"
    );
    assert_eq!(
        words(Outcome::Refused(Refusal::NoCourtCategory)).unwrap(),
        "du mosch zerst e kategorie setze mit /lawsuit set_category"
    );
    assert_eq!(
        words(Outcome::Refused(Refusal::NoActiveCase)).unwrap(),
        "i dem channel lauft kein aktive prozess!"
    );
    assert_eq!(
        words(Outcome::Refused(Refusal::Unauthorized)).unwrap(),
        "nur de richter cha de prozess abschlüsse!"
    );
    assert_eq!(words(Outcome::Refused(Refusal::NotACategory)).unwrap(), "Das ist keine Kategorie!");
    assert_eq!(
        words(Outcome::Refused(Refusal::GuildOnly)).unwrap(),
        "du chasch de command nur uf emene serve nutze!"
    );
    assert_eq!(
        words(Outcome::Refused(Refusal::MissingUserPermissions)).unwrap(),
        "du häsch kei recht für da!"
    );
}

#[test]
fn refusals_are_told_apart() {
    let all = [
        Refusal::NoPrisonRole,
        Refusal::NoCourtCategory,
        Refusal::NoActiveCase,
        Refusal::Unauthorized,
        Refusal::NotACategory,
        Refusal::GuildOnly,
        Refusal::MissingUserPermissions,
    ];
    for (i, first) in all.iter().enumerate() {
        for second in all.iter().skip(i + 1) {
            assert_ne!(words(Outcome::Refused(*first)), words(Outcome::Refused(*second)));
        }
    }
}

const APOLOGY: &str = "tuet mer leid, da isch öppis schiefgange!";

#[test]
fn failures_on_their_way_have_no_words() {
    assert_eq!(words(Outcome::Silent), None);
    assert_eq!(words(Outcome::Failed(Failure::of(Cause::Store))), None);
    assert_eq!(words(Outcome::Logged(Failure::of(Cause::AddRoleInPrison))), None);
}

#[test]
fn apology_is_the_same_for_every_failure() {
    for failure in [
        Failure::of(Cause::Store),
        Failure::of(Cause::CreateChannel).within(Command::LawsuitCreate),
        Failure::of(Cause::FetchingGuildMember).within(Command::PrisonArrest),
    ] {
        assert_eq!(words(Outcome::Apologized(failure)).unwrap(), APOLOGY);
    }
}

#[test]
fn response_gives_its_text() {
    let response = Response(String::from("alles weg"));
    assert_eq!(response.to_string(), "alles weg");
    assert_eq!(response, Response(String::from("alles weg")));
}

#[test]
fn error_handler_tells_the_invoker_what_they_can_act_on() {
    assert_eq!(
        error_handler(Failure::of(Cause::MissingUserPermissions)),
        Outcome::Refused(Refusal::MissingUserPermissions)
    );
    assert_eq!(error_handler(Failure::of(Cause::GuildOnly)), Outcome::Refused(Refusal::GuildOnly));
    assert_eq!(
        error_handler(Failure::of(Cause::GuildOnly).within(Command::PrisonArrest)),
        Outcome::Refused(Refusal::GuildOnly)
    );
}

#[test]
fn error_handler_apologizes_for_everything_else() {
    let causes = [
        Cause::GuildIdNotFound,
        Cause::WrongContext,
        Cause::MemberNotFound,
        Cause::Store,
        Cause::FindGuildForVerdict,
        Cause::CreateChannel,
        Cause::RoomTaken,
        Cause::CaseTaken,
        Cause::FetchingGuildMember,
        Cause::AddGuildMemberRole,
        Cause::RemoveGuildMemberRole,
        Cause::AddRoleInPrison,
        Cause::Reply,
        Cause::Framework,
    ];
    for cause in causes {
        for failure in [Failure::of(cause), Failure::of(cause).within(Command::LawsuitCreate)] {
            // The failure is kept for the log; the words give nothing of it away.
            assert_eq!(error_handler(failure), Outcome::Apologized(failure));
            assert_eq!(words(error_handler(failure)).unwrap(), APOLOGY);
        }
    }
}

#[test]
fn error_handler_always_has_words() {
    for cause in [Cause::MissingUserPermissions, Cause::GuildOnly, Cause::Store, Cause::Framework] {
        assert!(words(error_handler(Failure::of(cause))).is_some());
    }
    assert_ne!(words(error_handler(Failure::of(Cause::GuildOnly))).unwrap(), APOLOGY);
    assert_ne!(words(error_handler(Failure::of(Cause::MissingUserPermissions))).unwrap(), APOLOGY);
}

#[test]
fn failure_is_marked_with_its_command() {
    let failure = Failure::of(Cause::Store);
    assert_eq!(failure, Failure { cause: Cause::Store, command: None });
    assert_eq!(
        failure.within(Command::LawsuitClose),
        Failure { cause: Cause::Store, command: Some(Command::LawsuitClose) }
    );
    assert_eq!(
        Outcome::Failed(failure).within(Command::PrisonRelease),
        Outcome::Failed(Failure { cause: Cause::Store, command: Some(Command::PrisonRelease) })
    );
    assert_eq!(
        Outcome::Refused(Refusal::NoActiveCase).within(Command::LawsuitClose),
        Outcome::Refused(Refusal::NoActiveCase)
    );
    assert_eq!(
        Outcome::Logged(failure).within(Command::LawsuitClose),
        Outcome::Logged(failure)
    );
    assert_eq!(
        Outcome::Apologized(failure).within(Command::LawsuitClose),
        Outcome::Apologized(failure)
    );
    let asked = Next::Perform(Effect::DeleteGuild { guild: GUILD });
    assert_eq!(asked.within(Command::LawsuitClear), Next::Perform(Effect::DeleteGuild { guild: GUILD }));
    assert_eq!(
        Next::fail(Cause::Store).within(Command::LawsuitClear),
        Next::Finish(Outcome::Failed(Failure {
            cause: Cause::Store,
            command: Some(Command::LawsuitClear)
        }))
    );
}

fn two_stages() -> Vec<Stage> {
    vec![
        Stage { effect: Effect::DeleteGuild { guild: GUILD }, failure: Cause::Store },
        Stage {
            effect: Effect::FetchMember { guild: GUILD, user: SnowflakeId(5) },
            failure: Cause::FetchingGuildMember,
        },
    ]
}

#[test]
fn stages_run_in_order() {
    let done = Outcome::Acknowledged(Ack::Cleared);
    assert_eq!(
        advance(&Vec::new(), 0, two_stages(), done),
        Next::Perform(Effect::DeleteGuild { guild: GUILD })
    );
    assert_eq!(
        advance(&vec![Event::Done], 0, two_stages(), done),
        Next::Perform(Effect::FetchMember { guild: GUILD, user: SnowflakeId(5) })
    );
    assert_eq!(advance(&vec![Event::Done, Event::Done], 0, two_stages(), done), Next::Finish(done));
    assert_eq!(
        advance(&vec![Event::Done, Event::Done, Event::Failed], 0, two_stages(), done),
        Next::Finish(done)
    );
    assert_eq!(advance(&Vec::new(), 0, Vec::new(), done), Next::Finish(done));
}

#[test]
fn stages_stop_at_the_first_that_is_not_acknowledged() {
    let done = Outcome::Acknowledged(Ack::Cleared);
    assert_eq!(advance(&vec![Event::Failed], 0, two_stages(), done), Next::fail(Cause::Store));
    assert_eq!(
        advance(&vec![Event::Failed, Event::Done], 0, two_stages(), done),
        Next::fail(Cause::Store)
    );
    assert_eq!(
        advance(&vec![Event::Done, Event::Failed], 0, two_stages(), done),
        Next::fail(Cause::FetchingGuildMember)
    );
    assert_eq!(
        advance(&vec![Event::Done, Event::PrisonEntry(true)], 0, two_stages(), done),
        Next::fail(Cause::FetchingGuildMember)
    );
}

#[test]
fn stages_read_the_answers_from_their_position() {
    let done = Outcome::Silent;
    let trace = vec![Event::Failed, Event::Channel(SnowflakeId(1)), Event::Done];
    assert_eq!(
        advance(&trace, 2, two_stages(), done),
        Next::Perform(Effect::FetchMember { guild: GUILD, user: SnowflakeId(5) })
    );
    assert_eq!(
        advance(&trace, 3, two_stages(), done),
        Next::Perform(Effect::DeleteGuild { guild: GUILD })
    );
    assert_eq!(advance(&trace, 1, two_stages(), done), Next::fail(Cause::Store));
    // Past the end of the trace there are no answers yet.
    assert_eq!(
        advance(&trace, 4, two_stages(), done),
        Next::Perform(Effect::DeleteGuild { guild: GUILD })
    );
    assert_eq!(advance(&trace, 4, Vec::new(), done), Next::Finish(done));
}

#[test]
fn decimal_notation() {
    assert_eq!(decimal(0), "0");
    assert_eq!(decimal(7), "7");
    assert_eq!(decimal(9), "9");
    assert_eq!(decimal(10), "10");
    assert_eq!(decimal(42), "42");
    assert_eq!(decimal(1005), "1005");
    assert_eq!(decimal(1234567890), "1234567890");
    assert_eq!(decimal(u64::MAX), "18446744073709551615");
    for n in [0u64, 1, 99, 100, 101, 65535, 1 << 40] {
        assert_eq!(decimal(n), n.to_string());
    }
}

#[test]
fn handler_keeps_its_configuration() {
    let handler = Handler { dev_guild_id: Some(GUILD), set_global_commands: true };
    assert_eq!(handler.dev_guild_id, Some(GUILD));
    assert!(handler.set_global_commands);
}
