use datenbriefd::{
    Action, Company, Config, Event, LoadFailure, LoadReport, MergeNote, NextOutcome, Restored,
    Step, Timestamp,
};

fn at(secs: i64, nanos: u32) -> Timestamp {
    Timestamp::new(secs, nanos).unwrap()
}

fn registry(dry_run: bool) -> Config {
    let mut config = Config::new();
    config.dry_run = dry_run;
    let mut one = Company::due_at(at(100, 0));
    one.name = String::from("one");
    one.interval = 7;
    let mut two = Company::due_at(at(1_907_742_600, 0));
    two.name = String::from("two");
    config.companies.push(one);
    config.companies.push(two);
    config
}

#[test]
fn a_run_begins_with_the_timetable() {
    let mut config = registry(false);
    assert!(matches!(config.run(Event::Started), Action::ReadTimetable));
    assert_eq!(config.companies[0].next_hit, at(100, 0));
}

#[test]
fn a_timetable_that_was_read_is_merged() {
    let mut config = registry(false);
    let text = String::from(r#"{"two":{"next":"2020-01-01T00:00:00Z","reminder":4}}"#);
    match config.run(Event::TimetableRead(text)) {
        Action::OpenMailer(LoadReport::Merged(notes)) => assert_eq!(
            notes,
            vec![
                MergeNote::NoEntry,
                MergeNote::Entry(Restored { next: NextOutcome::Loaded, reminder_loaded: true }),
            ]
        ),
        other => panic!("{:?}", other),
    }
    assert_eq!(config.companies[0].next_hit, at(100, 0));
    assert_eq!(config.companies[1].next_hit, at(1_577_836_800, 0));
    assert_eq!(config.companies[1].reminder, 4);
}

#[test]
fn a_timetable_that_is_no_json_does_not_stop_the_run() {
    let mut config = registry(false);
    let action = config.run(Event::TimetableRead(String::from("{{")));
    assert!(matches!(action, Action::OpenMailer(LoadReport::Malformed)));
    assert_eq!(config.companies[0].next_hit, at(100, 0));
    assert_eq!(config.companies[1].next_hit, at(1_907_742_600, 0));
}

#[test]
fn a_timetable_that_is_missing_does_not_stop_the_run() {
    let mut config = registry(false);
    let action = config.run(Event::TimetableMissing(LoadFailure::NotFound));
    assert!(matches!(action, Action::OpenMailer(LoadReport::Missing(LoadFailure::NotFound))));
    let action = config.run(Event::TimetableMissing(LoadFailure::Unreadable));
    assert!(matches!(action, Action::OpenMailer(LoadReport::Missing(LoadFailure::Unreadable))));
    assert_eq!(config.companies[0].next_hit, at(100, 0));
}

#[test]
fn without_a_mailer_the_run_ends() {
    let mut config = registry(false);
    assert!(matches!(config.run(Event::MailerFailed), Action::Halt));
    assert!(matches!(config.run(Event::MailerReady), Action::ReadClock));
}

#[test]
fn a_reading_of_the_clock_is_a_tick() {
    let mut config = registry(false);
    match config.run(Event::Clock(at(1_000, 0))) {
        Action::Deliver(tick) => {
            assert_eq!(tick.steps, vec![Step::Due { rescheduled: true }, Step::Waiting]);
            assert!(!tick.preview);
            assert_eq!(
                tick.persist,
                Some(String::from(
                    "{\"one\":{\"next\":\"1970-01-08T00:16:40+00:00\",\"reminder\":0},\
                     \"two\":{\"next\":\"2030-06-15T08:30:00+00:00\",\"reminder\":0}}"
                ))
            );
        }
        other => panic!("{:?}", other),
    }
    assert_eq!(config.companies[0].next_hit, at(1_000 + 7 * 86_400, 0));
    assert_eq!(config.companies[1].next_hit, at(1_907_742_600, 0));
}

#[test]
fn a_delivery_changes_nothing_however_it_went() {
    let mut config = registry(false);
    let _ = config.run(Event::Clock(at(1_000, 0)));
    for failed in [0, 1, 2, usize::MAX] {
        assert!(matches!(config.run(Event::Delivered { failed }), Action::ReadClock));
        assert_eq!(config.companies[0].next_hit, at(1_000 + 7 * 86_400, 0));
        assert_eq!(config.companies[1].next_hit, at(1_907_742_600, 0));
    }
    match config.run(Event::Clock(at(1_100, 0))) {
        Action::Deliver(tick) => assert_eq!(tick.steps, vec![Step::Waiting, Step::Waiting]),
        other => panic!("{:?}", other),
    }
}

#[test]
fn a_dry_run_goes_the_same_way_and_writes_nothing() {
    let mut config = registry(true);
    assert!(matches!(config.run(Event::Started), Action::ReadTimetable));
    assert!(matches!(
        config.run(Event::TimetableMissing(LoadFailure::NotFound)),
        Action::OpenMailer(_)
    ));
    assert!(matches!(config.run(Event::MailerReady), Action::ReadClock));
    let mut now: i64 = 1_000;
    for round in 0..5 {
        match config.run(Event::Clock(at(now, 0))) {
            Action::Deliver(tick) => {
                assert_eq!(tick.persist, None);
                assert!(tick.preview);
                let due = round == 0;
                assert_eq!(tick.steps[0], if due {
                    Step::Due { rescheduled: true }
                } else {
                    Step::Waiting
                });
            }
            other => panic!("{:?}", other),
        }
        assert!(matches!(config.run(Event::Delivered { failed: 0 }), Action::ReadClock));
        now += 100;
    }
    assert_eq!(config.companies[0].next_hit, at(1_000 + 7 * 86_400, 0));
}
