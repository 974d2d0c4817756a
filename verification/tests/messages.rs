use std::hash::{Hash, Hasher};
use f1_notifications::bot::{
    calendar_message_gone, calendar_ready, calendar_update_needed, f1_update_needed,
    calendar_step, f1_step, feeder_step, hash_text_of, MessageUpdate,
    feeder_update_needed, persistent_msg_f1, persistent_msg_f1_at, persistent_msg_feeder,
    persistent_msg_feeder_at, weekend_finished, Content,
};
use f1_notifications::calendar::{make_calendar_message_string, make_calendar_message_string_at, message_calendar_at};
use f1_notifications::model::{
    Series, Session, SessionNotifySettings, SessionStatus, Timestamp, Weekend, WeekendStatus,
};

fn at(rfc3339: &str) -> Timestamp {
    let t = chrono::DateTime::parse_from_rfc3339(rfc3339).unwrap();
    Timestamp { secs: t.timestamp(), nanos: t.timestamp_subsec_nanos() }
}

fn weekend(id: u64, name: &str, icon: &str, series: Series) -> Weekend {
    Weekend {
        id,
        name: name.to_string(),
        year: 2025,
        start_date: at("2025-01-01T06:00:00Z"),
        icon: icon.to_string(),
        series,
        status: WeekendStatus::Open,
    }
}

fn session(id: u64, weekend_id: i64, start: &str, name: &str) -> Session {
    Session {
        id,
        weekend_id,
        start_time: at(start),
        name: name.to_string(),
        duration: 3600,
        notify: SessionNotifySettings::Notify,
        status: SessionStatus::Open,
        created_at: Timestamp { secs: 0, nanos: 0 },
    }
}

/// Tests whether or not the message generation works.
/// Sessions that are done should be shown strike-through (~~)
#[test]
fn test_message() {
    let weekend = weekend(0, "testing", "testing", Series::F1);
    let sessions = vec![
        session(0, 0, "2025-01-01T08:00:00Z", "testing"),
        session(1, 0, "2222-01-01T08:00:00Z", "testing"),
    ];

    let str = persistent_msg_f1(&weekend, &sessions).unwrap();

    assert_eq!(
        str,
        r#"## testing testing
> ~~`   testing`: <t:1735718400:F> (<t:1735718400:R>)~~
> `   testing`: <t:7952371200:F> (<t:7952371200:R>)

Use <id:customize> and get the `f1-notifications` role to receive notifications!
"#
        .to_string()
    );

    assert_eq!(
        persistent_msg_feeder([(&None, &Vec::new()), (&None, &Vec::new()), (&None, &Vec::new())])
            .unwrap(),
        r#"# Next Feeder Events

Go to <id:customize> and select the [Series]-Notifications role to receive notifications for each series.
All Times are in your timezone.
"#
    );

    let str = persistent_msg_feeder([
        (
            &Some(weekend_f2()),
            &vec![session(0, 0, "2025-01-01T08:00:00Z", "testing")],
        ),
        (&None, &Vec::new()),
        (&None, &Vec::new()),
    ])
    .unwrap();
    assert_eq!(
        str,
        r#"# Next Feeder Events
## testing F2 testing
> ~~`   testing`: <t:1735718400:F> (<t:1735718400:R>)~~

Go to <id:customize> and select the [Series]-Notifications role to receive notifications for each series.
All Times are in your timezone.
"#
    )
}

fn weekend_f2() -> Weekend {
    weekend(0, "testing", "testing", Series::F2)
}

#[test]
fn session_ends_exactly_at_now_is_not_struck() {
    let w = weekend(3, "Monaco", ":flag_mc:", Series::F1);
    let sessions = vec![session(1, 3, "2025-05-25T13:00:00Z", "Race")];
    let end = Timestamp { secs: at("2025-05-25T14:00:00Z").secs, nanos: 0 };
    assert_eq!(
        persistent_msg_f1_at(&w, &sessions, &end),
        "## :flag_mc: Monaco\n> `      Race`: <t:1748178000:F> (<t:1748178000:R>)\n\nUse <id:customize> and get the `f1-notifications` role to receive notifications!\n"
    );
    let later = Timestamp { secs: end.secs, nanos: 1 };
    assert_eq!(
        persistent_msg_f1_at(&w, &sessions, &later),
        "## :flag_mc: Monaco\n> ~~`      Race`: <t:1748178000:F> (<t:1748178000:R>)~~\n\nUse <id:customize> and get the `f1-notifications` role to receive notifications!\n"
    );
}

#[test]
fn long_names_are_not_cut_and_negative_times_are_signed() {
    let w = weekend(1, "Old", ":flag_gb:", Series::F1);
    let sessions = vec![session(1, 1, "1969-12-31T23:59:50Z", "Qualifying 1")];
    let now = at("2025-01-01T00:00:00Z");
    assert_eq!(
        persistent_msg_f1_at(&w, &sessions, &now),
        "## :flag_gb: Old\n> ~~`Qualifying 1`: <t:-10:F> (<t:-10:R>)~~\n\nUse <id:customize> and get the `f1-notifications` role to receive notifications!\n"
    );
}

#[test]
fn feeder_skips_series_without_weekend() {
    let f2 = weekend(2, "Bahrain", ":flag_bh:", Series::F2);
    let f1a = weekend(4, "Jeddah", ":flag_sa:", Series::F1Academy);
    let none: Option<Weekend> = None;
    let empty: Vec<Session> = Vec::new();
    let now = at("2025-01-01T00:00:00Z");
    let s = persistent_msg_feeder_at([(&Some(f2), &empty), (&none, &empty), (&Some(f1a), &empty)], &now);
    assert_eq!(
        s,
        "# Next Feeder Events\n## :flag_bh: F2 Bahrain\n> :hourglass: Times are TBC\n## :flag_sa: F1Academy Jeddah\n> :hourglass: Times are TBC\n\nGo to <id:customize> and select the [Series]-Notifications role to receive notifications for each series.\nAll Times are in your timezone.\n"
    );
    let f3 = weekend(1, "testing", "testing", Series::F3);
    let s = persistent_msg_feeder_at([(&none, &empty), (&Some(f3), &empty), (&none, &empty)], &now);
    assert_eq!(
        s,
        "# Next Feeder Events\n## testing F3 testing\n> :hourglass: Times are TBC\n\nGo to <id:customize> and select the [Series]-Notifications role to receive notifications for each series.\nAll Times are in your timezone.\n"
    );
}

#[test]
fn feeder_lists_all_three_series_in_order() {
    let f2 = weekend(2, "A", ":flag_aa:", Series::F2);
    let f3 = weekend(3, "B", ":flag_bb:", Series::F3);
    let f1a = weekend(4, "C", ":flag_cc:", Series::F1Academy);
    let s3 = vec![session(9, 3, "2030-01-01T00:00:00Z", "Sprint")];
    let empty: Vec<Session> = Vec::new();
    let now = at("2025-01-01T00:00:00Z");
    let s = persistent_msg_feeder_at([(&Some(f2), &empty), (&Some(f3), &s3), (&Some(f1a), &empty)], &now);
    assert_eq!(
        s,
        "# Next Feeder Events\n## :flag_aa: F2 A\n> :hourglass: Times are TBC\n## :flag_bb: F3 B\n> `    Sprint`: <t:1893456000:F> (<t:1893456000:R>)\n## :flag_cc: F1Academy C\n> :hourglass: Times are TBC\n\nGo to <id:customize> and select the [Series]-Notifications role to receive notifications for each series.\nAll Times are in your timezone.\n"
    );
}

fn seven_weekends() -> Vec<Weekend> {
    (1..=7u64).map(|i| weekend(i, &format!("GP{i}"), ":flag_xx:", Series::F1)).collect()
}

#[test]
fn calendar_first_message_has_title_and_five_weekends() {
    let ws = seven_weekends();
    let sessions = vec![
        session(1, 2, "2025-03-01T10:00:00Z", "Race"),
        session(2, 9, "2025-03-01T10:00:00Z", "Other"),
        session(3, 2, "2024-03-01T10:00:00Z", "FP1"),
    ];
    let now = at("2025-01-01T00:00:00Z");
    let s = make_calendar_message_string_at(&ws, &sessions, 0, &now, 2025);
    assert_eq!(
        s,
        "# F1 2025 Calendar\n\n## :flag_xx: GP1\n## :flag_xx: GP2\n> `      Race`: <t:1740823200:F> (<t:1740823200:R>)\n> ~~`       FP1`: <t:1709287200:F> (<t:1709287200:R>)~~\n## :flag_xx: GP3\n## :flag_xx: GP4\n## :flag_xx: GP5\n"
    );
}

#[test]
fn calendar_later_messages_and_reserved_placeholder() {
    let ws = seven_weekends();
    let now = at("2025-01-01T00:00:00Z");
    let s = make_calendar_message_string_at(&ws, &[], 1, &now, 2025);
    assert_eq!(s, "## :flag_xx: GP6\n## :flag_xx: GP7\n");
    assert_eq!(make_calendar_message_string_at(&ws, &[], 2, &now, 2025), "-# reserved message");
    let ten: Vec<Weekend> = (1..=10u64).map(|i| weekend(i, "W", "i", Series::F1)).collect();
    assert_eq!(make_calendar_message_string_at(&ten, &[], 2, &now, 2025), "");
    assert_eq!(make_calendar_message_string_at(&ten, &[], 3, &now, 2025), "-# reserved message");
    assert_eq!(make_calendar_message_string(&[], &[], 1).unwrap(), "-# reserved message");
    let first = make_calendar_message_string(&[], &[], 0).unwrap();
    assert!(first.starts_with("# F1 ") && first.ends_with(" Calendar\n\n"));
}

#[test]
fn calendar_block_of_one_weekend() {
    let w = weekend(1, "Monza", ":flag_it:", Series::F1);
    let s = session(1, 1, "2025-09-07T13:00:00Z", "Race");
    let list = vec![&s];
    let mut out = String::from("x");
    message_calendar_at(&w, &list, &mut out, &at("2026-01-01T00:00:00Z"));
    assert_eq!(out, "x## :flag_it: Monza\n> ~~`      Race`: <t:1757250000:F> (<t:1757250000:R>)~~\n");
}

#[test]
fn update_decisions() {
    assert_eq!(calendar_update_needed("42", 42, "text"), Some(false));
    assert_eq!(calendar_update_needed("41", 42, "text"), Some(true));
    assert_eq!(calendar_update_needed("41", 42, ""), Some(false));
    assert_eq!(calendar_update_needed("abc", 42, "text"), None);
    assert_eq!(f1_update_needed("+7", 7), Some(false));
    assert_eq!(f1_update_needed("", 7), None);
    assert!(!feeder_update_needed("99", 99));
    assert!(feeder_update_needed("98", 99));
    assert!(feeder_update_needed("junk", 99));
    assert!(feeder_update_needed("0", 0));
    assert!(calendar_ready(5));
    assert!(!calendar_ready(4));
    assert!(calendar_message_gone(204));
    assert!(calendar_message_gone(404));
    assert!(!calendar_message_gone(500));
    assert_eq!(Content::new("hello").content, "hello");
}

#[test]
fn weekend_finished_needs_sessions_all_closed() {
    let mut a = session(1, 1, "2025-01-01T00:00:00Z", "A");
    let mut b = session(2, 1, "2025-01-01T00:00:00Z", "B");
    assert!(!weekend_finished(&[]));
    assert!(!weekend_finished(&[a.clone(), b.clone()]));
    a.status = SessionStatus::Finished;
    assert!(!weekend_finished(&[a.clone(), b.clone()]));
    b.status = SessionStatus::Finished;
    assert!(weekend_finished(&[a, b]));
}

#[test]
fn stored_hash_is_the_default_hasher_of_the_content() {
    let mut hasher = std::hash::DefaultHasher::new();
    "Race".to_string().hash(&mut hasher);
    assert_eq!(hash_text_of("Race"), hasher.finish().to_string());
    assert_ne!(hash_text_of("Race"), hash_text_of("Sprint"));
}

#[test]
fn message_steps() {
    let h = hash_text_of("text");
    assert_eq!(calendar_step(&h, "text"), MessageUpdate::Keep);
    assert_eq!(calendar_step("0", "text"), MessageUpdate::EditAndStore(h.clone()));
    assert_eq!(calendar_step("0", ""), MessageUpdate::Keep);
    assert_eq!(calendar_step("abc", "text"), MessageUpdate::BadStoredHash);
    assert_eq!(f1_step(&h, "text"), MessageUpdate::Keep);
    assert_eq!(f1_step("1", "text"), MessageUpdate::Edit);
    assert_eq!(f1_step("", "text"), MessageUpdate::BadStoredHash);
    assert_eq!(feeder_step(&h, "text"), MessageUpdate::Keep);
    assert_eq!(feeder_step("junk", "text"), MessageUpdate::EditAndStore(h.clone()));
    assert_eq!(feeder_step("0", "text"), MessageUpdate::EditAndStore(h));
}

fn chrono_instant(t: &Timestamp) -> chrono::DateTime<chrono::Utc> {
    chrono::DateTime::from_timestamp(t.secs, t.nanos).unwrap()
}

/// Whether the line of a session starting at `start` and lasting
/// `duration` seconds is struck through at `now`, next to what chrono's own
/// arithmetic says.
fn struck_and_expected(start: Timestamp, duration: u32, now: Timestamp) -> (bool, bool) {
    let w = weekend(3, "Leap", ":flag_xx:", Series::F1);
    let mut s = session(1, 3, "2016-12-31T23:59:59Z", "Race");
    s.start_time = start;
    s.duration = duration;
    let text = persistent_msg_f1_at(&w, &vec![s], &now);
    let expected = chrono_instant(&start) + chrono::Duration::seconds(duration as i64) < chrono_instant(&now);
    (text.contains("~~"), expected)
}

#[test]
fn sessions_starting_in_a_leap_second() {
    let leap = at("2016-12-31T23:59:60Z");
    assert_eq!(leap.nanos, 1_000_000_000);
    let half = Timestamp { secs: leap.secs, nanos: 1_500_000_000 };
    let next = Timestamp { secs: leap.secs + 1, nanos: 0 };
    let cases = [
        (half, 1, Timestamp { secs: leap.secs + 1, nanos: 500_000_000 }, false),
        (half, 1, Timestamp { secs: leap.secs + 1, nanos: 600_000_000 }, true),
        (half, 0, Timestamp { secs: leap.secs, nanos: 1_600_000_000 }, true),
        (half, 0, Timestamp { secs: leap.secs, nanos: 1_500_000_000 }, false),
        (leap, 3600, Timestamp { secs: leap.secs + 3600, nanos: 0 }, false),
        (leap, 3600, Timestamp { secs: leap.secs + 3600, nanos: 1 }, true),
        (half, 0, next, true),
    ];
    for (start, duration, now, struck) in cases {
        let (got, expected) = struck_and_expected(start, duration, now);
        assert_eq!(got, struck);
        assert_eq!(got, expected);
    }
}
