use birthdays::birthday::BirthdayPerson;
use birthdays::config::PersonBirthdayConfig;
use birthdays::occurrence::{next_occurrence, occurrence, resolve, LocalMidnight};

const JAN_1_2024: i64 = 1704067200;
const MAR_15_2024: i64 = 1710460800;
const MAR_15_2025: i64 = 1741996800;

fn person(name: &str, day: u32, month: u32, tz: &str) -> BirthdayPerson {
    BirthdayPerson::from_config(
        name.to_string(),
        PersonBirthdayConfig { date: (day, month), tz: tz.to_string(), discord: None },
    )
    .unwrap()
}

#[test]
fn occurrence_later_this_year() {
    assert_eq!(next_occurrence("UTC", 3, 15, JAN_1_2024), Some(MAR_15_2024));
}

#[test]
fn occurrence_at_now_is_kept() {
    assert_eq!(next_occurrence("UTC", 3, 15, MAR_15_2024), Some(MAR_15_2024));
}

#[test]
fn occurrence_rolls_over_to_next_year() {
    assert_eq!(next_occurrence("UTC", 3, 15, MAR_15_2024 + 1), Some(MAR_15_2025));
}

#[test]
fn occurrence_not_before_now() {
    let now = 1717200000;
    let t = next_occurrence("Europe/London", 6, 1, now).unwrap();
    assert!(t >= now);
    assert_eq!(t, 1717196400 + 365 * 86400);
}

#[test]
fn asking_again_a_second_before_gives_the_same() {
    for now in [JAN_1_2024, MAR_15_2024 + 1, 1717200000] {
        let t = next_occurrence("America/New_York", 3, 15, now).unwrap();
        assert_eq!(next_occurrence("America/New_York", 3, 15, t - 1), Some(t));
    }
}

#[test]
fn offset_zone_shifts_the_instant() {
    // Midnight in New York on 15 March 2024 is 04:00 UTC (daylight time).
    assert_eq!(next_occurrence("America/New_York", 3, 15, JAN_1_2024), Some(MAR_15_2024 + 4 * 3600));
}

#[test]
fn fold_takes_the_later_instant() {
    // In Havana, 3 November 2024 starts twice: at 04:00 and at 05:00 UTC.
    assert_eq!(occurrence("America/Havana", 11, 3, 2024), Some(1730610000));
    assert_eq!(next_occurrence("America/Havana", 11, 3, JAN_1_2024), Some(1730610000));
}

#[test]
fn gap_gives_no_occurrence_that_year() {
    // In Havana, 10 March 2024 starts at 01:00: its midnight does not exist.
    assert_eq!(occurrence("America/Havana", 3, 10, 2024), None);
    assert_eq!(next_occurrence("America/Havana", 3, 10, JAN_1_2024), Some(1741579200));
}

#[test]
fn invalid_day_never_resolves() {
    assert_eq!(next_occurrence("UTC", 2, 30, JAN_1_2024), None);
    assert_eq!(person("x", 30, 2, "UTC").get_next_date(JAN_1_2024), None);
}

#[test]
fn unknown_zone_never_resolves() {
    assert_eq!(next_occurrence("Mars/Olympus", 3, 15, JAN_1_2024), None);
}

#[test]
fn resolve_picks_as_documented() {
    assert_eq!(resolve(LocalMidnight::Single(5)), Some(5));
    assert_eq!(resolve(LocalMidnight::Ambiguous(5, 9)), Some(9));
    assert_eq!(resolve(LocalMidnight::Missing), None);
}

#[test]
fn person_next_date_uses_day_then_month() {
    assert_eq!(person("ann", 15, 3, "UTC").get_next_date(JAN_1_2024), Some(MAR_15_2024));
}

#[test]
fn from_config_rejects_unknown_zone() {
    let r = BirthdayPerson::from_config(
        "ann".to_string(),
        PersonBirthdayConfig { date: (15, 3), tz: "Nowhere/Land".to_string(), discord: None },
    );
    assert_eq!(r.unwrap_err(), "Could not convert timezone!");
}

#[test]
fn from_config_keeps_fields() {
    let p = person("ann", 15, 3, "Europe/Paris");
    assert_eq!(p.name, "ann");
    assert_eq!(p.day, 15);
    assert_eq!(p.month, 3);
    assert_eq!(p.tz, "Europe/Paris");
}
