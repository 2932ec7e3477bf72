use birthdays::birthday::BirthdayPerson;
use birthdays::config::{DiscordServerConfig, PersonBirthdayConfig, PersonDiscordConfig};
use birthdays::dispatch::{plan_dispatch, unknown_servers, Mention};
use birthdays::message::{birthday_description, celebration_prefix, mention_text};

fn member(name: &str, id: Option<&str>, servers: &[&str], ping: Option<bool>) -> BirthdayPerson {
    let discord = PersonDiscordConfig {
        id: id.map(|s| s.to_string()),
        servers: servers.iter().map(|s| s.to_string()).collect(),
        ping_everyone: ping,
    };
    BirthdayPerson::from_config(
        name.to_string(),
        PersonBirthdayConfig { date: (1, 1), tz: "UTC".to_string(), discord: Some(discord) },
    )
    .unwrap()
}

fn server(id: &str, default_ping: bool) -> (String, DiscordServerConfig) {
    (id.to_string(), DiscordServerConfig { webhook: format!("https://example.invalid/{id}"), default_ping_everyone: default_ping })
}

#[test]
fn conflicting_overrides_mention_everyone() {
    let a = member("ann", None, &["srv"], Some(true));
    let b = member("bob", None, &["srv"], Some(false));
    let plan = plan_dispatch(&vec![server("srv", false)], &vec![&a, &b]);
    assert_eq!(plan.len(), 1);
    assert!(plan[0].ping_everyone);
    let plan = plan_dispatch(&vec![server("srv", false)], &vec![&b, &a]);
    assert!(plan[0].ping_everyone);
}

#[test]
fn default_is_kept_without_override() {
    let a = member("ann", None, &["srv"], None);
    let b = member("bob", None, &["srv"], Some(false));
    let plan = plan_dispatch(&vec![server("srv", false)], &vec![&a]);
    assert!(!plan[0].ping_everyone);
    let plan = plan_dispatch(&vec![server("srv", true)], &vec![&a, &b]);
    assert!(plan[0].ping_everyone);
}

#[test]
fn people_are_grouped_by_server() {
    let a = member("ann", Some("111"), &["one", "two"], None);
    let b = member("bob", None, &["two"], None);
    let c = member("cid", None, &["gone"], None);
    let servers = vec![server("one", false), server("two", false), server("three", true)];
    let plan = plan_dispatch(&servers, &vec![&a, &b, &c]);
    assert_eq!(plan.len(), 2);
    assert_eq!(plan[0].server, 0);
    assert_eq!(plan[0].mentions, vec![Mention::User("111".to_string())]);
    assert_eq!(plan[1].server, 1);
    assert_eq!(plan[1].mentions, vec![Mention::User("111".to_string()), Mention::Name("bob".to_string())]);
}

#[test]
fn people_without_accounts_are_not_announced() {
    let p = BirthdayPerson::from_config(
        "ann".to_string(),
        PersonBirthdayConfig { date: (1, 1), tz: "UTC".to_string(), discord: None },
    )
    .unwrap();
    assert!(plan_dispatch(&vec![server("srv", true)], &vec![&p]).is_empty());
}

#[test]
fn mention_texts() {
    assert_eq!(mention_text(&Mention::User("42".to_string())), "<@42>");
    assert_eq!(mention_text(&Mention::Name("ann".to_string())), "**ann**");
}

#[test]
fn description_joins_mentions() {
    let m = vec![Mention::User("42".to_string()), Mention::Name("ann".to_string())];
    assert_eq!(
        birthday_description("Hi!", &m),
        "Hi! Please wish a very happy birthday to <@42>, **ann**."
    );
    assert_eq!(birthday_description("Hi!", &Vec::new()), "Hi! Please wish a very happy birthday to .");
}

#[test]
fn prefix_is_one_of_the_phrases() {
    let phrases = ["Can you believe its been a year already?", "The grow up so fast.", "As is tradition around here,"];
    for _ in 0..20 {
        assert!(phrases.contains(&celebration_prefix().as_str()));
    }
}

#[test]
fn unknown_servers_are_reported() {
    let a = member("ann", None, &["one", "gone", "two", "lost"], None);
    let servers = vec![server("one", false), server("two", false)];
    assert_eq!(unknown_servers(&servers, &a), vec![1, 3]);
    let b = member("bob", None, &["two"], None);
    assert!(unknown_servers(&servers, &b).is_empty());
}
