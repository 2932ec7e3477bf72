use vstd::prelude::*;

verus! {

/// How a person is addressed on the chat servers that announce their birthday.
#[derive(Debug, Clone)]
pub struct PersonDiscordConfig {
    /// Account identifier used to mention the person; without it the name is shown.
    pub id: Option<String>,
    /// Identifiers of the target servers the person belongs to.
    pub servers: Vec<String>,
    /// Overrides the server's default "mention everyone" flag.
    pub ping_everyone: Option<bool>,
}

/// One person's configuration entry.
#[derive(Debug)]
pub struct PersonBirthdayConfig {
    /// (day, month)
    pub date: (u32, u32),
    /// IANA time zone identifier.
    pub tz: String,
    pub discord: Option<PersonDiscordConfig>,
}

/// Delivery settings of one target server.
#[derive(Debug, Clone)]
pub struct DiscordServerConfig {
    pub webhook: String,
    pub default_ping_everyone: bool,
}

/// The whole configuration: people and target servers, each keyed by a unique name.
#[derive(Debug)]
pub struct ConfigFile {
    pub people: Vec<(String, PersonBirthdayConfig)>,
    pub servers: Vec<(String, DiscordServerConfig)>,
}

impl ConfigFile {
    /// No two people and no two servers share a key.
    pub open spec fn keys_unique(&self) -> bool {
        &&& forall|i: int, j: int|
            0 <= i < j < self.people.len() ==> self.people[i].0@ != self.people[j].0@
        &&& forall|i: int, j: int|
            0 <= i < j < self.servers.len() ==> self.servers[i].0@ != self.servers[j].0@
    }
}

} // verus!
