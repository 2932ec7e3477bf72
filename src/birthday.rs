use vstd::prelude::*;
use crate::config::{PersonBirthdayConfig, PersonDiscordConfig};
use crate::occurrence::{is_zone, next_after, next_occurrence, zone_known};

verus! {

/// A person of the roster: who they are, how they are addressed, and their annual date.
#[derive(Debug)]
pub struct BirthdayPerson {
    pub name: String,
    pub discord: Option<PersonDiscordConfig>,
    pub day: u32,
    pub month: u32,
    /// IANA time zone identifier.
    pub tz: String,
}

/// The person that a configuration entry describes.
pub open spec fn person_from(key_name: String, config: PersonBirthdayConfig) -> BirthdayPerson {
    BirthdayPerson {
        name: key_name,
        discord: config.discord,
        day: config.date.0,
        month: config.date.1,
        tz: config.tz,
    }
}

impl BirthdayPerson {
    /// Builds a person from their configuration entry; fails when the time zone is
    /// unknown.
    pub fn from_config(key_name: String, config: PersonBirthdayConfig) -> (r: Result<
        Self,
        String,
    >)
        ensures
            r is Ok <==> is_zone(config.tz@),
            r matches Ok(p) ==> p == person_from(key_name, config),
            r matches Err(e) ==> e@ == "Could not convert timezone!"@,
    {
        if !zone_known(config.tz.as_str()) {
            return Err("Could not convert timezone!".to_string());
        }
        Ok(BirthdayPerson {
            name: key_name,
            discord: config.discord,
            day: config.date.0,
            month: config.date.1,
            tz: config.tz,
        })
    }

    /// The next occurrence of this person's date from `now` on.
    pub open spec fn next_from(&self, now: i64) -> Option<i64> {
        next_after(self.tz@, self.month as int, self.day as int, now)
    }

    /// The next birthday from `now` (seconds since the Unix epoch) on, none where it
    /// cannot be resolved.
    pub fn get_next_date(&self, now: i64) -> (r: Option<i64>)
        ensures
            r == self.next_from(now),
    {
        next_occurrence(self.tz.as_str(), self.month, self.day, now)
    }
}

} // verus!
