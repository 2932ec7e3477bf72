use vstd::prelude::*;
use crate::birthday::{person_from, BirthdayPerson};
use crate::config::PersonBirthdayConfig;
use crate::occurrence::{is_zone, next_after};

verus! {

/// A person with the instant (seconds since the Unix epoch) of their next birthday.
#[derive(Debug)]
pub struct RosterEntry {
    pub person: BirthdayPerson,
    pub next: i64,
}

/// Why a configured person was left out of the roster.
#[derive(Debug, Clone, Copy, PartialEq, Eq)]
pub enum RosterError {
    /// The time zone identifier is not in the time zone database.
    InvalidTimezone,
    /// Neither this year's nor next year's date resolves to an instant.
    UnresolvableDate,
}

/// A configured person who was left out, and why.
#[derive(Debug)]
pub struct Skipped {
    pub name: String,
    pub error: RosterError,
}

/// What becomes of one configuration entry when the roster is built at `now`.
pub open spec fn entry_outcome(config: PersonBirthdayConfig, now: i64) -> Result<i64, RosterError> {
    if !is_zone(config.tz@) {
        Err(RosterError::InvalidTimezone)
    } else {
        match next_after(config.tz@, config.date.1 as int, config.date.0 as int, now) {
            Some(t) => Ok(t),
            None => Err(RosterError::UnresolvableDate),
        }
    }
}

/// The roster built at `now` from configuration entries: one entry per person whose time
/// zone is known and whose date resolves, in the order of the configuration.
pub open spec fn roster_of(people: Seq<(String, PersonBirthdayConfig)>, now: i64) -> Seq<RosterEntry>
    decreases people.len(),
{
    if people.len() == 0 {
        seq![]
    } else {
        let rest = roster_of(people.drop_last(), now);
        let (name, config) = people.last();
        match entry_outcome(config, now) {
            Ok(t) => rest.push(RosterEntry { person: person_from(name, config), next: t }),
            Err(_) => rest,
        }
    }
}

/// The people left out when the roster is built at `now`, in the order of the
/// configuration, each with the reason.
pub open spec fn skipped_of(people: Seq<(String, PersonBirthdayConfig)>, now: i64) -> Seq<Skipped>
    decreases people.len(),
{
    if people.len() == 0 {
        seq![]
    } else {
        let rest = skipped_of(people.drop_last(), now);
        let (name, config) = people.last();
        match entry_outcome(config, now) {
            Ok(_) => rest,
            Err(e) => rest.push(Skipped { name, error: e }),
        }
    }
}

/// Builds the roster at `now`: the people that can be scheduled, and those left out with
/// the reason.
pub fn build_roster(people: Vec<(String, PersonBirthdayConfig)>, now: i64) -> (r: (
    Vec<RosterEntry>,
    Vec<Skipped>,
))
    ensures
        r.0@ == roster_of(people@, now),
        r.1@ == skipped_of(people@, now),
{
    let ghost all = people@;
    let total: usize = people.len();
    let mut rest = people;
    let mut roster: Vec<RosterEntry> = Vec::new();
    let mut skipped: Vec<Skipped> = Vec::new();
    let mut i: usize = 0;
    while rest.len() > 0
        invariant
            i <= all.len(),
            all.len() == total,
            rest.len() == all.len() - i,
            rest@ == all.subrange(i as int, all.len() as int),
            roster@ == roster_of(all.subrange(0, i as int), now),
            skipped@ == skipped_of(all.subrange(0, i as int), now),
        decreases rest.len(),
    {
        let (name, config) = rest.remove(0);
        assert(all.subrange(0, i + 1).drop_last() =~= all.subrange(0, i as int));
        assert(all.subrange(0, i + 1).last() == (name, config));
        let key = name.clone();
        match BirthdayPerson::from_config(name, config) {
            Err(_) => {
                skipped.push(Skipped { name: key, error: RosterError::InvalidTimezone });
            },
            Ok(person) => match person.get_next_date(now) {
                None => {
                    skipped.push(Skipped { name: key, error: RosterError::UnresolvableDate });
                },
                Some(t) => {
                    roster.push(RosterEntry { person, next: t });
                },
            },
        }
        i = i + 1;
        assert(rest@ =~= all.subrange(i as int, all.len() as int));
    }
    assert(all.subrange(0, i as int) =~= all);
    (roster, skipped)
}

/// Positions, in order, of the first `n` entries whose next birthday is before `now`.
pub open spec fn due_upto(entries: Seq<RosterEntry>, now: i64, n: int) -> Seq<usize>
    decreases n,
{
    if n <= 0 {
        seq![]
    } else {
        let earlier = due_upto(entries, now, n - 1);
        if entries[n - 1].next < now {
            earlier.push((n - 1) as usize)
        } else {
            earlier
        }
    }
}

/// The next birthday an entry holds after a pass at `now`: recomputed from `now` when it
/// had passed, kept as it was when that fails or when it had not passed.
pub open spec fn advanced(entry: RosterEntry, now: i64) -> i64 {
    if entry.next < now {
        match entry.person.next_from(now) {
            Some(t) => t,
            None => entry.next,
        }
    } else {
        entry.next
    }
}

/// One evaluating pass at `now`: returns the positions of the people whose birthday has
/// passed (the due batch), and moves each of them on to their next birthday.
pub fn collect_due(roster: &mut Vec<RosterEntry>, now: i64) -> (due: Vec<usize>)
    ensures
        final(roster).len() == old(roster).len(),
        forall|i: int|
            0 <= i < old(roster).len() ==> #[trigger] final(roster)[i].person == old(
                roster,
            )[i].person && final(roster)[i].next == advanced(old(roster)[i], now),
        due@ == due_upto(old(roster)@, now, old(roster).len() as int),
{
    let ghost start = roster@;
    let mut due: Vec<usize> = Vec::new();
    let mut i: usize = 0;
    while i < roster.len()
        invariant
            roster.len() == start.len(),
            i <= start.len(),
            forall|j: int|
                0 <= j < start.len() ==> #[trigger] roster[j].person == start[j].person,
            forall|j: int| 0 <= j < i ==> #[trigger] roster[j].next == advanced(start[j], now),
            forall|j: int| i <= j < start.len() ==> #[trigger] roster[j].next == start[j].next,
            due@ == due_upto(start, now, i as int),
        decreases start.len() - i,
    {
        if roster[i].next < now {
            due.push(i);
            match roster[i].person.get_next_date(now) {
                Some(t) => {
                    roster[i].next = t;
                },
                None => {},
            }
        }
        i = i + 1;
    }
    due
}

} // verus!
