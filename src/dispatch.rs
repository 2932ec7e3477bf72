use vstd::prelude::*;
use crate::birthday::BirthdayPerson;
use crate::config::DiscordServerConfig;

verus! {

/// How a due person is named in an announcement.
#[derive(Debug, PartialEq, Eq)]
pub enum Mention {
    /// By account identifier.
    User(String),
    /// By display name, in bold.
    Name(String),
}

/// One announcement to send: the target server (a position in the server list), the
/// people it names, and whether it mentions everyone.
#[derive(Debug)]
pub struct Dispatch {
    pub server: usize,
    pub mentions: Vec<Mention>,
    pub ping_everyone: bool,
}

/// Whether `p` belongs to the server with identifier `server`.
pub open spec fn listed_in(p: BirthdayPerson, server: Seq<char>) -> bool {
    &&& p.discord is Some
    &&& exists|j: int|
        0 <= j < p.discord->0.servers.len() && #[trigger] p.discord->0.servers[j]@ == server
}

/// How `p` is named: by account identifier when there is one, else by name.
pub open spec fn mention_of(p: BirthdayPerson) -> Mention {
    match p.discord {
        Some(d) => match d.id {
            Some(id) => Mention::User(id),
            None => Mention::Name(p.name),
        },
        None => Mention::Name(p.name),
    }
}

/// Whether `p` belongs to `server` and asks for everyone to be mentioned.
pub open spec fn asks_everyone(p: BirthdayPerson, server: Seq<char>) -> bool {
    listed_in(p, server) && p.discord->0.ping_everyone == Some(true)
}

/// The mentions, in order, of those among the first `n` people who belong to `server`.
pub open spec fn members_upto(people: Seq<&BirthdayPerson>, server: Seq<char>, n: int) -> Seq<
    Mention,
>
    decreases n,
{
    if n <= 0 {
        seq![]
    } else {
        let earlier = members_upto(people, server, n - 1);
        if listed_in(*people[n - 1], server) {
            earlier.push(mention_of(*people[n - 1]))
        } else {
            earlier
        }
    }
}

/// Whether an announcement to `server` mentions everyone: its default, or any member of
/// the batch who asks for it.
pub open spec fn group_ping(people: Seq<&BirthdayPerson>, server: Seq<char>, default: bool) -> bool {
    default || exists|k: int| 0 <= k < people.len() && asks_everyone(*#[trigger] people[k], server)
}

/// The announcements for the first `n` servers: one for each server with at least one
/// member in the batch, in the order of the server list.
pub open spec fn planned_upto(
    servers: Seq<(String, DiscordServerConfig)>,
    people: Seq<&BirthdayPerson>,
    n: int,
) -> Seq<(usize, Seq<Mention>, bool)>
    decreases n,
{
    if n <= 0 {
        seq![]
    } else {
        let earlier = planned_upto(servers, people, n - 1);
        let (id, config) = servers[n - 1];
        let members = members_upto(people, id@, people.len() as int);
        if members.len() > 0 {
            earlier.push(
                ((n - 1) as usize, members, group_ping(people, id@, config.default_ping_everyone)),
            )
        } else {
            earlier
        }
    }
}

/// One due member who asks for everyone to be mentioned is enough: the announcement to
/// that server mentions everyone, whatever its default and the wishes of other members.
pub proof fn lemma_override_wins(
    people: Seq<&BirthdayPerson>,
    server: Seq<char>,
    default: bool,
    k: int,
)
    requires
        0 <= k < people.len(),
        asks_everyone(*people[k], server),
    ensures
        group_ping(people, server, default),
{
}

/// Whether `p` belongs to the server `server`.
pub fn is_listed(p: &BirthdayPerson, server: &String) -> (r: bool)
    ensures
        r == listed_in(*p, server@),
{
    match &p.discord {
        None => false,
        Some(d) => {
            let mut j: usize = 0;
            while j < d.servers.len()
                invariant
                    p.discord == Some(*d),
                    j <= d.servers.len(),
                    forall|k: int| 0 <= k < j ==> #[trigger] d.servers[k]@ != server@,
                decreases d.servers.len() - j,
            {
                if d.servers[j] == *server {
                    assert(p.discord->0.servers[j as int]@ == server@);
                    return true;
                }
                j = j + 1;
            }
            false
        },
    }
}

/// How `p` is named in an announcement.
pub fn mention(p: &BirthdayPerson) -> (r: Mention)
    ensures
        r == mention_of(*p),
{
    match &p.discord {
        Some(d) => match &d.id {
            Some(id) => Mention::User(id.clone()),
            None => Mention::Name(p.name.clone()),
        },
        None => Mention::Name(p.name.clone()),
    }
}

/// The members of `server` among the due people, and whether its announcement mentions
/// everyone given the server's default.
pub fn group_for(server: &String, default: bool, people: &Vec<&BirthdayPerson>) -> (r: (
    Vec<Mention>,
    bool,
))
    ensures
        r.0@ == members_upto(people@, server@, people.len() as int),
        r.1 == group_ping(people@, server@, default),
{
    let mut members: Vec<Mention> = Vec::new();
    let mut ping = default;
    let mut k: usize = 0;
    while k < people.len()
        invariant
            k <= people.len(),
            members@ == members_upto(people@, server@, k as int),
            ping == (default || exists|q: int|
                0 <= q < k && asks_everyone(*#[trigger] people@[q], server@)),
        decreases people.len() - k,
    {
        let p: &BirthdayPerson = people[k];
        if is_listed(p, server) {
            members.push(mention(p));
            match &p.discord {
                Some(d) => {
                    if d.ping_everyone == Some(true) {
                        ping = true;
                    }
                },
                None => {},
            }
        }
        k = k + 1;
    }
    (members, ping)
}

/// Groups the due people by target server: one announcement per server of the list that
/// has at least one of them, naming its members in order; it mentions everyone when the
/// server's default says so or when any of its due members asks for it.
pub fn plan_dispatch(servers: &Vec<(String, DiscordServerConfig)>, people: &Vec<&BirthdayPerson>) -> (r:
    Vec<Dispatch>)
    ensures
        r.len() == planned_upto(servers@, people@, servers.len() as int).len(),
        forall|i: int|
            0 <= i < r.len() ==> (#[trigger] r[i].server, r[i].mentions@, r[i].ping_everyone)
                == planned_upto(servers@, people@, servers.len() as int)[i],
{
    let mut plan: Vec<Dispatch> = Vec::new();
    let mut s: usize = 0;
    while s < servers.len()
        invariant
            s <= servers.len(),
            plan.len() == planned_upto(servers@, people@, s as int).len(),
            forall|i: int|
                0 <= i < plan.len() ==> (#[trigger] plan[i].server, plan[i].mentions@, plan[i].ping_everyone)
                    == planned_upto(servers@, people@, s as int)[i],
        decreases servers.len() - s,
    {
        let (members, ping) = group_for(&servers[s].0, servers[s].1.default_ping_everyone, people);
        if members.len() > 0 {
            plan.push(Dispatch { server: s, mentions: members, ping_everyone: ping });
        }
        s = s + 1;
    }
    plan
}

/// Whether a server with identifier `server` is configured.
pub open spec fn configured(servers: Seq<(String, DiscordServerConfig)>, server: Seq<char>) -> bool {
    exists|s: int| 0 <= s < servers.len() && #[trigger] servers[s].0@ == server
}

/// Positions, in order, among the first `n` server identifiers of `names`, of those that
/// are not configured.
pub open spec fn unknown_upto(
    servers: Seq<(String, DiscordServerConfig)>,
    names: Seq<String>,
    n: int,
) -> Seq<usize>
    decreases n,
{
    if n <= 0 {
        seq![]
    } else {
        let earlier = unknown_upto(servers, names, n - 1);
        if configured(servers, names[n - 1]@) {
            earlier
        } else {
            earlier.push((n - 1) as usize)
        }
    }
}

/// Whether `server` is configured.
pub fn is_configured(servers: &Vec<(String, DiscordServerConfig)>, server: &String) -> (r: bool)
    ensures
        r == configured(servers@, server@),
{
    let mut s: usize = 0;
    while s < servers.len()
        invariant
            s <= servers.len(),
            forall|q: int| 0 <= q < s ==> #[trigger] servers@[q].0@ != server@,
        decreases servers.len() - s,
    {
        if servers[s].0 == *server {
            return true;
        }
        s = s + 1;
    }
    false
}

/// Positions, in the person's own list, of the servers that `p` names and that are not
/// configured: they receive no announcement.
pub fn unknown_servers(servers: &Vec<(String, DiscordServerConfig)>, p: &BirthdayPerson) -> (r: Vec<
    usize,
>)
    ensures
        p.discord is None ==> r@.len() == 0,
        p.discord matches Some(d) ==> r@ == unknown_upto(servers@, d.servers@, d.servers.len() as int),
{
    let mut unknown: Vec<usize> = Vec::new();
    match &p.discord {
        None => {},
        Some(d) => {
            let mut j: usize = 0;
            while j < d.servers.len()
                invariant
                    j <= d.servers.len(),
                    unknown@ == unknown_upto(servers@, d.servers@, j as int),
                decreases d.servers.len() - j,
            {
                if !is_configured(servers, &d.servers[j]) {
                    unknown.push(j);
                }
                j = j + 1;
            }
        },
    }
    unknown
}

} // verus!
