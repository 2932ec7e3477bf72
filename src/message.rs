use vstd::prelude::*;
use rand::seq::SliceRandom;
use crate::dispatch::Mention;

verus! {

/// Title of every announcement.
pub const TITLE: &'static str = "Happy Birthday!";

/// Opening phrase used when no celebratory phrase can be drawn.
pub const FALLBACK_PREFIX: &'static str = "Happy birthday to you!";

/// The text that names one person in an announcement.
pub open spec fn mention_text_of(m: Mention) -> Seq<char> {
    match m {
        Mention::User(id) => "<@"@ + id@ + ">"@,
        Mention::Name(name) => "**"@ + name@ + "**"@,
    }
}

/// Texts joined with ", " between each two.
pub open spec fn joined(parts: Seq<Seq<char>>) -> Seq<char>
    decreases parts.len(),
{
    if parts.len() == 0 {
        seq![]
    } else if parts.len() == 1 {
        parts[0]
    } else {
        joined(parts.drop_last()) + ", "@ + parts.last()
    }
}

/// The body of an announcement: the opening phrase, then the request to wish the named
/// people a happy birthday.
pub open spec fn description_of(prefix: Seq<char>, mentions: Seq<Mention>) -> Seq<char> {
    prefix + " Please wish a very happy birthday to "@ + joined(
        mentions.map_values(|m: Mention| mention_text_of(m)),
    ) + "."@
}

/// The celebratory phrases an announcement may open with.
pub open spec fn is_celebration_prefix(s: Seq<char>) -> bool {
    ||| s == "Can you believe its been a year already?"@
    ||| s == "The grow up so fast."@
    ||| s == "As is tradition around here,"@
}

/// The text that names one person: `<@id>` for an account, the name in bold otherwise.
pub fn mention_text(m: &Mention) -> (r: String)
    ensures
        r@ == mention_text_of(*m),
{
    match m {
        Mention::User(id) => {
            let mut s = String::from_str("<@");
            s.append(id.as_str());
            s.append(">");
            s
        },
        Mention::Name(name) => {
            let mut s = String::from_str("**");
            s.append(name.as_str());
            s.append("**");
            s
        },
    }
}

/// The body of an announcement naming `mentions`, opened by `prefix`.
pub fn birthday_description(prefix: &str, mentions: &Vec<Mention>) -> (r: String)
    ensures
        r@ == description_of(prefix@, mentions@),
{
    let mut s = String::from_str(prefix);
    s.append(" Please wish a very happy birthday to ");
    let ghost texts = mentions@.map_values(|m: Mention| mention_text_of(m));
    let ghost head = s@;
    let mut k: usize = 0;
    while k < mentions.len()
        invariant
            k <= mentions.len(),
            texts == mentions@.map_values(|m: Mention| mention_text_of(m)),
            s@ == head + joined(texts.subrange(0, k as int)),
        decreases mentions.len() - k,
    {
        assert(texts.subrange(0, k + 1).drop_last() =~= texts.subrange(0, k as int));
        if k > 0 {
            s.append(", ");
        }
        let t = mention_text(&mentions[k]);
        s.append(t.as_str());
        proof {
            if k == 0 {
                assert(texts.subrange(0, 1) =~= seq![texts[0]]);
            }
        }
        k = k + 1;
    }
    assert(texts.subrange(0, k as int) =~= texts);
    s.append(".");
    s
}

/// Relies on rand's `SliceRandom::choose` with the thread-local generator: one of the
/// options drawn at random, none when there are no options.
#[verifier::external_body]
fn choose_one(options: &Vec<String>) -> (r: Option<String>)
    ensures
        r is None <==> options.len() == 0,
        r matches Some(s) ==> exists|i: int| 0 <= i < options.len() && options[i]@ == s@,
{
    options.as_slice().choose(&mut rand::thread_rng()).cloned()
}

/// A celebratory opening phrase drawn at random.
pub fn celebration_prefix() -> (r: String)
    ensures
        is_celebration_prefix(r@),
{
    let mut options: Vec<String> = Vec::new();
    options.push(String::from_str("Can you believe its been a year already?"));
    options.push(String::from_str("The grow up so fast."));
    options.push(String::from_str("As is tradition around here,"));
    match choose_one(&options) {
        Some(s) => s,
        None => String::from_str(FALLBACK_PREFIX),
    }
}

} // verus!
