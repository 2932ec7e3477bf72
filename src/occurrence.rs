use vstd::prelude::*;
use chrono::{Datelike, TimeZone};

verus! {

/// Where a local wall-clock time falls on the absolute time line, in seconds since the
/// Unix epoch.
#[derive(Debug, Clone, Copy, PartialEq, Eq)]
pub enum LocalMidnight {
    /// The local time exists once.
    Single(i64),
    /// The local time exists twice (a fold): earliest, then latest.
    Ambiguous(i64, i64),
    /// The local time does not exist (a gap), or the date itself is invalid.
    Missing,
}

/// Midnight at the start of `year`-`month`-`day` in the zone named `zone`, as the zone
/// database resolves it.
pub uninterp spec fn midnight_in(zone: Seq<char>, year: int, month: int, day: int) -> LocalMidnight;

/// The calendar year, in UTC, of the instant `secs`, if the calendar reaches it.
pub uninterp spec fn utc_year(secs: int) -> Option<i32>;

/// Whether `zone` names a zone of the time zone database.
pub uninterp spec fn is_zone(zone: Seq<char>) -> bool;

/// Relies on chrono_tz's `Tz::from_str`: whether the identifier is one of its zones.
#[verifier::external_body]
pub(crate) fn zone_known(zone: &str) -> (r: bool)
    ensures
        r == is_zone(zone@),
{
    <chrono_tz::Tz as std::str::FromStr>::from_str(zone).is_ok()
}

/// Relies on chrono's `TimeZone::with_ymd_and_hms` on the chrono_tz zone that the
/// identifier names: midnight of the date, as one instant, as two instants in the order
/// (earliest, latest), or as none. An unknown identifier gives none.
#[verifier::external_body]
fn local_midnight(zone: &str, year: i32, month: u32, day: u32) -> (r: LocalMidnight)
    ensures
        is_zone(zone@) ==> r == midnight_in(zone@, year as int, month as int, day as int),
        !is_zone(zone@) ==> r is Missing,
        r matches LocalMidnight::Ambiguous(earliest, latest) ==> earliest <= latest,
{
    match <chrono_tz::Tz as std::str::FromStr>::from_str(zone) {
        Err(_) => LocalMidnight::Missing,
        Ok(tz) => match tz.with_ymd_and_hms(year, month, day, 0, 0, 0) {
            chrono::MappedLocalTime::Single(t) => LocalMidnight::Single(t.timestamp()),
            chrono::MappedLocalTime::Ambiguous(a, b) => LocalMidnight::Ambiguous(
                a.timestamp(),
                b.timestamp(),
            ),
            chrono::MappedLocalTime::None => LocalMidnight::Missing,
        },
    }
}

/// Relies on chrono's `DateTime::from_timestamp` and `Datelike::year`: the UTC calendar
/// year of an instant, none where chrono's calendar cannot represent it.
#[verifier::external_body]
fn year_in_utc(secs: i64) -> (r: Option<i32>)
    ensures
        r == utc_year(secs as int),
{
    match chrono::DateTime::from_timestamp(secs, 0) {
        Some(t) => Some(t.year()),
        None => None,
    }
}

/// The instant a local midnight stands for: the only one, the later of two, or none.
pub open spec fn resolved(m: LocalMidnight) -> Option<i64> {
    match m {
        LocalMidnight::Single(t) => Some(t),
        LocalMidnight::Ambiguous(_, latest) => Some(latest),
        LocalMidnight::Missing => None,
    }
}

/// The occurrence of day `day` of month `month` in `year`, in the zone `zone`.
pub open spec fn occurrence_in(zone: Seq<char>, month: int, day: int, year: int) -> Option<i64> {
    if is_zone(zone) {
        resolved(midnight_in(zone, year, month, day))
    } else {
        None
    }
}

/// The next occurrence of an annual date from `now` on: this UTC year's occurrence if it
/// exists and is not before `now`, else next year's.
pub open spec fn next_after(zone: Seq<char>, month: int, day: int, now: i64) -> Option<i64> {
    match utc_year(now as int) {
        None => None,
        Some(y) => match occurrence_in(zone, month, day, y as int) {
            Some(t) if t >= now => Some(t),
            _ => if y == i32::MAX {
                None
            } else {
                occurrence_in(zone, month, day, y + 1)
            },
        },
    }
}

/// Picks the instant of a local midnight: the later of two in a fold, none in a gap.
pub fn resolve(m: LocalMidnight) -> (r: Option<i64>)
    ensures
        r == resolved(m),
{
    match m {
        LocalMidnight::Single(t) => Some(t),
        LocalMidnight::Ambiguous(_, latest) => Some(latest),
        LocalMidnight::Missing => None,
    }
}

/// The occurrence of `month`/`day` in `year` in the zone `zone`.
pub fn occurrence(zone: &str, month: u32, day: u32, year: i32) -> (r: Option<i64>)
    ensures
        r == occurrence_in(zone@, month as int, day as int, year as int),
{
    resolve(local_midnight(zone, year, month, day))
}

/// The next occurrence of `month`/`day` in `zone` from `now` (seconds since the Unix
/// epoch) on; none where neither this UTC year's nor next year's date resolves.
pub fn next_occurrence(zone: &str, month: u32, day: u32, now: i64) -> (r: Option<i64>)
    ensures
        r == next_after(zone@, month as int, day as int, now),
{
    let year = match year_in_utc(now) {
        None => return None,
        Some(y) => y,
    };
    match occurrence(zone, month, day, year) {
        Some(t) => {
            if t >= now {
                return Some(t);
            }
        },
        None => {},
    }
    if year == i32::MAX {
        return None;
    }
    occurrence(zone, month, day, year + 1)
}

/// The next occurrence is never before `now`, and this year's occurrence is chosen whenever
/// it is not before `now`. Left out are the instants `now` that next year's occurrence
/// still precedes.
pub proof fn lemma_next_not_before_now(zone: Seq<char>, month: int, day: int, now: i64)
    requires
        forall|y: i32|
            #![trigger occurrence_in(zone, month, day, y + 1)]
            utc_year(now as int) == Some(y) && y < i32::MAX && occurrence_in(
                zone,
                month,
                day,
                y + 1,
            ) is Some ==> occurrence_in(zone, month, day, y + 1)->0 >= now,
    ensures
        next_after(zone, month, day, now) matches Some(t) ==> t >= now,
        forall|y: i32|
            #![trigger occurrence_in(zone, month, day, y as int)]
            utc_year(now as int) == Some(y) && occurrence_in(zone, month, day, y as int) is Some
                && occurrence_in(zone, month, day, y as int)->0 >= now ==> next_after(
                zone,
                month,
                day,
                now,
            ) == occurrence_in(zone, month, day, y as int),
{
    if let Some(y) = utc_year(now as int) {
        if y < i32::MAX {
            assert(occurrence_in(zone, month, day, y + 1) is Some ==> occurrence_in(
                zone,
                month,
                day,
                y + 1,
            )->0 >= now);
        }
    }
}

/// Year rollover: when this UTC year's occurrence is not before `now` it is the next one;
/// when it is before `now`, or this year has none, the next one is that of the year after.
pub proof fn lemma_year_rollover(zone: Seq<char>, month: int, day: int, now: i64, y: i32)
    requires
        utc_year(now as int) == Some(y),
        y < i32::MAX,
    ensures
        occurrence_in(zone, month, day, y as int) is Some && occurrence_in(zone, month, day, y as int)->0
            >= now ==> next_after(zone, month, day, now) == occurrence_in(zone, month, day, y as int),
        occurrence_in(zone, month, day, y as int) is Some && occurrence_in(zone, month, day, y as int)->0
            < now ==> next_after(
            zone,
            month,
            day,
            now,
        ) == occurrence_in(zone, month, day, y + 1),
        occurrence_in(zone, month, day, y as int) is None ==> next_after(zone, month, day, now)
            == occurrence_in(zone, month, day, y + 1),
{
}

/// Asking again one second before the occurrence found gives the same occurrence, where
/// it was this UTC year's and that second lies in the same UTC year.
pub proof fn lemma_ask_again(zone: Seq<char>, month: int, day: int, now: i64, y: i32, t: i64)
    requires
        utc_year(now as int) == Some(y),
        next_after(zone, month, day, now) == Some(t),
        occurrence_in(zone, month, day, y as int) == Some(t),
        t > i64::MIN,
        utc_year(t - 1) == Some(y),
    ensures
        next_after(zone, month, day, (t - 1) as i64) == Some(t),
{
}

/// A midnight that a fold repeats resolves to the later of its two instants.
pub proof fn lemma_fold_takes_later(
    zone: Seq<char>,
    month: int,
    day: int,
    now: i64,
    y: i32,
    earliest: i64,
    latest: i64,
)
    requires
        is_zone(zone),
        utc_year(now as int) == Some(y),
        midnight_in(zone, y as int, month, day) == LocalMidnight::Ambiguous(earliest, latest),
        earliest <= latest,
        latest >= now,
    ensures
        next_after(zone, month, day, now) == Some(latest),
{
}

/// A midnight that a gap skips gives no occurrence for that year: the next one is that of
/// the year after.
pub proof fn lemma_gap_moves_on(zone: Seq<char>, month: int, day: int, now: i64, y: i32)
    requires
        utc_year(now as int) == Some(y),
        y < i32::MAX,
        midnight_in(zone, y as int, month, day) is Missing,
    ensures
        occurrence_in(zone, month, day, y as int) is None,
        next_after(zone, month, day, now) == occurrence_in(zone, month, day, y + 1),
{
}

} // verus!
