//! Human-readable ages of questions and answers ("5m ago", "3d ago"), as the
//! command-line client prints them next to each entry.
use vstd::prelude::*;
use crate::text::{int_decimal, owned, push_decimal};
use vstd::string::StringSliceAdditionalSpecFns;

verus! {

/// std's system clock reading.
#[verifier::external_type_specification]
#[verifier::external_body]
pub struct ExSystemTime(std::time::SystemTime);

/// The instant that chrono's RFC 3339 parser (`DateTime::parse_from_rfc3339`)
/// reads from a text, as its Unix timestamp in whole seconds and the
/// nanoseconds within that second; `None` when chrono rejects the text.
pub uninterp spec fn rfc3339_instant(s: Seq<char>) -> Option<(i64, u32)>;

/// `chrono::DateTime::parse_from_rfc3339`, read back through
/// `DateTime::timestamp` and `DateTime::timestamp_subsec_nanos`: the instant
/// an RFC 3339 timestamp denotes, or `None` when chrono rejects the text.
/// The grammar chrono accepts is not restated; the one fact given beside the
/// name is that chrono rejects every text shorter than 19 bytes.
#[verifier::external_body]
fn parse_rfc3339_instant(s: &str) -> (r: Option<(i64, u32)>)
    ensures
        r == rfc3339_instant(s@),
        s.spec_bytes().len() < 19 ==> r is None,
{
    match chrono::DateTime::parse_from_rfc3339(s) {
        Ok(d) => Some((d.timestamp(), d.timestamp_subsec_nanos())),
        Err(_) => None,
    }
}

/// `std::time::SystemTime::now`: the system clock's reading. It depends on
/// the clock, so nothing is stated of it.
#[verifier::external_body]
fn system_now() -> std::time::SystemTime {
    std::time::SystemTime::now()
}

/// `SystemTime::duration_since(UNIX_EPOCH)`, read back through
/// `Duration::as_secs` and `Duration::subsec_nanos`: the whole seconds and
/// the nanoseconds (below one second) since 1970, or `None` for a reading
/// before 1970. A `SystemTime` has no visible contents in these contracts, so
/// only the range of the nanoseconds is stated.
#[verifier::external_body]
fn since_unix_epoch(t: &std::time::SystemTime) -> (r: Option<(u64, u32)>)
    ensures
        r matches Some(d) ==> d.1 < 1_000_000_000,
{
    match t.duration_since(std::time::UNIX_EPOCH) {
        Ok(d) => Some((d.as_secs(), d.subsec_nanos())),
        Err(_) => None,
    }
}

/// Position of a Unix timestamp within its day, in seconds (0 to 86399).
pub open spec fn second_of_day(t: int) -> int {
    t % 86400
}

/// The whole seconds from instant `then` to instant `now` (each given as a
/// Unix timestamp and the nanoseconds within that second), as chrono counts
/// them: `NaiveDateTime::signed_duration_since` followed by
/// `TimeDelta::num_seconds`. The difference is taken in nanoseconds and
/// rounded toward zero. An instant inside a leap second carries 10^9 or more
/// nanoseconds on the timestamp of the second before it; when the other
/// instant lies later in its day, that leap second counts as one more second
/// between them.
pub open spec fn whole_seconds(now: (u64, u32), then: (i64, u32)) -> int {
    let sn = second_of_day(now.0 as int);
    let st = second_of_day(then.0 as int);
    let leap: int = if sn > st && then.1 >= 1_000_000_000 {
        1
    } else if sn < st && now.1 >= 1_000_000_000 {
        -1
    } else {
        0
    };
    let d = (now.0 - then.0 + leap) * 1_000_000_000 + (now.1 - then.1);
    if d >= 0 {
        d / 1_000_000_000
    } else {
        -((-d) / 1_000_000_000)
    }
}

/// The label for an age of `s` whole seconds: under a minute is "just now",
/// then whole minutes, hours, days, weeks (of 7 days), months (of 30 days)
/// and years (of 365 days), each unit used while the next is not reached.
pub open spec fn age_label(s: int) -> Seq<char> {
    let minutes = s / 60;
    let hours = s / 3600;
    let days = s / 86400;
    if s < 60 {
        "just now"@
    } else if minutes < 60 {
        int_decimal(minutes) + "m ago"@
    } else if hours < 24 {
        int_decimal(hours) + "h ago"@
    } else if days < 7 {
        int_decimal(days) + "d ago"@
    } else if days < 30 {
        int_decimal(days / 7) + "w ago"@
    } else if days < 365 {
        int_decimal(days / 30) + "mo ago"@
    } else {
        int_decimal(days / 365) + "y ago"@
    }
}

/// The age shown for the timestamp text `date` when the clock reads `now`:
/// "unknown" when the text is not an RFC 3339 timestamp or the clock reads
/// before 1970, otherwise the label of the whole seconds from the timestamp
/// to `now`.
pub open spec fn age_text(date: Seq<char>, now: Option<(u64, u32)>) -> Seq<char> {
    match (rfc3339_instant(date), now) {
        (Some(then), Some(n)) => age_label(whole_seconds(n, then)),
        _ => "unknown"@,
    }
}

/// What the age of a timestamp text may read, whatever the clock reads.
pub open spec fn possible_age(date: Seq<char>, age: Seq<char>) -> bool {
    exists|now: Option<(u64, u32)>| age == #[trigger] age_text(date, now)
}

fn count_with_unit(n: i128, unit: &str) -> (r: String)
    requires
        n >= 0,
    ensures
        r@ == int_decimal(n as int) + unit@,
{
    let mut r = String::new();
    push_decimal(&mut r, n as u128);
    r.append(unit);
    assert(r@ =~= int_decimal(n as int) + unit@);
    r
}

/// The age label for a duration of `seconds` whole seconds.
pub fn time_ago_label(seconds: i128) -> (r: String)
    ensures
        r@ == age_label(seconds as int),
{
    if seconds < 60 {
        return owned("just now");
    }
    let minutes = seconds / 60;
    let hours = seconds / 3600;
    let days = seconds / 86400;
    if minutes < 60 {
        count_with_unit(minutes, "m ago")
    } else if hours < 24 {
        count_with_unit(hours, "h ago")
    } else if days < 7 {
        count_with_unit(days, "d ago")
    } else if days < 30 {
        count_with_unit(days / 7, "w ago")
    } else if days < 365 {
        count_with_unit(days / 30, "mo ago")
    } else {
        count_with_unit(days / 365, "y ago")
    }
}

fn day_second(t: i128) -> (r: i128)
    requires
        -0x1_0000_0000_0000_0000 < t < 0x1_0000_0000_0000_0000,
    ensures
        r == second_of_day(t as int),
{
    if t >= 0 {
        t % 86400
    } else {
        let q = (-t) % 86400;
        if q == 0 {
            assert(t % 86400 == 0) by {
                assert((-t) == ((-t) / 86400) * 86400);
                assert(t == -((-t) / 86400) * 86400);
            }
            0
        } else {
            assert(t % 86400 == 86400 - q) by {
                let k = (-t) / 86400;
                assert((-t) == k * 86400 + q);
                assert(t == (-k - 1) * 86400 + (86400 - q));
            }
            86400 - q
        }
    }
}

/// The whole seconds from `then` to `now`, as chrono counts them.
pub fn elapsed_seconds(now: (u64, u32), then: (i64, u32)) -> (r: i128)
    ensures
        r == whole_seconds(now, then),
{
    let sn = day_second(now.0 as i128);
    let st = day_second(then.0 as i128);
    let leap: i128 = if sn > st && then.1 >= 1_000_000_000 {
        1
    } else if sn < st && now.1 >= 1_000_000_000 {
        -1
    } else {
        0
    };
    let d: i128 = ((now.0 as i128) - (then.0 as i128) + leap) * 1_000_000_000 + ((now.1 as i128)
        - (then.1 as i128));
    if d >= 0 {
        d / 1_000_000_000
    } else {
        -((-d) / 1_000_000_000)
    }
}

/// How long before the clock reading `now` the RFC 3339 timestamp `date_str`
/// was.
pub fn time_ago_at(date_str: &str, now: Option<(u64, u32)>) -> (r: String)
    ensures
        r@ == age_text(date_str@, now),
        date_str.spec_bytes().len() < 19 ==> r@ == "unknown"@,
{
    match parse_rfc3339_instant(date_str) {
        None => owned("unknown"),
        Some(then) => match now {
            None => owned("unknown"),
            Some(n) => time_ago_label(elapsed_seconds(n, then)),
        },
    }
}

/// How long ago the RFC 3339 timestamp `date_str` was, by the system clock:
/// "unknown" when it does not parse (or the clock reads before 1970),
/// otherwise the label of the whole seconds elapsed until now.
pub fn format_time_ago(date_str: &str) -> (r: String)
    ensures
        possible_age(date_str@, r@),
        rfc3339_instant(date_str@) is None ==> r@ == "unknown"@,
        date_str.spec_bytes().len() < 19 ==> r@ == "unknown"@,
{
    let clock = system_now();
    let now = since_unix_epoch(&clock);
    let r = time_ago_at(date_str, now);
    assert(r@ == age_text(date_str@, now));
    r
}

} // verus!
