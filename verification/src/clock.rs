//! Wall-clock time of day, as written in front of every log entry.

use vstd::prelude::*;

verus! {

/// The character of the decimal digit `d` (`0 <= d < 10`).
pub open spec fn digit_char(d: int) -> char {
    (d + 48) as char
}

/// `n` (`0 <= n < 100`) written with exactly two digits, zero-padded.
pub open spec fn two_digits(n: int) -> Seq<char> {
    seq![digit_char(n / 10), digit_char(n % 10)]
}

/// `n` (`0 <= n < 1000`) written with exactly three digits, zero-padded.
pub open spec fn three_digits(n: int) -> Seq<char> {
    seq![digit_char(n / 100), digit_char((n / 10) % 10), digit_char(n % 10)]
}

/// The time of day `HH:MM:SS.mmm` of the instant that lies `secs` whole
/// seconds and `millis` milliseconds after the Unix epoch, in UTC.
pub open spec fn clock_text(secs: int, millis: int) -> Seq<char> {
    let total = secs % 86400;
    two_digits(total / 3600) + seq![':'] + two_digits((total % 3600) / 60) + seq![':']
        + two_digits(total % 60) + seq!['.'] + three_digits(millis)
}

/// `s` is the time of day of some instant, as `clock_text` writes it.
pub open spec fn is_clock_text(s: Seq<char>) -> bool {
    exists|secs: u64, millis: u32| millis < 1000 && s == clock_text(secs as int, millis as int)
}

/// The one-character text of the decimal digit `d`.
fn digit_text(d: u64) -> (r: &'static str)
    requires
        d < 10,
    ensures
        r@ == seq![digit_char(d as int)],
{
    proof {
        reveal_strlit("0");
        reveal_strlit("1");
        reveal_strlit("2");
        reveal_strlit("3");
        reveal_strlit("4");
        reveal_strlit("5");
        reveal_strlit("6");
        reveal_strlit("7");
        reveal_strlit("8");
        reveal_strlit("9");
    }
    match d {
        0 => "0",
        1 => "1",
        2 => "2",
        3 => "3",
        4 => "4",
        5 => "5",
        6 => "6",
        7 => "7",
        8 => "8",
        _ => "9",
    }
}

fn push_two_digits(s: &mut String, n: u64)
    requires
        n < 100,
    ensures
        final(s)@ == old(s)@ + two_digits(n as int),
{
    s.append(digit_text(n / 10));
    s.append(digit_text(n % 10));
}

fn push_three_digits(s: &mut String, n: u64)
    requires
        n < 1000,
    ensures
        final(s)@ == old(s)@ + three_digits(n as int),
{
    s.append(digit_text(n / 100));
    s.append(digit_text((n / 10) % 10));
    s.append(digit_text(n % 10));
}

/// Writes the time of day of the instant `secs` seconds and `millis`
/// milliseconds after the Unix epoch as `HH:MM:SS.mmm`.
pub fn format_clock(secs: u64, millis: u32) -> (r: String)
    requires
        millis < 1000,
    ensures
        r@ == clock_text(secs as int, millis as int),
{
    let total: u64 = secs % 86400;
    let hours: u64 = total / 3600;
    let mins: u64 = (total % 3600) / 60;
    let s: u64 = total % 60;
    let mut out = String::new();
    push_two_digits(&mut out, hours);
    proof {
        reveal_strlit(":");
        reveal_strlit(".");
    }
    out.append(":");
    push_two_digits(&mut out, mins);
    out.append(":");
    push_two_digits(&mut out, s);
    out.append(".");
    push_three_digits(&mut out, millis as u64);
    out
}

/// `std::time::SystemTime`, a reading of the machine's clock.
#[verifier::external_type_specification]
#[verifier::external_body]
pub struct ExSystemTime(std::time::SystemTime);

/// `std::time::SystemTimeError`, returned when a reading lies before the
/// instant it is measured from.
#[verifier::external_type_specification]
#[verifier::external_body]
pub struct ExSystemTimeError(std::time::SystemTimeError);

/// `SystemTime::now`: a reading of the machine's clock. What it holds
/// depends on the moment of the call, so nothing is stated of it.
#[verifier::external_body]
fn system_time_now() -> std::time::SystemTime {
    std::time::SystemTime::now()
}

/// `SystemTime::duration_since(UNIX_EPOCH)`: how long after the Unix epoch
/// the reading `t` lies, or an error where it lies before it. The reading is
/// opaque here, so neither the duration nor which of the two comes back is
/// stated.
#[verifier::external_body]
fn since_unix_epoch(t: &std::time::SystemTime) -> std::result::Result<
    core::time::Duration,
    std::time::SystemTimeError,
> {
    t.duration_since(std::time::UNIX_EPOCH)
}

/// `Duration::as_secs`: the whole seconds of `d`. A duration is opaque here,
/// so the number is not tied to it by any clause.
#[verifier::external_body]
fn whole_seconds(d: &core::time::Duration) -> u64 {
    d.as_secs()
}

/// `Duration::subsec_millis`: the fractional part of `d` in whole
/// milliseconds, which its documentation bounds below one thousand. A
/// duration is opaque here, so no clause ties the number to `d` beyond that
/// bound.
#[verifier::external_body]
fn subsec_millis_of(d: &core::time::Duration) -> (r: u32)
    ensures
        r < 1000,
{
    d.subsec_millis()
}

/// The time of day written from two clock readings: the whole seconds and
/// the milliseconds since the Unix epoch, where a reading that could not be
/// taken (`None`, a clock before the epoch) counts as zero.
pub open spec fn readings_text(secs: Option<u64>, millis: Option<u32>) -> Seq<char> {
    clock_text(
        match secs {
            Some(s) => s as int,
            None => 0,
        },
        match millis {
            Some(m) => m as int,
            None => 0,
        },
    )
}

/// Writes the time of day of two clock readings as `HH:MM:SS.mmm`; a
/// missing reading counts as zero.
pub fn clock_from_readings(secs: Option<u64>, millis: Option<u32>) -> (r: String)
    requires
        millis matches Some(m) ==> m < 1000,
    ensures
        r@ == readings_text(secs, millis),
        is_clock_text(r@),
{
    let s: u64 = match secs {
        Some(s) => s,
        None => 0,
    };
    let m: u32 = match millis {
        Some(m) => m,
        None => 0,
    };
    let r = format_clock(s, m);
    assert(m < 1000 && r@ == clock_text(s as int, m as int));
    r
}

/// `s` is a whole-seconds count that a reading of the machine's clock can
/// give: the reading `SystemTime::now` measured with
/// `duration_since(UNIX_EPOCH)` and counted with `Duration::as_secs`, or
/// `None` where the reading lay before the epoch. It holds of exactly the
/// values that those calls can hand back.
pub closed spec fn is_seconds_reading(s: Option<u64>) -> bool {
    exists|t: std::time::SystemTime, res: std::result::Result<core::time::Duration, std::time::SystemTimeError>|
        #![trigger call_ensures(system_time_now, (), t), call_ensures(since_unix_epoch, (&t,), res)]
        call_ensures(system_time_now, (), t) && call_ensures(since_unix_epoch, (&t,), res) && match res {
            Ok(d) => match s {
                Some(x) => call_ensures(whole_seconds, (&d,), x),
                None => false,
            },
            Err(_) => s is None,
        }
}

/// `m` is a millisecond count that a reading of the machine's clock can
/// give: the reading `SystemTime::now` measured with
/// `duration_since(UNIX_EPOCH)` and counted with `Duration::subsec_millis`,
/// or `None` where the reading lay before the epoch.
pub closed spec fn is_millis_reading(m: Option<u32>) -> bool {
    exists|t: std::time::SystemTime, res: std::result::Result<core::time::Duration, std::time::SystemTimeError>|
        #![trigger call_ensures(system_time_now, (), t), call_ensures(since_unix_epoch, (&t,), res)]
        call_ensures(system_time_now, (), t) && call_ensures(since_unix_epoch, (&t,), res) && match res {
            Ok(d) => match m {
                Some(x) => call_ensures(subsec_millis_of, (&d,), x),
                None => false,
            },
            Err(_) => m is None,
        }
}

/// `text` is the time of day of a clock reading: written by
/// `readings_text` from a seconds reading and a milliseconds reading of the
/// machine's clock.
pub open spec fn is_clock_reading_text(text: Seq<char>) -> bool {
    exists|secs: Option<u64>, millis: Option<u32>|
        #![trigger is_seconds_reading(secs), is_millis_reading(millis)]
        is_seconds_reading(secs) && is_millis_reading(millis) && text == readings_text(secs, millis)
}

/// A milliseconds reading of the clock is below one thousand.
pub proof fn lemma_millis_reading_below_1000(m: Option<u32>)
    requires
        is_millis_reading(m),
    ensures
        m matches Some(x) ==> x < 1000,
{
    let (t, res) = choose|
        t: std::time::SystemTime,
        res: std::result::Result<core::time::Duration, std::time::SystemTimeError>,
    |
        #![trigger call_ensures(system_time_now, (), t), call_ensures(since_unix_epoch, (&t,), res)]
        call_ensures(system_time_now, (), t) && call_ensures(since_unix_epoch, (&t,), res) && match res {
            Ok(d) => match m {
                Some(x) => call_ensures(subsec_millis_of, (&d,), x),
                None => false,
            },
            Err(_) => m is None,
        };
}

/// The time of day of a clock reading is a time of day.
pub proof fn lemma_clock_reading_text_is_clock_text(text: Seq<char>)
    requires
        is_clock_reading_text(text),
    ensures
        is_clock_text(text),
{
    let (secs, millis) = choose|secs: Option<u64>, millis: Option<u32>|
        #![trigger is_seconds_reading(secs), is_millis_reading(millis)]
        is_seconds_reading(secs) && is_millis_reading(millis) && text == readings_text(secs, millis);
    lemma_millis_reading_below_1000(millis);
    let s: u64 = match secs {
        Some(x) => x,
        None => 0,
    };
    let m: u32 = match millis {
        Some(x) => x,
        None => 0,
    };
    assert(m < 1000 && text == clock_text(s as int, m as int));
}

/// The current time of day as `HH:MM:SS.mmm` (UTC). The clock is read
/// twice, once for the seconds and once for the milliseconds; a reading
/// before the Unix epoch counts as zero. The result is the time of day of
/// the two readings taken.
pub fn chrono_like_now() -> (r: String)
    ensures
        is_clock_text(r@),
        exists|secs: Option<u64>, millis: Option<u32>|
            (millis matches Some(m) ==> m < 1000) && r@ == #[trigger] readings_text(secs, millis),
        is_clock_reading_text(r@),
{
    let t1 = system_time_now();
    let res1 = since_unix_epoch(&t1);
    let ghost g1 = res1;
    let secs: Option<u64> = match res1 {
        Ok(d) => Some(whole_seconds(&d)),
        Err(_) => None,
    };
    assert(is_seconds_reading(secs)) by {
        assert(call_ensures(system_time_now, (), t1) && call_ensures(since_unix_epoch, (&t1,), g1));
    }
    let t2 = system_time_now();
    let res2 = since_unix_epoch(&t2);
    let ghost g2 = res2;
    let millis: Option<u32> = match res2 {
        Ok(d) => Some(subsec_millis_of(&d)),
        Err(_) => None,
    };
    assert(is_millis_reading(millis)) by {
        assert(call_ensures(system_time_now, (), t2) && call_ensures(since_unix_epoch, (&t2,), g2));
    }
    clock_from_readings(secs, millis)
}

} // verus!
