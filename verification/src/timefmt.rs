//! Calendar timestamps as plain values, and the fixed text formats built
//! from them: the name of a recording file and the prefix of a log line.
//!
//! Only reading the clock itself is left to the outside; everything built
//! from a timestamp is verified character by character.

use vstd::prelude::*;
use vstd::string::StringExecFns;

verus! {

/// One local calendar instant, second precision, held as plain fields.
#[derive(Clone, Copy, PartialEq, Eq, Structural, Debug)]
pub struct Timestamp {
    pub year: u32,
    pub month: u32,
    pub day: u32,
    pub hour: u32,
    pub minute: u32,
    pub second: u32,
}

impl Timestamp {
    /// Field ranges of a calendar time whose year fits the four digits the
    /// text formats carry.
    pub open spec fn wf(&self) -> bool {
        &&& self.year <= 9999
        &&& 1 <= self.month <= 12
        &&& 1 <= self.day <= 31
        &&& self.hour < 24
        &&& self.minute < 60
        &&& self.second < 60
    }

    /// Builds a timestamp from raw clock fields, refusing any that a
    /// calendar time of the four-digit era cannot have.
    pub fn new(year: i32, month: u32, day: u32, hour: u32, minute: u32, second: u32) -> (r: Option<
        Timestamp,
    >)
        ensures
            r is Some <==> (0 <= year <= 9999 && 1 <= month <= 12 && 1 <= day <= 31 && hour < 24
                && minute < 60 && second < 60),
            r matches Some(t) ==> t == (Timestamp {
                year: year as u32,
                month,
                day,
                hour,
                minute,
                second,
            }) && t.wf(),
    {
        if 0 <= year && year <= 9999 && 1 <= month && month <= 12 && 1 <= day && day <= 31 && hour
            < 24 && minute < 60 && second < 60 {
            Some(Timestamp { year: year as u32, month, day, hour, minute, second })
        } else {
            None
        }
    }
}

/// The character of one decimal digit.
pub open spec fn digit_char(d: int) -> char {
    if d == 0 {
        '0'
    } else if d == 1 {
        '1'
    } else if d == 2 {
        '2'
    } else if d == 3 {
        '3'
    } else if d == 4 {
        '4'
    } else if d == 5 {
        '5'
    } else if d == 6 {
        '6'
    } else if d == 7 {
        '7'
    } else if d == 8 {
        '8'
    } else {
        '9'
    }
}

/// A number below 100 as two decimal digits, zero-padded.
pub open spec fn dec2_chars(n: int) -> Seq<char> {
    seq![digit_char(n / 10), digit_char(n % 10)]
}

/// A number below 10000 as four decimal digits, zero-padded.
pub open spec fn dec4_chars(n: int) -> Seq<char> {
    seq![
        digit_char(n / 1000),
        digit_char((n / 100) % 10),
        digit_char((n / 10) % 10),
        digit_char(n % 10),
    ]
}

/// A timestamp in the file-name pattern: four-digit year, then month, day,
/// hour, minute and second as two digits each, with the fixed separators.
pub open spec fn timestamp_file_chars(ts: Timestamp) -> Seq<char> {
    dec4_chars(ts.year as int) + "-"@ + dec2_chars(ts.month as int) + "-"@ + dec2_chars(
        ts.day as int,
    ) + "_"@ + dec2_chars(ts.hour as int) + "."@ + dec2_chars(ts.minute as int) + "."@
        + dec2_chars(ts.second as int)
}

/// The full name of a recording file: fixed prefix, the timestamp pattern,
/// fixed extension.
pub open spec fn recording_file_name_chars(ts: Timestamp) -> Seq<char> {
    "DCubedISM"@ + timestamp_file_chars(ts) + ".txt"@
}

/// A timestamp in the log-line pattern: as the file pattern, but with a
/// space before the time and colons inside it.
pub open spec fn timestamp_log_chars(ts: Timestamp) -> Seq<char> {
    dec4_chars(ts.year as int) + "-"@ + dec2_chars(ts.month as int) + "-"@ + dec2_chars(
        ts.day as int,
    ) + " "@ + dec2_chars(ts.hour as int) + ":"@ + dec2_chars(ts.minute as int) + ":"@
        + dec2_chars(ts.second as int)
}

/// One log line: bracketed timestamp, bracketed level, then the message.
pub open spec fn log_line_chars(ts: Timestamp, level: Seq<char>, message: Seq<char>) -> Seq<
    char,
> {
    "["@ + timestamp_log_chars(ts) + "] ["@ + level + "] "@ + message
}

/// The single character of one decimal digit, as text.
fn digit_str(d: u32) -> (s: &'static str)
    requires
        d < 10,
    ensures
        s@ =~= seq![digit_char(d as int)],
{
    proof {
        reveal_strlit("0");
        reveal_strlit("1");
        reveal_strlit("2");
        reveal_strlit("3");
        reveal_strlit("4");
        reveal_strlit("5");
        reveal_strlit("6");
        reveal_strlit("7");
        reveal_strlit("8");
        reveal_strlit("9");
    }
    match d {
        0 => "0",
        1 => "1",
        2 => "2",
        3 => "3",
        4 => "4",
        5 => "5",
        6 => "6",
        7 => "7",
        8 => "8",
        _ => "9",
    }
}

/// Appends a number below 100 as two zero-padded decimal digits.
fn append_dec2(out: &mut String, n: u32)
    requires
        n < 100,
    ensures
        final(out)@ == old(out)@ + dec2_chars(n as int),
{
    out.append(digit_str(n / 10));
    out.append(digit_str(n % 10));
    assert(out@ =~= old(out)@ + dec2_chars(n as int));
}

/// Appends a number below 10000 as four zero-padded decimal digits.
fn append_dec4(out: &mut String, n: u32)
    requires
        n < 10000,
    ensures
        final(out)@ == old(out)@ + dec4_chars(n as int),
{
    out.append(digit_str(n / 1000));
    out.append(digit_str((n / 100) % 10));
    out.append(digit_str((n / 10) % 10));
    out.append(digit_str(n % 10));
    assert(out@ =~= old(out)@ + dec4_chars(n as int));
}

/// The name of the recording file opened at this instant.
pub fn recording_file_name(ts: &Timestamp) -> (s: String)
    requires
        ts.wf(),
    ensures
        s@ == recording_file_name_chars(*ts),
{
    let mut s = String::from_str("DCubedISM");
    append_dec4(&mut s, ts.year);
    s.append("-");
    append_dec2(&mut s, ts.month);
    s.append("-");
    append_dec2(&mut s, ts.day);
    s.append("_");
    append_dec2(&mut s, ts.hour);
    s.append(".");
    append_dec2(&mut s, ts.minute);
    s.append(".");
    append_dec2(&mut s, ts.second);
    s.append(".txt");
    assert(s@ =~= recording_file_name_chars(*ts));
    s
}

/// One full log line for this instant, level and message.
pub fn log_line(ts: &Timestamp, level: &str, message: &str) -> (s: String)
    requires
        ts.wf(),
    ensures
        s@ == log_line_chars(*ts, level@, message@),
{
    let mut s = String::from_str("[");
    append_dec4(&mut s, ts.year);
    s.append("-");
    append_dec2(&mut s, ts.month);
    s.append("-");
    append_dec2(&mut s, ts.day);
    s.append(" ");
    append_dec2(&mut s, ts.hour);
    s.append(":");
    append_dec2(&mut s, ts.minute);
    s.append(":");
    append_dec2(&mut s, ts.second);
    s.append("] [");
    s.append(level);
    s.append("] ");
    s.append(message);
    assert(s@ =~= log_line_chars(*ts, level@, message@));
    s
}

proof fn lemma_digit_char_injective(a: int, b: int)
    requires
        0 <= a < 10,
        0 <= b < 10,
        digit_char(a) == digit_char(b),
    ensures
        a == b,
{
}

proof fn lemma_dec2_injective(m: int, n: int)
    requires
        0 <= m < 100,
        0 <= n < 100,
        dec2_chars(m) == dec2_chars(n),
    ensures
        m == n,
{
    assert(dec2_chars(m)[0] == dec2_chars(n)[0]);
    assert(dec2_chars(m)[1] == dec2_chars(n)[1]);
    lemma_digit_char_injective(m / 10, n / 10);
    lemma_digit_char_injective(m % 10, n % 10);
    vstd::arithmetic::div_mod::lemma_fundamental_div_mod(m, 10);
    vstd::arithmetic::div_mod::lemma_fundamental_div_mod(n, 10);
}

proof fn lemma_dec4_injective(m: int, n: int)
    requires
        0 <= m < 10000,
        0 <= n < 10000,
        dec4_chars(m) == dec4_chars(n),
    ensures
        m == n,
{
    assert(dec4_chars(m)[0] == dec4_chars(n)[0]);
    assert(dec4_chars(m)[1] == dec4_chars(n)[1]);
    assert(dec4_chars(m)[2] == dec4_chars(n)[2]);
    assert(dec4_chars(m)[3] == dec4_chars(n)[3]);
    lemma_digit_char_injective(m / 1000, n / 1000);
    lemma_digit_char_injective((m / 100) % 10, (n / 100) % 10);
    lemma_digit_char_injective((m / 10) % 10, (n / 10) % 10);
    lemma_digit_char_injective(m % 10, n % 10);
    lemma_dec_digits_recompose(m);
    lemma_dec_digits_recompose(n);
}

/// A number below 10000 is recovered from its four zero-padded digits.
proof fn lemma_dec_digits_recompose(m: int)
    requires
        0 <= m < 10000,
    ensures
        m == 1000 * (m / 1000) + 100 * ((m / 100) % 10) + 10 * ((m / 10) % 10) + m % 10,
{
    vstd::arithmetic::div_mod::lemma_fundamental_div_mod(m, 10);
    vstd::arithmetic::div_mod::lemma_fundamental_div_mod(m / 10, 10);
    vstd::arithmetic::div_mod::lemma_fundamental_div_mod(m / 100, 10);
    vstd::arithmetic::div_mod::lemma_div_denominator(m, 10, 10);
    vstd::arithmetic::div_mod::lemma_div_denominator(m, 100, 10);
}

/// Two well-formed timestamps that format to the same file-name pattern are
/// the same instant: the pattern loses nothing down to the second.
pub proof fn lemma_timestamp_file_chars_injective(a: Timestamp, b: Timestamp)
    requires
        a.wf(),
        b.wf(),
        timestamp_file_chars(a) == timestamp_file_chars(b),
    ensures
        a == b,
{
    reveal_strlit("-");
    reveal_strlit("_");
    reveal_strlit(".");
    let ca = timestamp_file_chars(a);
    let cb = timestamp_file_chars(b);
    assert(("-"@).len() == 1 && ("_"@).len() == 1 && ("."@).len() == 1);
    assert(dec4_chars(a.year as int).len() == 4 && dec4_chars(b.year as int).len() == 4);
    assert(dec2_chars(a.month as int).len() == 2 && dec2_chars(b.month as int).len() == 2);
    assert(dec2_chars(a.day as int).len() == 2 && dec2_chars(b.day as int).len() == 2);
    assert(dec2_chars(a.hour as int).len() == 2 && dec2_chars(b.hour as int).len() == 2);
    assert(dec2_chars(a.minute as int).len() == 2 && dec2_chars(b.minute as int).len() == 2);
    assert(dec2_chars(a.second as int).len() == 2 && dec2_chars(b.second as int).len() == 2);
    assert(ca.len() == 19 && cb.len() == 19);
    assert forall|i: int| 0 <= i < 4 implies dec4_chars(a.year as int)[i] == dec4_chars(
        b.year as int,
    )[i] by {
        assert(ca[0 + i] == dec4_chars(a.year as int)[i]);
        assert(cb[0 + i] == dec4_chars(b.year as int)[i]);
    }
    assert(dec4_chars(a.year as int) =~= dec4_chars(b.year as int));
    assert forall|i: int| 0 <= i < 2 implies dec2_chars(a.month as int)[i] == dec2_chars(
        b.month as int,
    )[i] by {
        assert(ca[5 + i] == dec2_chars(a.month as int)[i]);
        assert(cb[5 + i] == dec2_chars(b.month as int)[i]);
    }
    assert(dec2_chars(a.month as int) =~= dec2_chars(b.month as int));
    assert forall|i: int| 0 <= i < 2 implies dec2_chars(a.day as int)[i] == dec2_chars(
        b.day as int,
    )[i] by {
        assert(ca[8 + i] == dec2_chars(a.day as int)[i]);
        assert(cb[8 + i] == dec2_chars(b.day as int)[i]);
    }
    assert(dec2_chars(a.day as int) =~= dec2_chars(b.day as int));
    assert forall|i: int| 0 <= i < 2 implies dec2_chars(a.hour as int)[i] == dec2_chars(
        b.hour as int,
    )[i] by {
        assert(ca[11 + i] == dec2_chars(a.hour as int)[i]);
        assert(cb[11 + i] == dec2_chars(b.hour as int)[i]);
    }
    assert(dec2_chars(a.hour as int) =~= dec2_chars(b.hour as int));
    assert forall|i: int| 0 <= i < 2 implies dec2_chars(a.minute as int)[i] == dec2_chars(
        b.minute as int,
    )[i] by {
        assert(ca[14 + i] == dec2_chars(a.minute as int)[i]);
        assert(cb[14 + i] == dec2_chars(b.minute as int)[i]);
    }
    assert(dec2_chars(a.minute as int) =~= dec2_chars(b.minute as int));
    assert forall|i: int| 0 <= i < 2 implies dec2_chars(a.second as int)[i] == dec2_chars(
        b.second as int,
    )[i] by {
        assert(ca[17 + i] == dec2_chars(a.second as int)[i]);
        assert(cb[17 + i] == dec2_chars(b.second as int)[i]);
    }
    assert(dec2_chars(a.second as int) =~= dec2_chars(b.second as int));
    lemma_dec4_injective(a.year as int, b.year as int);
    lemma_dec2_injective(a.month as int, b.month as int);
    lemma_dec2_injective(a.day as int, b.day as int);
    lemma_dec2_injective(a.hour as int, b.hour as int);
    lemma_dec2_injective(a.minute as int, b.minute as int);
    lemma_dec2_injective(a.second as int, b.second as int);
}

/// Two recording files opened at different well-formed instants never share
/// a name: rotation at distinct seconds always yields distinct files.
pub proof fn lemma_recording_file_name_injective(a: Timestamp, b: Timestamp)
    requires
        a.wf(),
        b.wf(),
        recording_file_name_chars(a) == recording_file_name_chars(b),
    ensures
        a == b,
{
    reveal_strlit("DCubedISM");
    reveal_strlit(".txt");
    reveal_strlit("-");
    reveal_strlit("_");
    reveal_strlit(".");
    let na = recording_file_name_chars(a);
    let nb = recording_file_name_chars(b);
    assert(timestamp_file_chars(a) =~= timestamp_file_chars(b)) by {
        assert(forall|i: int|
            0 <= i < 19 ==> na[9 + i] == timestamp_file_chars(a)[i] && nb[9 + i]
                == timestamp_file_chars(b)[i]);
    }
    lemma_timestamp_file_chars_injective(a, b);
}

/// Relies on chrono's `Local::now` for the current wall-clock instant and on
/// its `Datelike` and `Timelike` accessors to project that instant to plain
/// calendar fields. chrono documents the month as 1 to 12, the day as 1 to
/// 31, the hour below 24, and the minute and second below 60; the year is
/// whatever the clock says.
#[verifier::external_body]
fn local_time_parts() -> (r: (i32, u32, u32, u32, u32, u32))
    ensures
        1 <= r.1 <= 12,
        1 <= r.2 <= 31,
        r.3 < 24,
        r.4 < 60,
        r.5 < 60,
{
    let now = chrono::Local::now();
    (
        chrono::Datelike::year(&now),
        chrono::Datelike::month(&now),
        chrono::Datelike::day(&now),
        chrono::Timelike::hour(&now),
        chrono::Timelike::minute(&now),
        chrono::Timelike::second(&now),
    )
}

/// The local wall-clock time as a checked timestamp. `None` can come only of
/// a clock whose year does not fit four digits.
pub fn local_timestamp() -> (r: Option<Timestamp>)
    ensures
        r matches Some(t) ==> t.wf(),
{
    let (year, month, day, hour, minute, second) = local_time_parts();
    Timestamp::new(year, month, day, hour, minute, second)
}

} // verus!
