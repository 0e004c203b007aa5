//! Wall-clock times written as text: reading, blank detection and the two
//! written forms (compact `HHMM` and spaced `HH : MM`).

use chrono::NaiveTime;
use chrono::Timelike;
use vstd::prelude::*;

verus! {

/// Seconds in a day.
pub const DAY_SECS: u32 = 86400;

/// What chrono's `NaiveTime::parse_from_str(s, "%H%M")` reads from `s`, as
/// seconds since midnight (`None` where it refuses the text).
pub uninterp spec fn clock_of(s: Seq<char>) -> Option<u32>;

/// What `str::trim` leaves of `s`.
pub uninterp spec fn trimmed(s: Seq<char>) -> Seq<char>;

/// The character of a decimal digit.
pub open spec fn digit_char(k: int) -> char
    recommends
        0 <= k < 10,
{
    seq!['0', '1', '2', '3', '4', '5', '6', '7', '8', '9'][k]
}

/// A number below 100 written with two digits.
pub open spec fn two_digits(n: int) -> Seq<char> {
    seq![digit_char(n / 10), digit_char(n % 10)]
}

/// The hour of a time of day given in seconds.
pub open spec fn hour_of(t: int) -> int {
    t / 3600
}

/// The minute of a time of day given in seconds.
pub open spec fn minute_of(t: int) -> int {
    (t % 3600) / 60
}

/// `HHMM`: the form chrono writes for the layout `%H%M`.
pub open spec fn hhmm(t: int) -> Seq<char> {
    two_digits(hour_of(t)) + two_digits(minute_of(t))
}

/// `HH : MM`: the form chrono writes for the layout `%H : %M`.
pub open spec fn hh_mm(t: int) -> Seq<char> {
    two_digits(hour_of(t)) + seq![' ', ':', ' '] + two_digits(minute_of(t))
}

/// Text made of ASCII digits only.
pub open spec fn all_digits(s: Seq<char>) -> bool {
    forall|i: int| 0 <= i < s.len() ==> '0' <= #[trigger] s[i] <= '9'
}

/// Four digits `HHMM` that name a time of day.
pub open spec fn is_hhmm(s: Seq<char>) -> bool {
    &&& s.len() == 4
    &&& all_digits(s)
    &&& (s[0] as int - '0' as int) * 10 + (s[1] as int - '0' as int) < 24
    &&& (s[2] as int - '0' as int) * 10 + (s[3] as int - '0' as int) < 60
}

/// The seconds since midnight that four digits `HHMM` name.
pub open spec fn hhmm_value(s: Seq<char>) -> int {
    ((s[0] as int - '0' as int) * 10 + (s[1] as int - '0' as int)) * 3600 + ((s[2] as int
        - '0' as int) * 10 + (s[3] as int - '0' as int)) * 60
}

/// Text that holds nothing but white space.
pub open spec fn is_blank(s: Seq<char>) -> bool {
    trimmed(s).len() == 0
}

/// The time that a cell's text holds, in seconds since midnight; text that
/// does not read as a time gives midnight, which also stands for "unset".
pub open spec fn time_of(s: Seq<char>) -> int {
    match clock_of(trimmed(s)) {
        Some(v) => v as int,
        None => 0,
    }
}

/// A time that a cell can hold: a whole minute of one day.
pub open spec fn is_clock(t: int) -> bool {
    0 <= t < DAY_SECS && t % 60 == 0
}

/// The compact written form: `HHMM`, or nothing for midnight.
pub open spec fn compact_text(t: int) -> Seq<char> {
    if t == 0 {
        Seq::empty()
    } else {
        hhmm(t)
    }
}

/// The spaced written form: `HH : MM`, or nothing for midnight.
pub open spec fn display_text(t: int) -> Seq<char> {
    if t == 0 {
        Seq::empty()
    } else {
        hh_mm(t)
    }
}

/// Relies on `str::trim`: the result depends on the text alone, empty text
/// stays empty, and digits are not white space.
#[verifier::external_body]
fn trim_text(s: &str) -> (r: &str)
    ensures
        r@ == trimmed(s@),
        s@.len() == 0 ==> r@.len() == 0,
        all_digits(s@) ==> r@ == s@,
{
    s.trim()
}

/// Relies on chrono's `NaiveTime::parse_from_str` with the layout `%H%M`:
/// the result depends on the text alone; empty text is refused; four digits
/// naming an hour below 24 and a minute below 60 read as that time; the
/// seconds of a time read this way are zero.
#[verifier::external_body]
fn read_clock(s: &str) -> (r: Option<u32>)
    ensures
        r == clock_of(s@),
        s@.len() == 0 ==> r is None,
        is_hhmm(s@) ==> r == Some(hhmm_value(s@) as u32),
        r matches Some(v) ==> is_clock(v as int),
{
    match NaiveTime::parse_from_str(s, "%H%M") {
        Ok(t) => Some(t.num_seconds_from_midnight()),
        Err(_) => None,
    }
}

/// Relies on chrono's `NaiveTime::from_num_seconds_from_midnight_opt` and
/// `NaiveTime::format`: `%H` and `%M` write the hour and the minute with two
/// digits each, and the other characters of the layout stand as they are.
#[verifier::external_body]
pub(crate) fn clock_text(t: u32, layout: &str) -> (r: String)
    requires
        t < DAY_SECS,
        layout@ == "%H%M"@ || layout@ == "%H : %M"@,
    ensures
        layout@ == "%H%M"@ ==> r@ == hhmm(t as int),
        layout@ == "%H : %M"@ ==> r@ == hh_mm(t as int),
{
    NaiveTime::from_num_seconds_from_midnight_opt(t, 0).unwrap_or_default().format(layout).to_string()
}

/// Whether a cell's text holds nothing but white space.
pub fn blank(text: &str) -> (r: bool)
    ensures
        r == is_blank(text@),
{
    trim_text(text).unicode_len() == 0
}

/// Reads a cell's text as seconds since midnight. Surrounding white space is
/// ignored; text that is not a time reads as midnight, as does empty text.
pub fn parse(text: &str) -> (r: u32)
    ensures
        r == time_of(text@),
        is_clock(r as int),
        clock_of(trimmed(text@)) is None ==> r == 0,
        text@.len() == 0 ==> r == 0,
        is_hhmm(text@) ==> r == hhmm_value(text@),
        is_blank(text@) ==> r == 0,
{
    match read_clock(trim_text(text)) {
        Some(v) => v,
        None => 0,
    }
}

/// Writes a time in the compact form `HHMM`; midnight gives empty text.
pub fn format_compact(t: u32) -> (r: String)
    requires
        t < DAY_SECS,
    ensures
        r@ == compact_text(t as int),
{
    if t == 0 {
        String::new()
    } else {
        clock_text(t, "%H%M")
    }
}

/// Writes a time in the spaced form `HH : MM`; midnight gives empty text.
pub fn format_display(t: u32) -> (r: String)
    requires
        t < DAY_SECS,
    ensures
        r@ == display_text(t as int),
{
    if t == 0 {
        String::new()
    } else {
        clock_text(t, "%H : %M")
    }
}

/// Re-writes a cell's text in the compact form: `HHMM` for the time it reads
/// as, or nothing where it reads as midnight. Reading the result gives the
/// same time again.
pub fn normalize(text: &str) -> (r: String)
    ensures
        r@ == compact_text(time_of(text@)),
        time_of(r@) == time_of(text@),
        is_blank(r@) <==> time_of(text@) == 0,
{
    let t = parse(text);
    let r = format_compact(t);
    proof {
        if t != 0 {
            lemma_hhmm_reads_back(t as int);
        }
    }
    // Reading the written form back, which is what ties it to `t`: chrono's
    // reading of the text is known only where it has been called.
    let again = read_clock(trim_text(r.as_str()));
    assert(t == 0 ==> again is None);
    assert(t != 0 ==> again == Some(t));
    r
}

/// Midnight, which also stands for "unset", is written as nothing in both
/// forms.
pub proof fn lemma_midnight_writes_nothing()
    ensures
        compact_text(0) == Seq::<char>::empty(),
        display_text(0) == Seq::<char>::empty(),
{
}

proof fn lemma_digit(k: int)
    requires
        0 <= k < 10,
    ensures
        '0' <= digit_char(k) <= '9',
        digit_char(k) as int - '0' as int == k,
{
    let d = seq!['0', '1', '2', '3', '4', '5', '6', '7', '8', '9'];
    assert(d[k] as int - '0' as int == k) by {
        if k == 0 {
        } else if k == 1 {
        } else if k == 2 {
        } else if k == 3 {
        } else if k == 4 {
        } else if k == 5 {
        } else if k == 6 {
        } else if k == 7 {
        } else if k == 8 {
        } else {
        }
    }
}

/// The compact form of a whole minute reads back as that minute.
pub proof fn lemma_hhmm_reads_back(t: int)
    requires
        is_clock(t),
    ensures
        is_hhmm(hhmm(t)),
        hhmm_value(hhmm(t)) == t,
        all_digits(hhmm(t)),
{
    let h = hour_of(t);
    let m = minute_of(t);
    assert(0 <= h < 24 && 0 <= m < 60);
    lemma_digit(h / 10);
    lemma_digit(h % 10);
    lemma_digit(m / 10);
    lemma_digit(m % 10);
    let s = hhmm(t);
    assert(s[0] == digit_char(h / 10) && s[1] == digit_char(h % 10));
    assert(s[2] == digit_char(m / 10) && s[3] == digit_char(m % 10));
    assert(h * 3600 + m * 60 == t);
}

} // verus!
