//! The balance of a week against its target, and the line of text that
//! reports it.

use crate::clock::{clock_text, hh_mm, DAY_SECS};
use vstd::prelude::*;

verus! {

/// Where the week stands against its target.
#[derive(Clone, Copy, Debug, PartialEq, Eq, Structural)]
pub enum Category {
    /// The week lands exactly on the target.
    Neutral,
    /// The week falls short of the target.
    Deficit,
    /// The week goes beyond the target.
    Surplus,
}

/// The category of a weekly total against a target.
pub open spec fn category_of(total: int, target: int) -> Category {
    if total == target {
        Category::Neutral
    } else if total < target {
        Category::Deficit
    } else {
        Category::Surplus
    }
}

/// The figures of one balance computation.
#[derive(Clone, Copy, Debug, PartialEq, Eq, Structural)]
pub struct Balance {
    /// The weekday the cursor is on, Monday being zero.
    pub day: usize,
    /// The time worked on that day, in seconds.
    pub worked: i64,
    /// The time the week counts for, in seconds.
    pub total: i64,
    /// The weekly target, in seconds.
    pub target: i64,
    /// The afternoon time of the week, in seconds.
    pub afternoons: i64,
    /// The afternoon time the week requires, in seconds.
    pub threshold: i64,
    /// The time to recover this week, in seconds.
    pub recovery: i64,
}

/// The largest weekly total a balance can report.
pub const MAX_TOTAL: i64 = 1000000;

impl Balance {
    /// Figures that a grid can give: a weekday, times of day for the
    /// settings, and totals within a few days.
    pub open spec fn wf(&self) -> bool {
        &&& self.day < 5
        &&& 0 <= self.target <= 6 * DAY_SECS
        &&& 0 <= self.total <= MAX_TOTAL
        &&& -MAX_TOTAL <= self.worked <= MAX_TOTAL
        &&& 0 <= self.afternoons <= MAX_TOTAL
        &&& 0 <= self.threshold < DAY_SECS
        &&& 0 <= self.recovery < DAY_SECS
    }

    pub open spec fn spec_category(&self) -> Category {
        category_of(self.total as int, self.target as int)
    }

    /// Where the total stands against the target.
    pub fn category(&self) -> (r: Category)
        ensures
            r == self.spec_category(),
    {
        if self.total == self.target {
            Category::Neutral
        } else if self.total < self.target {
            Category::Deficit
        } else {
            Category::Surplus
        }
    }

    /// The week's afternoons fall short of the time they require.
    pub fn afternoons_short(&self) -> (r: bool)
        ensures
            r == (self.threshold > self.afternoons),
    {
        self.threshold > self.afternoons
    }

    /// There is time to recover this week.
    pub fn recovery_pending(&self) -> (r: bool)
        ensures
            r == (self.recovery > 0),
    {
        self.recovery > 0
    }
}

/// The name of a weekday, Monday being zero.
pub open spec fn day_name(d: int) -> Seq<char> {
    if d == 0 {
        seq!['L', 'u', 'n', 'e', 's']
    } else if d == 1 {
        seq!['M', 'a', 'r', 't', 'e', 's']
    } else if d == 2 {
        seq!['M', 'i', '\u{e9}', 'r', 'c', 'o', 'l', 'e', 's']
    } else if d == 3 {
        seq!['J', 'u', 'e', 'v', 'e', 's']
    } else {
        seq!['V', 'i', 'e', 'r', 'n', 'e', 's']
    }
}

/// The mark that stands for a category.
pub open spec fn marker(c: Category) -> char {
    match c {
        Category::Neutral => '\u{26f6}',
        Category::Deficit => '\u{2796}',
        Category::Surplus => '\u{2795}',
    }
}

/// A natural number in decimal digits, without leading zeros.
pub open spec fn decimal(n: nat) -> Seq<char>
    decreases n,
{
    if n < 10 {
        seq![crate::clock::digit_char(n as int)]
    } else {
        decimal(n / 10).push(crate::clock::digit_char((n % 10) as int))
    }
}

/// `Hh  Mm`.
pub open spec fn hours_minutes(h: nat, m: nat) -> Seq<char> {
    decimal(h) + seq!['h', ' ', ' '] + decimal(m) + seq!['m']
}

/// How far the total stands from the target: the whole time for a total on
/// target, with its days counted as hours; otherwise the difference, of
/// which only the hours within a day and the minutes are shown.
pub open spec fn amount_text(total: int, target: int) -> Seq<char> {
    if total == target {
        hours_minutes((total / 3600) as nat, ((total % 3600) / 60) as nat)
    } else {
        let diff = if total < target {
            target - total
        } else {
            total - target
        };
        hours_minutes(((diff % 86400) / 3600) as nat, ((diff % 3600) / 60) as nat)
    }
}

/// A time of day that can be shown: a value outside one day shows as
/// midnight.
pub open spec fn shown(t: int) -> int {
    if 0 <= t < DAY_SECS {
        t
    } else {
        0
    }
}

/// Ten spaces.
pub open spec fn gap() -> Seq<char> {
    Seq::new(10, |i: int| ' ')
}

/// The line that reports a balance: the weekday, the time worked on it, the
/// category's mark and the amount, then a star where the afternoons fall
/// short and a flag where time is to be recovered.
pub open spec fn summary_text(b: Balance) -> Seq<char> {
    let head = day_name(b.day as int) + seq![' ', ' '] + hh_mm(shown(b.worked as int)) + seq![' '];
    let body = head + gap() + seq![marker(b.spec_category())] + gap() + seq!['[', ' ', ' ']
        + amount_text(b.total as int, b.target as int) + seq![' ', ' ', ']'];
    let star = if b.threshold > b.afternoons {
        seq![' ', '\u{2605}']
    } else {
        Seq::empty()
    };
    let flag = if b.recovery > 0 {
        seq![' ', '\u{2691}']
    } else {
        Seq::empty()
    };
    body + star + flag
}

/// Relies on `secfmt::from`: its source takes years of 365 days off the
/// seconds and keeps the days (as a `u8`), hours and minutes of the rest.
#[verifier::external_body]
fn split_secs(s: u64) -> (r: (u8, u8, u8))
    ensures
        r.0 == ((s % 31536000) / 86400) % 256,
        r.1 == (s % 86400) / 3600,
        r.2 == (s % 3600) / 60,
{
    let f = secfmt::from(s);
    (f.days, f.hours, f.minutes)
}

/// The text of one decimal digit.
pub(crate) fn digit_text(k: u64) -> (r: &'static str)
    requires
        k < 10,
    ensures
        r@ == seq![crate::clock::digit_char(k as int)],
{
    let digits = "0123456789";
    proof {
        reveal_strlit("0123456789");
    }
    let r = digits.substring_char(k as usize, k as usize + 1);
    assert(r@ =~= seq![crate::clock::digit_char(k as int)]);
    r
}

/// Appends a number in decimal digits.
pub(crate) fn push_decimal(out: &mut String, n: u64)
    ensures
        final(out)@ == old(out)@ + decimal(n as nat),
    decreases n,
{
    if n < 10 {
        out.append(digit_text(n));
    } else {
        push_decimal(out, n / 10);
        out.append(digit_text(n % 10));
        assert(decimal(n as nat) == decimal((n / 10) as nat).push(
            crate::clock::digit_char((n % 10) as int),
        ));
        assert(out@ =~= old(out)@ + decimal(n as nat));
    }
}

/// The name of a weekday, Monday being zero.
fn day_text(d: usize) -> (r: &'static str)
    requires
        d < 5,
    ensures
        r@ == day_name(d as int),
{
    if d == 0 {
        proof {
            reveal_strlit("Lunes");
        }
        "Lunes"
    } else if d == 1 {
        proof {
            reveal_strlit("Martes");
        }
        "Martes"
    } else if d == 2 {
        proof {
            reveal_strlit("Mi\u{e9}rcoles");
        }
        "Mi\u{e9}rcoles"
    } else if d == 3 {
        proof {
            reveal_strlit("Jueves");
        }
        "Jueves"
    } else {
        proof {
            reveal_strlit("Viernes");
        }
        "Viernes"
    }
}

/// The mark of a category.
fn marker_text(c: Category) -> (r: &'static str)
    ensures
        r@ == seq![marker(c)],
{
    match c {
        Category::Neutral => {
            proof {
                reveal_strlit("\u{26f6}");
            }
            "\u{26f6}"
        },
        Category::Deficit => {
            proof {
                reveal_strlit("\u{2796}");
            }
            "\u{2796}"
        },
        Category::Surplus => {
            proof {
                reveal_strlit("\u{2795}");
            }
            "\u{2795}"
        },
    }
}

/// Appends `Hh  Mm`.
fn push_hours_minutes(out: &mut String, h: u64, m: u64)
    ensures
        final(out)@ == old(out)@ + hours_minutes(h as nat, m as nat),
{
    push_decimal(out, h);
    proof {
        reveal_strlit("h  ");
        reveal_strlit("m");
    }
    out.append("h  ");
    push_decimal(out, m);
    out.append("m");
    assert(out@ =~= old(out)@ + hours_minutes(h as nat, m as nat));
}

proof fn lemma_days_as_hours(s: int)
    requires
        0 <= s,
    ensures
        (s / 86400) * 24 + (s % 86400) / 3600 == s / 3600,
{
    assert((s / 86400) * 24 + (s % 86400) / 3600 == s / 3600) by (nonlinear_arith)
        requires
            0 <= s,
    {
        let d = s / 86400;
        let r = s % 86400;
        assert(s == d * 86400 + r);
        assert(0 <= r < 86400);
        assert(s / 3600 == d * 24 + r / 3600) by {
            assert(s == (d * 24 + r / 3600) * 3600 + r % 3600);
        }
    }
}

/// Appends how far the total stands from the target.
fn push_amount(out: &mut String, total: i64, target: i64)
    requires
        0 <= total <= MAX_TOTAL,
        0 <= target <= 6 * DAY_SECS,
    ensures
        final(out)@ == old(out)@ + amount_text(total as int, target as int),
{
    if total == target {
        let (days, hours, minutes) = split_secs(total as u64);
        proof {
            lemma_days_as_hours(total as int);
        }
        push_hours_minutes(out, days as u64 * 24 + hours as u64, minutes as u64);
    } else {
        let diff: u64 = if total < target {
            (target - total) as u64
        } else {
            (total - target) as u64
        };
        let (_days, hours, minutes) = split_secs(diff);
        push_hours_minutes(out, hours as u64, minutes as u64);
    }
}

impl Balance {
    /// The line that reports this balance.
    pub fn summary(&self) -> (r: String)
        requires
            self.wf(),
        ensures
            r@ == summary_text(*self),
    {
        let mut out = String::from_str(day_text(self.day));
        proof {
            reveal_strlit("  ");
            reveal_strlit(" ");
            reveal_strlit("          ");
            reveal_strlit("[  ");
            reveal_strlit("  ]");
            reveal_strlit(" \u{2605}");
            reveal_strlit(" \u{2691}");
        }
        out.append("  ");
        let worked: u32 = if 0 <= self.worked && self.worked < DAY_SECS as i64 {
            self.worked as u32
        } else {
            0
        };
        let clock = clock_text(worked, "%H : %M");
        out.append(clock.as_str());
        out.append(" ");
        out.append("          ");
        out.append(marker_text(self.category()));
        out.append("          ");
        out.append("[  ");
        push_amount(&mut out, self.total, self.target);
        out.append("  ]");
        let ghost body = out@;
        if self.afternoons_short() {
            out.append(" \u{2605}");
        }
        let ghost starred = out@;
        if self.recovery_pending() {
            out.append(" \u{2691}");
        }
        proof {
            let b = *self;
            let head = day_name(b.day as int) + seq![' ', ' '] + hh_mm(shown(b.worked as int))
                + seq![' '];
            assert(body =~= head + gap() + seq![marker(b.spec_category())] + gap() + seq![
                '[',
                ' ',
                ' ',
            ] + amount_text(b.total as int, b.target as int) + seq![' ', ' ', ']']);
        }
        assert(out@ =~= summary_text(*self));
        out
    }
}

} // verus!
