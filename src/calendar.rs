//! Calendar dates, and the line that names the working week they fall in.

use crate::clock::two_digits;
use crate::saldo::{decimal, digit_text, push_decimal};
use vstd::prelude::*;

verus! {

/// A calendar date: a year, a month from 1 to 12 and a day from 1 to 31.
pub struct CivilDate {
    year: i32,
    month: u32,
    day: u32,
}

/// The numbers of a `CivilDate`.
pub struct CivilDateView {
    pub year: int,
    pub month: int,
    pub day: int,
}

impl View for CivilDate {
    type V = CivilDateView;

    closed spec fn view(&self) -> CivilDateView {
        CivilDateView { year: self.year as int, month: self.month as int, day: self.day as int }
    }
}

impl CivilDate {
    #[verifier::type_invariant]
    spec fn in_range(&self) -> bool {
        &&& 1 <= self.month <= 12
        &&& 1 <= self.day <= 31
    }

    /// The date of the given numbers; `None` where the month is not from 1
    /// to 12 or the day not from 1 to 31.
    pub fn new(year: i32, month: u32, day: u32) -> (r: Option<CivilDate>)
        ensures
            r is Some <==> 1 <= month <= 12 && 1 <= day <= 31,
            r matches Some(d) ==> d@ == (CivilDateView {
                year: year as int,
                month: month as int,
                day: day as int,
            }),
    {
        if 1 <= month && month <= 12 && 1 <= day && day <= 31 {
            Some(CivilDate { year, month, day })
        } else {
            None
        }
    }
}

/// The short Spanish name of month `m`, January being 1.
pub open spec fn month_abbrev(m: int) -> Seq<char>
    recommends
        1 <= m <= 12,
{
    seq![
        seq!['E', 'n', 'e'],
        seq!['F', 'e', 'b'],
        seq!['M', 'a', 'r'],
        seq!['A', 'b', 'r'],
        seq!['M', 'a', 'y'],
        seq!['J', 'u', 'n'],
        seq!['J', 'u', 'l'],
        seq!['A', 'g', 'o'],
        seq!['S', 'e', 'p'],
        seq!['O', 'c', 't'],
        seq!['N', 'o', 'v'],
        seq!['D', 'i', 'c']
    ][m - 1]
}

/// A year in decimal digits, with a minus sign before the years before 0.
pub open spec fn year_text(y: int) -> Seq<char> {
    if y < 0 {
        seq!['-'] + decimal((-y) as nat)
    } else {
        decimal(y as nat)
    }
}

/// `dd Mmm yyyy`.
pub open spec fn date_text(d: CivilDateView) -> Seq<char> {
    two_digits(d.day) + seq![' '] + month_abbrev(d.month) + seq![' '] + year_text(d.year)
}

/// Eight spaces.
pub open spec fn wide_gap() -> Seq<char> {
    Seq::new(8, |i: int| ' ')
}

/// The two dates of a working week with a dot between them.
pub open spec fn week_text(monday: CivilDateView, friday: CivilDateView) -> Seq<char> {
    date_text(monday) + wide_gap() + seq!['\u{2219}'] + wide_gap() + date_text(friday)
}

fn month_text(month: u32) -> (r: &'static str)
    requires
        1 <= month <= 12,
    ensures
        r@ == month_abbrev(month as int),
{
    if month == 1 {
        proof {
            reveal_strlit("Ene");
        }
        "Ene"
    } else if month == 2 {
        proof {
            reveal_strlit("Feb");
        }
        "Feb"
    } else if month == 3 {
        proof {
            reveal_strlit("Mar");
        }
        "Mar"
    } else if month == 4 {
        proof {
            reveal_strlit("Abr");
        }
        "Abr"
    } else if month == 5 {
        proof {
            reveal_strlit("May");
        }
        "May"
    } else if month == 6 {
        proof {
            reveal_strlit("Jun");
        }
        "Jun"
    } else if month == 7 {
        proof {
            reveal_strlit("Jul");
        }
        "Jul"
    } else if month == 8 {
        proof {
            reveal_strlit("Ago");
        }
        "Ago"
    } else if month == 9 {
        proof {
            reveal_strlit("Sep");
        }
        "Sep"
    } else if month == 10 {
        proof {
            reveal_strlit("Oct");
        }
        "Oct"
    } else if month == 11 {
        proof {
            reveal_strlit("Nov");
        }
        "Nov"
    } else {
        proof {
            reveal_strlit("Dic");
        }
        "Dic"
    }
}

fn push_date(out: &mut String, date: &CivilDate)
    ensures
        final(out)@ == old(out)@ + date_text(date@),
{
    proof {
        use_type_invariant(date);
        reveal_strlit(" ");
        reveal_strlit("-");
    }
    out.append(digit_text((date.day / 10) as u64));
    out.append(digit_text((date.day % 10) as u64));
    out.append(" ");
    out.append(month_text(date.month));
    out.append(" ");
    let ghost before_year = out@;
    if date.year < 0 {
        out.append("-");
        push_decimal(out, (-(date.year as i64)) as u64);
    } else {
        push_decimal(out, date.year as u64);
    }
    assert(out@ =~= before_year + year_text(date@.year));
    assert(out@ =~= old(out)@ + date_text(date@));
}

/// The line that names a working week by its Monday and its Friday:
/// `dd Mmm yyyy`, a dot between eight spaces on each side, `dd Mmm yyyy`.
pub fn week_label(monday: &CivilDate, friday: &CivilDate) -> (r: String)
    ensures
        r@ == week_text(monday@, friday@),
{
    let mut out = String::new();
    push_date(&mut out, monday);
    proof {
        reveal_strlit("        \u{2219}        ");
    }
    out.append("        \u{2219}        ");
    push_date(&mut out, friday);
    assert(out@ =~= week_text(monday@, friday@));
    out
}

} // verus!
