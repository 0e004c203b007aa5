//! The week as a grid of cells: five weekdays by four punches, and the sums
//! of worked time over it.

use crate::clock::{blank, is_blank, is_clock, parse, time_of, DAY_SECS};
use vstd::prelude::*;

verus! {

/// Number of weekdays in the grid.
pub const DAYS: usize = 5;

/// Number of cells in the grid.
pub const CELLS: usize = 20;

/// A weekday of the grid.
#[derive(Clone, Copy, Debug, PartialEq, Eq, Structural)]
pub enum Day {
    Monday,
    Tuesday,
    Wednesday,
    Thursday,
    Friday,
}

/// One of the four punches of a day.
#[derive(Clone, Copy, Debug, PartialEq, Eq, Structural)]
pub enum Slot {
    MorningIn,
    MorningOut,
    AfternoonIn,
    AfternoonOut,
}

impl Day {
    pub open spec fn spec_index(self) -> int {
        match self {
            Day::Monday => 0,
            Day::Tuesday => 1,
            Day::Wednesday => 2,
            Day::Thursday => 3,
            Day::Friday => 4,
        }
    }

    /// The day's position in the week, Monday first.
    pub fn index(self) -> (r: usize)
        ensures
            r == self.spec_index(),
            r < DAYS,
    {
        match self {
            Day::Monday => 0,
            Day::Tuesday => 1,
            Day::Wednesday => 2,
            Day::Thursday => 3,
            Day::Friday => 4,
        }
    }
}

impl Slot {
    pub open spec fn spec_index(self) -> int {
        match self {
            Slot::MorningIn => 0,
            Slot::MorningOut => 1,
            Slot::AfternoonIn => 2,
            Slot::AfternoonOut => 3,
        }
    }

    /// The punch's position within its day.
    pub fn index(self) -> (r: usize)
        ensures
            r == self.spec_index(),
            r < 4,
    {
        match self {
            Slot::MorningIn => 0,
            Slot::MorningOut => 1,
            Slot::AfternoonIn => 2,
            Slot::AfternoonOut => 3,
        }
    }
}

/// Where the cell of a day and a punch stands in the grid: the punches of
/// one kind lie together, five cells to a punch.
pub open spec fn spec_cell_index(day: Day, slot: Slot) -> int {
    day.spec_index() + 5 * slot.spec_index()
}

/// The position of a day's punch in the grid.
pub fn cell_index(day: Day, slot: Slot) -> (r: usize)
    ensures
        r == spec_cell_index(day, slot),
        r < CELLS,
        r % 5 == day.spec_index(),
{
    day.index() + 5 * slot.index()
}

/// The texts of a vector of strings.
pub open spec fn texts(v: Seq<String>) -> Seq<Seq<char>> {
    v.map_values(|s: String| s@)
}

/// The seconds between two punches: counted only where the first is set and
/// the second comes after it.
pub open spec fn pair_secs(start: int, end: int) -> int {
    if end - start > 0 && start != 0 {
        end - start
    } else {
        0
    }
}

/// The afternoon time of day `d`.
pub open spec fn afternoon_worked(c: Seq<Seq<char>>, d: int) -> int {
    pair_secs(time_of(c[d + 10]), time_of(c[d + 15]))
}

/// The time worked on day `d`: its morning and its afternoon.
pub open spec fn day_worked(c: Seq<Seq<char>>, d: int) -> int {
    pair_secs(time_of(c[d]), time_of(c[d + 5])) + afternoon_worked(c, d)
}

/// All four punches of day `d` are blank.
pub open spec fn day_blank(c: Seq<Seq<char>>, d: int) -> bool {
    &&& is_blank(c[d])
    &&& is_blank(c[d + 5])
    &&& is_blank(c[d + 10])
    &&& is_blank(c[d + 15])
}

/// What day `d` counts for: a day with no punch counts as the daily target,
/// any other its time worked.
pub open spec fn day_credit(c: Seq<Seq<char>>, d: int, daily: int) -> int {
    if day_blank(c, d) {
        daily
    } else {
        day_worked(c, d)
    }
}

/// What the first `n` days count for together.
pub open spec fn week_credit(c: Seq<Seq<char>>, daily: int, n: nat) -> int
    decreases n,
{
    if n == 0 {
        0
    } else {
        week_credit(c, daily, (n - 1) as nat) + day_credit(c, n - 1, daily)
    }
}

/// The afternoon time of the first `n` days together.
pub open spec fn afternoon_sum(c: Seq<Seq<char>>, n: nat) -> int
    decreases n,
{
    if n == 0 {
        0
    } else {
        afternoon_sum(c, (n - 1) as nat) + afternoon_worked(c, n - 1)
    }
}

/// The time of each cell of a grid, and whether it is blank.
pub(crate) struct Readings {
    pub(crate) times: Vec<u32>,
    pub(crate) blanks: Vec<bool>,
    pub(crate) grid: Ghost<Seq<Seq<char>>>,
}

impl Readings {
    pub(crate) open spec fn wf(&self) -> bool {
        let c = self.grid@;
        &&& c.len() == CELLS
        &&& self.times.len() == CELLS
        &&& self.blanks.len() == CELLS
        &&& forall|i: int|
            #![trigger self.times@[i]]
            #![trigger self.blanks@[i]]
            0 <= i < CELLS ==> {
                &&& self.times@[i] == time_of(c[i])
                &&& is_clock(self.times@[i] as int)
                &&& self.blanks@[i] == is_blank(c[i])
                &&& self.blanks@[i] ==> self.times@[i] == 0
            }
    }
}

/// Reads every cell of the grid once.
pub(crate) fn read_cells(cells: &Vec<String>) -> (r: Readings)
    requires
        cells.len() == CELLS,
    ensures
        r.wf(),
        r.grid@ == texts(cells@),
{
    let mut times: Vec<u32> = Vec::new();
    let mut blanks: Vec<bool> = Vec::new();
    let mut i: usize = 0;
    while i < CELLS
        invariant
            i <= CELLS,
            cells.len() == CELLS,
            times.len() == i,
            blanks.len() == i,
            forall|j: int|
                #![trigger times@[j]]
                #![trigger blanks@[j]]
                0 <= j < i ==> {
                    &&& times@[j] == time_of(cells@[j]@)
                    &&& is_clock(times@[j] as int)
                    &&& blanks@[j] == is_blank(cells@[j]@)
                    &&& blanks@[j] ==> times@[j] == 0
                },
        decreases CELLS - i,
    {
        let text = cells[i].as_str();
        times.push(parse(text));
        blanks.push(blank(text));
        i += 1;
    }
    Readings { times, blanks, grid: Ghost(texts(cells@)) }
}

/// The seconds between two punches, as `pair_secs` counts them.
pub fn pair_seconds(start: u32, end: u32) -> (r: i64)
    requires
        start < DAY_SECS,
        end < DAY_SECS,
    ensures
        r == pair_secs(start as int, end as int),
        0 <= r < DAY_SECS,
{
    if end > start && start != 0 {
        (end - start) as i64
    } else {
        0
    }
}

impl Readings {
    /// The afternoon time of day `d`.
    pub(crate) fn afternoon(&self, d: usize) -> (r: i64)
        requires
            self.wf(),
            d < DAYS,
        ensures
            r == afternoon_worked(self.grid@, d as int),
            0 <= r < DAY_SECS,
    {
        pair_seconds(self.times[d + 10], self.times[d + 15])
    }

    /// The time worked on day `d`.
    pub(crate) fn worked(&self, d: usize) -> (r: i64)
        requires
            self.wf(),
            d < DAYS,
        ensures
            r == day_worked(self.grid@, d as int),
            0 <= r < 2 * DAY_SECS,
    {
        pair_seconds(self.times[d], self.times[d + 5]) + self.afternoon(d)
    }

    /// Whether day `d` has no punch.
    pub(crate) fn is_blank_day(&self, d: usize) -> (r: bool)
        requires
            self.wf(),
            d < DAYS,
        ensures
            r == day_blank(self.grid@, d as int),
            r ==> day_worked(self.grid@, d as int) == 0,
    {
        self.blanks[d] && self.blanks[d + 5] && self.blanks[d + 10] && self.blanks[d + 15]
    }

    /// What day `d` counts for, given the daily target.
    pub(crate) fn credit(&self, d: usize, daily: u32) -> (r: i64)
        requires
            self.wf(),
            d < DAYS,
            daily < DAY_SECS,
        ensures
            r == day_credit(self.grid@, d as int, daily as int),
            0 <= r < 2 * DAY_SECS,
    {
        if self.is_blank_day(d) {
            daily as i64
        } else {
            self.worked(d)
        }
    }

    /// What the whole week counts for, given the daily target.
    pub(crate) fn week_total(&self, daily: u32) -> (r: i64)
        requires
            self.wf(),
            daily < DAY_SECS,
        ensures
            r == week_credit(self.grid@, daily as int, DAYS as nat),
            0 <= r <= 864000,
    {
        let mut total: i64 = 0;
        let mut d: usize = 0;
        while d < DAYS
            invariant
                self.wf(),
                daily < DAY_SECS,
                d <= DAYS,
                total == week_credit(self.grid@, daily as int, d as nat),
                0 <= total <= 172800 * d,
            decreases DAYS - d,
        {
            total = total + self.credit(d, daily);
            d += 1;
        }
        total
    }

    /// The afternoon time of the whole week.
    pub(crate) fn afternoon_total(&self) -> (r: i64)
        requires
            self.wf(),
        ensures
            r == afternoon_sum(self.grid@, DAYS as nat),
            0 <= r <= 432000,
    {
        let mut total: i64 = 0;
        let mut d: usize = 0;
        while d < DAYS
            invariant
                self.wf(),
                d <= DAYS,
                total == afternoon_sum(self.grid@, d as nat),
                0 <= total <= 86400 * d,
            decreases DAYS - d,
        {
            total = total + self.afternoon(d);
            d += 1;
        }
        total
    }
}

} // verus!
