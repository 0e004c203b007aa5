//! The timesheet's state: the week's cells, its settings, the cell in focus
//! and the automatic Friday mode; the order check on a day and the balance.

use crate::clock::{
    compact_text, format_compact, is_blank, normalize, parse, time_of, display_text,
    format_display, DAY_SECS,
};
use crate::saldo::{Balance, Category, shown, summary_text};
use crate::week::{
    afternoon_sum, cell_index, day_blank, day_credit, day_worked, read_cells, spec_cell_index, texts,
    week_credit, Day, Slot, CELLS, DAYS,
};
use vstd::prelude::*;

verus! {

/// Number of settings.
pub const SETTINGS: usize = 4;

/// A setting that holds a time.
#[derive(Clone, Copy, Debug, PartialEq, Eq, Structural)]
pub enum Setting {
    /// The time to work each day.
    DailyTarget,
    /// The afternoon time the week requires.
    AfternoonThreshold,
    /// The time to recover this week, on top of the daily targets.
    Recovery,
}

impl Setting {
    pub open spec fn spec_index(self) -> int {
        match self {
            Setting::DailyTarget => 0,
            Setting::AfternoonThreshold => 1,
            Setting::Recovery => 2,
        }
    }

    /// The setting's position among the settings.
    pub fn index(self) -> (r: usize)
        ensures
            r == self.spec_index(),
            r < SETTINGS,
    {
        match self {
            Setting::DailyTarget => 0,
            Setting::AfternoonThreshold => 1,
            Setting::Recovery => 2,
        }
    }
}

/// What is kept of the timesheet between runs: the texts of the twenty
/// cells and of the four settings, the last of which is the automatic flag
/// written as `true` or `false`.
pub struct Datos {
    fichajes: Vec<String>,
    config: Vec<String>,
}

/// The texts that a `Datos` holds.
pub struct DatosView {
    pub cells: Seq<Seq<char>>,
    pub config: Seq<Seq<char>>,
}

impl View for Datos {
    type V = DatosView;

    closed spec fn view(&self) -> DatosView {
        DatosView { cells: texts(self.fichajes@), config: texts(self.config@) }
    }
}

impl Datos {
    #[verifier::type_invariant]
    spec fn shaped(&self) -> bool {
        &&& self.fichajes.len() == CELLS
        &&& self.config.len() == SETTINGS
    }

    /// Builds the data from its texts; `None` unless there are twenty cells
    /// and four settings.
    pub fn from_parts(fichajes: Vec<String>, config: Vec<String>) -> (r: Option<Datos>)
        ensures
            r is Some <==> fichajes.len() == CELLS && config.len() == SETTINGS,
            r matches Some(d) ==> d@.cells == texts(fichajes@) && d@.config == texts(config@),
    {
        if fichajes.len() == CELLS && config.len() == SETTINGS {
            Some(Datos { fichajes, config })
        } else {
            None
        }
    }

    /// The texts of the twenty cells, Monday's morning entry first and the
    /// punches of one kind together.
    pub fn fichajes(&self) -> (r: &Vec<String>)
        ensures
            texts(r@) == self@.cells,
            r.len() == CELLS,
    {
        proof {
            use_type_invariant(self);
        }
        &self.fichajes
    }

    /// The texts of the four settings.
    pub fn config(&self) -> (r: &Vec<String>)
        ensures
            texts(r@) == self@.config,
            r.len() == SETTINGS,
    {
        proof {
            use_type_invariant(self);
        }
        &self.config
    }

    /// The text of one cell.
    pub fn cell(&self, day: Day, slot: Slot) -> (r: &str)
        ensures
            r@ == self@.cells[spec_cell_index(day, slot)],
    {
        proof {
            use_type_invariant(self);
        }
        self.fichajes[cell_index(day, slot)].as_str()
    }

    /// The text of one setting.
    pub fn setting(&self, setting: Setting) -> (r: &str)
        ensures
            r@ == self@.config[setting.spec_index()],
    {
        proof {
            use_type_invariant(self);
        }
        self.config[setting.index()].as_str()
    }
}

/// The text `true`.
pub open spec fn true_text() -> Seq<char> {
    seq!['t', 'r', 'u', 'e']
}

/// The text `false`.
pub open spec fn false_text() -> Seq<char> {
    seq!['f', 'a', 'l', 's', 'e']
}

/// Twenty empty strings.
fn blank_cells() -> (r: Vec<String>)
    ensures
        r.len() == CELLS,
        forall|i: int| 0 <= i < CELLS ==> (#[trigger] r@[i])@ == Seq::<char>::empty(),
{
    let mut cells: Vec<String> = Vec::new();
    let mut i: usize = 0;
    while i < CELLS
        invariant
            i <= CELLS,
            cells.len() == i,
            forall|j: int| 0 <= j < i ==> (#[trigger] cells@[j])@ == Seq::<char>::empty(),
        decreases CELLS - i,
    {
        cells.push(String::new());
        i += 1;
    }
    cells
}

impl Default for Datos {
    /// Blank cells, a daily target of seven and a half hours, no afternoon
    /// requirement, nothing to recover and the automatic mode off.
    fn default() -> (r: Datos)
        ensures
            r@.cells.len() == CELLS,
            forall|i: int| 0 <= i < CELLS ==> (#[trigger] r@.cells[i]) == Seq::<char>::empty(),
            r@.config == seq![
                seq!['0', '7', '3', '0'],
                Seq::<char>::empty(),
                Seq::<char>::empty(),
                false_text(),
            ],
    {
        let fichajes = blank_cells();
        let mut config: Vec<String> = Vec::new();
        proof {
            reveal_strlit("0730");
            reveal_strlit("false");
        }
        config.push(String::from_str("0730"));
        config.push(String::new());
        config.push(String::new());
        config.push(String::from_str("false"));
        assert(config@[0]@ =~= seq!['0', '7', '3', '0']);
        assert(config@[3]@ =~= false_text());
        let r = Datos { fichajes, config };
        assert(r@.cells.len() == CELLS);
        assert(r@.config =~= seq![
            seq!['0', '7', '3', '0'],
            Seq::<char>::empty(),
            Seq::<char>::empty(),
            false_text(),
        ]);
        r
    }
}

/// The timesheet: its data, the cell in focus and whether Friday's exit is
/// worked out automatically.
pub struct Horario {
    datos: Datos,
    x: usize,
    check: bool,
}

/// What a `Horario` holds: the cell texts, the setting texts, the position
/// of the cell in focus and the automatic mode.
pub struct HorarioView {
    pub cells: Seq<Seq<char>>,
    pub config: Seq<Seq<char>>,
    pub cursor: int,
    pub automatic: bool,
}

impl View for Horario {
    type V = HorarioView;

    closed spec fn view(&self) -> HorarioView {
        HorarioView {
            cells: self.datos@.cells,
            config: self.datos@.config,
            cursor: self.x as int,
            automatic: self.check,
        }
    }
}

/// Index of Friday's morning entry.
pub const FRIDAY_IN: usize = 4;

/// Index of Friday's afternoon entry.
pub const FRIDAY_AFTERNOON_IN: usize = 14;

/// Index of Friday's afternoon exit, where the automatic mode writes the
/// exit time it works out.
pub const FRIDAY_OUT: usize = 19;

/// The punches of day `d` run backwards somewhere: an entry after its exit,
/// or the morning's exit after the afternoon's entry. A blank later punch
/// never counts as out of order.
pub open spec fn out_of_order(c: Seq<Seq<char>>, d: int) -> bool {
    let t1 = time_of(c[d]);
    let t2 = time_of(c[d + 5]);
    let t3 = time_of(c[d + 10]);
    let t4 = time_of(c[d + 15]);
    (t1 > t2 && t2 != 0) || (t3 > t4 && t4 != 0) || (t2 > t3 && t3 != 0)
}

/// The cells after the order check of the cell at `cursor`: where its day
/// runs backwards that cell is emptied.
pub open spec fn checked_cells(c: Seq<Seq<char>>, cursor: int) -> Seq<Seq<char>> {
    if out_of_order(c, cursor % 5) {
        c.update(cursor, Seq::empty())
    } else {
        c
    }
}

/// The daily target of the settings.
pub open spec fn daily_of(cfg: Seq<Seq<char>>) -> int {
    time_of(cfg[0])
}

/// The weekly target: five daily targets and the time to recover.
pub open spec fn target_of(cfg: Seq<Seq<char>>) -> int {
    5 * time_of(cfg[0]) + time_of(cfg[2])
}

/// The automatic mode works out Friday's exit: it is on and Friday's
/// morning entry is set.
pub open spec fn projects(c: Seq<Seq<char>>, automatic: bool) -> bool {
    automatic && !is_blank(c[4])
}

/// The Friday exit that puts the week exactly on target, in seconds from
/// Friday's midnight.
pub open spec fn exit_of(c: Seq<Seq<char>>, cfg: Seq<Seq<char>>) -> int {
    time_of(c[4]) + (target_of(cfg) - week_credit(c, daily_of(cfg), 5) + day_worked(c, 4))
}

/// A time past the end of the day taken back by one day, once.
pub open spec fn wrap_day(t: int) -> int {
    if t > DAY_SECS {
        t - DAY_SECS
    } else {
        t
    }
}

/// The cells after a balance computation: in automatic mode Friday's
/// afternoon is replaced by the worked-out exit, or its exit emptied where
/// Friday has no entry.
pub open spec fn cells_after(c: Seq<Seq<char>>, cfg: Seq<Seq<char>>, automatic: bool) -> Seq<
    Seq<char>,
> {
    if projects(c, automatic) {
        c.update(14, Seq::empty()).update(19, compact_text(shown(wrap_day(exit_of(c, cfg)))))
    } else if automatic {
        c.update(19, Seq::empty())
    } else {
        c
    }
}

/// The figures of a balance computation on cells `c`, settings `cfg`, the
/// cell in focus `cursor` and the automatic mode.
pub open spec fn balance_of(
    c: Seq<Seq<char>>,
    cfg: Seq<Seq<char>>,
    cursor: int,
    automatic: bool,
) -> Balance {
    let day = cursor % 5;
    let worked = if projects(c, automatic) && day == 4 {
        exit_of(c, cfg) - time_of(c[4])
    } else {
        day_credit(c, day, daily_of(cfg))
    };
    let total = if projects(c, automatic) {
        target_of(cfg)
    } else {
        week_credit(c, daily_of(cfg), 5)
    };
    Balance {
        day: day as usize,
        worked: worked as i64,
        total: total as i64,
        target: target_of(cfg) as i64,
        afternoons: afternoon_sum(c, 5) as i64,
        threshold: time_of(cfg[1]) as i64,
        recovery: time_of(cfg[2]) as i64,
    }
}

/// What the days other than `skip` among the first `n` count for together.
pub open spec fn credit_without(c: Seq<Seq<char>>, daily: int, n: nat, skip: int) -> int
    decreases n,
{
    if n == 0 {
        0
    } else {
        credit_without(c, daily, (n - 1) as nat, skip) + if n - 1 == skip {
            0
        } else {
            day_credit(c, n - 1, daily)
        }
    }
}

proof fn lemma_week_credit_split(c: Seq<Seq<char>>, daily: int, n: nat, skip: int)
    requires
        0 <= skip < n,
    ensures
        week_credit(c, daily, n) == credit_without(c, daily, n, skip) + day_credit(c, skip, daily),
    decreases n,
{
    if n - 1 != skip {
        lemma_week_credit_split(c, daily, (n - 1) as nat, skip);
    } else {
        lemma_credit_without_skipped(c, daily, (n - 1) as nat, skip);
    }
}

proof fn lemma_credit_without_skipped(c: Seq<Seq<char>>, daily: int, n: nat, skip: int)
    requires
        skip >= n,
    ensures
        credit_without(c, daily, n, skip) == week_credit(c, daily, n),
    decreases n,
{
    if n > 0 {
        lemma_credit_without_skipped(c, daily, (n - 1) as nat, skip);
    }
}

/// A day with no punch counts as exactly the daily target: as the time
/// worked on the day in focus (unless it is Friday with its exit worked out),
/// and within the week's total, beside what the other days count for.
pub proof fn lemma_blank_day_counts_as_target(
    c: Seq<Seq<char>>,
    cfg: Seq<Seq<char>>,
    cursor: int,
    automatic: bool,
)
    requires
        c.len() == CELLS,
        cfg.len() == SETTINGS,
        0 <= cursor < CELLS,
        day_blank(c, cursor % 5),
        !(projects(c, automatic) && cursor % 5 == 4),
    ensures
        day_credit(c, cursor % 5, daily_of(cfg)) == daily_of(cfg),
        balance_of(c, cfg, cursor, automatic).worked == daily_of(cfg),
        week_credit(c, daily_of(cfg), 5) == credit_without(c, daily_of(cfg), 5, cursor % 5)
            + daily_of(cfg),
{
    lemma_week_credit_split(c, daily_of(cfg), 5, cursor % 5);
    assert(daily_of(cfg) <= u32::MAX);
}

/// With Friday's exit worked out, the week's total is its target: the
/// balance is neutral whatever the cells hold.
pub proof fn lemma_projection_lands_on_target(
    c: Seq<Seq<char>>,
    cfg: Seq<Seq<char>>,
    cursor: int,
)
    requires
        c.len() == CELLS,
        cfg.len() == SETTINGS,
        projects(c, true),
    ensures
        balance_of(c, cfg, cursor, true).total == balance_of(c, cfg, cursor, true).target,
        balance_of(c, cfg, cursor, true).spec_category() == Category::Neutral,
{
}

proof fn lemma_afternoon_sum_bounds(c: Seq<Seq<char>>, n: nat)
    ensures
        0 <= afternoon_sum(c, n) <= n * 0x1_0000_0000,
    decreases n,
{
    if n > 0 {
        lemma_afternoon_sum_bounds(c, (n - 1) as nat);
    }
}

/// The afternoon flag is up exactly when the afternoon requirement reads as
/// a time other than midnight and exceeds the afternoon time of the week.
pub proof fn lemma_afternoon_flag(
    c: Seq<Seq<char>>,
    cfg: Seq<Seq<char>>,
    cursor: int,
    automatic: bool,
)
    requires
        c.len() == CELLS,
        cfg.len() == SETTINGS,
    ensures
        ({
            let b = balance_of(c, cfg, cursor, automatic);
            b.threshold > b.afternoons <==> (time_of(cfg[1]) != 0 && time_of(cfg[1])
                > afternoon_sum(c, 5))
        }),
{
    lemma_afternoon_sum_bounds(c, 5);
}

/// A worked-out Friday exit between one and two days past midnight is
/// written one day earlier: exactly one day is taken off, once.
pub proof fn lemma_exit_wraps_once(c: Seq<Seq<char>>, cfg: Seq<Seq<char>>)
    requires
        c.len() == CELLS,
        cfg.len() == SETTINGS,
        projects(c, true),
        DAY_SECS < exit_of(c, cfg) < 2 * DAY_SECS,
    ensures
        cells_after(c, cfg, true)[19] == compact_text(exit_of(c, cfg) - DAY_SECS),
        0 < exit_of(c, cfg) - DAY_SECS < DAY_SECS,
{
}

impl Horario {
    #[verifier::type_invariant]
    spec fn focused(&self) -> bool {
        self.x < CELLS
    }

    /// The timesheet as stored data leaves it, with the focus on the first
    /// cell; the automatic mode is on where the stored flag reads `true`.
    pub fn restore(datos: Datos) -> (r: Horario)
        ensures
            r@.cells == datos@.cells,
            r@.config == datos@.config,
            r@.cursor == 0,
            r@.automatic == (datos@.config[3] == true_text()),
    {
        proof {
            use_type_invariant(&datos);
            reveal_strlit("true");
        }
        let flag = String::from_str("true");
        let check = datos.config[3] == flag;
        assert(flag@ =~= true_text());
        Horario { datos, x: 0, check }
    }

    /// The data to store: the automatic flag is written into the last
    /// setting first.
    pub fn save(&mut self) -> (r: &Datos)
        ensures
            final(self)@.cells == old(self)@.cells,
            final(self)@.config == old(self)@.config.update(
                3,
                if old(self)@.automatic {
                    true_text()
                } else {
                    false_text()
                },
            ),
            final(self)@.cursor == old(self)@.cursor,
            final(self)@.automatic == old(self)@.automatic,
            r@ == (DatosView { cells: final(self)@.cells, config: final(self)@.config }),
    {
        proof {
            use_type_invariant(&*self);
            use_type_invariant(&self.datos);
            reveal_strlit("true");
            reveal_strlit("false");
        }
        let flag = if self.check {
            String::from_str("true")
        } else {
            String::from_str("false")
        };
        assert(flag@ =~= if self.check { true_text() } else { false_text() });
        self.datos.config[3] = flag;
        assert(self@.config =~= old(self)@.config.update(
            3,
            if old(self)@.automatic { true_text() } else { false_text() },
        ));
        &self.datos
    }

    /// The order check on the day of the cell in focus: where that day's
    /// punches run backwards, the cell in focus is emptied.
    pub fn check_fichaje(&mut self)
        ensures
            final(self)@.cells == checked_cells(old(self)@.cells, old(self)@.cursor),
            final(self)@.config == old(self)@.config,
            final(self)@.cursor == old(self)@.cursor,
            final(self)@.automatic == old(self)@.automatic,
    {
        proof {
            use_type_invariant(&*self);
            use_type_invariant(&self.datos);
        }
        let i = self.x;
        let d = i % 5;
        let t1 = parse(self.datos.fichajes[d].as_str());
        let t2 = parse(self.datos.fichajes[d + 5].as_str());
        let t3 = parse(self.datos.fichajes[d + 10].as_str());
        let t4 = parse(self.datos.fichajes[d + 15].as_str());
        if t1 > t2 && t2 != 0 || t3 > t4 && t4 != 0 || t2 > t3 && t3 != 0 {
            self.datos.fichajes[i] = String::new();
            assert(self@.cells =~= old(self)@.cells.update(i as int, Seq::empty()));
        }
    }

    /// Works out the week's balance. In automatic mode with Friday's
    /// morning entry set, Friday's afternoon entry is emptied and its
    /// afternoon exit set to the time that puts the week exactly on target,
    /// which the total then equals; with Friday's entry blank, that exit is
    /// emptied instead.
    pub fn balance(&mut self) -> (b: Balance)
        ensures
            final(self)@.cells == cells_after(
                old(self)@.cells,
                old(self)@.config,
                old(self)@.automatic,
            ),
            final(self)@.config == old(self)@.config,
            final(self)@.cursor == old(self)@.cursor,
            final(self)@.automatic == old(self)@.automatic,
            b == balance_of(
                old(self)@.cells,
                old(self)@.config,
                old(self)@.cursor,
                old(self)@.automatic,
            ),
            b.wf(),
    {
        proof {
            use_type_invariant(&*self);
            use_type_invariant(&self.datos);
        }
        let ghost c = self@.cells;
        let ghost cfg = self@.config;
        let threshold = parse(self.datos.config[1].as_str());
        let recovery = parse(self.datos.config[2].as_str());
        let daily = parse(self.datos.config[0].as_str());
        let target: i64 = daily as i64 * 5 + recovery as i64;
        let day = self.x % DAYS;
        let readings = read_cells(&self.datos.fichajes);
        assert(readings.grid@ == c);
        let mut worked = readings.credit(day, daily);
        let friday = readings.worked(4);
        let afternoons = readings.afternoon_total();
        let mut total = readings.week_total(daily);
        if self.check {
            if !readings.blanks[FRIDAY_IN] {
                let entry = readings.times[FRIDAY_IN] as i64;
                let exit = entry + (target - total + friday);
                if day == 4 {
                    worked = exit - entry;
                }
                let wrapped = if exit > DAY_SECS as i64 {
                    exit - DAY_SECS as i64
                } else {
                    exit
                };
                let at: u32 = if 0 <= wrapped && wrapped < DAY_SECS as i64 {
                    wrapped as u32
                } else {
                    0
                };
                self.datos.fichajes[FRIDAY_AFTERNOON_IN] = String::new();
                self.datos.fichajes[FRIDAY_OUT] = format_compact(at);
                total = target;
                assert(self@.cells =~= cells_after(c, cfg, true));
            } else {
                self.datos.fichajes[FRIDAY_OUT] = String::new();
                assert(self@.cells =~= cells_after(c, cfg, true));
            }
        }
        let b = Balance {
            day,
            worked,
            total,
            target,
            afternoons,
            threshold: threshold as i64,
            recovery: recovery as i64,
        };
        assert(b == balance_of(c, cfg, old(self)@.cursor, old(self)@.automatic));
        b
    }

    /// Works out the week's balance as `balance` does, and returns the line
    /// that reports it with its category.
    pub fn calculo_saldo(&mut self) -> (r: (String, Category))
        ensures
            final(self)@.cells == cells_after(
                old(self)@.cells,
                old(self)@.config,
                old(self)@.automatic,
            ),
            final(self)@.config == old(self)@.config,
            final(self)@.cursor == old(self)@.cursor,
            final(self)@.automatic == old(self)@.automatic,
            r.0@ == summary_text(
                balance_of(old(self)@.cells, old(self)@.config, old(self)@.cursor, old(self)@.automatic),
            ),
            r.1 == balance_of(
                old(self)@.cells,
                old(self)@.config,
                old(self)@.cursor,
                old(self)@.automatic,
            ).spec_category(),
    {
        let b = self.balance();
        (b.summary(), b.category())
    }

    /// The stored data.
    pub fn datos(&self) -> (r: &Datos)
        ensures
            r@ == (DatosView { cells: self@.cells, config: self@.config }),
    {
        &self.datos
    }

    /// The position of the cell in focus.
    pub fn cursor(&self) -> (r: usize)
        ensures
            r == self@.cursor,
            r < CELLS,
    {
        proof {
            use_type_invariant(self);
        }
        self.x
    }

    /// Puts the focus on a day's punch.
    pub fn focus(&mut self, day: Day, slot: Slot)
        ensures
            final(self)@ == (HorarioView { cursor: spec_cell_index(day, slot), ..old(self)@ }),
    {
        self.x = cell_index(day, slot);
    }

    /// Whether Friday's exit is worked out automatically.
    pub fn automatic(&self) -> (r: bool)
        ensures
            r == self@.automatic,
    {
        self.check
    }

    /// Turns the automatic Friday exit on or off.
    pub fn set_automatic(&mut self, on: bool)
        ensures
            final(self)@ == (HorarioView { automatic: on, ..old(self)@ }),
    {
        proof {
            use_type_invariant(&*self);
        }
        self.check = on;
    }

    /// The text of one cell.
    pub fn cell(&self, day: Day, slot: Slot) -> (r: &str)
        ensures
            r@ == self@.cells[spec_cell_index(day, slot)],
    {
        self.datos.cell(day, slot)
    }

    /// Replaces the text of one cell, as typed.
    pub fn set_cell(&mut self, day: Day, slot: Slot, text: String)
        ensures
            final(self)@ == (HorarioView {
                cells: old(self)@.cells.update(spec_cell_index(day, slot), text@),
                ..old(self)@
            }),
    {
        proof {
            use_type_invariant(&*self);
            use_type_invariant(&self.datos);
        }
        let i = cell_index(day, slot);
        self.datos.fichajes[i] = text;
        assert(self@.cells =~= old(self)@.cells.update(i as int, text@));
    }

    /// Settles the text of one cell once editing ends: it is written again in
    /// the compact form of the time it reads as, and reads as that same time.
    pub fn commit_cell(&mut self, day: Day, slot: Slot)
        ensures
            ({
                let i = spec_cell_index(day, slot);
                &&& final(self)@ == (HorarioView {
                    cells: old(self)@.cells.update(i, compact_text(time_of(old(self)@.cells[i]))),
                    ..old(self)@
                })
                &&& time_of(final(self)@.cells[i]) == time_of(old(self)@.cells[i])
            }),
    {
        proof {
            use_type_invariant(&*self);
            use_type_invariant(&self.datos);
        }
        let i = cell_index(day, slot);
        let text = normalize(self.datos.fichajes[i].as_str());
        self.datos.fichajes[i] = text;
        assert(self@.cells =~= old(self)@.cells.update(
            i as int,
            compact_text(time_of(old(self)@.cells[i as int])),
        ));
    }

    /// The text to show for one cell: `HH : MM`, or nothing where the cell
    /// reads as midnight.
    pub fn cell_label(&self, day: Day, slot: Slot) -> (r: String)
        ensures
            r@ == display_text(time_of(self@.cells[spec_cell_index(day, slot)])),
    {
        format_display(parse(self.datos.cell(day, slot)))
    }

    /// The text of one setting.
    pub fn setting(&self, setting: Setting) -> (r: &str)
        ensures
            r@ == self@.config[setting.spec_index()],
    {
        self.datos.setting(setting)
    }

    /// Replaces the text of one setting, as typed.
    pub fn set_setting(&mut self, setting: Setting, text: String)
        ensures
            final(self)@ == (HorarioView {
                config: old(self)@.config.update(setting.spec_index(), text@),
                ..old(self)@
            }),
    {
        proof {
            use_type_invariant(&*self);
            use_type_invariant(&self.datos);
        }
        let k = setting.index();
        self.datos.config[k] = text;
        assert(self@.config =~= old(self)@.config.update(k as int, text@));
    }

    /// Settles the text of one setting once editing ends, as `commit_cell`
    /// does for a cell.
    pub fn commit_setting(&mut self, setting: Setting)
        ensures
            ({
                let k = setting.spec_index();
                &&& final(self)@ == (HorarioView {
                    config: old(self)@.config.update(k, compact_text(time_of(old(self)@.config[k]))),
                    ..old(self)@
                })
                &&& time_of(final(self)@.config[k]) == time_of(old(self)@.config[k])
            }),
    {
        proof {
            use_type_invariant(&*self);
            use_type_invariant(&self.datos);
        }
        let k = setting.index();
        let text = normalize(self.datos.config[k].as_str());
        self.datos.config[k] = text;
        assert(self@.config =~= old(self)@.config.update(
            k as int,
            compact_text(time_of(old(self)@.config[k as int])),
        ));
    }

    /// The text to show for one setting: `HH : MM`, or nothing where it
    /// reads as midnight.
    pub fn setting_label(&self, setting: Setting) -> (r: String)
        ensures
            r@ == display_text(time_of(self@.config[setting.spec_index()])),
    {
        format_display(parse(self.datos.setting(setting)))
    }

    /// Empties every cell; the settings, the focus and the mode stay.
    pub fn reset(&mut self)
        ensures
            final(self)@.cells.len() == CELLS,
            forall|i: int|
                0 <= i < CELLS ==> (#[trigger] final(self)@.cells[i]) == Seq::<char>::empty(),
            final(self)@.config == old(self)@.config,
            final(self)@.cursor == old(self)@.cursor,
            final(self)@.automatic == old(self)@.automatic,
    {
        proof {
            use_type_invariant(&*self);
            use_type_invariant(&self.datos);
        }
        self.datos.fichajes = blank_cells();
    }
}

impl Default for Horario {
    /// Default data, the focus on the first cell and the automatic mode off.
    fn default() -> (r: Horario)
        ensures
            r@.cells.len() == CELLS,
            forall|i: int| 0 <= i < CELLS ==> (#[trigger] r@.cells[i]) == Seq::<char>::empty(),
            r@.config == seq![
                seq!['0', '7', '3', '0'],
                Seq::<char>::empty(),
                Seq::<char>::empty(),
                false_text(),
            ],
            r@.cursor == 0,
            !r@.automatic,
    {
        Horario { datos: Datos::default(), x: 0, check: false }
    }
}

} // verus!
