use horario::calendar::{week_label, CivilDate};
use horario::clock::{format_compact, format_display, normalize, parse};
use horario::horario::{Datos, Horario, Setting, FRIDAY_AFTERNOON_IN, FRIDAY_OUT};
use horario::saldo::Category;
use horario::week::{cell_index, Day, Slot};

const DAYS: [Day; 5] = [Day::Monday, Day::Tuesday, Day::Wednesday, Day::Thursday, Day::Friday];

fn set(h: &mut Horario, day: Day, slot: Slot, text: &str) {
    h.set_cell(day, slot, text.to_string());
}

fn full_day(h: &mut Horario, day: Day, times: [&str; 4]) {
    set(h, day, Slot::MorningIn, times[0]);
    set(h, day, Slot::MorningOut, times[1]);
    set(h, day, Slot::AfternoonIn, times[2]);
    set(h, day, Slot::AfternoonOut, times[3]);
}

#[test]
fn parse_reads_compact_times() {
    assert_eq!(parse("0930"), 9 * 3600 + 30 * 60);
    assert_eq!(parse("   0730  "), 7 * 3600 + 30 * 60);
    assert_eq!(parse("2359"), 23 * 3600 + 59 * 60);
}

#[test]
fn parse_gives_midnight_for_malformed_or_empty_text() {
    assert_eq!(parse(""), 0);
    assert_eq!(parse("     "), 0);
    assert_eq!(parse("abc"), 0);
    assert_eq!(parse("9:30"), 0);
    assert_eq!(parse("2460"), 0);
    assert_eq!(parse("2500"), 0);
    assert_eq!(parse("09 : 30"), 0);
    assert_eq!(parse("0000"), 0);
}

#[test]
fn midnight_formats_as_nothing() {
    assert_eq!(format_display(0), "");
    assert_eq!(format_compact(0), "");
}

#[test]
fn formats_write_hours_and_minutes() {
    assert_eq!(format_compact(9 * 3600 + 5 * 60), "0905");
    assert_eq!(format_display(9 * 3600 + 5 * 60), "09 : 05");
    assert_eq!(format_display(23 * 3600 + 59 * 60), "23 : 59");
}

#[test]
fn normalize_round_trips() {
    for s in ["  0815 ", "1745", "", "xyz", "2400", "0000", "0001"] {
        let once = parse(s);
        let text = normalize(s);
        assert_eq!(text, format_compact(once));
        assert_eq!(parse(&text), once);
        assert_eq!(parse(&format_compact(parse(&text))), once);
    }
    assert_eq!(normalize("  0815 "), "0815");
    assert_eq!(normalize("nope"), "");
}

#[test]
fn default_week_is_neutral_at_target() {
    let mut h = Horario::default();
    let b = h.balance();
    assert_eq!(b.target, 5 * 27000);
    assert_eq!(b.total, 5 * 27000);
    assert_eq!(b.worked, 27000);
    let (text, category) = h.calculo_saldo();
    assert_eq!(category, Category::Neutral);
    assert_eq!(
        text,
        "Lunes  07 : 30           \u{26f6}          [  37h  30m  ]"
    );
}

#[test]
fn blank_day_counts_as_daily_target() {
    let mut h = Horario::default();
    full_day(&mut h, Day::Monday, ["0800", "1200", "1300", "1600"]);
    h.focus(Day::Tuesday, Slot::AfternoonOut);
    let b = h.balance();
    assert_eq!(b.day, 1);
    assert_eq!(b.worked, 27000);
    assert_eq!(b.total, 7 * 3600 + 4 * 27000);
}

#[test]
fn scenario_seven_hours_against_seven_and_a_half() {
    let mut h = Horario::default();
    full_day(&mut h, Day::Monday, ["0900", "1300", "1400", "1700"]);
    h.focus(Day::Monday, Slot::AfternoonOut);
    let b = h.balance();
    assert_eq!(b.worked, 25200);
    assert_eq!(b.target, 5 * 27000);
    assert_eq!(b.target - b.total, 1800);
    assert_eq!(b.category(), Category::Deficit);
    let (text, category) = h.calculo_saldo();
    assert_eq!(category, Category::Deficit);
    assert_eq!(
        text,
        "Lunes  07 : 00           \u{2796}          [  0h  30m  ]"
    );
}

#[test]
fn surplus_drops_whole_days_from_the_amount() {
    let mut h = Horario::default();
    h.set_setting(Setting::DailyTarget, "0100".to_string());
    for day in DAYS {
        full_day(&mut h, day, ["0600", "1300", "1400", "2100"]);
    }
    h.focus(Day::Wednesday, Slot::MorningIn);
    let b = h.balance();
    assert_eq!(b.total, 5 * 14 * 3600);
    assert_eq!(b.target, 5 * 3600);
    let (text, category) = h.calculo_saldo();
    assert_eq!(category, Category::Surplus);
    // 65 hours over: two whole days are not shown.
    assert_eq!(
        text,
        "Mi\u{e9}rcoles  14 : 00           \u{2795}          [  17h  0m  ]"
    );
}

#[test]
fn reversed_morning_clears_the_last_edited_cell() {
    let mut h = Horario::default();
    set(&mut h, Day::Monday, Slot::MorningOut, "1000");
    h.focus(Day::Monday, Slot::MorningOut);
    h.check_fichaje();
    assert_eq!(h.cell(Day::Monday, Slot::MorningOut), "1000");
    set(&mut h, Day::Monday, Slot::MorningIn, "1100");
    h.focus(Day::Monday, Slot::MorningIn);
    h.check_fichaje();
    assert_eq!(h.cell(Day::Monday, Slot::MorningIn), "");
    assert_eq!(h.cell(Day::Monday, Slot::MorningOut), "1000");
}

#[test]
fn ordered_day_is_kept_and_blank_later_punch_is_ignored() {
    let mut h = Horario::default();
    full_day(&mut h, Day::Tuesday, ["0800", "1200", "1300", ""]);
    h.focus(Day::Tuesday, Slot::AfternoonIn);
    h.check_fichaje();
    assert_eq!(h.cell(Day::Tuesday, Slot::AfternoonIn), "1300");
    set(&mut h, Day::Tuesday, Slot::AfternoonIn, "1100");
    h.check_fichaje();
    assert_eq!(h.cell(Day::Tuesday, Slot::AfternoonIn), "");
    assert_eq!(h.cell(Day::Tuesday, Slot::MorningOut), "1200");
}

#[test]
fn reversed_afternoon_clears_the_cell_in_focus() {
    let mut h = Horario::default();
    full_day(&mut h, Day::Thursday, ["0800", "1200", "1700", "1500"]);
    h.focus(Day::Thursday, Slot::AfternoonOut);
    h.check_fichaje();
    assert_eq!(h.cell(Day::Thursday, Slot::AfternoonOut), "");
    assert_eq!(h.cell(Day::Thursday, Slot::AfternoonIn), "1700");
}

#[test]
fn automatic_friday_exit_closes_the_gap() {
    let mut h = Horario::default();
    h.set_automatic(true);
    full_day(&mut h, Day::Thursday, ["0600", "1300", "1400", "2100"]);
    set(&mut h, Day::Friday, Slot::MorningIn, "0900");
    set(&mut h, Day::Friday, Slot::AfternoonIn, "1500");
    h.focus(Day::Friday, Slot::MorningIn);
    let b = h.balance();
    assert_eq!(h.cell(Day::Friday, Slot::AfternoonOut), "1000");
    assert_eq!(h.cell(Day::Friday, Slot::AfternoonIn), "");
    assert_eq!(b.worked, 3600);
    assert_eq!(b.total, b.target);
    assert_eq!(b.category(), Category::Neutral);
    let (text, category) = h.calculo_saldo();
    assert_eq!(category, Category::Neutral);
    assert_eq!(
        text,
        "Viernes  01 : 00           \u{26f6}          [  37h  30m  ]"
    );
}

#[test]
fn automatic_friday_without_entry_empties_exit() {
    let mut h = Horario::default();
    h.set_automatic(true);
    set(&mut h, Day::Friday, Slot::AfternoonOut, "1800");
    h.balance();
    assert_eq!(h.cell(Day::Friday, Slot::AfternoonOut), "");
}

#[test]
fn automatic_off_leaves_friday_alone() {
    let mut h = Horario::default();
    set(&mut h, Day::Friday, Slot::MorningIn, "0900");
    set(&mut h, Day::Friday, Slot::AfternoonOut, "1800");
    h.balance();
    assert_eq!(h.cell(Day::Friday, Slot::MorningIn), "0900");
    assert_eq!(h.cell(Day::Friday, Slot::AfternoonOut), "1800");
}

#[test]
fn exit_past_midnight_wraps_once() {
    let mut h = Horario::default();
    h.set_automatic(true);
    full_day(&mut h, Day::Thursday, ["0600", "1300", "1400", "2000"]);
    set(&mut h, Day::Friday, Slot::MorningIn, "2300");
    h.focus(Day::Friday, Slot::MorningIn);
    let b = h.balance();
    assert_eq!(h.cell(Day::Friday, Slot::AfternoonOut), "0100");
    assert_eq!(b.worked, 7200);
    assert_eq!(b.total, b.target);
}

#[test]
fn afternoon_flag_follows_the_requirement() {
    let mut h = Horario::default();
    full_day(&mut h, Day::Monday, ["0900", "1300", "1400", "1500"]);
    let (text, _) = h.calculo_saldo();
    assert!(!text.contains('\u{2605}'));
    h.set_setting(Setting::AfternoonThreshold, "0200".to_string());
    let b = h.balance();
    assert_eq!(b.afternoons, 3600);
    assert!(b.afternoons_short());
    let (text, _) = h.calculo_saldo();
    assert!(text.ends_with(" \u{2605}"));
    h.set_setting(Setting::AfternoonThreshold, "0100".to_string());
    assert!(!h.balance().afternoons_short());
}

#[test]
fn recovery_adds_to_target_and_raises_flag() {
    let mut h = Horario::default();
    h.set_setting(Setting::Recovery, "0130".to_string());
    let b = h.balance();
    assert_eq!(b.target, 5 * 27000 + 5400);
    assert!(b.recovery_pending());
    let (text, category) = h.calculo_saldo();
    assert_eq!(category, Category::Deficit);
    assert_eq!(
        text,
        "Lunes  07 : 30           \u{2796}          [  1h  30m  ] \u{2691}"
    );
}

#[test]
fn commit_rewrites_in_compact_form() {
    let mut h = Horario::default();
    set(&mut h, Day::Monday, Slot::MorningIn, "   0815  ");
    h.commit_cell(Day::Monday, Slot::MorningIn);
    assert_eq!(h.cell(Day::Monday, Slot::MorningIn), "0815");
    assert_eq!(h.cell_label(Day::Monday, Slot::MorningIn), "08 : 15");
    set(&mut h, Day::Monday, Slot::MorningOut, "12:00");
    h.commit_cell(Day::Monday, Slot::MorningOut);
    assert_eq!(h.cell(Day::Monday, Slot::MorningOut), "");
    assert_eq!(h.cell_label(Day::Monday, Slot::MorningOut), "");
    h.set_setting(Setting::DailyTarget, " 0800".to_string());
    h.commit_setting(Setting::DailyTarget);
    assert_eq!(h.setting(Setting::DailyTarget), "0800");
    assert_eq!(h.setting_label(Setting::DailyTarget), "08 : 00");
}

#[test]
fn reset_blanks_cells_and_keeps_settings() {
    let mut h = Horario::default();
    full_day(&mut h, Day::Monday, ["0900", "1300", "1400", "1700"]);
    h.set_setting(Setting::Recovery, "0100".to_string());
    h.reset();
    for day in DAYS {
        for slot in [Slot::MorningIn, Slot::MorningOut, Slot::AfternoonIn, Slot::AfternoonOut] {
            assert_eq!(h.cell(day, slot), "");
        }
    }
    assert_eq!(h.setting(Setting::Recovery), "0100");
}

#[test]
fn default_data_matches_first_run() {
    let d = Datos::default();
    assert_eq!(d.fichajes().len(), 20);
    assert!(d.fichajes().iter().all(|c| c.is_empty()));
    assert_eq!(d.config(), &vec!["0730".to_string(), String::new(), String::new(), "false".to_string()]);
    assert_eq!(d.setting(Setting::DailyTarget), "0730");
}

#[test]
fn data_needs_twenty_cells_and_four_settings() {
    assert!(Datos::from_parts(vec![String::new(); 19], vec![String::new(); 4]).is_none());
    assert!(Datos::from_parts(vec![String::new(); 20], vec![String::new(); 3]).is_none());
    assert!(Datos::from_parts(vec![String::new(); 20], vec![String::new(); 4]).is_some());
}

#[test]
fn restore_and_save_carry_the_automatic_flag() {
    let mut config = vec!["0800".to_string(), String::new(), String::new(), "true".to_string()];
    let d = Datos::from_parts(vec![String::new(); 20], config.clone()).unwrap();
    let mut h = Horario::restore(d);
    assert!(h.automatic());
    assert_eq!(h.cursor(), 0);
    h.set_automatic(false);
    let saved = h.save();
    assert_eq!(saved.setting(Setting::DailyTarget), "0800");
    assert_eq!(saved.config()[3], "false");
    config[3] = "yes".to_string();
    let h = Horario::restore(Datos::from_parts(vec![String::new(); 20], config).unwrap());
    assert!(!h.automatic());
}

#[test]
fn cells_are_laid_out_by_punch_then_day() {
    assert_eq!(cell_index(Day::Monday, Slot::MorningIn), 0);
    assert_eq!(cell_index(Day::Friday, Slot::MorningIn), 4);
    assert_eq!(cell_index(Day::Friday, Slot::AfternoonIn), FRIDAY_AFTERNOON_IN);
    assert_eq!(cell_index(Day::Friday, Slot::AfternoonOut), FRIDAY_OUT);
    assert_eq!(cell_index(Day::Wednesday, Slot::MorningOut), 7);
    let mut h = Horario::default();
    h.focus(Day::Thursday, Slot::AfternoonIn);
    assert_eq!(h.cursor(), 13);
}

#[test]
fn week_label_names_monday_and_friday() {
    let monday = CivilDate::new(2022, 1, 3).unwrap();
    let friday = CivilDate::new(2022, 1, 7).unwrap();
    assert_eq!(
        week_label(&monday, &friday),
        "03 Ene 2022        \u{2219}        07 Ene 2022"
    );
    let monday = CivilDate::new(2021, 12, 27).unwrap();
    let friday = CivilDate::new(2021, 12, 31).unwrap();
    assert_eq!(
        week_label(&monday, &friday),
        "27 Dic 2021        \u{2219}        31 Dic 2021"
    );
    let early = CivilDate::new(-44, 3, 15).unwrap();
    assert_eq!(week_label(&early, &early), "15 Mar -44        \u{2219}        15 Mar -44");
}

#[test]
fn dates_need_a_month_and_a_day_in_range() {
    assert!(CivilDate::new(2024, 0, 1).is_none());
    assert!(CivilDate::new(2024, 13, 1).is_none());
    assert!(CivilDate::new(2024, 5, 0).is_none());
    assert!(CivilDate::new(2024, 5, 32).is_none());
    assert!(CivilDate::new(2024, 2, 29).is_some());
}
