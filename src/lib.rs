//! A weekly timesheet: four clock punches for each weekday, checked for
//! order and summed against a weekly target.

pub mod clock;
pub mod week;
pub mod saldo;
pub mod horario;
pub mod calendar;
