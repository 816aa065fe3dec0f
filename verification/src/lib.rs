//! Date pickers and the month calendars behind them.
//!
//! A [`calendar::Calendar`] shows one month of the proleptic Gregorian
//! calendar as a grid of six weeks and moves between months and years. A
//! [`picker::DatePicker`] adds the popup around it: open or closed, above or
//! below its trigger. An [`app_view::AppView`] holds the pickers of one page
//! and applies the events of a user to them. Date arithmetic is done by the
//! `chrono` crate; what is taken on trust of it is stated in [`chrono_calls`].

pub mod app_view;
pub mod calendar;
pub mod chrono_calls;
pub mod date;
pub mod grid;
pub mod picker;
pub mod snapshot;
pub mod text;
