//! A date picker: a calendar, whether its popup is open, and on which side
//! of its trigger the popup shows.

use crate::calendar::Calendar;
use crate::date::{Date, DateError, Ymd};
use crate::text::date_text;
use vstd::prelude::*;

verus! {

/// Height of the calendar popup, in whole pixels.
pub const POPUP_HEIGHT: u32 = 320;

/// Gap kept between the popup and the edge of the viewport, in whole pixels.
pub const POPUP_MARGIN: u32 = 8;

/// Where a popup opens, given the room above and below its trigger in whole
/// pixels: above where the room below cannot take the popup with its margin
/// and the room above can; below otherwise.
pub open spec fn opens_above(space_above: int, space_below: int) -> bool {
    space_below < POPUP_HEIGHT + POPUP_MARGIN && space_above >= POPUP_HEIGHT + POPUP_MARGIN
}

/// What a picker shows while no day is selected: "choose a date".
pub const NO_DATE_TEXT: &'static str = "选择日期";

#[derive(Clone, Copy, Debug, PartialEq, Eq, Structural)]
pub struct DatePicker {
    pub calendar: Calendar,
    pub is_open: bool,
    /// Whether the popup shows above its trigger. Decided when it opens.
    pub show_above: bool,
}

impl DatePicker {
    /// This picker after a click on its trigger: an open one closes; a
    /// closed one opens, on the side that the room given allows.
    pub open spec fn toggled(self, space_above: int, space_below: int) -> DatePicker {
        DatePicker {
            calendar: self.calendar,
            is_open: !self.is_open,
            show_above: if self.is_open {
                self.show_above
            } else {
                opens_above(space_above, space_below)
            },
        }
    }

    /// This picker after `date` was chosen: `date` selected, the popup closed.
    pub open spec fn with_selection(self, date: Date) -> DatePicker {
        DatePicker {
            calendar: Calendar {
                current_month: self.calendar.current_month,
                selected_date: Some(date),
            },
            is_open: false,
            show_above: self.show_above,
        }
    }

    /// This picker after a click on the cell that holds `date`. A cell of
    /// the month on display selects its day and closes the popup; a padding
    /// cell, which shows a day of the month before or after, does nothing.
    pub open spec fn clicked(self, date: Date) -> DatePicker {
        if date@.same_month(self.calendar.current_month@) {
            self.with_selection(date)
        } else {
            self
        }
    }

    /// This picker with its popup closed.
    pub open spec fn closed(self) -> DatePicker {
        DatePicker { calendar: self.calendar, is_open: false, show_above: self.show_above }
    }

    /// What a move of the calendar to `target` does to this picker: see
    /// [`Calendar::moved`]. The popup stays as it is.
    pub open spec fn navigated(
        self,
        target: Ymd,
        after: DatePicker,
        r: Result<(), DateError>,
    ) -> bool {
        self.calendar.moved(target, after.calendar, r) && after.is_open == self.is_open
            && after.show_above == self.show_above
    }

    /// A closed picker that shows the month of `today`, with `today` selected.
    pub open spec fn on_day(today: Date) -> DatePicker {
        DatePicker {
            calendar: Calendar { current_month: today, selected_date: Some(today) },
            is_open: false,
            show_above: false,
        }
    }

    /// The text in the trigger: the selected day, or the placeholder.
    pub open spec fn display_text(self) -> Seq<char> {
        match self.calendar.selected_date {
            Some(date) => date_text(date@),
            None => NO_DATE_TEXT@,
        }
    }

    /// A closed picker on `today`.
    pub fn on(today: Date) -> (p: DatePicker)
        ensures
            p == DatePicker::on_day(today),
    {
        DatePicker { calendar: Calendar::on(today), is_open: false, show_above: false }
    }

    /// Whether a popup with `space_above` pixels above its trigger and
    /// `space_below` below it opens above.
    pub fn place_above(space_above: u32, space_below: u32) -> (above: bool)
        ensures
            above == opens_above(space_above as int, space_below as int),
    {
        space_below < POPUP_HEIGHT + POPUP_MARGIN && space_above >= POPUP_HEIGHT + POPUP_MARGIN
    }

    /// Decides anew on which side the popup shows.
    pub fn calculate_position(&mut self, space_above: u32, space_below: u32)
        ensures
            final(self).show_above == opens_above(space_above as int, space_below as int),
            final(self).calendar == old(self).calendar,
            final(self).is_open == old(self).is_open,
    {
        self.show_above = DatePicker::place_above(space_above, space_below);
    }

    /// Opens a closed picker, closes an open one. The side is decided once,
    /// when the popup opens, from the room around the trigger at that time.
    pub fn toggle_open(&mut self, space_above: u32, space_below: u32)
        ensures
            *final(self) == old(self).toggled(space_above as int, space_below as int),
    {
        if !self.is_open {
            self.calculate_position(space_above, space_below);
        }
        self.is_open = !self.is_open;
    }

    /// Selects `date` and closes the popup.
    pub fn select(&mut self, date: Date)
        ensures
            *final(self) == old(self).with_selection(date),
    {
        self.calendar.selected_date = Some(date);
        self.is_open = false;
    }

    /// Takes a click on the cell that holds `date`: selects `date` and closes
    /// the popup where `date` lies in the month on display, and does nothing
    /// where it does not. Says whether it selected.
    pub fn click_cell(&mut self, date: Date) -> (selected: bool)
        ensures
            selected == date@.same_month(old(self).calendar.current_month@),
            *final(self) == if selected {
                old(self).with_selection(date)
            } else {
                *old(self)
            },
            *final(self) == old(self).clicked(date),
    {
        let selected = self.calendar.is_current_month(&date);
        if selected {
            self.select(date);
        }
        selected
    }

    /// Closes the popup, whether it was open or not.
    pub fn close(&mut self)
        ensures
            *final(self) == old(self).closed(),
    {
        self.is_open = false;
    }

    /// The text to show in the trigger.
    pub fn format_date(&self) -> (text: String)
        ensures
            text@ == self.display_text(),
    {
        match self.calendar.selected_date {
            Some(date) => date.to_text(),
            None => NO_DATE_TEXT.to_owned(),
        }
    }
}

} // verus!
