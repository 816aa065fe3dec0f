//! The pickers of one page and the events that reach them.

use crate::chrono_calls::sunday_based_weekday;
use crate::date::{Date, DateError};
use crate::grid::{grid_fits, GRID_CELLS};
use crate::picker::DatePicker;
use crate::snapshot::PickerSnapshot;
use vstd::prelude::*;

verus! {

/// Number of pickers on the page.
pub const PICKER_COUNT: usize = 4;

/// What a user can do to the pickers of a page. `picker` is the position of
/// the picker that the event is for.
#[derive(Clone, Copy, Debug, PartialEq, Eq, Structural)]
pub enum PickerEvent {
    /// A click on the trigger, with the room above and below it in pixels.
    Toggle { picker: usize, space_above: u32, space_below: u32 },
    PrevMonth { picker: usize },
    NextMonth { picker: usize },
    PrevYear { picker: usize },
    NextYear { picker: usize },
    /// The choice of `date`, whatever month is on display.
    Select { picker: usize, date: Date },
    /// A click on the cell that holds `date`.
    ClickCell { picker: usize, date: Date },
    /// A click outside every popup.
    DismissAll,
}

impl PickerEvent {
    /// The picker that the event is for, if it is for one.
    pub open spec fn target(self) -> Option<usize> {
        match self {
            PickerEvent::Toggle { picker, .. } => Some(picker),
            PickerEvent::PrevMonth { picker } => Some(picker),
            PickerEvent::NextMonth { picker } => Some(picker),
            PickerEvent::PrevYear { picker } => Some(picker),
            PickerEvent::NextYear { picker } => Some(picker),
            PickerEvent::Select { picker, .. } => Some(picker),
            PickerEvent::ClickCell { picker, .. } => Some(picker),
            PickerEvent::DismissAll => None,
        }
    }
}

/// What `event` does to the pickers `before`. A toggle, a selection or a
/// click on a cell changes the picker it is for, if at all, and always
/// succeeds. A move changes the
/// calendar of that picker, or is refused and changes nothing. A dismissal
/// closes every picker. No event touches a picker it is not for.
pub open spec fn stepped(
    before: Seq<DatePicker>,
    event: PickerEvent,
    after: Seq<DatePicker>,
    r: Result<(), DateError>,
) -> bool {
    &&& after.len() == before.len()
    &&& event.target() matches Some(i) ==> after == before.update(i as int, after[i as int])
    &&& match event {
        PickerEvent::Toggle { picker, space_above, space_below } => r is Ok && after[picker as int]
            == before[picker as int].toggled(space_above as int, space_below as int),
        PickerEvent::Select { picker, date } => r is Ok && after[picker as int]
            == before[picker as int].with_selection(date),
        PickerEvent::ClickCell { picker, date } => r is Ok && after[picker as int]
            == before[picker as int].clicked(date),
        PickerEvent::PrevMonth { picker } => before[picker as int].navigated(
            before[picker as int].calendar.current_month@.prev_month_start(),
            after[picker as int],
            r,
        ),
        PickerEvent::NextMonth { picker } => before[picker as int].navigated(
            before[picker as int].calendar.current_month@.next_month_start(),
            after[picker as int],
            r,
        ),
        PickerEvent::PrevYear { picker } => before[picker as int].navigated(
            before[picker as int].calendar.current_month@.in_year(
                before[picker as int].calendar.current_month@.year - 1,
            ),
            after[picker as int],
            r,
        ),
        PickerEvent::NextYear { picker } => before[picker as int].navigated(
            before[picker as int].calendar.current_month@.in_year(
                before[picker as int].calendar.current_month@.year + 1,
            ),
            after[picker as int],
            r,
        ),
        PickerEvent::DismissAll => r is Ok && forall|i: int|
            0 <= i < before.len() ==> #[trigger] after[i] == before[i].closed(),
    }
}

/// The pickers of one page, each on its own.
#[derive(Debug, PartialEq, Eq)]
pub struct AppView {
    pub pickers: Vec<DatePicker>,
}

impl AppView {
    /// Four closed pickers on `today`.
    pub fn on(today: Date) -> (view: AppView)
        ensures
            view.pickers@.len() == PICKER_COUNT,
            forall|i: int|
                0 <= i < PICKER_COUNT ==> #[trigger] view.pickers@[i] == DatePicker::on_day(today),
    {
        let mut pickers: Vec<DatePicker> = Vec::new();
        while pickers.len() < PICKER_COUNT
            invariant
                pickers@.len() <= PICKER_COUNT,
                forall|i: int|
                    0 <= i < pickers@.len() ==> #[trigger] pickers@[i] == DatePicker::on_day(today),
            decreases PICKER_COUNT - pickers@.len(),
        {
            pickers.push(DatePicker::on(today));
        }
        AppView { pickers }
    }

    /// Whether any popup is open.
    pub fn any_open(&self) -> (open: bool)
        ensures
            open == exists|i: int| 0 <= i < self.pickers@.len() && (#[trigger] self.pickers@[i]).is_open,
    {
        let mut i: usize = 0;
        while i < self.pickers.len()
            invariant
                i <= self.pickers@.len(),
                forall|j: int| 0 <= j < i ==> !(#[trigger] self.pickers@[j]).is_open,
            decreases self.pickers@.len() - i,
        {
            if self.pickers[i].is_open {
                return true;
            }
            i += 1;
        }
        false
    }

    /// Closes every popup.
    pub fn close_all(&mut self)
        ensures
            final(self).pickers@.len() == old(self).pickers@.len(),
            forall|i: int|
                0 <= i < old(self).pickers@.len() ==> #[trigger] final(self).pickers@[i] == old(
                    self,
                ).pickers@[i].closed(),
    {
        let mut i: usize = 0;
        while i < self.pickers.len()
            invariant
                i <= self.pickers@.len(),
                self.pickers@.len() == old(self).pickers@.len(),
                forall|j: int| 0 <= j < i ==> #[trigger] self.pickers@[j] == old(self).pickers@[j].closed(),
                forall|j: int|
                    i <= j < self.pickers@.len() ==> #[trigger] self.pickers@[j] == old(self).pickers@[j],
            decreases self.pickers@.len() - i,
        {
            let mut picker = self.pickers[i];
            picker.close();
            self.pickers.set(i, picker);
            i += 1;
        }
    }

    /// Applies `event` to the picker that it is for, or to all of them.
    pub fn handle(&mut self, event: PickerEvent) -> (r: Result<(), DateError>)
        requires
            event.target() matches Some(i) ==> i < old(self).pickers@.len(),
        ensures
            stepped(old(self).pickers@, event, final(self).pickers@, r),
    {
        match event {
            PickerEvent::Toggle { picker, space_above, space_below } => {
                let mut target = self.pickers[picker];
                target.toggle_open(space_above, space_below);
                self.pickers.set(picker, target);
                Ok(())
            },
            PickerEvent::Select { picker, date } => {
                let mut target = self.pickers[picker];
                target.select(date);
                self.pickers.set(picker, target);
                Ok(())
            },
            PickerEvent::ClickCell { picker, date } => {
                let mut target = self.pickers[picker];
                target.click_cell(date);
                self.pickers.set(picker, target);
                Ok(())
            },
            PickerEvent::PrevMonth { picker } => {
                let mut target = self.pickers[picker];
                let r = target.calendar.prev_month();
                self.pickers.set(picker, target);
                r
            },
            PickerEvent::NextMonth { picker } => {
                let mut target = self.pickers[picker];
                let r = target.calendar.next_month();
                self.pickers.set(picker, target);
                r
            },
            PickerEvent::PrevYear { picker } => {
                let mut target = self.pickers[picker];
                let r = target.calendar.prev_year();
                self.pickers.set(picker, target);
                r
            },
            PickerEvent::NextYear { picker } => {
                let mut target = self.pickers[picker];
                let r = target.calendar.next_year();
                self.pickers.set(picker, target);
                r
            },
            PickerEvent::DismissAll => {
                self.close_all();
                Ok(())
            },
        }
    }

    /// The picker at position `picker`, as drawn on the day `today`: see
    /// [`DatePicker::snapshot_at`].
    pub fn snapshot_at(&self, picker: usize, today: Date) -> (r: Result<PickerSnapshot, DateError>)
        requires
            picker < self.pickers@.len(),
        ensures
            0 <= sunday_based_weekday(
                self.pickers@[picker as int].calendar.current_month@.year,
                self.pickers@[picker as int].calendar.current_month@.month,
                1,
            ) < 7,
            r is Ok <==> grid_fits(
                self.pickers@[picker as int].calendar.current_month@.year,
                self.pickers@[picker as int].calendar.current_month@.month,
                sunday_based_weekday(
                    self.pickers@[picker as int].calendar.current_month@.year,
                    self.pickers@[picker as int].calendar.current_month@.month,
                    1,
                ),
            ),
            r matches Ok(shot) ==> self.pickers@[picker as int].drawn_as(
                shot,
                sunday_based_weekday(
                    self.pickers@[picker as int].calendar.current_month@.year,
                    self.pickers@[picker as int].calendar.current_month@.month,
                    1,
                ),
            ) && forall|i: int|
                0 <= i < GRID_CELLS ==> #[trigger] shot.grid@[i]
                    == self.pickers@[picker as int].calendar.cell_on(shot.grid@[i].date, today),
            r matches Err(e) ==> e == DateError::DateRangeError,
    {
        self.pickers[picker].snapshot_at(today)
    }
}

} // verus!
