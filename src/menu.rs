//! Screen models: the options list, the calibration list with its cursor, and what the
//! display shows.

use vstd::prelude::*;

use crate::calibration::Calibration;
use crate::direction::Direction;
use crate::millimeters::Millimeters;
use crate::points::Point;

verus! {

/// Entries of the options screen, in display order.
#[derive(Debug, Clone, Copy, PartialEq, Eq, Structural)]
pub enum OptionItem {
    SavePos1,
    SavePos2,
    Calibration,
    ResetDrive,
}

pub open spec fn option_index(o: OptionItem) -> int {
    match o {
        OptionItem::SavePos1 => 0,
        OptionItem::SavePos2 => 1,
        OptionItem::Calibration => 2,
        OptionItem::ResetDrive => 3,
    }
}

impl OptionItem {
    /// All entries, in display order.
    pub fn iter(&self) -> (r: [OptionItem; 4])
        ensures
            forall|i: int| 0 <= i < 4 ==> option_index(#[trigger] r@[i]) == i,
    {
        [OptionItem::SavePos1, OptionItem::SavePos2, OptionItem::Calibration, OptionItem::ResetDrive]
    }

    /// Selects the following entry, wrapping to the first.
    pub fn next(&mut self)
        ensures
            option_index(*final(self)) == (option_index(*old(self)) + 1) % 4,
    {
        *self = match *self {
            OptionItem::SavePos1 => OptionItem::SavePos2,
            OptionItem::SavePos2 => OptionItem::Calibration,
            OptionItem::Calibration => OptionItem::ResetDrive,
            OptionItem::ResetDrive => OptionItem::SavePos1,
        }
    }

    /// Selects the preceding entry, wrapping to the last.
    pub fn prev(&mut self)
        ensures
            option_index(*final(self)) == (option_index(*old(self)) + 3) % 4,
    {
        *self = match *self {
            OptionItem::SavePos1 => OptionItem::ResetDrive,
            OptionItem::SavePos2 => OptionItem::SavePos1,
            OptionItem::Calibration => OptionItem::SavePos2,
            OptionItem::ResetDrive => OptionItem::Calibration,
        }
    }

    /// Whether `item` is the selected entry, `self` being the selection.
    pub fn is_selected(&self, item: &OptionItem) -> (r: bool)
        ensures
            r == (*self == *item),
    {
        *self == *item
    }

    /// Text of the entry.
    pub fn label(&self) -> (r: &'static str)
        ensures
            r@ == match *self {
                OptionItem::SavePos1 => "Store position 1"@,
                OptionItem::SavePos2 => "Store position 2"@,
                OptionItem::Calibration => "Height calibration"@,
                OptionItem::ResetDrive => "Start reset drive"@,
            },
    {
        match self {
            OptionItem::SavePos1 => "Store position 1",
            OptionItem::SavePos2 => "Store position 2",
            OptionItem::Calibration => "Height calibration",
            OptionItem::ResetDrive => "Start reset drive",
        }
    }
}

/// Which line of the calibration screen is selected.
#[derive(Debug, Clone, Copy, PartialEq, Eq, Structural)]
pub enum Selected {
    AddNew,
    RemoveAll,
    ShowOne,
}

impl Selected {
    /// Key help shown at the foot of the calibration screen: pos2 selects "add"
    /// and deletes otherwise.
    pub fn footer(self) -> (r: &'static str)
        ensures
            self == Selected::AddNew ==> r@ == "+- nav | pos1 exit | pos2 sel"@,
            self != Selected::AddNew ==> r@ == "+- nav | pos1 exit | pos2 del"@,
    {
        match self {
            Selected::AddNew => "+- nav | pos1 exit | pos2 sel",
            Selected::RemoveAll | Selected::ShowOne => "+- nav | pos1 exit | pos2 del",
        }
    }
}

/// A line of the calibration screen.
#[derive(Debug, Clone, Copy, PartialEq, Eq, Structural)]
pub enum CalibrationItem {
    AddNew,
    RemoveAll,
    ShowOne { index: u8, adc: u16, height: Millimeters },
}

/// The calibration screen: add, remove all, and one stored point at a time.
pub struct CalibrationMenu {
    items: Calibration,
    shown_index: u8,
    selected: Selected,
}

/// `(points, shown index, selection)` of a calibration screen.
pub type CalibrationMenuView = (Seq<Point>, int, Selected);

/// The screen after moving down: add, remove all, each point in turn, back to add.
pub open spec fn menu_next_spec(v: CalibrationMenuView) -> CalibrationMenuView {
    let (s, i, sel) = v;
    if s.len() == 0 {
        v
    } else {
        match sel {
            Selected::AddNew => (s, i, Selected::RemoveAll),
            Selected::RemoveAll => (s, 0, Selected::ShowOne),
            Selected::ShowOne => if i + 1 == s.len() {
                (s, i, Selected::AddNew)
            } else {
                (s, i + 1, Selected::ShowOne)
            },
        }
    }
}

/// The screen after moving up, the reverse walk of `menu_next_spec`.
pub open spec fn menu_prev_spec(v: CalibrationMenuView) -> CalibrationMenuView {
    let (s, i, sel) = v;
    if s.len() == 0 {
        v
    } else {
        match sel {
            Selected::AddNew => (s, s.len() - 1, Selected::ShowOne),
            Selected::RemoveAll => (s, i, Selected::AddNew),
            Selected::ShowOne => if i == 0 {
                (s, i, Selected::RemoveAll)
            } else {
                (s, i - 1, Selected::ShowOne)
            },
        }
    }
}

impl View for CalibrationMenu {
    type V = CalibrationMenuView;

    closed spec fn view(&self) -> CalibrationMenuView {
        (self.items@, self.shown_index as int, self.selected)
    }
}

impl CalibrationMenu {
    /// The shown index points at a stored point whenever there is one; an empty
    /// table leaves only "add" to select.
    pub open spec fn wf(&self) -> bool {
        let (s, i, sel) = self@;
        &&& crate::calibration::valid_points(s)
        &&& s.len() > 0 ==> 0 <= i < s.len()
        &&& s.len() == 0 ==> i == 0 && sel == Selected::AddNew
    }

    pub fn new(items: Calibration) -> (r: Self)
        requires
            items.wf(),
        ensures
            r@ == (items@, 0int, Selected::AddNew),
            r.wf(),
    {
        Self { items, shown_index: 0, selected: Selected::AddNew }
    }

    /// Takes over a new table, keeping the shown index within it.
    pub fn update_calibration(&mut self, items: &Calibration)
        requires
            items.wf(),
        ensures
            final(self).wf(),
            final(self)@.0 == items@,
            final(self)@.1 == if old(self)@.1 < items@.len() {
                old(self)@.1
            } else if items@.len() == 0 {
                0
            } else {
                items@.len() - 1
            },
            final(self)@.2 == if items@.len() == 0 {
                Selected::AddNew
            } else {
                old(self)@.2
            },
    {
        self.items = items.clone();
        let len = self.items.len();
        let max_index: u8 = if len == 0 {
            0
        } else {
            (len - 1) as u8
        };
        if self.shown_index > max_index {
            self.shown_index = max_index;
        }
        if len == 0 {
            self.selected = Selected::AddNew;
        }
    }

    pub fn selected(&self) -> (r: Selected)
        ensures
            r == self@.2,
    {
        self.selected
    }

    /// Index of the point shown, when there is any.
    pub fn shown_index(&self) -> (r: Option<usize>)
        ensures
            r == if self@.0.len() > 0 {
                Some(self@.1 as usize)
            } else {
                None::<usize>
            },
    {
        if self.items.is_empty() {
            None
        } else {
            Some(self.shown_index as usize)
        }
    }

    /// The lines shown: "add", and while points exist "remove all" and the shown point.
    pub fn iter(&self) -> (r: Vec<CalibrationItem>)
        requires
            self.wf(),
        ensures
            self@.0.len() == 0 ==> r@ == seq![CalibrationItem::AddNew],
            self@.0.len() > 0 ==> r@ == seq![
                CalibrationItem::AddNew,
                CalibrationItem::RemoveAll,
                CalibrationItem::ShowOne {
                    index: self@.1 as u8,
                    adc: self@.0[self@.1].0,
                    height: Millimeters(self@.0[self@.1].1),
                },
            ],
    {
        let mut items: Vec<CalibrationItem> = Vec::new();
        items.push(CalibrationItem::AddNew);
        match self.items.get(self.shown_index as usize) {
            Some((adc, height)) => {
                items.push(CalibrationItem::RemoveAll);
                items.push(CalibrationItem::ShowOne { index: self.shown_index, adc, height });
            },
            None => {},
        }
        proof {
            if self@.0.len() > 0 {
                assert(items@ =~= seq![
                    CalibrationItem::AddNew,
                    CalibrationItem::RemoveAll,
                    CalibrationItem::ShowOne {
                        index: self@.1 as u8,
                        adc: self@.0[self@.1].0,
                        height: Millimeters(self@.0[self@.1].1),
                    },
                ]);
            } else {
                assert(items@ =~= seq![CalibrationItem::AddNew]);
            }
        }
        items
    }

    /// Moves the selection down, wrapping back to "add".
    pub fn next(&mut self)
        requires
            old(self).wf(),
        ensures
            final(self).wf(),
            final(self)@ == menu_next_spec(old(self)@),
    {
        if self.items.is_empty() {
            return;
        }
        self.selected = match self.selected {
            Selected::AddNew => Selected::RemoveAll,
            Selected::RemoveAll => {
                self.shown_index = 0;
                Selected::ShowOne
            },
            Selected::ShowOne => {
                let new_index = self.shown_index + 1;
                if self.items.len() == new_index as usize {
                    Selected::AddNew
                } else {
                    self.shown_index = new_index;
                    Selected::ShowOne
                }
            },
        };
    }

    /// Moves the selection up, wrapping from "add" to the last point.
    pub fn prev(&mut self)
        requires
            old(self).wf(),
        ensures
            final(self).wf(),
            final(self)@ == menu_prev_spec(old(self)@),
    {
        if self.items.is_empty() {
            return;
        }
        self.selected = match self.selected {
            Selected::AddNew => {
                self.shown_index = (self.items.len() - 1) as u8;
                Selected::ShowOne
            },
            Selected::RemoveAll => Selected::AddNew,
            Selected::ShowOne => {
                if self.shown_index == 0 {
                    Selected::RemoveAll
                } else {
                    self.shown_index = self.shown_index - 1;
                    Selected::ShowOne
                }
            },
        };
    }

    /// Whether `item` is the selected line.
    pub fn is_selected(&self, item: &CalibrationItem) -> (r: bool)
        ensures
            r == match (*item, self@.2) {
                (CalibrationItem::AddNew, Selected::AddNew) => true,
                (CalibrationItem::RemoveAll, Selected::RemoveAll) => true,
                (CalibrationItem::ShowOne { .. }, Selected::ShowOne) => true,
                _ => false,
            },
    {
        match (item, self.selected) {
            (CalibrationItem::AddNew, Selected::AddNew) => true,
            (CalibrationItem::RemoveAll, Selected::RemoveAll) => true,
            (CalibrationItem::ShowOne { .. }, Selected::ShowOne) => true,
            _ => false,
        }
    }
}

impl Clone for CalibrationMenu {
    fn clone(&self) -> (r: Self)
        ensures
            r@ == self@,
    {
        CalibrationMenu {
            items: self.items.clone(),
            shown_index: self.shown_index,
            selected: self.selected,
        }
    }
}

/// A list screen around its content.
#[derive(Debug, Clone, Copy)]
pub struct Menu<T> {
    pub content: T,
}

impl<T> Menu<T> {
    pub fn new(content: T) -> (r: Self)
        ensures
            r.content == content,
    {
        Self { content }
    }
}

/// The start screen: live height and drive direction.
#[derive(Debug, Clone, Copy, PartialEq, Eq, Structural)]
pub struct Start {
    pub height: Option<Millimeters>,
    pub direction: Direction,
}

impl Start {
    /// The start screen for a measured height; without calibration the height
    /// is unknown rather than a bogus number.
    pub fn new(height: Millimeters, calibrated: bool, direction: Direction) -> (r: Start)
        ensures
            r.height == if calibrated {
                Some(height)
            } else {
                None::<Millimeters>
            },
            r.direction == direction,
    {
        Start { height: if calibrated { Some(height) } else { None }, direction }
    }
}

/// The options screen.
#[derive(Debug, Clone, Copy)]
pub struct Options {
    pub menu: Menu<OptionItem>,
}

/// The screen shown while the reset drive runs.
#[derive(Debug, Clone, Copy, PartialEq, Eq, Structural)]
pub struct ResetDrive;

/// The calibration screen.
pub struct CalibrationOptions {
    pub menu: Menu<CalibrationMenu>,
}

/// The screen for adding a point: the captured reading and the length to store.
#[derive(Debug, Clone, Copy, PartialEq, Eq, Structural)]
pub struct CalibrationPoint {
    pub adc: u16,
    pub height: Millimeters,
}

/// What the display shows: one screen model per operation mode.
pub enum MainMenu {
    Start(Start),
    Options(Options),
    ResetDrive(ResetDrive),
    Calibration(CalibrationOptions),
    CalibrationPoint(CalibrationPoint),
}

} // verus!
