//! The operation-mode state machine and the decisions of each screen.

use vstd::prelude::*;

use core::cmp::Ordering;

use crate::calibration::Calibration;
use crate::direction::Direction;
use crate::input::{
    pressed_exclusive_spec, released_spec, Button, StateChanges, DOWN_BIT, POS1_BIT, POS2_BIT,
    UP_BIT,
};
use crate::menu::{menu_next_spec, menu_prev_spec, option_index, CalibrationMenu, OptionItem, Selected};
use crate::millimeters::{
    fuzzy_order, saturating_add_spec, saturating_sub_spec, Millimeters, MOVEMENT_TOLERANCE_MM,
    STANDSTILL_TOLERANCE_MM,
};
use crate::storage::{ConfigChange, InnerData};

verus! {

/// The screens of the controller; it starts on `Start` and runs forever.
#[derive(Debug, Clone, Copy, PartialEq, Eq, Structural)]
pub enum OperationMode {
    Start,
    Options,
    Calibration,
    CalibrationAddPoint,
    ResetDrive,
}

/// What the start screen does with a confirmed press.
#[derive(Debug, Clone, Copy, PartialEq, Eq, Structural)]
pub enum StartAction {
    /// Nothing: unknown chord, or an unsaved position.
    Stay,
    /// Up and down together open the options.
    EnterOptions,
    /// Drive in this direction until `button` is released.
    Jog(Direction, Button),
    /// Drive to a saved position.
    DriveTo(Millimeters),
}

pub open spec fn start_action_spec(pressed: Button, position_1: Option<Millimeters>, position_2: Option<Millimeters>) -> StartAction {
    if pressed.bits == UP_BIT | DOWN_BIT {
        StartAction::EnterOptions
    } else if pressed.bits == UP_BIT {
        StartAction::Jog(Direction::Up, pressed)
    } else if pressed.bits == DOWN_BIT {
        StartAction::Jog(Direction::Down, pressed)
    } else if pressed.bits == POS1_BIT {
        match position_1 {
            Some(h) => StartAction::DriveTo(h),
            None => StartAction::Stay,
        }
    } else if pressed.bits == POS2_BIT {
        match position_2 {
            Some(h) => StartAction::DriveTo(h),
            None => StartAction::Stay,
        }
    } else {
        StartAction::Stay
    }
}

/// The start screen's reaction to the buttons of a confirmed press.
pub fn start_action(pressed: Button, config: &InnerData) -> (r: StartAction)
    ensures
        r == start_action_spec(pressed, config.position_1, config.position_2),
{
    if pressed.bits == UP_BIT | DOWN_BIT {
        StartAction::EnterOptions
    } else if pressed.bits == UP_BIT {
        StartAction::Jog(Direction::Up, pressed)
    } else if pressed.bits == DOWN_BIT {
        StartAction::Jog(Direction::Down, pressed)
    } else if pressed.bits == POS1_BIT {
        match config.position_1 {
            Some(h) => StartAction::DriveTo(h),
            None => StartAction::Stay,
        }
    } else if pressed.bits == POS2_BIT {
        match config.position_2 {
            Some(h) => StartAction::DriveTo(h),
            None => StartAction::Stay,
        }
    } else {
        StartAction::Stay
    }
}

/// The request of the live start screen for the button changes since its last
/// look, if any: a lone fresh press of up or down asks for that direction, and
/// letting go of the button of the direction being driven asks to stop, which
/// wins as the later request.
pub open spec fn jog_request_spec(c: StateChanges, current: Direction) -> Option<Direction> {
    if (released_spec(c, UP_BIT) && current == Direction::Up) || (released_spec(c, DOWN_BIT)
        && current == Direction::Down) {
        Some(Direction::Stopped)
    } else {
        match pressed_exclusive_spec(c) {
            Some(b) => if b.bits == UP_BIT {
                Some(Direction::Up)
            } else if b.bits == DOWN_BIT {
                Some(Direction::Down)
            } else {
                None
            },
            None => None,
        }
    }
}

pub fn jog_request(changes: &StateChanges, current: Direction) -> (r: Option<Direction>)
    ensures
        r == jog_request_spec(*changes, current),
{
    let mut request: Option<Direction> = None;
    match changes.pressed_exclusive() {
        Some(b) => {
            if b.bits == UP_BIT {
                request = Some(Direction::Up);
            } else if b.bits == DOWN_BIT {
                request = Some(Direction::Down);
            }
        },
        None => {},
    }
    if changes.released(Button::up()) && current == Direction::Up {
        request = Some(Direction::Stopped);
    }
    if changes.released(Button::down()) && current == Direction::Down {
        request = Some(Direction::Stopped);
    }
    request
}

/// Whether the column still has to move in `direction` to reach `target`, judged
/// with the looser movement tolerance.
pub open spec fn on_the_way_spec(direction: Direction, current: Millimeters, target: Millimeters) -> bool {
    let o = fuzzy_order(current.mm(), target.mm(), MOVEMENT_TOLERANCE_MM as int);
    if direction == Direction::Up {
        o == Ordering::Less
    } else {
        o == Ordering::Greater
    }
}

/// A run towards a saved position.
#[derive(Debug, Clone, Copy, PartialEq, Eq, Structural)]
pub struct DriveToPosition {
    pub target: Millimeters,
    pub direction: Direction,
}

impl DriveToPosition {
    /// Starts a run from `current`: none when the column already stands at the
    /// target within the standstill tolerance, else up when below it and down
    /// when above.
    pub fn start(current: Millimeters, target: Millimeters) -> (r: Option<DriveToPosition>)
        ensures
            match fuzzy_order(current.mm(), target.mm(), STANDSTILL_TOLERANCE_MM as int) {
                Ordering::Equal => r is None,
                Ordering::Less => r == Some(DriveToPosition { target, direction: Direction::Up }),
                Ordering::Greater => r == Some(DriveToPosition { target, direction: Direction::Down }),
            },
    {
        match current.cmp_fuzzy_eq(target, Millimeters::from_mm(STANDSTILL_TOLERANCE_MM)) {
            Ordering::Equal => None,
            Ordering::Less => Some(DriveToPosition { target, direction: Direction::Up }),
            Ordering::Greater => Some(DriveToPosition { target, direction: Direction::Down }),
        }
    }

    /// Whether the run goes on at height `current`.
    pub fn on_the_way(&self, current: Millimeters) -> (r: bool)
        ensures
            r == on_the_way_spec(self.direction, current, self.target),
    {
        let o = current.cmp_fuzzy_eq(self.target, Millimeters::from_mm(MOVEMENT_TOLERANCE_MM));
        if self.direction == Direction::Up {
            matches!(o, Ordering::Less)
        } else {
            matches!(o, Ordering::Greater)
        }
    }
}

/// A run towards a target never drives away from it: it starts up only from below
/// the target and down only from above, and goes on only while the column is
/// further than the movement tolerance on the side it started from.
pub proof fn lemma_drive_towards_target(current: Millimeters, target: Millimeters, later: Millimeters)
    ensures
        ({
            let o = fuzzy_order(current.mm(), target.mm(), STANDSTILL_TOLERANCE_MM as int);
            &&& o == Ordering::Less ==> current.mm() < target.mm()
            &&& o == Ordering::Greater ==> current.mm() > target.mm()
        }),
        on_the_way_spec(Direction::Up, later, target) <==> later.mm() < target.mm() - MOVEMENT_TOLERANCE_MM,
        on_the_way_spec(Direction::Down, later, target) <==> later.mm() > target.mm() + MOVEMENT_TOLERANCE_MM,
{
}

/// What the options screen does with a press.
#[derive(Debug, Clone, Copy, PartialEq, Eq, Structural)]
pub enum OptionsAction {
    Stay,
    /// Back to the start screen.
    Exit,
    /// Store the current height as position 1.
    SavePosition1,
    /// Store the current height as position 2.
    SavePosition2,
    EnterCalibration,
    ResetDrive,
}

pub open spec fn activate_spec(o: OptionItem) -> OptionsAction {
    match o {
        OptionItem::SavePos1 => OptionsAction::SavePosition1,
        OptionItem::SavePos2 => OptionsAction::SavePosition2,
        OptionItem::Calibration => OptionsAction::EnterCalibration,
        OptionItem::ResetDrive => OptionsAction::ResetDrive,
    }
}

/// The options screen's reaction to a single press: up and down move the
/// selection (wrapping), pos1 leaves, pos2 activates the selected entry.
pub fn options_action(selected: &mut OptionItem, pressed: Button) -> (r: OptionsAction)
    ensures
        pressed.bits == UP_BIT ==> r == OptionsAction::Stay && option_index(*final(selected)) == (
        option_index(*old(selected)) + 3) % 4,
        pressed.bits == DOWN_BIT ==> r == OptionsAction::Stay && option_index(*final(selected)) == (
        option_index(*old(selected)) + 1) % 4,
        pressed.bits == POS1_BIT ==> r == OptionsAction::Exit && *final(selected) == *old(selected),
        pressed.bits == POS2_BIT ==> r == activate_spec(*old(selected)) && *final(selected) == *old(selected),
        pressed.bits != UP_BIT && pressed.bits != DOWN_BIT && pressed.bits != POS1_BIT && pressed.bits != POS2_BIT
            ==> r == OptionsAction::Stay && *final(selected) == *old(selected),
{
    if pressed.bits == UP_BIT {
        selected.prev();
        OptionsAction::Stay
    } else if pressed.bits == DOWN_BIT {
        selected.next();
        OptionsAction::Stay
    } else if pressed.bits == POS1_BIT {
        OptionsAction::Exit
    } else if pressed.bits == POS2_BIT {
        match *selected {
            OptionItem::SavePos1 => OptionsAction::SavePosition1,
            OptionItem::SavePos2 => OptionsAction::SavePosition2,
            OptionItem::Calibration => OptionsAction::EnterCalibration,
            OptionItem::ResetDrive => OptionsAction::ResetDrive,
        }
    } else {
        OptionsAction::Stay
    }
}

/// The change that saves `height` for a save entry of the options screen.
pub fn save_position(action: OptionsAction, height: Millimeters) -> (r: Option<ConfigChange>)
    ensures
        r == match action {
            OptionsAction::SavePosition1 => Some(ConfigChange::SetPosition1(height)),
            OptionsAction::SavePosition2 => Some(ConfigChange::SetPosition2(height)),
            _ => None::<ConfigChange>,
        },
{
    match action {
        OptionsAction::SavePosition1 => Some(ConfigChange::SetPosition1(height)),
        OptionsAction::SavePosition2 => Some(ConfigChange::SetPosition2(height)),
        _ => None,
    }
}

/// What the calibration screen does with a press.
#[derive(Debug, Clone, Copy, PartialEq, Eq, Structural)]
pub enum CalibrationAction {
    Stay,
    /// Back to the options screen.
    Exit,
    /// Open the screen that adds a point.
    AddPoint,
    /// Apply this change to the stored configuration.
    Apply(ConfigChange),
}

/// The calibration screen's reaction to a single press: up and down move the
/// cursor, pos1 leaves, pos2 acts on the selected line (adding is inert while the
/// table is full).
pub fn calibration_action(menu: &mut CalibrationMenu, pressed: Button, full: bool) -> (r: CalibrationAction)
    requires
        old(menu).wf(),
    ensures
        final(menu).wf(),
        pressed.bits == UP_BIT ==> r == CalibrationAction::Stay && final(menu)@ == menu_prev_spec(old(menu)@),
        pressed.bits == DOWN_BIT ==> r == CalibrationAction::Stay && final(menu)@ == menu_next_spec(old(menu)@),
        pressed.bits == POS1_BIT ==> r == CalibrationAction::Exit && final(menu)@ == old(menu)@,
        pressed.bits == POS2_BIT ==> final(menu)@ == old(menu)@ && r == match old(menu)@.2 {
            Selected::AddNew => if full {
                CalibrationAction::Stay
            } else {
                CalibrationAction::AddPoint
            },
            Selected::RemoveAll => CalibrationAction::Apply(ConfigChange::ClearCalibration),
            Selected::ShowOne => if old(menu)@.0.len() > 0 {
                CalibrationAction::Apply(ConfigChange::RemovePoint(old(menu)@.1 as usize))
            } else {
                CalibrationAction::Stay
            },
        },
        pressed.bits != UP_BIT && pressed.bits != DOWN_BIT && pressed.bits != POS1_BIT && pressed.bits != POS2_BIT
            ==> r == CalibrationAction::Stay && final(menu)@ == old(menu)@,
{
    if pressed.bits == UP_BIT {
        menu.prev();
        CalibrationAction::Stay
    } else if pressed.bits == DOWN_BIT {
        menu.next();
        CalibrationAction::Stay
    } else if pressed.bits == POS1_BIT {
        CalibrationAction::Exit
    } else if pressed.bits == POS2_BIT {
        match menu.selected() {
            Selected::AddNew => if full {
                CalibrationAction::Stay
            } else {
                CalibrationAction::AddPoint
            },
            Selected::RemoveAll => CalibrationAction::Apply(ConfigChange::ClearCalibration),
            Selected::ShowOne => match menu.shown_index() {
                Some(index) => CalibrationAction::Apply(ConfigChange::RemovePoint(index)),
                None => CalibrationAction::Stay,
            },
        }
    } else {
        CalibrationAction::Stay
    }
}

/// The length a new calibration point starts from.
pub const INITIAL_POINT_MM: u16 = 1000;

/// One step of the candidate length: up adds a millimeter, down takes one away,
/// both saturating.
pub fn adjust_height(height: Millimeters, button: Button) -> (r: Millimeters)
    requires
        button.bits == UP_BIT || button.bits == DOWN_BIT,
    ensures
        button.bits == UP_BIT ==> r.mm() == saturating_add_spec(height.mm(), 1),
        button.bits == DOWN_BIT ==> r.mm() == saturating_sub_spec(height.mm(), 1),
{
    if button.bits == UP_BIT {
        height.increase()
    } else {
        height.decrease()
    }
}

/// What the screen that adds a point does with a press.
#[derive(Debug, Clone, Copy, PartialEq, Eq, Structural)]
pub enum AddPointAction {
    Stay,
    /// Up or down is held: adjust the candidate length.
    Adjust(Button),
    /// Leave without saving.
    Cancel,
    /// Store the point.
    Commit(ConfigChange),
}

pub open spec fn add_point_action_spec(adc: u16, height: Millimeters, pressed: Button) -> AddPointAction {
    if pressed.bits == UP_BIT || pressed.bits == DOWN_BIT {
        AddPointAction::Adjust(pressed)
    } else if pressed.bits == POS1_BIT {
        AddPointAction::Cancel
    } else if pressed.bits == POS2_BIT {
        AddPointAction::Commit(ConfigChange::InsertPoint(adc, height))
    } else {
        AddPointAction::Stay
    }
}

/// The reaction to a single press while adding the point `(adc, height)`.
pub fn add_point_action(adc: u16, height: Millimeters, pressed: Button) -> (r: AddPointAction)
    ensures
        r == add_point_action_spec(adc, height, pressed),
{
    if pressed.bits == UP_BIT || pressed.bits == DOWN_BIT {
        AddPointAction::Adjust(pressed)
    } else if pressed.bits == POS1_BIT {
        AddPointAction::Cancel
    } else if pressed.bits == POS2_BIT {
        AddPointAction::Commit(ConfigChange::InsertPoint(adc, height))
    } else {
        AddPointAction::Stay
    }
}

/// `height` moved `n` millimeters up or down, saturating.
pub open spec fn moved_spec(height: int, up: bool, n: int) -> int {
    if up {
        saturating_add_spec(height, n)
    } else {
        saturating_sub_spec(height, n)
    }
}

/// The accelerating hold-to-repeat ladder: a held button moves the candidate
/// length by the current step on each tick, and the step grows to the next rung
/// after each hold period.
#[derive(Debug, Clone, Copy)]
pub struct Ladder {
    steps: [u16; 4],
    rung: usize,
    speed_up_after_ms: u64,
    start_ms: u64,
}

impl View for Ladder {
    type V = (Seq<u16>, int, int, int);

    closed spec fn view(&self) -> (Seq<u16>, int, int, int) {
        (self.steps@, self.rung as int, self.speed_up_after_ms as int, self.start_ms as int)
    }
}

impl Ladder {
    pub open spec fn wf(&self) -> bool {
        0 <= self@.1 < 4
    }

    pub open spec fn step_spec(&self) -> int {
        self@.0[self@.1] as int
    }

    /// A ladder on its first rung, its hold period starting at `now_ms`.
    pub fn new(steps: [u16; 4], speed_up_after_ms: u64, now_ms: u64) -> (r: Self)
        ensures
            r.wf(),
            r@ == (steps@, 0int, speed_up_after_ms as int, now_ms as int),
    {
        Ladder { steps, rung: 0, speed_up_after_ms, start_ms: now_ms }
    }

    /// The ladder of the calibration screen: 1, 10, 50, 100 mm, two seconds a rung.
    pub fn standard(now_ms: u64) -> (r: Self)
        ensures
            r.wf(),
            r@ == (seq![1u16, 10u16, 50u16, 100u16], 0int, 2000int, now_ms as int),
    {
        let steps: [u16; 4] = [1, 10, 50, 100];
        assert(steps@ =~= seq![1u16, 10u16, 50u16, 100u16]);
        Self::new(steps, 2000, now_ms)
    }

    pub fn current_step(&self) -> (r: u16)
        requires
            self.wf(),
        ensures
            r == self.step_spec(),
    {
        self.steps[self.rung]
    }

    /// `height` moved by one millimeter per unit of the current step (at least
    /// one), in the direction of `button`.
    pub fn repeat(&self, height: Millimeters, button: Button) -> (r: Millimeters)
        requires
            self.wf(),
            button.bits == UP_BIT || button.bits == DOWN_BIT,
        ensures
            r.mm() == moved_spec(
                height.mm(),
                button.bits == UP_BIT,
                if self.step_spec() == 0 {
                    1
                } else {
                    self.step_spec()
                },
            ),
    {
        let step = self.current_step();
        let n: u16 = if step == 0 {
            1
        } else {
            step
        };
        let mut h = adjust_height(height, button);
        let mut i: u16 = 1;
        while i < n
            invariant
                1 <= i <= n,
                button.bits == UP_BIT || button.bits == DOWN_BIT,
                h.mm() == moved_spec(height.mm(), button.bits == UP_BIT, i as int),
            decreases n - i,
        {
            h = adjust_height(h, button);
            i = i + 1;
        }
        h
    }

    /// Climbs to the next rung once the current one has been held for the hold
    /// period; the top rung stays.
    pub fn accelerate(&mut self, now_ms: u64)
        requires
            old(self).wf(),
        ensures
            final(self).wf(),
            final(self)@.0 == old(self)@.0,
            final(self)@.2 == old(self)@.2,
            if now_ms >= old(self)@.3 && now_ms - old(self)@.3 >= old(self)@.2 && old(self)@.1 < 3 {
                final(self)@.1 == old(self)@.1 + 1 && final(self)@.3 == now_ms
            } else {
                final(self)@.1 == old(self)@.1 && final(self)@.3 == old(self)@.3
            },
    {
        if now_ms < self.start_ms || now_ms - self.start_ms < self.speed_up_after_ms {
            return;
        }
        if self.rung < 3 {
            self.rung = self.rung + 1;
            self.start_ms = now_ms;
        }
    }
}

pub open spec fn mode_after_start(a: StartAction) -> OperationMode {
    if a == StartAction::EnterOptions {
        OperationMode::Options
    } else {
        OperationMode::Start
    }
}

pub open spec fn mode_after_options(a: OptionsAction) -> OperationMode {
    match a {
        OptionsAction::Exit => OperationMode::Start,
        OptionsAction::EnterCalibration => OperationMode::Calibration,
        OptionsAction::ResetDrive => OperationMode::ResetDrive,
        _ => OperationMode::Options,
    }
}

pub open spec fn mode_after_calibration(a: CalibrationAction) -> OperationMode {
    match a {
        CalibrationAction::Exit => OperationMode::Options,
        CalibrationAction::AddPoint => OperationMode::CalibrationAddPoint,
        _ => OperationMode::Calibration,
    }
}

pub open spec fn mode_after_add_point(a: AddPointAction) -> OperationMode {
    match a {
        AddPointAction::Cancel => OperationMode::Calibration,
        AddPointAction::Commit(_) => OperationMode::Calibration,
        _ => OperationMode::CalibrationAddPoint,
    }
}

/// The top-level sequencer: the current mode and what each screen remembers
/// while it is open (the options selection, the calibration cursor).
pub struct Machine {
    pub mode: OperationMode,
    pub selected: OptionItem,
    pub menu: CalibrationMenu,
}

impl Machine {
    pub open spec fn wf(&self) -> bool {
        self.menu.wf()
    }

    /// The start screen, with fresh screen state.
    pub fn new() -> (r: Self)
        ensures
            r.wf(),
            r.mode == OperationMode::Start,
            r.selected == OptionItem::SavePos1,
            r.menu@.0.len() == 0,
    {
        Machine {
            mode: OperationMode::Start,
            selected: OptionItem::SavePos1,
            menu: CalibrationMenu::new(Calibration::new()),
        }
    }

    /// A confirmed press on the start screen; entering the options starts at
    /// their first entry.
    pub fn start_press(&mut self, pressed: Button, config: &InnerData) -> (r: StartAction)
        requires
            old(self).wf(),
            old(self).mode == OperationMode::Start,
        ensures
            final(self).wf(),
            r == start_action_spec(pressed, config.position_1, config.position_2),
            final(self).mode == mode_after_start(r),
            r == StartAction::EnterOptions ==> final(self).selected == OptionItem::SavePos1,
            r != StartAction::EnterOptions ==> final(self).selected == old(self).selected,
            final(self).menu@ == old(self).menu@,
    {
        let r = start_action(pressed, config);
        if r == StartAction::EnterOptions {
            self.mode = OperationMode::Options;
            self.selected = OptionItem::SavePos1;
        }
        r
    }

    /// A single press on the options screen; entering the calibration screen
    /// starts with its cursor on "add" over `table`.
    pub fn options_press(&mut self, pressed: Button, table: &Calibration) -> (r: OptionsAction)
        requires
            old(self).wf(),
            old(self).mode == OperationMode::Options,
            table.wf(),
        ensures
            final(self).wf(),
            final(self).mode == mode_after_options(r),
            pressed.bits == POS2_BIT ==> r == activate_spec(old(self).selected),
            pressed.bits == POS1_BIT ==> r == OptionsAction::Exit,
            pressed.bits == UP_BIT ==> r == OptionsAction::Stay && option_index(final(self).selected) == (
            option_index(old(self).selected) + 3) % 4,
            pressed.bits == DOWN_BIT ==> r == OptionsAction::Stay && option_index(final(self).selected) == (
            option_index(old(self).selected) + 1) % 4,
            pressed.bits != UP_BIT && pressed.bits != DOWN_BIT ==> final(self).selected == old(self).selected,
            pressed.bits != UP_BIT && pressed.bits != DOWN_BIT && pressed.bits != POS1_BIT && pressed.bits != POS2_BIT
                ==> r == OptionsAction::Stay,
            r == OptionsAction::EnterCalibration ==> final(self).menu@ == (table@, 0int, Selected::AddNew),
            r != OptionsAction::EnterCalibration ==> final(self).menu@ == old(self).menu@,
    {
        let r = options_action(&mut self.selected, pressed);
        match r {
            OptionsAction::Exit => {
                self.mode = OperationMode::Start;
            },
            OptionsAction::EnterCalibration => {
                self.mode = OperationMode::Calibration;
                self.menu = CalibrationMenu::new(table.clone());
            },
            OptionsAction::ResetDrive => {
                self.mode = OperationMode::ResetDrive;
            },
            _ => {},
        }
        r
    }

    /// Any single press ends the reset drive, back to the options.
    pub fn reset_drive_press(&mut self)
        requires
            old(self).mode == OperationMode::ResetDrive,
        ensures
            final(self).mode == OperationMode::Options,
            final(self).selected == old(self).selected,
            final(self).menu@ == old(self).menu@,
    {
        self.mode = OperationMode::Options;
    }

    /// Shows the calibration screen over the current table.
    pub fn refresh_calibration(&mut self, table: &Calibration)
        requires
            old(self).wf(),
            table.wf(),
        ensures
            final(self).wf(),
            final(self).mode == old(self).mode,
            final(self).selected == old(self).selected,
            final(self).menu@.0 == table@,
    {
        self.menu.update_calibration(table);
    }

    /// A single press on the calibration screen.
    pub fn calibration_press(&mut self, pressed: Button, full: bool) -> (r: CalibrationAction)
        requires
            old(self).wf(),
            old(self).mode == OperationMode::Calibration,
        ensures
            final(self).wf(),
            final(self).mode == mode_after_calibration(r),
            final(self).selected == old(self).selected,
            pressed.bits == UP_BIT ==> r == CalibrationAction::Stay && final(self).menu@ == menu_prev_spec(old(self).menu@),
            pressed.bits == DOWN_BIT ==> r == CalibrationAction::Stay && final(self).menu@ == menu_next_spec(old(self).menu@),
            pressed.bits == POS1_BIT ==> r == CalibrationAction::Exit && final(self).menu@ == old(self).menu@,
            pressed.bits == POS2_BIT ==> final(self).menu@ == old(self).menu@,
            pressed.bits != UP_BIT && pressed.bits != DOWN_BIT && pressed.bits != POS1_BIT && pressed.bits != POS2_BIT
                ==> r == CalibrationAction::Stay && final(self).menu@ == old(self).menu@,
            pressed.bits == POS2_BIT && old(self).menu@.2 == Selected::AddNew ==> r == if full {
                CalibrationAction::Stay
            } else {
                CalibrationAction::AddPoint
            },
            pressed.bits == POS2_BIT && old(self).menu@.2 == Selected::RemoveAll ==> r == CalibrationAction::Apply(ConfigChange::ClearCalibration),
            pressed.bits == POS2_BIT && old(self).menu@.2 == Selected::ShowOne && old(self).menu@.0.len() > 0 ==> r == CalibrationAction::Apply(ConfigChange::RemovePoint(old(self).menu@.1 as usize)),
    {
        let r = calibration_action(&mut self.menu, pressed, full);
        match r {
            CalibrationAction::Exit => {
                self.mode = OperationMode::Options;
            },
            CalibrationAction::AddPoint => {
                self.mode = OperationMode::CalibrationAddPoint;
            },
            _ => {},
        }
        r
    }

    /// A single press while adding the point `(adc, height)`.
    pub fn add_point_press(&mut self, adc: u16, height: Millimeters, pressed: Button) -> (r: AddPointAction)
        requires
            old(self).wf(),
            old(self).mode == OperationMode::CalibrationAddPoint,
        ensures
            final(self).wf(),
            r == add_point_action_spec(adc, height, pressed),
            final(self).mode == mode_after_add_point(r),
            final(self).selected == old(self).selected,
            final(self).menu@ == old(self).menu@,
    {
        let r = add_point_action(adc, height, pressed);
        match r {
            AddPointAction::Cancel | AddPointAction::Commit(_) => {
                self.mode = OperationMode::Calibration;
            },
            _ => {},
        }
        r
    }
}

} // verus!
