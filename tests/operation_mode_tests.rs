use standing_desk::calibration::Calibration;
use standing_desk::direction::Direction;
use standing_desk::input::Button;
use standing_desk::menu::{CalibrationItem, CalibrationMenu, OptionItem, Selected, Start};
use standing_desk::millimeters::Millimeters;
use standing_desk::operation_mode::{
    add_point_action, adjust_height, calibration_action, options_action, save_position,
    start_action, AddPointAction, CalibrationAction, DriveToPosition, Ladder, OptionsAction,
    StartAction,
};
use standing_desk::operation_mode::{Machine, OperationMode};
use standing_desk::storage::{ConfigChange, StorageData};

fn mm(v: u16) -> Millimeters {
    Millimeters::from_mm(v)
}

#[test]
fn drive_to_saved_position() {
    let mut data = StorageData::const_default();
    data.init_inner(&[]);
    data.update(ConfigChange::SetPosition1(mm(400)));
    let target = match start_action(Button::pos1(), data.get()) {
        StartAction::DriveTo(t) => t,
        other => panic!("unexpected {:?}", other),
    };
    assert_eq!(target, mm(400));
    let run = DriveToPosition::start(mm(100), target).unwrap();
    assert_eq!(run.direction, Direction::Up);
    for h in 100..382u16 {
        assert!(run.on_the_way(mm(h)), "height {}", h);
    }
    for h in 382..=420u16 {
        assert!(!run.on_the_way(mm(h)), "height {}", h);
    }
}

#[test]
fn drive_down_and_already_there() {
    let run = DriveToPosition::start(mm(800), mm(400)).unwrap();
    assert_eq!(run.direction, Direction::Down);
    assert!(run.on_the_way(mm(419)));
    assert!(!run.on_the_way(mm(418)));
    assert_eq!(DriveToPosition::start(mm(401), mm(400)), None);
    assert_eq!(DriveToPosition::start(mm(398), mm(400)), None);
    assert!(DriveToPosition::start(mm(397), mm(400)).is_some());
}

#[test]
fn start_screen_actions() {
    let data = {
        let mut d = StorageData::const_default();
        d.init_inner(&[]);
        d
    };
    assert_eq!(start_action(Button::up_and_down(), data.get()), StartAction::EnterOptions);
    assert_eq!(start_action(Button::up(), data.get()), StartAction::Jog(Direction::Up, Button::up()));
    assert_eq!(start_action(Button::down(), data.get()), StartAction::Jog(Direction::Down, Button::down()));
    assert_eq!(start_action(Button::pos1(), data.get()), StartAction::Stay);
    assert_eq!(start_action(Button::pos2(), data.get()), StartAction::Stay);
    assert_eq!(start_action(Button::pos1().union(Button::pos2()), data.get()), StartAction::Stay);
}

#[test]
fn options_screen_navigation() {
    let mut sel = OptionItem::SavePos1;
    assert_eq!(options_action(&mut sel, Button::up()), OptionsAction::Stay);
    assert_eq!(sel, OptionItem::ResetDrive);
    assert_eq!(options_action(&mut sel, Button::down()), OptionsAction::Stay);
    assert_eq!(sel, OptionItem::SavePos1);
    options_action(&mut sel, Button::down());
    assert_eq!(sel, OptionItem::SavePos2);
    assert_eq!(options_action(&mut sel, Button::pos2()), OptionsAction::SavePosition2);
    assert_eq!(options_action(&mut sel, Button::pos1()), OptionsAction::Exit);
    assert_eq!(sel, OptionItem::SavePos2);
    assert_eq!(
        save_position(OptionsAction::SavePosition2, mm(700)),
        Some(ConfigChange::SetPosition2(mm(700)))
    );
    assert_eq!(save_position(OptionsAction::Exit, mm(700)), None);
    assert_eq!(OptionItem::Calibration.label(), "Height calibration");
    assert_eq!(sel.iter(), [OptionItem::SavePos1, OptionItem::SavePos2, OptionItem::Calibration, OptionItem::ResetDrive]);
    assert!(sel.is_selected(&OptionItem::SavePos2));
}

fn calibration(points: &[(u16, u16)]) -> Calibration {
    let mut c = Calibration::new();
    for &(a, l) in points {
        c.insert(a, mm(l)).unwrap();
    }
    c
}

#[test]
fn calibration_menu_walks_all_points() {
    let c = calibration(&[(100, 10), (200, 20)]);
    let mut menu = CalibrationMenu::new(c);
    assert_eq!(menu.selected(), Selected::AddNew);
    menu.next();
    assert_eq!(menu.selected(), Selected::RemoveAll);
    menu.next();
    assert_eq!((menu.selected(), menu.shown_index()), (Selected::ShowOne, Some(0)));
    menu.next();
    assert_eq!((menu.selected(), menu.shown_index()), (Selected::ShowOne, Some(1)));
    assert_eq!(
        menu.iter(),
        vec![
            CalibrationItem::AddNew,
            CalibrationItem::RemoveAll,
            CalibrationItem::ShowOne { index: 1, adc: 200, height: mm(20) }
        ]
    );
    menu.next();
    assert_eq!(menu.selected(), Selected::AddNew);
    menu.prev();
    assert_eq!((menu.selected(), menu.shown_index()), (Selected::ShowOne, Some(1)));
    menu.prev();
    menu.prev();
    assert_eq!(menu.selected(), Selected::RemoveAll);
    menu.prev();
    assert_eq!(menu.selected(), Selected::AddNew);
}

#[test]
fn calibration_menu_empty_and_shrinking() {
    let mut menu = CalibrationMenu::new(Calibration::new());
    menu.next();
    assert_eq!(menu.selected(), Selected::AddNew);
    assert_eq!(menu.shown_index(), None);
    assert_eq!(menu.iter(), vec![CalibrationItem::AddNew]);
    let c = calibration(&[(100, 10), (200, 20), (300, 30)]);
    menu.update_calibration(&c);
    menu.prev();
    assert_eq!(menu.shown_index(), Some(2));
    menu.update_calibration(&calibration(&[(100, 10)]));
    assert_eq!(menu.shown_index(), Some(0));
    assert_eq!(menu.selected(), Selected::ShowOne);
    menu.update_calibration(&Calibration::new());
    assert_eq!(menu.selected(), Selected::AddNew);
    assert!(menu.is_selected(&CalibrationItem::AddNew));
}

#[test]
fn calibration_screen_actions() {
    let c = calibration(&[(100, 10), (200, 20)]);
    let mut menu = CalibrationMenu::new(c);
    assert_eq!(calibration_action(&mut menu, Button::pos2(), false), CalibrationAction::AddPoint);
    assert_eq!(calibration_action(&mut menu, Button::pos2(), true), CalibrationAction::Stay);
    calibration_action(&mut menu, Button::down(), false);
    assert_eq!(
        calibration_action(&mut menu, Button::pos2(), false),
        CalibrationAction::Apply(ConfigChange::ClearCalibration)
    );
    calibration_action(&mut menu, Button::down(), false);
    calibration_action(&mut menu, Button::down(), false);
    assert_eq!(
        calibration_action(&mut menu, Button::pos2(), false),
        CalibrationAction::Apply(ConfigChange::RemovePoint(1))
    );
    assert_eq!(calibration_action(&mut menu, Button::pos1(), false), CalibrationAction::Exit);
}

#[test]
fn adding_a_point() {
    assert_eq!(add_point_action(1500, mm(1000), Button::up()), AddPointAction::Adjust(Button::up()));
    assert_eq!(add_point_action(1500, mm(1000), Button::pos1()), AddPointAction::Cancel);
    assert_eq!(
        add_point_action(1500, mm(990), Button::pos2()),
        AddPointAction::Commit(ConfigChange::InsertPoint(1500, mm(990)))
    );
    assert_eq!(add_point_action(1500, mm(990), Button::up_and_down()), AddPointAction::Stay);
    assert_eq!(adjust_height(mm(1000), Button::up()), mm(1001));
    assert_eq!(adjust_height(mm(0), Button::down()), mm(0));
}

#[test]
fn ladder_accelerates() {
    let mut ladder = Ladder::standard(0);
    assert_eq!(ladder.current_step(), 1);
    assert_eq!(ladder.repeat(mm(1000), Button::up()), mm(1001));
    ladder.accelerate(1999);
    assert_eq!(ladder.current_step(), 1);
    ladder.accelerate(2000);
    assert_eq!(ladder.current_step(), 10);
    assert_eq!(ladder.repeat(mm(1000), Button::down()), mm(990));
    ladder.accelerate(3000);
    assert_eq!(ladder.current_step(), 10);
    ladder.accelerate(4000);
    assert_eq!(ladder.current_step(), 50);
    ladder.accelerate(6000);
    assert_eq!(ladder.current_step(), 100);
    ladder.accelerate(60000);
    assert_eq!(ladder.current_step(), 100);
    assert_eq!(ladder.repeat(mm(50), Button::down()), mm(0));
    assert_eq!(ladder.repeat(mm(65500), Button::up()), mm(u16::MAX));
}

#[test]
fn machine_walks_through_the_screens() {
    let mut data = StorageData::const_default();
    data.init_inner(&[]);
    let mut m = Machine::new();
    assert_eq!(m.mode, OperationMode::Start);
    assert_eq!(m.start_press(Button::up(), data.get()), StartAction::Jog(Direction::Up, Button::up()));
    assert_eq!(m.mode, OperationMode::Start);
    assert_eq!(m.start_press(Button::up_and_down(), data.get()), StartAction::EnterOptions);
    assert_eq!(m.mode, OperationMode::Options);
    let table = calibration(&[(100, 10)]);
    m.options_press(Button::down(), &table);
    m.options_press(Button::down(), &table);
    assert_eq!(m.selected, OptionItem::Calibration);
    assert_eq!(m.options_press(Button::pos2(), &table), OptionsAction::EnterCalibration);
    assert_eq!(m.mode, OperationMode::Calibration);
    assert_eq!(m.menu.selected(), Selected::AddNew);
    assert_eq!(m.calibration_press(Button::pos2(), false), CalibrationAction::AddPoint);
    assert_eq!(m.mode, OperationMode::CalibrationAddPoint);
    assert_eq!(m.add_point_press(1200, mm(1000), Button::down()), AddPointAction::Adjust(Button::down()));
    assert_eq!(m.mode, OperationMode::CalibrationAddPoint);
    assert_eq!(
        m.add_point_press(1200, mm(999), Button::pos2()),
        AddPointAction::Commit(ConfigChange::InsertPoint(1200, mm(999)))
    );
    assert_eq!(m.mode, OperationMode::Calibration);
    m.refresh_calibration(&calibration(&[(100, 10), (1200, 999)]));
    assert_eq!(m.calibration_press(Button::pos1(), false), CalibrationAction::Exit);
    assert_eq!(m.mode, OperationMode::Options);
    assert_eq!(m.selected, OptionItem::Calibration);
    m.options_press(Button::down(), &table);
    assert_eq!(m.options_press(Button::pos2(), &table), OptionsAction::ResetDrive);
    assert_eq!(m.mode, OperationMode::ResetDrive);
    m.reset_drive_press();
    assert_eq!(m.mode, OperationMode::Options);
    assert_eq!(m.options_press(Button::pos1(), &table), OptionsAction::Exit);
    assert_eq!(m.mode, OperationMode::Start);
    m.start_press(Button::up_and_down(), data.get());
    assert_eq!(m.selected, OptionItem::SavePos1);
}

#[test]
fn start_screen_hides_uncalibrated_height() {
    let s = Start::new(mm(1234), false, Direction::Stopped);
    assert_eq!(s.height, None);
    let s = Start::new(mm(1234), true, Direction::Up);
    assert_eq!(s.height, Some(mm(1234)));
    assert_eq!(s.direction, Direction::Up);
}
