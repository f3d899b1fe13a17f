//! Control core of a height-adjustable lifting column: millimeter lengths,
//! sensor calibration, drive-direction arbitration, button tracking, the
//! operation-mode state machine and the persisted configuration record.

pub mod millimeters;
pub mod points;
pub mod calibration;
pub mod direction;
pub mod input;
pub mod menu;
pub mod storage;
pub mod operation_mode;
pub mod sampling;
pub mod history;
