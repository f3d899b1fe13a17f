//! Drive direction and the request/acknowledge hand-off between the deciding logic and
//! the motor driver.

use vstd::prelude::*;

verus! {

/// Drive direction of the column.
#[derive(Debug, Clone, Copy, PartialEq, Eq, Structural)]
pub enum Direction {
    Up,
    Stopped,
    Down,
    /// Both motor lines driven: the drive's own reset run.
    ResetDrive,
}

impl Direction {
    /// One-character marker shown next to the height.
    pub fn symbol(self) -> (r: &'static str)
        ensures
            r@ == match self {
                Direction::Up => "+"@,
                Direction::Stopped => "0"@,
                Direction::Down => "-"@,
                Direction::ResetDrive => "R"@,
            },
    {
        match self {
            Direction::Up => "+",
            Direction::Stopped => "0",
            Direction::Down => "-",
            Direction::ResetDrive => "R",
        }
    }

    /// Levels of the two motor outputs `(up, down)`: both low stops, one high
    /// drives that way, both high runs the reset drive.
    pub fn outputs(self) -> (r: (bool, bool))
        ensures
            r == outputs_spec(self),
    {
        match self {
            Direction::Up => (true, false),
            Direction::Stopped => (false, false),
            Direction::Down => (false, true),
            Direction::ResetDrive => (true, true),
        }
    }
}

pub open spec fn outputs_spec(d: Direction) -> (bool, bool) {
    match d {
        Direction::Up => (true, false),
        Direction::Stopped => (false, false),
        Direction::Down => (false, true),
        Direction::ResetDrive => (true, true),
    }
}

/// State of the arbiter as `(requested, current)`.
pub type ArbiterState = (Direction, Direction);

/// The direction still to be actuated: the requested one while it differs from the
/// acknowledged one.
pub open spec fn planned_spec(s: ArbiterState) -> Option<Direction> {
    if s.0 != s.1 {
        Some(s.0)
    } else {
        None
    }
}

pub open spec fn request_spec(s: ArbiterState, d: Direction) -> ArbiterState {
    (d, s.1)
}

pub open spec fn acknowledge_spec(s: ArbiterState, d: Direction) -> ArbiterState {
    (s.0, d)
}

/// Hand-off between the logic that decides a direction and the task that drives
/// the motor: logic writes `requested`, the drive task writes `current` once it
/// has actuated.
#[derive(Debug)]
pub struct DirectionControl {
    requested: Direction,
    current: Direction,
}

impl View for DirectionControl {
    type V = ArbiterState;

    closed spec fn view(&self) -> ArbiterState {
        (self.requested, self.current)
    }
}

impl DirectionControl {
    /// Both stopped.
    pub fn new() -> (r: Self)
        ensures
            r@ == (Direction::Stopped, Direction::Stopped),
    {
        Self { requested: Direction::Stopped, current: Direction::Stopped }
    }

    /// Asks for a direction; only the latest request counts.
    pub fn request(&mut self, new_direction: Direction)
        ensures
            final(self)@ == request_spec(old(self)@, new_direction),
    {
        self.requested = new_direction;
    }

    /// The requested direction, while the drive has not acknowledged it.
    pub fn planned(&self) -> (r: Option<Direction>)
        ensures
            r == planned_spec(self@),
    {
        if self.requested != self.current {
            Some(self.requested)
        } else {
            None
        }
    }

    /// Records that the drive now runs in `direction`.
    pub fn acknowledge(&mut self, direction: Direction)
        ensures
            final(self)@ == acknowledge_spec(old(self)@, direction),
    {
        self.current = direction;
    }

    /// The direction the drive last acknowledged.
    pub fn get(&self) -> (r: Direction)
        ensures
            r == self@.1,
    {
        self.current
    }

    /// The direction last requested.
    pub fn requested(&self) -> (r: Direction)
        ensures
            r == self@.0,
    {
        self.requested
    }
}

/// The handshake: nothing is planned right after the drive acknowledges the latest
/// request, and something is planned exactly while request and acknowledgement
/// differ.
pub proof fn lemma_handshake(s: ArbiterState, d: Direction, e: Direction)
    ensures
        planned_spec(acknowledge_spec(request_spec(s, d), d)) is None,
        s.0 == e ==> planned_spec(acknowledge_spec(s, e)) is None,
        planned_spec(s) is Some <==> s.0 != s.1,
        planned_spec(request_spec(s, d)) is Some <==> d != s.1,
{
}

} // verus!
