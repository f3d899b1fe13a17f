//! Button tracking: per-button transition counters, the changes between two snapshots,
//! and the press queries built on them.

use vstd::prelude::*;

verus! {

/// Bit of each physical button in a `Button` set.
pub const UP_BIT: u8 = 1;
pub const DOWN_BIT: u8 = 2;
pub const POS1_BIT: u8 = 4;
pub const POS2_BIT: u8 = 8;

/// A set of buttons, one bit each; a single button is a set of one.
#[derive(Debug, Clone, Copy, PartialEq, Eq, Structural, Hash)]
pub struct Button {
    pub bits: u8,
}

pub open spec fn has_bit(bits: u8, bit: u8) -> bool {
    bits & bit != 0
}

impl Button {
    pub fn empty() -> (r: Button)
        ensures
            r.bits == 0,
    {
        Button { bits: 0 }
    }

    pub fn up() -> (r: Button)
        ensures
            r.bits == UP_BIT,
    {
        Button { bits: UP_BIT }
    }

    pub fn down() -> (r: Button)
        ensures
            r.bits == DOWN_BIT,
    {
        Button { bits: DOWN_BIT }
    }

    /// Doubles as back or cancel.
    pub fn pos1() -> (r: Button)
        ensures
            r.bits == POS1_BIT,
    {
        Button { bits: POS1_BIT }
    }

    /// Doubles as ok or store.
    pub fn pos2() -> (r: Button)
        ensures
            r.bits == POS2_BIT,
    {
        Button { bits: POS2_BIT }
    }

    /// Up and down together: the chord that opens the options.
    pub fn up_and_down() -> (r: Button)
        ensures
            r.bits == UP_BIT | DOWN_BIT,
    {
        Button { bits: UP_BIT | DOWN_BIT }
    }

    pub fn is_empty(self) -> (r: bool)
        ensures
            r == (self.bits == 0),
    {
        self.bits == 0
    }

    /// Whether every button of `other` is in this set.
    pub fn contains(self, other: Button) -> (r: bool)
        ensures
            r == (self.bits & other.bits == other.bits),
    {
        self.bits & other.bits == other.bits
    }

    pub fn union(self, other: Button) -> (r: Button)
        ensures
            r.bits == self.bits | other.bits,
    {
        Button { bits: self.bits | other.bits }
    }
}

/// One button, as a counter of its transitions: odd means pressed. The counter
/// wraps at 256, which keeps its parity.
#[derive(Debug, Clone, Copy, PartialEq, Eq, Structural)]
pub struct State {
    pub changes: u8,
}

pub open spec fn pressed_spec(s: State) -> bool {
    s.changes % 2 == 1
}

/// How a button went from an older to a newer snapshot.
#[derive(Debug, Clone, Copy, PartialEq, Eq, Structural)]
pub enum StateChange {
    Pressed,
    Released,
    StillPressed,
    StillReleased,
}

pub open spec fn change_spec(older: State, newer: State) -> StateChange {
    match (pressed_spec(older), pressed_spec(newer)) {
        (false, false) => StateChange::StillReleased,
        (true, true) => StateChange::StillPressed,
        (true, false) => StateChange::Released,
        (false, true) => StateChange::Pressed,
    }
}

/// Transitions between two snapshots, modulo 256.
pub open spec fn steps_spec(older: State, newer: State) -> int {
    (newer.changes as int - older.changes as int) % 256
}

impl State {
    /// Released, never changed.
    pub fn new() -> (r: State)
        ensures
            r.changes == 0,
            !pressed_spec(r),
    {
        State { changes: 0 }
    }

    pub fn is_pressed(&self) -> (r: bool)
        ensures
            r == pressed_spec(*self),
    {
        self.changes % 2 == 1
    }

    /// Marks the button pressed; counts a transition only if it was released.
    pub fn press(&mut self)
        ensures
            pressed_spec(*final(self)),
            pressed_spec(*old(self)) ==> *final(self) == *old(self),
            !pressed_spec(*old(self)) ==> final(self).changes == (old(self).changes + 1) % 256,
    {
        if self.changes % 2 == 0 {
            self.changes = self.changes.wrapping_add(1);
        }
    }

    /// Marks the button released; counts a transition only if it was pressed.
    pub fn release(&mut self)
        ensures
            !pressed_spec(*final(self)),
            !pressed_spec(*old(self)) ==> *final(self) == *old(self),
            pressed_spec(*old(self)) ==> final(self).changes == (old(self).changes + 1) % 256,
    {
        if self.changes % 2 == 1 {
            self.changes = self.changes.wrapping_add(1);
        }
    }

    /// How the button went from `other` (older) to `self` (newer).
    pub fn changed_since(&self, other: &Self) -> (r: StateChange)
        ensures
            r == change_spec(*other, *self),
    {
        match (other.is_pressed(), self.is_pressed()) {
            (false, false) => StateChange::StillReleased,
            (true, true) => StateChange::StillPressed,
            (true, false) => StateChange::Released,
            (false, true) => StateChange::Pressed,
        }
    }

    /// Whether more than one transition happened since `other`, so that an edge
    /// between the snapshots went unseen.
    pub fn missed_updates_since(&self, other: &Self) -> (r: bool)
        ensures
            r == (steps_spec(*other, *self) > 1),
    {
        self.changes.wrapping_sub(other.changes) > 1
    }
}

/// Changes of all four buttons between two snapshots.
#[derive(Debug, Clone, Copy, PartialEq, Eq, Structural)]
pub struct StateChanges {
    pub up: StateChange,
    pub down: StateChange,
    pub pos1: StateChange,
    pub pos2: StateChange,
    /// Some button made more than one transition between the snapshots.
    pub missed_updates: bool,
}

/// The button is down in the newer snapshot.
pub open spec fn is_held(c: StateChange) -> bool {
    c == StateChange::Pressed || c == StateChange::StillPressed
}

pub open spec fn bit_if(b: bool, bit: u8) -> u8 {
    if b {
        bit
    } else {
        0
    }
}

/// Bits of the buttons that are down in the newer snapshot.
pub open spec fn pressed_bits(c: StateChanges) -> u8 {
    (bit_if(is_held(c.up), UP_BIT) + bit_if(is_held(c.down), DOWN_BIT) + bit_if(
        is_held(c.pos1),
        POS1_BIT,
    ) + bit_if(is_held(c.pos2), POS2_BIT)) as u8
}

/// Every button of `bits` is up in the newer snapshot.
pub open spec fn released_spec(c: StateChanges, bits: u8) -> bool {
    &&& has_bit(bits, UP_BIT) ==> !is_held(c.up)
    &&& has_bit(bits, DOWN_BIT) ==> !is_held(c.down)
    &&& has_bit(bits, POS1_BIT) ==> !is_held(c.pos1)
    &&& has_bit(bits, POS2_BIT) ==> !is_held(c.pos2)
}

/// The one button that was just pressed, when it is the only button down and no
/// transition went unseen.
pub open spec fn pressed_exclusive_spec(c: StateChanges) -> Option<Button> {
    let held = pressed_bits(c);
    if c.missed_updates {
        None
    } else if held == UP_BIT && c.up == StateChange::Pressed {
        Some(Button { bits: UP_BIT })
    } else if held == DOWN_BIT && c.down == StateChange::Pressed {
        Some(Button { bits: DOWN_BIT })
    } else if held == POS1_BIT && c.pos1 == StateChange::Pressed {
        Some(Button { bits: POS1_BIT })
    } else if held == POS2_BIT && c.pos2 == StateChange::Pressed {
        Some(Button { bits: POS2_BIT })
    } else {
        None
    }
}

/// A provisional press: the set of buttons down, when there is one.
pub open spec fn press_candidate_spec(c: StateChanges) -> Option<Button> {
    if pressed_bits(c) != 0 {
        Some(Button { bits: pressed_bits(c) })
    } else {
        None
    }
}

fn held(c: StateChange) -> (r: bool)
    ensures
        r == is_held(c),
{
    match c {
        StateChange::Pressed | StateChange::StillPressed => true,
        _ => false,
    }
}

impl StateChanges {
    /// Each button with its change.
    pub fn button_map(&self) -> (r: [(Button, StateChange); 4])
        ensures
            r@ == seq![
                (Button { bits: UP_BIT }, self.up),
                (Button { bits: DOWN_BIT }, self.down),
                (Button { bits: POS1_BIT }, self.pos1),
                (Button { bits: POS2_BIT }, self.pos2),
            ],
    {
        let r = [
            (Button::up(), self.up),
            (Button::down(), self.down),
            (Button::pos1(), self.pos1),
            (Button::pos2(), self.pos2),
        ];
        assert(r@ =~= seq![
            (Button { bits: UP_BIT }, self.up),
            (Button { bits: DOWN_BIT }, self.down),
            (Button { bits: POS1_BIT }, self.pos1),
            (Button { bits: POS2_BIT }, self.pos2),
        ]);
        r
    }

    /// The buttons that are down in the newer snapshot.
    pub fn pressed(&self) -> (r: Button)
        ensures
            r.bits == pressed_bits(*self),
    {
        let mut bits: u8 = 0;
        if held(self.up) {
            bits = bits + UP_BIT;
        }
        if held(self.down) {
            bits = bits + DOWN_BIT;
        }
        if held(self.pos1) {
            bits = bits + POS1_BIT;
        }
        if held(self.pos2) {
            bits = bits + POS2_BIT;
        }
        Button { bits }
    }

    /// The single button just pressed, ignoring chords and coalesced edges.
    pub fn pressed_exclusive(&self) -> (r: Option<Button>)
        ensures
            r == pressed_exclusive_spec(*self),
    {
        let held = self.pressed().bits;
        if self.missed_updates {
            None
        } else if held == UP_BIT && self.up == StateChange::Pressed {
            Some(Button::up())
        } else if held == DOWN_BIT && self.down == StateChange::Pressed {
            Some(Button::down())
        } else if held == POS1_BIT && self.pos1 == StateChange::Pressed {
            Some(Button::pos1())
        } else if held == POS2_BIT && self.pos2 == StateChange::Pressed {
            Some(Button::pos2())
        } else {
            None
        }
    }

    /// Whether every button of `button` is up in the newer snapshot.
    pub fn released(&self, button: Button) -> (r: bool)
        ensures
            r == released_spec(*self, button.bits),
    {
        !(button.bits & UP_BIT != 0 && held(self.up)) && !(button.bits & DOWN_BIT != 0 && held(
            self.down,
        )) && !(button.bits & POS1_BIT != 0 && held(self.pos1)) && !(button.bits & POS2_BIT != 0
            && held(self.pos2))
    }

    /// A provisional press: the buttons down, if any.
    pub fn press_candidate(&self) -> (r: Option<Button>)
        ensures
            r == press_candidate_spec(*self),
    {
        let pressed = self.pressed();
        if pressed.is_empty() {
            None
        } else {
            Some(pressed)
        }
    }
}

/// Whether a provisional press stands after the settle delay: the buttons down at
/// the re-check are exactly the candidate.
pub open spec fn confirm_press_spec(candidate: Button, recheck: StateChanges) -> bool {
    press_candidate_spec(recheck) == Some(candidate)
}

pub fn confirm_press(candidate: Button, recheck: &StateChanges) -> (r: bool)
    ensures
        r == confirm_press_spec(candidate, *recheck),
{
    match recheck.press_candidate() {
        Some(b) => b == candidate,
        None => false,
    }
}

/// The four buttons of the keypad at one instant.
#[derive(Debug, Clone, Copy, PartialEq, Eq, Structural)]
pub struct Inputs {
    pub up: State,
    pub down: State,
    /// Doubles as back or cancel.
    pub pos1: State,
    /// Doubles as ok or store.
    pub pos2: State,
}

pub open spec fn changes_spec(older: Inputs, newer: Inputs) -> StateChanges {
    StateChanges {
        up: change_spec(older.up, newer.up),
        down: change_spec(older.down, newer.down),
        pos1: change_spec(older.pos1, newer.pos1),
        pos2: change_spec(older.pos2, newer.pos2),
        missed_updates: steps_spec(older.up, newer.up) > 1 || steps_spec(older.down, newer.down) > 1
            || steps_spec(older.pos1, newer.pos1) > 1 || steps_spec(older.pos2, newer.pos2) > 1,
    }
}

impl Inputs {
    /// All released.
    pub fn new() -> (r: Self)
        ensures
            r.up.changes == 0 && r.down.changes == 0 && r.pos1.changes == 0 && r.pos2.changes == 0,
    {
        Self { up: State::new(), down: State::new(), pos1: State::new(), pos2: State::new() }
    }

    /// Button by button, how `self` (newer) differs from `other` (older).
    pub fn changed_since(&self, other: &Self) -> (r: StateChanges)
        ensures
            r == changes_spec(*other, *self),
    {
        let missed = self.up.missed_updates_since(&other.up) || self.down.missed_updates_since(
            &other.down,
        ) || self.pos1.missed_updates_since(&other.pos1) || self.pos2.missed_updates_since(
            &other.pos2,
        );
        StateChanges {
            up: self.up.changed_since(&other.up),
            down: self.down.changed_since(&other.down),
            pos1: self.pos1.changed_since(&other.pos1),
            pos2: self.pos2.changed_since(&other.pos2),
            missed_updates: missed,
        }
    }

    /// Takes a newer snapshot as the reference and returns what changed since the
    /// previous one.
    pub fn observe(&mut self, latest: &Inputs) -> (r: StateChanges)
        ensures
            r == changes_spec(*old(self), *latest),
            *final(self) == *latest,
    {
        let changes = latest.changed_since(self);
        *self = *latest;
        changes
    }
}

/// A button's bit is in `pressed_bits` exactly when that button is down.
pub proof fn lemma_pressed_bits(c: StateChanges)
    ensures
        has_bit(pressed_bits(c), UP_BIT) <==> is_held(c.up),
        has_bit(pressed_bits(c), DOWN_BIT) <==> is_held(c.down),
        has_bit(pressed_bits(c), POS1_BIT) <==> is_held(c.pos1),
        has_bit(pressed_bits(c), POS2_BIT) <==> is_held(c.pos2),
{
    let u = bit_if(is_held(c.up), UP_BIT);
    let d = bit_if(is_held(c.down), DOWN_BIT);
    let p = bit_if(is_held(c.pos1), POS1_BIT);
    let q = bit_if(is_held(c.pos2), POS2_BIT);
    assert(pressed_bits(c) == (u + d + p + q) as u8);
    assert({
        &&& ((u + d + p + q) as u8 & 1 != 0) == (u != 0)
        &&& ((u + d + p + q) as u8 & 2 != 0) == (d != 0)
        &&& ((u + d + p + q) as u8 & 4 != 0) == (p != 0)
        &&& ((u + d + p + q) as u8 & 8 != 0) == (q != 0)
    }) by (bit_vector)
        requires
            u == 0 || u == 1,
            d == 0 || d == 2,
            p == 0 || p == 4,
            q == 0 || q == 8,
    ;
}

/// Debounce stability: a provisional press is confirmed at the settle re-check
/// exactly when the buttons down then are the candidate; so a press whose button
/// was let go before the re-check is never confirmed, and one still held, with no
/// other button, is.
pub proof fn lemma_debounce_stability(candidate: Button, settled: Inputs, later: Inputs)
    ensures
        confirm_press_spec(candidate, changes_spec(settled, later)) <==> (candidate.bits != 0
            && pressed_bits(changes_spec(settled, later)) == candidate.bits),
        confirm_press_spec(candidate, changes_spec(settled, later)) ==> {
            &&& has_bit(candidate.bits, UP_BIT) ==> pressed_spec(later.up)
            &&& has_bit(candidate.bits, DOWN_BIT) ==> pressed_spec(later.down)
            &&& has_bit(candidate.bits, POS1_BIT) ==> pressed_spec(later.pos1)
            &&& has_bit(candidate.bits, POS2_BIT) ==> pressed_spec(later.pos2)
        },
{
    lemma_pressed_bits(changes_spec(settled, later));
}

/// Delay after which a provisional press is checked again, in milliseconds.
pub const SETTLE_MS: u64 = 80;

/// Where the press debouncer stands.
#[derive(Debug, Clone, Copy, PartialEq, Eq, Structural)]
pub enum PressWait {
    /// Watching for a press.
    Idle,
    /// A provisional press of `candidate` seen at `since_ms`, waiting to settle.
    Settling { candidate: Button, since_ms: u64 },
}

/// One look of the press debouncer, from `d` to `after` with result `r`: while
/// idle it takes the latest snapshot as reference and starts settling on a
/// provisional press; once the settle delay has passed it re-checks and
/// confirms the candidate if the pressed set is unchanged, then idles again.
pub open spec fn poll_spec(d: PressDebouncer, latest: Inputs, now_ms: u64, r: Option<Button>, after: PressDebouncer) -> bool {
    match d.wait {
        PressWait::Idle => {
            &&& r is None
            &&& after.reference == latest
            &&& after.wait == match press_candidate_spec(changes_spec(d.reference, latest)) {
                Some(c) => PressWait::Settling { candidate: c, since_ms: now_ms },
                None => PressWait::Idle,
            }
        },
        PressWait::Settling { candidate, since_ms } => {
            &&& after.reference == d.reference
            &&& if now_ms < since_ms || now_ms - since_ms < SETTLE_MS {
                r is None && after.wait == d.wait
            } else {
                &&& after.wait == PressWait::Idle
                &&& r == if confirm_press_spec(candidate, changes_spec(d.reference, latest)) {
                    Some(candidate)
                } else {
                    None::<Button>
                }
            }
        },
    }
}

/// Confirms a press only when the pressed set is unchanged after the settle delay.
#[derive(Debug, Clone, Copy, PartialEq, Eq, Structural)]
pub struct PressDebouncer {
    pub reference: Inputs,
    pub wait: PressWait,
}

impl PressDebouncer {
    /// Starts watching for changes against `reference`.
    pub fn new(reference: Inputs) -> (r: Self)
        ensures
            r.reference == reference,
            r.wait == PressWait::Idle,
    {
        PressDebouncer { reference, wait: PressWait::Idle }
    }

    /// Looks at the latest snapshot at time `now_ms`: returns the confirmed press,
    /// if this look confirms one.
    pub fn poll(&mut self, latest: &Inputs, now_ms: u64) -> (r: Option<Button>)
        ensures
            poll_spec(*old(self), *latest, now_ms, r, *final(self)),
    {
        match self.wait {
            PressWait::Idle => {
                let changes = self.reference.observe(latest);
                match changes.press_candidate() {
                    Some(candidate) => {
                        self.wait = PressWait::Settling { candidate, since_ms: now_ms };
                    },
                    None => {},
                }
                None
            },
            PressWait::Settling { candidate, since_ms } => {
                if now_ms < since_ms || now_ms - since_ms < SETTLE_MS {
                    return None;
                }
                self.wait = PressWait::Idle;
                if confirm_press(candidate, &latest.changed_since(&self.reference)) {
                    Some(candidate)
                } else {
                    None
                }
            },
        }
    }
}

/// Debounce timing: a press is confirmed only at a look at least the settle delay
/// after it was first seen, with every one of its buttons still down then and no
/// other; so a press let go within the settle window is never confirmed, and one
/// still held alone when the window has passed is.
pub proof fn lemma_debounce_timing(d: PressDebouncer, latest: Inputs, now_ms: u64, r: Option<Button>, after: PressDebouncer)
    requires
        poll_spec(d, latest, now_ms, r, after),
    ensures
        r matches Some(b) ==> d.wait matches PressWait::Settling { candidate, since_ms } && b == candidate
            && now_ms >= since_ms + SETTLE_MS && pressed_bits(changes_spec(d.reference, latest)) == b.bits,
        r matches Some(b) ==> {
            &&& has_bit(b.bits, UP_BIT) ==> pressed_spec(latest.up)
            &&& has_bit(b.bits, DOWN_BIT) ==> pressed_spec(latest.down)
            &&& has_bit(b.bits, POS1_BIT) ==> pressed_spec(latest.pos1)
            &&& has_bit(b.bits, POS2_BIT) ==> pressed_spec(latest.pos2)
        },
        d.wait matches PressWait::Settling { candidate, since_ms } ==> (now_ms >= since_ms + SETTLE_MS
            && pressed_bits(changes_spec(d.reference, latest)) == candidate.bits && candidate.bits != 0 ==> r == Some(candidate)),
{
    lemma_pressed_bits(changes_spec(d.reference, latest));
}

/// Bits of the buttons down in a snapshot.
pub open spec fn snapshot_bits(x: Inputs) -> u8 {
    (bit_if(pressed_spec(x.up), UP_BIT) + bit_if(pressed_spec(x.down), DOWN_BIT) + bit_if(
        pressed_spec(x.pos1),
        POS1_BIT,
    ) + bit_if(pressed_spec(x.pos2), POS2_BIT)) as u8
}

/// A run of looks of the press debouncer: `ds[i]` looks at snapshot `looks[i].0`
/// at time `looks[i].1`, answers `rs[i]` and becomes `ds[i + 1]`.
pub open spec fn poll_run(ds: Seq<PressDebouncer>, looks: Seq<(Inputs, u64)>, rs: Seq<Option<Button>>) -> bool {
    &&& ds.len() == looks.len() + 1
    &&& rs.len() == looks.len()
    &&& forall|i: int|
        0 <= i < looks.len() ==> #[trigger] poll_spec(ds[i], looks[i].0, looks[i].1, rs[i], ds[i + 1])
}

/// Every settling candidate was the set of buttons down at an earlier look, at
/// the time it records.
proof fn lemma_settling_origin(ds: Seq<PressDebouncer>, looks: Seq<(Inputs, u64)>, rs: Seq<Option<Button>>, i: int)
    requires
        poll_run(ds, looks, rs),
        ds[0].wait == PressWait::Idle,
        0 <= i <= looks.len(),
    ensures
        ds[i].wait matches PressWait::Settling { candidate, since_ms } ==> exists|j: int|
            0 <= j < i && #[trigger] looks[j].1 == since_ms && snapshot_bits(looks[j].0) == candidate.bits,
    decreases i,
{
    if i > 0 {
        let k = i - 1;
        lemma_settling_origin(ds, looks, rs, k);
        assert(poll_spec(ds[k], looks[k].0, looks[k].1, rs[k], ds[k + 1]));
        if ds[k].wait == PressWait::Idle {
            if let PressWait::Settling { candidate, since_ms } = ds[i].wait {
                assert(looks[k].1 == since_ms && snapshot_bits(looks[k].0) == candidate.bits);
            }
        }
    }
}

/// A press let go within the settle delay is never confirmed: if all looks that
/// see any button down lie less than the settle delay apart, no look of the run
/// confirms a press.
pub proof fn lemma_short_press_never_confirmed(ds: Seq<PressDebouncer>, looks: Seq<(Inputs, u64)>, rs: Seq<Option<Button>>)
    requires
        poll_run(ds, looks, rs),
        ds[0].wait == PressWait::Idle,
        forall|a: int, b: int|
            0 <= a < looks.len() && 0 <= b < looks.len() && snapshot_bits(#[trigger] looks[a].0) != 0
                && snapshot_bits(#[trigger] looks[b].0) != 0 ==> looks[b].1 < looks[a].1 + SETTLE_MS,
    ensures
        forall|i: int| 0 <= i < rs.len() ==> #[trigger] rs[i] is None,
{
    assert forall|i: int| 0 <= i < rs.len() implies #[trigger] rs[i] is None by {
        assert(poll_spec(ds[i], looks[i].0, looks[i].1, rs[i], ds[i + 1]));
        lemma_settling_origin(ds, looks, rs, i);
        if let PressWait::Settling { candidate, since_ms } = ds[i].wait {
            if rs[i] is Some {
                let j = choose|j: int|
                    0 <= j < i && #[trigger] looks[j].1 == since_ms && snapshot_bits(looks[j].0)
                        == candidate.bits;
                assert(pressed_bits(changes_spec(ds[i].reference, looks[i].0)) == snapshot_bits(looks[i].0));
                assert(snapshot_bits(looks[i].0) != 0);
                assert(looks[i].1 < looks[j].1 + SETTLE_MS);
            }
        }
    }
}

/// Nothing down before look `j` keeps the debouncer idle up to `j`.
proof fn lemma_idle_until(ds: Seq<PressDebouncer>, looks: Seq<(Inputs, u64)>, rs: Seq<Option<Button>>, j: int, k: int)
    requires
        poll_run(ds, looks, rs),
        ds[0].wait == PressWait::Idle,
        0 <= k <= j < looks.len(),
        forall|a: int| 0 <= a < j ==> snapshot_bits(#[trigger] looks[a].0) == 0,
    ensures
        ds[k].wait == PressWait::Idle,
    decreases k,
{
    if k > 0 {
        let p = k - 1;
        lemma_idle_until(ds, looks, rs, j, p);
        assert(poll_spec(ds[p], looks[p].0, looks[p].1, rs[p], ds[p + 1]));
        assert(pressed_bits(changes_spec(ds[p].reference, looks[p].0)) == snapshot_bits(looks[p].0));
    }
}

/// Time runs forward over a stretch of looks.
proof fn lemma_time_forward(looks: Seq<(Inputs, u64)>, a: int, b: int)
    requires
        0 <= a <= b < looks.len(),
        forall|k: int| 0 <= k < b ==> #[trigger] looks[k].1 <= looks[k + 1].1,
    ensures
        looks[a].1 <= looks[b].1,
    decreases b - a,
{
    if a < b {
        lemma_time_forward(looks, a, b - 1);
        assert(looks[b - 1].1 <= looks[b].1);
    }
}

/// After the press first seen at look `j`, the debouncer settles on it until a
/// look confirms it.
proof fn lemma_settles_on(ds: Seq<PressDebouncer>, looks: Seq<(Inputs, u64)>, rs: Seq<Option<Button>>, j: int, m: int, k: int)
    requires
        poll_run(ds, looks, rs),
        ds[j].wait == PressWait::Idle,
        0 <= j < k <= m < looks.len(),
        snapshot_bits(looks[j].0) != 0,
        forall|a: int| j <= a <= m ==> snapshot_bits(#[trigger] looks[a].0) == snapshot_bits(looks[j].0),
        forall|a: int| 0 <= a < m ==> #[trigger] looks[a].1 <= looks[a + 1].1,
    ensures
        (exists|i: int| j < i < k && #[trigger] rs[i] == Some(Button { bits: snapshot_bits(looks[j].0) }))
            || ds[k].wait == (PressWait::Settling {
            candidate: Button { bits: snapshot_bits(looks[j].0) },
            since_ms: looks[j].1,
        }),
    decreases k - j,
{
    let c = Button { bits: snapshot_bits(looks[j].0) };
    if k == j + 1 {
        assert(poll_spec(ds[j], looks[j].0, looks[j].1, rs[j], ds[j + 1]));
        assert(pressed_bits(changes_spec(ds[j].reference, looks[j].0)) == snapshot_bits(looks[j].0));
    } else {
        lemma_settles_on(ds, looks, rs, j, m, k - 1);
        let p = k - 1;
        assert(poll_spec(ds[p], looks[p].0, looks[p].1, rs[p], ds[p + 1]));
        if ds[p].wait == (PressWait::Settling { candidate: c, since_ms: looks[j].1 }) {
            lemma_time_forward(looks, j, p);
            assert(pressed_bits(changes_spec(ds[p].reference, looks[p].0)) == snapshot_bits(looks[p].0));
            if !(looks[p].1 < looks[j].1 || looks[p].1 - looks[j].1 < SETTLE_MS) {
                assert(rs[p] == Some(c));
            }
        }
    }
}

/// A press held alone past the settle delay is confirmed: when nothing is down
/// before look `j`, the same buttons stay down from `j` to `m`, time runs forward
/// and look `m` comes at least the settle delay after `j`, some look after `j`
/// and up to `m` confirms exactly that press.
pub proof fn lemma_held_press_confirmed(ds: Seq<PressDebouncer>, looks: Seq<(Inputs, u64)>, rs: Seq<Option<Button>>, j: int, m: int)
    requires
        poll_run(ds, looks, rs),
        ds[0].wait == PressWait::Idle,
        0 <= j < m < looks.len(),
        forall|a: int| 0 <= a < j ==> snapshot_bits(#[trigger] looks[a].0) == 0,
        snapshot_bits(looks[j].0) != 0,
        forall|a: int| j <= a <= m ==> snapshot_bits(#[trigger] looks[a].0) == snapshot_bits(looks[j].0),
        forall|a: int| 0 <= a < m ==> #[trigger] looks[a].1 <= looks[a + 1].1,
        looks[m].1 >= looks[j].1 + SETTLE_MS,
    ensures
        exists|i: int| j < i <= m && #[trigger] rs[i] == Some(Button { bits: snapshot_bits(looks[j].0) }),
{
    let c = Button { bits: snapshot_bits(looks[j].0) };
    lemma_idle_until(ds, looks, rs, j, j);
    lemma_settles_on(ds, looks, rs, j, m, m);
    if ds[m].wait == (PressWait::Settling { candidate: c, since_ms: looks[j].1 }) {
        assert(poll_spec(ds[m], looks[m].0, looks[m].1, rs[m], ds[m + 1]));
        assert(pressed_bits(changes_spec(ds[m].reference, looks[m].0)) == snapshot_bits(looks[m].0));
        assert(rs[m] == Some(c));
    }
}

} // verus!
