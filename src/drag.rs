//! Window dragging: the state of a drag gesture and the window moves it asks for.
//!
//! Logical coordinates are held in fixed point: one logical unit is
//! `UNITS_PER_LOGICAL` of the integers used here.
use vstd::prelude::*;

verus! {

/// Fixed-point units in one logical (scale-independent) unit of length.
pub const UNITS_PER_LOGICAL: i64 = 1_000_000;

/// Pointer movement below this in both directions is noise (0.1 logical units).
pub const DEAD_ZONE: i64 = 100_000;

/// A window corner in physical pixels.
#[derive(Clone, Copy, Debug, PartialEq, Eq, Structural)]
pub struct PhysicalPosition {
    pub x: i32,
    pub y: i32,
}

/// A point in logical coordinates, in fixed-point units.
#[derive(Clone, Copy, Debug, PartialEq, Eq, Structural)]
pub struct LogicalPosition {
    pub x: i64,
    pub y: i64,
}

/// What is remembered of a drag gesture when the pointer goes down.
#[derive(Clone, Copy, Debug, PartialEq, Eq, Structural)]
pub struct DragState {
    /// The window's physical top-left corner at the press.
    pub origin: PhysicalPosition,
    /// The press point, in logical coordinates.
    pub press: LogicalPosition,
    /// When the press happened, in milliseconds of a monotonic clock.
    pub pressed_at: u64,
}

/// The inputs of one drag start with a live window.
#[derive(Clone, Copy, Debug, PartialEq, Eq, Structural)]
pub struct DragStart {
    pub origin: PhysicalPosition,
    pub press: LogicalPosition,
    pub at: u64,
}

/// Holds at most one drag gesture.
pub struct DragController {
    state: Option<DragState>,
}

impl View for DragController {
    type V = Option<DragState>;

    closed spec fn view(&self) -> Option<DragState> {
        self.state
    }
}

/// The drag state after a start with `window` as the live window's corner
/// (`None`: the window is gone, and nothing changes).
pub open spec fn started(
    prev: Option<DragState>,
    window: Option<PhysicalPosition>,
    press: LogicalPosition,
    at: u64,
) -> Option<DragState> {
    match window {
        Some(origin) => Some(DragState { origin, press, pressed_at: at }),
        None => prev,
    }
}

/// The drag state after the starts in `starts`, in order, each with a live window.
pub open spec fn replay_starts(prev: Option<DragState>, starts: Seq<DragStart>) -> Option<DragState>
    decreases starts.len(),
{
    if starts.len() == 0 {
        prev
    } else {
        let last = starts.last();
        started(replay_starts(prev, starts.drop_last()), Some(last.origin), last.press, last.at)
    }
}

/// A movement of `(dx, dy)` lies in the dead zone when both components do.
pub open spec fn in_dead_zone(dx: int, dy: int) -> bool {
    -DEAD_ZONE < dx < DEAD_ZONE && -DEAD_ZONE < dy < DEAD_ZONE
}

impl DragController {
    /// A controller with no gesture recorded.
    pub fn new() -> (r: DragController)
        ensures
            r@ is None,
    {
        DragController { state: None }
    }

    /// Records a press at `press`, made at time `at`, while the window's corner
    /// is `window`. Whatever was recorded before is replaced; where the window
    /// is gone (`None`) nothing happens.
    pub fn start_drag(&mut self, window: Option<PhysicalPosition>, press: LogicalPosition, at: u64)
        ensures
            final(self)@ == started(old(self)@, window, press, at),
    {
        if let Some(origin) = window {
            self.state = Some(DragState { origin, press, pressed_at: at });
        }
    }

    /// The gesture recorded, if any.
    pub fn state(&self) -> (r: Option<DragState>)
        ensures
            r == self@,
    {
        self.state
    }
}

/// Whether a movement of `(dx, dy)` is too small to act on.
pub fn is_in_dead_zone(dx: i64, dy: i64) -> (r: bool)
    ensures
        r == in_dead_zone(dx as int, dy as int),
{
    -DEAD_ZONE < dx && dx < DEAD_ZONE && -DEAD_ZONE < dy && dy < DEAD_ZONE
}

/// The position to give the window when the pointer moved by `(dx, dy)`,
/// or `None` where the window is left alone: the movement is in the dead zone,
/// or the window (`current`, its logical position now) is gone.
pub fn move_window(current: Option<LogicalPosition>, dx: i64, dy: i64) -> (r: Option<LogicalPosition>)
    requires
        current matches Some(p) ==> i64::MIN <= p.x + dx <= i64::MAX && i64::MIN <= p.y + dy
            <= i64::MAX,
    ensures
        in_dead_zone(dx as int, dy as int) ==> r is None,
        !in_dead_zone(dx as int, dy as int) ==> r == match current {
            Some(p) => Some(LogicalPosition { x: (p.x + dx) as i64, y: (p.y + dy) as i64 }),
            None => None::<LogicalPosition>,
        },
{
    if is_in_dead_zone(dx, dy) {
        return None;
    }
    match current {
        Some(p) => Some(LogicalPosition { x: p.x + dx, y: p.y + dy }),
        None => None,
    }
}

/// After any number of drag starts with a live window, exactly one gesture is
/// recorded, and it is the one of the last start.
pub proof fn lemma_last_start_wins(prev: Option<DragState>, starts: Seq<DragStart>)
    requires
        starts.len() > 0,
    ensures
        replay_starts(prev, starts) == Some(
            DragState {
                origin: starts.last().origin,
                press: starts.last().press,
                pressed_at: starts.last().at,
            },
        ),
{
}

} // verus!
