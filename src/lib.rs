//! Logic of a small always-on-top desktop widget: window dragging, a clock,
//! a weather summary taken from an RSS feed, and the close sequence.
pub mod clock;
pub mod drag;
pub mod feed;
pub mod lifecycle;
pub mod weather;

pub use clock::{Clock, SECONDS_PER_DAY};
pub use drag::{
    is_in_dead_zone, move_window, DragController, DragStart, DragState, LogicalPosition,
    PhysicalPosition, DEAD_ZONE, UNITS_PER_LOGICAL,
};
pub use feed::{feed_text, first_title, FetchError, PLACEHOLDER_TEXT};
pub use lifecycle::{close_steps, timer_finished_alert, Alert, CloseStep};
pub use weather::{
    display_from_groups, weather_display, weather_text, Pattern, LOAD_FAILED_TEXT, NO_MATCH_TEXT,
    WEATHER_PATTERN,
};
