//! A stopwatch engine: a two-state machine that accumulates the time spent
//! running, together with the text that a display shows for it.

pub mod display;
pub mod laws;
pub mod machine;
pub mod stopwatch;
pub mod time;
pub mod timer;

pub use display::{format_duration, toggle_label};
pub use machine::{Message, StopwatchView, TickState};
pub use stopwatch::Stopwatch;
pub use time::{Duration, Timestamp};
pub use timer::Timer;
