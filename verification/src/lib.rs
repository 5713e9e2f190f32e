//! A frame-pacing timer.
//!
//! The [`Timer`] regulates the rate of a repeating loop: once per iteration
//! the loop calls [`Timer::frame`], which blocks until the next scheduled
//! instant and returns the wall-clock time elapsed since the previous call.
//! A slack policy decides whether a late frame keeps chasing its original
//! cadence or resynchronizes to the present, and [`Timer::log`] reports a
//! windowed average of the achieved frame duration on a configurable cadence.
//!
//! All timestamps and durations are integers: nanoseconds counted from the
//! moment the timer was created.

pub mod clock;
pub mod laws;
pub mod timer;

pub use clock::busy_wait_until;
pub use clock::sleep_until;
pub use clock::sleep_until_high_precision;
pub use clock::TIME_CAP;
pub use timer::Log;
pub use timer::Timer;
pub use timer::DEFAULT_LOG_INTERVAL_NANOS;
pub use timer::DEFAULT_MAX_DELAY_FRAMES;
pub use timer::DEFAULT_PERIOD_NANOS;
pub use timer::MAX_LOG_INTERVAL_NANOS;
pub use timer::MAX_PERIOD_NANOS;
