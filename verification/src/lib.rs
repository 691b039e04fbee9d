//! A deterministic, monotonic tick clock.
//!
//! Time here is a count of readings, not of seconds: a [`Clock`] hands out
//! [`Instant`]s that grow by one tick per reading, and a [`Duration`] is the
//! distance between two of them. One tick stands for one microsecond.

pub mod clock;
pub mod duration;
pub mod instant;

pub use clock::Clock;
pub use duration::Duration;
pub use instant::Instant;
