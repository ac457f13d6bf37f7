//! Nanosecond-precision sleeping on the most precise timer of each operating
//! system, as state machines that make no system call themselves.
//!
//! * Linux: a monotonic `timerfd`, armed one-shot and awaited through the
//!   reactor ([`linux`]).
//! * macOS: a `kqueue` with one one-shot `EVFILT_TIMER`, awaited the same way
//!   ([`macos`]).
//! * Windows: a high-resolution waitable timer ([`windows_timer`]).
//! * Elsewhere: the runtime's millisecond timer wheel.
//!
//! A machine's state says which call to make next; the caller makes it and
//! hands the answer back through `step`. When creating, arming or awaiting the
//! precise timer fails, the sleep degrades to the timer wheel for whatever time
//! remains, or to a yield where none does; failures to set a queue's descriptor
//! flags and to close are passed over. A sleep never returns early: see
//! `timing::sleep_never_returns_early`.

pub mod linux;
pub mod macos;
pub mod platform;
pub mod readiness;
pub mod run;
pub mod sleep;
pub mod timing;
pub mod windows_timer;

pub use platform::{backend_name, Platform};
pub use sleep::{sleep_ns, Sleep, SleepEvent, SleepStage};
