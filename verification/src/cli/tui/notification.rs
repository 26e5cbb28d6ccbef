//! A message shown for a while in the status bar.

use vstd::prelude::*;
use std::time::{Duration, Instant};

verus! {

/// The monotonic clock's instant, `std::time::Instant`.
#[verifier::external_type_specification]
#[verifier::external_body]
pub struct ExInstant(Instant);

/// Calls `Instant::now`: the current instant of the monotonic clock.
#[verifier::external_body]
fn instant_now() -> Instant {
    Instant::now()
}

/// Calls `Instant::elapsed`: the time since `since`, by the clock.
#[verifier::external_body]
fn elapsed(since: &Instant) -> Duration {
    since.elapsed()
}

/// Calls `Duration::as_nanos`: the whole duration in nanoseconds.
#[verifier::external_body]
fn duration_nanos(duration: &Duration) -> u128 {
    duration.as_nanos()
}

/// A message, when it was made and for how many milliseconds it is shown.
pub struct Notification {
    message: String,
    created_at: Instant,
    duration_millis: u64,
}

impl Notification {
    /// The text of the message.
    pub closed spec fn message_view(&self) -> Seq<char> {
        self.message@
    }

    /// How many milliseconds the message is shown.
    pub closed spec fn duration_millis_view(&self) -> nat {
        self.duration_millis as nat
    }

    /// Whether a message shown for `elapsed_nanos` nanoseconds has been shown
    /// for its whole duration.
    pub open spec fn is_expired_at(&self, elapsed_nanos: int) -> bool {
        elapsed_nanos >= self.duration_millis_view() * 1_000_000
    }

    /// A message made now, shown for `duration_millis` milliseconds.
    pub fn new(message: &str, duration_millis: u64) -> (n: Self)
        ensures
            n.message_view() == message@,
            n.duration_millis_view() == duration_millis,
    {
        Self { message: message.to_owned(), created_at: instant_now(), duration_millis }
    }

    /// The text of the message.
    pub fn get_message(&self) -> (m: &str)
        ensures
            m@ == self.message_view(),
    {
        self.message.as_str()
    }

    /// How long the message has been shown, in nanoseconds, by the monotonic
    /// clock.
    pub(crate) fn elapsed_nanos(&self) -> u128 {
        duration_nanos(&elapsed(&self.created_at))
    }

    /// Whether a message shown for `elapsed_nanos` nanoseconds has been shown
    /// for its whole duration.
    pub fn expired_after(&self, elapsed_nanos: u128) -> (b: bool)
        ensures
            b == self.is_expired_at(elapsed_nanos as int),
    {
        elapsed_nanos >= (self.duration_millis as u128) * 1_000_000
    }

    /// Whether the message has been shown for its whole duration, by the
    /// monotonic clock: `expired_after` the time the clock gives.
    pub fn is_expired(&self) -> (b: bool)
        ensures
            exists|elapsed_nanos: u128| b == #[trigger] self.is_expired_at(elapsed_nanos as int),
    {
        let elapsed_nanos = self.elapsed_nanos();
        self.expired_after(elapsed_nanos)
    }
}

} // verus!
