//! A refreshable timeout.
//!
//! The installer flow throttles recurring work — probing the installer's
//! web server for its URL, detecting mouse inactivity — with a timer that
//! expires once a fixed span has passed since it was last refreshed.  The
//! clock itself is the operating system's; the expiry decision over two
//! clock readings is verified, and the convenience methods feed it the
//! current reading.

use vstd::prelude::*;

verus! {

/// Relies on `std::time::SystemTime::now` and its distance to the epoch:
/// a millisecond clock reading.  The clock can jump, so nothing is
/// promised of the value.
#[verifier::external_body]
fn now_millis() -> u64 {
    match std::time::SystemTime::now().duration_since(std::time::UNIX_EPOCH) {
        Ok(elapsed) => elapsed.as_millis() as u64,
        Err(_) => 0,
    }
}

/// Whether a timer refreshed at `last_refresh` has expired by `now`: more
/// than `timeout` milliseconds lie in between.  A clock reading from
/// before the refresh (the clock jumped backwards) counts as no time
/// passed.
pub open spec fn expired_spec(last_refresh: u64, now: u64, timeout: u64) -> bool {
    if now >= last_refresh {
        now - last_refresh > timeout
    } else {
        false
    }
}

/// A timer that expires once `timeout` milliseconds have passed since the
/// last refresh.
pub struct TimeoutTimer {
    /// The clock reading at the last refresh.
    pub last_refresh: u64,
    /// The span after which the timer expires, in milliseconds.
    pub timeout: u64,
}

impl TimeoutTimer {
    /// A timer refreshed now.
    pub fn new(timeout: u64) -> (timer: TimeoutTimer)
        ensures
            timer.timeout == timeout,
    {
        TimeoutTimer { last_refresh: now_millis(), timeout }
    }

    /// Restart the span from now.
    pub fn refresh(&mut self)
        ensures
            final(self).timeout == old(self).timeout,
    {
        self.last_refresh = now_millis();
    }

    /// The expiry decision against a given clock reading.
    pub fn expired_at(&self, now: u64) -> (expired: bool)
        ensures
            expired == expired_spec(self.last_refresh, now, self.timeout),
    {
        if now >= self.last_refresh {
            now - self.last_refresh > self.timeout
        } else {
            false
        }
    }

    /// Whether the timer has expired by the clock's current reading.
    pub fn expired(&self) -> (expired: bool)
        ensures
            exists|now: u64| expired == expired_spec(self.last_refresh, now, self.timeout),
    {
        let now = now_millis();
        let expired = self.expired_at(now);
        proof {
            assert(expired == expired_spec(self.last_refresh, now, self.timeout));
        }
        expired
    }
}

} // verus!
