use vstd::prelude::*;

verus! {

/// The congestion window of the rate-limit based controller: the largest
/// window there is, so that only the connection's rate limit paces sending.
pub const CONGESTION_WINDOW: u64 = u64::MAX;

/// A congestion controller to use when a maximum sending rate is set.
///
/// The sending rate is enforced by the connection's rate limit; this
/// controller keeps the congestion window at its largest value and so leaves
/// congestion control to that limit. It has no state: no event changes it.
#[derive(Clone, Copy, Debug, PartialEq, Eq)]
pub struct RateLimitBasedCC;

impl RateLimitBasedCC {
    /// The number of bytes that may be in flight.
    pub open spec fn congestion_window(self) -> u64 {
        CONGESTION_WINDOW
    }

    /// Deliveries of `bytes` were confirmed; the window does not move.
    pub fn on_ack(&mut self, bytes: u64, app_limited: bool)
        ensures
            *final(self) == *old(self),
            final(self).congestion_window() == CONGESTION_WINDOW,
    {
    }

    /// Packets were lost or marked congested; the window does not move.
    pub fn on_congestion_event(&mut self, is_persistent_congestion: bool, lost_bytes: u64)
        ensures
            *final(self) == *old(self),
            final(self).congestion_window() == CONGESTION_WINDOW,
    {
    }

    /// The path MTU changed; the window does not move.
    pub fn on_mtu_update(&mut self, new_mtu: u16)
        ensures
            *final(self) == *old(self),
            final(self).congestion_window() == CONGESTION_WINDOW,
    {
    }

    /// Number of bytes that may be in flight: always the largest window.
    pub fn window(&self) -> (window: u64)
        ensures
            window == self.congestion_window(),
            window == CONGESTION_WINDOW,
    {
        CONGESTION_WINDOW
    }

    /// The window a new controller starts with: the same largest window.
    pub fn initial_window(&self) -> (window: u64)
        ensures
            window == self.congestion_window(),
            window == CONGESTION_WINDOW,
    {
        CONGESTION_WINDOW
    }
}

/// Builds a [`RateLimitBasedCC`] for each new connection.
#[derive(Clone, Copy, Debug, PartialEq, Eq)]
pub struct RateLimitBasedCCConfig;

impl RateLimitBasedCCConfig {
    /// A fresh controller, whatever the path's current MTU.
    pub fn build(&self, current_mtu: u16) -> (controller: RateLimitBasedCC)
        ensures
            controller == RateLimitBasedCC,
            controller.congestion_window() == CONGESTION_WINDOW,
    {
        RateLimitBasedCC
    }
}

} // verus!
