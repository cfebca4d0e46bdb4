//! Settings of the post-failure control and balancing protocol.

use vstd::prelude::*;

verus! {

/// How many handshake rounds the quorum may repeat and how many seconds pass
/// between heartbeats in each operating mode.
#[derive(Debug, Clone, Copy, PartialEq, Eq, Structural)]
pub struct ProtocolSettings {
    max_attempts: u64,
    time_between_heartbeats_balance_mode: u64,
    time_between_heartbeats_normal: u64,
    time_between_heartbeats_safe_mode: u64,
}

impl ProtocolSettings {
    pub closed spec fn max_attempts_spec(&self) -> u64 {
        self.max_attempts
    }

    pub closed spec fn balance_mode_spec(&self) -> u64 {
        self.time_between_heartbeats_balance_mode
    }

    pub closed spec fn normal_spec(&self) -> u64 {
        self.time_between_heartbeats_normal
    }

    pub closed spec fn safe_mode_spec(&self) -> u64 {
        self.time_between_heartbeats_safe_mode
    }

    /// Settings with the given limit and heartbeat periods (in seconds).
    pub fn new(max_attempts: u64, balance_mode: u64, normal: u64, safe_mode: u64) -> (s: Self)
        ensures
            s.max_attempts_spec() == max_attempts,
            s.balance_mode_spec() == balance_mode,
            s.normal_spec() == normal,
            s.safe_mode_spec() == safe_mode,
    {
        ProtocolSettings {
            max_attempts,
            time_between_heartbeats_balance_mode: balance_mode,
            time_between_heartbeats_normal: normal,
            time_between_heartbeats_safe_mode: safe_mode,
        }
    }

    pub fn get_max_attempts(&self) -> (n: u64)
        ensures
            n == self.max_attempts_spec(),
    {
        self.max_attempts
    }

    pub fn get_time_between_heartbeats_balance_mode(&self) -> (n: u64)
        ensures
            n == self.balance_mode_spec(),
    {
        self.time_between_heartbeats_balance_mode
    }

    pub fn get_time_between_heartbeats_normal(&self) -> (n: u64)
        ensures
            n == self.normal_spec(),
    {
        self.time_between_heartbeats_normal
    }

    pub fn get_time_between_heartbeats_safe_mode(&self) -> (n: u64)
        ensures
            n == self.safe_mode_spec(),
    {
        self.time_between_heartbeats_safe_mode
    }
}

impl Default for ProtocolSettings {
    /// Settings with no quorum repetition and every heartbeat period at zero.
    fn default() -> (s: Self)
        ensures
            s.max_attempts_spec() == 0,
            s.balance_mode_spec() == 0,
            s.normal_spec() == 0,
            s.safe_mode_spec() == 0,
    {
        ProtocolSettings {
            max_attempts: 0,
            time_between_heartbeats_balance_mode: 0,
            time_between_heartbeats_normal: 0,
            time_between_heartbeats_safe_mode: 0,
        }
    }
}

} // verus!
