//! Monitoring types for INDIGO server availability tracking.
//!
//! Monitoring works on two levels: the host (ICMP ping, with a TCP connect as
//! fallback) and the server (a TCP handshake with the INDIGO server port). Only
//! changes of the server's status reach clients, as `ClientEvent`s.
use vstd::prelude::*;
use core::time::Duration;

verus! {

/// Server availability status.
#[derive(Debug, Clone, Copy, PartialEq, Eq)]
pub enum AvailabilityStatus {
    /// Host is reachable and INDIGO server is responding
    Available,
    /// Host is reachable but server is not responding, or high latency
    Degraded,
    /// Host is unreachable
    Unavailable,
}

impl AvailabilityStatus {
    pub open spec fn spec_text(self) -> &'static str {
        match self {
            AvailabilityStatus::Available => "Available",
            AvailabilityStatus::Degraded => "Degraded",
            AvailabilityStatus::Unavailable => "Unavailable",
        }
    }

    /// The name of the status.
    pub fn text(&self) -> (r: &'static str)
        ensures
            r == self.spec_text(),
    {
        match self {
            AvailabilityStatus::Available => "Available",
            AvailabilityStatus::Degraded => "Degraded",
            AvailabilityStatus::Unavailable => "Unavailable",
        }
    }
}

impl Default for AvailabilityStatus {
    /// A server is taken to be unavailable until it answers.
    fn default() -> (r: AvailabilityStatus)
        ensures
            r == AvailabilityStatus::Unavailable,
    {
        AvailabilityStatus::Unavailable
    }
}

/// Events emitted by the monitoring system (internal).
#[derive(Debug, Clone)]
pub enum MonitoringEvent {
    /// Server status has changed
    StatusChanged { previous: AvailabilityStatus, current: AvailabilityStatus },
    /// A ping result was received (low-level, hidden from Client API)
    PingResult { success: bool, duration: Option<Duration> },
    /// A server handshake result (low-level, hidden from Client API)
    HandshakeResult { success: bool },
}

/// Client-level events for server monitoring.
#[derive(Debug, Clone, Copy, PartialEq, Eq)]
pub enum ClientEvent {
    /// Server is fully available and responding normally.
    ServerAvailable,
    /// Server is in degraded state.
    ServerDegraded,
    /// Server is unreachable (host not responding).
    ServerUnavailable,
}

impl ClientEvent {
    pub open spec fn spec_from_status(status: AvailabilityStatus) -> ClientEvent {
        match status {
            AvailabilityStatus::Available => ClientEvent::ServerAvailable,
            AvailabilityStatus::Degraded => ClientEvent::ServerDegraded,
            AvailabilityStatus::Unavailable => ClientEvent::ServerUnavailable,
        }
    }

    /// The event that announces a server's new status.
    pub fn from_status(status: AvailabilityStatus) -> (r: ClientEvent)
        ensures
            r == ClientEvent::spec_from_status(status),
    {
        match status {
            AvailabilityStatus::Available => ClientEvent::ServerAvailable,
            AvailabilityStatus::Degraded => ClientEvent::ServerDegraded,
            AvailabilityStatus::Unavailable => ClientEvent::ServerUnavailable,
        }
    }
}

} // verus!
