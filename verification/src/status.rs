//! The value types that cross the boundary: status, close reason, metrics.
//!
//! Each mirrors a modelpipe type rather than re-exporting it, because
//! modelpipe marks all three `#[non_exhaustive]` and a Swift enum is
//! exhaustive or nothing. A case modelpipe grows after this build is read
//! conservatively, as written below.

use modelpipe::{CloseReason, NetworkMetrics, PipeStatus};
use vstd::prelude::*;

use crate::upstream::{
    make_pipe_status, read_close_reason, read_counters, read_pipe_status, upstream_close,
    upstream_counters, upstream_status, UpstreamClose, UpstreamStatus,
};

verus! {

/// What the pipe is doing, in the four states the app already draws, in
/// the app's own order.
#[derive(Clone, Copy, Debug, PartialEq, Eq, Structural)]
pub enum MpPipeStatus {
    /// Bound locally, with no path to the far machine yet.
    Idle,
    /// A hole-punched path straight to the far machine.
    Direct,
    /// Going through a relay, which carries ciphertext it cannot read.
    Relayed,
    /// Terminal. Nothing further will be reported.
    Closed,
}

impl MpPipeStatus {
    /// The status a modelpipe case reads as. A case this build does not know
    /// reads as `Closed`: the app hangs up and dials again, which is
    /// recoverable, where guessing a path would have it stream into nothing.
    pub open spec fn from_upstream_spec(u: UpstreamStatus) -> MpPipeStatus {
        match u {
            UpstreamStatus::Idle => MpPipeStatus::Idle,
            UpstreamStatus::Direct => MpPipeStatus::Direct,
            UpstreamStatus::Relayed => MpPipeStatus::Relayed,
            UpstreamStatus::Closed => MpPipeStatus::Closed,
            UpstreamStatus::Unrecognised => MpPipeStatus::Closed,
        }
    }

    /// The modelpipe case this status stands for.
    pub open spec fn to_upstream_spec(self) -> UpstreamStatus {
        match self {
            MpPipeStatus::Idle => UpstreamStatus::Idle,
            MpPipeStatus::Direct => UpstreamStatus::Direct,
            MpPipeStatus::Relayed => UpstreamStatus::Relayed,
            MpPipeStatus::Closed => UpstreamStatus::Closed,
        }
    }

    /// The status a modelpipe case reads as.
    pub fn from_upstream(u: UpstreamStatus) -> (r: MpPipeStatus)
        ensures
            r == Self::from_upstream_spec(u),
    {
        match u {
            UpstreamStatus::Idle => MpPipeStatus::Idle,
            UpstreamStatus::Direct => MpPipeStatus::Direct,
            UpstreamStatus::Relayed => MpPipeStatus::Relayed,
            UpstreamStatus::Closed => MpPipeStatus::Closed,
            UpstreamStatus::Unrecognised => MpPipeStatus::Closed,
        }
    }

    /// The modelpipe case this status stands for.
    pub fn to_upstream(self) -> (r: UpstreamStatus)
        ensures
            r == self.to_upstream_spec(),
            r != UpstreamStatus::Unrecognised,
    {
        match self {
            MpPipeStatus::Idle => UpstreamStatus::Idle,
            MpPipeStatus::Direct => UpstreamStatus::Direct,
            MpPipeStatus::Relayed => UpstreamStatus::Relayed,
            MpPipeStatus::Closed => UpstreamStatus::Closed,
        }
    }

    /// modelpipe's status, as the app draws it.
    pub fn from_pipe_status(s: PipeStatus) -> (r: MpPipeStatus)
        ensures
            r == Self::from_upstream_spec(upstream_status(s)),
    {
        Self::from_upstream(read_pipe_status(s))
    }

    /// This status as modelpipe's own.
    pub fn into_pipe_status(self) -> (r: PipeStatus)
        ensures
            upstream_status(r) == self.to_upstream_spec(),
    {
        make_pipe_status(self.to_upstream())
    }
}

/// Every status survives the crossing to modelpipe's enum and back.
pub proof fn lemma_status_round_trip(s: MpPipeStatus)
    ensures
        MpPipeStatus::from_upstream_spec(s.to_upstream_spec()) == s,
        s.to_upstream_spec() != UpstreamStatus::Unrecognised,
{
}

/// Every case modelpipe has reads as its own status, and reading it back
/// gives the same case.
pub proof fn lemma_known_upstream_status_round_trip(u: UpstreamStatus)
    requires
        u != UpstreamStatus::Unrecognised,
    ensures
        MpPipeStatus::from_upstream_spec(u).to_upstream_spec() == u,
{
}

/// Why a pipe closed, when it has.
#[derive(Clone, Copy, Debug, PartialEq, Eq, Structural)]
pub enum MpCloseReason {
    /// Someone called `shutdown`, on this side or the far one.
    Shutdown,
    /// The local listener stopped accepting.
    ListenerFailed,
}

impl MpCloseReason {
    /// The reason a modelpipe case reads as. A case this build does not know
    /// reads as `ListenerFailed`: the closest honest answer is that it was
    /// not a clean shutdown.
    pub open spec fn from_upstream_spec(u: UpstreamClose) -> MpCloseReason {
        match u {
            UpstreamClose::Shutdown => MpCloseReason::Shutdown,
            UpstreamClose::ListenerFailed => MpCloseReason::ListenerFailed,
            UpstreamClose::Unrecognised => MpCloseReason::ListenerFailed,
        }
    }

    /// The reason a modelpipe case reads as.
    pub fn from_upstream(u: UpstreamClose) -> (r: MpCloseReason)
        ensures
            r == Self::from_upstream_spec(u),
    {
        match u {
            UpstreamClose::Shutdown => MpCloseReason::Shutdown,
            UpstreamClose::ListenerFailed => MpCloseReason::ListenerFailed,
            UpstreamClose::Unrecognised => MpCloseReason::ListenerFailed,
        }
    }

    /// modelpipe's close reason, as it crosses.
    pub fn from_close_reason(r: CloseReason) -> (m: MpCloseReason)
        ensures
            m == Self::from_upstream_spec(upstream_close(r)),
    {
        Self::from_upstream(read_close_reason(r))
    }
}

/// What the transport underneath a pipe has been doing since it started.
#[derive(Clone, Copy, Debug, PartialEq, Eq, Structural)]
pub struct MpNetworkMetrics {
    /// Relay connections this endpoint has opened.
    pub relay_connections: u64,
    /// Relay connections that failed to open.
    pub relay_connections_failed: u64,
    /// Relay connections refused because the relay is rate limiting this
    /// endpoint.
    pub relay_connections_ratelimited: u64,
}

impl MpNetworkMetrics {
    /// modelpipe's counters, each in its own field.
    pub fn from_network_metrics(m: NetworkMetrics) -> (r: MpNetworkMetrics)
        ensures
            r.relay_connections == upstream_counters(m).0,
            r.relay_connections_failed == upstream_counters(m).1,
            r.relay_connections_ratelimited == upstream_counters(m).2,
    {
        let (relay_connections, relay_connections_failed, relay_connections_ratelimited) =
            read_counters(m);
        MpNetworkMetrics { relay_connections, relay_connections_failed, relay_connections_ratelimited }
    }
}

impl Default for MpNetworkMetrics {
    /// A reading of three zeroes.
    fn default() -> (r: Self)
        ensures
            r.relay_connections == 0,
            r.relay_connections_failed == 0,
            r.relay_connections_ratelimited == 0,
    {
        MpNetworkMetrics { relay_connections: 0, relay_connections_failed: 0, relay_connections_ratelimited: 0 }
    }
}

impl From<PipeStatus> for MpPipeStatus {
    /// modelpipe's status, as the app draws it.
    fn from(s: PipeStatus) -> (r: Self) {
        Self::from_pipe_status(s)
    }
}

impl vstd::std_specs::convert::FromSpecImpl<PipeStatus> for MpPipeStatus {
    open spec fn obeys_from_spec() -> bool {
        true
    }

    open spec fn from_spec(s: PipeStatus) -> Self {
        Self::from_upstream_spec(upstream_status(s))
    }
}

impl From<CloseReason> for MpCloseReason {
    /// modelpipe's close reason, as it crosses.
    fn from(r: CloseReason) -> (m: Self) {
        Self::from_close_reason(r)
    }
}

impl vstd::std_specs::convert::FromSpecImpl<CloseReason> for MpCloseReason {
    open spec fn obeys_from_spec() -> bool {
        true
    }

    open spec fn from_spec(r: CloseReason) -> Self {
        Self::from_upstream_spec(upstream_close(r))
    }
}

impl From<NetworkMetrics> for MpNetworkMetrics {
    /// modelpipe's counters, each in its own field.
    fn from(m: NetworkMetrics) -> (r: Self) {
        Self::from_network_metrics(m)
    }
}

impl vstd::std_specs::convert::FromSpecImpl<NetworkMetrics> for MpNetworkMetrics {
    open spec fn obeys_from_spec() -> bool {
        true
    }

    open spec fn from_spec(m: NetworkMetrics) -> Self {
        MpNetworkMetrics {
            relay_connections: upstream_counters(m).0,
            relay_connections_failed: upstream_counters(m).1,
            relay_connections_ratelimited: upstream_counters(m).2,
        }
    }
}

} // verus!
