//! The pipe a dial hands back, and a cancellable watch on its status.
//!
//! The calls that wait (a dial, a status change, a shutdown) are the app's
//! to run; what is answered from the pipe now, and how an answer crosses,
//! is here.

use modelpipe::{ConnectHandle, PipeStatus};
use std::sync::Arc;
use tokio_util::sync::CancellationToken;
use vstd::prelude::*;

use crate::text::decimal;

use crate::status::{MpCloseReason, MpNetworkMetrics, MpPipeStatus};
use crate::upstream::{
    cancel_token, handle_base_url, handle_close_reason, handle_network_metrics, handle_peer_id,
    bound_host, bound_peer, bound_port, handle_port, peer_text, handle_status, is_lower_hex, new_token, peer_id_text, token_is_cancelled,
    upstream_close, upstream_counters, upstream_status, UpstreamClose, UpstreamStatus,
};

verus! {

/// A live pipe: a loopback listener on this device that is the far
/// machine's model server.
pub struct MpPipe {
    handle: Arc<ConnectHandle>,
}

/// What a wait for the next status answers: `None` when the wait ended with
/// nothing new to report, otherwise the status as it crosses.
pub open spec fn change_answer(next: Option<PipeStatus>) -> Option<MpPipeStatus> {
    match next {
        Some(s) => Some(MpPipeStatus::from_upstream_spec(upstream_status(s))),
        None => None,
    }
}

/// What a close reason read from modelpipe crosses as: `None` while the
/// pipe is open, otherwise the reason as it crosses.
pub open spec fn close_answer(c: Option<modelpipe::CloseReason>) -> Option<MpCloseReason> {
    match c {
        Some(c) => Some(MpCloseReason::from_upstream_spec(upstream_close(c))),
        None => None,
    }
}

impl MpPipe {
    /// The handle this pipe answers from.
    pub closed spec fn held_handle(self) -> Arc<ConnectHandle> {
        self.handle
    }

    /// The pipe a dial produced, answering from that dial's handle.
    pub fn new(handle: ConnectHandle) -> (r: MpPipe)
        ensures
            *r.held_handle() == handle,
    {
        MpPipe { handle: Arc::new(handle) }
    }

    /// The handle underneath, for the calls that wait.
    pub fn handle(&self) -> (r: &Arc<ConnectHandle>)
        ensures
            *r == self.held_handle(),
    {
        &self.handle
    }

    /// `http://<host>:<port>/v1`, the host being the address the pipe
    /// bound and the port the one `port` answers: where an
    /// OpenAI-compatible client points. Stable for the life of the pipe.
    pub fn base_url(&self) -> (r: String)
        ensures
            r@ == "http://"@ + bound_host(*self.held_handle()) + ":"@ + decimal(
                bound_port(*self.held_handle()) as nat,
            ) + "/v1"@,
    {
        handle_base_url(&self.handle)
    }

    /// The loopback port this pipe bound: its handle's, fixed for the
    /// handle's life.
    pub fn port(&self) -> (r: u16)
        ensures
            r == bound_port(*self.held_handle()),
    {
        handle_port(&self.handle)
    }

    /// What the pipe is doing right now, as the app draws it.
    pub fn status(&self) -> (r: MpPipeStatus)
        ensures
            exists|s: PipeStatus| r == MpPipeStatus::from_upstream_spec(upstream_status(s)),
    {
        let s = handle_status(&self.handle);
        MpPipeStatus::from_pipe_status(s)
    }

    /// Why the pipe closed, or `None` while it is open.
    pub fn close_reason(&self) -> (r: Option<MpCloseReason>)
        ensures
            exists|c: Option<modelpipe::CloseReason>| r == close_answer(c),
    {
        let c = handle_close_reason(&self.handle);
        Self::close_answer(c)
    }

    /// What modelpipe's close reason crosses as: `None` while the pipe is
    /// open, otherwise the reason as it crosses.
    pub fn close_answer(c: Option<modelpipe::CloseReason>) -> (r: Option<MpCloseReason>)
        ensures
            r == close_answer(c),
            r is Some <==> c is Some,
            c matches Some(reason) ==> r == Some(
                MpCloseReason::from_upstream_spec(upstream_close(reason)),
            ),
    {
        match c {
            Some(c) => Some(MpCloseReason::from_close_reason(c)),
            None => None,
        }
    }

    /// Transport counters for this pipe's endpoint.
    pub fn network_metrics(&self) -> (r: MpNetworkMetrics)
        ensures
            exists|m: modelpipe::NetworkMetrics|
                r.relay_connections == upstream_counters(m).0
                    && r.relay_connections_failed == upstream_counters(m).1
                    && r.relay_connections_ratelimited == upstream_counters(m).2,
    {
        let m = handle_network_metrics(&self.handle);
        MpNetworkMetrics::from_network_metrics(m)
    }

    /// Who this device connects as: the handle's own peer, fixed for its
    /// life, as sixty-four lower-case hex characters.
    pub fn peer_id(&self) -> (r: String)
        ensures
            r@ == peer_text(bound_peer(*self.held_handle())),
            r@.len() == 64,
            forall|i: int| 0 <= i < 64 ==> is_lower_hex(#[trigger] r@[i]),
    {
        peer_id_text(handle_peer_id(&self.handle))
    }

    /// What a wait for a status different from the caller's snapshot
    /// answers: `None` once the pipe is closed and the snapshot says so,
    /// which is what ends the sequence; otherwise the new status.
    pub fn change_answer(next: Option<PipeStatus>) -> (r: Option<MpPipeStatus>)
        ensures
            r == change_answer(next),
            r is Some <==> next is Some,
            next matches Some(s) ==> r == Some(MpPipeStatus::from_upstream_spec(upstream_status(s))),
    {
        match next {
            Some(s) => Some(MpPipeStatus::from_pipe_status(s)),
            None => None,
        }
    }

    /// A cancellable watch on this pipe's status: it watches this pipe's
    /// own handle.
    pub fn watch(&self) -> (r: MpWatch)
        ensures
            r.held_handle() == self.held_handle(),
    {
        MpWatch::new(self.handle.clone())
    }
}

/// A wait that modelpipe answers with a status answers that status as it
/// crosses, never an end of the sequence: a pipe that dropped back to idle
/// answers idle. A known status reads back as the case modelpipe returned.
/// Only a wait that modelpipe answers with nothing answers nothing.
pub proof fn lemma_every_change_is_answered(s: PipeStatus)
    ensures
        change_answer(Some(s)) == Some(MpPipeStatus::from_upstream_spec(upstream_status(s))),
        upstream_status(s) != UpstreamStatus::Unrecognised ==> change_answer(
            Some(s),
        )->Some_0.to_upstream_spec() == upstream_status(s),
        change_answer(None) is None,
{
}

/// A pipe that has closed says why: a reason modelpipe recorded crosses as
/// that reason, a failed listener as a failed listener and a shutdown as a
/// shutdown. Only an open pipe answers `None`.
pub proof fn lemma_a_closed_pipe_says_why(c: modelpipe::CloseReason)
    ensures
        close_answer(Some(c)) == Some(MpCloseReason::from_upstream_spec(upstream_close(c))),
        upstream_close(c) == UpstreamClose::ListenerFailed ==> close_answer(Some(c)) == Some(
            MpCloseReason::ListenerFailed,
        ),
        upstream_close(c) == UpstreamClose::Shutdown ==> close_answer(Some(c)) == Some(
            MpCloseReason::Shutdown,
        ),
        close_answer(None) is None,
{
}

/// How a watched wait ended: the watch was cancelled, or modelpipe's own
/// wait for a change answered.
pub enum WaitOutcome {
    /// The watch was cancelled, before the wait or during it.
    Cancelled,
    /// The status changed, or the pipe closed with nothing new to say.
    Changed(Option<PipeStatus>),
}

/// A cancellable view of one pipe's status sequence: its wait ends when the
/// status moves on, when the pipe closes, or when the watch is cancelled.
pub struct MpWatch {
    handle: Arc<ConnectHandle>,
    cancel: CancellationToken,
}

impl MpWatch {
    /// The handle this watch waits on.
    pub closed spec fn held_handle(self) -> Arc<ConnectHandle> {
        self.handle
    }

    /// The token this watch's waits race against.
    pub closed spec fn held_token(self) -> CancellationToken {
        self.cancel
    }

    /// A watch over the pipe the handle belongs to, with a token of its own.
    pub fn new(handle: Arc<ConnectHandle>) -> (r: MpWatch)
        ensures
            r.held_handle() == handle,
    {
        MpWatch { handle, cancel: new_token() }
    }

    /// The handle watched, for the wait itself.
    pub fn handle(&self) -> (r: &Arc<ConnectHandle>)
        ensures
            *r == self.held_handle(),
    {
        &self.handle
    }

    /// The token a wait races against.
    pub fn token(&self) -> (r: &CancellationToken)
        ensures
            *r == self.held_token(),
    {
        &self.cancel
    }

    /// What a wait on this watch answers. A cancelled watch answers `None`
    /// even when a change was ready at the same moment.
    pub fn answer(outcome: WaitOutcome) -> (r: Option<MpPipeStatus>)
        ensures
            outcome is Cancelled ==> r is None,
            outcome matches WaitOutcome::Changed(next) ==> r == change_answer(next),
    {
        match outcome {
            WaitOutcome::Cancelled => None,
            WaitOutcome::Changed(next) => MpPipe::change_answer(next),
        }
    }

    /// End every wait on this watch, in flight or yet to start.
    pub fn cancel(&self) {
        cancel_token(&self.cancel)
    }

    /// Whether `cancel` has been called.
    pub fn is_cancelled(&self) -> bool {
        token_is_cancelled(&self.cancel)
    }
}

} // verus!
