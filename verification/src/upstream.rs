//! The modelpipe items this library calls, and what it relies on of them.

use modelpipe::{
    CloseReason, ConnectError, NetworkMetrics, PairError, PairingString, PairingStringError,
    ConnectHandle, PeerId, PipeStatus, Ticket, TicketParseError, Unreached,
};
use sha2::{Digest, Sha256};
use std::path::{Path, PathBuf};
use std::str::FromStr;
use tokio_util::sync::CancellationToken;
use vstd::prelude::*;

use crate::text::decimal;

verus! {

#[verifier::external_type_specification]
#[verifier::external_body]
pub struct ExPipeStatus(PipeStatus);

#[verifier::external_type_specification]
#[verifier::external_body]
pub struct ExCloseReason(CloseReason);

/// modelpipe's pipe status, read as one of the cases this build knows.
#[derive(Clone, Copy, Debug, PartialEq, Eq, Structural)]
pub enum UpstreamStatus {
    Idle,
    Direct,
    Relayed,
    Closed,
    Unrecognised,
}

/// Which case of `modelpipe::PipeStatus` a value is.
pub uninterp spec fn upstream_status(s: PipeStatus) -> UpstreamStatus;

/// Tells the cases of `modelpipe::PipeStatus` apart, one arm each; a case
/// added upstream after this build reads as `Unrecognised`.
#[verifier::external_body]
pub(crate) fn read_pipe_status(s: PipeStatus) -> (r: UpstreamStatus)
    ensures
        r == upstream_status(s),
{
    match s {
        PipeStatus::Idle => UpstreamStatus::Idle,
        PipeStatus::Direct => UpstreamStatus::Direct,
        PipeStatus::Relayed => UpstreamStatus::Relayed,
        PipeStatus::Closed => UpstreamStatus::Closed,
        _ => UpstreamStatus::Unrecognised,
    }
}

/// Builds the `modelpipe::PipeStatus` case that `u` names.
#[verifier::external_body]
pub(crate) fn make_pipe_status(u: UpstreamStatus) -> (r: PipeStatus)
    requires
        u != UpstreamStatus::Unrecognised,
    ensures
        upstream_status(r) == u,
{
    match u {
        UpstreamStatus::Idle => PipeStatus::Idle,
        UpstreamStatus::Direct => PipeStatus::Direct,
        UpstreamStatus::Relayed => PipeStatus::Relayed,
        _ => PipeStatus::Closed,
    }
}

/// modelpipe's close reason, read as one of the cases this build knows.
#[derive(Clone, Copy, Debug, PartialEq, Eq, Structural)]
pub enum UpstreamClose {
    Shutdown,
    ListenerFailed,
    Unrecognised,
}

/// Which case of `modelpipe::CloseReason` a value is.
pub uninterp spec fn upstream_close(r: CloseReason) -> UpstreamClose;

/// Tells the cases of `modelpipe::CloseReason` apart, one arm each; a case
/// added upstream after this build reads as `Unrecognised`.
#[verifier::external_body]
pub(crate) fn read_close_reason(r: CloseReason) -> (u: UpstreamClose)
    ensures
        u == upstream_close(r),
{
    match r {
        CloseReason::Shutdown => UpstreamClose::Shutdown,
        CloseReason::ListenerFailed => UpstreamClose::ListenerFailed,
        _ => UpstreamClose::Unrecognised,
    }
}

#[verifier::external_type_specification]
#[verifier::external_body]
pub struct ExNetworkMetrics(NetworkMetrics);

/// The three counters of a `modelpipe::NetworkMetrics`, in field order:
/// relay connections, failed ones, rate-limited ones.
pub uninterp spec fn upstream_counters(m: NetworkMetrics) -> (u64, u64, u64);

/// Reads the three public counters of a `modelpipe::NetworkMetrics`.
#[verifier::external_body]
pub(crate) fn read_counters(m: NetworkMetrics) -> (r: (u64, u64, u64))
    ensures
        r == upstream_counters(m),
{
    (m.relay_connections, m.relay_connections_failed, m.relay_connections_ratelimited)
}

#[verifier::external_type_specification]
#[verifier::external_body]
pub struct ExTicket(Ticket);

#[verifier::external_type_specification]
#[verifier::external_body]
pub struct ExTicketParseError(TicketParseError);

/// Why modelpipe refused a ticket, as the cases this build knows.
#[derive(Clone, Debug, PartialEq, Eq)]
pub enum TicketFault {
    /// Not a ticket at all.
    Malformed,
    /// A ticket of a format version this build does not implement.
    UnsupportedVersion(u8),
    /// A case added upstream after this build, by its `Debug` rendering.
    Unrecognised(String),
}

/// What modelpipe's ticket parser answers for `text`: the ticket, or why
/// it is not one.
pub uninterp spec fn ticket_parse(text: Seq<char>) -> Result<Ticket, TicketParseError>;

/// `Ticket::from_str`: modelpipe's own ticket parser. What it accepts is
/// named, not written out here; that it answers the same text alike every
/// time is all that is claimed.
#[verifier::external_body]
pub(crate) fn parse_ticket_text(text: &str) -> (r: Result<Ticket, TicketParseError>)
    ensures
        r == ticket_parse(text@),
{
    Ticket::from_str(text)
}

/// Which case of `modelpipe::TicketParseError` a value is.
pub uninterp spec fn upstream_ticket_fault(e: TicketParseError) -> TicketFault;

/// Tells the cases of `modelpipe::TicketParseError` apart, one arm each.
#[verifier::external_body]
pub(crate) fn read_ticket_error(e: TicketParseError) -> (f: TicketFault)
    ensures
        f == upstream_ticket_fault(e),
{
    match e {
        TicketParseError::Malformed => TicketFault::Malformed,
        TicketParseError::UnsupportedVersion(version) => TicketFault::UnsupportedVersion(version),
        other => TicketFault::Unrecognised(format!("{other:?}")),
    }
}

#[verifier::external_type_specification]
#[verifier::external_body]
pub struct ExConnectError(ConnectError);

/// Why modelpipe refused a dial, as the cases this build knows, each with
/// the text it carries.
#[derive(Clone, Debug, PartialEq, Eq)]
pub enum ConnectFault {
    /// The far machine could not be reached at all.
    PeerUnreachable,
    /// The loopback port could not be bound; the operating system's reason.
    Bind { reason: String },
    /// The endpoint could not start; the operating system's reason.
    Endpoint { reason: String },
    /// A relay URL that is not one.
    InvalidRelay { url: String },
    /// The key file at `path` could not be used; the operating system's
    /// reason.
    Identity { path: String, reason: String },
    /// A case added upstream after this build, by its `Debug` rendering.
    Unrecognised { detail: String },
}

/// What is fixed about a `modelpipe::ConnectError`: its case, and the
/// relay URL or key-file path it names. The operating system's reasons are
/// left out: they depend on the machine and its language.
pub enum ConnectKind {
    PeerUnreachable,
    Bind,
    Endpoint,
    InvalidRelay { url: Seq<char> },
    Identity { path: Seq<char> },
    Unrecognised,
}

impl ConnectFault {
    /// What is fixed about this refusal: its case, and the URL or path.
    pub open spec fn kind(self) -> ConnectKind {
        match self {
            ConnectFault::PeerUnreachable => ConnectKind::PeerUnreachable,
            ConnectFault::Bind { .. } => ConnectKind::Bind,
            ConnectFault::Endpoint { .. } => ConnectKind::Endpoint,
            ConnectFault::InvalidRelay { url } => ConnectKind::InvalidRelay { url: url@ },
            ConnectFault::Identity { path, .. } => ConnectKind::Identity { path: path@ },
            ConnectFault::Unrecognised { .. } => ConnectKind::Unrecognised,
        }
    }
}

/// Whether modelpipe's `ConnectError::is_retryable` answers yes for a
/// refusal of this case: the far machine or the endpoint may do better next
/// time; a held port, a malformed relay and an unusable key do not.
pub open spec fn modelpipe_retryable(k: ConnectKind) -> bool {
    k is PeerUnreachable || k is Endpoint
}

/// What is fixed about a `modelpipe::ConnectError`: its case, and the URL
/// or path it names.
pub uninterp spec fn connect_error_kind(e: ConnectError) -> ConnectKind;

/// Takes a `modelpipe::ConnectError` apart, one arm per case, each reason
/// being the rendering of the error's source where it has one and of the
/// error itself where it has none. The case, the relay URL and the
/// key-file path are claimed; the reasons are the operating system's and
/// nothing is claimed of them.
#[verifier::external_body]
pub(crate) fn read_connect_error(e: ConnectError) -> (f: ConnectFault)
    ensures
        f.kind() == connect_error_kind(e),
{
    let reason = std::error::Error::source(&e).map_or_else(|| e.to_string(), ToString::to_string);
    match e {
        ConnectError::PeerUnreachable => ConnectFault::PeerUnreachable,
        ConnectError::Bind(_) => ConnectFault::Bind { reason },
        ConnectError::Endpoint(_) => ConnectFault::Endpoint { reason },
        ConnectError::InvalidRelay { url } => ConnectFault::InvalidRelay { url },
        ConnectError::Identity { path, .. } => ConnectFault::Identity { path, reason },
        other => ConnectFault::Unrecognised { detail: format!("{other:?}") },
    }
}

#[verifier::external_type_specification]
#[verifier::external_body]
pub struct ExUnreached(Unreached);

/// Why modelpipe's wait to reach the far machine gave up.
#[derive(Clone, Copy, Debug, PartialEq, Eq)]
pub enum UnreachedFault {
    /// The wait ran out after this many milliseconds.
    TimedOut { millis: u128 },
    /// The pipe closed first, for this reason if one was recorded.
    Closed { reason: Option<CloseReason> },
    /// A case added upstream after this build.
    Unrecognised,
}

/// Which case of `modelpipe::Unreached` a value is, with the time waited in
/// whole milliseconds.
pub uninterp spec fn upstream_unreached(u: Unreached) -> UnreachedFault;

/// Tells the cases of `modelpipe::Unreached` apart, one arm each.
#[verifier::external_body]
pub(crate) fn read_unreached(u: Unreached) -> (f: UnreachedFault)
    ensures
        f == upstream_unreached(u),
{
    match u {
        Unreached::TimedOut(within) => UnreachedFault::TimedOut { millis: within.as_millis() },
        Unreached::Closed(reason) => UnreachedFault::Closed { reason },
        _ => UnreachedFault::Unrecognised,
    }
}

#[verifier::external_type_specification]
#[verifier::external_body]
pub struct ExPairError(PairError);

/// Why modelpipe's pairing did not pair, as the cases this build knows.
pub enum PairFault {
    /// The pairing string carries no code.
    NoCode,
    /// The pipe to pair over could not be set up.
    Connect(ConnectError),
    /// The far machine was not reached in the time given.
    Unreached(Unreached),
    /// The far machine refused the code.
    Refused,
    /// The code could not be presented or its answer read; the reason.
    Exchange { reason: String },
    /// The answer was not a pairing answer; what was wrong with it.
    Unexpected { detail: String },
    /// The far machine answered with an HTTP status the exchange does not
    /// define.
    UnexpectedStatus { status: u16 },
    /// A case added upstream after this build, by its `Debug` rendering.
    Unrecognised { detail: String },
}

/// Which case of `modelpipe::PairError` a value is, with what is fixed
/// about it: the case of a dial's refusal, the way a wait gave up,
/// modelpipe's own words for an answer that was not a pairing answer, and a
/// status.
pub enum PairKind {
    NoCode,
    Connect(ConnectKind),
    Unreached(UnreachedFault),
    Refused,
    Exchange,
    Unexpected(Seq<char>),
    UnexpectedStatus(u16),
    Unrecognised,
}

impl PairFault {
    /// Which case this is, with what is fixed about it.
    pub open spec fn kind(self) -> PairKind {
        match self {
            PairFault::NoCode => PairKind::NoCode,
            PairFault::Connect(e) => PairKind::Connect(connect_error_kind(e)),
            PairFault::Unreached(u) => PairKind::Unreached(upstream_unreached(u)),
            PairFault::Refused => PairKind::Refused,
            PairFault::Exchange { .. } => PairKind::Exchange,
            PairFault::Unexpected { detail } => PairKind::Unexpected(detail@),
            PairFault::UnexpectedStatus { status } => PairKind::UnexpectedStatus(status),
            PairFault::Unrecognised { .. } => PairKind::Unrecognised,
        }
    }
}

/// Which case of `modelpipe::PairError` a value is.
pub uninterp spec fn pair_error_kind(e: PairError) -> PairKind;

/// Takes a `modelpipe::PairError` apart, one arm per case, moving what each
/// case carries. The case is claimed, with modelpipe's fixed words for an
/// unexpected answer; the operating system's reason for a failed exchange
/// and the rendering of a case this build does not know are not.
#[verifier::external_body]
pub(crate) fn read_pair_error(e: PairError) -> (f: PairFault)
    ensures
        f.kind() == pair_error_kind(e),
{
    match e {
        PairError::NoCode => PairFault::NoCode,
        PairError::Connect(e) => PairFault::Connect(e),
        PairError::Unreached(u) => PairFault::Unreached(u),
        PairError::Refused => PairFault::Refused,
        PairError::Exchange(e) => PairFault::Exchange { reason: e.to_string() },
        PairError::Unexpected(why) => PairFault::Unexpected { detail: why.to_owned() },
        PairError::UnexpectedStatus { status } => PairFault::UnexpectedStatus { status },
        other => PairFault::Unrecognised { detail: format!("{other:?}") },
    }
}

/// What `modelpipe::Ticket`'s `Display` prints for a ticket: its canonical
/// form, addresses sorted and deduplicated, unknown tags dropped, lower case.
pub uninterp spec fn canonical_ticket(t: Ticket) -> Seq<char>;

/// `Ticket::to_string`: the ticket in modelpipe's canonical spelling.
#[verifier::external_body]
pub(crate) fn ticket_text(t: &Ticket) -> (r: String)
    ensures
        r@ == canonical_ticket(*t),
{
    t.to_string()
}

/// SHA-256 of `data`.
pub uninterp spec fn sha256(data: Seq<u8>) -> Seq<u8>;

/// `sha2::Sha256::digest`: the SHA-256 digest of `data`, thirty-two bytes.
#[verifier::external_body]
pub(crate) fn sha256_digest(data: &[u8]) -> (r: Vec<u8>)
    ensures
        r@ == sha256(data@),
        r@.len() == 32,
{
    Sha256::digest(data).to_vec()
}

#[verifier::external_type_specification]
#[verifier::external_body]
pub struct ExPathBuf(PathBuf);

/// Whether `p` is `name` joined under the directory `dir`. Joining follows
/// the rules of the machine it runs on, so this is a relation, not a
/// function of its texts: it says which directory and which name went in.
pub uninterp spec fn joins(p: PathBuf, dir: Seq<char>, name: Seq<char>) -> bool;

/// `Path::join`: `name` under the directory `dir`, by the platform's own
/// rules for joining. Nothing is created or checked.
#[verifier::external_body]
pub(crate) fn join_path(dir: &str, name: &str) -> (r: PathBuf)
    ensures
        joins(r, dir@, name@),
{
    Path::new(dir).join(name)
}

#[verifier::external_type_specification]
#[verifier::external_body]
pub struct ExPairingString(PairingString);

#[verifier::external_type_specification]
#[verifier::external_body]
pub struct ExPairingStringError(PairingStringError);

/// What modelpipe's pairing-string parser answers for `text`.
pub uninterp spec fn pairing_parse(text: Seq<char>) -> Result<PairingString, PairingStringError>;

/// `PairingString::from_str`: modelpipe's own parser for a ticket with an
/// optional code. What it answers is named, not written out; that it
/// answers the same text alike every time is all that is claimed.
#[verifier::external_body]
pub(crate) fn parse_pairing(text: &str) -> (r: Result<PairingString, PairingStringError>)
    ensures
        r == pairing_parse(text@),
{
    PairingString::from_str(text)
}

/// The ticket a pairing string carries.
pub uninterp spec fn ticket_of_pairing(p: PairingString) -> Ticket;

/// `PairingString::ticket`: the ticket a pairing string carries.
#[verifier::external_body]
pub(crate) fn pairing_ticket(p: &PairingString) -> (t: &Ticket)
    ensures
        *t == ticket_of_pairing(*p),
{
    p.ticket()
}

/// Whether a pairing string carries a code.
pub uninterp spec fn code_in_pairing(p: PairingString) -> bool;

/// Whether a pairing string carries a code: `PairingString::code`.
#[verifier::external_body]
pub(crate) fn pairing_has_code(p: &PairingString) -> (r: bool)
    ensures
        r == code_in_pairing(*p),
{
    p.code().is_some()
}

/// Which part of a pairing string modelpipe found wrong.
#[derive(Clone, Copy, Debug, PartialEq, Eq, Structural)]
pub enum PairingFlaw {
    /// Nothing was there.
    Empty,
    /// The part after the last '-' is not a six-digit code.
    Code,
    /// The part before the code is not a ticket.
    Ticket,
}

/// Which part of a pairing string a `modelpipe::PairingStringError` says is
/// wrong.
pub uninterp spec fn pairing_flaw(e: PairingStringError) -> PairingFlaw;

/// modelpipe's words for each flaw in a pairing string, as its `Display`
/// writes them.
pub open spec fn flaw_sentence(f: PairingFlaw) -> Seq<char> {
    match f {
        PairingFlaw::Empty =>
            "a pairing string is a ticket, or a ticket, a '-' and a six-digit code"@,
        PairingFlaw::Code => "the part after the last '-' should be the six-digit code"@,
        PairingFlaw::Ticket => "the part before the code is not a ticket"@,
    }
}

/// `PairingStringError`'s `Display`: one of modelpipe's three fixed
/// sentences, by which part of the string is wrong. None of them quotes the
/// string.
#[verifier::external_body]
pub(crate) fn pairing_error_text(e: &PairingStringError) -> (r: String)
    ensures
        r@ == flaw_sentence(pairing_flaw(*e)),
{
    e.to_string()
}

#[verifier::external_type_specification]
#[verifier::external_body]
pub struct ExConnectHandle(ConnectHandle);

/// The host part of a handle's base URL: a dialable rendering of the
/// address it bound, fixed for the handle's life.
pub uninterp spec fn bound_host(h: ConnectHandle) -> Seq<char>;

/// `ConnectHandle::base_url`: `http://{host}:{port}/v1`, written from the
/// address the handle bound, whose port is `bound_port`. The address never
/// changes, so neither does the URL.
#[verifier::external_body]
pub(crate) fn handle_base_url(h: &ConnectHandle) -> (r: String)
    ensures
        r@ == "http://"@ + bound_host(*h) + ":"@ + decimal(bound_port(*h) as nat) + "/v1"@,
{
    h.base_url()
}

/// The port a handle's pipe bound. `ConnectHandle::local_addr` answers the
/// address its state was made with, which nothing changes afterwards, so the
/// port is fixed for the handle's life.
pub uninterp spec fn bound_port(h: ConnectHandle) -> u16;

/// The port of `ConnectHandle::local_addr`: the loopback port the pipe
/// bound, chosen by the system unless one was asked for, the same every
/// time it is asked.
#[verifier::external_body]
pub(crate) fn handle_port(h: &ConnectHandle) -> (r: u16)
    ensures
        r == bound_port(*h),
{
    h.local_addr().port()
}

/// `ConnectHandle::status`: what the pipe is doing now. It changes with
/// time, so nothing is claimed of it.
#[verifier::external_body]
pub(crate) fn handle_status(h: &ConnectHandle) -> (r: PipeStatus) {
    h.status()
}

/// `ConnectHandle::close_reason`: why the pipe closed, `None` while it is
/// open. It changes with time, so nothing is claimed of it.
#[verifier::external_body]
pub(crate) fn handle_close_reason(h: &ConnectHandle) -> (r: Option<CloseReason>) {
    h.close_reason()
}

/// `ConnectHandle::network_metrics`: the endpoint's counters now.
#[verifier::external_body]
pub(crate) fn handle_network_metrics(h: &ConnectHandle) -> (r: NetworkMetrics) {
    h.network_metrics()
}

#[verifier::external_type_specification]
#[verifier::external_body]
pub struct ExPeerId(PeerId);

/// Who a handle's side connects as, fixed for the handle's life.
pub uninterp spec fn bound_peer(h: ConnectHandle) -> PeerId;

/// `ConnectHandle::peer_id`: who this side connects as, the same for the
/// life of the handle.
#[verifier::external_body]
pub(crate) fn handle_peer_id(h: &ConnectHandle) -> (r: PeerId)
    ensures
        r == bound_peer(*h),
{
    h.peer_id()
}

/// Whether `c` is a lower-case hex digit.
pub open spec fn is_lower_hex(c: char) -> bool {
    ('0' <= c <= '9') || ('a' <= c <= 'f')
}

/// How a `PeerId` prints.
pub uninterp spec fn peer_text(p: PeerId) -> Seq<char>;

/// `PeerId`'s `Display`: each of its thirty-two bytes as two lower-case hex
/// digits, so sixty-four of them.
#[verifier::external_body]
pub(crate) fn peer_id_text(p: PeerId) -> (r: String)
    ensures
        r@ == peer_text(p),
        r@.len() == 64,
        forall|i: int| 0 <= i < 64 ==> is_lower_hex(#[trigger] r@[i]),
{
    p.to_string()
}

#[verifier::external_type_specification]
#[verifier::external_body]
pub struct ExCancellationToken(CancellationToken);

/// `CancellationToken::new`: a token not yet cancelled.
#[verifier::external_body]
pub(crate) fn new_token() -> (r: CancellationToken) {
    CancellationToken::new()
}

/// `CancellationToken::cancel`: cancels the token and every wait on it.
#[verifier::external_body]
pub(crate) fn cancel_token(t: &CancellationToken) {
    t.cancel()
}

/// `CancellationToken::is_cancelled`: whether `cancel` has run on it. A
/// shared token changes under a shared reference, so nothing is claimed.
#[verifier::external_body]
pub(crate) fn token_is_cancelled(t: &CancellationToken) -> (r: bool) {
    t.is_cancelled()
}

} // verus!
