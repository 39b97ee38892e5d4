//! The connect half of a modelpipe client, as a library an app links:
//! what a dial or a pairing crosses the boundary with, and the rules that
//! decide it, verified.
//!
//! - `error`, `pair_error`: the errors a dial and a pairing cross as, the
//!   sentence each shows a person, and whether retrying is worth anything.
//! - `status`: the pipe's status, close reason and counters, mirrored from
//!   modelpipe's own.
//! - `options`: what a dial may ask for.
//! - `identity_file`: what a device's key file for a far machine is called.
//! - `pairing`: a pairing string read without pairing, and the one retry a
//!   dial makes when modelpipe refuses its key file.
//! - `pipe`: the pipe a dial hands back, and a cancellable watch on it.
//! - `text`: trimming and writing numbers.
//! - `upstream`: the modelpipe, sha2, tokio-util and std calls made, and
//!   what is relied on of each.

mod error;
mod identity_file;
mod options;
mod pair_error;
mod pairing;
mod pipe;
mod status;
mod text;
mod upstream;

pub use error::{parse_ticket, MpError};
pub use identity_file::{file_name, key_file_name_for, resolve, NAME_BYTES};
pub use options::MpConnectOptions;
pub use pair_error::{MpPairError, MpUnreached};
pub use pairing::{
    bad_pairing_string, mp_read_pairing, pair_refusal, parse_pairing_string, redacted_paired, refusal_of, KeyRecovery, MpPairingString,
    PairRefusal,
};
pub use pipe::{MpPipe, MpWatch, WaitOutcome};
pub use status::{MpCloseReason, MpNetworkMetrics, MpPipeStatus};
pub use text::{decimal_text, trimmed, white_space};
pub use upstream::{ConnectFault, PairFault, TicketFault, UnreachedFault, UpstreamClose, UpstreamStatus};
