//! The one error a dial crosses the boundary with.
//!
//! Flattened from modelpipe's `ConnectError` and its ticket parsing, because
//! the app does not act on the difference between an endpoint failure and a
//! bind failure: it shows a sentence and offers a retry. What it does act on
//! is whether a retry is worth anything, so that is the one bit kept.

use modelpipe::{ConnectError, Ticket, TicketParseError};
use vstd::prelude::*;

use crate::text::{
    decimal, decimal_text, is_tail_noise, lemma_os_reason_ends_in_words, os_reason, trimmed,
};
use crate::upstream::{
    connect_error_kind, modelpipe_retryable, parse_ticket_text, read_connect_error, read_ticket_error, ticket_parse,
    upstream_ticket_fault, ConnectFault, TicketFault,
};

verus! {

/// Why a dial did not produce a pipe.
///
/// Every case carries a sentence rather than a code, because the app shows
/// it. None carries the ticket: a ticket is a bearer credential.
#[derive(Clone, Debug, PartialEq, Eq)]
pub enum MpError {
    /// The ticket is not a ticket. The only case the caller can fix by
    /// looking at what they pasted.
    BadTicket {
        /// What was wrong with it, in a sentence.
        reason: String,
    },
    /// The ticket names a format version this build does not implement.
    UnsupportedTicketVersion {
        /// The version byte the ticket carried.
        version: u8,
    },
    /// The local loopback port could not be bound.
    Bind {
        /// The operating system's reason.
        reason: String,
    },
    /// The endpoint underneath could not start.
    Endpoint {
        /// The operating system's reason.
        reason: String,
    },
    /// A relay URL, in the ticket or in the options, is not a URL.
    InvalidRelay {
        /// The offending value: public infrastructure, not a credential.
        url: String,
    },
    /// The key file this device keeps for the far machine could not be
    /// used: a directory that is not there or cannot be written, or a file
    /// that is not a key.
    Identity {
        /// The file, directory and name.
        path: String,
        /// The operating system's reason.
        reason: String,
    },
    /// The far machine could not be reached at all.
    PeerUnreachable,
    /// Something modelpipe grew that this build does not know about.
    Unknown {
        /// The upstream `Debug` rendering, for a bug report.
        detail: String,
    },
}

/// The sentence a bad ticket reads as when it is not a ticket at all.
pub open spec fn malformed_ticket_sentence() -> Seq<char> {
    "That does not look like a pairing string. Copy the whole thing, including the `pipe` at the front."@
}

/// The sentence for a refusal this build has no words of its own for.
pub open spec fn unreadable_sentence(detail: Seq<char>) -> Seq<char> {
    "That pairing string could not be read ("@ + detail + ")."@
}

impl MpError {
    /// The sentence to show a person, case by case.
    pub open spec fn message_spec(self) -> Seq<char> {
        match self {
            MpError::BadTicket { reason } => reason@,
            MpError::UnsupportedTicketVersion { version } => "This pairing string is version "@
                + decimal(version as nat)
                + ", which this app is too old to read. Update the app."@,
            MpError::Bind { reason } => "This device could not open a local port for the pipe: "@
                + os_reason(reason@) + "."@,
            MpError::Endpoint { reason } => "This device could not start the connection: "@
                + os_reason(reason@) + "."@,
            MpError::InvalidRelay { url } => "The relay address "@ + url@
                + " is not a valid URL."@,
            MpError::Identity { path, reason } => "This device could not keep its key in "@
                + path@ + ": "@ + os_reason(reason@) + "."@,
            MpError::PeerUnreachable =>
                "The other machine did not answer. Check it is awake and still sharing."@,
            MpError::Unknown { detail } =>
                "The connection failed for a reason this app does not recognise ("@ + detail@
                + ")."@,
        }
    }

    /// Whether dialling again could succeed with nothing else changing.
    pub open spec fn retryable_spec(self) -> bool {
        match self {
            MpError::Endpoint { .. } | MpError::PeerUnreachable | MpError::Unknown { .. } => true,
            _ => false,
        }
    }

    /// Whether `e` is the error a refused ticket crosses as: the case, and
    /// for a bad ticket, its sentence.
    pub open spec fn crosses_as_ticket_fault(e: MpError, f: TicketFault) -> bool {
        match f {
            TicketFault::Malformed => e matches MpError::BadTicket { reason }
                && reason@ == malformed_ticket_sentence(),
            TicketFault::UnsupportedVersion(version) => e == MpError::UnsupportedTicketVersion {
                version,
            },
            TicketFault::Unrecognised(detail) => e matches MpError::BadTicket { reason }
                && reason@ == unreadable_sentence(detail@),
        }
    }

    /// Whether `e` is the error a refused dial crosses as.
    pub open spec fn crosses_as_connect_fault(e: MpError, f: ConnectFault) -> bool {
        match f {
            ConnectFault::PeerUnreachable => e == MpError::PeerUnreachable,
            ConnectFault::Bind { reason } => e == MpError::Bind { reason },
            ConnectFault::Endpoint { reason } => e == MpError::Endpoint { reason },
            ConnectFault::InvalidRelay { url } => e == MpError::InvalidRelay { url },
            ConnectFault::Identity { path, reason } => e == MpError::Identity { path, reason },
            ConnectFault::Unrecognised { detail } => e == MpError::Unknown { detail },
        }
    }

    /// The sentence to show a person.
    ///
    /// An operating-system reason is trimmed of its white space and its
    /// own full stops, so the sentence ends in exactly one.
    pub fn message(&self) -> (r: String)
        ensures
            r@ == self.message_spec(),
    {
        match self {
            MpError::BadTicket { reason } => reason.clone(),
            MpError::UnsupportedTicketVersion { version } => {
                let mut r = "This pairing string is version ".to_owned();
                let v = decimal_text(*version as u64);
                r.append(v.as_str());
                r.append(", which this app is too old to read. Update the app.");
                r
            },
            MpError::Bind { reason } => {
                let mut r = "This device could not open a local port for the pipe: ".to_owned();
                r.append(trimmed(reason.as_str()));
                r.append(".");
                r
            },
            MpError::Endpoint { reason } => {
                let mut r = "This device could not start the connection: ".to_owned();
                r.append(trimmed(reason.as_str()));
                r.append(".");
                r
            },
            MpError::InvalidRelay { url } => {
                let mut r = "The relay address ".to_owned();
                r.append(url.as_str());
                r.append(" is not a valid URL.");
                r
            },
            MpError::Identity { path, reason } => {
                let mut r = "This device could not keep its key in ".to_owned();
                r.append(path.as_str());
                r.append(": ");
                r.append(trimmed(reason.as_str()));
                r.append(".");
                r
            },
            MpError::PeerUnreachable => {
                "The other machine did not answer. Check it is awake and still sharing.".to_owned()
            },
            MpError::Unknown { detail } => {
                let mut r =
                    "The connection failed for a reason this app does not recognise (".to_owned();
                r.append(detail.as_str());
                r.append(").");
                r
            },
        }
    }

    /// Whether dialling again could plausibly succeed without anything else
    /// changing: a bad ticket, a held port, a malformed relay and an unusable
    /// key stay so however often they are tried.
    pub fn is_retryable(&self) -> (r: bool)
        ensures
            r == self.retryable_spec(),
    {
        match self {
            MpError::BadTicket { .. }
            | MpError::UnsupportedTicketVersion { .. }
            | MpError::Bind { .. }
            | MpError::InvalidRelay { .. }
            | MpError::Identity { .. } => false,
            MpError::Endpoint { .. } | MpError::PeerUnreachable | MpError::Unknown { .. } => true,
        }
    }

    /// The error a refused ticket crosses as.
    pub fn from_ticket_fault(f: TicketFault) -> (e: MpError)
        ensures
            Self::crosses_as_ticket_fault(e, f),
    {
        match f {
            TicketFault::Malformed => MpError::BadTicket {
                reason: "That does not look like a pairing string. Copy the whole thing, including the `pipe` at the front.".to_owned(),
            },
            TicketFault::UnsupportedVersion(version) => MpError::UnsupportedTicketVersion {
                version,
            },
            TicketFault::Unrecognised(detail) => {
                let mut reason = "That pairing string could not be read (".to_owned();
                reason.append(detail.as_str());
                reason.append(").");
                MpError::BadTicket { reason }
            },
        }
    }

    /// The error modelpipe's ticket refusal crosses as.
    pub fn from_ticket_error(e: TicketParseError) -> (r: MpError)
        ensures
            Self::crosses_as_ticket_fault(r, upstream_ticket_fault(e)),
    {
        Self::from_ticket_fault(read_ticket_error(e))
    }

    /// The error a refused dial crosses as, case for case.
    pub fn from_connect_fault(f: ConnectFault) -> (e: MpError)
        ensures
            Self::crosses_as_connect_fault(e, f),
    {
        match f {
            ConnectFault::PeerUnreachable => MpError::PeerUnreachable,
            ConnectFault::Bind { reason } => MpError::Bind { reason },
            ConnectFault::Endpoint { reason } => MpError::Endpoint { reason },
            ConnectFault::InvalidRelay { url } => MpError::InvalidRelay { url },
            ConnectFault::Identity { path, reason } => MpError::Identity { path, reason },
            ConnectFault::Unrecognised { detail } => MpError::Unknown { detail },
        }
    }

    /// The error modelpipe's refusal of a dial crosses as: the case that
    /// refusal is, with the URL or the key file's path it names, and the
    /// operating system's reason.
    pub fn from_connect_error(e: ConnectError) -> (r: MpError)
        ensures
            exists|f: ConnectFault|
                #![trigger Self::crosses_as_connect_fault(r, f)]
                Self::crosses_as_connect_fault(r, f) && f.kind() == connect_error_kind(e),
    {
        let f = read_connect_error(e);
        let r = Self::from_connect_fault(f);
        assert(Self::crosses_as_connect_fault(r, f));
        r
    }
}

/// Reads `text` as a ticket, with modelpipe's own parser: the ticket it
/// reads, or its refusal as it crosses, so an unsupported version asks for
/// an update and anything else for a fresh copy.
pub fn parse_ticket(text: &str) -> (r: Result<Ticket, MpError>)
    ensures
        r is Ok <==> ticket_parse(text@) is Ok,
        r matches Ok(t) ==> ticket_parse(text@) == Ok::<Ticket, TicketParseError>(t),
        r matches Err(e) ==> MpError::crosses_as_ticket_fault(
            e,
            upstream_ticket_fault(ticket_parse(text@)->Err_0),
        ),
{
    match parse_ticket_text(text) {
        Ok(ticket) => Ok(ticket),
        Err(e) => Err(MpError::from_ticket_error(e)),
    }
}

/// A whole sentence: something, opening with a capital and closing with a
/// full stop or a closing bracket.
pub open spec fn is_sentence(s: Seq<char>) -> bool {
    &&& s.len() > 0
    &&& 'A' <= s[0] <= 'Z'
    &&& (s.last() == '.' || s.last() == ')')
}

/// Every error but a bad ticket, whose sentence is the one it was given,
/// says a whole sentence.
pub proof fn lemma_every_error_is_a_sentence(e: MpError)
    requires
        !(e is BadTicket),
    ensures
        is_sentence(e.message_spec()),
{
    reveal_strlit("This pairing string is version ");
    reveal_strlit(", which this app is too old to read. Update the app.");
    reveal_strlit("This device could not open a local port for the pipe: ");
    reveal_strlit("This device could not start the connection: ");
    reveal_strlit(".");
    reveal_strlit("The relay address ");
    reveal_strlit(" is not a valid URL.");
    reveal_strlit("This device could not keep its key in ");
    reveal_strlit("The other machine did not answer. Check it is awake and still sharing.");
    reveal_strlit("The connection failed for a reason this app does not recognise (");
    reveal_strlit(").");
}

/// A refused ticket crosses as a whole sentence too, whichever refusal it
/// was, and is never worth pasting again unchanged.
pub proof fn lemma_ticket_refusal_is_a_sentence(e: MpError, f: TicketFault)
    requires
        MpError::crosses_as_ticket_fault(e, f),
    ensures
        is_sentence(e.message_spec()),
        !e.retryable_spec(),
{
    reveal_strlit(
        "That does not look like a pairing string. Copy the whole thing, including the `pipe` at the front.",
    );
    reveal_strlit("That pairing string could not be read (");
    reveal_strlit(").");
    if !(e is BadTicket) {
        lemma_every_error_is_a_sentence(e);
    }
}

/// An operating-system reason ends its sentence with exactly one full stop,
/// whether it arrived with none, one, several, or white space among or
/// after them.
pub proof fn lemma_one_full_stop(e: MpError)
    requires
        e is Bind || e is Endpoint || e is Identity,
    ensures
        e.message_spec().last() == '.',
        e.message_spec()[e.message_spec().len() - 2] != '.',
{
    reveal_strlit(".");
    reveal_strlit("This device could not open a local port for the pipe: ");
    reveal_strlit("This device could not start the connection: ");
    reveal_strlit(": ");
    let reason = match e {
        MpError::Bind { reason } => reason,
        MpError::Endpoint { reason } => reason,
        MpError::Identity { reason, .. } => reason,
        _ => arbitrary(),
    };
    let t = os_reason(reason@);
    lemma_os_reason_ends_in_words(reason@);
    let m = e.message_spec();
    assert(m[m.len() - 2] == if t.len() > 0 { t.last() } else { ' ' });
}

/// A dial's refusal is worth retrying exactly when modelpipe says it is:
/// this library and modelpipe agree case for case.
pub proof fn lemma_connect_retry_agrees(e: MpError, f: ConnectFault)
    requires
        MpError::crosses_as_connect_fault(e, f),
        !(f.kind() is Unrecognised),
    ensures
        e.retryable_spec() == modelpipe_retryable(f.kind()),
{
}

} // verus!
