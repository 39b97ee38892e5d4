//! Why a pairing did not pair, and why a wait did not reach.

use modelpipe::{ConnectError, PairError, Unreached};
use vstd::prelude::*;

use crate::error::{is_sentence, lemma_every_error_is_a_sentence, MpError};
use crate::status::MpCloseReason;
use crate::text::{decimal, decimal_text, lemma_os_reason_ends_in_words, os_reason, trimmed};
use crate::upstream::{
    connect_error_kind, modelpipe_retryable, pair_error_kind, read_connect_error, read_pair_error, read_unreached, upstream_close, upstream_unreached,
    ConnectFault, PairFault, UnreachedFault,
};

verus! {

/// Why a wait to reach the far machine gave up.
#[derive(Clone, Copy, Debug, PartialEq, Eq, Structural)]
pub enum MpUnreached {
    /// The wait ran out. The pipe keeps looking.
    TimedOut {
        /// How long it waited.
        within_ms: u64,
    },
    /// The pipe closed before it reached the far machine.
    Closed {
        /// Why it closed, when anything recorded it.
        reason: Option<MpCloseReason>,
    },
}

/// The wait, in whole milliseconds, as far as a `u64` holds it.
pub open spec fn saturated_millis(millis: u128) -> u64 {
    if millis > u64::MAX as u128 {
        u64::MAX
    } else {
        millis as u64
    }
}

impl MpUnreached {
    /// The sentence to show a person.
    pub open spec fn message_spec(self) -> Seq<char> {
        match self {
            MpUnreached::TimedOut { .. } =>
                "The other machine did not answer in time. Check it is awake and still sharing."@,
            MpUnreached::Closed { .. } =>
                "The connection ended before the other machine answered."@,
        }
    }

    /// Whether waiting again could plausibly reach it.
    pub open spec fn retryable_spec(self) -> bool {
        self is TimedOut
    }

    /// What modelpipe's answer crosses as. A case this build does not know
    /// reads as the pipe having ended, for no recorded reason.
    pub open spec fn from_fault_spec(f: UnreachedFault) -> MpUnreached {
        match f {
            UnreachedFault::TimedOut { millis } => MpUnreached::TimedOut {
                within_ms: saturated_millis(millis),
            },
            UnreachedFault::Closed { reason } => MpUnreached::Closed {
                reason: match reason {
                    Some(r) => Some(MpCloseReason::from_upstream_spec(upstream_close(r))),
                    None => None,
                },
            },
            UnreachedFault::Unrecognised => MpUnreached::Closed { reason: None },
        }
    }

    /// The sentence to show a person.
    pub fn message(&self) -> (r: String)
        ensures
            r@ == self.message_spec(),
    {
        match self {
            MpUnreached::TimedOut { .. } => {
                "The other machine did not answer in time. Check it is awake and still sharing.".to_owned()
            },
            MpUnreached::Closed { .. } => {
                "The connection ended before the other machine answered.".to_owned()
            },
        }
    }

    /// Whether waiting again could plausibly reach it: a wait that ran out
    /// may not next time, a pipe that closed stays closed.
    pub fn is_retryable(&self) -> (r: bool)
        ensures
            r == self.retryable_spec(),
            r <==> self is TimedOut,
    {
        match self {
            MpUnreached::TimedOut { .. } => true,
            MpUnreached::Closed { .. } => false,
        }
    }

    /// What a read of modelpipe's answer crosses as.
    pub fn from_fault(f: UnreachedFault) -> (r: MpUnreached)
        ensures
            r == Self::from_fault_spec(f),
    {
        match f {
            UnreachedFault::TimedOut { millis } => {
                let within_ms: u64 = if millis > u64::MAX as u128 {
                    u64::MAX
                } else {
                    millis as u64
                };
                MpUnreached::TimedOut { within_ms }
            },
            UnreachedFault::Closed { reason } => MpUnreached::Closed {
                reason: match reason {
                    Some(r) => Some(MpCloseReason::from_close_reason(r)),
                    None => None,
                },
            },
            UnreachedFault::Unrecognised => MpUnreached::Closed { reason: None },
        }
    }

    /// What modelpipe's `Unreached` crosses as.
    pub fn from_unreached(u: Unreached) -> (r: MpUnreached)
        ensures
            r == Self::from_fault_spec(upstream_unreached(u)),
    {
        Self::from_fault(read_unreached(u))
    }
}

impl From<Unreached> for MpUnreached {
    /// What modelpipe's `Unreached` crosses as.
    fn from(u: Unreached) -> (r: Self) {
        Self::from_unreached(u)
    }
}

impl vstd::std_specs::convert::FromSpecImpl<Unreached> for MpUnreached {
    open spec fn obeys_from_spec() -> bool {
        true
    }

    open spec fn from_spec(u: Unreached) -> Self {
        Self::from_fault_spec(upstream_unreached(u))
    }
}

/// Why a pairing did not produce a key.
#[derive(Clone, Debug, PartialEq, Eq)]
pub enum MpPairError {
    /// The pairing string is a ticket alone, with no code to redeem.
    NoCode,
    /// The pairing string is not one.
    BadPairingString {
        /// What was wrong with it, in a sentence. Never the string.
        reason: String,
    },
    /// The pipe to pair over could not be set up.
    Dial {
        /// The sentence `MpError` would have shown.
        reason: String,
        /// Whether dialling again could succeed.
        retryable: bool,
    },
    /// The far machine was not reached in the time given.
    Unreached {
        /// Which way the wait ended.
        why: MpUnreached,
    },
    /// The far machine refused the code.
    Refused,
    /// The code could not be presented, or its answer could not be read.
    Exchange {
        /// The operating system's reason.
        reason: String,
    },
    /// The far machine answered with something that is not a pairing answer.
    Unexpected {
        /// What was wrong with the answer.
        detail: String,
    },
    /// The far machine answered with an HTTP status the pairing exchange
    /// does not define. A 404 is a machine too old to pair this way.
    UnexpectedStatus {
        /// The status it answered with.
        status: u16,
    },
    /// Something modelpipe grew that this build does not know about.
    Unknown {
        /// The upstream `Debug` rendering, for a bug report.
        detail: String,
    },
}

impl MpPairError {
    /// The sentence to show a person, case by case.
    pub open spec fn message_spec(self) -> Seq<char> {
        match self {
            MpPairError::NoCode =>
                "That pairing string has no code in it. Ask the other machine for a new one."@,
            MpPairError::BadPairingString { reason } => reason@,
            MpPairError::Dial { reason, .. } => reason@,
            MpPairError::Unreached { why } => why.message_spec(),
            MpPairError::Refused =>
                "The other machine did not accept that code. It may be wrong, expired or already used, so ask for a new one."@,
            MpPairError::Exchange { reason } => "The pairing could not be completed: "@
                + os_reason(reason@) + "."@,
            MpPairError::Unexpected { detail } =>
                "The other machine's answer was not a pairing answer ("@ + detail@ + ")."@,
            MpPairError::UnexpectedStatus { status } => if status == 404 {
                "The other machine answered 404: it is too old to pair this way. Update it, then ask it for a new code."@
            } else {
                "The other machine answered the pairing with status "@ + decimal(status as nat)
                    + ", which this app does not understand."@
            },
            MpPairError::Unknown { detail } =>
                "The pairing failed for a reason this app does not recognise ("@ + detail@
                + ")."@,
        }
    }

    /// Whether pairing again could succeed without anything else changing.
    pub open spec fn retryable_spec(self) -> bool {
        match self {
            MpPairError::Dial { retryable, .. } => retryable,
            MpPairError::Unreached { why } => why.retryable_spec(),
            MpPairError::Exchange { .. } | MpPairError::Unknown { .. } => true,
            _ => false,
        }
    }

    /// Whether `e` is the error a failed pairing crosses as: a dial that did
    /// not start carries the sentence and the retryability of the `MpError`
    /// it would have been; everything else crosses case for case.
    pub open spec fn crosses_as_pair_fault(e: MpPairError, f: PairFault) -> bool {
        match f {
            PairFault::NoCode => e == MpPairError::NoCode,
            PairFault::Connect(ce) => exists|d: MpError, c: ConnectFault|
                #![trigger MpError::crosses_as_connect_fault(d, c)]
                {
                    &&& MpError::crosses_as_connect_fault(d, c)
                    &&& c.kind() == connect_error_kind(ce)
                    &&& e matches MpPairError::Dial { reason, retryable }
                    &&& reason@ == d.message_spec()
                    &&& retryable == d.retryable_spec()
                },
            PairFault::Unreached(u) => e == MpPairError::Unreached {
                why: MpUnreached::from_fault_spec(upstream_unreached(u)),
            },
            PairFault::Refused => e == MpPairError::Refused,
            PairFault::Exchange { reason } => e == MpPairError::Exchange { reason },
            PairFault::Unexpected { detail } => e == MpPairError::Unexpected { detail },
            PairFault::UnexpectedStatus { status } => e == MpPairError::UnexpectedStatus { status },
            PairFault::Unrecognised { detail } => e == MpPairError::Unknown { detail },
        }
    }

    /// The sentence to show a person.
    pub fn message(&self) -> (r: String)
        ensures
            r@ == self.message_spec(),
    {
        match self {
            MpPairError::NoCode => {
                "That pairing string has no code in it. Ask the other machine for a new one.".to_owned()
            },
            MpPairError::BadPairingString { reason } => reason.clone(),
            MpPairError::Dial { reason, .. } => reason.clone(),
            MpPairError::Unreached { why } => why.message(),
            MpPairError::Refused => {
                "The other machine did not accept that code. It may be wrong, expired or already used, so ask for a new one.".to_owned()
            },
            MpPairError::Exchange { reason } => {
                let mut r = "The pairing could not be completed: ".to_owned();
                r.append(trimmed(reason.as_str()));
                r.append(".");
                r
            },
            MpPairError::Unexpected { detail } => {
                let mut r = "The other machine's answer was not a pairing answer (".to_owned();
                r.append(detail.as_str());
                r.append(").");
                r
            },
            MpPairError::UnexpectedStatus { status } => {
                if *status == 404 {
                    "The other machine answered 404: it is too old to pair this way. Update it, then ask it for a new code.".to_owned()
                } else {
                    let mut r = "The other machine answered the pairing with status ".to_owned();
                    let n = decimal_text(*status as u64);
                    r.append(n.as_str());
                    r.append(", which this app does not understand.");
                    r
                }
            },
            MpPairError::Unknown { detail } => {
                let mut r =
                    "The pairing failed for a reason this app does not recognise (".to_owned();
                r.append(detail.as_str());
                r.append(").");
                r
            },
        }
    }

    /// Whether pairing again could succeed without anything else changing.
    /// A refused code, a string that is not one, a ticket with no code and
    /// an answer this side cannot read stay so however often they are
    /// tried.
    pub fn is_retryable(&self) -> (r: bool)
        ensures
            r == self.retryable_spec(),
            self matches MpPairError::Unreached { why } ==> (r <==> why is TimedOut),
    {
        match self {
            MpPairError::Dial { retryable, .. } => *retryable,
            MpPairError::Unreached { why } => why.is_retryable(),
            MpPairError::Exchange { .. } | MpPairError::Unknown { .. } => true,
            MpPairError::NoCode
            | MpPairError::BadPairingString { .. }
            | MpPairError::Refused
            | MpPairError::Unexpected { .. }
            | MpPairError::UnexpectedStatus { .. } => false,
        }
    }

    /// The error a failed pairing crosses as.
    pub fn from_pair_fault(f: PairFault) -> (e: MpPairError)
        ensures
            Self::crosses_as_pair_fault(e, f),
    {
        match f {
            PairFault::NoCode => MpPairError::NoCode,
            PairFault::Connect(c) => {
                let fault = read_connect_error(c);
                let d = MpError::from_connect_fault(fault);
                let reason = d.message();
                let retryable = d.is_retryable();
                let e = MpPairError::Dial { reason, retryable };
                assert(MpError::crosses_as_connect_fault(d, fault));
                e
            },
            PairFault::Unreached(u) => MpPairError::Unreached { why: MpUnreached::from_unreached(u) },
            PairFault::Refused => MpPairError::Refused,
            PairFault::Exchange { reason } => MpPairError::Exchange { reason },
            PairFault::Unexpected { detail } => MpPairError::Unexpected { detail },
            PairFault::UnexpectedStatus { status } => MpPairError::UnexpectedStatus { status },
            PairFault::Unrecognised { detail } => MpPairError::Unknown { detail },
        }
    }

    /// The error modelpipe's failed pairing crosses as: the case that
    /// failure is, with what it carries.
    pub fn from_pair_error(e: PairError) -> (r: MpPairError)
        ensures
            exists|f: PairFault|
                #![trigger Self::crosses_as_pair_fault(r, f)]
                Self::crosses_as_pair_fault(r, f) && f.kind() == pair_error_kind(e),
    {
        let f = read_pair_error(e);
        let r = Self::from_pair_fault(f);
        assert(Self::crosses_as_pair_fault(r, f));
        r
    }
}

/// Every way a wait gives up reads as a whole sentence.
pub proof fn lemma_every_unreached_is_a_sentence(u: MpUnreached)
    ensures
        is_sentence(u.message_spec()),
{
    reveal_strlit(
        "The other machine did not answer in time. Check it is awake and still sharing.",
    );
    reveal_strlit("The connection ended before the other machine answered.");
}

/// Every pairing error but the two that carry a sentence handed to them
/// reads as a whole sentence.
pub proof fn lemma_every_pair_error_is_a_sentence(e: MpPairError)
    requires
        !(e is BadPairingString),
        !(e is Dial),
    ensures
        is_sentence(e.message_spec()),
{
    reveal_strlit("That pairing string has no code in it. Ask the other machine for a new one.");
    reveal_strlit(
        "The other machine did not accept that code. It may be wrong, expired or already used, so ask for a new one.",
    );
    reveal_strlit("The pairing could not be completed: ");
    reveal_strlit(".");
    reveal_strlit("The other machine's answer was not a pairing answer (");
    reveal_strlit(").");
    reveal_strlit(
        "The other machine answered 404: it is too old to pair this way. Update it, then ask it for a new code.",
    );
    reveal_strlit("The other machine answered the pairing with status ");
    reveal_strlit(", which this app does not understand.");
    reveal_strlit("The pairing failed for a reason this app does not recognise (");
    if let MpPairError::Unreached { why } = e {
        lemma_every_unreached_is_a_sentence(why);
    }
}

/// What a failed pairing crosses as is a whole sentence, whichever way it
/// failed: a dial that did not start carries the dial's own sentence.
pub proof fn lemma_pair_fault_is_a_sentence(e: MpPairError, f: PairFault)
    requires
        MpPairError::crosses_as_pair_fault(e, f),
    ensures
        is_sentence(e.message_spec()),
{
    if let PairFault::Connect(_) = f {
        let (d, c) = choose|d: MpError, c: ConnectFault|
            #![trigger MpError::crosses_as_connect_fault(d, c)]
            {
                &&& MpError::crosses_as_connect_fault(d, c)
                &&& e matches MpPairError::Dial { reason, retryable }
                &&& reason@ == d.message_spec()
                &&& retryable == d.retryable_spec()
            };
        lemma_every_error_is_a_sentence(d);
    } else {
        lemma_every_pair_error_is_a_sentence(e);
    }
}

/// A pairing whose dial did not start is worth retrying exactly when
/// modelpipe says that dial's refusal is, and shows that refusal's own
/// sentence.
pub proof fn lemma_dial_retry_agrees(e: MpPairError, ce: ConnectError)
    requires
        MpPairError::crosses_as_pair_fault(e, PairFault::Connect(ce)),
        !(connect_error_kind(ce) is Unrecognised),
    ensures
        e is Dial,
        e.retryable_spec() == modelpipe_retryable(connect_error_kind(ce)),
{
}

/// A pairing whose dial was refused over its key file says which file.
pub proof fn lemma_key_refusal_names_the_file(e: MpPairError, ce: ConnectError)
    requires
        MpPairError::crosses_as_pair_fault(e, PairFault::Connect(ce)),
        connect_error_kind(ce) is Identity,
    ensures
        e.message_spec().len() >= 38 + connect_error_kind(ce)->Identity_path.len(),
        e.message_spec().subrange(38, 38 + connect_error_kind(ce)->Identity_path.len() as int)
            == connect_error_kind(ce)->Identity_path,
        !e.retryable_spec(),
{
    reveal_strlit("This device could not keep its key in ");
    let (d, c) = choose|d: MpError, c: ConnectFault|
        #![trigger MpError::crosses_as_connect_fault(d, c)]
        {
            &&& MpError::crosses_as_connect_fault(d, c)
            &&& c.kind() == connect_error_kind(ce)
            &&& e matches MpPairError::Dial { reason, retryable }
            &&& reason@ == d.message_spec()
            &&& retryable == d.retryable_spec()
        };
    let path = connect_error_kind(ce)->Identity_path;
    assert(d.message_spec().subrange(38, 38 + path.len() as int) =~= path);
}

/// A wait that ran out is worth waiting for again; one that ended because
/// the pipe closed never is, whatever close reason it carries, and neither
/// is a pairing that gave up for that reason.
pub proof fn lemma_only_a_timeout_is_retried(within_ms: u64, reason: Option<MpCloseReason>)
    ensures
        (MpUnreached::TimedOut { within_ms }).retryable_spec(),
        !(MpUnreached::Closed { reason }).retryable_spec(),
        (MpPairError::Unreached { why: MpUnreached::TimedOut { within_ms } }).retryable_spec(),
        !(MpPairError::Unreached { why: MpUnreached::Closed { reason } }).retryable_spec(),
{
}

/// What modelpipe's answer to a wait crosses as is worth retrying exactly
/// when modelpipe says the wait timed out.
pub proof fn lemma_retry_follows_the_fault(f: UnreachedFault)
    ensures
        MpUnreached::from_fault_spec(f).retryable_spec() <==> f is TimedOut,
{
}

/// An exchange that failed ends its sentence with exactly one full stop,
/// however the operating system punctuated its reason.
pub proof fn lemma_exchange_one_full_stop(reason: String)
    ensures
        (MpPairError::Exchange { reason }).message_spec().last() == '.',
        (MpPairError::Exchange { reason }).message_spec()[(MpPairError::Exchange {
            reason,
        }).message_spec().len() - 2] != '.',
{
    reveal_strlit(".");
    reveal_strlit("The pairing could not be completed: ");
    lemma_os_reason_ends_in_words(reason@);
    let t = os_reason(reason@);
    let m = (MpPairError::Exchange { reason }).message_spec();
    assert(m[m.len() - 2] == if t.len() > 0 { t.last() } else { ' ' });
}

} // verus!
