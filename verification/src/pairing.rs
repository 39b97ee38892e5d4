//! A pairing string read without pairing, and what a dial or a pairing does
//! when modelpipe refuses the key it was given.

use modelpipe::{PairingString, PairingStringError};
use vstd::prelude::*;

use crate::error::MpError;
use crate::pair_error::MpPairError;
use crate::upstream::{
    canonical_ticket, code_in_pairing, flaw_sentence, pair_error_kind, pairing_error_text,
    pairing_flaw, pairing_has_code, pairing_parse, pairing_ticket, parse_pairing,
    read_connect_error, read_pair_error, ticket_of_pairing, ticket_text, ConnectFault, ConnectKind,
    PairFault, PairKind,
};

verus! {

/// A pairing string taken apart, as much of it as an app needs: who it
/// names, and whether it carries a code. The code itself never crosses.
#[derive(Clone, PartialEq, Eq)]
pub struct MpPairingString {
    /// The ticket, in modelpipe's canonical lower-case form.
    pub ticket: String,
    /// Whether the string carries a code, which makes it a first pairing
    /// rather than a dial.
    pub has_code: bool,
}

/// What a rendering of a pairing string for a log may say: whether it has a
/// code, and that something is withheld.
pub open spec fn redacted_rendering(has_code: bool) -> Seq<char> {
    if has_code {
        "MpPairingString { has_code: true, .. }"@
    } else {
        "MpPairingString { has_code: false, .. }"@
    }
}

impl MpPairingString {
    /// A rendering for a log or a bug report. The ticket is what this library
    /// keeps out of every rendering, so it is withheld; whether there is a
    /// code is what a report needs.
    pub fn redacted(&self) -> (r: String)
        ensures
            r@ == redacted_rendering(self.has_code),
    {
        if self.has_code {
            "MpPairingString { has_code: true, .. }".to_owned()
        } else {
            "MpPairingString { has_code: false, .. }".to_owned()
        }
    }
}

/// How a first pairing renders in a log: the device and the machine it
/// paired with, and that something is withheld. The key is not an input, so
/// it cannot appear.
pub open spec fn paired_rendering(device: Seq<char>, serving: Seq<char>) -> Seq<char> {
    "MpPaired { device: "@ + device + ", serving: "@ + serving + ", .. }"@
}

/// A rendering of a first pairing for a log or a bug report: the device
/// and the machine it paired with, never the key.
pub fn redacted_paired(device: &str, serving: &str) -> (r: String)
    ensures
        r@ == paired_rendering(device@, serving@),
{
    let mut r = "MpPaired { device: ".to_owned();
    r.append(device);
    r.append(", serving: ");
    r.append(serving);
    r.append(", .. }");
    r
}

/// The sentence a pairing string that is not one reads as, around
/// modelpipe's own words for what is wrong with it.
pub open spec fn unreadable_pairing(detail: Seq<char>) -> Seq<char> {
    "That pairing string could not be read ("@ + detail + ")."@
}

/// The refusal modelpipe's words for a pairing string cross as.
pub fn bad_pairing_string(detail: &str) -> (e: MpPairError)
    ensures
        e matches MpPairError::BadPairingString { reason } && reason@ == unreadable_pairing(
            detail@,
        ),
{
    let mut reason = "That pairing string could not be read (".to_owned();
    reason.append(detail);
    reason.append(").");
    MpPairError::BadPairingString { reason }
}

/// The sentence a pairing string modelpipe refuses crosses with: the fixed
/// opening and closing around modelpipe's own words for which part is
/// wrong, and nothing of the string itself.
pub open spec fn pairing_refusal_sentence(text: Seq<char>) -> Seq<char> {
    unreadable_pairing(flaw_sentence(pairing_flaw(pairing_parse(text)->Err_0)))
}

/// The ticket a pairing string names, in modelpipe's canonical form.
pub open spec fn pairing_ticket_text(text: Seq<char>) -> Seq<char> {
    canonical_ticket(ticket_of_pairing(pairing_parse(text)->Ok_0))
}

/// Whether a pairing string carries a code.
pub open spec fn pairing_code_in(text: Seq<char>) -> bool {
    code_in_pairing(pairing_parse(text)->Ok_0)
}

/// Reads `text` as a pairing string, with modelpipe's own parser: what it
/// reads, or its refusal, in a sentence of modelpipe's fixed words that
/// never contains the string.
pub fn parse_pairing_string(text: &str) -> (r: Result<PairingString, MpPairError>)
    ensures
        r is Ok <==> pairing_parse(text@) is Ok,
        r matches Ok(p) ==> pairing_parse(text@) == Ok::<PairingString, PairingStringError>(p),
        r matches Err(e) ==> e matches MpPairError::BadPairingString { reason }
            && reason@ == pairing_refusal_sentence(text@),
{
    match parse_pairing(text) {
        Ok(parsed) => Ok(parsed),
        Err(error) => {
            let detail = pairing_error_text(&error);
            Err(bad_pairing_string(detail.as_str()))
        },
    }
}

/// Read a pairing string without pairing, with modelpipe's own parser, so
/// what this accepts a pairing accepts and what it refuses a pairing
/// refuses in the same words: the ticket in canonical form and whether
/// there is a code, or the refusal. The code itself never comes back.
pub fn mp_read_pairing(pairing: &str) -> (r: Result<MpPairingString, MpPairError>)
    ensures
        r is Ok <==> pairing_parse(pairing@) is Ok,
        r matches Ok(read) ==> read.ticket@ == pairing_ticket_text(pairing@) && read.has_code
            == pairing_code_in(pairing@),
        r matches Err(e) ==> e matches MpPairError::BadPairingString { reason }
            && reason@ == pairing_refusal_sentence(pairing@),
{
    match parse_pairing_string(pairing) {
        Ok(parsed) => {
            let t = pairing_ticket(&parsed);
            let ticket = ticket_text(t);
            let has_code = pairing_has_code(&parsed);
            Ok(MpPairingString { ticket, has_code })
        },
        Err(e) => Err(e),
    }
}

/// Whether `s` holds a decimal digit anywhere.
pub open spec fn has_digit(s: Seq<char>) -> bool {
    exists|i: int| 0 <= i < s.len() && '0' <= #[trigger] s[i] <= '9'
}

/// Whether `s` holds `pipe`, the prefix every ticket begins with, anywhere.
pub open spec fn has_pipe(s: Seq<char>) -> bool {
    exists|i: int|
        0 <= i && i + 4 <= s.len() && #[trigger] s.subrange(i, i + 4) == "pipe"@
}

/// A refused pairing string's sentence holds no digit, so no part of its
/// six-digit code, and no `pipe`, so no ticket: it renders nothing of the
/// string, whatever was pasted.
pub proof fn lemma_pairing_refusal_quotes_nothing(text: Seq<char>)
    ensures
        !has_digit(pairing_refusal_sentence(text)),
        !has_pipe(pairing_refusal_sentence(text)),
{
    reveal_strlit("That pairing string could not be read (");
    reveal_strlit(").");
    reveal_strlit("a pairing string is a ticket, or a ticket, a '-' and a six-digit code");
    reveal_strlit("the part after the last '-' should be the six-digit code");
    reveal_strlit("the part before the code is not a ticket");
    reveal_strlit("pipe");
    let s = pairing_refusal_sentence(text);
    assert forall|i: int| 0 <= i < s.len() implies !('0' <= #[trigger] s[i] <= '9') by {}
    assert forall|i: int| 0 <= i && i + 4 <= s.len() implies #[trigger] s.subrange(i, i + 4)
        != "pipe"@ by {
        if s.subrange(i, i + 4) == "pipe"@ {
            assert(s.subrange(i, i + 4)[0] == s[i]);
            assert(s.subrange(i, i + 4)[1] == s[i + 1]);
            assert(s.subrange(i, i + 4)[2] == s[i + 2]);
            assert(s.subrange(i, i + 4)[3] == s[i + 3]);
        }
    }
}

/// A refused pairing string reads as a whole sentence and is never worth
/// retrying.
pub proof fn lemma_bad_pairing_string_is_final(e: MpPairError, d: Seq<char>)
    requires
        e matches MpPairError::BadPairingString { reason } && reason@ == unreadable_pairing(d),
    ensures
        crate::error::is_sentence(e.message_spec()),
        !e.retryable_spec(),
{
    reveal_strlit("That pairing string could not be read (");
    reveal_strlit(").");
}

impl MpError {
    /// Whether this is modelpipe refusing the key file it was given.
    pub open spec fn is_key_refusal_spec(self) -> bool {
        self is Identity
    }

    /// Whether this is modelpipe refusing the key file it was given.
    pub fn is_key_refusal(&self) -> (r: bool)
        ensures
            r == self.is_key_refusal_spec(),
    {
        match self {
            MpError::Identity { .. } => true,
            _ => false,
        }
    }
}

/// A failed pairing, as it crosses, and whether the failure was modelpipe
/// refusing the key file the dial underneath it was given.
pub struct PairRefusal {
    /// The error as it crosses.
    pub error: MpPairError,
    /// Whether the dial was refused over its key file.
    pub about_the_key: bool,
}

/// A failed pairing as it crosses, noting whether the dial underneath was
/// refused over its key file.
pub fn pair_refusal(f: PairFault) -> (r: PairRefusal)
    ensures
        MpPairError::crosses_as_pair_fault(r.error, f),
        r.about_the_key <==> (f.kind() matches PairKind::Connect(k) && k is Identity),
        f is Connect ==> exists|d: MpError, c: ConnectFault|
            #![trigger MpError::crosses_as_connect_fault(d, c)]
            {
                &&& MpError::crosses_as_connect_fault(d, c)
                &&& r.error matches MpPairError::Dial { reason, retryable }
                &&& reason@ == d.message_spec()
                &&& retryable == d.retryable_spec()
                &&& r.about_the_key == d.is_key_refusal_spec()
            },
{
    match f {
        PairFault::Connect(c) => {
            let fault = read_connect_error(c);
            let d = MpError::from_connect_fault(fault);
            let about_the_key = d.is_key_refusal();
            let reason = d.message();
            let retryable = d.is_retryable();
            assert(MpError::crosses_as_connect_fault(d, fault));
            PairRefusal { error: MpPairError::Dial { reason, retryable }, about_the_key }
        },
        other => {
            let error = MpPairError::from_pair_fault(other);
            PairRefusal { error, about_the_key: false }
        },
    }
}

/// A failed pairing of modelpipe's, as it crosses, noting whether the dial
/// underneath was refused over its key file.
pub fn refusal_of(e: modelpipe::PairError) -> (r: PairRefusal)
    ensures
        exists|f: PairFault|
            #![trigger MpPairError::crosses_as_pair_fault(r.error, f)]
            MpPairError::crosses_as_pair_fault(r.error, f) && f.kind() == pair_error_kind(e),
        r.about_the_key <==> (pair_error_kind(e) matches PairKind::Connect(k) && k is Identity),
{
    let f = read_pair_error(e);
    let r = pair_refusal(f);
    assert(MpPairError::crosses_as_pair_fault(r.error, f));
    r
}

/// What a dial or a pairing does when modelpipe refuses the key file it
/// was given: throw the file away and try once more, only when the refusal
/// was about the key, only when there is a file to throw away, and only
/// once.
pub struct KeyRecovery {
    retried: bool,
}

impl KeyRecovery {
    /// Whether the one retry has been spent.
    pub closed spec fn has_retried(self) -> bool {
        self.retried
    }

    /// Whether a refusal throws the key file away: only a refusal about the
    /// key, with a file named, while the retry is unspent.
    pub open spec fn discards(self, about_the_key: bool, key_file_named: bool) -> bool {
        about_the_key && key_file_named && !self.has_retried()
    }

    /// Whether to dial again: only when a file was thrown away, while the
    /// retry is unspent.
    pub open spec fn dials_again(self, discarded: bool) -> bool {
        discarded && !self.has_retried()
    }

    /// Before the first attempt.
    pub fn new() -> (r: KeyRecovery)
        ensures
            !r.has_retried(),
    {
        KeyRecovery { retried: false }
    }

    /// Whether to throw the key file away after a refusal. A refusal for
    /// any other reason leaves the key alone.
    pub fn should_discard(&self, about_the_key: bool, key_file_named: bool) -> (r: bool)
        ensures
            r == self.discards(about_the_key, key_file_named),
    {
        about_the_key && key_file_named && !self.retried
    }

    /// Whether to dial again, once the key file was or was not thrown away.
    /// Saying yes spends the retry.
    pub fn should_dial_again(&mut self, discarded: bool) -> (r: bool)
        ensures
            r == old(self).dials_again(discarded),
            final(self).has_retried() == (old(self).has_retried() || r),
    {
        if discarded && !self.retried {
            self.retried = true;
            true
        } else {
            false
        }
    }
}

/// At most one retry: once a recovery has said to dial again, it says so
/// never again, and throws no key away after, whatever the next refusal.
pub proof fn lemma_at_most_one_retry(
    before: KeyRecovery,
    after: KeyRecovery,
    discarded: bool,
    discarded_later: bool,
    about_the_key: bool,
    key_file_named: bool,
)
    requires
        before.dials_again(discarded),
        after.has_retried() == (before.has_retried() || before.dials_again(discarded)),
    ensures
        !after.dials_again(discarded_later),
        !after.discards(about_the_key, key_file_named),
{
}

} // verus!
