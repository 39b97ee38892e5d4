//! Where a device's endpoint key lives, and what it is called.
//!
//! A dial is given a directory; this names the file inside it. The name is
//! a digest of the ticket being dialled, so one far machine is one file: a
//! relay allows a single live connection per endpoint id, and a device
//! holding two machines has to meet each as a different device.
//!
//! The name is a contract with the app: SHA-256 of the ticket in its
//! canonical form, the first eight bytes, sixteen lower-case hex characters,
//! then `.key`. What is hashed is the ticket modelpipe would print, never
//! the text the caller passed in, so one machine written two ways is one
//! file. Nothing here creates a directory or a file.

use modelpipe::Ticket;
use std::path::PathBuf;
use vstd::prelude::*;
use vstd::utf8::encode_utf8;

use crate::text::{hex, hex_char, hex_value, push_hex};
use crate::upstream::{
    canonical_ticket, is_lower_hex, join_path, joins, sha256, sha256_digest, ticket_text,
};

verus! {

/// How many leading bytes of the digest name the file: eight, so sixteen
/// hex characters.
pub const NAME_BYTES: usize = 8;

/// The name of the key file for the ticket whose canonical text is
/// `canonical`: the first eight bytes of the SHA-256 of its UTF-8, in
/// lower-case hex, then `.key`.
pub open spec fn key_file_name(canonical: Seq<char>) -> Seq<char> {
    hex(sha256(encode_utf8(canonical)).subrange(0, NAME_BYTES as int)) + ".key"@
}

/// The name of the key file for the ticket whose canonical text is
/// `canonical`.
pub fn key_file_name_for(canonical: &str) -> (r: String)
    ensures
        r@ == key_file_name(canonical@),
{
    let digest = sha256_digest(canonical.as_bytes());
    let mut name = String::new();
    push_hex(&mut name, digest.as_slice(), NAME_BYTES);
    name.append(".key");
    name
}

/// What the key file for `ticket` is called: named after the ticket as
/// modelpipe prints it, never as it was written down.
pub fn file_name(ticket: &Ticket) -> (r: String)
    ensures
        r@ == key_file_name(canonical_ticket(*ticket)),
{
    let canonical = ticket_text(ticket);
    key_file_name_for(canonical.as_str())
}

/// A key file's name is always sixteen hex characters and `.key`.
pub proof fn lemma_key_file_name_shape(canonical: Seq<char>)
    requires
        sha256(encode_utf8(canonical)).len() == 32,
    ensures
        key_file_name(canonical).len() == 20,
        key_file_name(canonical).subrange(16, 20) == ".key"@,
        forall|i: int| 0 <= i < 16 ==> is_lower_hex(#[trigger] key_file_name(canonical)[i]),
{
    reveal_strlit(".key");
    lemma_hex_len(sha256(encode_utf8(canonical)).subrange(0, NAME_BYTES as int));
    lemma_hex_is_lower_hex(sha256(encode_utf8(canonical)).subrange(0, NAME_BYTES as int));
    assert(key_file_name(canonical).subrange(16, 20) =~= ".key"@);
}

/// One machine is one file: two tickets modelpipe prints alike, however
/// each was written down, name the same key file.
pub proof fn lemma_one_machine_one_file(a: Ticket, b: Ticket)
    requires
        canonical_ticket(a) == canonical_ticket(b),
    ensures
        key_file_name(canonical_ticket(a)) == key_file_name(canonical_ticket(b)),
{
}

/// Hex takes two characters a byte.
pub proof fn lemma_hex_len(bytes: Seq<u8>)
    ensures
        hex(bytes).len() == 2 * bytes.len(),
    decreases bytes.len(),
{
    if bytes.len() > 0 {
        lemma_hex_len(bytes.drop_last());
    }
}

/// Hex is lower-case hex digits throughout.
pub proof fn lemma_hex_is_lower_hex(bytes: Seq<u8>)
    ensures
        forall|i: int| 0 <= i < hex(bytes).len() ==> is_lower_hex(#[trigger] hex(bytes)[i]),
    decreases bytes.len(),
{
    lemma_hex_len(bytes);
    if bytes.len() > 0 {
        lemma_hex_is_lower_hex(bytes.drop_last());
        lemma_hex_len(bytes.drop_last());
    }
}

/// Each hex digit reads back as the number it was written for, and is a
/// lower-case hex digit.
pub proof fn lemma_hex_digit_reads_back(d: int)
    requires
        0 <= d < 16,
    ensures
        hex_value(hex_char(d)) == d,
        is_lower_hex(hex_char(d)),
{
}

/// Hex reads back: characters `2 * i` and `2 * i + 1` are the digits of
/// byte `i`'s value over sixteen and its remainder, so together they give
/// the byte again.
pub proof fn lemma_hex_reads_back(bytes: Seq<u8>)
    ensures
        hex(bytes).len() == 2 * bytes.len(),
        forall|i: int|
            0 <= i < bytes.len() ==> {
                &&& hex_value(hex(bytes)[2 * i]) == #[trigger] bytes[i] as int / 16
                &&& hex_value(hex(bytes)[2 * i + 1]) == bytes[i] as int % 16
                &&& 16 * hex_value(hex(bytes)[2 * i]) + hex_value(hex(bytes)[2 * i + 1])
                    == bytes[i]
            },
    decreases bytes.len(),
{
    lemma_hex_len(bytes);
    if bytes.len() > 0 {
        let front = bytes.drop_last();
        lemma_hex_reads_back(front);
        let b = bytes.last() as int;
        lemma_hex_digit_reads_back(b / 16);
        lemma_hex_digit_reads_back(b % 16);
        assert forall|i: int| 0 <= i < bytes.len() implies {
            &&& hex_value(hex(bytes)[2 * i]) == #[trigger] bytes[i] as int / 16
            &&& hex_value(hex(bytes)[2 * i + 1]) == bytes[i] as int % 16
            &&& 16 * hex_value(hex(bytes)[2 * i]) + hex_value(hex(bytes)[2 * i + 1])
                == bytes[i]
        } by {
            if i < front.len() {
                assert(bytes[i] == front[i]);
                assert(hex(bytes)[2 * i] == hex(front)[2 * i]);
                assert(hex(bytes)[2 * i + 1] == hex(front)[2 * i + 1]);
            }
        }
    }
}

/// Hex loses nothing: two byte strings written alike are the same bytes.
pub proof fn lemma_hex_injective(a: Seq<u8>, b: Seq<u8>)
    requires
        hex(a) == hex(b),
    ensures
        a == b,
{
    lemma_hex_reads_back(a);
    lemma_hex_reads_back(b);
    assert forall|i: int| 0 <= i < a.len() implies a[i] == b[i] by {
        assert(a[i] as int == 16 * hex_value(hex(a)[2 * i]) + hex_value(hex(a)[2 * i + 1]));
        assert(b[i] as int == 16 * hex_value(hex(b)[2 * i]) + hex_value(hex(b)[2 * i + 1]));
    }
    assert(a =~= b);
}

/// A key file's name reads back as the first eight bytes of the digest:
/// its characters `2 * i` and `2 * i + 1` are the two hex digits of byte
/// `i`.
pub proof fn lemma_key_file_name_reads_back(canonical: Seq<char>)
    requires
        sha256(encode_utf8(canonical)).len() == 32,
    ensures
        forall|i: int|
            0 <= i < 8 ==> 16 * hex_value(key_file_name(canonical)[2 * i]) + hex_value(
                key_file_name(canonical)[2 * i + 1],
            ) == #[trigger] sha256(encode_utf8(canonical))[i],
{
    let digest = sha256(encode_utf8(canonical));
    let first = digest.subrange(0, NAME_BYTES as int);
    lemma_hex_reads_back(first);
    assert forall|i: int| 0 <= i < 8 implies 16 * hex_value(key_file_name(canonical)[2 * i])
        + hex_value(key_file_name(canonical)[2 * i + 1]) == #[trigger] digest[i] by {
        assert(first[i] == digest[i]);
        assert(key_file_name(canonical)[2 * i] == hex(first)[2 * i]);
        assert(key_file_name(canonical)[2 * i + 1] == hex(first)[2 * i + 1]);
    }
}

/// Two tickets whose digests differ in their first eight bytes name
/// different key files.
pub proof fn lemma_different_digests_different_files(a: Seq<char>, b: Seq<char>)
    requires
        sha256(encode_utf8(a)).subrange(0, 8) != sha256(encode_utf8(b)).subrange(0, 8),
        sha256(encode_utf8(a)).len() == 32,
        sha256(encode_utf8(b)).len() == 32,
    ensures
        key_file_name(a) != key_file_name(b),
{
    let ha = hex(sha256(encode_utf8(a)).subrange(0, 8));
    let hb = hex(sha256(encode_utf8(b)).subrange(0, 8));
    lemma_hex_len(sha256(encode_utf8(a)).subrange(0, 8));
    lemma_hex_len(sha256(encode_utf8(b)).subrange(0, 8));
    if key_file_name(a) == key_file_name(b) {
        assert(ha =~= key_file_name(a).subrange(0, 16));
        assert(hb =~= key_file_name(b).subrange(0, 16));
        lemma_hex_injective(
            sha256(encode_utf8(a)).subrange(0, 8),
            sha256(encode_utf8(b)).subrange(0, 8),
        );
    }
}

/// Where the key for `ticket` goes, given the directory a caller chose: the
/// ticket's key file name joined under it, the same for a dial and for a
/// pairing; none when no directory was given, which is a dial that keeps no
/// key.
/// Joining is all that happens; nothing is opened, made or checked.
pub fn resolve(dir: Option<&str>, ticket: &Ticket) -> (r: Option<PathBuf>)
    ensures
        r is Some <==> dir is Some,
        dir matches Some(d) ==> r matches Some(p) && joins(
            p,
            d@,
            key_file_name(canonical_ticket(*ticket)),
        ),
{
    match dir {
        Some(dir) => {
            let name = file_name(ticket);
            Some(join_path(dir, name.as_str()))
        },
        None => None,
    }
}

} // verus!
