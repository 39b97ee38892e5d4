//! Text the library writes and reads: whitespace, trimming, numbers.

use vstd::prelude::*;

verus! {

/// Unicode's White_Space property, the one `char::is_whitespace` and
/// `str::trim` go by.
pub open spec fn is_white_space(c: char) -> bool {
    let n = c as u32;
    ||| 0x09 <= n <= 0x0d
    ||| n == 0x20
    ||| n == 0x85
    ||| n == 0xa0
    ||| n == 0x1680
    ||| 0x2000 <= n <= 0x200a
    ||| n == 0x2028
    ||| n == 0x2029
    ||| n == 0x202f
    ||| n == 0x205f
    ||| n == 0x3000
}

/// `s` without its leading white space.
pub open spec fn strip_start_white(s: Seq<char>) -> Seq<char>
    decreases s.len(),
{
    if s.len() > 0 && is_white_space(s[0]) {
        strip_start_white(s.drop_first())
    } else {
        s
    }
}

/// Whether `c` is what a sentence's tail sheds: white space or a full stop.
pub open spec fn is_tail_noise(c: char) -> bool {
    is_white_space(c) || c == '.'
}

/// `s` without the white space and full stops at its end, however they
/// are interleaved.
pub open spec fn strip_end_noise(s: Seq<char>) -> Seq<char>
    decreases s.len(),
{
    if s.len() > 0 && is_tail_noise(s.last()) {
        strip_end_noise(s.drop_last())
    } else {
        s
    }
}

/// An operating-system reason made ready to end a sentence: white space
/// off the front, and white space and full stops off the end until neither
/// is left, so the sentence can supply the one full stop it ends with.
pub open spec fn os_reason(s: Seq<char>) -> Seq<char> {
    strip_end_noise(strip_start_white(s))
}

/// A reason made ready never ends in white space or a full stop.
pub proof fn lemma_os_reason_ends_in_words(s: Seq<char>)
    ensures
        os_reason(s).len() == 0 || !is_tail_noise(os_reason(s).last()),
{
    lemma_noise_stripped(strip_start_white(s));
}

/// Stripping the noise leaves none at the end.
pub proof fn lemma_noise_stripped(s: Seq<char>)
    ensures
        strip_end_noise(s).len() == 0 || !is_tail_noise(strip_end_noise(s).last()),
    decreases s.len(),
{
    if s.len() > 0 && is_tail_noise(s.last()) {
        lemma_noise_stripped(s.drop_last());
    }
}

/// Whether `c` is Unicode white space.
pub fn white_space(c: char) -> (r: bool)
    ensures
        r == is_white_space(c),
{
    let n: u32 = c as u32;
    (0x09 <= n && n <= 0x0d) || n == 0x20 || n == 0x85 || n == 0xa0 || n == 0x1680 || (0x2000
        <= n && n <= 0x200a) || n == 0x2028 || n == 0x2029 || n == 0x202f || n == 0x205f || n
        == 0x3000
}

/// The first index at or after `lo` whose character is not white space,
/// looking no further than `hi`.
fn skip_white_front(s: &str, lo: usize, hi: usize) -> (r: usize)
    requires
        lo <= hi <= s@.len(),
    ensures
        lo <= r <= hi,
        strip_start_white(s@.subrange(lo as int, hi as int)) == s@.subrange(r as int, hi as int),
{
    let mut i: usize = lo;
    while i < hi && white_space(s.get_char(i))
        invariant
            lo <= i <= hi <= s@.len(),
            strip_start_white(s@.subrange(lo as int, hi as int)) == strip_start_white(
                s@.subrange(i as int, hi as int),
            ),
        decreases hi - i,
    {
        assert(s@.subrange(i as int, hi as int).drop_first() =~= s@.subrange(
            i + 1,
            hi as int,
        ));
        i = i + 1;
    }
    i
}

/// Whether `c` is white space or a full stop.
fn tail_noise(c: char) -> (r: bool)
    ensures
        r == is_tail_noise(c),
{
    white_space(c) || c == '.'
}

/// The end of `s[lo..hi]` once its trailing white space and full stops
/// are dropped.
fn drop_noise_back(s: &str, lo: usize, hi: usize) -> (r: usize)
    requires
        lo <= hi <= s@.len(),
    ensures
        lo <= r <= hi,
        strip_end_noise(s@.subrange(lo as int, hi as int)) == s@.subrange(lo as int, r as int),
{
    let mut j: usize = hi;
    while j > lo && tail_noise(s.get_char(j - 1))
        invariant
            lo <= j <= hi <= s@.len(),
            strip_end_noise(s@.subrange(lo as int, hi as int)) == strip_end_noise(
                s@.subrange(lo as int, j as int),
            ),
        decreases j - lo,
    {
        assert(s@.subrange(lo as int, j as int).drop_last() =~= s@.subrange(
            lo as int,
            j - 1,
        ));
        j = j - 1;
    }
    j
}

/// An operating-system reason, ready to be the tail of a sentence: white
/// space off the front, and white space and full stops off the end, so the
/// sentence ends in exactly one full stop however the reason was punctuated.
pub fn trimmed(reason: &str) -> (r: &str)
    ensures
        r@ == os_reason(reason@),
{
    let n = reason.unicode_len();
    let a = skip_white_front(reason, 0, n);
    let d = drop_noise_back(reason, a, n);
    assert(reason@.subrange(0, n as int) =~= reason@);
    reason.substring_char(a, d)
}

/// Appends `c` to `s`: `String::push`.
#[verifier::external_body]
pub(crate) fn push_char(s: &mut String, c: char)
    ensures
        final(s)@ == old(s)@.push(c),
{
    s.push(c)
}

/// The decimal digit `d` stands for.
pub open spec fn digit_char(d: nat) -> char {
    if d == 0 {
        '0'
    } else if d == 1 {
        '1'
    } else if d == 2 {
        '2'
    } else if d == 3 {
        '3'
    } else if d == 4 {
        '4'
    } else if d == 5 {
        '5'
    } else if d == 6 {
        '6'
    } else if d == 7 {
        '7'
    } else if d == 8 {
        '8'
    } else {
        '9'
    }
}

/// `n` in decimal, with no leading zeros.
pub open spec fn decimal(n: nat) -> Seq<char>
    decreases n,
{
    if n < 10 {
        seq![digit_char(n)]
    } else {
        decimal(n / 10).push(digit_char(n % 10))
    }
}

fn digit(d: u64) -> (c: char)
    requires
        d < 10,
    ensures
        c == digit_char(d as nat),
{
    if d == 0 {
        '0'
    } else if d == 1 {
        '1'
    } else if d == 2 {
        '2'
    } else if d == 3 {
        '3'
    } else if d == 4 {
        '4'
    } else if d == 5 {
        '5'
    } else if d == 6 {
        '6'
    } else if d == 7 {
        '7'
    } else if d == 8 {
        '8'
    } else {
        '9'
    }
}

/// `n` written in decimal.
pub fn decimal_text(n: u64) -> (r: String)
    ensures
        r@ == decimal(n as nat),
    decreases n,
{
    if n < 10 {
        let mut s = String::new();
        push_char(&mut s, digit(n));
        s
    } else {
        let mut s = decimal_text(n / 10);
        push_char(&mut s, digit(n % 10));
        s
    }
}

/// The lower-case hex digit for `d`.
pub open spec fn hex_char(d: int) -> char {
    if d < 10 {
        digit_char(d as nat)
    } else if d == 10 {
        'a'
    } else if d == 11 {
        'b'
    } else if d == 12 {
        'c'
    } else if d == 13 {
        'd'
    } else if d == 14 {
        'e'
    } else {
        'f'
    }
}

/// The number a lower-case hex digit stands for, read from its code point:
/// `'0'` to `'9'` stand for 0 to 9, `'a'` to `'f'` for 10 to 15.
pub open spec fn hex_value(c: char) -> int {
    if '0' <= c <= '9' {
        c as int - '0' as int
    } else {
        c as int - 'a' as int + 10
    }
}

/// `bytes` in lower-case hex, two digits a byte, high digit first.
pub open spec fn hex(bytes: Seq<u8>) -> Seq<char>
    decreases bytes.len(),
{
    if bytes.len() == 0 {
        seq![]
    } else {
        hex(bytes.drop_last()).push(hex_char(bytes.last() as int / 16)).push(
            hex_char(bytes.last() as int % 16),
        )
    }
}

fn hex_digit(d: u8) -> (c: char)
    requires
        d < 16,
    ensures
        c == hex_char(d as int),
{
    if d < 10 {
        digit(d as u64)
    } else if d == 10 {
        'a'
    } else if d == 11 {
        'b'
    } else if d == 12 {
        'c'
    } else if d == 13 {
        'd'
    } else if d == 14 {
        'e'
    } else {
        'f'
    }
}

/// Appends `bytes[..count]` to `s` in lower-case hex.
pub fn push_hex(s: &mut String, bytes: &[u8], count: usize)
    requires
        count <= bytes@.len(),
    ensures
        final(s)@ == old(s)@ + hex(bytes@.subrange(0, count as int)),
{
    let mut i: usize = 0;
    while i < count
        invariant
            i <= count <= bytes@.len(),
            s@ == old(s)@ + hex(bytes@.subrange(0, i as int)),
        decreases count - i,
    {
        let b = bytes[i];
        assert(bytes@.subrange(0, i + 1).drop_last() =~= bytes@.subrange(0, i as int));
        push_char(s, hex_digit(b / 16));
        push_char(s, hex_digit(b % 16));
        i = i + 1;
    }
}

} // verus!
