//! The mathematical model of the format: the URL-safe alphabet, the names of
//! the two outside computations (the base64 encoding and the CRC-8 digest),
//! the checksum that binds a tag to a payload, and the shape of the canonical
//! string.

use vstd::prelude::*;
use vstd::utf8::encode_utf8;

verus! {

/// A character of the URL-safe base64 alphabet: `A`-`Z`, `a`-`z`, `0`-`9`,
/// `-` and `_`. Tags are restricted to this alphabet, and the base64 body of
/// a canonical string consists of it.
pub open spec fn is_b64_char(c: char) -> bool {
    ||| 'A' <= c && c <= 'Z'
    ||| 'a' <= c && c <= 'z'
    ||| '0' <= c && c <= '9'
    ||| c == '-'
    ||| c == '_'
}

/// Every character of the sequence is drawn from the URL-safe base64
/// alphabet; holds for the empty sequence.
pub open spec fn b64_safe(s: Seq<char>) -> bool {
    forall|i: int| 0 <= i < s.len() ==> is_b64_char(#[trigger] s[i])
}

/// The URL-safe, unpadded base64 encoding of a byte sequence, as
/// `base64::encode_config` with `base64::URL_SAFE_NO_PAD` computes it.
pub uninterp spec fn b64_of(bytes: Seq<u8>) -> Seq<char>;

/// The CRC-8 digest of a byte sequence, as `crc_any::CRC::crc8` computes it.
pub uninterp spec fn crc8_of(bytes: Seq<u8>) -> u8;

/// The length of the unpadded base64 encoding of `n` bytes: every 3 bytes
/// yield 4 characters, and 1 or 2 leftover bytes yield 2 or 3 characters.
pub open spec fn encoded_len(n: int) -> int {
    (4 * n + 2) / 3
}

/// The checksum byte of a tag and a payload: the CRC-8 digest of the tag's
/// UTF-8 bytes followed by the payload bytes, XORed with the low byte of the
/// payload length.
pub open spec fn checksum_of(tag: Seq<char>, payload: Seq<u8>) -> u8 {
    crc8_of(encode_utf8(tag) + payload) ^ ((payload.len() % 256) as u8)
}

/// The first byte of the UTF-8 encoding of a character.
pub open spec fn utf8_lead_byte(c: char) -> u8 {
    let u = c as u32;
    if u < 0x80 {
        u as u8
    } else if u < 0x800 {
        (0xC0 + u / 0x40) as u8
    } else if u < 0x10000 {
        (0xE0 + u / 0x1000) as u8
    } else {
        (0xF0 + u / 0x40000) as u8
    }
}

/// The index of the first `~` in the sequence, or its length when there is
/// none.
pub open spec fn delim_pos(s: Seq<char>) -> int
    decreases s.len(),
{
    if s.len() == 0 {
        0
    } else if s[0] == '~' {
        0
    } else {
        1 + delim_pos(s.drop_first())
    }
}

/// The index of the first character outside the URL-safe base64 alphabet,
/// or the sequence's length when every character is inside it.
pub open spec fn first_bad(s: Seq<char>) -> int
    decreases s.len(),
{
    if s.len() == 0 {
        0
    } else if !is_b64_char(s[0]) {
        0
    } else {
        1 + first_bad(s.drop_first())
    }
}

/// `delim_pos` points at the first `~`: it stays within the sequence, the
/// character there (if any) is `~`, and no earlier character is.
pub proof fn lemma_delim_pos(s: Seq<char>)
    ensures
        0 <= delim_pos(s) <= s.len(),
        delim_pos(s) < s.len() ==> s[delim_pos(s)] == '~',
        forall|j: int| 0 <= j < delim_pos(s) ==> s[j] != '~',
    decreases s.len(),
{
    if s.len() == 0 {
    } else if s[0] == '~' {
    } else {
        lemma_delim_pos(s.drop_first());
        assert forall|j: int| 0 <= j < delim_pos(s) implies s[j] != '~' by {
            if j > 0 {
                assert(s[j] == s.drop_first()[j - 1]);
            }
        }
    }
}

/// A position holding `~` with no earlier `~` is exactly `delim_pos`.
pub proof fn lemma_delim_pos_at(s: Seq<char>, d: int)
    requires
        0 <= d < s.len(),
        s[d] == '~',
        forall|j: int| 0 <= j < d ==> s[j] != '~',
    ensures
        delim_pos(s) == d,
{
    lemma_delim_pos(s);
}

/// `first_bad` points at the first character outside the alphabet: it stays
/// within the sequence, the character there (if any) is outside, and every
/// earlier character is inside.
pub proof fn lemma_first_bad(s: Seq<char>)
    ensures
        0 <= first_bad(s) <= s.len(),
        first_bad(s) < s.len() ==> !is_b64_char(s[first_bad(s)]),
        forall|j: int| 0 <= j < first_bad(s) ==> is_b64_char(#[trigger] s[j]),
    decreases s.len(),
{
    if s.len() == 0 {
    } else if !is_b64_char(s[0]) {
    } else {
        lemma_first_bad(s.drop_first());
        assert forall|j: int| 0 <= j < first_bad(s) implies is_b64_char(s[j]) by {
            if j > 0 {
                assert(s[j] == s.drop_first()[j - 1]);
            }
        }
    }
}

/// A position holding a character outside the alphabet, with everything
/// before it inside, is exactly `first_bad`.
pub proof fn lemma_first_bad_at(s: Seq<char>, d: int)
    requires
        0 <= d < s.len(),
        !is_b64_char(s[d]),
        forall|j: int| 0 <= j < d ==> is_b64_char(#[trigger] s[j]),
    ensures
        first_bad(s) == d,
{
    lemma_first_bad(s);
}

} // verus!
