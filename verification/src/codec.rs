//! The codec itself: the `TaggedBase64` value, its construction and
//! validation rules, the checksum computation, the canonical string
//! rendering, and the parser with its error classification.

use vstd::prelude::*;
use vstd::slice::slice_to_vec;
use vstd::string::StrSliceExecFns;
use vstd::string::StringExecFns;
use vstd::string::StringSliceAdditionalSpecFns;

use crate::model::b64_of;
use crate::model::b64_safe;
use crate::model::checksum_of;
use crate::model::crc8_of;
use crate::model::delim_pos;
use crate::model::encoded_len;
use crate::model::first_bad;
use crate::model::is_b64_char;
use crate::model::lemma_delim_pos;
use crate::model::lemma_delim_pos_at;
use crate::model::lemma_first_bad_at;
use crate::model::utf8_lead_byte;

verus! {

/// Separator between the tag and the base64 body. It lies outside the
/// URL-safe base64 alphabet and needs no percent-encoding in URLs.
pub const TB64_DELIM: char = '~';

/// The ways constructing or parsing a tagged base64 value can fail.
#[derive(Debug, Clone, Copy, PartialEq, Eq, Structural)]
pub enum Tb64Error {
    /// An invalid character was found in the tag.
    InvalidTag,
    /// Missing delimiter.
    MissingDelimiter,
    /// Missing checksum in value.
    MissingChecksum,
    /// An invalid byte was found while decoding the base64-encoded value.
    /// The offset and offending byte are provided.
    InvalidByte(usize, u8),
    /// The last non-padding input symbol's encoded 6 bits have nonzero bits
    /// that will be discarded. This is indicative of corrupted or truncated
    /// Base64. Unlike InvalidByte, which reports symbols that aren't in the
    /// alphabet, this error is for symbols that are in the alphabet but
    /// represent nonsensical encodings.
    InvalidLastSymbol(usize, u8),
    /// The length of the base64-encoded value is invalid.
    InvalidLength,
    /// The checksum was truncated or did not match.
    InvalidChecksum,
    /// The data did not encode the expected type.
    InvalidData,
}

/// The abstract content of a `TaggedBase64` value: its tag's characters,
/// its payload bytes, and its checksum byte.
#[verifier::ext_equal]
pub struct TaggedBase64View {
    pub tag: Seq<char>,
    pub value: Seq<u8>,
    pub checksum: u8,
}

impl TaggedBase64View {
    /// A well-formed value carries a tag drawn from the URL-safe alphabet
    /// and a checksum that matches its tag and payload.
    pub open spec fn wf(self) -> bool {
        &&& b64_safe(self.tag)
        &&& self.checksum == checksum_of(self.tag, self.value)
    }

    /// The canonical string form: the tag, the delimiter, and the base64
    /// encoding of the payload with the checksum byte appended.
    pub open spec fn canonical(self) -> Seq<char> {
        self.tag + seq!['~'] + b64_of(self.value.push(self.checksum))
    }
}

/// A structure holding a string tag, vector of bytes, and a checksum
/// covering the tag and the bytes.
#[derive(Debug, Clone)]
pub struct TaggedBase64 {
    tag: String,
    value: Vec<u8>,
    checksum: u8,
}

impl View for TaggedBase64 {
    type V = TaggedBase64View;

    closed spec fn view(&self) -> TaggedBase64View {
        TaggedBase64View { tag: self.tag@, value: self.value@, checksum: self.checksum }
    }
}

/// What `TaggedBase64::new` returns: a value carrying exactly the given tag
/// and payload together with their checksum when the tag is safe, and
/// `InvalidTag` otherwise.
pub open spec fn new_result(t: Seq<char>, v: Seq<u8>, r: Result<TaggedBase64, Tb64Error>) -> bool {
    if b64_safe(t) {
        &&& r is Ok
        &&& r->Ok_0@ == (TaggedBase64View { tag: t, value: v, checksum: checksum_of(t, v) })
    } else {
        r == Err::<TaggedBase64, Tb64Error>(Tb64Error::InvalidTag)
    }
}

/// What `to_string` returns: exactly the canonical string of the value,
/// whose part after the delimiter stays inside the URL-safe alphabet and
/// has the length the unpadded encoding of payload plus checksum demands.
pub open spec fn to_string_result(v: TaggedBase64View, s: Seq<char>) -> bool {
    &&& s == v.canonical()
    &&& b64_safe(s.skip(v.tag.len() + 1 as int))
    &&& s.len() == v.tag.len() + 1 + encoded_len(v.value.len() + 1 as int)
}

/// The outcome of checking a decoded body `x` against the tag `t`: the last
/// decoded byte must equal the checksum recomputed over the tag and the
/// bytes before it; then the parsed value carries exactly those parts.
pub open spec fn parsed_value(t: Seq<char>, x: Seq<u8>, r: Result<TaggedBase64, Tb64Error>) -> bool {
    if x.len() >= 1 && x.last() == checksum_of(t, x.drop_last()) {
        &&& r is Ok
        &&& r->Ok_0@ == (TaggedBase64View { tag: t, value: x.drop_last(), checksum: x.last() })
    } else {
        r == Err::<TaggedBase64, Tb64Error>(Tb64Error::InvalidChecksum)
    }
}

/// What `TaggedBase64::parse` returns, for every input string. The string
/// splits at its first `~`; a missing delimiter, a tag character outside
/// the URL-safe alphabet, and an empty body are each reported in that
/// order. The body is then classified as `decode_result` does, and a body
/// that decodes is accepted exactly when its last byte matches the checksum
/// recomputed over the tag and the bytes before it.
pub open spec fn parse_result(s: Seq<char>, r: Result<TaggedBase64, Tb64Error>) -> bool {
    let d = delim_pos(s);
    let t = s.take(d);
    let body = s.skip(d + 1);
    if d == s.len() {
        r == Err::<TaggedBase64, Tb64Error>(Tb64Error::MissingDelimiter)
    } else if !b64_safe(t) {
        r == Err::<TaggedBase64, Tb64Error>(Tb64Error::InvalidTag)
    } else if body.len() == 0 {
        r == Err::<TaggedBase64, Tb64Error>(Tb64Error::MissingChecksum)
    } else {
        &&& ((exists|j: int| 0 <= j < body.len() && !is_b64_char(body[j])) ==> (r matches Err(
            Tb64Error::InvalidByte(o, b),
        ) && o as int == first_bad(body) && b == utf8_lead_byte(body[first_bad(body)])))
        &&& (b64_safe(body) ==> {
            &&& ((r is Err && r->Err_0 is InvalidLength) <==> body.len() % 4 == 1)
            &&& (forall|x: Seq<u8>| body == b64_of(x) ==> parsed_value(t, x, r))
            &&& (body.len() % 4 != 1 && !(exists|x: Seq<u8>| body == b64_of(x)) ==> (r matches Err(
                Tb64Error::InvalidLastSymbol(o, b),
            ) && o as int == body.len() - 1 && b == body[body.len() - 1] as u8))
        })
        &&& (r is Ok ==> r->Ok_0@.wf() && r->Ok_0@.tag == t && body == b64_of(
            r->Ok_0@.value.push(r->Ok_0@.checksum),
        ))
        &&& (r is Err ==> (r->Err_0 is InvalidByte || r->Err_0 is InvalidLength
            || r->Err_0 is InvalidLastSymbol || r->Err_0 is InvalidChecksum))
    }
}

/// What `TaggedBase64::decode_raw` returns. The first character outside the
/// URL-safe alphabet is reported as `InvalidByte` with its position and the
/// first byte of its UTF-8 encoding. A body inside the alphabet decodes to
/// exactly the bytes it canonically encodes; it fails with `InvalidLength`
/// exactly when its length leaves a lone trailing symbol, and with
/// `InvalidLastSymbol` when its final symbol carries nonzero bits that no
/// byte sequence's encoding would.
pub open spec fn decode_result(s: Seq<char>, r: Result<Vec<u8>, Tb64Error>) -> bool {
    &&& ((exists|j: int| 0 <= j < s.len() && !is_b64_char(s[j])) ==> (r matches Err(
        Tb64Error::InvalidByte(o, b),
    ) && o as int == first_bad(s) && b == utf8_lead_byte(s[first_bad(s)])))
    &&& (b64_safe(s) ==> {
        &&& ((r is Err && r->Err_0 is InvalidLength) <==> s.len() % 4 == 1)
        &&& (forall|x: Seq<u8>| s == b64_of(x) ==> r is Ok && r->Ok_0@ == x)
        &&& (r is Ok ==> s == b64_of(r->Ok_0@) && s.len() == encoded_len(r->Ok_0@.len() as int))
        &&& (r matches Err(Tb64Error::InvalidLastSymbol(o, b)) ==> s.len() % 4 != 1 && o as int
            == s.len() - 1 && b == s[s.len() - 1] as u8)
        &&& (s.len() % 4 != 1 && !(exists|x: Seq<u8>| s == b64_of(x)) ==> r is Err
            && r->Err_0 is InvalidLastSymbol)
    })
    &&& (r is Err ==> (r->Err_0 is InvalidByte || r->Err_0 is InvalidLength
        || r->Err_0 is InvalidLastSymbol))
}

/// Relies on `base64::decode_config` with `base64::URL_SAFE_NO_PAD`, on
/// input drawn entirely from the URL-safe alphabet (so no byte is invalid
/// and no `=` padding is present). Under that precondition its source
/// rejects a length leaving a lone trailing symbol as `InvalidLength`,
/// rejects a final symbol whose unused low bits are nonzero as
/// `InvalidLastSymbol` of the last position, and otherwise returns exactly
/// the bytes whose canonical unpadded encoding is the input. The documented
/// `isize::MAX` size bound on slices keeps its length computations from
/// overflowing.
#[verifier::external_body]
fn decode_b64_checked(value: &str) -> (r: Result<Vec<u8>, Tb64Error>)
    requires
        b64_safe(value@),
    ensures
        (forall|x: Seq<u8>| value@ == b64_of(x) ==> r is Ok && r->Ok_0@ == x),
        r is Ok ==> value@ == b64_of(r->Ok_0@) && value@.len() == encoded_len(
            r->Ok_0@.len() as int,
        ),
        ((r is Err && r->Err_0 is InvalidLength) <==> value@.len() % 4 == 1),
        (r matches Err(Tb64Error::InvalidLastSymbol(o, b)) ==> o as int == value@.len() - 1 && b
            == value@[value@.len() - 1] as u8),
        r is Err ==> (r->Err_0 is InvalidLength || r->Err_0 is InvalidLastSymbol),
{
    base64::decode_config(value, base64::URL_SAFE_NO_PAD).map_err(|err| match err {
        base64::DecodeError::InvalidByte(offset, byte) => Tb64Error::InvalidByte(offset, byte),
        base64::DecodeError::InvalidLength => Tb64Error::InvalidLength,
        base64::DecodeError::InvalidLastSymbol(offset, byte) => {
            Tb64Error::InvalidLastSymbol(offset, byte)
        },
    })
}

/// The first byte of the UTF-8 encoding of a character.
fn utf8_lead_byte_of(c: char) -> (r: u8)
    ensures
        r == utf8_lead_byte(c),
{
    let u = c as u32;
    if u < 0x80 {
        u as u8
    } else if u < 0x800 {
        (0xC0 + u / 0x40) as u8
    } else if u < 0x10000 {
        (0xE0 + u / 0x1000) as u8
    } else {
        (0xF0 + u / 0x40000) as u8
    }
}

/// The position of the first `~` in the string, when there is one.
fn find_delim(s: &str) -> (r: Option<usize>)
    ensures
        r matches Some(d) ==> d as int == delim_pos(s@) && (d as int) < s@.len(),
        r is None ==> delim_pos(s@) == s@.len(),
{
    let n = s.unicode_len();
    let mut d: usize = 0;
    while d < n
        invariant
            d <= n,
            n == s@.len(),
            forall|j: int| 0 <= j < d ==> s@[j] != '~',
        decreases n - d,
    {
        if s.get_char(d) == '~' {
            proof {
                lemma_delim_pos_at(s@, d as int);
            }
            return Some(d);
        }
        d += 1;
    }
    proof {
        lemma_delim_pos(s@);
    }
    None
}

/// Converts a TaggedBase64 value to a String: the tag, the delimiter, and
/// the base64 encoding of the value and checksum.
pub fn to_string(tb64: &TaggedBase64) -> (r: String)
    ensures
        to_string_result(tb64@, r@),
{
    let mut data = slice_to_vec(tb64.value.as_slice());
    data.push(tb64.checksum);
    let encoded = TaggedBase64::encode_raw(data.as_slice());
    let mut s = tb64.tag.clone();
    s.append("~");
    s.append(encoded.as_str());
    proof {
        reveal_strlit("~");
        assert("~"@ =~= seq!['~']);
        assert(s@ =~= tb64@.canonical());
        assert(s@.skip(tb64@.tag.len() + 1 as int) =~= encoded@);
    }
    s
}

/// Two byte slices hold the same bytes.
fn bytes_eq(a: &[u8], b: &[u8]) -> (r: bool)
    ensures
        r == (a@ == b@),
{
    if a.len() != b.len() {
        return false;
    }
    let n = a.len();
    let mut i: usize = 0;
    while i < n
        invariant
            i <= n,
            n == a@.len(),
            a@.len() == b@.len(),
            forall|j: int| 0 <= j < i ==> a@[j] == b@[j],
        decreases n - i,
    {
        if a[i] != b[i] {
            return false;
        }
        i += 1;
    }
    proof {
        assert(a@ =~= b@);
    }
    true
}

impl core::str::FromStr for TaggedBase64 {
    type Err = Tb64Error;

    fn from_str(s: &str) -> Result<TaggedBase64, Tb64Error> {
        TaggedBase64::parse(s)
    }
}

impl PartialEq for TaggedBase64 {
    /// Two values are equal when their tags, payloads and checksums are.
    fn eq(&self, other: &Self) -> (r: bool) {
        let r = self.tag == other.tag && bytes_eq(
            self.value.as_slice(),
            other.value.as_slice(),
        ) && self.checksum == other.checksum;
        proof {
            if r {
                assert(self@ =~= other@);
            }
        }
        r
    }
}

impl vstd::std_specs::cmp::PartialEqSpecImpl for TaggedBase64 {
    open spec fn obeys_eq_spec() -> bool {
        true
    }

    open spec fn eq_spec(&self, other: &Self) -> bool {
        self@ == other@
    }
}

/// Relies on `crc_any::CRC::crc8`, the CRC-8 digest (polynomial 0x07, zero
/// initial value, no reflection, zero final XOR): feeding the tag's UTF-8
/// bytes and then the payload bytes digests their concatenation, and the
/// result is a function of those bytes alone.
#[verifier::external_body]
fn crc8_over(tag: &str, value: &[u8]) -> (r: u8)
    ensures
        r == crc8_of(tag.spec_bytes() + value@),
{
    let mut crc8 = crc_any::CRC::crc8();
    crc8.digest(&tag);
    crc8.digest(&value);
    crc8.get_crc() as u8
}

/// The checksum byte over a tag and a payload: the CRC-8 digest of both,
/// XORed with the low byte of the payload length.
fn calc_checksum(tag: &str, value: &[u8]) -> (r: u8)
    ensures
        r == checksum_of(tag@, value@),
{
    let crc = crc8_over(tag, value);
    let len_byte: u8 = (value.len() % 256) as u8;
    crc ^ len_byte
}

impl TaggedBase64 {
    /// Constructs a TaggedBase64 from a tag and array of bytes. The tag
    /// must be URL-safe (alphanumeric with hyphen and underscore). The
    /// byte values are unconstrained.
    pub fn new(tag: &str, value: &[u8]) -> (r: Result<TaggedBase64, Tb64Error>)
        ensures
            new_result(tag@, value@, r),
    {
        if TaggedBase64::is_safe_base64_tag(tag) {
            let cs = calc_checksum(tag, value);
            Ok(TaggedBase64 { tag: tag.to_owned(), value: slice_to_vec(value), checksum: cs })
        } else {
            Err(Tb64Error::InvalidTag)
        }
    }

    /// Returns true for characters permitted in URL-safe base64 encoding,
    /// and false otherwise.
    pub fn is_safe_base64_ascii(c: char) -> (r: bool)
        ensures
            r == is_b64_char(c),
    {
        ('A' <= c && c <= 'Z') || ('a' <= c && c <= 'z') || ('0' <= c && c <= '9') || (c == '-')
            || (c == '_')
    }

    /// Checks that a tag consists only of characters safe for use in the
    /// tag of a TaggedBase64. Because the tags are merely intended to be
    /// mnemonic, there's no need to support a large and visually ambiguous
    /// character set.
    pub fn is_safe_base64_tag(tag: &str) -> (r: bool)
        ensures
            r == b64_safe(tag@),
    {
        let n = tag.unicode_len();
        let mut i: usize = 0;
        while i < n
            invariant
                i <= n,
                n == tag@.len(),
                forall|j: int| 0 <= j < i ==> is_b64_char(#[trigger] tag@[j]),
            decreases n - i,
        {
            if !TaggedBase64::is_safe_base64_ascii(tag.get_char(i)) {
                return false;
            }
            i += 1;
        }
        true
    }

    /// Gets the tag of a TaggedBase64 instance.
    pub fn tag(&self) -> (r: String)
        ensures
            r@ == self@.tag,
    {
        self.tag.clone()
    }

    /// Sets the tag of a TaggedBase64 instance and recomputes the checksum.
    /// The new tag must be URL-safe.
    pub fn set_tag(&mut self, tag: &str)
        requires
            b64_safe(tag@),
        ensures
            final(self)@.tag == tag@,
            final(self)@.value == old(self)@.value,
            final(self)@.checksum == checksum_of(tag@, old(self)@.value),
    {
        self.tag = tag.to_owned();
        self.checksum = calc_checksum(self.tag.as_str(), self.value.as_slice());
    }

    /// Gets the value of a TaggedBase64 instance.
    pub fn value(&self) -> (r: Vec<u8>)
        ensures
            r@ == self@.value,
    {
        slice_to_vec(self.value.as_slice())
    }

    /// Sets the value of a TaggedBase64 instance and recomputes the
    /// checksum.
    pub fn set_value(&mut self, value: &[u8])
        ensures
            final(self)@.tag == old(self)@.tag,
            final(self)@.value == value@,
            final(self)@.checksum == checksum_of(old(self)@.tag, value@),
    {
        self.value = slice_to_vec(value);
        self.checksum = calc_checksum(self.tag.as_str(), self.value.as_slice());
    }

    /// Formats the value as its canonical URL-safe string.
    pub fn to_string(&self) -> (r: String)
        ensures
            to_string_result(self@, r@),
    {
        to_string(self)
    }

    /// Parses a string of the form tag~value into a TaggedBase64 value.
    ///
    /// The tag is restricted to URL-safe base64 ASCII characters. The tag
    /// may be empty. The delimiter is required.
    ///
    /// The value is a base64-encoded string, using the URL-safe character
    /// set, and no padding is used.
    pub fn parse(tb64: &str) -> (r: Result<TaggedBase64, Tb64Error>)
        ensures
            parse_result(tb64@, r),
    {
        let delim = match find_delim(tb64) {
            Some(d) => d,
            None => {
                return Err(Tb64Error::MissingDelimiter);
            },
        };
        let n = tb64.unicode_len();
        let tag = tb64.substring_char(0, delim);
        let body = tb64.substring_char(delim + 1, n);
        proof {
            assert(tag@ =~= tb64@.take(delim as int));
            assert(body@ =~= tb64@.skip(delim as int + 1));
        }
        if !TaggedBase64::is_safe_base64_tag(tag) {
            return Err(Tb64Error::InvalidTag);
        }
        if body.is_empty() {
            return Err(Tb64Error::MissingChecksum);
        }
        let mut bytes = match TaggedBase64::decode_raw(body) {
            Ok(b) => b,
            Err(e) => {
                return Err(e);
            },
        };
        let ghost decoded = bytes@;
        let cs = match bytes.pop() {
            Some(c) => c,
            None => {
                return Err(Tb64Error::InvalidChecksum);
            },
        };
        let computed = calc_checksum(tag, bytes.as_slice());
        proof {
            assert(decoded.drop_last() =~= bytes@);
            assert(decoded.last() == cs);
        }
        if cs == computed {
            let parsed = TaggedBase64 { tag: tag.to_owned(), value: bytes, checksum: cs };
            proof {
                assert(parsed@.value.push(parsed@.checksum) =~= decoded);
                assert(parsed@ =~= (TaggedBase64View {
                    tag: tag@,
                    value: decoded.drop_last(),
                    checksum: decoded.last(),
                }));
            }
            Ok(parsed)
        } else {
            Err(Tb64Error::InvalidChecksum)
        }
    }

    /// Wraps the underlying base64 decoder. The first character outside
    /// the URL-safe alphabet is rejected as `InvalidByte`; a body inside
    /// the alphabet is decoded, and yields exactly the bytes whose
    /// canonical unpadded encoding it is.
    pub fn decode_raw(value: &str) -> (r: Result<Vec<u8>, Tb64Error>)
        ensures
            decode_result(value@, r),
    {
        let n = value.unicode_len();
        let mut i: usize = 0;
        while i < n
            invariant
                i <= n,
                n == value@.len(),
                forall|j: int| 0 <= j < i ==> is_b64_char(#[trigger] value@[j]),
            decreases n - i,
        {
            let c = value.get_char(i);
            if !TaggedBase64::is_safe_base64_ascii(c) {
                proof {
                    lemma_first_bad_at(value@, i as int);
                }
                return Err(Tb64Error::InvalidByte(i, utf8_lead_byte_of(c)));
            }
            i += 1;
        }
        decode_b64_checked(value)
    }

    /// Wraps the underlying base64 encoder.
    ///
    /// Relies on `base64::encode_config` with `base64::URL_SAFE_NO_PAD`: the
    /// result is a function of the input bytes alone, every 3 input bytes
    /// yield 4 characters of the URL-safe alphabet (1 or 2 leftover bytes
    /// yield 2 or 3) with no padding, and the documented `isize::MAX` size
    /// bound on slices keeps the output length computation from
    /// overflowing.
    #[verifier::external_body]
    pub fn encode_raw(input: &[u8]) -> (r: String)
        ensures
            r@ == b64_of(input@),
            r@.len() == encoded_len(input@.len() as int),
            b64_safe(r@),
    {
        base64::encode_config(input, base64::URL_SAFE_NO_PAD)
    }
}

} // verus!
