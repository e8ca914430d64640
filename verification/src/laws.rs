//! The laws the codec obeys, stated over the same spec predicates that the
//! executable functions' contracts use.

use vstd::prelude::*;

use crate::binding::from_tagged_result;
use crate::binding::BinaryCodec;
use crate::binding::Tagged;
use crate::codec::new_result;
use crate::codec::parse_result;
use crate::codec::parsed_value;
use crate::codec::to_string_result;
use crate::codec::TaggedBase64;
use crate::codec::TaggedBase64View;
use crate::codec::Tb64Error;
use crate::model::b64_safe;
use crate::model::delim_pos;
use crate::model::encoded_len;
use crate::model::is_b64_char;
use crate::model::lemma_delim_pos;
use crate::model::lemma_delim_pos_at;

verus! {

/// Law: the canonical string of any well-formed value parses back to that
/// value. `v` ranges over every well-formed value, `s` over everything
/// `to_string` may return for it, and `r` over everything `parse` may
/// return for `s`.
pub proof fn lemma_canonical_round_trip(
    v: TaggedBase64View,
    s: Seq<char>,
    r: Result<TaggedBase64, Tb64Error>,
)
    requires
        v.wf(),
        to_string_result(v, s),
        parse_result(s, r),
    ensures
        r is Ok,
        r->Ok_0@ == v,
{
    let tl = v.tag.len() as int;
    let e = s.skip(tl + 1);
    assert(s.len() == tl + 1 + encoded_len(v.value.len() + 1 as int));
    assert(encoded_len(v.value.len() + 1 as int) >= 2);
    assert(s[tl] == '~');
    assert forall|j: int| 0 <= j < tl implies s[j] != '~' by {
        assert(s[j] == v.tag[j]);
        assert(is_b64_char(v.tag[j]));
    }
    lemma_delim_pos_at(s, tl);
    assert(s.take(tl) =~= v.tag);
    assert(e =~= v.canonical().skip(tl + 1));
    let x = v.value.push(v.checksum);
    assert(e =~= crate::model::b64_of(x));
    assert(parsed_value(v.tag, x, r));
    assert(x.len() >= 1);
    assert(x.last() == v.checksum);
    assert(x.drop_last() =~= v.value);
    assert(r->Ok_0@ =~= v);
}

/// Law: for every tag that passes the safety predicate and every payload,
/// constructing a value, rendering its canonical string, and parsing that
/// string back yields the constructed value. `c` ranges over everything
/// `TaggedBase64::new` may return, `s` over everything `to_string` may
/// return for the constructed value, and `r` over everything `parse` may
/// return for `s`.
pub proof fn lemma_construct_round_trip(
    tag: Seq<char>,
    payload: Seq<u8>,
    c: Result<TaggedBase64, Tb64Error>,
    s: Seq<char>,
    r: Result<TaggedBase64, Tb64Error>,
)
    requires
        b64_safe(tag),
        new_result(tag, payload, c),
        to_string_result(c->Ok_0@, s),
        parse_result(s, r),
    ensures
        c is Ok,
        r is Ok,
        r->Ok_0@ == c->Ok_0@,
{
    lemma_canonical_round_trip(c->Ok_0@, s, r);
}

/// Law: for a type whose binary codec reads its own serialization of `x`
/// back as `x`, and whose tag passes the safety predicate, wrapping `x`
/// into a blob and unwrapping it again yields `x`. `c` ranges over
/// everything `to_tagged_value` may return for `x`, and `r` over
/// everything `from_tagged_value` may return for the blob.
pub proof fn lemma_binding_round_trip<T: Tagged + BinaryCodec>(
    x: T,
    c: Result<TaggedBase64, Tb64Error>,
    r: Result<T, Tb64Error>,
)
    requires
        b64_safe(T::spec_tag()),
        T::spec_from_binary(x.spec_binary()) == Some(x),
        new_result(T::spec_tag(), x.spec_binary(), c),
        from_tagged_result::<T>(c->Ok_0@, r),
    ensures
        c is Ok,
        r == Ok::<T, Tb64Error>(x),
{
}

/// Law: under the same losslessness hypothesis, the round trip also holds
/// through the canonical string: wrapping `x`, rendering the blob,
/// parsing the string back and unwrapping yields `x`. `s` ranges over
/// everything `to_string` may return for the blob, `p` over everything
/// `parse` may return for `s`, and `r` over everything
/// `from_tagged_value` may return for the re-parsed blob.
pub proof fn lemma_binding_string_round_trip<T: Tagged + BinaryCodec>(
    x: T,
    c: Result<TaggedBase64, Tb64Error>,
    s: Seq<char>,
    p: Result<TaggedBase64, Tb64Error>,
    r: Result<T, Tb64Error>,
)
    requires
        b64_safe(T::spec_tag()),
        T::spec_from_binary(x.spec_binary()) == Some(x),
        new_result(T::spec_tag(), x.spec_binary(), c),
        to_string_result(c->Ok_0@, s),
        parse_result(s, p),
        from_tagged_result::<T>(p->Ok_0@, r),
    ensures
        c is Ok,
        p is Ok,
        r == Ok::<T, Tb64Error>(x),
{
    lemma_canonical_round_trip(c->Ok_0@, s, p);
}

/// Law: a string that parses successfully is itself the canonical string
/// of the well-formed value it parses to. So every accepted string binds
/// its tag and payload to a matching checksum, and two different accepted
/// strings never parse to the same value.
pub proof fn lemma_accepted_strings_are_canonical(s: Seq<char>, r: Result<TaggedBase64, Tb64Error>)
    requires
        parse_result(s, r),
        r is Ok,
    ensures
        r->Ok_0@.wf(),
        s == r->Ok_0@.canonical(),
{
    lemma_delim_pos(s);
    let d = delim_pos(s);
    assert(d < s.len());
    assert(s =~= s.take(d) + seq![s[d]] + s.skip(d + 1));
    assert(s =~= r->Ok_0@.canonical());
}

} // verus!
