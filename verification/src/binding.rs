//! Binding a fixed tag to a data type: a type declares its tag and its
//! binary form, and generic adapters move it into and out of a
//! `TaggedBase64` blob, reporting a wrong tag as `InvalidTag` and bytes
//! that do not decode to the type as `InvalidData`.

use vstd::prelude::*;

use crate::codec::new_result;
use crate::codec::TaggedBase64;
use crate::codec::TaggedBase64View;
use crate::codec::Tb64Error;

verus! {

/// Trait for types whose serialization is not human-readable.
///
/// Such a type has a fixed human-readable tag which identifies tagged
/// base64 blobs representing one of its values.
pub trait Tagged {
    /// The characters of the tag bound to this type.
    spec fn spec_tag() -> Seq<char>;

    /// The fixed tag bound to this type.
    fn tag() -> (r: String)
        ensures
            r@ == Self::spec_tag(),
    ;
}

/// Trait for types that move to and from a fixed-format binary blob, the
/// payload of their tagged base64 form.
pub trait BinaryCodec: Sized {
    /// The bytes of this value's binary serialization.
    spec fn spec_binary(&self) -> Seq<u8>;

    /// Which value, if any, the given bytes deserialize to.
    spec fn spec_from_binary(bytes: Seq<u8>) -> Option<Self>;

    /// The binary serialization of this value.
    fn to_binary(&self) -> (r: Vec<u8>)
        ensures
            r@ == self.spec_binary(),
    ;

    /// Reads a value back from its binary serialization.
    fn from_binary(bytes: &[u8]) -> (r: Option<Self>)
        ensures
            r == Self::spec_from_binary(bytes@),
    ;
}

/// What `from_tagged_value` returns for a blob with content `v`: exactly
/// `InvalidTag` when the blob's tag is not the type's tag; otherwise the
/// value the type's decoder reads from the payload, or exactly
/// `InvalidData` when it reads none.
pub open spec fn from_tagged_result<T: Tagged + BinaryCodec>(
    v: TaggedBase64View,
    r: Result<T, Tb64Error>,
) -> bool {
    &&& ((r is Err && r->Err_0 is InvalidTag) <==> v.tag != T::spec_tag())
    &&& (v.tag == T::spec_tag() ==> ((r is Ok) <==> T::spec_from_binary(v.value) is Some))
    &&& (r is Ok ==> T::spec_from_binary(v.value) == Some(r->Ok_0))
    &&& (r is Err ==> (r->Err_0 is InvalidTag || r->Err_0 is InvalidData))
}

/// Wraps a typed value into a TaggedBase64 blob: under the type's tag, the
/// blob carries exactly the value's binary serialization with its
/// checksum; a tag outside the URL-safe alphabet is the one way this
/// fails.
pub fn to_tagged_value<T: Tagged + BinaryCodec>(x: &T) -> (r: Result<TaggedBase64, Tb64Error>)
    ensures
        new_result(T::spec_tag(), x.spec_binary(), r),
{
    let tag = T::tag();
    let bytes = x.to_binary();
    TaggedBase64::new(tag.as_str(), bytes.as_slice())
}

/// Reads a typed value back out of a TaggedBase64 blob. The blob's tag
/// must equal the type's tag (else exactly `InvalidTag`), and the payload
/// must decode to the type by its own `from_binary` (else exactly
/// `InvalidData`).
pub fn from_tagged_value<T: Tagged + BinaryCodec>(v: &TaggedBase64) -> (r: Result<T, Tb64Error>)
    ensures
        from_tagged_result::<T>(v@, r),
{
    let expected = T::tag();
    let actual = v.tag();
    if !(actual == expected) {
        return Err(Tb64Error::InvalidTag);
    }
    let bytes = v.value();
    match T::from_binary(bytes.as_slice()) {
        Some(x) => Ok(x),
        None => Err(Tb64Error::InvalidData),
    }
}

} // verus!
