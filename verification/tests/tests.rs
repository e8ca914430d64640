use base64::{decode_config, encode_config, URL_SAFE_NO_PAD};
use std::str;
use tagged_base64::{to_string, TaggedBase64, Tb64Error};

/// Performs a brief sanity check on the base64 crate.
///
/// Checks the following
/// - Round trip correctness for a simple string
/// - The base64 encoding of the empty string is the empty string.
fn base64_sanity() {
    let hello = b"hello rustaceans";
    let encoded = encode_config(hello, URL_SAFE_NO_PAD);
    let decoded = decode_config(&encoded, URL_SAFE_NO_PAD).unwrap();
    assert_eq!(&hello.to_vec(), &decoded);
    assert_eq!(
        str::from_utf8(hello).unwrap(),
        str::from_utf8(&decoded).unwrap()
    );

    assert_eq!(decode_config("", URL_SAFE_NO_PAD).unwrap().len(), 0);
}

#[test]
fn test_base64_sanity() {
    base64_sanity();
}

fn base64_wrappers() {
    let x = b"abc123XYZ456";
    let e = TaggedBase64::encode_raw(x);
    assert_eq!(
        TaggedBase64::decode_raw(&e).expect("base64 decode failed"),
        x
    );
}

#[test]
fn test_base64_wrappers() {
    base64_wrappers();
}

fn is_safe_base64_tag() {
    assert!(TaggedBase64::is_safe_base64_tag(""));
    assert!(!TaggedBase64::is_safe_base64_tag("~"));
    assert!(!TaggedBase64::is_safe_base64_tag("T~"));
    assert!(!TaggedBase64::is_safe_base64_tag("T~a"));
}

#[test]
fn test_is_safe_base64_tag() {
    is_safe_base64_tag();
}

/// Compares to vectors of u8 for equality.
fn is_equal(va: &[u8], vb: &[u8]) -> bool {
    va.len() == vb.len() && va.iter().zip(vb).all(|(a, b)| *a == *b)
}

/// Does the vector equality predicate work?
fn is_equal_tester() {
    assert!(is_equal(&[], &[]));
    assert!(!is_equal(&[1], &[2]));
    assert!(is_equal(&[1, 2, 4], &[1, 2, 4]));
    assert!(!is_equal(&[1, 2, 4], &[1, 2, 4, 42]));
}

#[test]
fn test_is_equal() {
    is_equal_tester();
}

fn display() {
    let tb64 = TaggedBase64::new("T", b"123").unwrap();
    let str: String = tb64.to_string();
    let parsed: TaggedBase64 = TaggedBase64::parse(&str).unwrap();
    assert_eq!(tb64, parsed);
    let from_tb64 = to_string(&tb64);
    assert_eq!(str, from_tb64)
}

#[test]
fn test_display() {
    display();
}

/// Checks basic construction, printing, and parsing:
/// - Can construct from a tag string and a binary value
/// - Tag and value match the supplied values
/// - String representation can be generated
/// - Generated string can be parsed
/// - Accessors and parsed string match the supplied values
fn check_tb64(tag: &str, value: &[u8]) {
    let mut tb64 = TaggedBase64::new(tag, value).unwrap();
    let str = tb64.to_string();

    let parsed = TaggedBase64::parse(&str).unwrap();

    assert_eq!(&tb64, &parsed);

    // Do we get back the tag we supplied?
    assert_eq!(parsed.tag(), tag);

    // Do we get back the binary value we supplied?
    assert!(is_equal(&parsed.value(), value));

    // If we change the tag, do we get back the new tag?
    tb64.set_tag("foo");
    assert_eq!(tb64.tag(), "foo");

    // If we change the value, do we get back the new value?
    tb64.set_value(b"bar");
    assert_eq!(tb64.value(), b"bar");
}

fn tagged_base64_parse() {
    // The empty string is not a valid TaggedBase64.
    assert!(TaggedBase64::parse("").is_err());

    // The tag is alphanumeric with hyphen and underscore.
    // The value here is the base64 encoding of foobar, but
    // the encoding doesn't include the required checksum.
    assert!(TaggedBase64::parse("-_~Zm9vYmFy").is_err());

    // An invalid tag should err.
    assert!(TaggedBase64::parse("&_~wA").is_err());

    // A null value is not allowed.
    let b64_null = encode_config("", URL_SAFE_NO_PAD);
    let tagged = format!("a~{}", &b64_null);
    assert!(TaggedBase64::parse(&tagged).is_err());

    // The tag can be empty, but the value cannot because the value
    // includes the checksum.
    assert!(TaggedBase64::parse("~").is_err());

    check_tb64("mytag", b"mytag");

    // Only base64 characters are allowed in the tag. No restrictions on
    // the value because it will get base64 encoded.
    check_tb64(
        "abcdefghijklmnopqrstuvwxyz-ABCDEFGHIJKLMNOPQRSTUVWXYZ_0123456789",
        "~Yeah, we can have spaces and odd stuff—😀 here. ¯⧵_(ツ)_/¯".as_bytes(),
    );
    check_tb64(
        "",
        b"abcdefghijklmnopqrstuvwxyz-ABCDEFGHIJKLMNOPQRSTUVWXYZ_0123456789~",
    );

    // All the following have invalid characters in the tag.
    assert!(TaggedBase64::new("~", b"").is_err());
    assert!(TaggedBase64::new("a~", b"").is_err());
    assert!(TaggedBase64::new("~b", b"").is_err());
    assert!(TaggedBase64::new("c~d", b"").is_err());
    assert!(TaggedBase64::new("e~f~", b"").is_err());
    assert!(TaggedBase64::new("g~h~i", b"").is_err());
    assert!(TaggedBase64::new("Oh, no!", b"").is_err());
    assert!(TaggedBase64::new("Σ", b"").is_err());

    // Note, u128::MAX is 340282366920938463463374607431768211455
    check_tb64("PK", u128::MAX.to_string().as_bytes());

    // Is ten copies of u128::MAX a big enough test?
    let z = u128::MAX;
    check_tb64(
        "many-bits",
        format!("{}{}{}{}{}{}{}{}{}{}", z, z, z, z, z, z, z, z, z, z).as_bytes(),
    );

    check_tb64("TX", b"transaction identifier goes here");
    check_tb64("KEY", b"public key bits");

    // From https://tools.ietf.org/html/rfc4648
    check_tb64("Zg", b"f");
    check_tb64("Zm8", b"fo");
    check_tb64("Zm9v", b"foo");
    check_tb64("Zm9vYg", b"foob");
    check_tb64("Zm9vYmE", b"fooba");
    check_tb64("Zm9vYmFy", b"foobar");
}

#[test]
fn test_tagged_base64_parse() {
    tagged_base64_parse();
}

fn tagged_base64_new_tester() {
    let bv = u128::MAX.to_ne_bytes().to_vec();
    let tb = TaggedBase64::new("BIG", &bv);
    assert!(is_equal(&tb.unwrap().value(), &bv));
}

#[test]
fn test_tagged_base64_new() {
    tagged_base64_new_tester();
}

fn tag_accessor() {
    let tag = "Tag47";
    let bits = b"Just some bits";
    let tb64 = TaggedBase64::new(tag, bits).unwrap();
    assert_eq!(tb64.tag(), tag);
    assert_eq!(tb64.value(), bits);
}

#[test]
fn test_tag_accessor() {
    tag_accessor();
}

fn tag_setter() {
    let tag = "Godzilla";
    let bits = b"forest";
    let mut tb64 = TaggedBase64::new("Bambi", bits).unwrap();
    tb64.set_tag(tag);
    assert_eq!(tb64.tag(), tag);
    assert_eq!(tb64.value(), bits);
}

#[test]
fn test_tag_setter() {
    tag_setter();
}

fn value_setter() {
    let tag = "Godzilla";
    let bits = b"forest";
    let new_bits = b"trees";
    let mut tb64 = TaggedBase64::new(tag, bits).unwrap();
    tb64.set_value(new_bits);
    assert_eq!(tb64.tag(), tag);
    assert_eq!(tb64.value(), new_bits);
}

#[test]
fn test_value_setter() {
    value_setter();
}

fn empty_value() {
    let t = TaggedBase64::new("TAG", b"").unwrap();
    assert_eq!(t.tag(), "TAG");
    assert_eq!(t.value(), b"");
    assert_eq!(TaggedBase64::parse("TAG~Ew").unwrap(), t);
    assert_eq!(
        TaggedBase64::parse("A~wA").unwrap(),
        TaggedBase64::new("A", b"").unwrap()
    );
}

#[test]
fn test_empty_value() {
    empty_value();
}

#[test]
fn basic_errors() {
    let e = TaggedBase64::new("A/A", &[0]).unwrap_err();
    println!("{:?}", e);
    assert!(matches!(e, Tb64Error::InvalidTag));

    let e = TaggedBase64::parse("AA").unwrap_err();
    println!("{:?}", e);
    assert!(matches!(e, Tb64Error::MissingDelimiter));

    let e = TaggedBase64::parse("AAA~AAA").unwrap_err();
    println!("{:?}", e);
    assert!(matches!(e, Tb64Error::InvalidChecksum));

    let e = TaggedBase64::parse("AAA~").unwrap_err();
    println!("{:?}", e);
    assert!(matches!(e, Tb64Error::MissingChecksum));

    let e = TaggedBase64::parse("AAA~AAAAA").unwrap_err();
    println!("{:?}", e);
    assert!(matches!(e, Tb64Error::InvalidLength));

    let e = TaggedBase64::parse("AAA~AAF").unwrap_err();
    println!("{:?}", e);
    assert!(matches!(e, Tb64Error::InvalidLastSymbol(_, _)));
}
