//! User-oriented format for binary data. A value is rendered as a short
//! mnemonic tag, the delimiter `~`, and the URL-safe base64 encoding of the
//! payload bytes followed by a one-byte checksum. The checksum binds the tag
//! and the payload together so that accidental corruption of the text form is
//! detected when it is parsed back.

mod binding;
mod cli;
mod codec;
mod laws;
mod model;

pub use binding::from_tagged_result;
pub use binding::from_tagged_value;
pub use binding::to_tagged_value;
pub use binding::BinaryCodec;
pub use binding::Tagged;
pub use cli::CliMode;
pub use cli::MainOpt;
pub use codec::decode_result;
pub use codec::new_result;
pub use codec::parse_result;
pub use codec::parsed_value;
pub use codec::to_string;
pub use codec::to_string_result;
pub use codec::TaggedBase64;
pub use codec::TaggedBase64View;
pub use codec::Tb64Error;
pub use codec::TB64_DELIM;
pub use laws::lemma_accepted_strings_are_canonical;
pub use laws::lemma_binding_round_trip;
pub use laws::lemma_binding_string_round_trip;
pub use laws::lemma_canonical_round_trip;
pub use laws::lemma_construct_round_trip;
pub use model::b64_of;
pub use model::b64_safe;
pub use model::checksum_of;
pub use model::crc8_of;
pub use model::delim_pos;
pub use model::encoded_len;
pub use model::first_bad;
pub use model::is_b64_char;
pub use model::utf8_lead_byte;
