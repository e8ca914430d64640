//! The decision behind the command-line front end: of the two options,
//! exactly one must be given, and it selects the direction of the
//! conversion. Reading arguments and standard input, and writing the
//! outcome, stay outside the library.

use vstd::prelude::*;

verus! {

/// Options of the command-line tool: a string to decode, or a tag under
/// which standard input is encoded.
pub struct MainOpt {
    /// Convert TaggedBase64 to raw data.
    pub tb64_str: Option<String>,
    /// Tag for raw data from stdin.
    pub tag: Option<String>,
}

/// The action the options call for.
#[derive(Debug, Clone, Copy, PartialEq, Eq, Structural)]
pub enum CliMode {
    /// Neither or both options were given: a usage error.
    Usage,
    /// Decode the given string and write the raw payload.
    Decode,
    /// Read standard input and encode it under the given tag.
    Encode,
}

impl MainOpt {
    /// Which action the options call for: decoding when only the string
    /// to decode is given, encoding when only the tag is given, and a
    /// usage error when neither or both are.
    pub fn mode(&self) -> (r: CliMode)
        ensures
            r is Decode <==> (self.tb64_str is Some && self.tag is None),
            r is Encode <==> (self.tb64_str is None && self.tag is Some),
            r is Usage <==> (self.tb64_str is Some <==> self.tag is Some),
    {
        match (&self.tb64_str, &self.tag) {
            (Some(_), None) => CliMode::Decode,
            (None, Some(_)) => CliMode::Encode,
            _ => CliMode::Usage,
        }
    }
}

} // verus!
