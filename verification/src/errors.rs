use vstd::prelude::*;

verus! {

/// Error taxonomy of the whole tool. Every failure propagates immediately to
/// the top-level caller; there is no local recovery or retry.
#[derive(Clone, Debug, PartialEq, Eq)]
pub enum Error {
    /// The operator declined to overwrite an existing key file.
    Aborted,
    /// A file could not be read or written; carries the offending label and a
    /// detail message. Only the unverified shell that performs the actual
    /// file I/O constructs this variant.
    IO(String, String),
    /// Malformed Hex or Base64 input, or input of the wrong key length, on
    /// load; carries a context label and a detail message.
    Parse(String, String),
    /// Malformed BCS input on load; carries the key's logical name and a
    /// detail message.
    Serialization(String, String),
    /// A cryptographic conversion failure or other unclassified fault.
    Unexpected(String),
}

} // verus!
