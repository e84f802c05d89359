//! Errors reported while loading a Photon file from a byte source.

use vstd::prelude::*;

verus! {

/// Why a load failed.  Every stage aborts on the first error; no partial
/// result is ever returned.
#[derive(Clone, Copy, Debug, PartialEq, Eq, Structural)]
pub enum PhotonError {
    /// Fewer bytes were available than a fixed-layout read required.
    Truncated,
    /// A computed absolute offset lies outside the byte source's extent.
    SeekOutOfRange,
    /// A decoded layer's pixel count differs from `screen_width * screen_height`.
    MalformedLayer,
}

impl PhotonError {
    /// A short human-readable description of the error.
    pub fn message(&self) -> (r: &'static str)
        ensures
            r@ == self.message_spec(),
    {
        match self {
            PhotonError::Truncated => "byte source ended before a fixed-layout read completed",
            PhotonError::SeekOutOfRange => "offset lies outside the byte source",
            PhotonError::MalformedLayer => "decoded layer size differs from the declared geometry",
        }
    }

    /// What `message` returns, as a sequence of characters.
    pub open spec fn message_spec(self) -> Seq<char> {
        match self {
            PhotonError::Truncated => "byte source ended before a fixed-layout read completed"@,
            PhotonError::SeekOutOfRange => "offset lies outside the byte source"@,
            PhotonError::MalformedLayer => "decoded layer size differs from the declared geometry"@,
        }
    }
}

} // verus!
