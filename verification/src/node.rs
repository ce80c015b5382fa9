//! Node records and the limit on their URI.

use vstd::prelude::*;
use crate::error::AethernetError;
use crate::identity::Identity;

verus! {

/// The longest URI a record may carry, in bytes of UTF-8.
pub const MAX_URI_LENGTH: usize = 256;

/// The length of a URI in bytes of UTF-8.
pub open spec fn uri_len(uri: Seq<char>) -> nat {
    vstd::utf8::encode_utf8(uri).len()
}

/// Whether a URI is short enough for a record.
pub open spec fn uri_fits(uri: Seq<char>) -> bool {
    uri_len(uri) <= MAX_URI_LENGTH
}

/// Accepts a URI of at most 256 bytes and refuses a longer one.
pub fn check_uri(uri: &str) -> (outcome: Result<(), AethernetError>)
    ensures
        outcome is Ok <==> uri_fits(uri@),
        outcome is Err ==> outcome == Err::<(), AethernetError>(AethernetError::UriTooLong),
{
    let bytes = uri.as_bytes();
    if bytes.len() <= MAX_URI_LENGTH {
        Ok(())
    } else {
        Err(AethernetError::UriTooLong)
    }
}

/// One registered node: the authority that owns it and its metadata URI.
#[derive(Clone, Debug, PartialEq, Eq)]
pub struct NodeDevice {
    pub authority: Identity,
    pub uri: String,
}

impl NodeDevice {
    /// The URI is within the limit.
    pub open spec fn wf(&self) -> bool {
        uri_fits(self.uri@)
    }

    /// A record for `authority`, unless the URI is too long.
    pub fn new(authority: Identity, uri: String) -> (outcome: Result<NodeDevice, AethernetError>)
        ensures
            outcome is Ok <==> uri_fits(uri@),
            outcome matches Ok(node) ==> node.authority == authority && node.uri == uri
                && node.wf(),
            outcome matches Err(e) ==> e == AethernetError::UriTooLong,
    {
        match check_uri(uri.as_str()) {
            Ok(()) => Ok(NodeDevice { authority, uri }),
            Err(e) => Err(e),
        }
    }

    /// Whether `who` is the authority that owns this record.
    pub fn owned_by(&self, who: &Identity) -> (owned: bool)
        ensures
            owned == (self.authority@ == who@),
    {
        self.authority.same_as(who)
    }

    /// Replaces the URI, unless the new one is too long; the authority stays.
    pub fn set_uri(&mut self, new_uri: String) -> (outcome: Result<(), AethernetError>)
        ensures
            final(self).authority == old(self).authority,
            outcome is Ok <==> uri_fits(new_uri@),
            outcome is Ok ==> final(self).uri == new_uri,
            outcome matches Err(e) ==> e == AethernetError::UriTooLong && *final(self) == *old(
                self,
            ),
    {
        match check_uri(new_uri.as_str()) {
            Ok(()) => {
                self.uri = new_uri;
                Ok(())
            },
            Err(e) => Err(e),
        }
    }
}

} // verus!
