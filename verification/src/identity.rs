//! Account identifiers: the opaque byte strings that name callers, owners and
//! canisters.

use vstd::prelude::*;
use crate::bytes::same_bytes;
use crate::error::Error;

verus! {

/// The largest number of bytes in an identifier.
pub const MAX_IDENTIFIER_BYTES: usize = 29;

/// Why `candid` could not read a text as a principal. Carried, never looked
/// into.
#[verifier::external_type_specification]
#[verifier::external_body]
pub struct ExPrincipalError(candid::types::principal::PrincipalError);

/// The bytes of the principal that a text denotes, where it denotes one.
pub uninterp spec fn principal_of_text(text: Seq<char>) -> Option<Seq<u8>>;

/// Decodes a principal's textual form with `candid::Principal::from_text` and
/// hands out the principal's bytes.
///
/// Trusted: the outcome depends on the text alone, so it is named by
/// `principal_of_text`; a principal never holds more than
/// `MAX_IDENTIFIER_BYTES` bytes.
#[verifier::external_body]
fn decode_principal_text(text: &str) -> (decoded: Result<
    Vec<u8>,
    candid::types::principal::PrincipalError,
>)
    ensures
        match decoded {
            Ok(bytes) => principal_of_text(text@) == Some(bytes@)
                && bytes@.len() <= MAX_IDENTIFIER_BYTES,
            Err(_) => principal_of_text(text@) is None,
        },
{
    match candid::Principal::from_text(text) {
        Ok(principal) => Ok(principal.as_slice().to_vec()),
        Err(error) => Err(error),
    }
}

/// An opaque identity, at most `MAX_IDENTIFIER_BYTES` bytes long. Identities
/// are ordered as their bytes are.
#[derive(Debug, PartialEq, Eq, PartialOrd, Ord, Hash)]
pub struct AccountIdentifier {
    bytes: Vec<u8>,
}

impl View for AccountIdentifier {
    type V = Seq<u8>;

    closed spec fn view(&self) -> Seq<u8> {
        self.bytes@
    }
}

impl Clone for AccountIdentifier {
    fn clone(&self) -> (copy: Self)
        ensures
            copy@ == self@,
    {
        proof {
            use_type_invariant(self);
        }
        let bytes = self.bytes.clone();
        assert(bytes@ =~= self.bytes@);
        AccountIdentifier { bytes }
    }
}

impl AccountIdentifier {
    #[verifier::type_invariant]
    spec fn within_max_length(&self) -> bool {
        self.bytes@.len() <= MAX_IDENTIFIER_BYTES
    }

    /// Takes `bytes` as an identifier, unless there are too many of them.
    pub fn from_bytes(bytes: Vec<u8>) -> (made: Result<AccountIdentifier, Error>)
        ensures
            match made {
                Ok(id) => id@ == bytes@ && bytes@.len() <= MAX_IDENTIFIER_BYTES,
                Err(error) => error == Error::InvalidIdentifier
                    && bytes@.len() > MAX_IDENTIFIER_BYTES,
            },
    {
        if bytes.len() <= MAX_IDENTIFIER_BYTES {
            Ok(AccountIdentifier { bytes })
        } else {
            Err(Error::InvalidIdentifier)
        }
    }

    /// Reads an identifier from its textual form.
    pub fn from_text(text: &str) -> (parsed: Result<AccountIdentifier, Error>)
        ensures
            match parsed {
                Ok(id) => principal_of_text(text@) == Some(id@),
                Err(error) => error == Error::InvalidIdentifier
                    && principal_of_text(text@) is None,
            },
    {
        match decode_principal_text(text) {
            Ok(bytes) => AccountIdentifier::from_bytes(bytes),
            Err(_) => Err(Error::InvalidIdentifier),
        }
    }

    /// The identifier's bytes.
    pub fn as_bytes(&self) -> (bytes: &Vec<u8>)
        ensures
            bytes@ == self@,
            bytes@.len() <= MAX_IDENTIFIER_BYTES,
    {
        proof {
            use_type_invariant(self);
        }
        &self.bytes
    }

    /// Whether two identifiers name the same identity.
    pub fn same_as(&self, other: &AccountIdentifier) -> (same: bool)
        ensures
            same == (self@ == other@),
    {
        same_bytes(&self.bytes, &other.bytes)
    }
}

} // verus!
