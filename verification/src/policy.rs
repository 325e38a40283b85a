//! Conversion and authorization policy.

use vstd::prelude::*;
use crate::error::Error;
use crate::identity::AccountIdentifier;

verus! {

/// Tokens minted for one paid unit, both in the same minor-unit scale.
pub const TOKENS_PER_PAID_UNIT: u64 = 4;

/// The token amount that a payment converts to, where it fits in 64 bits.
pub open spec fn token_amount(paid_amount: u64) -> Option<u64> {
    if paid_amount * TOKENS_PER_PAID_UNIT <= u64::MAX {
        Some((paid_amount * TOKENS_PER_PAID_UNIT) as u64)
    } else {
        None
    }
}

/// A larger payment converts to a strictly larger token amount, and a payment
/// converts whenever a larger one does.
pub proof fn lemma_token_amount_monotonic(paid1: u64, paid2: u64)
    requires
        paid1 < paid2,
        token_amount(paid2) is Some,
    ensures
        token_amount(paid1) is Some,
        token_amount(paid1)->Some_0 < token_amount(paid2)->Some_0,
{
}

/// Converts a paid amount into the token amount to mint, at the fixed rate.
/// An amount whose tokens do not fit in 64 bits is rejected.
pub fn compute_token_amount(paid_amount: u64) -> (minted: Result<u64, Error>)
    ensures
        match minted {
            Ok(amount) => token_amount(paid_amount) == Some(amount),
            Err(error) => error == Error::InvalidAmount && token_amount(paid_amount) is None,
        },
{
    match paid_amount.checked_mul(TOKENS_PER_PAID_UNIT) {
        Some(amount) => Ok(amount),
        None => Err(Error::InvalidAmount),
    }
}

/// Whether `caller` may ask for a mint that no payment stands behind: only
/// the service itself may.
pub open spec fn authorized(caller: Seq<u8>, service: Seq<u8>) -> bool {
    caller == service
}

/// Decides whether `caller` may invoke a privileged mint.
pub fn authorize_privileged_mint(
    caller: &AccountIdentifier,
    service: &AccountIdentifier,
) -> (allowed: bool)
    ensures
        allowed == authorized(caller@, service@),
{
    caller.same_as(service)
}

} // verus!
