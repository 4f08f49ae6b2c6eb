//! Error kinds reported by the account validator.

use vstd::prelude::*;

verus! {

/// Failure kinds of the master-edition validator. Each validation failure is
/// returned synchronously as one of these; nothing is retried or logged.
#[derive(Clone, Copy, Debug, PartialEq, Eq, Structural)]
pub enum TokenMetadataError {
    /// The buffer is too short to hold both the leading account-key byte and
    /// the trailing token-standard byte.
    InvalidMasterEditionAccountLength,
    /// The leading byte does not decode to an account key, or decodes to a key
    /// other than the two master-edition variants.
    InvalidEditionKey,
    /// The trailing byte does not decode to a token standard, or decodes to a
    /// standard other than the two programmable non-fungible variants.
    InvalidTokenStandard,
}

} // verus!
