//! Discriminant-tagged account types.
//!
//! On-chain account data begins with a single discriminant byte that selects
//! the account kind, and master-edition accounts carry a token-standard
//! discriminant as their last byte. Both tags form closed variant sets, and a
//! byte decodes to a variant exactly when it equals the variant's position in
//! declaration order; every other byte value is rejected.

use vstd::prelude::*;

verus! {

/// The account kind stored as the first byte of an account's data.
#[derive(Clone, Copy, Debug, PartialEq, Eq, Structural)]
pub enum Key {
    Uninitialized,
    EditionV1,
    MasterEditionV1,
    MetadataV1,
    MasterEditionV2,
    EditionMarker,
}

/// The behavioral class of an asset, stored for master-edition accounts as
/// the last byte of the account's data.
#[derive(Clone, Copy, Debug, PartialEq, Eq, Structural)]
pub enum TokenStandard {
    NonFungible,
    FungibleAsset,
    Fungible,
    NonFungibleEdition,
    ProgrammableNonFungible,
    ProgrammableNonFungibleEdition,
}

/// The account key encoded by a discriminant byte, if the byte maps to one.
pub open spec fn spec_key_from_byte(b: u8) -> Option<Key> {
    if b == 0 {
        Some(Key::Uninitialized)
    } else if b == 1 {
        Some(Key::EditionV1)
    } else if b == 2 {
        Some(Key::MasterEditionV1)
    } else if b == 3 {
        Some(Key::MetadataV1)
    } else if b == 4 {
        Some(Key::MasterEditionV2)
    } else if b == 5 {
        Some(Key::EditionMarker)
    } else {
        None
    }
}

/// Decodes a discriminant byte to an account key; `None` for a byte outside
/// the closed variant set.
pub fn key_from_byte(b: u8) -> (r: Option<Key>)
    ensures
        r == spec_key_from_byte(b),
{
    match b {
        0 => Some(Key::Uninitialized),
        1 => Some(Key::EditionV1),
        2 => Some(Key::MasterEditionV1),
        3 => Some(Key::MetadataV1),
        4 => Some(Key::MasterEditionV2),
        5 => Some(Key::EditionMarker),
        _ => None,
    }
}

/// The token standard encoded by a discriminant byte, if the byte maps to one.
pub open spec fn spec_token_standard_from_byte(b: u8) -> Option<TokenStandard> {
    if b == 0 {
        Some(TokenStandard::NonFungible)
    } else if b == 1 {
        Some(TokenStandard::FungibleAsset)
    } else if b == 2 {
        Some(TokenStandard::Fungible)
    } else if b == 3 {
        Some(TokenStandard::NonFungibleEdition)
    } else if b == 4 {
        Some(TokenStandard::ProgrammableNonFungible)
    } else if b == 5 {
        Some(TokenStandard::ProgrammableNonFungibleEdition)
    } else {
        None
    }
}

/// Decodes a discriminant byte to a token standard; `None` for a byte outside
/// the closed variant set.
pub fn token_standard_from_byte(b: u8) -> (r: Option<TokenStandard>)
    ensures
        r == spec_token_standard_from_byte(b),
{
    match b {
        0 => Some(TokenStandard::NonFungible),
        1 => Some(TokenStandard::FungibleAsset),
        2 => Some(TokenStandard::Fungible),
        3 => Some(TokenStandard::NonFungibleEdition),
        4 => Some(TokenStandard::ProgrammableNonFungible),
        5 => Some(TokenStandard::ProgrammableNonFungibleEdition),
        _ => None,
    }
}

/// Whether an account key names a master edition, in either version.
pub open spec fn is_master_edition_key(k: Key) -> bool {
    k == Key::MasterEditionV1 || k == Key::MasterEditionV2
}

/// Whether a token standard is a programmable non-fungible one, either the
/// base standard or its edition variant.
pub open spec fn is_programmable_standard(t: TokenStandard) -> bool {
    t == TokenStandard::ProgrammableNonFungible
        || t == TokenStandard::ProgrammableNonFungibleEdition
}

/// Whether a discriminant byte decodes to a master-edition account key.
pub open spec fn is_master_edition_byte(b: u8) -> bool {
    spec_key_from_byte(b) matches Some(k) && is_master_edition_key(k)
}

/// Whether a discriminant byte decodes to a programmable non-fungible token
/// standard.
pub open spec fn is_programmable_byte(b: u8) -> bool {
    spec_token_standard_from_byte(b) matches Some(t) && is_programmable_standard(t)
}

} // verus!
