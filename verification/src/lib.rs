//! Client-side helpers for token-metadata accounts: a text sanitizer and a
//! validator that inspects a raw master-edition account buffer.

pub mod errors;
pub mod types;
pub mod utils;

pub use errors::TokenMetadataError;
pub use types::Key;
pub use types::TokenStandard;
pub use utils::assert_edition_is_programmable;
pub use utils::clean;
