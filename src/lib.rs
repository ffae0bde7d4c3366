//! A registry of non-fungible tokens with delegated escrow access.
//!
//! The ownership registry maps each token to the identity that owns it; the
//! access registry maps the digest of a grantor identity to the digests of the
//! identities it has named as escrow. Every operation takes the identity of its
//! immediate caller as an explicit argument and reports failure as a value.
pub mod access;
pub mod digest;
pub mod error;
pub mod laws;
pub mod nft;

pub use access::AccessRegistry;
pub use error::NftError;
pub use nft::{AccountId, AccountIdHash, NonFungibleTokenBasic, TokenId, NEP4};
