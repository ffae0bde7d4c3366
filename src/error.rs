//! Why an operation of the registry fails.
use vstd::prelude::*;

verus! {

/// The ways an operation can fail. A failed operation changes nothing.
#[derive(Debug, Clone, Copy, PartialEq, Eq, Structural)]
pub enum NftError {
    /// A token with this identifier was minted before.
    DuplicateToken,
    /// No token with this identifier was ever minted.
    UnknownToken,
    /// The grantor has never granted access to anyone.
    NoAccessRecord,
    /// The grantor's record does not hold the grantee.
    GranteeNotFound,
    /// The caller does not own the token.
    NotOwner,
    /// The caller holds no access on behalf of the claimed owner.
    AccessDenied,
    /// No blockchain host is installed, so identities cannot be hashed.
    HostUnavailable,
}

impl NftError {
    /// The message carried by an abort of this kind.
    pub fn message(&self) -> (r: &'static str)
        ensures
            r@ == match self {
                NftError::DuplicateToken => "Token ID already exists."@,
                NftError::UnknownToken => "No owner of the token ID specified"@,
                NftError::NoAccessRecord => "Access does not exist."@,
                NftError::GranteeNotFound => "Did not find access for escrow ID."@,
                NftError::NotOwner => "Attempt to call transfer on tokens belonging to another account."@,
                NftError::AccessDenied => "Caller has no access on behalf of the owner."@,
                NftError::HostUnavailable => "Blockchain interface not set."@,
            },
    {
        match self {
            NftError::DuplicateToken => "Token ID already exists.",
            NftError::UnknownToken => "No owner of the token ID specified",
            NftError::NoAccessRecord => "Access does not exist.",
            NftError::GranteeNotFound => "Did not find access for escrow ID.",
            NftError::NotOwner => "Attempt to call transfer on tokens belonging to another account.",
            NftError::AccessDenied => "Caller has no access on behalf of the owner.",
            NftError::HostUnavailable => "Blockchain interface not set.",
        }
    }
}

} // verus!
