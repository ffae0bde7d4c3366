//! Properties that relate several operations of the contract.
use vstd::prelude::*;

use crate::digest::sha256_of;
use crate::error::NftError;
use crate::nft::{grant_spec, may_act_for, mint_spec, revoke_spec, transfer_spec, TokenId};

verus! {

/// Minting the same token twice fails the second time with `DuplicateToken`
/// and changes nothing; when the first mint succeeded, its owner stays.
pub proof fn mint_twice_keeps_first(owners: Map<TokenId, Seq<char>>, token_id: TokenId, first: Seq<char>, second: Seq<char>)
    ensures
        ({
            let (r1, after1) = mint_spec(owners, token_id, first);
            let (r2, after2) = mint_spec(after1, token_id, second);
            &&& r2 == Err::<(), NftError>(NftError::DuplicateToken)
            &&& after2 == after1
            &&& r1 is Ok ==> after2[token_id] == first
        }),
{
}

/// An identity may always act on its own behalf, whatever the access registry holds.
pub proof fn self_access(access: Map<Seq<u8>, Set<Seq<u8>>>, account: Seq<char>)
    ensures
        may_act_for(access, account, account),
{
}

/// Once `grantor` names `grantee` as escrow, the grantee may act for the
/// grantor; once the grantor revokes it, which succeeds, a grantee other than
/// the grantor may no longer.
pub proof fn grant_then_revoke(access: Map<Seq<u8>, Set<Seq<u8>>>, grantor: Seq<char>, grantee: Seq<char>)
    ensures
        ({
            let granted = grant_spec(access, grantor, grantee);
            let (r, revoked) = revoke_spec(granted, grantor, grantee);
            &&& may_act_for(granted, grantee, grantor)
            &&& r == Ok::<(), NftError>(())
            &&& grantee != grantor ==> !may_act_for(revoked, grantee, grantor)
        }),
{
}

/// A grantor without a record cannot revoke anyone: `NoAccessRecord`, and
/// nothing changes.
pub proof fn revoke_without_record(access: Map<Seq<u8>, Set<Seq<u8>>>, grantor: Seq<char>, grantee: Seq<char>)
    requires
        !access.contains_key(sha256_of(grantor)),
    ensures
        revoke_spec(access, grantor, grantee) == (Err::<(), NftError>(NftError::NoAccessRecord), access),
{
}

/// A grantor whose only grant went to `granted` fails to revoke another
/// identity `other` with `GranteeNotFound`, and `granted` keeps its access.
pub proof fn revoke_other_keeps_grant(
    access: Map<Seq<u8>, Set<Seq<u8>>>,
    grantor: Seq<char>,
    granted: Seq<char>,
    other: Seq<char>,
)
    requires
        !access.contains_key(sha256_of(grantor)),
        sha256_of(granted) != sha256_of(other),
    ensures
        ({
            let after_grant = grant_spec(access, grantor, granted);
            let (r, after_revoke) = revoke_spec(after_grant, grantor, other);
            &&& r == Err::<(), NftError>(NftError::GranteeNotFound)
            &&& after_revoke == after_grant
            &&& may_act_for(after_revoke, granted, grantor)
        }),
{
}

/// A `transfer` of an owned token by anyone but its owner fails with `NotOwner`
/// and leaves the owner; by the owner it succeeds and hands the token over.
pub proof fn transfer_needs_owner(
    owners: Map<TokenId, Seq<char>>,
    caller: Seq<char>,
    new_owner: Seq<char>,
    token_id: TokenId,
)
    requires
        owners.contains_key(token_id),
    ensures
        ({
            let (r, after) = transfer_spec(owners, caller, new_owner, token_id);
            &&& caller != owners[token_id] ==> r == Err::<(), NftError>(NftError::NotOwner) && after[token_id]
                == owners[token_id]
            &&& caller == owners[token_id] ==> r == Ok::<(), NftError>(()) && after[token_id] == new_owner
        }),
{
}

/// A `transfer` of a token that was never minted fails with `UnknownToken`.
pub proof fn transfer_unknown_token(
    owners: Map<TokenId, Seq<char>>,
    caller: Seq<char>,
    new_owner: Seq<char>,
    token_id: TokenId,
)
    requires
        !owners.contains_key(token_id),
    ensures
        transfer_spec(owners, caller, new_owner, token_id) == (Err::<(), NftError>(NftError::UnknownToken), owners),
{
}

/// Granting the same escrow twice leaves the registry as one grant does, and
/// the escrow may act for the grantor.
pub proof fn grant_is_idempotent(access: Map<Seq<u8>, Set<Seq<u8>>>, grantor: Seq<char>, grantee: Seq<char>)
    ensures
        grant_spec(grant_spec(access, grantor, grantee), grantor, grantee) == grant_spec(access, grantor, grantee),
        may_act_for(grant_spec(grant_spec(access, grantor, grantee), grantor, grantee), grantee, grantor),
{
    let once = grant_spec(access, grantor, grantee);
    let g = sha256_of(grantor);
    assert(once[g].insert(sha256_of(grantee)) =~= once[g]);
    assert(grant_spec(once, grantor, grantee) =~= once);
}

} // verus!
