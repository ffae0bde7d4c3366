//! The token contract: the ownership registry, the access registry, and the
//! authorization rules that guard them.
use std::collections::HashMap;
use vstd::prelude::*;

use crate::access::AccessRegistry;
use crate::digest::{account_digest, sha256_of};
use crate::error::NftError;

verus! {

broadcast use vstd::std_specs::hash::group_hash_axioms;

/// A token identifier, chosen by whoever mints the token.
pub type TokenId = u64;

/// An account identity; two identities are equal when their text is.
pub type AccountId = String;

/// The digest of an account identity, as the access registry stores it.
pub type AccountIdHash = Vec<u8>;

/// Whether `caller` may act on behalf of `subject`: it is `subject` itself, or
/// `subject` has named it as escrow in `access`.
pub open spec fn may_act_for(access: Map<Seq<u8>, Set<Seq<u8>>>, caller: Seq<char>, subject: Seq<char>) -> bool {
    caller == subject || (access.contains_key(sha256_of(subject)) && access[sha256_of(subject)].contains(
        sha256_of(caller),
    ))
}

/// The outcome of minting `token_id` for `owner`: the result, and the owners after.
pub open spec fn mint_spec(owners: Map<TokenId, Seq<char>>, token_id: TokenId, owner: Seq<char>) -> (
    Result<(), NftError>,
    Map<TokenId, Seq<char>>,
) {
    if owners.contains_key(token_id) {
        (Err(NftError::DuplicateToken), owners)
    } else {
        (Ok(()), owners.insert(token_id, owner))
    }
}

/// The outcome of a `transfer` of `token_id` to `new_owner` called by `caller`.
pub open spec fn transfer_spec(
    owners: Map<TokenId, Seq<char>>,
    caller: Seq<char>,
    new_owner: Seq<char>,
    token_id: TokenId,
) -> (Result<(), NftError>, Map<TokenId, Seq<char>>) {
    if !owners.contains_key(token_id) {
        (Err(NftError::UnknownToken), owners)
    } else if owners[token_id] != caller {
        (Err(NftError::NotOwner), owners)
    } else {
        (Ok(()), owners.insert(token_id, new_owner))
    }
}

/// The outcome of a `transfer_from` of `token_id` from `owner` to `new_owner`
/// called by `caller`.
pub open spec fn transfer_from_spec(
    owners: Map<TokenId, Seq<char>>,
    access: Map<Seq<u8>, Set<Seq<u8>>>,
    caller: Seq<char>,
    owner: Seq<char>,
    new_owner: Seq<char>,
    token_id: TokenId,
) -> (Result<(), NftError>, Map<TokenId, Seq<char>>) {
    if !owners.contains_key(token_id) {
        (Err(NftError::UnknownToken), owners)
    } else if owners[token_id] != owner {
        (Err(NftError::NotOwner), owners)
    } else if !may_act_for(access, caller, owner) {
        (Err(NftError::AccessDenied), owners)
    } else {
        (Ok(()), owners.insert(token_id, new_owner))
    }
}

/// The access registry after `grantor` names `grantee` as escrow.
pub open spec fn grant_spec(access: Map<Seq<u8>, Set<Seq<u8>>>, grantor: Seq<char>, grantee: Seq<char>) -> Map<
    Seq<u8>,
    Set<Seq<u8>>,
> {
    let g = sha256_of(grantor);
    let e = sha256_of(grantee);
    access.insert(g, if access.contains_key(g) { access[g].insert(e) } else { set![e] })
}

/// The outcome of `grantor` withdrawing `grantee` as escrow.
pub open spec fn revoke_spec(access: Map<Seq<u8>, Set<Seq<u8>>>, grantor: Seq<char>, grantee: Seq<char>) -> (
    Result<(), NftError>,
    Map<Seq<u8>, Set<Seq<u8>>>,
) {
    let g = sha256_of(grantor);
    let e = sha256_of(grantee);
    if !access.contains_key(g) {
        (Err(NftError::NoAccessRecord), access)
    } else if !access[g].contains(e) {
        (Err(NftError::GranteeNotFound), access)
    } else {
        (Ok(()), access.insert(g, access[g].remove(e)))
    }
}

/// The operations of a token contract with delegated access. Each takes the
/// identity of its immediate caller, `predecessor`.
pub trait NEP4: Sized {
    /// The state is well formed.
    spec fn well_formed(&self) -> bool;

    /// Names `escrow_account_id` as escrow of the caller.
    fn grant_access(&mut self, predecessor: &AccountId, escrow_account_id: AccountId) -> (r: Result<(), NftError>)
        requires
            old(self).well_formed(),
        ensures
            final(self).well_formed(),
    ;

    /// Withdraws `escrow_account_id` from the caller's escrows.
    fn revoke_access(&mut self, predecessor: &AccountId, escrow_account_id: AccountId) -> (r: Result<(), NftError>)
        requires
            old(self).well_formed(),
        ensures
            final(self).well_formed(),
    ;

    /// Moves `token_id` from `owner_id` to `new_owner_id`, for a caller that may
    /// act on behalf of `owner_id`.
    fn transfer_from(
        &mut self,
        predecessor: &AccountId,
        owner_id: AccountId,
        new_owner_id: AccountId,
        token_id: TokenId,
    ) -> (r: Result<(), NftError>)
        requires
            old(self).well_formed(),
        ensures
            final(self).well_formed(),
    ;

    /// Moves `token_id` to `new_owner_id`, for a caller that owns it.
    fn transfer(&mut self, predecessor: &AccountId, new_owner_id: AccountId, token_id: TokenId) -> (r: Result<(), NftError>)
        requires
            old(self).well_formed(),
        ensures
            final(self).well_formed(),
    ;

    /// Whether the caller may act on behalf of `account_id`.
    fn check_access(&self, predecessor: &AccountId, account_id: AccountId) -> (r: Result<bool, NftError>);

    /// The owner of `token_id`.
    fn get_token_owner(&self, token_id: TokenId) -> (r: Result<String, NftError>);
}

/// The state of the contract: who owns each token, and who may act for whom.
pub struct NonFungibleTokenBasic {
    pub token_to_account: HashMap<TokenId, AccountId>,
    pub account_gives_access: AccessRegistry,
}

impl NonFungibleTokenBasic {
    /// The owner of each minted token.
    pub open spec fn owners(&self) -> Map<TokenId, Seq<char>> {
        self.token_to_account@.map_values(|s: String| s@)
    }

    /// For each grantor digest, the digests of its escrows.
    pub open spec fn access(&self) -> Map<Seq<u8>, Set<Seq<u8>>> {
        self.account_gives_access@
    }

    /// The access registry keeps its own invariant.
    pub open spec fn wf(&self) -> bool {
        self.account_gives_access.wf()
    }

    /// Records `owner_id` as the owner of a new token `token_id`. Fails with
    /// `DuplicateToken`, changing nothing, when `token_id` was minted before.
    pub fn mint_token(&mut self, owner_id: String, token_id: TokenId) -> (r: Result<(), NftError>)
        ensures
            (r, final(self).owners()) == mint_spec(old(self).owners(), token_id, owner_id@),
            final(self).account_gives_access == old(self).account_gives_access,
    {
        if self.token_to_account.contains_key(&token_id) {
            return Err(NftError::DuplicateToken);
        }
        let ghost s = owner_id@;
        self.token_to_account.insert(token_id, owner_id);
        assert(self.owners() =~= old(self).owners().insert(token_id, s));
        Ok(())
    }

    /// Makes `new_owner_id` the owner of `token_id`, whoever owned it before.
    /// Authorization is the caller's concern.
    fn set_owner(&mut self, token_id: TokenId, new_owner_id: AccountId)
        ensures
            final(self).owners() == old(self).owners().insert(token_id, new_owner_id@),
            final(self).account_gives_access == old(self).account_gives_access,
    {
        let ghost s = new_owner_id@;
        self.token_to_account.insert(token_id, new_owner_id);
        assert(self.owners() =~= old(self).owners().insert(token_id, s));
    }
}

impl Default for NonFungibleTokenBasic {
    /// A contract in which no token was minted and nobody granted access.
    fn default() -> (r: Self)
        ensures
            r.wf(),
            r.owners() == Map::<TokenId, Seq<char>>::empty(),
            r.access() == Map::<Seq<u8>, Set<Seq<u8>>>::empty(),
    {
        let r = NonFungibleTokenBasic { token_to_account: HashMap::new(), account_gives_access: AccessRegistry::new() };
        assert(r.owners() =~= Map::<TokenId, Seq<char>>::empty());
        r
    }
}

impl NEP4 for NonFungibleTokenBasic {
    open spec fn well_formed(&self) -> bool {
        self.wf()
    }

    /// The caller's record gains the escrow's digest; it is created when the
    /// caller had none. Fails only with `HostUnavailable`, changing nothing,
    /// when the identities cannot be hashed.
    fn grant_access(&mut self, predecessor: &AccountId, escrow_account_id: AccountId) -> (r: Result<(), NftError>)
        ensures
            final(self).token_to_account == old(self).token_to_account,
            r is Ok ==> final(self).access() == grant_spec(old(self).access(), predecessor@, escrow_account_id@),
            r is Err ==> r == Err::<(), NftError>(NftError::HostUnavailable) && final(self).access() == old(
                self,
            ).access(),
    {
        let escrow_hash = match account_digest(&escrow_account_id) {
            Some(d) => d,
            None => return Err(NftError::HostUnavailable),
        };
        let predecessor_hash = match account_digest(predecessor) {
            Some(d) => d,
            None => return Err(NftError::HostUnavailable),
        };
        self.account_gives_access.grant(predecessor_hash, escrow_hash);
        Ok(())
    }

    /// Fails with `NoAccessRecord` when the caller never granted access, and
    /// with `GranteeNotFound` when its record lacks the escrow; nothing changes
    /// then. Otherwise the escrow's digest leaves the caller's record. Fails
    /// with `HostUnavailable`, changing nothing, when the identities cannot be
    /// hashed.
    fn revoke_access(&mut self, predecessor: &AccountId, escrow_account_id: AccountId) -> (r: Result<(), NftError>)
        ensures
            final(self).token_to_account == old(self).token_to_account,
            r != Err::<(), NftError>(NftError::HostUnavailable) ==> (r, final(self).access()) == revoke_spec(
                old(self).access(),
                predecessor@,
                escrow_account_id@,
            ),
            r == Err::<(), NftError>(NftError::HostUnavailable) ==> final(self).access() == old(self).access(),
    {
        let predecessor_hash = match account_digest(predecessor) {
            Some(d) => d,
            None => return Err(NftError::HostUnavailable),
        };
        let escrow_hash = match account_digest(&escrow_account_id) {
            Some(d) => d,
            None => return Err(NftError::HostUnavailable),
        };
        self.account_gives_access.revoke(&predecessor_hash, &escrow_hash)
    }

    /// Fails with `UnknownToken` when the token was never minted, with
    /// `NotOwner` when `owner_id` does not own it, and with `AccessDenied` when
    /// the caller may not act on behalf of `owner_id`; nothing changes then.
    /// Otherwise `new_owner_id` owns the token. Where the caller is not
    /// `owner_id`, deciding its access needs the identities hashed: without a
    /// host this fails with `HostUnavailable`, changing nothing.
    fn transfer_from(
        &mut self,
        predecessor: &AccountId,
        owner_id: AccountId,
        new_owner_id: AccountId,
        token_id: TokenId,
    ) -> (r: Result<(), NftError>)
        ensures
            final(self).account_gives_access == old(self).account_gives_access,
            r != Err::<(), NftError>(NftError::HostUnavailable) ==> (r, final(self).owners()) == transfer_from_spec(
                old(self).owners(),
                old(self).access(),
                predecessor@,
                owner_id@,
                new_owner_id@,
                token_id,
            ),
            r == Err::<(), NftError>(NftError::HostUnavailable) ==> final(self).owners() == old(self).owners()
                && old(self).owners().contains_key(token_id) && old(self).owners()[token_id] == owner_id@
                && predecessor@ != owner_id@,
    {
        let current = match self.get_token_owner(token_id) {
            Ok(o) => o,
            Err(e) => return Err(e),
        };
        if current != owner_id {
            return Err(NftError::NotOwner);
        }
        match self.check_access(predecessor, owner_id) {
            Ok(true) => {},
            Ok(false) => return Err(NftError::AccessDenied),
            Err(e) => return Err(e),
        }
        self.set_owner(token_id, new_owner_id);
        Ok(())
    }

    /// Fails with `UnknownToken` when the token was never minted and with
    /// `NotOwner` when the caller does not own it; nothing changes then.
    /// Otherwise `new_owner_id` owns the token. An escrow of the owner may not
    /// call this: it goes through `transfer_from`.
    fn transfer(&mut self, predecessor: &AccountId, new_owner_id: AccountId, token_id: TokenId) -> (r: Result<(), NftError>)
        ensures
            final(self).account_gives_access == old(self).account_gives_access,
            (r, final(self).owners()) == transfer_spec(old(self).owners(), predecessor@, new_owner_id@, token_id),
    {
        let token_owner_account_id = match self.get_token_owner(token_id) {
            Ok(o) => o,
            Err(e) => return Err(e),
        };
        if *predecessor != token_owner_account_id {
            return Err(NftError::NotOwner);
        }
        self.set_owner(token_id, new_owner_id);
        Ok(())
    }

    /// True when the caller is `account_id` itself, whatever the registry
    /// holds; otherwise whether `account_id` has named the caller as escrow.
    /// That second question needs the identities hashed: without a host it
    /// fails with `HostUnavailable`.
    fn check_access(&self, predecessor: &AccountId, account_id: AccountId) -> (r: Result<bool, NftError>)
        ensures
            predecessor@ == account_id@ ==> r == Ok::<bool, NftError>(true),
            r matches Ok(b) ==> b == may_act_for(self.access(), predecessor@, account_id@),
            r is Err ==> r == Err::<bool, NftError>(NftError::HostUnavailable),
    {
        if *predecessor == account_id {
            return Ok(true);
        }
        let account_hash = match account_digest(&account_id) {
            Some(d) => d,
            None => return Err(NftError::HostUnavailable),
        };
        let predecessor_hash = match account_digest(predecessor) {
            Some(d) => d,
            None => return Err(NftError::HostUnavailable),
        };
        Ok(self.account_gives_access.has_access(&account_hash, &predecessor_hash))
    }

    /// Fails with `UnknownToken` when the token was never minted.
    fn get_token_owner(&self, token_id: TokenId) -> (r: Result<String, NftError>)
        ensures
            self.owners().contains_key(token_id) ==> (r matches Ok(o) && o@ == self.owners()[token_id]),
            !self.owners().contains_key(token_id) ==> r == Err::<String, NftError>(NftError::UnknownToken),
    {
        match self.token_to_account.get(&token_id) {
            Some(owner_id) => Ok(owner_id.clone()),
            None => Err(NftError::UnknownToken),
        }
    }
}

} // verus!
