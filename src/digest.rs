//! Digests of identities, as the access registry stores them.
use vstd::prelude::*;

verus! {

/// The SHA-256 digest of the UTF-8 encoding of an identity.
pub uninterp spec fn sha256_of(account: Seq<char>) -> Seq<u8>;

/// Relies on `near_sdk::env::sha256`: the SHA-256 digest of the given bytes,
/// here the UTF-8 bytes of the identity. That call panics when no blockchain
/// interface is installed in this thread, so the body first asks for it with
/// `near_sdk::env::take_blockchain_interface` (which leaves none behind) and
/// puts it back with `near_sdk::env::set_blockchain_interface`; without one it
/// returns `None` and hashes nothing.
#[verifier::external_body]
pub(crate) fn account_digest(account: &String) -> (r: Option<Vec<u8>>)
    ensures
        r matches Some(d) ==> d@ == sha256_of(account@),
{
    match near_sdk::env::take_blockchain_interface() {
        Some(host) => {
            near_sdk::env::set_blockchain_interface(host);
            Some(near_sdk::env::sha256(account.as_bytes()))
        },
        None => None,
    }
}

/// Whether two byte strings are equal.
pub fn same_bytes(a: &Vec<u8>, b: &Vec<u8>) -> (r: bool)
    ensures
        r == (a@ == b@),
{
    if a.len() != b.len() {
        return false;
    }
    let mut i: usize = 0;
    while i < a.len()
        invariant
            a@.len() == b@.len(),
            0 <= i <= a@.len(),
            forall|k: int| 0 <= k < i ==> a@[k] == b@[k],
        decreases a@.len() - i,
    {
        if a[i] != b[i] {
            return false;
        }
        i = i + 1;
    }
    assert(a@ =~= b@);
    true
}

} // verus!
