//! The access registry: for each grantor digest, the set of grantee digests
//! that the grantor has named as escrow.
use vstd::prelude::*;

use crate::digest::same_bytes;
use crate::error::NftError;

verus! {

/// One delegation: a grantee digest named as escrow by a grantor digest.
pub struct Grant {
    pub grantor: Vec<u8>,
    pub grantee: Vec<u8>,
}

/// Grantor digests that hold a record, and the delegations they have made.
///
/// A grantor keeps its record once it has one, even after its last grantee
/// is revoked: an empty record is told apart from no record at all.
pub struct AccessRegistry {
    grantors: Vec<Vec<u8>>,
    grants: Vec<Grant>,
}

impl AccessRegistry {
    /// Whether `g` holds a record.
    pub closed spec fn has_record(&self, g: Seq<u8>) -> bool {
        exists|i: int| 0 <= i < self.grantors@.len() && #[trigger] self.grantors@[i]@ == g
    }

    /// Whether `g` has named `e` as escrow.
    pub closed spec fn granted(&self, g: Seq<u8>, e: Seq<u8>) -> bool {
        exists|j: int|
            0 <= j < self.grants@.len() && (#[trigger] self.grants@[j]).grantor@ == g
                && self.grants@[j].grantee@ == e
    }

    /// The registry as a map from grantor digest to the set of its grantee digests.
    pub open spec fn view(&self) -> Map<Seq<u8>, Set<Seq<u8>>> {
        Map::new(|g: Seq<u8>| self.has_record(g), |g: Seq<u8>| Set::new(|e: Seq<u8>| self.granted(g, e)))
    }

    /// No delegation is stored twice, and each belongs to a grantor with a record.
    pub closed spec fn wf(&self) -> bool {
        &&& forall|j: int| 0 <= j < self.grants@.len() ==> self.has_record(#[trigger] self.grants@[j].grantor@)
        &&& forall|j: int, k: int|
            0 <= j < k < self.grants@.len() ==> !(#[trigger] self.grants@[j].grantor@ == #[trigger] self.grants@[k].grantor@
                && self.grants@[j].grantee@ == self.grants@[k].grantee@)
    }

    /// An empty registry.
    pub fn new() -> (r: Self)
        ensures
            r.wf(),
            r@ == Map::<Seq<u8>, Set<Seq<u8>>>::empty(),
    {
        let r = AccessRegistry { grantors: Vec::new(), grants: Vec::new() };
        assert(r@ =~= Map::<Seq<u8>, Set<Seq<u8>>>::empty());
        r
    }

    fn find_grantor(&self, g: &Vec<u8>) -> (r: bool)
        ensures
            r == self.has_record(g@),
    {
        let mut i: usize = 0;
        while i < self.grantors.len()
            invariant
                0 <= i <= self.grantors@.len(),
                forall|k: int| 0 <= k < i ==> self.grantors@[k]@ != g@,
            decreases self.grantors@.len() - i,
        {
            if same_bytes(&self.grantors[i], g) {
                return true;
            }
            i = i + 1;
        }
        false
    }

    fn find_grant(&self, g: &Vec<u8>, e: &Vec<u8>) -> (r: Option<usize>)
        ensures
            match r {
                Some(j) => j < self.grants@.len() && self.grants@[j as int].grantor@ == g@
                    && self.grants@[j as int].grantee@ == e@,
                None => !self.granted(g@, e@),
            },
    {
        let mut j: usize = 0;
        while j < self.grants.len()
            invariant
                0 <= j <= self.grants@.len(),
                forall|k: int| 0 <= k < j ==> !(self.grants@[k].grantor@ == g@ && self.grants@[k].grantee@ == e@),
            decreases self.grants@.len() - j,
        {
            if same_bytes(&self.grants[j].grantor, g) && same_bytes(&self.grants[j].grantee, e) {
                return Some(j);
            }
            j = j + 1;
        }
        None
    }

    /// Whether grantor `g` holds a record that contains grantee `e`.
    pub fn has_access(&self, g: &Vec<u8>, e: &Vec<u8>) -> (r: bool)
        ensures
            r == (self@.contains_key(g@) && self@[g@].contains(e@)),
    {
        let found = self.find_grant(g, e);
        proof {
            if self@.contains_key(g@) {
                assert(self@[g@].contains(e@) == self.granted(g@, e@));
            }
        }
        match found {
            Some(j) => {
                assert(self.granted(g@, e@));
                self.find_grantor(g)
            },
            None => false,
        }
    }

    /// Names grantee `e` as escrow of grantor `g`, creating the grantor's record
    /// when it has none. Granting an existing grantee changes nothing.
    pub fn grant(&mut self, g: Vec<u8>, e: Vec<u8>)
        requires
            old(self).wf(),
        ensures
            final(self).wf(),
            final(self)@ == old(self)@.insert(
                g@,
                if old(self)@.contains_key(g@) { old(self)@[g@].insert(e@) } else { set![e@] },
            ),
    {
        let ghost pre = *self;
        self.open_record(&g);
        let ghost mid = *self;
        if self.find_grant(&g, &e).is_none() {
            self.grants.push(Grant { grantor: g, grantee: e });
        }
        proof {
            assert forall|x: Seq<u8>, y: Seq<u8>| self.granted(x, y) == (mid.granted(x, y) || (x == g@ && y == e@)) by {
                if mid.granted(x, y) {
                    let j = choose|j: int| 0 <= j < mid.grants@.len() && (#[trigger] mid.grants@[j]).grantor@ == x
                        && mid.grants@[j].grantee@ == y;
                    assert(self.grants@[j] == mid.grants@[j]);
                }
                if x == g@ && y == e@ && !mid.granted(x, y) {
                    assert(self.grants@[self.grants@.len() - 1].grantor@ == x);
                }
            }
            assert(self.grantors == mid.grantors);
            assert forall|j: int| 0 <= j < self.grants@.len() implies self.has_record(#[trigger] self.grants@[j].grantor@) by {
                if j < mid.grants@.len() {
                    assert(self.grants@[j] == mid.grants@[j]);
                    assert(mid.has_record(mid.grants@[j].grantor@));
                } else {
                    assert(mid.has_record(g@));
                }
            }
            let target = if pre@.contains_key(g@) { pre@[g@].insert(e@) } else { set![e@] };
            assert forall|x: Seq<u8>| #[trigger] self@.contains_key(x) implies self@[x] == pre@.insert(g@, target)[x] by {
                if x == g@ {
                    assert forall|y: Seq<u8>| self.granted(x, y) == (pre.granted(x, y) || y == e@) by {
                        assert(mid.granted(x, y) == pre.granted(x, y));
                        if pre.granted(x, y) {
                            let j = choose|j: int| 0 <= j < pre.grants@.len() && (#[trigger] pre.grants@[j]).grantor@ == x
                                && pre.grants@[j].grantee@ == y;
                            assert(pre.has_record(pre.grants@[j].grantor@));
                        }
                    }
                    assert(mid.has_record(x));
                    assert(self.has_record(x));
                    assert(self@[x] == Set::new(|y: Seq<u8>| self.granted(x, y)));
                    if pre.has_record(x) {
                        assert(pre@[x] == Set::new(|y: Seq<u8>| pre.granted(x, y)));
                        assert(self@[x] =~= pre@[x].insert(e@));
                    } else {
                        assert forall|y: Seq<u8>| self@[x].contains(y) == (y == e@) by {
                            if pre.granted(x, y) {
                                let j = choose|j: int| 0 <= j < pre.grants@.len() && (#[trigger] pre.grants@[j]).grantor@ == x
                                    && pre.grants@[j].grantee@ == y;
                                assert(pre.has_record(pre.grants@[j].grantor@));
                            }
                        }
                        assert(self@[x] =~= set![e@]);
                    }
                } else {
                    assert forall|y: Seq<u8>| self.granted(x, y) == pre.granted(x, y) by {
                        assert(mid.granted(x, y) == pre.granted(x, y));
                    }
                    assert(self.has_record(x) == pre.has_record(x));
                    assert(self@[x] =~= pre@[x]);
                }
            }
            assert(self@ =~= pre@.insert(g@, target));
        }
    }

    /// Withdraws grantee `e` from grantor `g`'s record. Fails with
    /// `NoAccessRecord` when `g` holds no record and with `GranteeNotFound` when
    /// the record lacks `e`; the registry is then unchanged. A record that
    /// becomes empty stays.
    pub fn revoke(&mut self, g: &Vec<u8>, e: &Vec<u8>) -> (r: Result<(), NftError>)
        requires
            old(self).wf(),
        ensures
            final(self).wf(),
            !old(self)@.contains_key(g@) ==> r == Err::<(), NftError>(NftError::NoAccessRecord),
            old(self)@.contains_key(g@) && !old(self)@[g@].contains(e@) ==> r == Err::<(), NftError>(
                NftError::GranteeNotFound,
            ),
            old(self)@.contains_key(g@) && old(self)@[g@].contains(e@) ==> r == Ok::<(), NftError>(()),
            r is Ok ==> final(self)@ == old(self)@.insert(g@, old(self)@[g@].remove(e@)),
            r is Err ==> final(self)@ == old(self)@,
    {
        let ghost pre = *self;
        if !self.find_grantor(g) {
            return Err(NftError::NoAccessRecord);
        }
        let found = self.find_grant(g, e);
        let j = match found {
            Some(j) => j,
            None => {
                assert(!(self@[g@].contains(e@)));
                return Err(NftError::GranteeNotFound);
            },
        };
        self.grants.remove(j);
        proof {
            assert(self.grantors == pre.grantors);
            assert forall|x: Seq<u8>, y: Seq<u8>|
                self.granted(x, y) == (pre.granted(x, y) && !(x == g@ && y == e@)) by {
                if pre.granted(x, y) && !(x == g@ && y == e@) {
                    let k = choose|k: int| 0 <= k < pre.grants@.len() && (#[trigger] pre.grants@[k]).grantor@ == x
                        && pre.grants@[k].grantee@ == y;
                    if k < j {
                        assert(self.grants@[k] == pre.grants@[k]);
                    } else {
                        assert(k != j);
                        assert(self.grants@[k - 1] == pre.grants@[k]);
                    }
                }
                if self.granted(x, y) {
                    let k = choose|k: int| 0 <= k < self.grants@.len() && (#[trigger] self.grants@[k]).grantor@ == x
                        && self.grants@[k].grantee@ == y;
                    if k < j {
                        assert(self.grants@[k] == pre.grants@[k]);
                        assert(pre.grants@[k].grantor@ == x);
                    } else {
                        assert(self.grants@[k] == pre.grants@[k + 1]);
                        assert(pre.grants@[k + 1].grantor@ == x);
                    }
                }
            }
            assert forall|k: int| 0 <= k < self.grants@.len() implies self.has_record(#[trigger] self.grants@[k].grantor@) by {
                if k < j {
                    assert(self.grants@[k] == pre.grants@[k]);
                } else {
                    assert(self.grants@[k] == pre.grants@[k + 1]);
                }
            }
            assert forall|a: int, b: int|
                0 <= a < b < self.grants@.len() implies !(#[trigger] self.grants@[a].grantor@ == #[trigger] self.grants@[b].grantor@
                && self.grants@[a].grantee@ == self.grants@[b].grantee@) by {
                let a2 = if a < j { a } else { a + 1 };
                let b2 = if b < j { b } else { b + 1 };
                assert(self.grants@[a] == pre.grants@[a2]);
                assert(self.grants@[b] == pre.grants@[b2]);
                assert(pre.grants@[a2].grantor@ == pre.grants@[b2].grantor@ ==> !(pre.grants@[a2].grantee@ == pre.grants@[b2].grantee@));
            }
            let target = pre@[g@].remove(e@);
            assert forall|x: Seq<u8>| #[trigger] self@.contains_key(x) implies self@[x] == pre@.insert(g@, target)[x] by {
                if x == g@ {
                    assert(self@[x] =~= target);
                } else {
                    assert(self@[x] =~= pre@[x]);
                }
            }
            assert(self@ =~= pre@.insert(g@, target));
        }
        Ok(())
    }

    /// Gives grantor `g` a record, empty when it had none; an existing record
    /// is kept as it is.
    pub fn open_record(&mut self, g: &Vec<u8>)
        requires
            old(self).wf(),
        ensures
            final(self).wf(),
            final(self)@ == if old(self)@.contains_key(g@) { old(self)@ } else { old(self)@.insert(g@, Set::empty()) },
            forall|x: Seq<u8>, y: Seq<u8>| final(self).granted(x, y) == old(self).granted(x, y),
            forall|x: Seq<u8>| final(self).has_record(x) == (old(self).has_record(x) || x == g@),
    {
        let ghost pre = *self;
        if !self.find_grantor(g) {
            self.grantors.push(g.clone());
        }
        proof {
            assert forall|x: Seq<u8>| self.has_record(x) == (pre.has_record(x) || x == g@) by {
                if pre.has_record(x) {
                    let i = choose|i: int| 0 <= i < pre.grantors@.len() && #[trigger] pre.grantors@[i]@ == x;
                    assert(self.grantors@[i]@ == x);
                }
                if x == g@ && !pre.has_record(x) {
                    assert(self.grantors@[self.grantors@.len() - 1]@ == x);
                }
                if self.has_record(x) && !pre.has_record(x) {
                    let i = choose|i: int| 0 <= i < self.grantors@.len() && #[trigger] self.grantors@[i]@ == x;
                    if i < pre.grantors@.len() {
                        assert(pre.grantors@[i]@ == x);
                    }
                }
            }
            assert forall|j: int| 0 <= j < self.grants@.len() implies self.has_record(#[trigger] self.grants@[j].grantor@) by {
                assert(pre.has_record(pre.grants@[j].grantor@));
            }
            if !pre@.contains_key(g@) {
                assert forall|x: Seq<u8>| #[trigger] self@.contains_key(x) implies self@[x] == pre@.insert(g@, Set::empty())[x] by {
                    if x == g@ {
                        assert(self@[x] =~= Set::<Seq<u8>>::empty());
                    } else {
                        assert(self@[x] =~= pre@[x]);
                    }
                }
                assert(self@ =~= pre@.insert(g@, Set::empty()));
            } else {
                assert(self@ =~= pre@);
            }
        }
    }

    /// The digests of the grantors that hold a record.
    pub fn grantors(&self) -> (r: &Vec<Vec<u8>>)
        ensures
            forall|g: Seq<u8>| self@.contains_key(g) <==> exists|i: int| 0 <= i < r@.len() && #[trigger] r@[i]@ == g,
    {
        &self.grantors
    }

    /// Every delegation, once each.
    pub fn grants(&self) -> (r: &Vec<Grant>)
        requires
            self.wf(),
        ensures
            forall|g: Seq<u8>, e: Seq<u8>| (self@.contains_key(g) && self@[g].contains(e)) <==> exists|j: int|
                0 <= j < r@.len() && (#[trigger] r@[j]).grantor@ == g && r@[j].grantee@ == e,
    {
        proof {
            assert forall|g: Seq<u8>, e: Seq<u8>| self.granted(g, e) implies self.has_record(g) by {
                let j = choose|j: int| 0 <= j < self.grants@.len() && (#[trigger] self.grants@[j]).grantor@ == g
                    && self.grants@[j].grantee@ == e;
            }
        }
        &self.grants
    }
}

} // verus!
