//! The decoded-snapshot model: an asset-name dictionary, a 1-indexed owner
//! dictionary, and a brick sequence referencing both by index. Offers the
//! bounds validation that a pass must run before any dereference, the
//! collection of violating owners, and the rewriter's brick filter.

use vstd::prelude::*;

use crate::policy::prohibited;

verus! {

/// The reserved owner id for public/unowned content, never enforced
/// (sixteen bytes of `0xff`).
pub const SENTINEL_OWNER: u128 = u128::MAX;

/// One entry of the owner dictionary.
pub struct OwnerRec {
    /// The owner's stable id.
    pub id: u128,
    /// The owner's display name, as bytes.
    pub name: Vec<u8>,
    /// How many bricks the snapshot attributes to this owner.
    pub brick_count: u32,
}

/// The two cross-references of a brick that the policy reads; the rest of
/// a brick (geometry, colors) never matters here and stays with the caller.
pub struct BrickRef {
    /// Index into the asset dictionary.
    pub asset_name_index: u32,
    /// Index into the owner dictionary, 1-based; 0 means "no owner".
    pub owner_index: u32,
}

/// A decoded snapshot, reduced to what enforcement reads.
pub struct Snapshot {
    /// The asset-name dictionary.
    pub assets: Vec<Vec<u8>>,
    /// The owner dictionary; `owner_index` `n >= 1` refers to `owners[n - 1]`.
    pub owners: Vec<OwnerRec>,
    /// The brick sequence.
    pub bricks: Vec<BrickRef>,
}

impl Snapshot {
    /// Brick `i` only references entries that exist: its asset index is in
    /// range, and its owner index is 0 or in range.
    pub open spec fn brick_valid(self, i: int) -> bool {
        &&& self.bricks@[i].asset_name_index < self.assets@.len()
        &&& (self.bricks@[i].owner_index == 0 || self.bricks@[i].owner_index <= self.owners@.len())
    }

    /// Every brick references entries that exist.
    pub open spec fn valid(self) -> bool {
        forall|i: int| 0 <= i < self.bricks@.len() ==> self.brick_valid(i)
    }

    /// The asset name referenced by brick `i`.
    pub open spec fn brick_asset(self, i: int) -> Seq<u8> {
        self.assets@[self.bricks@[i].asset_name_index as int]@
    }

    /// The owner id referenced by brick `i`; only meaningful when
    /// `owner_index > 0`.
    pub open spec fn brick_owner_id(self, i: int) -> u128 {
        self.owners@[self.bricks@[i].owner_index as int - 1].id
    }

    /// Brick `i` makes its owner a violator: its asset is prohibited, it is
    /// owned, and the owner is not the public sentinel.
    pub open spec fn violating_brick(self, i: int) -> bool {
        &&& 0 <= i < self.bricks@.len()
        &&& prohibited(self.brick_asset(i))
        &&& self.bricks@[i].owner_index > 0
        &&& self.brick_owner_id(i) != SENTINEL_OWNER
    }

    /// `id` owns at least one prohibited brick in this snapshot.
    pub open spec fn violating_id(self, id: u128) -> bool {
        exists|i: int| self.violating_brick(i) && self.brick_owner_id(i) == id
    }

    /// The rewriter keeps brick `i` iff it is owned, its owner is in the
    /// cleared set, and its asset is not prohibited.
    pub open spec fn keep_brick(self, cleared: Seq<u128>, i: int) -> bool {
        &&& self.bricks@[i].owner_index > 0
        &&& cleared.contains(self.brick_owner_id(i))
        &&& !prohibited(self.brick_asset(i))
    }

    /// Checks every brick's indices against the dictionary bounds. A pass
    /// aborts, taking no enforcement action, unless this returns true.
    pub fn validate(&self) -> (r: bool)
        ensures
            r == self.valid(),
    {
        let mut i: usize = 0;
        while i < self.bricks.len()
            invariant
                i <= self.bricks@.len(),
                forall|j: int| 0 <= j < i ==> self.brick_valid(j),
            decreases self.bricks@.len() - i,
        {
            let b = &self.bricks[i];
            if !((b.asset_name_index as usize) < self.assets.len()
                && (b.owner_index == 0 || (b.owner_index as usize) <= self.owners.len())) {
                proof {
                    assert(!self.brick_valid(i as int));
                }
                return false;
            }
            proof {
                assert(self.brick_valid(i as int));
            }
            i = i + 1;
        }
        true
    }

    /// Resolves brick `i` to the owner dictionary entry it charges: none
    /// when the brick is unowned or its owner is the public sentinel, both
    /// of which are exempt from enforcement. Bounds are checked before any
    /// dereference, by `validate`.
    pub fn resolve_owner(&self, i: usize) -> (r: Option<usize>)
        requires
            self.valid(),
            i < self.bricks@.len(),
        ensures
            match r {
                Option::Some(oi) => self.bricks@[i as int].owner_index > 0 && oi
                    == self.bricks@[i as int].owner_index - 1 && self.owners@[oi as int].id
                    != SENTINEL_OWNER,
                Option::None => self.bricks@[i as int].owner_index == 0 || self.brick_owner_id(
                    i as int,
                ) == SENTINEL_OWNER,
            },
    {
        proof {
            assert(self.brick_valid(i as int));
        }
        let b = &self.bricks[i];
        if b.owner_index == 0 {
            return Option::None;
        }
        let oi = (b.owner_index - 1) as usize;
        if self.owners[oi].id == SENTINEL_OWNER {
            Option::None
        } else {
            Option::Some(oi)
        }
    }

    /// Collects the violating owners of this snapshot, as indices into the
    /// owner dictionary, each id exactly once: exactly the non-sentinel
    /// owners who place at least one prohibited-asset brick.
    pub fn violators(&self) -> (r: Vec<usize>)
        requires
            self.valid(),
        ensures
            forall|j: int| 0 <= j < r@.len() ==> #[trigger] r@[j] < self.owners@.len(),
            forall|j: int|
                0 <= j < r@.len() ==> self.violating_id(
                    #[trigger] self.owners@[r@[j] as int].id,
                ),
            forall|id: u128| self.violating_id(id) ==> exists|j: int|
                0 <= j < r@.len() && self.owners@[#[trigger] r@[j] as int].id == id,
            forall|j: int, k: int|
                0 <= j < k < r@.len() ==> self.owners@[#[trigger] r@[j] as int].id
                    != self.owners@[#[trigger] r@[k] as int].id,
    {
        let mut r: Vec<usize> = Vec::new();
        let mut i: usize = 0;
        while i < self.bricks.len()
            invariant
                self.valid(),
                i <= self.bricks@.len(),
                forall|j: int| 0 <= j < r@.len() ==> #[trigger] r@[j] < self.owners@.len(),
                forall|j: int|
                    0 <= j < r@.len() ==> self.violating_id(
                        #[trigger] self.owners@[r@[j] as int].id,
                    ),
                forall|b: int| 0 <= b < i && self.violating_brick(b) ==> exists|j: int|
                    0 <= j < r@.len() && self.owners@[#[trigger] r@[j] as int].id
                        == self.brick_owner_id(b),
                forall|j: int, k: int|
                    0 <= j < k < r@.len() ==> self.owners@[#[trigger] r@[j] as int].id
                        != self.owners@[#[trigger] r@[k] as int].id,
            decreases self.bricks@.len() - i,
        {
            proof {
                assert(self.brick_valid(i as int));
            }
            let b = &self.bricks[i];
            if name_of_asset_prohibited(self, b.asset_name_index) && b.owner_index > 0 {
                let oi = (b.owner_index - 1) as usize;
                let id = self.owners[oi].id;
                if id != SENTINEL_OWNER && !listed(self, &r, id) {
                    proof {
                        assert(self.brick_owner_id(i as int) == id);
                        assert(self.violating_brick(i as int));
                        assert(self.violating_id(id));
                    }
                    let ghost r0 = r@;
                    r.push(oi);
                    proof {
                        assert(r@ == r0.push(oi));
                        assert(r@[r0.len() as int] == oi);
                        assert(self.owners@[oi as int].id == id);
                        assert forall|bb: int|
                            0 <= bb < i + 1 && self.violating_brick(bb) implies exists|j: int|
                            0 <= j < r@.len() && self.owners@[#[trigger] r@[j] as int].id
                                == self.brick_owner_id(bb) by {
                            if bb < i {
                                let j0 = choose|j: int|
                                    0 <= j < r0.len() && self.owners@[#[trigger] r0[j] as int].id
                                        == self.brick_owner_id(bb);
                                assert(r@[j0] == r0[j0]);
                                assert(self.owners@[r@[j0] as int].id == self.brick_owner_id(bb));
                            } else {
                                assert(self.owners@[r@[r0.len() as int] as int].id
                                    == self.brick_owner_id(bb));
                            }
                        }
                    }
                } else {
                    proof {
                        assert(self.brick_owner_id(i as int) == id);
                        if id == SENTINEL_OWNER {
                            assert(!self.violating_brick(i as int));
                        }
                    }
                }
            } else {
                proof {
                    assert(!self.violating_brick(i as int));
                }
            }
            i = i + 1;
        }
        proof {
            assert forall|id: u128| self.violating_id(id) implies exists|j: int|
                0 <= j < r@.len() && self.owners@[#[trigger] r@[j] as int].id == id by {
                let b = choose|b: int| self.violating_brick(b) && self.brick_owner_id(b) == id;
                assert(self.violating_brick(b));
            }
        }
        r
    }

    /// The rewriter's filter: the indices, in increasing order, of exactly
    /// the bricks owned by a cleared owner whose asset is not prohibited.
    /// The caller rebuilds the snapshot from these bricks, copying all other
    /// structure through unchanged.
    pub fn kept_indices(&self, cleared: &Vec<u128>) -> (r: Vec<usize>)
        requires
            self.valid(),
        ensures
            forall|a: int, b: int| 0 <= a < b < r@.len() ==> r@[a] < r@[b],
            forall|j: int|
                0 <= j < r@.len() ==> r@[j] < self.bricks@.len() && self.keep_brick(
                    cleared@,
                    #[trigger] r@[j] as int,
                ),
            forall|i: int|
                0 <= i < self.bricks@.len() && self.keep_brick(cleared@, i) ==> r@.contains(
                    i as usize,
                ),
    {
        let mut r: Vec<usize> = Vec::new();
        let mut i: usize = 0;
        while i < self.bricks.len()
            invariant
                self.valid(),
                i <= self.bricks@.len(),
                forall|a: int, b: int| 0 <= a < b < r@.len() ==> r@[a] < r@[b],
                forall|j: int| 0 <= j < r@.len() ==> #[trigger] r@[j] < i,
                forall|j: int|
                    0 <= j < r@.len() ==> r@[j] < self.bricks@.len() && self.keep_brick(
                        cleared@,
                        #[trigger] r@[j] as int,
                    ),
                forall|b: int|
                    0 <= b < i && self.keep_brick(cleared@, b) ==> r@.contains(b as usize),
            decreases self.bricks@.len() - i,
        {
            proof {
                assert(self.brick_valid(i as int));
            }
            let b = &self.bricks[i];
            let keep = b.owner_index > 0 && {
                let oi = (b.owner_index - 1) as usize;
                contains_id(cleared, self.owners[oi].id)
                    && !name_of_asset_prohibited(self, b.asset_name_index)
            };
            proof {
                assert(keep == self.keep_brick(cleared@, i as int));
            }
            if keep {
                let ghost r0 = r@;
                r.push(i);
                proof {
                    assert(r@ == r0.push(i));
                    assert(r@[r0.len() as int] == i as usize);
                    assert forall|b: int|
                        0 <= b < i + 1 && self.keep_brick(cleared@, b) implies r@.contains(
                        b as usize,
                    ) by {
                        if b < i {
                            assert(r0.contains(b as usize));
                            let j0 = choose|j: int| 0 <= j < r0.len() && r0[j] == b as usize;
                            assert(r@[j0] == b as usize);
                        } else {
                            assert(r@[r0.len() as int] == b as usize);
                        }
                    }
                }
            }
            i = i + 1;
        }
        r
    }
}

/// Decides whether the asset dictionary entry `idx` is prohibited.
fn name_of_asset_prohibited(snap: &Snapshot, idx: u32) -> (r: bool)
    requires
        idx < snap.assets@.len(),
    ensures
        r == prohibited(snap.assets@[idx as int]@),
{
    crate::policy::name_is_prohibited(&snap.assets[idx as usize])
}

/// Linear membership test on a list of owner ids.
pub fn contains_id(v: &Vec<u128>, id: u128) -> (r: bool)
    ensures
        r == v@.contains(id),
{
    let mut i: usize = 0;
    while i < v.len()
        invariant
            i <= v@.len(),
            forall|j: int| 0 <= j < i ==> v@[j] != id,
        decreases v@.len() - i,
    {
        if v[i] == id {
            return true;
        }
        i = i + 1;
    }
    false
}

/// `id` already stands in `r`, read through the owner dictionary.
fn listed(snap: &Snapshot, r: &Vec<usize>, id: u128) -> (out: bool)
    requires
        forall|j: int| 0 <= j < r@.len() ==> #[trigger] r@[j] < snap.owners@.len(),
    ensures
        out == exists|j: int|
            0 <= j < r@.len() && snap.owners@[#[trigger] r@[j] as int].id == id,
{
    let mut i: usize = 0;
    while i < r.len()
        invariant
            i <= r@.len(),
            forall|j: int| 0 <= j < r@.len() ==> #[trigger] r@[j] < snap.owners@.len(),
            forall|j: int| 0 <= j < i ==> snap.owners@[#[trigger] r@[j] as int].id != id,
        decreases r@.len() - i,
    {
        if snap.owners[r[i]].id == id {
            return true;
        }
        i = i + 1;
    }
    false
}

} // verus!
