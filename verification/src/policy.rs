//! The asset-name policy: a name is prohibited iff it contains the fixed
//! marker substring, and a dictionary triggers a pass iff some entry is
//! prohibited.

use vstd::prelude::*;

verus! {

/// The ASCII bytes of the marker substring, `"Micro"`.
pub open spec fn marker() -> Seq<u8> {
    seq![77u8, 105u8, 99u8, 114u8, 111u8]
}

/// The marker substring occurs in `s` starting at position `i`.
pub open spec fn marker_at(s: Seq<u8>, i: int) -> bool {
    0 <= i && i + 5 <= s.len() && s.subrange(i, i + 5) == marker()
}

/// An asset name is prohibited iff it contains the marker substring.
pub open spec fn prohibited(s: Seq<u8>) -> bool {
    exists|i: int| marker_at(s, i)
}

/// Some entry of an asset dictionary is prohibited.
pub open spec fn dict_has_prohibited(assets: Seq<Vec<u8>>) -> bool {
    exists|k: int| 0 <= k < assets.len() && prohibited(assets[k]@)
}

/// Decides whether a single asset name contains the marker substring.
pub fn name_is_prohibited(name: &Vec<u8>) -> (r: bool)
    ensures
        r == prohibited(name@),
{
    let n = name.len();
    if n < 5 {
        assert(forall|i: int| !marker_at(name@, i));
        return false;
    }
    let mut i: usize = 0;
    while i <= n - 5
        invariant
            5 <= n,
            n == name@.len(),
            i <= n - 4,
            forall|k: int| 0 <= k < i ==> !marker_at(name@, k),
        decreases n - i,
    {
        if name[i] == 77 && name[i + 1] == 105 && name[i + 2] == 99 && name[i + 3] == 114
            && name[i + 4] == 111 {
            proof {
                assert(name@.subrange(i as int, i as int + 5) =~= marker());
                assert(marker_at(name@, i as int));
            }
            return true;
        }
        proof {
            let sub = name@.subrange(i as int, i as int + 5);
            assert(sub[0] == name@[i as int]);
            assert(sub[1] == name@[i as int + 1]);
            assert(sub[2] == name@[i as int + 2]);
            assert(sub[3] == name@[i as int + 3]);
            assert(sub[4] == name@[i as int + 4]);
            assert(marker()[0] == 77 && marker()[1] == 105 && marker()[2] == 99
                && marker()[3] == 114 && marker()[4] == 111);
            assert(!marker_at(name@, i as int));
        }
        i = i + 1;
    }
    assert(forall|k: int| !marker_at(name@, k));
    false
}

/// The dictionary pre-check: decides whether any asset name in the
/// dictionary is prohibited. When this is false, a pass stops before
/// decoding any brick.
pub fn dictionary_has_prohibited(assets: &Vec<Vec<u8>>) -> (r: bool)
    ensures
        r == dict_has_prohibited(assets@),
{
    let mut k: usize = 0;
    while k < assets.len()
        invariant
            k <= assets@.len(),
            forall|j: int| 0 <= j < k ==> !prohibited(assets@[j]@),
        decreases assets@.len() - k,
    {
        if name_is_prohibited(&assets[k]) {
            return true;
        }
        k = k + 1;
    }
    false
}

} // verus!
