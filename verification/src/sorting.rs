//! Sorting of tile sequences by the fixed tile order. The order has
//! distinct ordinals for distinct tiles, so the sorted arrangement of a
//! hand is unique: `sort_tiles` is pinned down to exactly
//! `Seq::sort_by` of its input.

use vstd::prelude::*;
use vstd::relations::sorted_by;
use vstd::relations::total_ordering;
use vstd::seq_lib::lemma_sorted_unique;
use crate::tile::Tile;
use crate::tile::tile_leq;
use crate::tile::tile_ord;
use crate::tile::lemma_tile_leq_total_ordering;

verus! {

/// Sorts the given tiles ascending by the fixed tile order, returning a new
/// vector. The result is exactly the sorted arrangement of the input
/// multiset.
pub fn sort_tiles(tiles: &Vec<Tile>) -> (r: Vec<Tile>)
    ensures
        sorted_by(r@, tile_leq()),
        r@.to_multiset() == tiles@.to_multiset(),
        r@ == tiles@.sort_by(tile_leq()),
{
    broadcast use vstd::seq_lib::group_to_multiset_ensures;

    let mut r: Vec<Tile> = Vec::new();
    let mut i: usize = 0;
    while i < tiles.len()
        invariant
            i <= tiles.len(),
            sorted_by(r@, tile_leq()),
            r@.to_multiset() == tiles@.take(i as int).to_multiset(),
        decreases tiles.len() - i,
    {
        broadcast use vstd::seq_lib::group_to_multiset_ensures;

        let t = tiles[i];
        let ghost prev = r@;
        let mut j: usize = 0;
        while j < r.len() && r[j].le(t)
            invariant
                j <= r.len(),
                r@ == prev,
                forall|k: int| 0 <= k < j ==> tile_ord(r@[k]) <= tile_ord(t),
            decreases r.len() - j,
        {
            j += 1;
        }
        r.insert(j, t);
        proof {
            assert forall|p: int, q: int| 0 <= p < q < r@.len() implies #[trigger] tile_leq()(
                r@[p],
                r@[q],
            ) by {
                assert(r@ == prev.insert(j as int, t));
                if q < j {
                    assert(r@[p] == prev[p] && r@[q] == prev[q]);
                } else if p > j {
                    assert(r@[p] == prev[p - 1] && r@[q] == prev[q - 1]);
                } else if p < j && q == j {
                    assert(r@[p] == prev[p] && r@[q] == t);
                } else if p == j && q > j {
                    assert(r@[p] == t && r@[q] == prev[q - 1]);
                    assert(j < prev.len());
                    assert(tile_ord(t) <= tile_ord(prev[j as int]));
                    if q - 1 > j {
                        assert(tile_leq()(prev[j as int], prev[q - 1]));
                    }
                } else if p < j && q > j {
                    assert(r@[p] == prev[p] && r@[q] == prev[q - 1]);
                    assert(tile_ord(prev[p]) <= tile_ord(t));
                    assert(j < prev.len());
                    assert(tile_ord(t) <= tile_ord(prev[j as int]));
                    if q - 1 > j {
                        assert(tile_leq()(prev[j as int], prev[q - 1]));
                    }
                }
            }
            assert(r@.to_multiset() =~= prev.to_multiset().insert(t)) by {
                assert(r@ == prev.insert(j as int, t));
                assert(r@.remove(j as int) =~= prev);
                assert(r@.remove(j as int).to_multiset() =~= r@.to_multiset().remove(r@[j as int]));
                assert(r@.to_multiset().count(t) >= 1) by {
                    assert(r@[j as int] == t);
                    assert(r@.contains(t));
                }
                assert forall|x: Tile| prev.to_multiset().insert(t).count(x) == r@.to_multiset().count(
                    x,
                ) by {
                    assert(prev.to_multiset().count(x) == r@.to_multiset().remove(t).count(x));
                }
            }
            assert(tiles@.take(i as int + 1) =~= tiles@.take(i as int).push(tiles@[i as int]));
            assert(tiles@.take(i as int + 1).to_multiset() =~= tiles@.take(
                i as int,
            ).to_multiset().insert(tiles@[i as int]));
        }
        i += 1;
    }
    proof {
        assert(tiles@.take(tiles@.len() as int) =~= tiles@);
        lemma_tile_leq_total_ordering();
        tiles@.lemma_sort_by_ensures(tile_leq());
        lemma_sorted_unique(r@, tiles@.sort_by(tile_leq()), tile_leq());
    }
    r
}

} // verus!
