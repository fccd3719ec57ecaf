//! The hand decomposer: enumerates every way to split a sorted hand into
//! one pair of identical tiles plus consecutive groups of three, each group
//! a triplet (three identical tiles) or a run (three same-suit tiles with
//! strictly consecutive ranks). For the standard 14-tile hand that is four
//! groups and one pair.
//!
//! The search tries each adjacent position pair of the sorted sequence as
//! the pair, with the bounds derived from the actual length: inputs whose
//! length is not two more than a multiple of three yield no configuration
//! rather than mis-indexing.

use vstd::prelude::*;
use crate::tile::Simple;
use crate::tile::Tile;

verus! {

/// One way to read a hand as groups of three plus a pair. The `triplets`
/// field keeps each three-tile group (a triplet or a run) in hand order;
/// `pair` holds the two identical pair tiles.
#[derive(Clone, Debug, PartialEq, Eq)]
pub struct HandConfiguration {
    pub triplets: Vec<Vec<Tile>>,
    pub pair: Vec<Tile>,
}

/// The views of a sequence of tile groups.
pub open spec fn group_views(gs: Seq<Vec<Tile>>) -> Seq<Seq<Tile>> {
    gs.map_values(|g: Vec<Tile>| g@)
}

impl View for HandConfiguration {
    type V = (Seq<Seq<Tile>>, Seq<Tile>);

    open spec fn view(&self) -> (Seq<Seq<Tile>>, Seq<Tile>) {
        (group_views(self.triplets@), self.pair@)
    }
}

/// The views of a sequence of configurations.
pub open spec fn config_views(cs: Seq<HandConfiguration>) -> Seq<(Seq<Seq<Tile>>, Seq<Tile>)> {
    cs.map_values(|c: HandConfiguration| c@)
}

/// Three identical tiles.
pub open spec fn is_triplet(a: Tile, b: Tile, c: Tile) -> bool {
    a == b && b == c
}

/// Three tiles of the same suit with strictly consecutive ranks.
pub open spec fn is_run(a: Tile, b: Tile, c: Tile) -> bool {
    match (a, b, c) {
        (
            Tile::Simple(Simple::Man(x)),
            Tile::Simple(Simple::Man(y)),
            Tile::Simple(Simple::Man(z)),
        ) => x + 1 == y && y + 1 == z,
        (
            Tile::Simple(Simple::Pin(x)),
            Tile::Simple(Simple::Pin(y)),
            Tile::Simple(Simple::Pin(z)),
        ) => x + 1 == y && y + 1 == z,
        (
            Tile::Simple(Simple::Sou(x)),
            Tile::Simple(Simple::Sou(y)),
            Tile::Simple(Simple::Sou(z)),
        ) => x + 1 == y && y + 1 == z,
        _ => false,
    }
}

/// A valid three-tile group: a triplet or a run.
pub open spec fn is_valid_group(a: Tile, b: Tile, c: Tile) -> bool {
    is_triplet(a, b, c) || is_run(a, b, c)
}

/// `s` with the two tiles at positions `i` and `i + 1` removed, the rest in
/// their original relative order.
pub open spec fn remove_pair_at(s: Seq<Tile>, i: int) -> Seq<Tile> {
    s.subrange(0, i) + s.subrange(i + 2, s.len() as int)
}

/// The consecutive three-tile chunks of `s`.
pub open spec fn groups_of(s: Seq<Tile>) -> Seq<Seq<Tile>> {
    Seq::new(s.len() / 3, |k: int| s.subrange(3 * k, 3 * k + 3))
}

/// Every consecutive three-tile chunk of `s` is a valid group.
pub open spec fn all_groups_valid(s: Seq<Tile>) -> bool {
    forall|k: int|
        0 <= k < s.len() / 3 ==> #[trigger] is_valid_group(s[3 * k], s[3 * k + 1], s[3 * k + 2])
}

/// Whether trying position `i` of `s` as the pair succeeds: the two tiles
/// there are identical and the remaining tiles chunk into valid groups.
pub open spec fn valid_at(s: Seq<Tile>, i: int) -> bool {
    s[i] == s[i + 1] && all_groups_valid(remove_pair_at(s, i))
}

/// The configuration emitted for pair position `i`. The pair keeps the
/// order in which the search removes the two tiles: the later one first.
pub open spec fn config_model_at(s: Seq<Tile>, i: int) -> (Seq<Seq<Tile>>, Seq<Tile>) {
    (groups_of(remove_pair_at(s, i)), seq![s[i + 1], s[i]])
}

/// The configurations emitted for pair positions below `i`, in position
/// order.
pub open spec fn configs_upto(s: Seq<Tile>, i: int) -> Seq<(Seq<Seq<Tile>>, Seq<Tile>)>
    decreases i,
{
    if i <= 0 {
        Seq::empty()
    } else {
        configs_upto(s, i - 1) + if valid_at(s, i - 1) {
            seq![config_model_at(s, i - 1)]
        } else {
            Seq::empty()
        }
    }
}

/// Every configuration of `s`: one per pair position in `0 .. s.len() - 2`
/// that yields an identical pair and valid groups. A sequence whose length
/// is not two more than a multiple of three has none.
pub open spec fn decompositions_of(s: Seq<Tile>) -> Seq<(Seq<Seq<Tile>>, Seq<Tile>)> {
    if s.len() >= 2 && (s.len() - 2) % 3 == 0 {
        configs_upto(s, s.len() - 2)
    } else {
        Seq::empty()
    }
}

/// Every configuration the search emits comes from some valid pair
/// position.
proof fn lemma_configs_upto_elements(s: Seq<Tile>, i: int, k: int)
    requires
        0 <= k < configs_upto(s, i).len(),
    ensures
        exists|j: int|
            0 <= j < i && valid_at(s, j) && configs_upto(s, i)[k] == config_model_at(s, j),
    decreases i,
{
    if i <= 0 {
    } else if k < configs_upto(s, i - 1).len() {
        lemma_configs_upto_elements(s, i - 1, k);
        let j = choose|j: int|
            0 <= j < i - 1 && valid_at(s, j) && configs_upto(s, i - 1)[k] == config_model_at(s, j);
        assert(0 <= j < i && valid_at(s, j) && configs_upto(s, i)[k] == config_model_at(s, j));
    } else {
        assert(valid_at(s, i - 1) && configs_upto(s, i)[k] == config_model_at(s, i - 1));
    }
}

/// Concatenating the three-tile chunks of `s` gives back `s`.
proof fn lemma_groups_of_flatten(s: Seq<Tile>)
    requires
        s.len() % 3 == 0,
    ensures
        groups_of(s).flatten() == s,
    decreases s.len(),
{
    if s.len() == 0 {
        assert(groups_of(s) =~= Seq::<Seq<Tile>>::empty());
        assert(groups_of(s).flatten() =~= s);
    } else {
        let head = s.subrange(0, 3);
        let tail = s.skip(3);
        assert(tail.len() % 3 == 0);
        lemma_groups_of_flatten(tail);
        assert forall|k: int| 0 <= k < groups_of(s).len() implies groups_of(s)[k] == (seq![head]
            + groups_of(tail))[k] by {
            if k > 0 {
                assert(groups_of(tail)[k - 1] == tail.subrange(3 * (k - 1), 3 * (k - 1) + 3));
                assert(tail.subrange(3 * (k - 1), 3 * (k - 1) + 3) =~= s.subrange(
                    3 * k,
                    3 * k + 3,
                ));
            }
        }
        assert(groups_of(s) =~= seq![head] + groups_of(tail));
        let c = seq![head] + groups_of(tail);
        assert(c.first() == head);
        assert(c.drop_first() =~= groups_of(tail));
        assert(c.flatten() == head + groups_of(tail).flatten());
        assert(head + tail =~= s);
    }
}

/// No tile is duplicated or dropped: for every configuration the
/// decomposer emits, the pair and the groups, flattened together, hold
/// exactly the tiles of the input multiset. Together with the decomposer's
/// contract -- its result is a function of the input sequence alone, so
/// re-running it on the same input yields the same configurations -- this
/// is the shape-preservation law of the decomposition.
pub proof fn lemma_decomposition_preserves_tiles(s: Seq<Tile>, k: int)
    requires
        0 <= k < decompositions_of(s).len(),
    ensures
        (decompositions_of(s)[k].1 + decompositions_of(s)[k].0.flatten()).to_multiset()
            == s.to_multiset(),
{
    broadcast use vstd::multiset::group_multiset_axioms;

    lemma_configs_upto_elements(s, s.len() - 2, k);
    let j = choose|j: int|
        0 <= j < s.len() - 2 && valid_at(s, j) && configs_upto(s, s.len() - 2)[k]
            == config_model_at(s, j);
    let rest = remove_pair_at(s, j);
    assert(rest.len() % 3 == 0);
    lemma_groups_of_flatten(rest);
    let pair = seq![s[j + 1], s[j]];
    let front = s.subrange(0, j);
    let mid = s.subrange(j, j + 2);
    let back = s.subrange(j + 2, s.len() as int);
    assert(s =~= front + mid + back);
    vstd::seq_lib::lemma_multiset_commutative(front + mid, back);
    vstd::seq_lib::lemma_multiset_commutative(front, mid);
    vstd::seq_lib::lemma_multiset_commutative(pair, rest);
    vstd::seq_lib::lemma_multiset_commutative(front, back);
    assert(pair =~= mid);
    assert((pair + rest).to_multiset() =~= s.to_multiset());
}

/// Whether the three tiles form a valid group, computed executably.
fn is_valid_group_exec(a: Tile, b: Tile, c: Tile) -> (r: bool)
    ensures
        r == is_valid_group(a, b, c),
{
    if a == b && b == c {
        return true;
    }
    match (a, b, c) {
        (
            Tile::Simple(Simple::Man(x)),
            Tile::Simple(Simple::Man(y)),
            Tile::Simple(Simple::Man(z)),
        ) => y >= 1 && x == y - 1 && z >= 1 && y == z - 1,
        (
            Tile::Simple(Simple::Pin(x)),
            Tile::Simple(Simple::Pin(y)),
            Tile::Simple(Simple::Pin(z)),
        ) => y >= 1 && x == y - 1 && z >= 1 && y == z - 1,
        (
            Tile::Simple(Simple::Sou(x)),
            Tile::Simple(Simple::Sou(y)),
            Tile::Simple(Simple::Sou(z)),
        ) => y >= 1 && x == y - 1 && z >= 1 && y == z - 1,
        _ => false,
    }
}

/// The tiles of `tiles` with positions `index` and `index + 1` removed.
fn build_rest(tiles: &Vec<Tile>, index: usize) -> (r: Vec<Tile>)
    requires
        index + 2 <= tiles@.len(),
    ensures
        r@ == remove_pair_at(tiles@, index as int),
{
    let mut rest: Vec<Tile> = Vec::new();
    let mut i: usize = 0;
    while i < index
        invariant
            i <= index,
            index + 2 <= tiles@.len(),
            rest@ == tiles@.subrange(0, i as int),
        decreases index - i,
    {
        rest.push(tiles[i]);
        proof {
            assert(rest@ =~= tiles@.subrange(0, i as int + 1));
        }
        i += 1;
    }
    let tlen = tiles.len();
    let mut i2: usize = index + 2;
    while i2 < tlen
        invariant
            tlen == tiles@.len(),
            index + 2 <= i2 <= tiles@.len(),
            rest@ == tiles@.subrange(0, index as int) + tiles@.subrange(
                index as int + 2,
                i2 as int,
            ),
        decreases tiles@.len() - i2,
    {
        rest.push(tiles[i2]);
        proof {
            assert(rest@ =~= tiles@.subrange(0, index as int) + tiles@.subrange(
                index as int + 2,
                i2 as int + 1,
            ));
        }
        i2 += 1;
    }
    rest
}

/// Whether every consecutive three-tile chunk of `rest` is a valid group.
fn groups_all_valid(rest: &Vec<Tile>) -> (r: bool)
    requires
        rest@.len() % 3 == 0,
    ensures
        r == all_groups_valid(rest@),
{
    let rlen = rest.len();
    let m = rlen / 3;
    let mut k: usize = 0;
    let mut ok = true;
    while k < m
        invariant
            k <= m,
            rlen == rest@.len(),
            m == rest@.len() / 3,
            3 * m == rlen,
            ok ==> forall|k2: int|
                0 <= k2 < k ==> #[trigger] is_valid_group(
                    rest@[3 * k2],
                    rest@[3 * k2 + 1],
                    rest@[3 * k2 + 2],
                ),
            !ok ==> !all_groups_valid(rest@),
        decreases m - k,
    {
        let a = rest[3 * k];
        let b = rest[3 * k + 1];
        let c = rest[3 * k + 2];
        if !is_valid_group_exec(a, b, c) {
            proof {
                assert(!is_valid_group(rest@[3 * k as int], rest@[3 * k as int + 1], rest@[3 * k
                    as int + 2]));
            }
            ok = false;
        }
        k += 1;
    }
    ok
}

/// The consecutive three-tile chunks of `rest`, as vectors.
fn build_groups(rest: &Vec<Tile>) -> (r: Vec<Vec<Tile>>)
    requires
        rest@.len() % 3 == 0,
    ensures
        group_views(r@) == groups_of(rest@),
{
    let rlen = rest.len();
    let m = rlen / 3;
    let mut groups: Vec<Vec<Tile>> = Vec::new();
    let mut k: usize = 0;
    while k < m
        invariant
            k <= m,
            rlen == rest@.len(),
            m == rest@.len() / 3,
            3 * m == rlen,
            groups@.len() == k,
            forall|k2: int|
                0 <= k2 < k ==> #[trigger] groups@[k2]@ == rest@.subrange(3 * k2, 3 * k2 + 3),
        decreases m - k,
    {
        let mut g: Vec<Tile> = Vec::new();
        g.push(rest[3 * k]);
        g.push(rest[3 * k + 1]);
        g.push(rest[3 * k + 2]);
        proof {
            assert(g@ =~= rest@.subrange(3 * k as int, 3 * k as int + 3));
        }
        groups.push(g);
        k += 1;
    }
    proof {
        assert(group_views(groups@) =~= groups_of(rest@));
    }
    groups
}

/// Enumerates every configuration of the given (sorted) tiles: one per pair
/// position whose two tiles are identical and whose remaining tiles chunk
/// into valid groups. Configurations are not deduplicated; callers must
/// tolerate zero, one or many results.
pub fn decompose(tiles: &Vec<Tile>) -> (r: Vec<HandConfiguration>)
    ensures
        config_views(r@) == decompositions_of(tiles@),
{
    let n = tiles.len();
    let mut configs: Vec<HandConfiguration> = Vec::new();
    if n < 2 || (n - 2) % 3 != 0 {
        proof {
            assert(config_views(configs@) =~= decompositions_of(tiles@));
        }
        return configs;
    }
    let mut index: usize = 0;
    while index < n - 2
        invariant
            index <= n - 2,
            n == tiles@.len(),
            2 <= n,
            (n - 2) % 3 == 0,
            config_views(configs@) == configs_upto(tiles@, index as int),
        decreases n - index,
    {
        let ghost s = tiles@;
        let ghost prev_views = config_views(configs@);
        if tiles[index] == tiles[index + 1] {
            let rest = build_rest(tiles, index);
            proof {
                assert(rest@.len() % 3 == 0);
            }
            if groups_all_valid(&rest) {
                let triplets = build_groups(&rest);
                let mut pair: Vec<Tile> = Vec::new();
                pair.push(tiles[index + 1]);
                pair.push(tiles[index]);
                let configuration = HandConfiguration { triplets, pair };
                proof {
                    assert(configuration.pair@ =~= seq![s[index as int + 1], s[index as int]]);
                    assert(valid_at(s, index as int));
                    assert(configuration@ == config_model_at(s, index as int));
                }
                configs.push(configuration);
                proof {
                    assert(config_views(configs@) =~= prev_views + seq![
                        config_model_at(s, index as int),
                    ]);
                }
            } else {
                proof {
                    assert(!valid_at(s, index as int));
                    assert(config_views(configs@) =~= prev_views + Seq::empty());
                }
            }
        } else {
            proof {
                assert(!valid_at(s, index as int));
                assert(config_views(configs@) =~= prev_views + Seq::empty());
            }
        }
        index += 1;
        proof {
            assert(config_views(configs@) == configs_upto(s, index as int));
        }
    }
    configs
}

} // verus!
