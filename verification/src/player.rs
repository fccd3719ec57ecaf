//! The yaku evaluator: a player's hand and table context, and the
//! evaluation of which yaku the hand satisfies.
//!
//! The checks implemented by this core are the wind-triplet check, the
//! dragon-triplet check, the seven-pairs check and the riichi bonus; the
//! hand decomposer is invoked as supporting infrastructure for
//! shape-dependent extensions. A wind that is both prevalent and seat wind
//! scores as prevalent wind only.

use vstd::prelude::*;
use crate::decompose::decompose;
use crate::sorting::sort_tiles;
use crate::tile::Dragon;
use crate::tile::Tile;
use crate::tile::Wind;
use crate::yaku::Yaku;

verus! {

/// A player's hand and table context. The hand is the ordered collection
/// of concealed tiles; `dealt_in` holds tiles exposed through calls (their
/// presence makes the hand open); `discarded` and `kan` are retained
/// context, of which only `kan` affects evaluation (a declared quad
/// invalidates seven pairs); `riichi` records a declared ready-hand bet.
#[derive(Clone)]
pub struct Player {
    pub seat: Wind,
    pub hand: Vec<Tile>,
    pub dealt_in: Vec<Tile>,
    pub discarded: Vec<Tile>,
    pub kan: Vec<Tile>,
    pub riichi: bool,
}

/// How many tiles of `s` equal `t`.
pub open spec fn count_tile(s: Seq<Tile>, t: Tile) -> nat
    decreases s.len(),
{
    if s.len() == 0 {
        0
    } else {
        (if s[0] == t {
            1nat
        } else {
            0nat
        }) + count_tile(s.drop_first(), t)
    }
}

/// How many tiles of `s` are wind tiles.
pub open spec fn count_winds(s: Seq<Tile>) -> nat
    decreases s.len(),
{
    if s.len() == 0 {
        0
    } else {
        (if s[0] is Wind {
            1nat
        } else {
            0nat
        }) + count_winds(s.drop_first())
    }
}

/// How many tiles of `s` are dragon tiles.
pub open spec fn count_dragons(s: Seq<Tile>) -> nat
    decreases s.len(),
{
    if s.len() == 0 {
        0
    } else {
        (if s[0] is Dragon {
            1nat
        } else {
            0nat
        }) + count_dragons(s.drop_first())
    }
}

/// Counting one wind value never exceeds counting all wind tiles.
pub proof fn lemma_count_wind_le_total(s: Seq<Tile>, w: Wind)
    ensures
        count_tile(s, Tile::Wind(w)) <= count_winds(s),
    decreases s.len(),
{
    if s.len() > 0 {
        lemma_count_wind_le_total(s.drop_first(), w);
    }
}

/// Counting one dragon value never exceeds counting all dragon tiles.
pub proof fn lemma_count_dragon_le_total(s: Seq<Tile>, d: Dragon)
    ensures
        count_tile(s, Tile::Dragon(d)) <= count_dragons(s),
    decreases s.len(),
{
    if s.len() > 0 {
        lemma_count_dragon_le_total(s.drop_first(), d);
    }
}

/// What the wind check emits for one wind value: with at least three
/// copies of that wind in the concealed hand, the prevalent wind scores as
/// prevalent wind, else the seat wind scores as seat wind. Prevalent wins
/// over seat when both match: that is the tie-break.
pub open spec fn wind_yaku_at(hand: Seq<Tile>, seat: Wind, prevalent: Wind, w: Wind) -> Seq<
    Yaku,
> {
    if count_tile(hand, Tile::Wind(w)) >= 3 {
        if w == prevalent {
            seq![Yaku::PrevalentWind(w)]
        } else if w == seat {
            seq![Yaku::SeatWind(w)]
        } else {
            Seq::empty()
        }
    } else {
        Seq::empty()
    }
}

/// The wind-triplet check over the concealed hand: if the hand holds at
/// least three wind tiles in total, each wind value is checked in the
/// fixed East, North, South, West order.
pub open spec fn wind_yakus(hand: Seq<Tile>, seat: Wind, prevalent: Wind) -> Seq<Yaku> {
    if count_winds(hand) >= 3 {
        wind_yaku_at(hand, seat, prevalent, Wind::East) + wind_yaku_at(
            hand,
            seat,
            prevalent,
            Wind::North,
        ) + wind_yaku_at(hand, seat, prevalent, Wind::South) + wind_yaku_at(
            hand,
            seat,
            prevalent,
            Wind::West,
        )
    } else {
        Seq::empty()
    }
}

/// What the dragon check emits for one dragon value: at least three copies
/// in the concealed hand score that dragon.
pub open spec fn dragon_yaku_at(hand: Seq<Tile>, d: Dragon) -> Seq<Yaku> {
    if count_tile(hand, Tile::Dragon(d)) >= 3 {
        seq![Yaku::Dragons(d)]
    } else {
        Seq::empty()
    }
}

/// The dragon-triplet check over the concealed hand, each dragon value
/// checked independently in Green, Red, White order.
pub open spec fn dragon_yakus(hand: Seq<Tile>) -> Seq<Yaku> {
    dragon_yaku_at(hand, Dragon::Green) + dragon_yaku_at(hand, Dragon::Red) + dragon_yaku_at(
        hand,
        Dragon::White,
    )
}

/// The seven-pairs shape over the concealed hand in its given order: the
/// consecutive two-tile chunks are each a pair of identical real tiles,
/// and no two chunks share the same pair value.
pub open spec fn seven_pairs(hand: Seq<Tile>) -> bool {
    &&& hand.len() >= 2
    &&& hand.len() % 2 == 0
    &&& forall|k: int|
        0 <= k < hand.len() / 2 ==> (#[trigger] hand[2 * k] == hand[2 * k + 1] && hand[2 * k]
            != Tile::Blank)
    &&& forall|j: int, k: int|
        0 <= j < k < hand.len() / 2 ==> #[trigger] hand[2 * j] != #[trigger] hand[2 * k]
}

/// The seven-pairs check: the hand has the seven-pairs shape and no quad
/// was declared (a declared quad invalidates this yaku).
pub open spec fn seven_pairs_yakus(hand: Seq<Tile>, kan: Seq<Tile>) -> Seq<Yaku> {
    if kan.len() == 0 && seven_pairs(hand) {
        seq![Yaku::SevenPairs]
    } else {
        Seq::empty()
    }
}

/// Every yaku the checks emit before the riichi bonus, in check order:
/// winds, dragons, seven pairs.
pub open spec fn base_yakus(hand: Seq<Tile>, seat: Wind, prevalent: Wind, kan: Seq<Tile>) -> Seq<
    Yaku,
> {
    wind_yakus(hand, seat, prevalent) + dragon_yakus(hand) + seven_pairs_yakus(hand, kan)
}

/// The full evaluation result: the base yaku, followed by the riichi bonus
/// when riichi was declared and at least one other yaku was found. Riichi
/// alone does not qualify.
pub open spec fn evaluated_yakus(
    hand: Seq<Tile>,
    seat: Wind,
    prevalent: Wind,
    kan: Seq<Tile>,
    riichi: bool,
) -> Seq<Yaku> {
    let base = base_yakus(hand, seat, prevalent, kan);
    if riichi && base.len() > 0 {
        base.push(Yaku::Riichi)
    } else {
        base
    }
}

/// How many tiles of `tiles` equal `t`, computed executably.
fn count_tile_exec(tiles: &Vec<Tile>, t: Tile) -> (r: usize)
    ensures
        r == count_tile(tiles@, t),
{
    let n = tiles.len();
    let mut count: usize = 0;
    let mut i: usize = 0;
    while i < n
        invariant
            i <= n,
            n == tiles@.len(),
            count == count_tile(tiles@.take(i as int), t),
            count <= i,
        decreases n - i,
    {
        proof {
            lemma_count_tile_push(tiles@.take(i as int), tiles@[i as int], t);
            assert(tiles@.take(i as int).push(tiles@[i as int]) =~= tiles@.take(i as int + 1));
        }
        if tiles[i] == t {
            count += 1;
        }
        i += 1;
    }
    proof {
        assert(tiles@.take(n as int) =~= tiles@);
    }
    count
}

/// How many tiles of `tiles` are wind tiles, computed executably.
fn count_winds_exec(tiles: &Vec<Tile>) -> (r: usize)
    ensures
        r == count_winds(tiles@),
{
    let n = tiles.len();
    let mut count: usize = 0;
    let mut i: usize = 0;
    while i < n
        invariant
            i <= n,
            n == tiles@.len(),
            count == count_winds(tiles@.take(i as int)),
            count <= i,
        decreases n - i,
    {
        proof {
            lemma_count_winds_push(tiles@.take(i as int), tiles@[i as int]);
            assert(tiles@.take(i as int).push(tiles@[i as int]) =~= tiles@.take(i as int + 1));
        }
        let is_wind = match tiles[i] {
            Tile::Wind(_) => true,
            _ => false,
        };
        if is_wind {
            count += 1;
        }
        i += 1;
    }
    proof {
        assert(tiles@.take(n as int) =~= tiles@);
    }
    count
}

/// How many tiles of `tiles` are dragon tiles, computed executably.
fn count_dragons_exec(tiles: &Vec<Tile>) -> (r: usize)
    ensures
        r == count_dragons(tiles@),
    decreases tiles@.len(),
{
    let n = tiles.len();
    let mut count: usize = 0;
    let mut i: usize = 0;
    while i < n
        invariant
            i <= n,
            n == tiles@.len(),
            count == count_dragons(tiles@.take(i as int)),
            count <= i,
        decreases n - i,
    {
        proof {
            lemma_count_dragons_push(tiles@.take(i as int), tiles@[i as int]);
            assert(tiles@.take(i as int).push(tiles@[i as int]) =~= tiles@.take(i as int + 1));
        }
        let is_dragon = match tiles[i] {
            Tile::Dragon(_) => true,
            _ => false,
        };
        if is_dragon {
            count += 1;
        }
        i += 1;
    }
    proof {
        assert(tiles@.take(n as int) =~= tiles@);
    }
    count
}

/// Appending one tile adds one to its count and leaves other counts as
/// they were.
proof fn lemma_count_tile_push(s: Seq<Tile>, x: Tile, t: Tile)
    ensures
        count_tile(s.push(x), t) == count_tile(s, t) + (if x == t {
            1nat
        } else {
            0nat
        }),
    decreases s.len(),
{
    if s.len() == 0 {
        assert(s.push(x).drop_first() =~= Seq::<Tile>::empty());
        assert(s.push(x).len() == 1);
        assert(s.push(x)[0] == x);
        assert(count_tile(Seq::<Tile>::empty(), t) == 0);
        assert(count_tile(s.push(x), t) == (if x == t {
            1nat
        } else {
            0nat
        }) + count_tile(s.push(x).drop_first(), t));
        assert(count_tile(s, t) == 0);
    } else {
        lemma_count_tile_push(s.drop_first(), x, t);
        assert(s.push(x).drop_first() =~= s.drop_first().push(x));
        assert(s.push(x)[0] == s[0]);
        assert(count_tile(s.push(x), t) == (if s[0] == t {
            1nat
        } else {
            0nat
        }) + count_tile(s.push(x).drop_first(), t));
        assert(count_tile(s, t) == (if s[0] == t {
            1nat
        } else {
            0nat
        }) + count_tile(s.drop_first(), t));
    }
}

/// Appending one tile adds to the wind count exactly when it is a wind.
proof fn lemma_count_winds_push(s: Seq<Tile>, x: Tile)
    ensures
        count_winds(s.push(x)) == count_winds(s) + (if x is Wind {
            1nat
        } else {
            0nat
        }),
    decreases s.len(),
{
    if s.len() == 0 {
        assert(s.push(x).drop_first() =~= Seq::<Tile>::empty());
        assert(s.push(x)[0] == x);
        assert(count_winds(Seq::<Tile>::empty()) == 0);
        assert(count_winds(s.push(x)) == (if x is Wind {
            1nat
        } else {
            0nat
        }) + count_winds(s.push(x).drop_first()));
        assert(count_winds(s) == 0);
    } else {
        lemma_count_winds_push(s.drop_first(), x);
        assert(s.push(x).drop_first() =~= s.drop_first().push(x));
        assert(s.push(x)[0] == s[0]);
        assert(count_winds(s.push(x)) == (if s[0] is Wind {
            1nat
        } else {
            0nat
        }) + count_winds(s.push(x).drop_first()));
        assert(count_winds(s) == (if s[0] is Wind {
            1nat
        } else {
            0nat
        }) + count_winds(s.drop_first()));
    }
}

/// Appending one tile adds to the dragon count exactly when it is a
/// dragon.
proof fn lemma_count_dragons_push(s: Seq<Tile>, x: Tile)
    ensures
        count_dragons(s.push(x)) == count_dragons(s) + (if x is Dragon {
            1nat
        } else {
            0nat
        }),
    decreases s.len(),
{
    if s.len() == 0 {
        assert(s.push(x).drop_first() =~= Seq::<Tile>::empty());
        assert(s.push(x)[0] == x);
        assert(count_dragons(Seq::<Tile>::empty()) == 0);
        assert(count_dragons(s.push(x)) == (if x is Dragon {
            1nat
        } else {
            0nat
        }) + count_dragons(s.push(x).drop_first()));
        assert(count_dragons(s) == 0);
    } else {
        lemma_count_dragons_push(s.drop_first(), x);
        assert(s.push(x).drop_first() =~= s.drop_first().push(x));
        assert(s.push(x)[0] == s[0]);
        assert(count_dragons(s.push(x)) == (if s[0] is Dragon {
            1nat
        } else {
            0nat
        }) + count_dragons(s.push(x).drop_first()));
        assert(count_dragons(s) == (if s[0] is Dragon {
            1nat
        } else {
            0nat
        }) + count_dragons(s.drop_first()));
    }
}

/// The wind-triplet check, computed executably over the concealed hand.
fn wind_yakus_exec(hand: &Vec<Tile>, seat: Wind, prevalent: Wind) -> (r: Vec<Yaku>)
    ensures
        r@ == wind_yakus(hand@, seat, prevalent),
{
    let mut r: Vec<Yaku> = Vec::new();
    let total = count_winds_exec(hand);
    if total >= 3 {
        if count_tile_exec(hand, Tile::Wind(Wind::East)) >= 3 {
            if matches!(prevalent, Wind::East) {
                r.push(Yaku::PrevalentWind(Wind::East));
            } else if matches!(seat, Wind::East) {
                r.push(Yaku::SeatWind(Wind::East));
            }
        }
        proof {
            assert(r@ =~= wind_yaku_at(hand@, seat, prevalent, Wind::East));
        }
        if count_tile_exec(hand, Tile::Wind(Wind::North)) >= 3 {
            if matches!(prevalent, Wind::North) {
                r.push(Yaku::PrevalentWind(Wind::North));
            } else if matches!(seat, Wind::North) {
                r.push(Yaku::SeatWind(Wind::North));
            }
        }
        proof {
            assert(r@ =~= wind_yaku_at(hand@, seat, prevalent, Wind::East) + wind_yaku_at(
                hand@,
                seat,
                prevalent,
                Wind::North,
            ));
        }
        if count_tile_exec(hand, Tile::Wind(Wind::South)) >= 3 {
            if matches!(prevalent, Wind::South) {
                r.push(Yaku::PrevalentWind(Wind::South));
            } else if matches!(seat, Wind::South) {
                r.push(Yaku::SeatWind(Wind::South));
            }
        }
        proof {
            assert(r@ =~= wind_yaku_at(hand@, seat, prevalent, Wind::East) + wind_yaku_at(
                hand@,
                seat,
                prevalent,
                Wind::North,
            ) + wind_yaku_at(hand@, seat, prevalent, Wind::South));
        }
        if count_tile_exec(hand, Tile::Wind(Wind::West)) >= 3 {
            if matches!(prevalent, Wind::West) {
                r.push(Yaku::PrevalentWind(Wind::West));
            } else if matches!(seat, Wind::West) {
                r.push(Yaku::SeatWind(Wind::West));
            }
        }
        proof {
            assert(r@ =~= wind_yakus(hand@, seat, prevalent));
        }
    }
    r
}

/// The dragon-triplet check, computed executably over the concealed hand.
/// At least three dragon tiles in total are needed before any single
/// dragon can reach three copies, so the total is tested first.
fn dragon_yakus_exec(hand: &Vec<Tile>) -> (r: Vec<Yaku>)
    ensures
        r@ == dragon_yakus(hand@),
{
    let mut r: Vec<Yaku> = Vec::new();
    let total = count_dragons_exec(hand);
    if total < 3 {
        proof {
            lemma_count_dragon_le_total(hand@, Dragon::Green);
            lemma_count_dragon_le_total(hand@, Dragon::Red);
            lemma_count_dragon_le_total(hand@, Dragon::White);
            assert(r@ =~= dragon_yakus(hand@));
        }
        return r;
    }
    if count_tile_exec(hand, Tile::Dragon(Dragon::Green)) >= 3 {
        r.push(Yaku::Dragons(Dragon::Green));
    }
    proof {
        assert(r@ =~= dragon_yaku_at(hand@, Dragon::Green));
    }
    if count_tile_exec(hand, Tile::Dragon(Dragon::Red)) >= 3 {
        r.push(Yaku::Dragons(Dragon::Red));
    }
    proof {
        assert(r@ =~= dragon_yaku_at(hand@, Dragon::Green) + dragon_yaku_at(hand@, Dragon::Red));
    }
    if count_tile_exec(hand, Tile::Dragon(Dragon::White)) >= 3 {
        r.push(Yaku::Dragons(Dragon::White));
    }
    proof {
        assert(r@ =~= dragon_yakus(hand@));
    }
    r
}

/// The seven-pairs shape check, computed executably over the concealed
/// hand in its given order.
fn seven_pairs_exec(hand: &Vec<Tile>) -> (r: bool)
    ensures
        r == seven_pairs(hand@),
{
    let n = hand.len();
    if n < 2 || n % 2 != 0 {
        return false;
    }
    let m = n / 2;
    let mut k: usize = 0;
    while k < m
        invariant
            k <= m,
            n == hand@.len(),
            m == n / 2,
            2 * m == n,
            forall|k2: int|
                0 <= k2 < k ==> (#[trigger] hand@[2 * k2] == hand@[2 * k2 + 1] && hand@[2 * k2]
                    != Tile::Blank),
            forall|j: int, k2: int|
                0 <= j < k2 < k ==> #[trigger] hand@[2 * j] != #[trigger] hand@[2 * k2],
        decreases m - k,
    {
        let a = hand[2 * k];
        let b = hand[2 * k + 1];
        if !(a == b) || matches!(a, Tile::Blank) {
            return false;
        }
        let mut j: usize = 0;
        while j < k
            invariant
                j <= k < m,
                n == hand@.len(),
                m == n / 2,
                2 * m == n,
                a == hand@[2 * k as int],
                forall|j2: int| 0 <= j2 < j ==> #[trigger] hand@[2 * j2] != hand@[2 * k as int],
            decreases k - j,
        {
            if hand[2 * j] == a {
                proof {
                    assert(hand@[2 * j as int] == hand@[2 * k as int]);
                }
                return false;
            }
            j += 1;
        }
        k += 1;
    }
    true
}

/// Membership in a concatenation is membership in either part.
proof fn lemma_yaku_concat_contains(a: Seq<Yaku>, b: Seq<Yaku>, y: Yaku)
    ensures
        (a + b).contains(y) <==> a.contains(y) || b.contains(y),
{
    if a.contains(y) {
        let i = choose|i: int| 0 <= i < a.len() && a[i] == y;
        assert((a + b)[i] == y);
    }
    if b.contains(y) {
        let i = choose|i: int| 0 <= i < b.len() && b[i] == y;
        assert((a + b)[a.len() + i] == y);
    }
    if (a + b).contains(y) {
        let i = choose|i: int| 0 <= i < (a + b).len() && (a + b)[i] == y;
        if i < a.len() {
            assert(a[i] == y);
        } else {
            assert(b[i - a.len()] == y);
        }
    }
}

/// Membership after a push is membership before, or the pushed element.
proof fn lemma_yaku_push_contains(a: Seq<Yaku>, x: Yaku, y: Yaku)
    ensures
        a.push(x).contains(y) <==> a.contains(y) || x == y,
{
    assert(a.push(x)[a.len() as int] == x);
    if a.contains(y) {
        let i = choose|i: int| 0 <= i < a.len() && a[i] == y;
        assert(a.push(x)[i] == y);
    }
    if a.push(x).contains(y) {
        let i = choose|i: int| 0 <= i < a.push(x).len() && a.push(x)[i] == y;
        if i < a.len() {
            assert(a[i] == y);
        }
    }
}

/// What the wind check's piece for one wind value contains.
proof fn lemma_wind_piece_contains(hand: Seq<Tile>, seat: Wind, prevalent: Wind, w: Wind, y: Yaku)
    ensures
        wind_yaku_at(hand, seat, prevalent, w).contains(y) <==> (count_tile(hand, Tile::Wind(w))
            >= 3 && ((w == prevalent && y == Yaku::PrevalentWind(w)) || (w != prevalent && w
            == seat && y == Yaku::SeatWind(w)))),
{
    let p = wind_yaku_at(hand, seat, prevalent, w);
    if count_tile(hand, Tile::Wind(w)) >= 3 {
        if w == prevalent {
            assert(p[0] == Yaku::PrevalentWind(w));
        } else if w == seat {
            assert(p[0] == Yaku::SeatWind(w));
        }
    }
    if p.contains(y) {
        let i = choose|i: int| 0 <= i < p.len() && p[i] == y;
        assert(i == 0);
        assert(y == p[0]);
    }
}

/// What the dragon check's piece for one dragon value contains.
proof fn lemma_dragon_piece_contains(hand: Seq<Tile>, d: Dragon, y: Yaku)
    ensures
        dragon_yaku_at(hand, d).contains(y) <==> (count_tile(hand, Tile::Dragon(d)) >= 3 && y
            == Yaku::Dragons(d)),
{
    let p = dragon_yaku_at(hand, d);
    if count_tile(hand, Tile::Dragon(d)) >= 3 {
        assert(p[0] == Yaku::Dragons(d));
    }
    if p.contains(y) {
        let i = choose|i: int| 0 <= i < p.len() && p[i] == y;
        assert(i == 0);
        assert(y == p[0]);
    }
}

/// Membership in the full evaluation result, element by element: the
/// scaffold behind the public membership laws.
proof fn lemma_evaluated_contains(
    hand: Seq<Tile>,
    seat: Wind,
    prevalent: Wind,
    kan: Seq<Tile>,
    riichi: bool,
    y: Yaku,
)
    ensures
        evaluated_yakus(hand, seat, prevalent, kan, riichi).contains(y) <==> {
            ||| (count_winds(hand) >= 3 && (wind_yaku_at(hand, seat, prevalent, Wind::East).contains(
                y,
            ) || wind_yaku_at(hand, seat, prevalent, Wind::North).contains(y) || wind_yaku_at(
                hand,
                seat,
                prevalent,
                Wind::South,
            ).contains(y) || wind_yaku_at(hand, seat, prevalent, Wind::West).contains(y)))
            ||| dragon_yaku_at(hand, Dragon::Green).contains(y)
            ||| dragon_yaku_at(hand, Dragon::Red).contains(y)
            ||| dragon_yaku_at(hand, Dragon::White).contains(y)
            ||| (kan.len() == 0 && seven_pairs(hand) && y == Yaku::SevenPairs)
            ||| (riichi && base_yakus(hand, seat, prevalent, kan).len() > 0 && y == Yaku::Riichi)
        },
{
    let we = wind_yaku_at(hand, seat, prevalent, Wind::East);
    let wn = wind_yaku_at(hand, seat, prevalent, Wind::North);
    let ws = wind_yaku_at(hand, seat, prevalent, Wind::South);
    let ww = wind_yaku_at(hand, seat, prevalent, Wind::West);
    let wy = wind_yakus(hand, seat, prevalent);
    let dg = dragon_yakus(hand);
    let sp = seven_pairs_yakus(hand, kan);
    let base = base_yakus(hand, seat, prevalent, kan);
    if count_winds(hand) >= 3 {
        lemma_yaku_concat_contains(we, wn, y);
        lemma_yaku_concat_contains(we + wn, ws, y);
        lemma_yaku_concat_contains(we + wn + ws, ww, y);
    }
    lemma_yaku_concat_contains(dragon_yaku_at(hand, Dragon::Green), dragon_yaku_at(
        hand,
        Dragon::Red,
    ), y);
    lemma_yaku_concat_contains(dragon_yaku_at(hand, Dragon::Green) + dragon_yaku_at(
        hand,
        Dragon::Red,
    ), dragon_yaku_at(hand, Dragon::White), y);
    lemma_yaku_concat_contains(wy, dg, y);
    lemma_yaku_concat_contains(wy + dg, sp, y);
    if sp.len() > 0 {
        assert(sp[0] == Yaku::SevenPairs);
    }
    if riichi && base.len() > 0 {
        lemma_yaku_push_contains(base, Yaku::Riichi, y);
    }
}

/// A dragon scores exactly when the concealed hand holds at least three
/// copies of it; each dragon kind is judged independently of the others
/// and of the rest of the context.
pub proof fn lemma_dragons_scored_iff(
    hand: Seq<Tile>,
    seat: Wind,
    prevalent: Wind,
    kan: Seq<Tile>,
    riichi: bool,
    d: Dragon,
)
    ensures
        evaluated_yakus(hand, seat, prevalent, kan, riichi).contains(Yaku::Dragons(d)) <==> (
        count_tile(hand, Tile::Dragon(d)) >= 3),
{
    let y = Yaku::Dragons(d);
    lemma_evaluated_contains(hand, seat, prevalent, kan, riichi, y);
    lemma_wind_piece_contains(hand, seat, prevalent, Wind::East, y);
    lemma_wind_piece_contains(hand, seat, prevalent, Wind::North, y);
    lemma_wind_piece_contains(hand, seat, prevalent, Wind::South, y);
    lemma_wind_piece_contains(hand, seat, prevalent, Wind::West, y);
    lemma_dragon_piece_contains(hand, Dragon::Green, y);
    lemma_dragon_piece_contains(hand, Dragon::Red, y);
    lemma_dragon_piece_contains(hand, Dragon::White, y);
}

/// The prevalent wind scores exactly when the concealed hand holds at
/// least three copies of it and it is the prevalent wind.
pub proof fn lemma_prevalent_wind_scored_iff(
    hand: Seq<Tile>,
    seat: Wind,
    prevalent: Wind,
    kan: Seq<Tile>,
    riichi: bool,
    w: Wind,
)
    ensures
        evaluated_yakus(hand, seat, prevalent, kan, riichi).contains(Yaku::PrevalentWind(w)) <==> (
        count_tile(hand, Tile::Wind(w)) >= 3 && w == prevalent),
{
    let y = Yaku::PrevalentWind(w);
    lemma_count_wind_le_total(hand, w);
    lemma_evaluated_contains(hand, seat, prevalent, kan, riichi, y);
    lemma_wind_piece_contains(hand, seat, prevalent, Wind::East, y);
    lemma_wind_piece_contains(hand, seat, prevalent, Wind::North, y);
    lemma_wind_piece_contains(hand, seat, prevalent, Wind::South, y);
    lemma_wind_piece_contains(hand, seat, prevalent, Wind::West, y);
    lemma_dragon_piece_contains(hand, Dragon::Green, y);
    lemma_dragon_piece_contains(hand, Dragon::Red, y);
    lemma_dragon_piece_contains(hand, Dragon::White, y);
}

/// The seat wind scores exactly when the concealed hand holds at least
/// three copies of it, it is the seat wind, and it is not the prevalent
/// wind: when seat and prevalent coincide, the prevalent wind wins the
/// tie-break and the seat wind is not emitted.
pub proof fn lemma_seat_wind_scored_iff(
    hand: Seq<Tile>,
    seat: Wind,
    prevalent: Wind,
    kan: Seq<Tile>,
    riichi: bool,
    w: Wind,
)
    ensures
        evaluated_yakus(hand, seat, prevalent, kan, riichi).contains(Yaku::SeatWind(w)) <==> (
        count_tile(hand, Tile::Wind(w)) >= 3 && w == seat && w != prevalent),
{
    let y = Yaku::SeatWind(w);
    lemma_count_wind_le_total(hand, w);
    lemma_evaluated_contains(hand, seat, prevalent, kan, riichi, y);
    lemma_wind_piece_contains(hand, seat, prevalent, Wind::East, y);
    lemma_wind_piece_contains(hand, seat, prevalent, Wind::North, y);
    lemma_wind_piece_contains(hand, seat, prevalent, Wind::South, y);
    lemma_wind_piece_contains(hand, seat, prevalent, Wind::West, y);
    lemma_dragon_piece_contains(hand, Dragon::Green, y);
    lemma_dragon_piece_contains(hand, Dragon::Red, y);
    lemma_dragon_piece_contains(hand, Dragon::White, y);
}

/// Seven pairs scores exactly when the concealed hand has the seven-pairs
/// shape and no quad was declared.
pub proof fn lemma_seven_pairs_scored_iff(
    hand: Seq<Tile>,
    seat: Wind,
    prevalent: Wind,
    kan: Seq<Tile>,
    riichi: bool,
)
    ensures
        evaluated_yakus(hand, seat, prevalent, kan, riichi).contains(Yaku::SevenPairs) <==> (
        kan.len() == 0 && seven_pairs(hand)),
{
    let y = Yaku::SevenPairs;
    lemma_evaluated_contains(hand, seat, prevalent, kan, riichi, y);
    lemma_wind_piece_contains(hand, seat, prevalent, Wind::East, y);
    lemma_wind_piece_contains(hand, seat, prevalent, Wind::North, y);
    lemma_wind_piece_contains(hand, seat, prevalent, Wind::South, y);
    lemma_wind_piece_contains(hand, seat, prevalent, Wind::West, y);
    lemma_dragon_piece_contains(hand, Dragon::Green, y);
    lemma_dragon_piece_contains(hand, Dragon::Red, y);
    lemma_dragon_piece_contains(hand, Dragon::White, y);
}

/// Riichi scores only beside another yaku: the result contains `Riichi`
/// exactly when riichi was declared and some other check found a yaku.
/// Riichi alone, with no other yaku, yields nothing; without the
/// declaration, `Riichi` never appears however the hand scores.
pub proof fn lemma_riichi_scored_iff(
    hand: Seq<Tile>,
    seat: Wind,
    prevalent: Wind,
    kan: Seq<Tile>,
    riichi: bool,
)
    ensures
        evaluated_yakus(hand, seat, prevalent, kan, riichi).contains(Yaku::Riichi) <==> (riichi
            && base_yakus(hand, seat, prevalent, kan).len() > 0),
{
    let y = Yaku::Riichi;
    lemma_evaluated_contains(hand, seat, prevalent, kan, riichi, y);
    lemma_wind_piece_contains(hand, seat, prevalent, Wind::East, y);
    lemma_wind_piece_contains(hand, seat, prevalent, Wind::North, y);
    lemma_wind_piece_contains(hand, seat, prevalent, Wind::South, y);
    lemma_wind_piece_contains(hand, seat, prevalent, Wind::West, y);
    lemma_dragon_piece_contains(hand, Dragon::Green, y);
    lemma_dragon_piece_contains(hand, Dragon::Red, y);
    lemma_dragon_piece_contains(hand, Dragon::White, y);
}

impl Player {
    /// Evaluates every yaku the hand and context satisfy. The checks run in
    /// a fixed order -- winds, dragons, seven pairs, then the riichi bonus
    /// -- and the result lists their findings in that order. The decomposer
    /// runs on the combined sorted concealed and exposed tiles; its
    /// configurations support shape-dependent extensions and feed no check
    /// of this core.
    pub fn evaluate_yakus(self, prevalent_wind: Wind) -> (r: Vec<Yaku>)
        ensures
            r@ == evaluated_yakus(self.hand@, self.seat, prevalent_wind, self.kan@, self.riichi),
    {
        let mut all_tiles: Vec<Tile> = Vec::new();
        let hn = self.hand.len();
        let mut i: usize = 0;
        while i < hn
            invariant
                i <= hn,
                hn == self.hand@.len(),
                all_tiles@ == self.hand@.take(i as int),
            decreases hn - i,
        {
            all_tiles.push(self.hand[i]);
            proof {
                assert(all_tiles@ =~= self.hand@.take(i as int + 1));
            }
            i += 1;
        }
        let dn = self.dealt_in.len();
        let mut i2: usize = 0;
        while i2 < dn
            invariant
                i2 <= dn,
                hn == self.hand@.len(),
                dn == self.dealt_in@.len(),
                all_tiles@ == self.hand@.take(hn as int) + self.dealt_in@.take(i2 as int),
            decreases dn - i2,
        {
            all_tiles.push(self.dealt_in[i2]);
            proof {
                assert(all_tiles@ =~= self.hand@.take(hn as int) + self.dealt_in@.take(
                    i2 as int + 1,
                ));
            }
            i2 += 1;
        }
        let all_sorted = sort_tiles(&all_tiles);
        let _configurations = decompose(&all_sorted);

        let mut yakus = wind_yakus_exec(&self.hand, self.seat, prevalent_wind);
        let mut dragons = dragon_yakus_exec(&self.hand);
        yakus.append(&mut dragons);
        let sp = self.kan.len() == 0 && seven_pairs_exec(&self.hand);
        if sp {
            yakus.push(Yaku::SevenPairs);
        }
        proof {
            assert(yakus@ =~= base_yakus(self.hand@, self.seat, prevalent_wind, self.kan@));
        }
        if self.riichi && yakus.len() > 0 {
            yakus.push(Yaku::Riichi);
        }
        yakus
    }

    /// Whether the hand is concealed (menzenchin): no tile has been
    /// exposed through a call.
    pub fn is_menzenchin(&self) -> (r: bool)
        ensures
            r == (self.dealt_in@.len() == 0),
    {
        self.dealt_in.len() == 0
    }
}

} // verus!
