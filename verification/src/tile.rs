//! The tile model: the closed set of playable tile values, the fixed total
//! order used to sort hands, the cyclic dora-indicator successor, and the
//! canonical two-character display code of each tile.

use vstd::prelude::*;

verus! {

/// The three dragon honor tiles.
#[derive(Clone, Copy, PartialEq, Eq, Structural, Debug)]
pub enum Dragon {
    Green,
    Red,
    White,
}

/// A suited (numbered) tile: man, pin or sou, with its rank.
/// A rank of a real tile lies in 1..=9; the payload type admits more, and
/// every operation below is total over the whole payload range.
#[derive(Clone, Copy, PartialEq, Eq, Structural, Debug)]
pub enum Simple {
    Man(u8),
    Pin(u8),
    Sou(u8),
}

/// The four wind honor tiles, in their cyclic East-South-West-North order.
#[derive(Clone, Copy, PartialEq, Eq, Structural, Debug)]
pub enum Wind {
    East,
    South,
    West,
    North,
}

/// A playable tile, or the internal `Blank` sentinel that stands for
/// "no tile". `Blank` is never part of a real hand.
#[derive(Clone, Copy, PartialEq, Eq, Structural, Debug)]
pub enum Tile {
    Dragon(Dragon),
    Simple(Simple),
    Wind(Wind),
    Blank,
}

/// The fixed total order on tiles, as an integer ordinal: dragons first
/// (Green < Red < White), then man, pin and sou tiles by rank, then winds
/// (East < South < West < North), then the sentinel. Distinct tiles have
/// distinct ordinals, so sorting a hand by this order is deterministic.
pub open spec fn tile_ord(t: Tile) -> int {
    match t {
        Tile::Dragon(Dragon::Green) => 0,
        Tile::Dragon(Dragon::Red) => 1,
        Tile::Dragon(Dragon::White) => 2,
        Tile::Simple(Simple::Man(n)) => 10 + n as int,
        Tile::Simple(Simple::Pin(n)) => 300 + n as int,
        Tile::Simple(Simple::Sou(n)) => 600 + n as int,
        Tile::Wind(Wind::East) => 1000,
        Tile::Wind(Wind::South) => 1001,
        Tile::Wind(Wind::West) => 1002,
        Tile::Wind(Wind::North) => 1003,
        Tile::Blank => 1100,
    }
}

/// The order relation induced by `tile_ord`, in the closure form that the
/// sequence-sorting lemmas of vstd expect.
pub open spec fn tile_leq() -> spec_fn(Tile, Tile) -> bool {
    |a: Tile, b: Tile| tile_ord(a) <= tile_ord(b)
}

/// Distinct tiles have distinct ordinals.
pub proof fn lemma_tile_ord_injective(a: Tile, b: Tile)
    requires
        tile_ord(a) == tile_ord(b),
    ensures
        a == b,
{
}

/// `tile_leq` is a total ordering, so a sorted arrangement of a multiset of
/// tiles is unique.
pub proof fn lemma_tile_leq_total_ordering()
    ensures
        vstd::relations::total_ordering(tile_leq()),
{
    assert forall|x: Tile, y: Tile| #[trigger] tile_leq()(x, y) && #[trigger] tile_leq()(y, x)
        implies x == y by {
        lemma_tile_ord_injective(x, y);
    }
    assert forall|x: Tile| #[trigger] tile_leq()(x, x) by {}
}

impl Tile {
    /// The ordinal of a tile, computed executably. Agrees with `tile_ord`.
    pub fn ordinal(self) -> (r: u32)
        ensures
            r as int == tile_ord(self),
    {
        match self {
            Tile::Dragon(Dragon::Green) => 0,
            Tile::Dragon(Dragon::Red) => 1,
            Tile::Dragon(Dragon::White) => 2,
            Tile::Simple(Simple::Man(n)) => 10 + n as u32,
            Tile::Simple(Simple::Pin(n)) => 300 + n as u32,
            Tile::Simple(Simple::Sou(n)) => 600 + n as u32,
            Tile::Wind(Wind::East) => 1000,
            Tile::Wind(Wind::South) => 1001,
            Tile::Wind(Wind::West) => 1002,
            Tile::Wind(Wind::North) => 1003,
            Tile::Blank => 1100,
        }
    }

    /// Whether `self` comes no later than `other` in the fixed tile order.
    pub fn le(self, other: Tile) -> (r: bool)
        ensures
            r == tile_leq()(self, other),
    {
        self.ordinal() <= other.ordinal()
    }
}

/// The tile whose dora is indicated by `t`: the cyclic successor. Dragons
/// cycle Green -> Red -> White -> Green, each suit's ranks cycle 1..9..1,
/// winds cycle East -> South -> West -> North -> East. A rank outside 1..=9
/// and the sentinel map to the sentinel.
pub open spec fn dora_of_indicator(t: Tile) -> Tile {
    match t {
        Tile::Dragon(Dragon::Green) => Tile::Dragon(Dragon::Red),
        Tile::Dragon(Dragon::Red) => Tile::Dragon(Dragon::White),
        Tile::Dragon(Dragon::White) => Tile::Dragon(Dragon::Green),
        Tile::Simple(Simple::Man(n)) => if 1 <= n && n <= 8 {
            Tile::Simple(Simple::Man((n + 1) as u8))
        } else if n == 9 {
            Tile::Simple(Simple::Man(1))
        } else {
            Tile::Blank
        },
        Tile::Simple(Simple::Pin(n)) => if 1 <= n && n <= 8 {
            Tile::Simple(Simple::Pin((n + 1) as u8))
        } else if n == 9 {
            Tile::Simple(Simple::Pin(1))
        } else {
            Tile::Blank
        },
        Tile::Simple(Simple::Sou(n)) => if 1 <= n && n <= 8 {
            Tile::Simple(Simple::Sou((n + 1) as u8))
        } else if n == 9 {
            Tile::Simple(Simple::Sou(1))
        } else {
            Tile::Blank
        },
        Tile::Wind(Wind::East) => Tile::Wind(Wind::South),
        Tile::Wind(Wind::South) => Tile::Wind(Wind::West),
        Tile::Wind(Wind::West) => Tile::Wind(Wind::North),
        Tile::Wind(Wind::North) => Tile::Wind(Wind::East),
        Tile::Blank => Tile::Blank,
    }
}

/// The display character of a suited tile's rank; ranks outside 1..=9
/// never occur on a real tile and show as '?'.
pub open spec fn rank_char(n: u8) -> char {
    if n == 1 {
        '1'
    } else if n == 2 {
        '2'
    } else if n == 3 {
        '3'
    } else if n == 4 {
        '4'
    } else if n == 5 {
        '5'
    } else if n == 6 {
        '6'
    } else if n == 7 {
        '7'
    } else if n == 8 {
        '8'
    } else if n == 9 {
        '9'
    } else {
        '?'
    }
}

/// The canonical two-character display code of a tile.
pub open spec fn tile_code(t: Tile) -> Seq<char> {
    match t {
        Tile::Dragon(Dragon::Green) => seq!['G', 'D'],
        Tile::Dragon(Dragon::Red) => seq!['R', 'D'],
        Tile::Dragon(Dragon::White) => seq!['W', 'D'],
        Tile::Simple(Simple::Man(n)) => seq!['M', rank_char(n)],
        Tile::Simple(Simple::Pin(n)) => seq!['P', rank_char(n)],
        Tile::Simple(Simple::Sou(n)) => seq!['S', rank_char(n)],
        Tile::Wind(Wind::East) => seq!['E', 'W'],
        Tile::Wind(Wind::South) => seq!['S', 'W'],
        Tile::Wind(Wind::West) => seq!['W', 'W'],
        Tile::Wind(Wind::North) => seq!['N', 'W'],
        Tile::Blank => seq!['!', '!'],
    }
}

impl Tile {
    /// The dora tile indicated by `self`: the cyclic successor in the fixed
    /// dora sequence. A pure total function with no failure case.
    pub fn indicate_dora(self) -> (r: Tile)
        ensures
            r == dora_of_indicator(self),
    {
        match self {
            Tile::Dragon(Dragon::Green) => Tile::Dragon(Dragon::Red),
            Tile::Dragon(Dragon::Red) => Tile::Dragon(Dragon::White),
            Tile::Dragon(Dragon::White) => Tile::Dragon(Dragon::Green),
            Tile::Simple(Simple::Man(n)) => if 1 <= n && n <= 8 {
                Tile::Simple(Simple::Man(n + 1))
            } else if n == 9 {
                Tile::Simple(Simple::Man(1))
            } else {
                Tile::Blank
            },
            Tile::Simple(Simple::Pin(n)) => if 1 <= n && n <= 8 {
                Tile::Simple(Simple::Pin(n + 1))
            } else if n == 9 {
                Tile::Simple(Simple::Pin(1))
            } else {
                Tile::Blank
            },
            Tile::Simple(Simple::Sou(n)) => if 1 <= n && n <= 8 {
                Tile::Simple(Simple::Sou(n + 1))
            } else if n == 9 {
                Tile::Simple(Simple::Sou(1))
            } else {
                Tile::Blank
            },
            Tile::Wind(Wind::East) => Tile::Wind(Wind::South),
            Tile::Wind(Wind::South) => Tile::Wind(Wind::West),
            Tile::Wind(Wind::West) => Tile::Wind(Wind::North),
            Tile::Wind(Wind::North) => Tile::Wind(Wind::East),
            Tile::Blank => Tile::Blank,
        }
    }

    /// The canonical display code of `self`, e.g. "GD" for the green dragon
    /// and "M1" for the man 1 tile.
    pub fn display(self) -> (r: &'static str)
        ensures
            r@ == tile_code(self),
    {
        let r: &'static str = match self {
            Tile::Dragon(Dragon::Green) => "GD",
            Tile::Dragon(Dragon::Red) => "RD",
            Tile::Dragon(Dragon::White) => "WD",
            Tile::Simple(Simple::Man(n)) => match n {
                1 => "M1",
                2 => "M2",
                3 => "M3",
                4 => "M4",
                5 => "M5",
                6 => "M6",
                7 => "M7",
                8 => "M8",
                9 => "M9",
                _ => "M?",
            },
            Tile::Simple(Simple::Pin(n)) => match n {
                1 => "P1",
                2 => "P2",
                3 => "P3",
                4 => "P4",
                5 => "P5",
                6 => "P6",
                7 => "P7",
                8 => "P8",
                9 => "P9",
                _ => "P?",
            },
            Tile::Simple(Simple::Sou(n)) => match n {
                1 => "S1",
                2 => "S2",
                3 => "S3",
                4 => "S4",
                5 => "S5",
                6 => "S6",
                7 => "S7",
                8 => "S8",
                9 => "S9",
                _ => "S?",
            },
            Tile::Wind(Wind::East) => "EW",
            Tile::Wind(Wind::South) => "SW",
            Tile::Wind(Wind::West) => "WW",
            Tile::Wind(Wind::North) => "NW",
            Tile::Blank => "!!",
        };
        proof {
            reveal_strlit("GD");
            reveal_strlit("RD");
            reveal_strlit("WD");
            reveal_strlit("M1");
            reveal_strlit("M2");
            reveal_strlit("M3");
            reveal_strlit("M4");
            reveal_strlit("M5");
            reveal_strlit("M6");
            reveal_strlit("M7");
            reveal_strlit("M8");
            reveal_strlit("M9");
            reveal_strlit("M?");
            reveal_strlit("P1");
            reveal_strlit("P2");
            reveal_strlit("P3");
            reveal_strlit("P4");
            reveal_strlit("P5");
            reveal_strlit("P6");
            reveal_strlit("P7");
            reveal_strlit("P8");
            reveal_strlit("P9");
            reveal_strlit("P?");
            reveal_strlit("S1");
            reveal_strlit("S2");
            reveal_strlit("S3");
            reveal_strlit("S4");
            reveal_strlit("S5");
            reveal_strlit("S6");
            reveal_strlit("S7");
            reveal_strlit("S8");
            reveal_strlit("S9");
            reveal_strlit("S?");
            reveal_strlit("EW");
            reveal_strlit("SW");
            reveal_strlit("WW");
            reveal_strlit("NW");
            reveal_strlit("!!");
        }
        r
    }
}

} // verus!
