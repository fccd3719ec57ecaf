//! The yaku catalogue: the closed enumeration of scoring conditions a hand
//! may satisfy, and the human-readable label of each. Only identity and
//! label are defined here; point values are out of scope.

use vstd::prelude::*;
use crate::tile::Dragon;
use crate::tile::Wind;

verus! {

/// A named scoring condition. Three cases carry a payload naming the tile
/// attribute they score on; the rest are plain markers.
#[derive(Clone, Copy, PartialEq, Eq, Structural, Debug)]
pub enum Yaku {
    // 1-han
    Riichi,
    AllSimples,
    FullyConcealedHand,
    SeatWind(Wind),
    PrevalentWind(Wind),
    Dragons(Dragon),
    Pinfu,
    PureDoubleSequence,
    RobbingAKan,
    AfterAKan,
    UnderTheSea,
    UnderTheRiver,
    Ippatsu,
    TsubameGaeshi,
    Kanburi,
    Shiiatutaotai,
    // 2-han
    DoubeRiichi,
    TripleTriplets,
    ThreeQuads,
    AllTriplets,
    ThreeConcealedTriplets,
    LittleThreeDragons,
    AllTerminalsAndHonors,
    SevenPairs,
    HalfOutsideHand,
    PureStraight,
    MixedTripleSequence,
    Uumensai,
    ThreeChainedTriplets,
    // 3-han
    TwicePureDoubleSequence,
    FullyOutsideHand,
    HalfFlush,
    PureTripleChow,
    // 6-han
    FullFlush,
    // mangan
    ManganAtDraw,
    Iipinmoyue,
    Chuupinraoyui,
    // yakuman
    BlessingOfHeaven,
    BlessingOfEarth,
    BigThreeDragons,
    FourConcealedTriplets,
    AllHonors,
    AllGreen,
    AllTerminals,
    ThirteenOrphans,
    FourLittleWinds,
    FourQuads,
    NineGates,
    HandOfMan,
    BigWheels,
    BambooForest,
    NumerousNeighbours,
    Ishinouenimosannen,
    // double-yakuman
    SingleWaitFourConcealedTriplets,
    ThirteenWaitThirteenOrphans,
    TrueNineGates,
    FourBigWinds,
    BigSevenStars,
}

/// The label of a wind inside a yaku label.
pub open spec fn wind_label(w: Wind) -> Seq<char> {
    match w {
        Wind::East => "East Wind"@,
        Wind::South => "South Wind"@,
        Wind::West => "West Wind"@,
        Wind::North => "North Wind"@,
    }
}

/// The label of a dragon inside a yaku label.
pub open spec fn dragon_label(d: Dragon) -> Seq<char> {
    match d {
        Dragon::Green => "Green Dragon"@,
        Dragon::Red => "Red Dragon"@,
        Dragon::White => "White Dragon"@,
    }
}

/// The human-readable label of a yaku.
pub open spec fn yaku_label(y: Yaku) -> Seq<char> {
    match y {
        Yaku::Riichi => "Riichi"@,
        Yaku::AllSimples => "All simples"@,
        Yaku::FullyConcealedHand => "Fully concealed hand"@,
        Yaku::SeatWind(w) => "Seat wind: "@ + wind_label(w),
        Yaku::PrevalentWind(w) => "Prevalent wind: "@ + wind_label(w),
        Yaku::Dragons(d) => "Dragons: "@ + dragon_label(d),
        Yaku::Pinfu => "Pinfu"@,
        Yaku::PureDoubleSequence => "Pure double sequence"@,
        Yaku::RobbingAKan => "Robbing a Kan"@,
        Yaku::AfterAKan => "After a Kan"@,
        Yaku::UnderTheSea => "Under the sea"@,
        Yaku::UnderTheRiver => "Under the river"@,
        Yaku::Ippatsu => "Ippatsu"@,
        Yaku::TsubameGaeshi => "Tsubame Gaeshi"@,
        Yaku::Kanburi => "Kanburi"@,
        Yaku::Shiiatutaotai => "Shiiatutaotai"@,
        Yaku::DoubeRiichi => "Doube Riichi"@,
        Yaku::TripleTriplets => "Triple triplets"@,
        Yaku::ThreeQuads => "Three Quads"@,
        Yaku::AllTriplets => "All triplets"@,
        Yaku::ThreeConcealedTriplets => "Three concealed triplets"@,
        Yaku::LittleThreeDragons => "Little three dragons"@,
        Yaku::AllTerminalsAndHonors => "All terminals and honors"@,
        Yaku::SevenPairs => "Seven pairs"@,
        Yaku::HalfOutsideHand => "Half outside hand"@,
        Yaku::PureStraight => "Pure straight"@,
        Yaku::MixedTripleSequence => "Mixed triple sequence"@,
        Yaku::Uumensai => "Uumensai"@,
        Yaku::ThreeChainedTriplets => "Three chained triplets"@,
        Yaku::TwicePureDoubleSequence => "Twice pure double sequence"@,
        Yaku::FullyOutsideHand => "Fully outside hand"@,
        Yaku::HalfFlush => "Half flush"@,
        Yaku::PureTripleChow => "Pure triple Chow"@,
        Yaku::FullFlush => "Full flush"@,
        Yaku::ManganAtDraw => "Mangan at draw"@,
        Yaku::Iipinmoyue => "Iipinmoyue"@,
        Yaku::Chuupinraoyui => "Chuupinraoyui"@,
        Yaku::BlessingOfHeaven => "Blessing of heaven"@,
        Yaku::BlessingOfEarth => "Blessing of earth"@,
        Yaku::BigThreeDragons => "Big three dragons"@,
        Yaku::FourConcealedTriplets => "Four concealed triplets"@,
        Yaku::AllHonors => "All honors"@,
        Yaku::AllGreen => "All green"@,
        Yaku::AllTerminals => "All terminals"@,
        Yaku::ThirteenOrphans => "Thirteen orphans"@,
        Yaku::FourLittleWinds => "Four little winds"@,
        Yaku::FourQuads => "Four quads"@,
        Yaku::NineGates => "Nine gates"@,
        Yaku::HandOfMan => "Hand of Man"@,
        Yaku::BigWheels => "Big wheels"@,
        Yaku::BambooForest => "Bamboo forest"@,
        Yaku::NumerousNeighbours => "Numerous neighbours"@,
        Yaku::Ishinouenimosannen => "Ishinouenimosannen"@,
        Yaku::SingleWaitFourConcealedTriplets => "Single wait four concealed triplets"@,
        Yaku::ThirteenWaitThirteenOrphans => "Thirteen wait thirteen orphans"@,
        Yaku::TrueNineGates => "True nine gates"@,
        Yaku::FourBigWinds => "Four big winds"@,
        Yaku::BigSevenStars => "Big seven stars"@,
    }
}

impl Yaku {
    /// The human-readable label of `self`.
    pub fn display(self) -> (r: &'static str)
        ensures
            r@ == yaku_label(self),
    {
        match self {
            Yaku::Riichi => "Riichi",
            Yaku::AllSimples => "All simples",
            Yaku::FullyConcealedHand => "Fully concealed hand",
            Yaku::SeatWind(w) => {
                let r: &'static str = match w {
                    Wind::East => "Seat wind: East Wind",
                    Wind::South => "Seat wind: South Wind",
                    Wind::West => "Seat wind: West Wind",
                    Wind::North => "Seat wind: North Wind",
                };
                proof {
                    reveal_strlit("Seat wind: ");
                    reveal_strlit("East Wind");
                    reveal_strlit("South Wind");
                    reveal_strlit("West Wind");
                    reveal_strlit("North Wind");
                    reveal_strlit("Seat wind: East Wind");
                    reveal_strlit("Seat wind: South Wind");
                    reveal_strlit("Seat wind: West Wind");
                    reveal_strlit("Seat wind: North Wind");
                    assert(r@ =~= yaku_label(self));
                }
                r
            },
            Yaku::PrevalentWind(w) => {
                let r: &'static str = match w {
                    Wind::East => "Prevalent wind: East Wind",
                    Wind::South => "Prevalent wind: South Wind",
                    Wind::West => "Prevalent wind: West Wind",
                    Wind::North => "Prevalent wind: North Wind",
                };
                proof {
                    reveal_strlit("Prevalent wind: ");
                    reveal_strlit("East Wind");
                    reveal_strlit("South Wind");
                    reveal_strlit("West Wind");
                    reveal_strlit("North Wind");
                    reveal_strlit("Prevalent wind: East Wind");
                    reveal_strlit("Prevalent wind: South Wind");
                    reveal_strlit("Prevalent wind: West Wind");
                    reveal_strlit("Prevalent wind: North Wind");
                    assert(r@ =~= yaku_label(self));
                }
                r
            },
            Yaku::Dragons(d) => {
                let r: &'static str = match d {
                    Dragon::Green => "Dragons: Green Dragon",
                    Dragon::Red => "Dragons: Red Dragon",
                    Dragon::White => "Dragons: White Dragon",
                };
                proof {
                    reveal_strlit("Dragons: ");
                    reveal_strlit("Green Dragon");
                    reveal_strlit("Red Dragon");
                    reveal_strlit("White Dragon");
                    reveal_strlit("Dragons: Green Dragon");
                    reveal_strlit("Dragons: Red Dragon");
                    reveal_strlit("Dragons: White Dragon");
                    assert(r@ =~= yaku_label(self));
                }
                r
            },
            Yaku::Pinfu => "Pinfu",
            Yaku::PureDoubleSequence => "Pure double sequence",
            Yaku::RobbingAKan => "Robbing a Kan",
            Yaku::AfterAKan => "After a Kan",
            Yaku::UnderTheSea => "Under the sea",
            Yaku::UnderTheRiver => "Under the river",
            Yaku::Ippatsu => "Ippatsu",
            Yaku::TsubameGaeshi => "Tsubame Gaeshi",
            Yaku::Kanburi => "Kanburi",
            Yaku::Shiiatutaotai => "Shiiatutaotai",
            Yaku::DoubeRiichi => "Doube Riichi",
            Yaku::TripleTriplets => "Triple triplets",
            Yaku::ThreeQuads => "Three Quads",
            Yaku::AllTriplets => "All triplets",
            Yaku::ThreeConcealedTriplets => "Three concealed triplets",
            Yaku::LittleThreeDragons => "Little three dragons",
            Yaku::AllTerminalsAndHonors => "All terminals and honors",
            Yaku::SevenPairs => "Seven pairs",
            Yaku::HalfOutsideHand => "Half outside hand",
            Yaku::PureStraight => "Pure straight",
            Yaku::MixedTripleSequence => "Mixed triple sequence",
            Yaku::Uumensai => "Uumensai",
            Yaku::ThreeChainedTriplets => "Three chained triplets",
            Yaku::TwicePureDoubleSequence => "Twice pure double sequence",
            Yaku::FullyOutsideHand => "Fully outside hand",
            Yaku::HalfFlush => "Half flush",
            Yaku::PureTripleChow => "Pure triple Chow",
            Yaku::FullFlush => "Full flush",
            Yaku::ManganAtDraw => "Mangan at draw",
            Yaku::Iipinmoyue => "Iipinmoyue",
            Yaku::Chuupinraoyui => "Chuupinraoyui",
            Yaku::BlessingOfHeaven => "Blessing of heaven",
            Yaku::BlessingOfEarth => "Blessing of earth",
            Yaku::BigThreeDragons => "Big three dragons",
            Yaku::FourConcealedTriplets => "Four concealed triplets",
            Yaku::AllHonors => "All honors",
            Yaku::AllGreen => "All green",
            Yaku::AllTerminals => "All terminals",
            Yaku::ThirteenOrphans => "Thirteen orphans",
            Yaku::FourLittleWinds => "Four little winds",
            Yaku::FourQuads => "Four quads",
            Yaku::NineGates => "Nine gates",
            Yaku::HandOfMan => "Hand of Man",
            Yaku::BigWheels => "Big wheels",
            Yaku::BambooForest => "Bamboo forest",
            Yaku::NumerousNeighbours => "Numerous neighbours",
            Yaku::Ishinouenimosannen => "Ishinouenimosannen",
            Yaku::SingleWaitFourConcealedTriplets => "Single wait four concealed triplets",
            Yaku::ThirteenWaitThirteenOrphans => "Thirteen wait thirteen orphans",
            Yaku::TrueNineGates => "True nine gates",
            Yaku::FourBigWinds => "Four big winds",
            Yaku::BigSevenStars => "Big seven stars",
        }
    }
}

} // verus!
