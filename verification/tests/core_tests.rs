use riichi_yaku::decompose::decompose;
use riichi_yaku::player::Player;
use riichi_yaku::sorting::sort_tiles;
use riichi_yaku::tile::Dragon;
use riichi_yaku::tile::Simple;
use riichi_yaku::tile::Tile;
use riichi_yaku::tile::Wind;
use riichi_yaku::yaku::Yaku;

fn player_with_hand(seat: Wind, hand: Vec<Tile>, riichi: bool) -> Player {
    Player {
        seat,
        hand,
        dealt_in: vec![],
        discarded: vec![],
        kan: vec![],
        riichi,
    }
}

#[test]
fn white_dragon_triplet_scores_white_only() {
    // Three white dragons and no other dragons or winds: Dragons(White) is
    // found, Dragons(Green) and Dragons(Red) are not.
    let hand = vec![
        Tile::Dragon(Dragon::White),
        Tile::Dragon(Dragon::White),
        Tile::Dragon(Dragon::White),
        Tile::Simple(Simple::Man(1)),
        Tile::Simple(Simple::Man(2)),
        Tile::Simple(Simple::Man(3)),
        Tile::Simple(Simple::Pin(4)),
        Tile::Simple(Simple::Pin(5)),
        Tile::Simple(Simple::Pin(6)),
        Tile::Simple(Simple::Sou(7)),
        Tile::Simple(Simple::Sou(8)),
        Tile::Simple(Simple::Sou(9)),
        Tile::Simple(Simple::Man(5)),
        Tile::Simple(Simple::Man(5)),
    ];
    let yakus = player_with_hand(Wind::East, hand, false).evaluate_yakus(Wind::East);
    assert!(yakus.contains(&Yaku::Dragons(Dragon::White)));
    assert!(!yakus.contains(&Yaku::Dragons(Dragon::Green)));
    assert!(!yakus.contains(&Yaku::Dragons(Dragon::Red)));
}

#[test]
fn prevalent_wins_tiebreak_over_seat() {
    // Seat and prevalent wind are both East: a triple of east winds scores
    // as prevalent wind only.
    let hand = vec![
        Tile::Wind(Wind::East),
        Tile::Wind(Wind::East),
        Tile::Wind(Wind::East),
        Tile::Simple(Simple::Man(1)),
        Tile::Simple(Simple::Man(2)),
        Tile::Simple(Simple::Man(3)),
        Tile::Simple(Simple::Pin(4)),
        Tile::Simple(Simple::Pin(5)),
        Tile::Simple(Simple::Pin(6)),
        Tile::Simple(Simple::Sou(7)),
        Tile::Simple(Simple::Sou(8)),
        Tile::Simple(Simple::Sou(9)),
        Tile::Simple(Simple::Man(5)),
        Tile::Simple(Simple::Man(5)),
    ];
    let yakus = player_with_hand(Wind::East, hand, false).evaluate_yakus(Wind::East);
    assert!(yakus.contains(&Yaku::PrevalentWind(Wind::East)));
    assert!(!yakus.contains(&Yaku::SeatWind(Wind::East)));
}

#[test]
fn uninvolved_wind_triplet_scores_nothing() {
    // Three north winds with an East seat and East prevalent wind score
    // neither wind yaku.
    let hand = vec![
        Tile::Wind(Wind::North),
        Tile::Wind(Wind::North),
        Tile::Wind(Wind::North),
        Tile::Simple(Simple::Man(1)),
        Tile::Simple(Simple::Man(2)),
        Tile::Simple(Simple::Man(3)),
        Tile::Simple(Simple::Pin(4)),
        Tile::Simple(Simple::Pin(5)),
        Tile::Simple(Simple::Pin(6)),
        Tile::Simple(Simple::Sou(7)),
        Tile::Simple(Simple::Sou(8)),
        Tile::Simple(Simple::Sou(9)),
        Tile::Simple(Simple::Man(5)),
        Tile::Simple(Simple::Man(5)),
    ];
    let yakus = player_with_hand(Wind::East, hand, false).evaluate_yakus(Wind::East);
    assert!(!yakus.contains(&Yaku::PrevalentWind(Wind::North)));
    assert!(!yakus.contains(&Yaku::SeatWind(Wind::North)));
    assert!(yakus.is_empty());
}

fn seven_pairs_hand() -> Vec<Tile> {
    vec![
        Tile::Wind(Wind::East),
        Tile::Wind(Wind::East),
        Tile::Dragon(Dragon::Red),
        Tile::Dragon(Dragon::Red),
        Tile::Dragon(Dragon::Green),
        Tile::Dragon(Dragon::Green),
        Tile::Simple(Simple::Man(1)),
        Tile::Simple(Simple::Man(1)),
        Tile::Simple(Simple::Pin(1)),
        Tile::Simple(Simple::Pin(1)),
        Tile::Simple(Simple::Pin(2)),
        Tile::Simple(Simple::Pin(2)),
        Tile::Simple(Simple::Pin(3)),
        Tile::Simple(Simple::Pin(3)),
    ]
}

#[test]
fn seven_pairs_breaks_under_any_mutation() {
    // The hand of seven exact pairs in input order scores seven pairs;
    // breaking the equality of any one pair removes it.
    let hand = seven_pairs_hand();
    let yakus = player_with_hand(Wind::East, hand.clone(), false).evaluate_yakus(Wind::East);
    assert!(yakus.contains(&Yaku::SevenPairs));

    for k in 0..7 {
        let mut mutated = hand.clone();
        mutated[2 * k + 1] = Tile::Simple(Simple::Sou(4));
        let yakus = player_with_hand(Wind::East, mutated, false).evaluate_yakus(Wind::East);
        assert!(!yakus.contains(&Yaku::SevenPairs));
    }
}

#[test]
fn seven_pairs_requires_distinct_pairs() {
    // Two pairs of the same value, even apart from each other, do not
    // count as seven distinct pairs.
    let mut hand = seven_pairs_hand();
    // Replace the last pair with a second pair of east winds: chunks 0 and
    // 6 then share a value.
    hand[12] = Tile::Wind(Wind::East);
    hand[13] = Tile::Wind(Wind::East);
    let yakus = player_with_hand(Wind::East, hand, false).evaluate_yakus(Wind::East);
    assert!(!yakus.contains(&Yaku::SevenPairs));
}

#[test]
fn seven_pairs_invalidated_by_kan() {
    let mut player = player_with_hand(Wind::East, seven_pairs_hand(), false);
    player.kan.push(Tile::Simple(Simple::Sou(4)));
    let yakus = player.evaluate_yakus(Wind::East);
    assert!(!yakus.contains(&Yaku::SevenPairs));
}

#[test]
fn riichi_needs_another_yaku() {
    // A hand with no yaku at all: riichi alone scores nothing.
    let no_yaku_hand = vec![
        Tile::Simple(Simple::Man(1)),
        Tile::Simple(Simple::Man(2)),
        Tile::Simple(Simple::Man(3)),
        Tile::Simple(Simple::Pin(4)),
        Tile::Simple(Simple::Pin(5)),
        Tile::Simple(Simple::Pin(6)),
        Tile::Simple(Simple::Sou(7)),
        Tile::Simple(Simple::Sou(8)),
        Tile::Simple(Simple::Sou(9)),
        Tile::Simple(Simple::Man(4)),
        Tile::Simple(Simple::Man(5)),
        Tile::Simple(Simple::Man(6)),
        Tile::Simple(Simple::Man(9)),
        Tile::Simple(Simple::Man(9)),
    ];
    let yakus = player_with_hand(Wind::East, no_yaku_hand.clone(), true).evaluate_yakus(Wind::East);
    assert!(!yakus.contains(&Yaku::Riichi));
    assert!(yakus.is_empty());

    // With a dragon triplet beside it, the declared riichi scores too.
    let dragon_hand = vec![
        Tile::Dragon(Dragon::Red),
        Tile::Dragon(Dragon::Red),
        Tile::Dragon(Dragon::Red),
        Tile::Simple(Simple::Man(1)),
        Tile::Simple(Simple::Man(2)),
        Tile::Simple(Simple::Man(3)),
        Tile::Simple(Simple::Pin(4)),
        Tile::Simple(Simple::Pin(5)),
        Tile::Simple(Simple::Pin(6)),
        Tile::Simple(Simple::Sou(7)),
        Tile::Simple(Simple::Sou(8)),
        Tile::Simple(Simple::Sou(9)),
        Tile::Simple(Simple::Man(5)),
        Tile::Simple(Simple::Man(5)),
    ];
    let yakus = player_with_hand(Wind::East, dragon_hand.clone(), true).evaluate_yakus(Wind::East);
    assert!(yakus.contains(&Yaku::Riichi));
    assert!(yakus.contains(&Yaku::Dragons(Dragon::Red)));

    // Without the declaration, riichi never appears.
    let yakus = player_with_hand(Wind::East, dragon_hand, false).evaluate_yakus(Wind::East);
    assert!(!yakus.contains(&Yaku::Riichi));
}

#[test]
fn evaluation_lists_checks_in_order() {
    let hand = vec![
        Tile::Wind(Wind::East),
        Tile::Wind(Wind::East),
        Tile::Wind(Wind::East),
        Tile::Dragon(Dragon::Green),
        Tile::Dragon(Dragon::Green),
        Tile::Dragon(Dragon::Green),
        Tile::Simple(Simple::Man(1)),
        Tile::Simple(Simple::Man(2)),
        Tile::Simple(Simple::Man(3)),
        Tile::Simple(Simple::Pin(4)),
        Tile::Simple(Simple::Pin(5)),
        Tile::Simple(Simple::Pin(6)),
        Tile::Simple(Simple::Man(5)),
        Tile::Simple(Simple::Man(5)),
    ];
    let yakus = player_with_hand(Wind::East, hand, true).evaluate_yakus(Wind::East);
    assert_eq!(
        yakus,
        vec![
            Yaku::PrevalentWind(Wind::East),
            Yaku::Dragons(Dragon::Green),
            Yaku::Riichi,
        ]
    );
}

#[test]
fn menzenchin_flips_on_any_exposed_tile() {
    let mut player = player_with_hand(Wind::East, seven_pairs_hand(), false);
    assert!(player.is_menzenchin());
    player.dealt_in.push(Tile::Simple(Simple::Pin(9)));
    assert!(!player.is_menzenchin());
}

#[test]
fn decompose_finds_the_single_shape() {
    // Sorted: GD GD GD RD RD RD M1 M2 M3 P1 P2 P3 P3 P3. The only valid
    // pair position is the eleventh, leaving two triplets and two runs.
    let tiles = vec![
        Tile::Dragon(Dragon::Green),
        Tile::Dragon(Dragon::Green),
        Tile::Dragon(Dragon::Green),
        Tile::Dragon(Dragon::Red),
        Tile::Dragon(Dragon::Red),
        Tile::Dragon(Dragon::Red),
        Tile::Simple(Simple::Man(1)),
        Tile::Simple(Simple::Man(2)),
        Tile::Simple(Simple::Man(3)),
        Tile::Simple(Simple::Pin(1)),
        Tile::Simple(Simple::Pin(2)),
        Tile::Simple(Simple::Pin(3)),
        Tile::Simple(Simple::Pin(3)),
        Tile::Simple(Simple::Pin(3)),
    ];
    let configurations = decompose(&tiles);
    assert_eq!(configurations.len(), 1);
    let configuration = &configurations[0];
    assert_eq!(
        configuration.pair,
        vec![Tile::Simple(Simple::Pin(3)), Tile::Simple(Simple::Pin(3))]
    );
    assert_eq!(configuration.triplets.len(), 4);
    assert_eq!(
        configuration.triplets[0],
        vec![
            Tile::Dragon(Dragon::Green),
            Tile::Dragon(Dragon::Green),
            Tile::Dragon(Dragon::Green),
        ]
    );
    assert_eq!(
        configuration.triplets[2],
        vec![
            Tile::Simple(Simple::Man(1)),
            Tile::Simple(Simple::Man(2)),
            Tile::Simple(Simple::Man(3)),
        ]
    );
}

#[test]
fn decompose_rejects_shapeless_hands() {
    // Fourteen distinct tiles have no pair and no configuration.
    let tiles = vec![
        Tile::Dragon(Dragon::Green),
        Tile::Dragon(Dragon::Red),
        Tile::Dragon(Dragon::White),
        Tile::Simple(Simple::Man(1)),
        Tile::Simple(Simple::Man(2)),
        Tile::Simple(Simple::Man(3)),
        Tile::Simple(Simple::Pin(1)),
        Tile::Simple(Simple::Pin(2)),
        Tile::Simple(Simple::Pin(3)),
        Tile::Simple(Simple::Sou(1)),
        Tile::Wind(Wind::East),
        Tile::Wind(Wind::South),
        Tile::Wind(Wind::West),
        Tile::Wind(Wind::North),
    ];
    assert!(decompose(&tiles).is_empty());

    // A length that cannot hold groups plus a pair yields nothing either.
    let short = vec![
        Tile::Simple(Simple::Man(1)),
        Tile::Simple(Simple::Man(1)),
        Tile::Simple(Simple::Man(2)),
    ];
    assert!(decompose(&short).is_empty());
}

#[test]
fn decompose_is_deterministic_and_preserves_tiles() {
    let tiles = vec![
        Tile::Dragon(Dragon::Green),
        Tile::Dragon(Dragon::Green),
        Tile::Dragon(Dragon::Green),
        Tile::Dragon(Dragon::Red),
        Tile::Dragon(Dragon::Red),
        Tile::Dragon(Dragon::Red),
        Tile::Simple(Simple::Man(1)),
        Tile::Simple(Simple::Man(2)),
        Tile::Simple(Simple::Man(3)),
        Tile::Simple(Simple::Pin(1)),
        Tile::Simple(Simple::Pin(2)),
        Tile::Simple(Simple::Pin(3)),
        Tile::Simple(Simple::Pin(3)),
        Tile::Simple(Simple::Pin(3)),
    ];
    let first = decompose(&tiles);
    let second = decompose(&tiles);
    assert_eq!(first, second);

    for configuration in &first {
        let mut flattened = configuration.pair.clone();
        for group in &configuration.triplets {
            flattened.extend(group.iter().cloned());
        }
        let resorted = sort_tiles(&flattened);
        assert_eq!(resorted, sort_tiles(&tiles));
    }
}

#[test]
fn sort_tiles_orders_by_the_fixed_order() {
    let tiles = vec![
        Tile::Wind(Wind::North),
        Tile::Simple(Simple::Sou(1)),
        Tile::Dragon(Dragon::White),
        Tile::Simple(Simple::Man(9)),
        Tile::Wind(Wind::East),
        Tile::Simple(Simple::Pin(5)),
        Tile::Dragon(Dragon::Green),
        Tile::Simple(Simple::Man(2)),
    ];
    let sorted = sort_tiles(&tiles);
    assert_eq!(
        sorted,
        vec![
            Tile::Dragon(Dragon::Green),
            Tile::Dragon(Dragon::White),
            Tile::Simple(Simple::Man(2)),
            Tile::Simple(Simple::Man(9)),
            Tile::Simple(Simple::Pin(5)),
            Tile::Simple(Simple::Sou(1)),
            Tile::Wind(Wind::East),
            Tile::Wind(Wind::North),
        ]
    );
}

#[test]
fn indicate_dora_cycles() {
    assert_eq!(
        Tile::Dragon(Dragon::Green).indicate_dora(),
        Tile::Dragon(Dragon::Red)
    );
    assert_eq!(
        Tile::Dragon(Dragon::Red).indicate_dora(),
        Tile::Dragon(Dragon::White)
    );
    assert_eq!(
        Tile::Dragon(Dragon::White).indicate_dora(),
        Tile::Dragon(Dragon::Green)
    );
    assert_eq!(
        Tile::Simple(Simple::Man(1)).indicate_dora(),
        Tile::Simple(Simple::Man(2))
    );
    assert_eq!(
        Tile::Simple(Simple::Man(9)).indicate_dora(),
        Tile::Simple(Simple::Man(1))
    );
    assert_eq!(
        Tile::Simple(Simple::Pin(9)).indicate_dora(),
        Tile::Simple(Simple::Pin(1))
    );
    assert_eq!(
        Tile::Simple(Simple::Sou(8)).indicate_dora(),
        Tile::Simple(Simple::Sou(9))
    );
    assert_eq!(Tile::Wind(Wind::East).indicate_dora(), Tile::Wind(Wind::South));
    assert_eq!(Tile::Wind(Wind::North).indicate_dora(), Tile::Wind(Wind::East));
    assert_eq!(Tile::Blank.indicate_dora(), Tile::Blank);
}

#[test]
fn display_codes() {
    assert_eq!(Tile::Dragon(Dragon::Green).display(), "GD");
    assert_eq!(Tile::Dragon(Dragon::White).display(), "WD");
    assert_eq!(Tile::Simple(Simple::Man(1)).display(), "M1");
    assert_eq!(Tile::Simple(Simple::Pin(7)).display(), "P7");
    assert_eq!(Tile::Simple(Simple::Sou(9)).display(), "S9");
    assert_eq!(Tile::Wind(Wind::East).display(), "EW");
    assert_eq!(Tile::Wind(Wind::North).display(), "NW");
    assert_eq!(Tile::Blank.display(), "!!");
}

#[test]
fn yaku_labels() {
    assert_eq!(Yaku::Riichi.display(), "Riichi");
    assert_eq!(Yaku::SevenPairs.display(), "Seven pairs");
    assert_eq!(Yaku::SeatWind(Wind::West).display(), "Seat wind: West Wind");
    assert_eq!(
        Yaku::PrevalentWind(Wind::East).display(),
        "Prevalent wind: East Wind"
    );
    assert_eq!(
        Yaku::Dragons(Dragon::Green).display(),
        "Dragons: Green Dragon"
    );
    assert_eq!(Yaku::ThirteenOrphans.display(), "Thirteen orphans");
}
