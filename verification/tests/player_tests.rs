use riichi_yaku::player::Player;
use riichi_yaku::tile::Dragon;
use riichi_yaku::tile::Simple;
use riichi_yaku::tile::Tile;
use riichi_yaku::tile::Wind;
use riichi_yaku::yaku::Yaku;

#[test]
fn is_menzenchin() {
    let mut player = Player {
        seat: Wind::East,
        hand: vec![
            Tile::Dragon(Dragon::Red),
            Tile::Dragon(Dragon::Red),
            Tile::Dragon(Dragon::Red),
            Tile::Simple(Simple::Man(1)),
            Tile::Simple(Simple::Man(2)),
            Tile::Simple(Simple::Man(3)),
            Tile::Simple(Simple::Pin(1)),
            Tile::Simple(Simple::Pin(2)),
            Tile::Simple(Simple::Pin(3)),
            Tile::Simple(Simple::Pin(3)),
            Tile::Simple(Simple::Pin(3)),
            Tile::Dragon(Dragon::Green),
            Tile::Dragon(Dragon::Green),
            Tile::Dragon(Dragon::Green),
        ],
        dealt_in: vec![],
        discarded: vec![],
        kan: vec![],
        riichi: false,
    };

    assert!(player.is_menzenchin());

    player.hand.truncate(11);
    for _ in 0..3 {
        player.dealt_in.push(Tile::Simple(Simple::Man(1)));
    }

    assert!(!player.is_menzenchin());
}

#[test]
fn dragon() {
    let mut player = Player {
        seat: Wind::East,
        hand: vec![
            Tile::Wind(Wind::East),
            Tile::Wind(Wind::East),
            Tile::Wind(Wind::East),
            Tile::Simple(Simple::Man(1)),
            Tile::Simple(Simple::Man(2)),
            Tile::Simple(Simple::Man(3)),
            Tile::Simple(Simple::Pin(1)),
            Tile::Simple(Simple::Pin(2)),
            Tile::Simple(Simple::Pin(3)),
            Tile::Simple(Simple::Pin(3)),
            Tile::Simple(Simple::Pin(3)),
            Tile::Dragon(Dragon::Green),
            Tile::Dragon(Dragon::Green),
            Tile::Dragon(Dragon::Green),
        ],
        dealt_in: vec![],
        discarded: vec![],
        kan: vec![],
        riichi: false,
    };

    assert!(player
        .clone()
        .evaluate_yakus(Wind::East)
        .contains(&Yaku::Dragons(Dragon::Green)));

    player.hand.pop();
    player.hand.push(Tile::Simple(Simple::Man(1)));

    assert!(!player
        .clone()
        .evaluate_yakus(Wind::East)
        .contains(&Yaku::Dragons(Dragon::Green)));
}

#[test]
fn seat_wind() {
    let mut player = Player {
        seat: Wind::West,
        hand: vec![
            Tile::Simple(Simple::Man(1)),
            Tile::Simple(Simple::Man(2)),
            Tile::Simple(Simple::Man(3)),
            Tile::Simple(Simple::Pin(1)),
            Tile::Simple(Simple::Pin(2)),
            Tile::Simple(Simple::Pin(3)),
            Tile::Simple(Simple::Pin(3)),
            Tile::Simple(Simple::Pin(3)),
            Tile::Dragon(Dragon::Green),
            Tile::Dragon(Dragon::Green),
            Tile::Dragon(Dragon::Green),
            Tile::Wind(Wind::West),
            Tile::Wind(Wind::West),
            Tile::Wind(Wind::West),
        ],
        dealt_in: vec![],
        discarded: vec![],
        kan: vec![],
        riichi: false,
    };

    assert!(player
        .clone()
        .evaluate_yakus(Wind::East)
        .contains(&Yaku::SeatWind(Wind::West)));

    player.hand.pop();
    player.hand.push(Tile::Simple(Simple::Man(1)));

    assert!(!player
        .clone()
        .evaluate_yakus(Wind::East)
        .contains(&Yaku::SeatWind(Wind::West)));
}

#[test]
fn prevalent_wind() {
    let mut player = Player {
        seat: Wind::West,
        hand: vec![
            Tile::Simple(Simple::Man(1)),
            Tile::Simple(Simple::Man(2)),
            Tile::Simple(Simple::Man(3)),
            Tile::Simple(Simple::Pin(1)),
            Tile::Simple(Simple::Pin(2)),
            Tile::Simple(Simple::Pin(3)),
            Tile::Simple(Simple::Pin(3)),
            Tile::Simple(Simple::Pin(3)),
            Tile::Dragon(Dragon::Green),
            Tile::Dragon(Dragon::Green),
            Tile::Dragon(Dragon::Green),
            Tile::Wind(Wind::East),
            Tile::Wind(Wind::East),
            Tile::Wind(Wind::East),
        ],
        dealt_in: vec![],
        discarded: vec![],
        kan: vec![],
        riichi: false,
    };

    assert!(player
        .clone()
        .evaluate_yakus(Wind::East)
        .contains(&Yaku::PrevalentWind(Wind::East)));

    player.hand.pop();
    player.hand.push(Tile::Simple(Simple::Man(1)));

    assert!(!player
        .clone()
        .evaluate_yakus(Wind::East)
        .contains(&Yaku::PrevalentWind(Wind::East)));
}

#[test]
fn riichi() {
    let mut player = Player {
        seat: Wind::East,
        hand: vec![
            Tile::Wind(Wind::East),
            Tile::Wind(Wind::East),
            Tile::Wind(Wind::East),
            Tile::Dragon(Dragon::Red),
            Tile::Dragon(Dragon::Green),
            Tile::Dragon(Dragon::White),
            Tile::Simple(Simple::Man(1)),
            Tile::Simple(Simple::Man(2)),
            Tile::Simple(Simple::Man(3)),
            Tile::Simple(Simple::Pin(1)),
            Tile::Simple(Simple::Pin(2)),
            Tile::Simple(Simple::Pin(3)),
            Tile::Simple(Simple::Pin(3)),
            Tile::Simple(Simple::Pin(3)),
        ],
        dealt_in: vec![],
        discarded: vec![],
        kan: vec![],
        riichi: true,
    };

    assert!(player
        .clone()
        .evaluate_yakus(Wind::East)
        .contains(&Yaku::Riichi));
    player.riichi = false;
    assert!(!player.evaluate_yakus(Wind::East).contains(&Yaku::Riichi));
}

#[test]
fn seven_pairs() {
    let mut player = Player {
        seat: Wind::East,
        hand: vec![
            Tile::Wind(Wind::East),
            Tile::Wind(Wind::East),
            Tile::Dragon(Dragon::Red),
            Tile::Dragon(Dragon::Red),
            Tile::Dragon(Dragon::Green),
            Tile::Dragon(Dragon::Green),
            Tile::Simple(Simple::Man(1)),
            Tile::Simple(Simple::Man(1)),
            Tile::Simple(Simple::Pin(1)),
            Tile::Simple(Simple::Pin(1)),
            Tile::Simple(Simple::Pin(2)),
            Tile::Simple(Simple::Pin(2)),
            Tile::Simple(Simple::Pin(3)),
            Tile::Simple(Simple::Pin(3)),
        ],
        dealt_in: vec![],
        discarded: vec![],
        kan: vec![],
        riichi: true,
    };

    assert!(player
        .clone()
        .evaluate_yakus(Wind::East)
        .contains(&Yaku::SevenPairs));

    player.hand.pop();
    player.hand.push(Tile::Simple(Simple::Man(1)));

    assert!(!player
        .clone()
        .evaluate_yakus(Wind::East)
        .contains(&Yaku::SevenPairs));
}
