use pallet_game::scoring::{
    eligible, expired, expiry_penalty, permille_difference, random_u32, randomness_subject,
    rewarded, settled, swapped, verdict, window,
};
use pallet_game::{
    CollectedColors, Config, DifficultyLevel, Effect, Error, Event, NftColor, Offer, Origin,
    Pallet, PropertyInfoData, User, Verdict, FAUCET_AMOUNT, LEADERBOARD_LIMIT, MAX_ADMINS,
    MAX_ONGOING_GAMES, MAX_PROPERTY,
};

fn config() -> Config {
    Config { request_limit: 180 }
}

fn seed(draw: u32) -> [u8; 32] {
    let mut bytes = [0u8; 32];
    bytes[4..8].copy_from_slice(&draw.to_le_bytes());
    bytes
}

fn user(points: u32) -> User {
    User {
        points,
        wins: 0,
        losses: 0,
        practise_rounds: 0,
        last_played_round: 0,
        next_token_request: 0,
        nfts: CollectedColors::new(),
    }
}

/// A game in its first round with admin 9 and the given players, each with
/// one practice game behind them, and a well-filled pool.
fn game_with(players: &[u64]) -> Pallet {
    let mut game = Pallet::new(config());
    game.setup_game(Origin::Root, 0).unwrap();
    game.add_to_admins(Origin::Root, 9).unwrap();
    for _ in 0..90 {
        game.add_property(Origin::Root, PropertyInfoData { id: 1, data: vec![1, 2, 3] }).unwrap();
    }
    for player in players {
        game.register_user(Origin::Signed(9), *player, 1).unwrap();
        let id = game.game_id();
        game.play_game(Origin::Signed(*player), DifficultyLevel::Practice, 1, &seed(0)).unwrap();
        game.submit_answer(Origin::Signed(*player), 20, id).unwrap();
        game.check_result(Origin::Root, 20, id, 20, vec![], &seed(0)).unwrap();
    }
    game
}

/// Plays one game of `player` to its end and hands back what resolving gave.
fn round(
    game: &mut Pallet,
    player: u64,
    difficulty: DifficultyLevel,
    guess: u32,
    price: u32,
    draw: u32,
) -> Result<Vec<Event>, Error> {
    let id = game.game_id();
    game.play_game(Origin::Signed(player), difficulty, 1, &seed(0)).unwrap();
    game.submit_answer(Origin::Signed(player), guess, id).unwrap();
    game.check_result(Origin::Root, guess, id, price, vec![7], &seed(draw)).map(|r| r.events)
}

#[test]
fn verdict_follows_the_table() {
    let flat = |difficulty, difference| {
        let v = verdict(difficulty, difference);
        (v.points, v.won, v.nft_received)
    };
    let player = [
        (0, (0, true, true)),
        (10, (0, true, true)),
        (11, (25, true, false)),
        (30, (25, true, false)),
        (31, (15, true, false)),
        (50, (15, true, false)),
        (51, (5, true, false)),
        (100, (5, true, false)),
        (101, (5, false, false)),
        (150, (5, false, false)),
        (151, (10, false, false)),
        (200, (10, false, false)),
        (201, (15, false, false)),
        (250, (15, false, false)),
        (251, (20, false, false)),
        (300, (20, false, false)),
        (301, (25, false, false)),
        (1000, (25, false, false)),
        (u16::MAX, (25, false, false)),
    ];
    for (difference, (points, won, nft)) in player {
        assert_eq!(flat(DifficultyLevel::Player, difference), (points, won, nft));
        assert_eq!(flat(DifficultyLevel::Pro, difference), (2 * points, won, nft));
        assert_eq!(flat(DifficultyLevel::Practice, difference), (5, true, false));
    }
    assert_eq!(
        verdict(DifficultyLevel::Pro, 40),
        Verdict { points: 30, won: true, nft_received: false }
    );
}

#[test]
fn windows_and_penalties() {
    assert_eq!(window(DifficultyLevel::Practice), 10);
    assert_eq!(window(DifficultyLevel::Player), 8);
    assert_eq!(window(DifficultyLevel::Pro), 5);
    assert_eq!(expiry_penalty(DifficultyLevel::Practice), 0);
    assert_eq!(expiry_penalty(DifficultyLevel::Player), 25);
    assert_eq!(expiry_penalty(DifficultyLevel::Pro), 50);
}

#[test]
fn permille_difference_values() {
    assert_eq!(permille_difference(220_000, 220_000), Ok(0));
    assert_eq!(permille_difference(223_000, 220_000), Ok(14));
    assert_eq!(permille_difference(217_000, 220_000), Ok(14));
    assert_eq!(permille_difference(220_000, 223_000), Ok(13));
    // 10.6 permille is 11, 10.4 is 10, and a half goes up.
    assert_eq!(permille_difference(4947, 5000), Ok(11));
    assert_eq!(permille_difference(5053, 5000), Ok(11));
    assert_eq!(permille_difference(4948, 5000), Ok(10));
    assert_eq!(permille_difference(1999, 2000), Ok(1));
    assert_eq!(permille_difference(2001, 2000), Ok(1));
    assert_eq!(permille_difference(1979, 2000), Ok(11));
    assert_eq!(permille_difference(2999, 3000), Ok(0));
    assert_eq!(permille_difference(230_000, 220_000), Ok(45));
    assert_eq!(permille_difference(0, 220_000), Ok(1000));
    assert_eq!(permille_difference(20, 20), Ok(0));
    assert_eq!(permille_difference(19, 20), Ok(50));
    assert_eq!(permille_difference(1, 1000), Ok(999));
    assert_eq!(permille_difference(65, 1), Ok(64000));
}

#[test]
fn permille_difference_errors() {
    assert_eq!(permille_difference(5, 0), Err(Error::DivisionError));
    assert_eq!(permille_difference(0, 0), Err(Error::DivisionError));
    assert_eq!(permille_difference(0, 3_000_000), Err(Error::MultiplyError));
    assert_eq!(permille_difference(0x8000_0000, 0x7fff_ffff), Err(Error::ArithmeticUnderflow));
    assert_eq!(permille_difference(100, 1), Err(Error::ConversionError));
    // Numbers beyond the signed range are read as negative ones.
    assert_eq!(permille_difference(u32::MAX, u32::MAX), Ok(0));
    assert_eq!(permille_difference(u32::MAX - 1, u32::MAX), Ok(1000));
}

#[test]
fn random_number_is_read_from_bytes_four_to_seven() {
    let mut bytes = [0xffu8; 32];
    bytes[4] = 0x78;
    bytes[5] = 0x56;
    bytes[6] = 0x34;
    bytes[7] = 0x12;
    assert_eq!(random_u32(&bytes), Ok(0x1234_5678));
    assert_eq!(random_u32(&[0xff; 8]), Ok(u32::MAX));
    assert_eq!(random_u32(&[0xff; 7]), Err(Error::ConversionError));
    assert_eq!(random_u32(&[]), Err(Error::ConversionError));
    assert_eq!(randomness_subject(0), 0);
    assert_eq!(randomness_subject(255), 255);
    assert_eq!(randomness_subject(256), 0);
    assert_eq!(randomness_subject(1000), 232);
}

#[test]
fn colors_by_index() {
    assert_eq!(NftColor::from_index(0), Some(NftColor::Xorange));
    assert_eq!(NftColor::from_index(1), Some(NftColor::Xpink));
    assert_eq!(NftColor::from_index(2), Some(NftColor::Xblue));
    assert_eq!(NftColor::from_index(3), Some(NftColor::Xcyan));
    assert_eq!(NftColor::from_index(4), Some(NftColor::Xcoral));
    assert_eq!(NftColor::from_index(5), Some(NftColor::Xpurple));
    assert_eq!(NftColor::from_index(6), Some(NftColor::Xleafgreen));
    assert_eq!(NftColor::from_index(7), Some(NftColor::Xgreen));
    assert_eq!(NftColor::from_index(8), None);
    assert_eq!(NftColor::from_index(usize::MAX), None);
}

#[test]
fn tally_counts_and_rejects() {
    let mut tally = CollectedColors::new();
    assert_eq!(tally.sub_nft_color(NftColor::Xblue), Err(Error::ArithmeticUnderflow));
    assert_eq!(tally, CollectedColors::new());
    assert_eq!(tally.add_nft_color(NftColor::Xblue), Ok(()));
    assert_eq!(tally.add_nft_color(NftColor::Xblue), Ok(()));
    assert_eq!(tally.add_nft_color(NftColor::Xgreen), Ok(()));
    assert_eq!(tally.get(NftColor::Xblue), 2);
    assert_eq!(tally.xblue, 2);
    assert_eq!(tally.xgreen, 1);
    assert_eq!(tally.xorange, 0);
    assert_eq!(tally.sub_nft_color(NftColor::Xblue), Ok(()));
    assert_eq!(tally.xblue, 1);
    tally.xpink = u32::MAX;
    let before = tally;
    assert_eq!(tally.add_nft_color(NftColor::Xpink), Err(Error::ArithmeticOverflow));
    assert_eq!(tally, before);
}

#[test]
fn full_set_needs_four_of_each() {
    let mut tally = CollectedColors {
        xorange: 4,
        xpink: 4,
        xblue: 4,
        xcyan: 4,
        xcoral: 4,
        xpurple: 4,
        xleafgreen: 4,
        xgreen: 3,
    };
    assert!(!tally.has_four_of_all_colors());
    tally.xgreen = 4;
    assert!(tally.has_four_of_all_colors());
    tally.xorange = 900;
    assert!(tally.has_four_of_all_colors());
    tally.xcyan = 0;
    assert!(!tally.has_four_of_all_colors());
    assert!(!CollectedColors::new().has_four_of_all_colors());
}

#[test]
fn marginal_values() {
    let mut u = user(0);
    let mut earned = Vec::new();
    let mut charged = Vec::new();
    for _ in 0..6 {
        charged.push(u.subtracting_calculate_points(NftColor::Xcoral));
        u.add_nft_color(NftColor::Xcoral).unwrap();
        earned.push(u.calculate_points(NftColor::Xcoral));
    }
    assert_eq!(earned, vec![100, 120, 220, 340, 0, 0]);
    assert_eq!(charged, vec![100, 120, 220, 340, 0, 0]);
    assert_eq!(u.calculate_points(NftColor::Xgreen), 0);
}

#[test]
fn rewards_and_penalties_on_a_profile() {
    assert_eq!(settled(user(50), DifficultyLevel::Practice, 900).unwrap().points, 55);
    assert_eq!(settled(user(50), DifficultyLevel::Practice, 900).unwrap().practise_rounds, 1);
    assert_eq!(settled(user(50), DifficultyLevel::Practice, 900).unwrap().wins, 0);
    let won = settled(user(55), DifficultyLevel::Player, 40).unwrap();
    assert_eq!((won.points, won.wins, won.losses), (70, 1, 0));
    let lost = settled(user(55), DifficultyLevel::Pro, 301).unwrap();
    assert_eq!((lost.points, lost.wins, lost.losses), (5, 0, 1));
    assert_eq!(settled(user(49), DifficultyLevel::Pro, 301), Err(Error::ArithmeticUnderflow));
    assert_eq!(settled(user(4), DifficultyLevel::Player, 101), Err(Error::ArithmeticUnderflow));
    assert_eq!(settled(user(5), DifficultyLevel::Player, 101).unwrap().points, 0);
    assert_eq!(
        settled(user(u32::MAX), DifficultyLevel::Pro, 11),
        Err(Error::ArithmeticOverflow)
    );
    assert_eq!(
        settled(user(u32::MAX), DifficultyLevel::Player, 11),
        Err(Error::ArithmeticOverflow)
    );
    assert_eq!(
        settled(user(u32::MAX - 4), DifficultyLevel::Practice, 0),
        Err(Error::ArithmeticOverflow)
    );
    assert_eq!(settled(user(u32::MAX - 5), DifficultyLevel::Practice, 0).unwrap().points, u32::MAX);
    let mut many = user(10);
    many.practise_rounds = u8::MAX;
    assert_eq!(settled(many, DifficultyLevel::Practice, 0), Err(Error::ArithmeticOverflow));
    let mut winner = user(10);
    winner.wins = u32::MAX;
    assert_eq!(settled(winner, DifficultyLevel::Player, 11), Err(Error::ArithmeticOverflow));
    let mut counted = user(100);
    counted.losses = u32::MAX;
    assert_eq!(settled(counted, DifficultyLevel::Player, 500), Err(Error::ArithmeticOverflow));

    let first = rewarded(user(55), NftColor::Xpink).unwrap();
    assert_eq!((first.points, first.wins, first.nfts.xpink), (155, 1, 1));
    let second = rewarded(first, NftColor::Xpink).unwrap();
    assert_eq!((second.points, second.wins, second.nfts.xpink), (275, 2, 2));
    assert_eq!(rewarded(user(u32::MAX - 99), NftColor::Xpink), Err(Error::ArithmeticOverflow));

    assert_eq!(expired(user(30), DifficultyLevel::Player).unwrap().points, 5);
    assert_eq!(expired(user(30), DifficultyLevel::Player).unwrap().losses, 1);
    assert_eq!(expired(user(30), DifficultyLevel::Pro), Err(Error::ArithmeticUnderflow));
    assert_eq!(expired(user(30), DifficultyLevel::Practice), Ok(user(30)));
}

#[test]
fn trade_credits_then_debits() {
    let mut holder = user(500);
    holder.nfts.xorange = 3;
    holder.nfts.xpink = 1;
    // The fourth orange earns 340; the only pink costs 100.
    let after = swapped(holder, NftColor::Xorange, NftColor::Xpink).unwrap();
    assert_eq!((after.points, after.nfts.xorange, after.nfts.xpink), (740, 4, 0));
    // Same colour in and out: credit for the fourth, debit for the fourth.
    let same = swapped(holder, NftColor::Xorange, NftColor::Xorange).unwrap();
    assert_eq!((same.points, same.nfts.xorange), (500, 3));
    // Nothing to give up.
    assert_eq!(
        swapped(holder, NftColor::Xorange, NftColor::Xgreen),
        Err(Error::ArithmeticUnderflow)
    );
    // The debit is taken after the credit, so the credit can cover it.
    let mut poor = user(240);
    poor.nfts.xblue = 4;
    let covered = swapped(poor, NftColor::Xpink, NftColor::Xblue).unwrap();
    assert_eq!((covered.points, covered.nfts.xpink, covered.nfts.xblue), (0, 1, 3));
    poor.points = 239;
    assert_eq!(swapped(poor, NftColor::Xpink, NftColor::Xblue), Err(Error::ArithmeticUnderflow));
    let mut rich = user(u32::MAX);
    rich.nfts.xblue = 1;
    assert_eq!(swapped(rich, NftColor::Xpink, NftColor::Xblue), Err(Error::ArithmeticOverflow));
}

#[test]
fn eligibility() {
    let mut u = user(50);
    assert_eq!(eligible(&u, DifficultyLevel::Practice), Ok(()));
    assert_eq!(eligible(&u, DifficultyLevel::Player), Err(Error::NoPractise));
    assert_eq!(eligible(&u, DifficultyLevel::Pro), Err(Error::NoPractise));
    u.practise_rounds = 1;
    assert_eq!(eligible(&u, DifficultyLevel::Player), Ok(()));
    assert_eq!(eligible(&u, DifficultyLevel::Pro), Ok(()));
    u.points = 49;
    assert_eq!(eligible(&u, DifficultyLevel::Player), Ok(()));
    assert_eq!(eligible(&u, DifficultyLevel::Pro), Err(Error::NotEnoughPoints));
    u.points = 24;
    assert_eq!(eligible(&u, DifficultyLevel::Player), Err(Error::NotEnoughPoints));
    u.practise_rounds = 4;
    assert_eq!(eligible(&u, DifficultyLevel::Practice), Ok(()));
    u.practise_rounds = 5;
    assert_eq!(eligible(&u, DifficultyLevel::Practice), Err(Error::TooManyPractise));
}

#[test]
fn practice_scenario() {
    let mut game = Pallet::new(config());
    game.setup_game(Origin::Root, 0).unwrap();
    game.add_to_admins(Origin::Root, 9).unwrap();
    let receipt = game.register_user(Origin::Signed(9), 1, 1).unwrap();
    assert_eq!(receipt.events, vec![Event::NewPlayerRegistered { player: 1 }]);
    assert_eq!(receipt.effects, vec![Effect::SetBalance { who: 1, amount: FAUCET_AMOUNT }]);
    assert_eq!(game.users(1).unwrap().points, 50);
    assert_eq!(game.users(1).unwrap().next_token_request, 181);
    let started = game.play_game(Origin::Signed(1), DifficultyLevel::Practice, 1, &seed(2)).unwrap();
    assert_eq!(
        started.events,
        vec![Event::GameStarted { player: 1, game_id: 0, ending_block: 11 }]
    );
    assert_eq!(game.game_properties().len(), 3);
    assert_eq!(game.game_info(0).unwrap().property.id, 147031382);
    assert_eq!(game.game_info(0).unwrap().guess, None);
    assert_eq!(game.games_expiring(11), 1);
    game.submit_answer(Origin::Signed(1), 20, 0).unwrap();
    assert_eq!(game.game_info(0).unwrap().guess, Some(20));
    let resolved = game.check_result(Origin::Root, 20, 0, 20, vec![1], &seed(0)).unwrap();
    assert_eq!(
        resolved.events,
        vec![Event::ResultChecked {
            game_id: 0,
            secret: vec![1],
            points: 5,
            won: true,
            nft_received: false
        }]
    );
    assert!(resolved.effects.is_empty());
    let profile = game.users(1).unwrap();
    assert_eq!((profile.points, profile.practise_rounds, profile.wins), (55, 1, 0));
    assert!(game.game_info(0).is_none());
    assert_eq!(game.leaderboard(), vec![(1, 55)]);
    // Now eligible for Player: a difference of 40 pays 15.
    let events = round(&mut game, 1, DifficultyLevel::Player, 960, 1000, 0).unwrap();
    assert_eq!(
        events,
        vec![Event::ResultChecked {
            game_id: 1,
            secret: vec![7],
            points: 15,
            won: true,
            nft_received: false
        }]
    );
    assert_eq!(game.users(1).unwrap().points, 70);
}

#[test]
fn exact_guess_mints_an_nft() {
    let mut game = game_with(&[1]);
    let id = game.game_id();
    game.play_game(Origin::Signed(1), DifficultyLevel::Pro, 1, &seed(0)).unwrap();
    game.submit_answer(Origin::Signed(1), 500, id).unwrap();
    let receipt = game.check_result(Origin::Root, 500, id, 500, vec![], &seed(13)).unwrap();
    // 13 mod 8 is 5: the purple collection of the first round.
    assert_eq!(
        receipt.effects,
        vec![
            Effect::Mint { collection_id: 5, item_id: 0, to: 1 },
            Effect::Lock { collection_id: 5, item_id: 0 },
        ]
    );
    assert_eq!(
        receipt.events,
        vec![Event::ResultChecked {
            game_id: id,
            secret: vec![],
            points: 100,
            won: true,
            nft_received: true
        }]
    );
    let profile = game.users(1).unwrap();
    assert_eq!((profile.points, profile.wins, profile.nfts.xpurple), (155, 1, 1));
    assert_eq!(game.next_color_id(5), 1);
    assert_eq!(game.next_color_id(4), 0);
    assert!(game.round_active());
    assert_eq!(game.round_champion(1), None);
}

#[test]
fn full_set_ends_the_round() {
    let mut game = game_with(&[1, 2]);
    let mut expected = 55;
    for copy in 0..4 {
        for color in 0..8u32 {
            assert!(game.round_active());
            let events = round(&mut game, 1, DifficultyLevel::Player, 100, 100, color).unwrap();
            let earned = [100, 120, 220, 340][copy];
            expected += earned;
            assert_eq!(
                events,
                vec![Event::ResultChecked {
                    game_id: game.game_id() - 1,
                    secret: vec![7],
                    points: earned,
                    won: true,
                    nft_received: true
                }]
            );
        }
    }
    assert_eq!(game.users(1).unwrap().points, expected);
    assert!(game.users(1).unwrap().has_four_of_all_colors());
    assert!(!game.round_active());
    assert_eq!(game.round_champion(1), Some(1));
    assert_eq!(game.current_round(), 1);
    assert_eq!(
        game.play_game(Origin::Signed(2), DifficultyLevel::Practice, 1, &seed(0)).map(|_| ()),
        Err(Error::NoActiveRound)
    );
    // The next round has its own collections, and a fresh collection.
    game.setup_game(Origin::Root, 8).unwrap();
    assert_eq!(game.current_round(), 2);
    assert_eq!(game.collection_color(8), Some(NftColor::Xorange));
    assert_eq!(game.collection_color(15), Some(NftColor::Xgreen));
    assert_eq!(game.collection_color(16), None);
    game.play_game(Origin::Signed(1), DifficultyLevel::Player, 1, &seed(0)).unwrap();
    assert_eq!(game.users(1).unwrap().nfts, CollectedColors::new());
    assert_eq!(game.users(1).unwrap().last_played_round, 2);
    assert_eq!(game.users(1).unwrap().points, expected);
    let id = game.game_id() - 1;
    game.submit_answer(Origin::Signed(1), 100, id).unwrap();
    let receipt = game.check_result(Origin::Root, 100, id, 100, vec![], &seed(3)).unwrap();
    assert_eq!(receipt.effects[0], Effect::Mint { collection_id: 11, item_id: 0, to: 1 });
    assert_eq!(game.users(1).unwrap().nfts.xcyan, 1);
}

#[test]
fn trade_that_completes_a_set_ends_the_round() {
    let mut game = game_with(&[1, 2]);
    // Player 1 collects four of every colour but green, of which three, and a
    // fifth orange to trade with.
    for copy in 0..4 {
        for color in 0..8u32 {
            if !(copy == 3 && color == 7) {
                round(&mut game, 1, DifficultyLevel::Player, 100, 100, color).unwrap();
            }
        }
    }
    round(&mut game, 1, DifficultyLevel::Player, 100, 100, 0).unwrap();
    assert!(game.round_active());
    // Player 2 wins a green one.
    round(&mut game, 2, DifficultyLevel::Player, 100, 100, 7).unwrap();
    let before = game.users(1).unwrap().points;
    // Player 1 lists the fifth orange (0, 4); player 2 offers the green (7, 3).
    game.list_nft(Origin::Signed(1), 0, 4, Some(1)).unwrap();
    game.make_offer(Origin::Signed(2), 0, 7, 3).unwrap();
    let receipt = game.handle_offer(Origin::Signed(1), 0, Offer::Accept).unwrap();
    assert_eq!(
        receipt.effects,
        vec![
            Effect::Unlock { collection_id: 0, item_id: 4 },
            Effect::Release { collection_id: 0, item_id: 4, to: 2 },
            Effect::Lock { collection_id: 0, item_id: 4 },
            Effect::Unlock { collection_id: 7, item_id: 3 },
            Effect::Release { collection_id: 7, item_id: 3, to: 1 },
            Effect::Lock { collection_id: 7, item_id: 3 },
        ]
    );
    let seller = game.users(1).unwrap();
    // The fourth green earns 340; the fifth orange costs what the fifth would
    // earn again: nothing.
    assert_eq!(seller.points, before + 340);
    assert_eq!((seller.nfts.xgreen, seller.nfts.xorange), (4, 4));
    assert!(seller.has_four_of_all_colors());
    let bidder = game.users(2).unwrap();
    assert_eq!((bidder.nfts.xgreen, bidder.nfts.xorange), (0, 1));
    assert_eq!(bidder.points, 55 + 100 + 100 - 100);
    assert!(!game.round_active());
    assert_eq!(game.round_champion(1), Some(1));
    assert!(game.listings(0).is_none());
    assert!(game.offers(0).is_none());
}

#[test]
fn failed_trade_changes_nothing() {
    let mut game = game_with(&[1, 2]);
    round(&mut game, 1, DifficultyLevel::Player, 100, 100, 0).unwrap();
    round(&mut game, 2, DifficultyLevel::Player, 100, 100, 1).unwrap();
    game.list_nft(Origin::Signed(1), 0, 0, Some(1)).unwrap();
    // The offered item is of a collection without a colour.
    game.make_offer(Origin::Signed(2), 0, 40, 0).unwrap();
    let board = game.leaderboard();
    assert_eq!(
        game.handle_offer(Origin::Signed(1), 0, Offer::Accept).map(|_| ()),
        Err(Error::CollectionUnknown)
    );
    assert!(game.listings(0).is_some());
    assert!(game.offers(0).is_some());
    assert_eq!(game.users(1).unwrap().nfts.xorange, 1);
    assert_eq!(game.users(2).unwrap().nfts.xpink, 1);
    assert_eq!(game.leaderboard(), board);
    // A stranger cannot decide, and a missing listing stops the offer.
    assert_eq!(
        game.handle_offer(Origin::Signed(2), 0, Offer::Accept).map(|_| ()),
        Err(Error::NoPermission)
    );
    game.delist_nft(Origin::Signed(1), 0).unwrap();
    assert_eq!(
        game.handle_offer(Origin::Signed(1), 0, Offer::Reject).map(|_| ()),
        Err(Error::ListingDoesNotExist)
    );
    assert_eq!(
        game.list_nft(Origin::Root, 0, 0, Some(1)).map(|_| ()),
        Err(Error::BadOrigin)
    );
    assert_eq!(
        game.list_nft(Origin::Signed(1), 0, 0, None).map(|_| ()),
        Err(Error::NoPermission)
    );
}

#[test]
fn leaderboard_keeps_the_ten_best() {
    assert_eq!(LEADERBOARD_LIMIT, 10);
    let mut game = Pallet::new(config());
    for who in 1..=10u64 {
        game.update_leaderboard(who, 10 * who as u32).unwrap();
    }
    assert_eq!(game.leaderboard().len(), 10);
    assert_eq!(game.leaderboard()[0], (10, 100));
    assert_eq!(game.leaderboard()[9], (1, 10));
    // Too few points to enter a full board.
    game.update_leaderboard(11, 10).unwrap();
    game.update_leaderboard(12, 5).unwrap();
    assert_eq!(game.leaderboard().len(), 10);
    assert_eq!(game.leaderboard()[9], (1, 10));
    assert!(!game.leaderboard().iter().any(|e| e.0 == 11 || e.0 == 12));
    // Enough points: the last entry leaves.
    game.update_leaderboard(11, 55).unwrap();
    let board = game.leaderboard();
    assert_eq!(board.len(), 10);
    assert_eq!(
        board,
        vec![
            (10, 100),
            (9, 90),
            (8, 80),
            (7, 70),
            (6, 60),
            (11, 55),
            (5, 50),
            (4, 40),
            (3, 30),
            (2, 20)
        ]
    );
    // An account on the board moves with its points, down to zero.
    game.update_leaderboard(10, 0).unwrap();
    assert_eq!(game.leaderboard()[9], (10, 0));
    assert_eq!(game.leaderboard()[0], (9, 90));
    game.update_leaderboard(2, 1000).unwrap();
    assert_eq!(game.leaderboard()[0], (2, 1000));
    assert_eq!(game.leaderboard().len(), 10);
    let board = game.leaderboard();
    for i in 1..board.len() {
        assert!(board[i - 1].1 >= board[i].1);
        assert!(board[..i].iter().all(|e| e.0 != board[i].0));
    }
}

#[test]
fn leaderboard_ties_and_zero() {
    let mut game = Pallet::new(config());
    // Nobody enters with nothing.
    game.update_leaderboard(1, 0).unwrap();
    assert!(game.leaderboard().is_empty());
    game.update_leaderboard(1, 50).unwrap();
    game.update_leaderboard(2, 50).unwrap();
    game.update_leaderboard(3, 50).unwrap();
    // A newcomer goes behind those with as many points.
    assert_eq!(game.leaderboard(), vec![(1, 50), (2, 50), (3, 50)]);
    // An entry that keeps its points keeps its place.
    game.update_leaderboard(2, 50).unwrap();
    assert_eq!(game.leaderboard(), vec![(1, 50), (2, 50), (3, 50)]);
    // One that falls to a tie stays ahead of those that stood behind it.
    game.update_leaderboard(4, 40).unwrap();
    game.update_leaderboard(1, 40).unwrap();
    assert_eq!(game.leaderboard(), vec![(2, 50), (3, 50), (1, 40), (4, 40)]);
    // One that rises to a tie goes behind those that stood ahead of it.
    game.update_leaderboard(4, 50).unwrap();
    assert_eq!(game.leaderboard(), vec![(2, 50), (3, 50), (4, 50), (1, 40)]);
}

#[test]
fn expiry_leaves_answered_games_alone() {
    let mut game = game_with(&[1, 2, 3]);
    let first = game.game_id();
    game.play_game(Origin::Signed(1), DifficultyLevel::Player, 1, &seed(0)).unwrap();
    game.play_game(Origin::Signed(2), DifficultyLevel::Player, 1, &seed(0)).unwrap();
    game.play_game(Origin::Signed(3), DifficultyLevel::Practice, 3, &seed(0)).unwrap();
    game.play_game(Origin::Signed(1), DifficultyLevel::Pro, 5, &seed(0)).unwrap();
    assert_eq!(game.games_expiring(9), 2);
    assert_eq!(game.games_expiring(13), 1);
    assert_eq!(game.games_expiring(10), 1);
    game.submit_answer(Origin::Signed(2), 5, first + 1).unwrap();
    assert!(game.on_initialize(8).events.is_empty());
    let tick = game.on_initialize(9);
    assert_eq!(tick.events, vec![Event::NoAnswer { game_id: first, points: 25 }]);
    assert!(tick.effects.is_empty());
    assert!(game.game_info(first).is_none());
    assert!(game.game_info(first + 1).is_some());
    assert_eq!(game.games_expiring(9), 0);
    assert_eq!(game.users(1).unwrap().points, 30);
    assert_eq!(game.users(1).unwrap().losses, 1);
    assert_eq!(game.users(2).unwrap().points, 55);
    // The answered game can still be resolved; the expired one cannot.
    assert!(game.check_result(Origin::Root, 5, first + 1, 5, vec![], &seed(0)).is_ok());
    assert_eq!(
        game.check_result(Origin::Root, 5, first, 5, vec![], &seed(0)).map(|_| ()),
        Err(Error::NoActiveGame)
    );
    // The Pro game costs more than player 1 has left: it is closed without
    // a penalty, and the Practice game that follows costs nothing.
    let tick = game.on_initialize(10);
    assert!(tick.events.is_empty());
    assert!(game.game_info(first + 3).is_none());
    assert_eq!(game.users(1).unwrap().points, 30);
    assert_eq!(game.users(1).unwrap().losses, 1);
    let tick = game.on_initialize(13);
    assert!(tick.events.is_empty());
    assert!(game.game_info(first + 2).is_none());
    assert_eq!(game.users(3).unwrap().points, 55);
    assert_eq!(game.users(3).unwrap().nfts, CollectedColors::new());
}

#[test]
fn limits_are_kept() {
    let mut game = Pallet::new(Config { request_limit: u64::MAX });
    game.setup_game(Origin::Root, 0).unwrap();
    for _ in 0..93 {
        game.add_property(Origin::Root, PropertyInfoData { id: 1, data: vec![] }).unwrap();
    }
    // Room for three, and a round starts with four.
    assert_eq!(game.game_properties().len(), 97);
    assert_eq!(game.setup_game(Origin::Root, 8).map(|_| ()), Err(Error::TooManyTest));
    assert_eq!(game.game_properties().len(), 97);
    for _ in 0..3 {
        game.add_property(Origin::Root, PropertyInfoData { id: 1, data: vec![] }).unwrap();
    }
    assert_eq!(MAX_PROPERTY, 100);
    assert_eq!(game.game_properties().len(), 100);
    assert_eq!(
        game.add_property(Origin::Root, PropertyInfoData { id: 2, data: vec![] }).map(|_| ()),
        Err(Error::TooManyTest)
    );
    assert_eq!(game.setup_game(Origin::Root, 8).map(|_| ()), Err(Error::TooManyTest));
    assert_eq!(game.current_round(), 1);
    assert_eq!(game.collection_color(8), None);
    assert_eq!(
        game.add_property(Origin::Signed(1), PropertyInfoData { id: 2, data: vec![] }).map(|_| ()),
        Err(Error::BadOrigin)
    );
    for admin in 1..=10u64 {
        game.add_to_admins(Origin::Root, admin).unwrap();
    }
    assert_eq!(MAX_ADMINS, 10);
    assert_eq!(game.add_to_admins(Origin::Root, 30).map(|_| ()), Err(Error::TooManyAdmins));
    assert_eq!(game.admins(), vec![1, 2, 3, 4, 5, 6, 7, 8, 9, 10]);
    assert_eq!(
        game.register_user(Origin::Signed(30), 5, 1).map(|_| ()),
        Err(Error::NoPermission)
    );
    assert_eq!(game.register_user(Origin::Root, 5, 1).map(|_| ()), Err(Error::BadOrigin));
    game.register_user(Origin::Signed(2), 5, 7).unwrap();
    assert_eq!(game.users(5).unwrap().next_token_request, u64::MAX);
    assert_eq!(
        game.register_user(Origin::Signed(1), 5, 1).map(|_| ()),
        Err(Error::PlayerAlreadyRegistered)
    );
    game.register_user(Origin::Signed(1), 6, 1).unwrap();
    game.play_game(Origin::Signed(5), DifficultyLevel::Practice, 1, &seed(0)).unwrap();
    assert_eq!(game.game_id(), 1);
    assert!(game.play_game(Origin::Signed(6), DifficultyLevel::Practice, 2, &seed(0)).is_ok());
    assert_eq!(
        game.play_game(Origin::Root, DifficultyLevel::Practice, 2, &seed(0)).map(|_| ()),
        Err(Error::BadOrigin)
    );
    assert_eq!(
        game.play_game(Origin::Signed(6), DifficultyLevel::Practice, 3, &[1, 2, 3]).map(|_| ()),
        Err(Error::ConversionError)
    );
    assert_eq!(
        game.submit_answer(Origin::Signed(6), 1, 0).map(|_| ()),
        Err(Error::NoThePlayer)
    );
    assert_eq!(game.submit_answer(Origin::Root, 1, 0).map(|_| ()), Err(Error::BadOrigin));
    assert_eq!(
        game.check_result(Origin::Signed(5), 1, 0, 1, vec![], &seed(0)).map(|_| ()),
        Err(Error::BadOrigin)
    );
    assert_eq!(
        game.request_token(Origin::Signed(5), u64::MAX).map(|_| ()),
        Err(Error::CantRequestToken)
    );
}

#[test]
fn pool_runs_dry() {
    let mut game = Pallet::new(config());
    game.setup_game(Origin::Root, 0).unwrap();
    game.add_to_admins(Origin::Root, 9).unwrap();
    game.register_user(Origin::Signed(9), 1, 1).unwrap();
    game.remove_property(Origin::Root, 147031382).unwrap();
    assert_eq!(game.game_properties().len(), 2);
    assert_eq!(game.game_properties()[0].id, 147229391);
    assert_eq!(game.game_properties()[1].id, 146480642);
    game.remove_property(Origin::Root, 5).unwrap();
    assert_eq!(game.game_properties().len(), 2);
    assert_eq!(game.remove_property(Origin::Signed(1), 5).map(|_| ()), Err(Error::BadOrigin));
    // The draw 7 picks place 7 mod 2, and the property leaves the pool.
    game.play_game(Origin::Signed(1), DifficultyLevel::Practice, 1, &seed(7)).unwrap();
    assert_eq!(game.game_info(0).unwrap().property.id, 146480642);
    assert_eq!(game.game_properties().len(), 1);
    game.play_game(Origin::Signed(1), DifficultyLevel::Practice, 1, &seed(7)).unwrap();
    assert_eq!(game.game_info(1).unwrap().property.id, 147229391);
    assert_eq!(
        game.play_game(Origin::Signed(1), DifficultyLevel::Practice, 1, &seed(7)).map(|_| ()),
        Err(Error::NoProperty)
    );
    assert_eq!(game.game_id(), 2);
}

#[test]
fn resolving_fails_without_side_effects() {
    let mut game = game_with(&[1]);
    // A loss that the points do not cover.
    game.give_points(Origin::Root, 1, 0).unwrap();
    let id = game.game_id();
    game.play_game(Origin::Signed(1), DifficultyLevel::Pro, 1, &seed(0)).unwrap();
    game.submit_answer(Origin::Signed(1), 0, id).unwrap();
    let events = round(&mut game, 1, DifficultyLevel::Player, 0, 100, 0).unwrap();
    assert_eq!(
        events,
        vec![Event::ResultChecked {
            game_id: id + 1,
            secret: vec![7],
            points: 25,
            won: false,
            nft_received: false
        }]
    );
    assert_eq!(game.users(1).unwrap().points, 30);
    assert_eq!(
        game.check_result(Origin::Root, 0, id, 100, vec![], &seed(0)).map(|_| ()),
        Err(Error::ArithmeticUnderflow)
    );
    assert!(game.game_info(id).is_some());
    assert_eq!(game.users(1).unwrap().points, 30);
    assert_eq!(game.users(1).unwrap().losses, 1);
    // The errors of the difference come before the game is looked at.
    assert_eq!(
        game.check_result(Origin::Root, 0, id, 0, vec![], &seed(0)).map(|_| ()),
        Err(Error::DivisionError)
    );
    assert_eq!(
        game.check_result(Origin::Root, 0, id, 3_000_000, vec![], &seed(0)).map(|_| ()),
        Err(Error::MultiplyError)
    );
    // An NFT is won, but the seed is too short.
    assert_eq!(
        game.check_result(Origin::Root, 100, id, 100, vec![], &[0; 7]).map(|_| ()),
        Err(Error::ConversionError)
    );
    assert!(game.game_info(id).is_some());
    assert_eq!(game.next_color_id(0), 0);
    assert_eq!(
        game.give_points(Origin::Root, 1, u32::MAX).map(|_| ()),
        Err(Error::ArithmeticOverflow)
    );
    assert_eq!(game.give_points(Origin::Root, 77, 1).map(|_| ()), Err(Error::UserNotRegistered));
    assert_eq!(game.give_points(Origin::Signed(1), 1, 1).map(|_| ()), Err(Error::BadOrigin));
    game.give_points(Origin::Root, 1, 12).unwrap();
    assert_eq!(game.users(1).unwrap().points, 42);
}

#[test]
fn unknown_collection_is_rejected() {
    let mut game = Pallet::new(config());
    // The registry started its collections at 8, so collection 0 has no colour.
    game.setup_game(Origin::Root, 8).unwrap();
    game.add_to_admins(Origin::Root, 9).unwrap();
    game.register_user(Origin::Signed(9), 1, 1).unwrap();
    round(&mut game, 1, DifficultyLevel::Practice, 1, 1, 0).unwrap();
    assert_eq!(
        round(&mut game, 1, DifficultyLevel::Player, 100, 100, 0),
        Err(Error::CollectionUnknown)
    );
    assert_eq!(game.users(1).unwrap().points, 55);
    assert_eq!(
        game.swap_user_points(1, 8, 0),
        Err(Error::CollectionUnknown)
    );
    assert_eq!(game.swap_user_points(2, 8, 8), Err(Error::UserNotRegistered));
    assert_eq!(game.swap_user_points(1, 8, 9), Err(Error::ArithmeticUnderflow));
    assert_eq!(game.swap_user_points(1, 8, 8), Ok(()));
    assert_eq!(game.users(1).unwrap().points, 55);
    assert_eq!(game.setup_game(Origin::Root, u32::MAX - 6).map(|_| ()), Err(Error::ArithmeticOverflow));
}

#[test]
fn resolving_before_any_round() {
    let mut game = Pallet::new(config());
    game.add_to_admins(Origin::Root, 9).unwrap();
    game.register_user(Origin::Signed(9), 1, 1).unwrap();
    assert_eq!(
        game.check_enough_points(1, DifficultyLevel::Player),
        Err(Error::NoPractise)
    );
    assert_eq!(game.check_enough_points(1, DifficultyLevel::Practice), Ok(()));
    assert_eq!(
        game.check_enough_points(2, DifficultyLevel::Practice),
        Err(Error::UserNotRegistered)
    );
    assert!(game.play_game_feeless(Origin::Signed(1), DifficultyLevel::Pro));
    assert!(game.play_game_feeless(Origin::Signed(2), DifficultyLevel::Practice));
    assert!(!game.play_game_feeless(Origin::Signed(2), DifficultyLevel::Player));
    assert!(!game.play_game_feeless(Origin::Root, DifficultyLevel::Practice));
    assert!(!game.submit_answer_feeless(Origin::Signed(1), 0));
    game.end_game(1).unwrap();
    assert_eq!(game.round_champion(0), Some(1));
    assert!(!game.round_active());
}

#[test]
fn faucet_waits_for_its_time() {
    let mut game = game_with(&[1]);
    assert_eq!(game.users(1).unwrap().next_token_request, 181);
    assert_eq!(game.request_token(Origin::Signed(1), 181).map(|_| ()), Err(Error::CantRequestToken));
    let receipt = game.request_token(Origin::Signed(1), 182).unwrap();
    assert_eq!(receipt.events, vec![Event::TokenReceived { player: 1 }]);
    assert_eq!(receipt.effects, vec![Effect::SetBalance { who: 1, amount: 10_000_000_000_000 }]);
    assert_eq!(game.users(1).unwrap().next_token_request, 362);
    assert_eq!(game.request_token(Origin::Signed(1), 362).map(|_| ()), Err(Error::CantRequestToken));
    assert_eq!(game.request_token(Origin::Root, 500).map(|_| ()), Err(Error::BadOrigin));
    assert_eq!(game.request_token(Origin::Signed(3), 500).map(|_| ()), Err(Error::UserNotRegistered));
    assert!(game.submit_answer_feeless(Origin::Signed(1), 0) == false);
}

#[test]
fn market_round_trip() {
    let mut game = game_with(&[1, 2]);
    round(&mut game, 1, DifficultyLevel::Player, 100, 100, 2).unwrap();
    round(&mut game, 2, DifficultyLevel::Player, 100, 100, 6).unwrap();
    let listed = game.list_nft(Origin::Signed(1), 2, 0, Some(1)).unwrap();
    assert_eq!(
        listed.events,
        vec![Event::NftListed { owner: 1, collection_id: 2, item_id: 0 }]
    );
    assert_eq!(
        listed.effects,
        vec![
            Effect::Unlock { collection_id: 2, item_id: 0 },
            Effect::Escrow { collection_id: 2, item_id: 0, from: 1 },
            Effect::Lock { collection_id: 2, item_id: 0 },
        ]
    );
    assert_eq!(game.next_listing_id(), 1);
    let offered = game.make_offer(Origin::Signed(2), 0, 6, 0).unwrap();
    assert_eq!(
        offered.events,
        vec![Event::OfferMade { owner: 2, listing_id: 0, collection_id: 6, item_id: 0 }]
    );
    assert_eq!(
        offered.effects,
        vec![
            Effect::Unlock { collection_id: 6, item_id: 0 },
            Effect::Escrow { collection_id: 6, item_id: 0, from: 2 },
            Effect::Lock { collection_id: 6, item_id: 0 },
        ]
    );
    assert_eq!(game.next_offer_id(), 1);
    assert_eq!(game.offers(0).unwrap().listing_id, 0);
    assert_eq!(
        game.withdraw_offer(Origin::Signed(1), 0).map(|_| ()),
        Err(Error::NoPermission)
    );
    let rejected = game.handle_offer(Origin::Signed(1), 0, Offer::Reject).unwrap();
    assert_eq!(
        rejected.effects,
        vec![
            Effect::Unlock { collection_id: 6, item_id: 0 },
            Effect::Release { collection_id: 6, item_id: 0, to: 2 },
            Effect::Lock { collection_id: 6, item_id: 0 },
        ]
    );
    assert!(game.offers(0).is_none());
    assert!(game.listings(0).is_some());
    game.make_offer(Origin::Signed(2), 0, 6, 0).unwrap();
    assert_eq!(game.offers(1).unwrap().owner, 2);
    let withdrawn = game.withdraw_offer(Origin::Signed(2), 1).unwrap();
    assert_eq!(withdrawn.events, vec![Event::OfferWithdrawn { owner: 2, offer_id: 1 }]);
    game.make_offer(Origin::Signed(2), 0, 6, 0).unwrap();
    let before = (game.users(1).unwrap().points, game.users(2).unwrap().points);
    game.handle_offer(Origin::Signed(1), 2, Offer::Accept).unwrap();
    // Each gains a first copy of one colour and gives up the only copy of
    // another: 100 in, 100 out.
    assert_eq!((game.users(1).unwrap().points, game.users(2).unwrap().points), before);
    assert_eq!(game.users(1).unwrap().nfts.xleafgreen, 1);
    assert_eq!(game.users(1).unwrap().nfts.xblue, 0);
    assert_eq!(game.users(2).unwrap().nfts.xblue, 1);
    assert_eq!(game.users(2).unwrap().nfts.xleafgreen, 0);
    let delisted = game.delist_nft(Origin::Signed(1), 0).map(|_| ());
    assert_eq!(delisted, Err(Error::ListingDoesNotExist));
    assert_eq!(game.delist_nft(Origin::Root, 0).map(|_| ()), Err(Error::BadOrigin));
    assert_eq!(
        game.make_offer(Origin::Signed(2), 0, 6, 0).map(|_| ()),
        Err(Error::ListingDoesNotExist)
    );
    assert_eq!(
        game.withdraw_offer(Origin::Signed(2), 9).map(|_| ()),
        Err(Error::OfferDoesNotExist)
    );
}

#[test]
fn origins() {
    assert_eq!(Origin::Signed(3).ensure_signed(), Ok(3));
    assert_eq!(Origin::Root.ensure_signed(), Err(Error::BadOrigin));
    assert_eq!(Origin::Root.ensure_root(), Ok(()));
    assert_eq!(Origin::Signed(3).ensure_root(), Err(Error::BadOrigin));
    let mut game = Pallet::new(config());
    assert_eq!(game.config(), config());
    game.add_to_admins(Origin::Root, 1).unwrap();
    game.add_to_admins(Origin::Root, 2).unwrap();
    game.add_to_admins(Origin::Root, 3).unwrap();
    let removed = game.remove_from_admins(Origin::Root, 2).unwrap();
    assert_eq!(removed.events, vec![Event::AdminRemoved { admin: 2 }]);
    assert_eq!(game.admins(), vec![1, 3]);
    assert_eq!(game.remove_from_admins(Origin::Root, 2).map(|_| ()), Err(Error::NotAdmin));
}

#[test]
fn a_copy_goes_its_own_way() {
    let mut game = game_with(&[1, 2]);
    let copy = game.clone();
    assert_eq!(copy.leaderboard(), vec![(1, 55), (2, 55)]);
    assert_eq!(copy.game_properties().len(), game.game_properties().len());
    assert_eq!(copy.game_properties()[0], game.game_properties()[0]);
    assert_eq!(copy.users(1), game.users(1));
    assert_eq!(copy.admins(), game.admins());
    round(&mut game, 2, DifficultyLevel::Player, 100, 100, 0).unwrap();
    assert_eq!(game.leaderboard(), vec![(2, 155), (1, 55)]);
    assert_eq!(copy.leaderboard(), vec![(1, 55), (2, 55)]);
    assert_eq!(copy.users(2).unwrap().points, 55);
    assert_eq!(copy.game_id() + 1, game.game_id());
    game.add_to_admins(Origin::Root, 77).unwrap();
    game.add_property(Origin::Root, PropertyInfoData { id: 9, data: vec![9] }).unwrap();
    assert_eq!(copy.admins(), vec![9]);
    assert_eq!(game.admins(), vec![9, 77]);
    assert_eq!(copy.game_properties().len(), 92);
    assert_eq!(game.game_properties().len(), 92 - 1 + 1);
    let pool = copy.game_properties();
    assert_eq!(pool[0], PropertyInfoData { id: 147031382, data: b"nfdjakl;fueif;janf,dnfm,dhfhfdksks".to_vec() });
    assert_eq!(pool[pool.len() - 1], PropertyInfoData { id: 1, data: vec![1, 2, 3] });
}

#[test]
fn difference_is_rounded_before_the_band_is_chosen() {
    let mut game = game_with(&[1]);
    assert_eq!(game.users(1).unwrap().points, 55);
    // 4947 against 5000 is 10.6 permille: band 11 to 30, no NFT.
    let events = round(&mut game, 1, DifficultyLevel::Player, 4947, 5000, 0).unwrap();
    assert_eq!(
        events,
        vec![Event::ResultChecked {
            game_id: 1,
            secret: vec![7],
            points: 25,
            won: true,
            nft_received: false
        }]
    );
    let profile = game.users(1).unwrap();
    assert_eq!((profile.points, profile.wins), (80, 1));
    assert_eq!(profile.nfts, CollectedColors::new());
    assert_eq!(game.next_color_id(0), 0);
    // 4948 against 5000 is 10.4 permille: the NFT band.
    let id = game.game_id();
    game.play_game(Origin::Signed(1), DifficultyLevel::Player, 1, &seed(0)).unwrap();
    game.submit_answer(Origin::Signed(1), 4948, id).unwrap();
    let receipt = game.check_result(Origin::Root, 4948, id, 5000, vec![], &seed(0)).unwrap();
    assert_eq!(receipt.effects[0], Effect::Mint { collection_id: 0, item_id: 0, to: 1 });
    assert_eq!(game.users(1).unwrap().points, 180);
    // 100.5 permille goes up to 101: the first band that costs points.
    let events = round(&mut game, 1, DifficultyLevel::Player, 1799, 2000, 0).unwrap();
    assert_eq!(
        events,
        vec![Event::ResultChecked {
            game_id: id + 1,
            secret: vec![7],
            points: 5,
            won: false,
            nft_received: false
        }]
    );
    assert_eq!(game.users(1).unwrap().points, 175);
}

#[test]
fn trade_that_the_points_do_not_cover_is_an_underflow() {
    let mut game = game_with(&[1]);
    // Four blue NFTs, then twelve lost Pro games.
    for _ in 0..4 {
        round(&mut game, 1, DifficultyLevel::Player, 100, 100, 2).unwrap();
    }
    assert_eq!(game.users(1).unwrap().points, 55 + 780);
    for _ in 0..12 {
        round(&mut game, 1, DifficultyLevel::Pro, 0, 100, 0).unwrap();
    }
    let before = game.users(1).unwrap();
    assert_eq!((before.points, before.nfts.xblue, before.losses), (235, 4, 12));
    let board = game.leaderboard();
    // A first pink earns 100; the fourth blue costs 340.
    assert_eq!(game.swap_user_points(1, 1, 2), Err(Error::ArithmeticUnderflow));
    assert_eq!(game.users(1).unwrap(), before);
    assert_eq!(game.leaderboard(), board);
    assert!(game.round_active());
    assert_eq!(game.round_champion(1), None);
    game.give_points(Origin::Root, 1, 5).unwrap();
    assert_eq!(game.swap_user_points(1, 1, 2), Ok(()));
    let after = game.users(1).unwrap();
    assert_eq!((after.points, after.nfts.xblue, after.nfts.xpink), (0, 3, 1));
}

#[test]
fn one_failing_penalty_does_not_stop_the_tick() {
    let mut game = game_with(&[1, 2]);
    // Player 1 starts a Pro game with 55 points, then loses 50 in another.
    let first = game.game_id();
    game.play_game(Origin::Signed(1), DifficultyLevel::Pro, 4, &seed(0)).unwrap();
    round(&mut game, 1, DifficultyLevel::Pro, 0, 100, 0).unwrap();
    assert_eq!(game.users(1).unwrap().points, 5);
    let second = game.game_id();
    game.play_game(Origin::Signed(2), DifficultyLevel::Player, 1, &seed(0)).unwrap();
    assert_eq!(game.games_expiring(9), 2);
    let before = game.users(1).unwrap();
    let tick = game.on_initialize(9);
    assert_eq!(tick.events, vec![Event::NoAnswer { game_id: second, points: 25 }]);
    assert_eq!(game.users(1).unwrap(), before);
    let charged = game.users(2).unwrap();
    assert_eq!((charged.points, charged.losses), (30, 1));
    assert_eq!(charged.nfts, CollectedColors::new());
    assert!(game.game_info(first).is_none());
    assert!(game.game_info(second).is_none());
    assert_eq!(game.games_expiring(9), 0);
    // A game resolved before its height is not charged again there.
    let third = game.game_id();
    game.play_game(Origin::Signed(2), DifficultyLevel::Player, 10, &seed(0)).unwrap();
    game.submit_answer(Origin::Signed(2), 0, third).unwrap();
    game.check_result(Origin::Root, 0, third, 100, vec![], &seed(0)).unwrap();
    let resolved = game.users(2).unwrap();
    assert_eq!((resolved.points, resolved.losses), (5, 2));
    assert!(game.on_initialize(18).events.is_empty());
    assert_eq!(game.users(2).unwrap(), resolved);
}

#[test]
fn a_height_takes_two_hundred_games() {
    assert_eq!(MAX_ONGOING_GAMES, 200);
    let mut game = Pallet::new(Config { request_limit: 180 });
    game.setup_game(Origin::Root, 0).unwrap();
    game.add_to_admins(Origin::Root, 9).unwrap();
    game.register_user(Origin::Signed(9), 1, 1).unwrap();
    for _ in 0..2 {
        while game.game_properties().len() < 100 {
            game.add_property(Origin::Root, PropertyInfoData { id: 5, data: vec![] }).unwrap();
        }
        for _ in 0..100 {
            game.play_game(Origin::Signed(1), DifficultyLevel::Practice, 1, &seed(0)).unwrap();
        }
    }
    assert_eq!(game.game_properties().len(), 0);
    game.add_property(Origin::Root, PropertyInfoData { id: 5, data: vec![] }).unwrap();
    game.add_property(Origin::Root, PropertyInfoData { id: 5, data: vec![] }).unwrap();
    assert_eq!(game.games_expiring(11), 200);
    let pool = game.game_properties().len();
    let profile = game.users(1);
    assert_eq!(
        game.play_game(Origin::Signed(1), DifficultyLevel::Practice, 1, &seed(0)).map(|_| ()),
        Err(Error::TooManyGames)
    );
    assert_eq!(game.games_expiring(11), 200);
    assert_eq!(game.game_properties().len(), pool);
    assert_eq!(game.game_id(), 200);
    assert_eq!(game.users(1), profile);
    // Another height has room, and the order of a height is the order of starting.
    game.play_game(Origin::Signed(1), DifficultyLevel::Practice, 2, &seed(0)).unwrap();
    assert_eq!(game.games_expiring(12), 1);
    let tick = game.on_initialize(11);
    assert!(tick.events.is_empty());
    assert_eq!(game.games_expiring(11), 0);
    assert!(game.game_info(0).is_none());
    assert!(game.game_info(199).is_none());
    assert!(game.game_info(200).is_some());
}
