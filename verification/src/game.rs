//! The round of a game: setting up, starting, answering, resolving, and the
//! expiry of games that nobody answered.

use vstd::prelude::*;
use crate::pallet::{agrees, height_after, no_effects, no_events, one_event, two_effects, Pallet};
use crate::scoring::{
    expiry_penalty, expired, permille_difference, random_u32, rewarded, settled, verdict, window,
    Verdict,
};
use crate::bounded::{
    due_is_full, due_new, due_to_vec, due_try_push, pool_len, pool_remove, pool_truncate,
    pool_try_push, DueGames, MAX_ONGOING_GAMES, MAX_PROPERTY,
};
use crate::state::{colored, starting_data, starting_ids, starting_pool, Outcome, State};
use crate::types::{
    AccountId, BlockNumber, CollectedColors, CollectionId, DifficultyLevel, Effect, Error, Event,
    GameData, NftColor, Origin, PropertyInfoData, Receipt, User,
};

verus! {

broadcast use vstd::std_specs::hash::group_hash_axioms;

/// The data that each starting property carries.
fn starting_bytes() -> (v: Vec<u8>)
    ensures
        v@ == starting_data(),
{
    let v: Vec<u8> = vec![
        110u8, 102u8, 100u8, 106u8, 97u8, 107u8, 108u8, 59u8, 102u8, 117u8, 101u8, 105u8, 102u8,
        59u8, 106u8, 97u8, 110u8, 102u8, 44u8, 100u8, 110u8, 102u8, 109u8, 44u8, 100u8, 104u8,
        102u8, 104u8, 102u8, 100u8, 107u8, 115u8, 107u8, 115u8,
    ];
    assert(v@ =~= starting_data());
    v
}

/// The id of the starting property at a place.
fn starting_id(place: usize) -> (id: u32)
    requires
        place < 4,
    ensures
        id == starting_ids()[place as int],
{
    if place == 0 {
        147229391
    } else if place == 1 {
        146480642
    } else {
        147031382
    }
}

impl Pallet {
    /// Puts the four starting properties into the pool, or none of them
    /// where the pool has no room for all four.
    fn add_starting_properties(&mut self) -> (joined: bool)
        requires
            old(self).wf(),
        ensures
            joined == (old(self)@.game_properties.len() + 4 <= MAX_PROPERTY),
            final(self)@ == (State { game_properties: final(self)@.game_properties, ..old(self)@ }),
            joined ==> starting_pool(old(self)@.game_properties, final(self)@.game_properties),
            !joined ==> final(self)@ == old(self)@,
            final(self).wf(),
    {
        let before: usize = pool_len(&self.game_properties);
        let mut place: usize = 0;
        while place < 4
            invariant
                place <= 4,
                old(self)@.wf(),
                before == old(self)@.game_properties.len(),
                self@ == (State { game_properties: self@.game_properties, ..old(self)@ }),
                self@.game_properties.len() == before + place,
                before + place <= MAX_PROPERTY,
                self@.game_properties.subrange(0, before as int) == old(self)@.game_properties,
                forall|k: int|
                    0 <= k < place ==> (#[trigger] self@.game_properties[before + k]).id
                        == starting_ids()[k] && self@.game_properties[before + k].data@
                        == starting_data(),
            decreases 4 - place,
        {
            let ghost pool = self@.game_properties;
            let property = PropertyInfoData { id: starting_id(place), data: starting_bytes() };
            match pool_try_push(&mut self.game_properties, property) {
                Ok(()) => {},
                Err(_) => {
                    pool_truncate(&mut self.game_properties, before);
                    assert(self@.game_properties =~= old(self)@.game_properties);
                    assert(self@.games_expiring == old(self)@.games_expiring);
                    assert(self@ == old(self)@);
                    return false;
                },
            }
            proof {
                assert(self@.games_expiring == old(self)@.games_expiring);
                assert(self@.game_properties.subrange(0, before as int) =~= pool.subrange(
                    0,
                    before as int,
                ));
                assert forall|k: int| 0 <= k < place + 1 implies (
                #[trigger] self@.game_properties[before + k]).id == starting_ids()[k]
                    && self@.game_properties[before + k].data@ == starting_data() by {
                    if k < place {
                        assert(self@.game_properties[before + k] == pool[before + k]);
                    }
                }
            }
            place = place + 1;
        }
        true
    }

    /// Sets a round up: records the colours of the eight collections that
    /// the registry will create from `first_collection` on, puts the four
    /// starting properties into the pool, and opens the next round.
    pub fn setup_game(&mut self, origin: Origin, first_collection: CollectionId) -> (r: Result<
        Receipt,
        Error,
    >)
        requires
            old(self).wf(),
        ensures
            agrees(
                r,
                old(self)@,
                final(self)@,
                old(self)@.setup_game(origin, first_collection, final(self)@.game_properties),
            ),
            r is Ok ==> starting_pool(old(self)@.game_properties, final(self)@.game_properties),
            final(self).wf(),
    {
        if origin.ensure_root().is_err() {
            return Err(Error::BadOrigin);
        }
        if first_collection > u32::MAX - 7 {
            return Err(Error::ArithmeticOverflow);
        }
        let before: usize = pool_len(&self.game_properties);
        if !self.add_starting_properties() {
            return Err(Error::TooManyTest);
        }
        if self.current_round == u32::MAX {
            pool_truncate(&mut self.game_properties, before);
            assert(self@.game_properties =~= old(self)@.game_properties);
            assert(self@.games_expiring == old(self)@.games_expiring);
            return Err(Error::ArithmeticOverflow);
        }
        let ghost stocked = self@;
        let mut effects: Vec<Effect> = Vec::new();
        let mut x: u32 = 0;
        while x < 8
            invariant
                x <= 8,
                first_collection + 7 <= u32::MAX,
                self@ == (State {
                    collection_color: colored(stocked.collection_color, first_collection, x as nat),
                    ..stocked
                }),
                effects@ == Seq::new(
                    x as nat,
                    |x: int| Effect::CreateCollection { collection_id: (first_collection + x) as u32 },
                ),
            decreases 8 - x,
        {
            let color: NftColor = match NftColor::from_index(x as usize) {
                Some(color) => color,
                None => {
                    return Err(Error::InvalidIndex);
                },
            };
            self.collection_color.insert(first_collection + x, color);
            effects.push(Effect::CreateCollection { collection_id: first_collection + x });
            x = x + 1;
            assert(self@.games_expiring == stocked.games_expiring);
            assert(effects@ =~= Seq::new(
                x as nat,
                |x: int| Effect::CreateCollection { collection_id: (first_collection + x) as u32 },
            ));
        }
        self.current_round = self.current_round + 1;
        self.round_active = true;
        proof {
            assert(self@.games_expiring == old(self)@.games_expiring);
        }
        Ok(Receipt { events: no_events(), effects })
    }

    /// Puts a game into the list of those that expire at a height.
    fn schedule(&mut self, height: BlockNumber, game_id: u32)
        requires
            old(self).wf(),
            old(self)@.bucket(height).len() < MAX_ONGOING_GAMES,
        ensures
            final(self)@ == (State {
                games_expiring: old(self)@.games_expiring.insert(
                    height,
                    old(self)@.bucket(height).push(game_id),
                ),
                ..old(self)@
            }),
            final(self).wf(),
    {
        let mut games: DueGames = match self.games_expiring.remove(&height) {
            Some(games) => games,
            None => due_new(),
        };
        let _ = due_try_push(&mut games, game_id);
        self.games_expiring.insert(height, games);
        assert(self@.games_expiring =~= old(self)@.games_expiring.insert(
            height,
            old(self)@.bucket(height).push(game_id),
        ));
    }

    /// Starts a game for the caller. `seed` is what the randomness oracle
    /// gave for the game; it picks the property, which leaves the pool.
    pub fn play_game(
        &mut self,
        origin: Origin,
        game_type: DifficultyLevel,
        now: BlockNumber,
        seed: &[u8],
    ) -> (r: Result<Receipt, Error>)
        requires
            old(self).wf(),
        ensures
            agrees(r, old(self)@, final(self)@, old(self)@.play_game(origin, game_type, now, seed@)),
            final(self).wf(),
    {
        let signer: AccountId = match origin.ensure_signed() {
            Ok(who) => who,
            Err(e) => {
                return Err(e);
            },
        };
        match self.check_enough_points(signer, game_type) {
            Err(e) => {
                return Err(e);
            },
            Ok(()) => {},
        }
        if !self.round_active {
            return Err(Error::NoActiveRound);
        }
        let mut user: User = match self.users(signer) {
            Some(user) => user,
            None => {
                return Err(Error::UserNotRegistered);
            },
        };
        let expiry: BlockNumber = height_after(now, window(game_type));
        let full: bool = match self.games_expiring.get(&expiry) {
            Some(games) => due_is_full(games),
            None => false,
        };
        if full {
            return Err(Error::TooManyGames);
        }
        let random: u32 = match random_u32(seed) {
            Ok(random) => random,
            Err(e) => {
                return Err(e);
            },
        };
        let size: usize = pool_len(&self.game_properties);
        if size == 0 {
            return Err(Error::NoProperty);
        }
        if self.game_id == u32::MAX {
            return Err(Error::ArithmeticOverflow);
        }
        let index: usize = (random as usize) % size;
        if self.current_round != user.last_played_round {
            user.nfts = CollectedColors::new();
            user.last_played_round = self.current_round;
        }
        let game_id: u32 = self.game_id;
        self.schedule(expiry, game_id);
        self.users.insert(signer, user);
        let property: PropertyInfoData = pool_remove(&mut self.game_properties, index);
        self.game_info.insert(
            game_id,
            GameData { difficulty: game_type, player: signer, property, guess: None },
        );
        self.game_id = game_id + 1;
        proof {
            let expected = old(self)@.play_game(origin, game_type, now, seed@)->Ok_0.state;
            assert(self@.games_expiring == expected.games_expiring);
            assert forall|h: BlockNumber| #[trigger]
                self@.games_expiring.contains_key(h) implies self@.games_expiring[h].len()
                <= MAX_ONGOING_GAMES by {
                if h != expiry {
                    assert(old(self)@.games_expiring.contains_key(h));
                }
            }
        }
        Ok(
            Receipt {
                events: one_event(
                    Event::GameStarted { player: signer, game_id, ending_block: expiry },
                ),
                effects: no_effects(),
            },
        )
    }

    /// Stores the caller's guess for a game of theirs.
    pub fn submit_answer(&mut self, origin: Origin, guess: u32, game_id: u32) -> (r: Result<
        Receipt,
        Error,
    >)
        requires
            old(self).wf(),
        ensures
            agrees(r, old(self)@, final(self)@, old(self)@.submit_answer(origin, guess, game_id)),
            final(self).wf(),
    {
        let signer: AccountId = match origin.ensure_signed() {
            Ok(who) => who,
            Err(e) => {
                return Err(e);
            },
        };
        match self.game_info.get(&game_id) {
            None => {
                return Err(Error::NoActiveGame);
            },
            Some(game) => {
                if game.player != signer {
                    return Err(Error::NoThePlayer);
                }
            },
        }
        match self.game_info.remove(&game_id) {
            None => {},
            Some(game) => {
                let mut game: GameData = game;
                game.guess = Some(guess);
                self.game_info.insert(game_id, game);
            },
        }
        proof {
            assert(self@.games_expiring == old(self)@.games_expiring);
            assert(self@.game_info =~= old(self)@.game_info.insert(
                game_id,
                GameData { guess: Some(guess), ..old(self)@.game_info[game_id] },
            ));
        }
        Ok(
            Receipt {
                events: one_event(Event::AnswerSubmitted { player: signer, game_id, guess }),
                effects: no_effects(),
            },
        )
    }

    /// Resolves an answered game from the permille difference of its answer
    /// and pays the reward or takes the penalty. `seed` is what the
    /// randomness oracle gave for the game; it picks the colour of the NFT
    /// where one is won.
    pub fn do_check_result(&mut self, difference: u16, game_id: u32, secret: Vec<u8>, seed: &[u8])
        -> (r: Result<Receipt, Error>)
        requires
            old(self).wf(),
        ensures
            agrees(
                r,
                old(self)@,
                final(self)@,
                old(self)@.do_check_result(difference, game_id, secret, seed@),
            ),
            final(self).wf(),
    {
        let difficulty: DifficultyLevel;
        let player: AccountId;
        match self.game_info.get(&game_id) {
            None => {
                return Err(Error::NoActiveGame);
            },
            Some(game) => {
                if game.guess.is_none() {
                    return Err(Error::NoGuess);
                }
                difficulty = game.difficulty;
                player = game.player;
            },
        }
        let v: Verdict = verdict(difficulty, difference);
        if v.nft_received {
            let random: u32 = match random_u32(seed) {
                Ok(random) => random,
                Err(e) => {
                    return Err(e);
                },
            };
            if self.current_round == 0 {
                return Err(Error::ArithmeticUnderflow);
            }
            let wide: u64 = (random % 8) as u64 + 8 * ((self.current_round - 1) as u64);
            if wide > 0xffff_ffff {
                return Err(Error::ArithmeticOverflow);
            }
            let collection: CollectionId = wide as u32;
            let item: u32 = self.next_color_id(collection);
            if item == u32::MAX {
                return Err(Error::ArithmeticOverflow);
            }
            let user: User = match self.users(player) {
                Some(user) => user,
                None => {
                    return Err(Error::UserNotRegistered);
                },
            };
            let color: NftColor = match self.collection_color(collection) {
                Some(color) => color,
                None => {
                    return Err(Error::CollectionUnknown);
                },
            };
            let mut next: User = match rewarded(user, color) {
                Ok(next) => next,
                Err(e) => {
                    return Err(e);
                },
            };
            let points: u32 = next.calculate_points(color);
            self.game_info.remove(&game_id);
            self.next_color_id.insert(collection, item + 1);
            assert(self@.games_expiring == old(self)@.games_expiring);
            self.credit(player, next, true);
            Ok(
                Receipt {
                    events: one_event(
                        Event::ResultChecked {
                            game_id,
                            secret,
                            points,
                            won: true,
                            nft_received: true,
                        },
                    ),
                    effects: two_effects(
                        Effect::Mint { collection_id: collection, item_id: item, to: player },
                        Effect::Lock { collection_id: collection, item_id: item },
                    ),
                },
            )
        } else {
            let user: User = match self.users(player) {
                Some(user) => user,
                None => {
                    return Err(Error::UserNotRegistered);
                },
            };
            let next: User = match settled(user, difficulty, difference) {
                Ok(next) => next,
                Err(e) => {
                    return Err(e);
                },
            };
            self.game_info.remove(&game_id);
            assert(self@.games_expiring == old(self)@.games_expiring);
            self.credit(player, next, false);
            Ok(
                Receipt {
                    events: one_event(
                        Event::ResultChecked {
                            game_id,
                            secret,
                            points: v.points,
                            won: v.won,
                            nft_received: false,
                        },
                    ),
                    effects: no_effects(),
                },
            )
        }
    }

    /// Resolves an answered game from the guess and the true price. Only the
    /// privileged caller may do so.
    pub fn check_result(
        &mut self,
        origin: Origin,
        guess: u32,
        game_id: u32,
        price: u32,
        secret: Vec<u8>,
        seed: &[u8],
    ) -> (r: Result<Receipt, Error>)
        requires
            old(self).wf(),
        ensures
            agrees(
                r,
                old(self)@,
                final(self)@,
                old(self)@.check_result(origin, guess, game_id, price, secret, seed@),
            ),
            final(self).wf(),
    {
        if origin.ensure_root().is_err() {
            return Err(Error::BadOrigin);
        }
        match permille_difference(guess, price) {
            Err(e) => Err(e),
            Ok(difference) => self.do_check_result(difference, game_id, secret, seed),
        }
    }

    /// Takes the penalty for a game that was not answered in time.
    pub fn no_answer_result(&mut self, game_info: GameData, game_id: u32) -> (r: Result<
        Receipt,
        Error,
    >)
        requires
            old(self).wf(),
        ensures
            agrees(r, old(self)@, final(self)@, old(self)@.no_answer_result(game_info, game_id)),
            final(self).wf(),
    {
        match game_info.difficulty {
            DifficultyLevel::Practice => Ok(Receipt { events: no_events(), effects: no_effects() }),
            _ => {
                let user: User = match self.users(game_info.player) {
                    Some(user) => user,
                    None => {
                        return Err(Error::UserNotRegistered);
                    },
                };
                let next: User = match expired(user, game_info.difficulty) {
                    Ok(next) => next,
                    Err(e) => {
                        return Err(e);
                    },
                };
                self.users.insert(game_info.player, next);
                assert(self@.games_expiring == old(self)@.games_expiring);
                Ok(
                    Receipt {
                        events: one_event(
                            Event::NoAnswer {
                                game_id,
                                points: expiry_penalty(game_info.difficulty),
                            },
                        ),
                        effects: no_effects(),
                    },
                )
            },
        }
    }

    /// The tick of the clock: closes the games that expire at `now` and were
    /// not answered, each with its penalty where that can be taken. Games
    /// that were answered stay and wait to be resolved.
    pub fn on_initialize(&mut self, now: BlockNumber) -> (r: Receipt)
        requires
            old(self).wf(),
        ensures
            final(self)@ == old(self)@.on_initialize(now).state,
            r.events@ == old(self)@.on_initialize(now).events,
            r.effects@ == old(self)@.on_initialize(now).effects,
            final(self).wf(),
    {
        let ghost start = State {
            games_expiring: old(self)@.games_expiring.remove(now),
            ..old(self)@
        };
        let listed: DueGames = match self.games_expiring.remove(&now) {
            Some(games) => games,
            None => due_new(),
        };
        let due: Vec<u32> = due_to_vec(&listed);
        let mut events: Vec<Event> = Vec::new();
        proof {
            assert(self@.games_expiring =~= start.games_expiring);
            assert(due@ =~= old(self)@.bucket(now));
            assert(due@.subrange(0, 0) =~= Seq::<u32>::empty());
        }
        let mut i: usize = 0;
        while i < due.len()
            invariant
                i <= due.len(),
                self.wf(),
                start.expire_all(due@.subrange(0, i as int)) == (Outcome {
                    state: self@,
                    events: events@,
                    effects: Seq::empty(),
                }),
            decreases due.len() - i,
        {
            let game_id: u32 = due[i];
            let ghost before = self@;
            let ghost reported = events@;
            let unanswered: bool = match self.game_info.get(&game_id) {
                Some(game) => game.guess.is_none(),
                None => false,
            };
            if unanswered {
                match self.game_info.remove(&game_id) {
                    None => {},
                    Some(game) => {
                        assert(self@.games_expiring == before.games_expiring);
                        match self.no_answer_result(game, game_id) {
                            Ok(receipt) => {
                                let mut receipt: Receipt = receipt;
                                events.append(&mut receipt.events);
                            },
                            Err(_) => {},
                        }
                    },
                }
            }
            proof {
                let next = due@.subrange(0, i + 1);
                assert(next.drop_last() =~= due@.subrange(0, i as int));
                assert(next.last() == game_id);
                assert(events@ =~= reported + before.expire_one(game_id).events);
                assert(self@ == before.expire_one(game_id).state);
            }
            i = i + 1;
        }
        assert(due@.subrange(0, due.len() as int) =~= due@);
        Receipt { events, effects: no_effects() }
    }
}

} // verus!
