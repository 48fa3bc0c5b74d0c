//! The mathematical model of the game: its state as maps and sequences, and
//! each operation as a function from the state before to the state after.

use vstd::prelude::*;
use crate::bounded::{LEADERBOARD_LIMIT, MAX_ADMINS, MAX_ONGOING_GAMES, MAX_PROPERTY};
use crate::leaderboard::{spec_update, valid};
use crate::scoring::{
    spec_difference, spec_eligible, spec_expired, spec_expiry_penalty, spec_random_u32,
    spec_rewarded, spec_settled, spec_swapped, spec_verdict, spec_window,
};
use crate::types::{
    marginal_value, AccountId, BlockNumber, CollectedColors, CollectionId, Config,
    DifficultyLevel, Effect, Error, Event, GameData, ItemId, ListingInfo, NftColor, Offer,
    OfferInfo, Origin, PropertyInfoData, User,
};

verus! {

/// The balance that registration and the faucet set.
pub const FAUCET_AMOUNT: u64 = 10_000_000_000_000;

/// Everything the game remembers.
pub struct State {
    pub config: Config,
    /// The number of the current round; 0 before the first one.
    pub current_round: u32,
    pub round_active: bool,
    /// The champion of each round that has ended.
    pub round_champion: Map<u32, AccountId>,
    /// The next item to mint in each collection; 0 where nothing is recorded.
    pub next_color_id: Map<CollectionId, u32>,
    pub collection_color: Map<CollectionId, NftColor>,
    pub next_listing_id: u32,
    pub next_offer_id: u32,
    /// The id of the next game.
    pub game_id: u32,
    pub leaderboard: Seq<(AccountId, u32)>,
    pub users: Map<AccountId, User>,
    pub game_info: Map<u32, GameData>,
    pub listings: Map<u32, ListingInfo>,
    pub offers: Map<u32, OfferInfo>,
    /// The games that expire at a height, in the order they started.
    pub games_expiring: Map<BlockNumber, Seq<u32>>,
    pub game_properties: Seq<PropertyInfoData>,
    pub admins: Seq<AccountId>,
}

/// What an operation that succeeded leaves behind: the new state, what it
/// reports, and what the caller has to carry out.
pub struct Outcome {
    pub state: State,
    pub events: Seq<Event>,
    pub effects: Seq<Effect>,
}

/// An outcome without notifications or effects.
pub open spec fn silent(state: State) -> Outcome {
    Outcome { state, events: Seq::empty(), effects: Seq::empty() }
}

/// The sum of a height and a span, held at the largest height.
pub open spec fn saturating_height(now: BlockNumber, span: BlockNumber) -> BlockNumber {
    if now + span > u64::MAX {
        u64::MAX
    } else {
        (now + span) as u64
    }
}

/// The first place at or after `from` that holds `who`; the length if none
/// does.
pub open spec fn first_index(list: Seq<AccountId>, who: AccountId, from: int) -> int
    decreases list.len() - from,
{
    if from >= list.len() {
        list.len() as int
    } else if list[from] == who {
        from
    } else {
        first_index(list, who, from + 1)
    }
}

/// The pool without the properties of a given id.
pub open spec fn without_id(pool: Seq<PropertyInfoData>, id: u32) -> Seq<PropertyInfoData>
    decreases pool.len(),
{
    if pool.len() == 0 {
        pool
    } else if pool.last().id == id {
        without_id(pool.drop_last(), id)
    } else {
        without_id(pool.drop_last(), id).push(pool.last())
    }
}

impl State {
    /// The state of a game that nobody has touched.
    pub open spec fn initial(config: Config) -> State {
        State {
            config,
            current_round: 0,
            round_active: false,
            round_champion: Map::empty(),
            next_color_id: Map::empty(),
            collection_color: Map::empty(),
            next_listing_id: 0,
            next_offer_id: 0,
            game_id: 0,
            leaderboard: Seq::empty(),
            users: Map::empty(),
            game_info: Map::empty(),
            listings: Map::empty(),
            offers: Map::empty(),
            games_expiring: Map::empty(),
            game_properties: Seq::empty(),
            admins: Seq::empty(),
        }
    }

    /// The limits hold: the leaderboard is within capacity, sorted and
    /// without repeated accounts; pool, admins and the games of each
    /// height are within their bounds.
    pub open spec fn wf(self) -> bool {
        &&& valid(self.leaderboard, LEADERBOARD_LIMIT as nat)
        &&& self.game_properties.len() <= MAX_PROPERTY
        &&& self.admins.len() <= MAX_ADMINS
        &&& forall|h: BlockNumber| #[trigger]
            self.games_expiring.contains_key(h) ==> self.games_expiring[h].len()
                <= MAX_ONGOING_GAMES
    }

    pub open spec fn is_admin(self, who: AccountId) -> bool {
        first_index(self.admins, who, 0) < self.admins.len()
    }

    /// The games that expire at a height.
    pub open spec fn bucket(self, height: BlockNumber) -> Seq<u32> {
        if self.games_expiring.contains_key(height) {
            self.games_expiring[height]
        } else {
            Seq::empty()
        }
    }

    /// The next item to mint in a collection.
    pub open spec fn next_item(self, collection: CollectionId) -> u32 {
        if self.next_color_id.contains_key(collection) {
            self.next_color_id[collection]
        } else {
            0
        }
    }

    /// The round ends with `winner` as its champion.
    pub open spec fn ended(self, winner: AccountId) -> State {
        State {
            round_active: false,
            round_champion: self.round_champion.insert(self.current_round, winner),
            ..self
        }
    }

    /// The leaderboard learns the points of an account.
    pub open spec fn ranked(self, who: AccountId, points: u32) -> State {
        State {
            leaderboard: spec_update(self.leaderboard, LEADERBOARD_LIMIT as nat, who, points),
            ..self
        }
    }

    /// Setting up a round: eight collections, one per colour, starting at
    /// `first_collection`; the four starting properties join the pool; the
    /// round counter advances and the round is active. `pool` is the pool
    /// after the starting properties have joined.
    pub open spec fn setup_game(
        self,
        origin: Origin,
        first_collection: CollectionId,
        pool: Seq<PropertyInfoData>,
    ) -> Result<Outcome, Error> {
        if !origin.privileged() {
            Err(Error::BadOrigin)
        } else if first_collection + 7 > u32::MAX {
            Err(Error::ArithmeticOverflow)
        } else if self.game_properties.len() + 4 > MAX_PROPERTY {
            Err(Error::TooManyTest)
        } else if self.current_round == u32::MAX {
            Err(Error::ArithmeticOverflow)
        } else {
            Ok(
                Outcome {
                    state: State {
                        collection_color: colored(self.collection_color, first_collection, 8),
                        game_properties: pool,
                        current_round: (self.current_round + 1) as u32,
                        round_active: true,
                        ..self
                    },
                    events: Seq::empty(),
                    effects: Seq::new(
                        8,
                        |x: int|
                            Effect::CreateCollection {
                                collection_id: (first_collection + x) as u32,
                            },
                    ),
                },
            )
        }
    }

    pub open spec fn register_user(self, origin: Origin, player: AccountId, now: BlockNumber)
        -> Result<Outcome, Error> {
        match origin.signer() {
            Err(e) => Err(e),
            Ok(signer) => if !self.is_admin(signer) {
                Err(Error::NoPermission)
            } else if self.users.contains_key(player) {
                Err(Error::PlayerAlreadyRegistered)
            } else {
                Ok(
                    Outcome {
                        state: State {
                            users: self.users.insert(
                                player,
                                User::registered(
                                    saturating_height(now, self.config.request_limit),
                                ),
                            ),
                            ..self
                        },
                        events: seq![Event::NewPlayerRegistered { player }],
                        effects: seq![Effect::SetBalance { who: player, amount: FAUCET_AMOUNT }],
                    },
                )
            },
        }
    }

    pub open spec fn give_points(self, origin: Origin, receiver: AccountId, amount: u32)
        -> Result<Outcome, Error> {
        if !origin.privileged() {
            Err(Error::BadOrigin)
        } else if !self.users.contains_key(receiver) {
            Err(Error::UserNotRegistered)
        } else if self.users[receiver].points + amount > u32::MAX {
            Err(Error::ArithmeticOverflow)
        } else {
            Ok(
                Outcome {
                    state: State {
                        users: self.users.insert(
                            receiver,
                            User {
                                points: (self.users[receiver].points + amount) as u32,
                                ..self.users[receiver]
                            },
                        ),
                        ..self
                    },
                    events: seq![Event::PointsReceived { receiver, amount }],
                    effects: Seq::empty(),
                },
            )
        }
    }

    /// Whether an account may start a game of a difficulty.
    pub open spec fn check_enough_points(self, signer: AccountId, game_type: DifficultyLevel)
        -> Result<(), Error> {
        if !self.users.contains_key(signer) {
            Err(Error::UserNotRegistered)
        } else {
            spec_eligible(self.users[signer], game_type)
        }
    }

    /// The profile with which a player enters a game: in a round that the
    /// player has not played yet, the collection starts afresh.
    pub open spec fn entering(self, user: User) -> User {
        if self.current_round != user.last_played_round {
            User { nfts: CollectedColors::empty(), last_played_round: self.current_round, ..user }
        } else {
            user
        }
    }

    /// Starting a game. The property is the one at place `random mod pool
    /// size`, where `random` is read from the seed; it leaves the pool.
    pub open spec fn play_game(
        self,
        origin: Origin,
        game_type: DifficultyLevel,
        now: BlockNumber,
        seed: Seq<u8>,
    ) -> Result<Outcome, Error> {
        let expiry = saturating_height(now, spec_window(game_type));
        match origin.signer() {
            Err(e) => Err(e),
            Ok(signer) => if self.check_enough_points(signer, game_type) is Err {
                Err(self.check_enough_points(signer, game_type)->Err_0)
            } else if !self.round_active {
                Err(Error::NoActiveRound)
            } else if self.bucket(expiry).len() >= MAX_ONGOING_GAMES {
                Err(Error::TooManyGames)
            } else if spec_random_u32(seed) is Err {
                Err(Error::ConversionError)
            } else if self.game_properties.len() == 0 {
                Err(Error::NoProperty)
            } else if self.game_id == u32::MAX {
                Err(Error::ArithmeticOverflow)
            } else {
                let index = spec_random_u32(seed)->Ok_0 as int % self.game_properties.len() as int;
                Ok(
                    Outcome {
                        state: State {
                            users: self.users.insert(signer, self.entering(self.users[signer])),
                            games_expiring: self.games_expiring.insert(
                                expiry,
                                self.bucket(expiry).push(self.game_id),
                            ),
                            game_properties: self.game_properties.remove(index),
                            game_info: self.game_info.insert(
                                self.game_id,
                                GameData {
                                    difficulty: game_type,
                                    player: signer,
                                    property: self.game_properties[index],
                                    guess: None,
                                },
                            ),
                            game_id: (self.game_id + 1) as u32,
                            ..self
                        },
                        events: seq![
                            Event::GameStarted {
                                player: signer,
                                game_id: self.game_id,
                                ending_block: expiry,
                            },
                        ],
                        effects: Seq::empty(),
                    },
                )
            },
        }
    }

    pub open spec fn submit_answer(self, origin: Origin, guess: u32, game_id: u32) -> Result<
        Outcome,
        Error,
    > {
        match origin.signer() {
            Err(e) => Err(e),
            Ok(signer) => if !self.game_info.contains_key(game_id) {
                Err(Error::NoActiveGame)
            } else if self.game_info[game_id].player != signer {
                Err(Error::NoThePlayer)
            } else {
                Ok(
                    Outcome {
                        state: State {
                            game_info: self.game_info.insert(
                                game_id,
                                GameData { guess: Some(guess), ..self.game_info[game_id] },
                            ),
                            ..self
                        },
                        events: seq![Event::AnswerSubmitted { player: signer, game_id, guess }],
                        effects: Seq::empty(),
                    },
                )
            },
        }
    }

    /// The collection whose NFT a won game of this round mints, for a random
    /// number.
    pub open spec fn minted_collection(self, random: u32) -> Result<CollectionId, Error> {
        if self.current_round == 0 {
            Err(Error::ArithmeticUnderflow)
        } else if random % 8 + 8 * (self.current_round - 1) > u32::MAX {
            Err(Error::ArithmeticOverflow)
        } else {
            Ok((random % 8 + 8 * (self.current_round - 1)) as u32)
        }
    }

    /// The state after `who` has a new profile: the profile is stored, the
    /// leaderboard learns its points, and a full set ends the round.
    pub open spec fn credited(self, who: AccountId, user: User, ends_round: bool) -> State {
        let stored = State { users: self.users.insert(who, user), ..self };
        if ends_round && user.nfts.complete() {
            stored.ended(who).ranked(who, user.points)
        } else {
            stored.ranked(who, user.points)
        }
    }

    /// Resolving a game from the permille difference of its answer.
    pub open spec fn do_check_result(
        self,
        difference: u16,
        game_id: u32,
        secret: Vec<u8>,
        seed: Seq<u8>,
    ) -> Result<Outcome, Error> {
        if !self.game_info.contains_key(game_id) {
            Err(Error::NoActiveGame)
        } else if self.game_info[game_id].guess is None {
            Err(Error::NoGuess)
        } else {
            let game = self.game_info[game_id];
            let v = spec_verdict(game.difficulty, difference);
            let closed = State { game_info: self.game_info.remove(game_id), ..self };
            if v.nft_received {
                if spec_random_u32(seed) is Err {
                    Err(Error::ConversionError)
                } else if self.minted_collection(spec_random_u32(seed)->Ok_0) is Err {
                    Err(self.minted_collection(spec_random_u32(seed)->Ok_0)->Err_0)
                } else {
                    let collection = self.minted_collection(spec_random_u32(seed)->Ok_0)->Ok_0;
                    let item = self.next_item(collection);
                    if item == u32::MAX {
                        Err(Error::ArithmeticOverflow)
                    } else if !self.users.contains_key(game.player) {
                        Err(Error::UserNotRegistered)
                    } else if !self.collection_color.contains_key(collection) {
                        Err(Error::CollectionUnknown)
                    } else {
                        let color = self.collection_color[collection];
                        match spec_rewarded(self.users[game.player], color) {
                            Err(e) => Err(e),
                            Ok(user) => Ok(
                                Outcome {
                                    state: State {
                                        next_color_id: self.next_color_id.insert(
                                            collection,
                                            (item + 1) as u32,
                                        ),
                                        ..closed
                                    }.credited(game.player, user, true),
                                    events: seq![
                                        Event::ResultChecked {
                                            game_id,
                                            secret,
                                            points: marginal_value(user.nfts.count(color) as int),
                                            won: true,
                                            nft_received: true,
                                        },
                                    ],
                                    effects: seq![
                                        Effect::Mint {
                                            collection_id: collection,
                                            item_id: item,
                                            to: game.player,
                                        },
                                        Effect::Lock { collection_id: collection, item_id: item },
                                    ],
                                },
                            ),
                        }
                    }
                }
            } else if !self.users.contains_key(game.player) {
                Err(Error::UserNotRegistered)
            } else {
                match spec_settled(self.users[game.player], game.difficulty, difference) {
                    Err(e) => Err(e),
                    Ok(user) => Ok(
                        Outcome {
                            state: closed.credited(game.player, user, false),
                            events: seq![
                                Event::ResultChecked {
                                    game_id,
                                    secret,
                                    points: v.points,
                                    won: v.won,
                                    nft_received: false,
                                },
                            ],
                            effects: Seq::empty(),
                        },
                    ),
                }
            }
        }
    }

    /// Resolving a game from the guess and the true price.
    pub open spec fn check_result(
        self,
        origin: Origin,
        guess: u32,
        game_id: u32,
        price: u32,
        secret: Vec<u8>,
        seed: Seq<u8>,
    ) -> Result<Outcome, Error> {
        if !origin.privileged() {
            Err(Error::BadOrigin)
        } else {
            match spec_difference(guess, price) {
                Err(e) => Err(e),
                Ok(difference) => self.do_check_result(difference, game_id, secret, seed),
            }
        }
    }

    /// The penalty for a game that was not answered in time.
    pub open spec fn no_answer_result(self, game: GameData, game_id: u32) -> Result<
        Outcome,
        Error,
    > {
        if game.difficulty == DifficultyLevel::Practice {
            Ok(silent(self))
        } else if !self.users.contains_key(game.player) {
            Err(Error::UserNotRegistered)
        } else {
            match spec_expired(self.users[game.player], game.difficulty) {
                Err(e) => Err(e),
                Ok(user) => Ok(
                    Outcome {
                        state: State { users: self.users.insert(game.player, user), ..self },
                        events: seq![
                            Event::NoAnswer {
                                game_id,
                                points: spec_expiry_penalty(game.difficulty),
                            },
                        ],
                        effects: Seq::empty(),
                    },
                ),
            }
        }
    }

    /// One due game: without a guess it is closed and its penalty applied,
    /// where the penalty can be applied; with a guess, or unknown, nothing
    /// happens.
    pub open spec fn expire_one(self, game_id: u32) -> Outcome {
        if !self.game_info.contains_key(game_id) || self.game_info[game_id].guess is Some {
            silent(self)
        } else {
            let closed = State { game_info: self.game_info.remove(game_id), ..self };
            match closed.no_answer_result(self.game_info[game_id], game_id) {
                Ok(outcome) => outcome,
                Err(_) => silent(closed),
            }
        }
    }

    /// The due games one after the other, in their order.
    pub open spec fn expire_all(self, ids: Seq<u32>) -> Outcome
        decreases ids.len(),
    {
        if ids.len() == 0 {
            silent(self)
        } else {
            let before = self.expire_all(ids.drop_last());
            let last = before.state.expire_one(ids.last());
            Outcome {
                state: last.state,
                events: before.events + last.events,
                effects: Seq::empty(),
            }
        }
    }

    /// The tick of the clock at height `now`.
    pub open spec fn on_initialize(self, now: BlockNumber) -> Outcome {
        State { games_expiring: self.games_expiring.remove(now), ..self }.expire_all(
            self.bucket(now),
        )
    }

    pub open spec fn list_nft(
        self,
        origin: Origin,
        collection_id: CollectionId,
        item_id: ItemId,
        registry_owner: Option<AccountId>,
    ) -> Result<Outcome, Error> {
        match origin.signer() {
            Err(e) => Err(e),
            Ok(signer) => if registry_owner != Some(signer) {
                Err(Error::NoPermission)
            } else if self.next_listing_id == u32::MAX {
                Err(Error::ArithmeticOverflow)
            } else {
                Ok(
                    Outcome {
                        state: State {
                            listings: self.listings.insert(
                                self.next_listing_id,
                                ListingInfo { owner: signer, collection_id, item_id },
                            ),
                            next_listing_id: (self.next_listing_id + 1) as u32,
                            ..self
                        },
                        events: seq![Event::NftListed { owner: signer, collection_id, item_id }],
                        effects: escrowed(collection_id, item_id, signer),
                    },
                )
            },
        }
    }

    pub open spec fn delist_nft(self, origin: Origin, listing_id: u32) -> Result<Outcome, Error> {
        match origin.signer() {
            Err(e) => Err(e),
            Ok(signer) => if !self.listings.contains_key(listing_id) {
                Err(Error::ListingDoesNotExist)
            } else if self.listings[listing_id].owner != signer {
                Err(Error::NoPermission)
            } else {
                let listing = self.listings[listing_id];
                Ok(
                    Outcome {
                        state: State { listings: self.listings.remove(listing_id), ..self },
                        events: seq![
                            Event::NftDelisted {
                                owner: signer,
                                collection_id: listing.collection_id,
                                item_id: listing.item_id,
                            },
                        ],
                        effects: released(listing.collection_id, listing.item_id, signer),
                    },
                )
            },
        }
    }

    pub open spec fn make_offer(
        self,
        origin: Origin,
        listing_id: u32,
        collection_id: CollectionId,
        item_id: ItemId,
    ) -> Result<Outcome, Error> {
        match origin.signer() {
            Err(e) => Err(e),
            Ok(signer) => if !self.listings.contains_key(listing_id) {
                Err(Error::ListingDoesNotExist)
            } else if self.next_offer_id == u32::MAX {
                Err(Error::ArithmeticOverflow)
            } else {
                Ok(
                    Outcome {
                        state: State {
                            offers: self.offers.insert(
                                self.next_offer_id,
                                OfferInfo { owner: signer, listing_id, collection_id, item_id },
                            ),
                            next_offer_id: (self.next_offer_id + 1) as u32,
                            ..self
                        },
                        events: seq![
                            Event::OfferMade { owner: signer, listing_id, collection_id, item_id },
                        ],
                        effects: escrowed(collection_id, item_id, signer),
                    },
                )
            },
        }
    }

    pub open spec fn withdraw_offer(self, origin: Origin, offer_id: u32) -> Result<
        Outcome,
        Error,
    > {
        match origin.signer() {
            Err(e) => Err(e),
            Ok(signer) => if !self.offers.contains_key(offer_id) {
                Err(Error::OfferDoesNotExist)
            } else if self.offers[offer_id].owner != signer {
                Err(Error::NoPermission)
            } else {
                let offer = self.offers[offer_id];
                Ok(
                    Outcome {
                        state: State { offers: self.offers.remove(offer_id), ..self },
                        events: seq![Event::OfferWithdrawn { owner: signer, offer_id }],
                        effects: released(offer.collection_id, offer.item_id, signer),
                    },
                )
            },
        }
    }

    /// The profile of `holder` after gaining an NFT of one collection and
    /// giving up one of another.
    pub open spec fn swapped_user(
        self,
        holder: AccountId,
        gained: CollectionId,
        given: CollectionId,
    ) -> Result<User, Error> {
        traded(profile(self.users, holder), self.collection_color, gained, given)
    }

    /// One side of a trade: the holder's points and colours change, the
    /// leaderboard follows, and a full set ends the round.
    pub open spec fn swap_user_points(
        self,
        holder: AccountId,
        gained: CollectionId,
        given: CollectionId,
    ) -> Result<State, Error> {
        match self.swapped_user(holder, gained, given) {
            Err(e) => Err(e),
            Ok(user) => Ok(self.credited(holder, user, true)),
        }
    }

    pub open spec fn handle_offer(self, origin: Origin, offer_id: u32, offer: Offer) -> Result<
        Outcome,
        Error,
    > {
        match origin.signer() {
            Err(e) => Err(e),
            Ok(signer) => if !self.offers.contains_key(offer_id) {
                Err(Error::OfferDoesNotExist)
            } else if !self.listings.contains_key(self.offers[offer_id].listing_id) {
                Err(Error::ListingDoesNotExist)
            } else if self.listings[self.offers[offer_id].listing_id].owner != signer {
                Err(Error::NoPermission)
            } else {
                let bid = self.offers[offer_id];
                let listing = self.listings[bid.listing_id];
                let back = released(
                    bid.collection_id,
                    bid.item_id,
                    if offer == Offer::Accept { signer } else { bid.owner },
                );
                let events = seq![Event::OfferHandeld { offer_id, offer }];
                if offer == Offer::Accept {
                    let cleared = State {
                        offers: self.offers.remove(offer_id),
                        listings: self.listings.remove(bid.listing_id),
                        ..self
                    };
                    match cleared.swap_user_points(
                        bid.owner,
                        listing.collection_id,
                        bid.collection_id,
                    ) {
                        Err(e) => Err(e),
                        Ok(half) => match half.swap_user_points(
                            signer,
                            bid.collection_id,
                            listing.collection_id,
                        ) {
                            Err(e) => Err(e),
                            Ok(state) => Ok(
                                Outcome {
                                    state,
                                    events,
                                    effects: released(
                                        listing.collection_id,
                                        listing.item_id,
                                        bid.owner,
                                    ) + back,
                                },
                            ),
                        },
                    }
                } else {
                    Ok(
                        Outcome {
                            state: State { offers: self.offers.remove(offer_id), ..self },
                            events,
                            effects: back,
                        },
                    )
                }
            },
        }
    }

    pub open spec fn add_property(self, origin: Origin, property: PropertyInfoData) -> Result<
        Outcome,
        Error,
    > {
        if !origin.privileged() {
            Err(Error::BadOrigin)
        } else if self.game_properties.len() >= MAX_PROPERTY {
            Err(Error::TooManyTest)
        } else {
            Ok(silent(State { game_properties: self.game_properties.push(property), ..self }))
        }
    }

    pub open spec fn remove_property(self, origin: Origin, id: u32) -> Result<Outcome, Error> {
        if !origin.privileged() {
            Err(Error::BadOrigin)
        } else {
            Ok(silent(State { game_properties: without_id(self.game_properties, id), ..self }))
        }
    }

    pub open spec fn add_to_admins(self, origin: Origin, new_admin: AccountId) -> Result<
        Outcome,
        Error,
    > {
        if !origin.privileged() {
            Err(Error::BadOrigin)
        } else if self.is_admin(new_admin) {
            Err(Error::AccountAlreadyAdmin)
        } else if self.admins.len() >= MAX_ADMINS {
            Err(Error::TooManyAdmins)
        } else {
            Ok(
                Outcome {
                    state: State { admins: self.admins.push(new_admin), ..self },
                    events: seq![Event::NewAdminAdded { new_admin }],
                    effects: Seq::empty(),
                },
            )
        }
    }

    pub open spec fn remove_from_admins(self, origin: Origin, admin: AccountId) -> Result<
        Outcome,
        Error,
    > {
        if !origin.privileged() {
            Err(Error::BadOrigin)
        } else if !self.is_admin(admin) {
            Err(Error::NotAdmin)
        } else {
            Ok(
                Outcome {
                    state: State {
                        admins: self.admins.remove(first_index(self.admins, admin, 0)),
                        ..self
                    },
                    events: seq![Event::AdminRemoved { admin }],
                    effects: Seq::empty(),
                },
            )
        }
    }

    pub open spec fn request_token(self, origin: Origin, now: BlockNumber) -> Result<
        Outcome,
        Error,
    > {
        match origin.signer() {
            Err(e) => Err(e),
            Ok(signer) => if !self.users.contains_key(signer) {
                Err(Error::UserNotRegistered)
            } else if self.users[signer].next_token_request >= now {
                Err(Error::CantRequestToken)
            } else {
                Ok(
                    Outcome {
                        state: State {
                            users: self.users.insert(
                                signer,
                                User {
                                    next_token_request: saturating_height(
                                        now,
                                        self.config.request_limit,
                                    ),
                                    ..self.users[signer]
                                },
                            ),
                            ..self
                        },
                        events: seq![Event::TokenReceived { player: signer }],
                        effects: seq![Effect::SetBalance { who: signer, amount: FAUCET_AMOUNT }],
                    },
                )
            },
        }
    }

    /// Whether starting a game is free of charge for the caller.
    pub open spec fn play_game_feeless(self, origin: Origin, game_type: DifficultyLevel) -> bool {
        match origin {
            Origin::Root => false,
            Origin::Signed(signer) => match game_type {
                DifficultyLevel::Practice => true,
                DifficultyLevel::Player => self.users.contains_key(signer)
                    && self.users[signer].points >= 25,
                DifficultyLevel::Pro => self.users.contains_key(signer)
                    && self.users[signer].points >= 50,
            },
        }
    }

    /// Whether submitting an answer is free of charge for the caller.
    pub open spec fn submit_answer_feeless(self, origin: Origin, game_id: u32) -> bool {
        match origin {
            Origin::Root => false,
            Origin::Signed(signer) => self.game_info.contains_key(game_id)
                && self.game_info[game_id].player == signer,
        }
    }
}

/// Taking an item into custody: it is unlocked, moved, and locked again.
pub open spec fn escrowed(collection_id: CollectionId, item_id: ItemId, from: AccountId) -> Seq<
    Effect,
> {
    seq![
        Effect::Unlock { collection_id, item_id },
        Effect::Escrow { collection_id, item_id, from },
        Effect::Lock { collection_id, item_id },
    ]
}

/// Handing an item out of custody: it is unlocked, moved, and locked again.
pub open spec fn released(collection_id: CollectionId, item_id: ItemId, to: AccountId) -> Seq<
    Effect,
> {
    seq![
        Effect::Unlock { collection_id, item_id },
        Effect::Release { collection_id, item_id, to },
        Effect::Lock { collection_id, item_id },
    ]
}

/// Whether the effect at a place moves an item across custody.
pub open spec fn moves_item(effects: Seq<Effect>, at: int) -> bool {
    effects[at] is Escrow || effects[at] is Release
}

/// The item that an effect is about, if it is about one.
pub open spec fn item_of(effect: Effect) -> Option<(CollectionId, ItemId)> {
    match effect {
        Effect::Unlock { collection_id, item_id } => Some((collection_id, item_id)),
        Effect::Lock { collection_id, item_id } => Some((collection_id, item_id)),
        Effect::Escrow { collection_id, item_id, .. } => Some((collection_id, item_id)),
        Effect::Release { collection_id, item_id, .. } => Some((collection_id, item_id)),
        Effect::Mint { collection_id, item_id, .. } => Some((collection_id, item_id)),
        _ => None,
    }
}

/// Every move across custody has the unlock of its item right before it and
/// the lock of its item right after it.
pub open spec fn paired(effects: Seq<Effect>) -> bool {
    forall|at: int|
        0 <= at < effects.len() && #[trigger] moves_item(effects, at) ==> {
            &&& 0 < at && at + 1 < effects.len()
            &&& effects[at - 1] is Unlock
            &&& effects[at + 1] is Lock
            &&& item_of(effects[at - 1]) == item_of(effects[at])
            &&& item_of(effects[at + 1]) == item_of(effects[at])
        }
}

/// The profile of an account, if it is registered.
pub open spec fn profile(users: Map<AccountId, User>, who: AccountId) -> Option<User> {
    if users.contains_key(who) {
        Some(users[who])
    } else {
        None
    }
}

/// A profile after gaining an NFT of one collection and giving up one of
/// another, by the colours that the collections stand for.
pub open spec fn traded(
    base: Option<User>,
    colors: Map<CollectionId, NftColor>,
    gained: CollectionId,
    given: CollectionId,
) -> Result<User, Error> {
    if base is None {
        Err(Error::UserNotRegistered)
    } else if !colors.contains_key(gained) || !colors.contains_key(given) {
        Err(Error::CollectionUnknown)
    } else {
        spec_swapped(base->Some_0, colors[gained], colors[given])
    }
}

/// The ids of the four properties that a new round starts with.
pub open spec fn starting_ids() -> Seq<u32> {
    seq![147229391u32, 146480642u32, 147031382u32, 147031382u32]
}

/// The data of each of the properties that a new round starts with.
pub open spec fn starting_data() -> Seq<u8> {
    seq![
        110u8, 102u8, 100u8, 106u8, 97u8, 107u8, 108u8, 59u8, 102u8, 117u8, 101u8, 105u8, 102u8,
        59u8, 106u8, 97u8, 110u8, 102u8, 44u8, 100u8, 110u8, 102u8, 109u8, 44u8, 100u8, 104u8,
        102u8, 104u8, 102u8, 100u8, 107u8, 115u8, 107u8, 115u8,
    ]
}

/// `after` is `before` with the four starting properties behind it.
pub open spec fn starting_pool(before: Seq<PropertyInfoData>, after: Seq<PropertyInfoData>) -> bool {
    &&& after.len() == before.len() + 4
    &&& after.subrange(0, before.len() as int) == before
    &&& forall|k: int|
        0 <= k < 4 ==> (#[trigger] after[before.len() + k]).id == starting_ids()[k] && after[
            before.len() + k].data@ == starting_data()
}

/// The colours of `count` collections in a row, starting at `first`, added to
/// a map: the collection at offset x has the colour at place x.
pub open spec fn colored(
    colors: Map<CollectionId, NftColor>,
    first: CollectionId,
    count: nat,
) -> Map<CollectionId, NftColor>
    decreases count,
{
    if count == 0 {
        colors
    } else {
        colored(colors, first, (count - 1) as nat).insert(
            (first + count - 1) as u32,
            NftColor::spec_from_index(count - 1)->Some_0,
        )
    }
}

} // verus!
