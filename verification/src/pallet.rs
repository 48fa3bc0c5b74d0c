//! The game as an executable state machine: its storage, the queries on it,
//! and the operations of access control, the property pool and the faucet.

use std::collections::HashMap;
use vstd::prelude::*;
use crate::bounded::{
    admin_list, admins_clone, admins_get, admins_len, admins_new, admins_remove, admins_to_vec,
    admins_try_push, board_clone, board_new, board_to_vec, due_games, due_len, leaders,
    pool_as_slice, pool_get, pool_items, pool_len, pool_new, pool_remove, pool_try_push, Admins,
    Board, DueGames, Pool, MAX_PROPERTY,
};
use crate::leaderboard;
use crate::scoring::{eligible, swapped};
use crate::state::{
    first_index, saturating_height, traded, without_id, Outcome, State, FAUCET_AMOUNT,
};
use crate::types::{
    AccountId, BlockNumber, CollectionId, Config, DifficultyLevel, Effect, Error, Event,
    GameData, ListingInfo, NftColor, OfferInfo, Origin, PropertyInfoData, Receipt, User,
};

verus! {

broadcast use vstd::std_specs::hash::group_hash_axioms;

/// The game's storage.
#[derive(Debug)]
pub struct Pallet {
    pub(crate) config: Config,
    pub(crate) current_round: u32,
    pub(crate) round_active: bool,
    pub(crate) round_champion: HashMap<u32, AccountId>,
    pub(crate) next_color_id: HashMap<CollectionId, u32>,
    pub(crate) collection_color: HashMap<CollectionId, NftColor>,
    pub(crate) next_listing_id: u32,
    pub(crate) next_offer_id: u32,
    pub(crate) game_id: u32,
    pub(crate) leaderboard: Board,
    pub(crate) users: HashMap<AccountId, User>,
    pub(crate) game_info: HashMap<u32, GameData>,
    pub(crate) listings: HashMap<u32, ListingInfo>,
    pub(crate) offers: HashMap<u32, OfferInfo>,
    pub(crate) games_expiring: HashMap<BlockNumber, DueGames>,
    pub(crate) game_properties: Pool,
    pub(crate) admins: Admins,
}

/// Whether an operation did what its model says: on success the receipt
/// carries the model's notifications and effects and the state is the
/// model's; on failure the error is the model's and the state is untouched.
pub open spec fn agrees(
    result: Result<Receipt, Error>,
    before: State,
    after: State,
    expected: Result<Outcome, Error>,
) -> bool {
    match expected {
        Ok(outcome) => {
            &&& result is Ok
            &&& result->Ok_0.events@ == outcome.events
            &&& result->Ok_0.effects@ == outcome.effects
            &&& after == outcome.state
        },
        Err(e) => result is Err && result->Err_0 == e && after == before,
    }
}

/// The later height, held at the largest one.
pub(crate) fn height_after(now: BlockNumber, span: BlockNumber) -> (r: BlockNumber)
    ensures
        r == saturating_height(now, span),
{
    if now > u64::MAX - span {
        u64::MAX
    } else {
        now + span
    }
}

pub(crate) fn no_events() -> (v: Vec<Event>)
    ensures
        v@ == Seq::<Event>::empty(),
{
    Vec::new()
}

pub(crate) fn one_event(event: Event) -> (v: Vec<Event>)
    ensures
        v@ == seq![event],
{
    let mut v: Vec<Event> = Vec::new();
    v.push(event);
    assert(v@ =~= seq![event]);
    v
}

pub(crate) fn no_effects() -> (v: Vec<Effect>)
    ensures
        v@ == Seq::<Effect>::empty(),
{
    Vec::new()
}

pub(crate) fn one_effect(a: Effect) -> (v: Vec<Effect>)
    ensures
        v@ == seq![a],
{
    let mut v: Vec<Effect> = Vec::new();
    v.push(a);
    assert(v@ =~= seq![a]);
    v
}

pub(crate) fn three_effects(a: Effect, b: Effect, c: Effect) -> (v: Vec<Effect>)
    ensures
        v@ == seq![a, b, c],
{
    let mut v: Vec<Effect> = Vec::new();
    v.push(a);
    v.push(b);
    v.push(c);
    assert(v@ =~= seq![a, b, c]);
    v
}

pub(crate) fn two_effects(a: Effect, b: Effect) -> (v: Vec<Effect>)
    ensures
        v@ == seq![a, b],
{
    let mut v: Vec<Effect> = Vec::new();
    v.push(a);
    v.push(b);
    assert(v@ =~= seq![a, b]);
    v
}

proof fn lemma_first_index(list: Seq<AccountId>, who: AccountId, from: int)
    requires
        0 <= from <= list.len(),
    ensures
        from <= first_index(list, who, from) <= list.len(),
    decreases list.len() - from,
{
    if from < list.len() && list[from] != who {
        lemma_first_index(list, who, from + 1);
    }
}

proof fn lemma_without_id_keeps(pool: Seq<PropertyInfoData>, id: u32)
    requires
        forall|j: int| 0 <= j < pool.len() ==> (#[trigger] pool[j]).id != id,
    ensures
        without_id(pool, id) == pool,
    decreases pool.len(),
{
    if pool.len() > 0 {
        lemma_without_id_keeps(pool.drop_last(), id);
        assert(pool.drop_last().push(pool.last()) =~= pool);
    }
}

proof fn lemma_without_id_skips(pool: Seq<PropertyInfoData>, id: u32, at: int)
    requires
        0 <= at < pool.len(),
        pool[at].id == id,
    ensures
        without_id(pool.remove(at), id) == without_id(pool, id),
    decreases pool.len(),
{
    if at == pool.len() - 1 {
        assert(pool.remove(at) =~= pool.drop_last());
    } else {
        lemma_without_id_skips(pool.drop_last(), id, at);
        assert(pool.remove(at).drop_last() =~= pool.drop_last().remove(at));
        assert(pool.remove(at).last() == pool.last());
    }
}

/// Whether a pool is a copy of another: place by place the same id and
/// the same data.
pub open spec fn same_properties(copy: Seq<PropertyInfoData>, pool: Seq<PropertyInfoData>) -> bool {
    &&& copy.len() == pool.len()
    &&& forall|j: int|
        0 <= j < pool.len() ==> (#[trigger] copy[j]).id == pool[j].id && copy[j].data@
            == pool[j].data@
}

/// Copies a pool, property by property.
fn copy_pool(pool: &Pool) -> (copy: Pool)
    ensures
        pool_items(*pool).len() <= MAX_PROPERTY ==> same_properties(
            pool_items(copy),
            pool_items(*pool),
        ),
{
    let mut copy: Pool = pool_new();
    let size: usize = pool_len(pool);
    if size > 100 {
        return copy;
    }
    let mut at: usize = 0;
    while at < size
        invariant
            size == pool_items(*pool).len(),
            size <= 100,
            at <= size,
            pool_items(copy).len() == at,
            forall|j: int|
                0 <= j < at ==> (#[trigger] pool_items(copy)[j]).id == pool_items(*pool)[j].id
                    && pool_items(copy)[j].data@ == pool_items(*pool)[j].data@,
        decreases size - at,
    {
        let property: &PropertyInfoData = pool_get(pool, at);
        let data: Vec<u8> = property.data.clone();
        assert(data@ =~= property.data@);
        let _ = pool_try_push(&mut copy, PropertyInfoData { id: property.id, data });
        at = at + 1;
    }
    copy
}

impl Clone for Pallet {
    /// A second game in the same state; the properties in its pool are
    /// copies of those in this one, with the same ids and data.
    fn clone(&self) -> (copy: Self)
        ensures
            copy@ == (State { game_properties: copy@.game_properties, ..self@ }),
            self.wf() ==> same_properties(copy@.game_properties, self@.game_properties),
            self.wf() ==> copy.wf(),
    {
        let copy = Pallet {
            config: self.config,
            current_round: self.current_round,
            round_active: self.round_active,
            round_champion: self.round_champion.clone(),
            next_color_id: self.next_color_id.clone(),
            collection_color: self.collection_color.clone(),
            next_listing_id: self.next_listing_id,
            next_offer_id: self.next_offer_id,
            game_id: self.game_id,
            leaderboard: board_clone(&self.leaderboard),
            users: self.users.clone(),
            game_info: self.game_info.clone(),
            listings: self.listings.clone(),
            offers: self.offers.clone(),
            games_expiring: self.games_expiring.clone(),
            game_properties: copy_pool(&self.game_properties),
            admins: admins_clone(&self.admins),
        };
        assert(copy@.games_expiring == self@.games_expiring);
        copy
    }
}

impl Pallet {
    /// The state that the storage holds.
    pub open(crate) spec fn view(&self) -> State {
        State {
            config: self.config,
            current_round: self.current_round,
            round_active: self.round_active,
            round_champion: self.round_champion@,
            next_color_id: self.next_color_id@,
            collection_color: self.collection_color@,
            next_listing_id: self.next_listing_id,
            next_offer_id: self.next_offer_id,
            game_id: self.game_id,
            leaderboard: leaders(self.leaderboard),
            users: self.users@,
            game_info: self.game_info@,
            listings: self.listings@,
            offers: self.offers@,
            games_expiring: self.games_expiring@.map_values(|games: DueGames| due_games(games)),
            game_properties: pool_items(self.game_properties),
            admins: admin_list(self.admins),
        }
    }

    /// The storage keeps its limits.
    pub open spec fn wf(&self) -> bool {
        self@.wf()
    }

    /// A game that nobody has touched.
    pub fn new(config: Config) -> (pallet: Pallet)
        ensures
            pallet@ == State::initial(config),
            pallet.wf(),
    {
        let pallet = Pallet {
            config,
            current_round: 0,
            round_active: false,
            round_champion: HashMap::new(),
            next_color_id: HashMap::new(),
            collection_color: HashMap::new(),
            next_listing_id: 0,
            next_offer_id: 0,
            game_id: 0,
            leaderboard: board_new(),
            users: HashMap::new(),
            game_info: HashMap::new(),
            listings: HashMap::new(),
            offers: HashMap::new(),
            games_expiring: HashMap::new(),
            game_properties: pool_new(),
            admins: admins_new(),
        };
        assert(pallet@.games_expiring =~= Map::empty());
        pallet
    }

    pub fn config(&self) -> (r: Config)
        ensures
            r == self@.config,
    {
        self.config
    }

    pub fn current_round(&self) -> (r: u32)
        ensures
            r == self@.current_round,
    {
        self.current_round
    }

    pub fn round_active(&self) -> (r: bool)
        ensures
            r == self@.round_active,
    {
        self.round_active
    }

    pub fn round_champion(&self, round: u32) -> (r: Option<AccountId>)
        ensures
            r == (if self@.round_champion.contains_key(round) {
                Some(self@.round_champion[round])
            } else {
                None
            }),
    {
        match self.round_champion.get(&round) {
            Some(who) => Some(*who),
            None => None,
        }
    }

    pub fn collection_color(&self, collection_id: CollectionId) -> (r: Option<NftColor>)
        ensures
            r == (if self@.collection_color.contains_key(collection_id) {
                Some(self@.collection_color[collection_id])
            } else {
                None
            }),
    {
        match self.collection_color.get(&collection_id) {
            Some(color) => Some(*color),
            None => None,
        }
    }

    /// The next item to mint in a collection.
    pub fn next_color_id(&self, collection_id: CollectionId) -> (r: u32)
        ensures
            r == self@.next_item(collection_id),
    {
        match self.next_color_id.get(&collection_id) {
            Some(next) => *next,
            None => 0,
        }
    }

    pub fn next_listing_id(&self) -> (r: u32)
        ensures
            r == self@.next_listing_id,
    {
        self.next_listing_id
    }

    pub fn next_offer_id(&self) -> (r: u32)
        ensures
            r == self@.next_offer_id,
    {
        self.next_offer_id
    }

    pub fn game_id(&self) -> (r: u32)
        ensures
            r == self@.game_id,
    {
        self.game_id
    }

    pub fn leaderboard(&self) -> (r: Vec<(AccountId, u32)>)
        ensures
            r@ == self@.leaderboard,
    {
        board_to_vec(&self.leaderboard)
    }

    pub fn users(&self, who: AccountId) -> (r: Option<User>)
        ensures
            r == (if self@.users.contains_key(who) {
                Some(self@.users[who])
            } else {
                None
            }),
    {
        match self.users.get(&who) {
            Some(user) => Some(*user),
            None => None,
        }
    }

    pub fn game_info(&self, game_id: u32) -> (r: Option<&GameData>)
        ensures
            match r {
                Some(game) => self@.game_info.contains_key(game_id) && *game
                    == self@.game_info[game_id],
                None => !self@.game_info.contains_key(game_id),
            },
    {
        self.game_info.get(&game_id)
    }

    pub fn listings(&self, listing_id: u32) -> (r: Option<ListingInfo>)
        ensures
            r == (if self@.listings.contains_key(listing_id) {
                Some(self@.listings[listing_id])
            } else {
                None
            }),
    {
        match self.listings.get(&listing_id) {
            Some(listing) => Some(*listing),
            None => None,
        }
    }

    pub fn offers(&self, offer_id: u32) -> (r: Option<OfferInfo>)
        ensures
            r == (if self@.offers.contains_key(offer_id) {
                Some(self@.offers[offer_id])
            } else {
                None
            }),
    {
        match self.offers.get(&offer_id) {
            Some(offer) => Some(*offer),
            None => None,
        }
    }

    /// The number of games that expire at a height.
    pub fn games_expiring(&self, height: BlockNumber) -> (r: usize)
        ensures
            r == self@.bucket(height).len(),
    {
        match self.games_expiring.get(&height) {
            Some(games) => due_len(games),
            None => 0,
        }
    }

    pub fn game_properties(&self) -> (r: &[PropertyInfoData])
        ensures
            r@ == self@.game_properties,
    {
        pool_as_slice(&self.game_properties)
    }

    pub fn admins(&self) -> (r: Vec<AccountId>)
        ensures
            r@ == self@.admins,
    {
        admins_to_vec(&self.admins)
    }

    /// The place of an account among the admins; their number if it is none.
    pub(crate) fn admin_index(&self, who: AccountId) -> (at: usize)
        ensures
            at == first_index(self@.admins, who, 0),
            at <= self@.admins.len(),
            (at < self@.admins.len()) == self@.is_admin(who),
    {
        let size: usize = admins_len(&self.admins);
        let mut at: usize = 0;
        while at < size && admins_get(&self.admins, at) != who
            invariant
                size == self@.admins.len(),
                at <= size,
                first_index(self@.admins, who, 0) == first_index(self@.admins, who, at as int),
            decreases size - at,
        {
            at = at + 1;
        }
        at
    }

    /// Checks whether an account may start a game of a difficulty.
    pub fn check_enough_points(&self, signer: AccountId, game_type: DifficultyLevel) -> (r:
        Result<(), Error>)
        ensures
            r == self@.check_enough_points(signer, game_type),
    {
        match self.users.get(&signer) {
            None => Err(Error::UserNotRegistered),
            Some(user) => eligible(user, game_type),
        }
    }

    /// Whether starting a game is free of charge for the caller.
    pub fn play_game_feeless(&self, origin: Origin, game_type: DifficultyLevel) -> (r: bool)
        ensures
            r == self@.play_game_feeless(origin, game_type),
    {
        match origin {
            Origin::Root => false,
            Origin::Signed(signer) => match game_type {
                DifficultyLevel::Practice => true,
                DifficultyLevel::Player => match self.users.get(&signer) {
                    Some(user) => user.points >= 25,
                    None => false,
                },
                DifficultyLevel::Pro => match self.users.get(&signer) {
                    Some(user) => user.points >= 50,
                    None => false,
                },
            },
        }
    }

    /// Whether submitting an answer is free of charge for the caller.
    pub fn submit_answer_feeless(&self, origin: Origin, game_id: u32) -> (r: bool)
        ensures
            r == self@.submit_answer_feeless(origin, game_id),
    {
        match origin {
            Origin::Root => false,
            Origin::Signed(signer) => match self.game_info.get(&game_id) {
                Some(game) => game.player == signer,
                None => false,
            },
        }
    }

    /// Records the new points of an account on the leaderboard.
    pub fn update_leaderboard(&mut self, user_id: AccountId, new_points: u32) -> (r: Result<
        (),
        Error,
    >)
        requires
            old(self).wf(),
        ensures
            r is Ok,
            final(self)@ == old(self)@.ranked(user_id, new_points),
            final(self).wf(),
    {
        let r = leaderboard::update(&mut self.leaderboard, user_id, new_points);
        assert(self@.games_expiring == old(self)@.games_expiring);
        r
    }

    /// Ends the round with `winner` as its champion.
    pub fn end_game(&mut self, winner: AccountId) -> (r: Result<(), Error>)
        requires
            old(self).wf(),
        ensures
            r is Ok,
            final(self)@ == old(self)@.ended(winner),
            final(self).wf(),
    {
        self.round_active = false;
        self.round_champion.insert(self.current_round, winner);
        assert(self@.games_expiring == old(self)@.games_expiring);
        Ok(())
    }

    /// Stores a new profile, lets the leaderboard follow, and ends the round
    /// on a full set where `ends_round` says so.
    pub(crate) fn credit(&mut self, who: AccountId, user: User, ends_round: bool)
        requires
            old(self).wf(),
        ensures
            final(self)@ == old(self)@.credited(who, user, ends_round),
            final(self).wf(),
    {
        self.users.insert(who, user);
        assert(self@.games_expiring == old(self)@.games_expiring);
        if ends_round && user.has_four_of_all_colors() {
            let _ = self.end_game(who);
        }
        let _ = self.update_leaderboard(who, user.points);
    }

    /// Registers a player with 50 points. Only an admin may do so.
    pub fn register_user(&mut self, origin: Origin, player: AccountId, now: BlockNumber) -> (r:
        Result<Receipt, Error>)
        requires
            old(self).wf(),
        ensures
            agrees(r, old(self)@, final(self)@, old(self)@.register_user(origin, player, now)),
            final(self).wf(),
    {
        let signer: AccountId = match origin.ensure_signed() {
            Ok(who) => who,
            Err(e) => {
                return Err(e);
            },
        };
        if self.admin_index(signer) >= admins_len(&self.admins) {
            return Err(Error::NoPermission);
        }
        if self.users.contains_key(&player) {
            return Err(Error::PlayerAlreadyRegistered);
        }
        let user = User {
            points: 50,
            wins: 0,
            losses: 0,
            practise_rounds: 0,
            last_played_round: 0,
            next_token_request: height_after(now, self.config.request_limit),
            nfts: crate::types::CollectedColors::new(),
        };
        self.users.insert(player, user);
        Ok(
            Receipt {
                events: one_event(Event::NewPlayerRegistered { player }),
                effects: one_effect(Effect::SetBalance { who: player, amount: FAUCET_AMOUNT }),
            },
        )
    }

    /// Gives points to a player. Only the privileged caller may do so.
    pub fn give_points(&mut self, origin: Origin, receiver: AccountId, amount: u32) -> (r: Result<
        Receipt,
        Error,
    >)
        requires
            old(self).wf(),
        ensures
            agrees(r, old(self)@, final(self)@, old(self)@.give_points(origin, receiver, amount)),
            final(self).wf(),
    {
        if origin.ensure_root().is_err() {
            return Err(Error::BadOrigin);
        }
        let mut user: User = match self.users(receiver) {
            Some(user) => user,
            None => {
                return Err(Error::UserNotRegistered);
            },
        };
        if user.points > u32::MAX - amount {
            return Err(Error::ArithmeticOverflow);
        }
        user.points = user.points + amount;
        self.users.insert(receiver, user);
        Ok(
            Receipt {
                events: one_event(Event::PointsReceived { receiver, amount }),
                effects: no_effects(),
            },
        )
    }

    /// Adds a property to the pool.
    pub fn add_property(&mut self, origin: Origin, property: PropertyInfoData) -> (r: Result<
        Receipt,
        Error,
    >)
        requires
            old(self).wf(),
        ensures
            agrees(r, old(self)@, final(self)@, old(self)@.add_property(origin, property)),
            final(self).wf(),
    {
        if origin.ensure_root().is_err() {
            return Err(Error::BadOrigin);
        }
        match pool_try_push(&mut self.game_properties, property) {
            Ok(()) => {},
            Err(_) => {
                return Err(Error::TooManyTest);
            },
        }
        assert(self@.games_expiring == old(self)@.games_expiring);
        Ok(Receipt { events: no_events(), effects: no_effects() })
    }

    /// Takes every property of the given id out of the pool.
    pub fn remove_property(&mut self, origin: Origin, id: u32) -> (r: Result<Receipt, Error>)
        requires
            old(self).wf(),
        ensures
            agrees(r, old(self)@, final(self)@, old(self)@.remove_property(origin, id)),
            final(self).wf(),
    {
        if origin.ensure_root().is_err() {
            return Err(Error::BadOrigin);
        }
        let ghost before = self@;
        let mut at: usize = 0;
        while at < pool_len(&self.game_properties)
            invariant
                at <= self@.game_properties.len(),
                self@ == (State { game_properties: self@.game_properties, ..before }),
                self@.game_properties.len() <= before.game_properties.len(),
                without_id(self@.game_properties, id) == without_id(before.game_properties, id),
                forall|j: int| 0 <= j < at ==> (#[trigger] self@.game_properties[j]).id != id,
            decreases self@.game_properties.len() - at,
        {
            if pool_get(&self.game_properties, at).id == id {
                proof {
                    lemma_without_id_skips(self@.game_properties, id, at as int);
                }
                pool_remove(&mut self.game_properties, at);
            } else {
                at = at + 1;
            }
        }
        proof {
            lemma_without_id_keeps(self@.game_properties, id);
        }
        Ok(Receipt { events: no_events(), effects: no_effects() })
    }

    /// Makes an account an admin.
    pub fn add_to_admins(&mut self, origin: Origin, new_admin: AccountId) -> (r: Result<
        Receipt,
        Error,
    >)
        requires
            old(self).wf(),
        ensures
            agrees(r, old(self)@, final(self)@, old(self)@.add_to_admins(origin, new_admin)),
            final(self).wf(),
    {
        if origin.ensure_root().is_err() {
            return Err(Error::BadOrigin);
        }
        if self.admin_index(new_admin) < admins_len(&self.admins) {
            return Err(Error::AccountAlreadyAdmin);
        }
        match admins_try_push(&mut self.admins, new_admin) {
            Ok(()) => {},
            Err(_) => {
                return Err(Error::TooManyAdmins);
            },
        }
        assert(self@.games_expiring == old(self)@.games_expiring);
        Ok(Receipt { events: one_event(Event::NewAdminAdded { new_admin }), effects: no_effects() })
    }

    /// Takes an account out of the admins.
    pub fn remove_from_admins(&mut self, origin: Origin, admin: AccountId) -> (r: Result<
        Receipt,
        Error,
    >)
        requires
            old(self).wf(),
        ensures
            agrees(r, old(self)@, final(self)@, old(self)@.remove_from_admins(origin, admin)),
            final(self).wf(),
    {
        if origin.ensure_root().is_err() {
            return Err(Error::BadOrigin);
        }
        let at: usize = self.admin_index(admin);
        if at >= admins_len(&self.admins) {
            return Err(Error::NotAdmin);
        }
        admins_remove(&mut self.admins, at);
        assert(self@.games_expiring == old(self)@.games_expiring);
        Ok(Receipt { events: one_event(Event::AdminRemoved { admin }), effects: no_effects() })
    }

    /// Tops the caller's balance up, once per waiting time.
    pub fn request_token(&mut self, origin: Origin, now: BlockNumber) -> (r: Result<
        Receipt,
        Error,
    >)
        requires
            old(self).wf(),
        ensures
            agrees(r, old(self)@, final(self)@, old(self)@.request_token(origin, now)),
            final(self).wf(),
    {
        let signer: AccountId = match origin.ensure_signed() {
            Ok(who) => who,
            Err(e) => {
                return Err(e);
            },
        };
        let mut user: User = match self.users(signer) {
            Some(user) => user,
            None => {
                return Err(Error::UserNotRegistered);
            },
        };
        if user.next_token_request >= now {
            return Err(Error::CantRequestToken);
        }
        user.next_token_request = height_after(now, self.config.request_limit);
        self.users.insert(signer, user);
        Ok(
            Receipt {
                events: one_event(Event::TokenReceived { player: signer }),
                effects: one_effect(Effect::SetBalance { who: signer, amount: FAUCET_AMOUNT }),
            },
        )
    }

    /// Works out the profile of `holder` after a trade, without storing it.
    pub(crate) fn swapped_user(
        &self,
        base: Option<User>,
        gained: CollectionId,
        given: CollectionId,
    ) -> (r: Result<User, Error>)
        ensures
            r == traded(base, self@.collection_color, gained, given),
    {
        let user: User = match base {
            Some(user) => user,
            None => {
                return Err(Error::UserNotRegistered);
            },
        };
        let color_add: NftColor = match self.collection_color(gained) {
            Some(color) => color,
            None => {
                return Err(Error::CollectionUnknown);
            },
        };
        let color_sub: NftColor = match self.collection_color(given) {
            Some(color) => color,
            None => {
                return Err(Error::CollectionUnknown);
            },
        };
        swapped(user, color_add, color_sub)
    }

    /// One side of a trade: `nft_holder` gains an NFT of one collection and
    /// gives up one of another.
    pub fn swap_user_points(
        &mut self,
        nft_holder: AccountId,
        collection_id_add: CollectionId,
        collection_id_sub: CollectionId,
    ) -> (r: Result<(), Error>)
        requires
            old(self).wf(),
        ensures
            match old(self)@.swap_user_points(nft_holder, collection_id_add, collection_id_sub) {
                Ok(state) => r is Ok && final(self)@ == state,
                Err(e) => r == Err::<(), Error>(e) && final(self)@ == old(self)@,
            },
            final(self).wf(),
    {
        let base: Option<User> = self.users(nft_holder);
        match self.swapped_user(base, collection_id_add, collection_id_sub) {
            Err(e) => Err(e),
            Ok(user) => {
                self.credit(nft_holder, user, true);
                Ok(())
            },
        }
    }
}

} // verus!
