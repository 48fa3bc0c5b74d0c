//! What holds of the game whatever is played: statements over the model,
//! each proved from the definitions.

use vstd::prelude::*;
use crate::bounded::LEADERBOARD_LIMIT;
use crate::leaderboard::{lemma_update_keeps_valid, valid};
use crate::scoring::{
    as_signed, magnitude, nearest, spec_difference, spec_expired, spec_expiry_penalty,
    spec_settled, spec_swapped, spec_verdict,
};
use crate::state::{paired, without_id, Outcome, State};
use crate::types::{
    marginal_value, AccountId, BlockNumber, CollectedColors, CollectionId, DifficultyLevel, Error,
    Event, NftColor, Offer, Origin, PropertyInfoData, User,
};

verus! {

/// A game that costs points takes exactly its penalty, or it is rejected:
/// where the points do not cover the penalty the result is the underflow
/// error, and no profile comes out with points held at zero.
pub proof fn lemma_penalty_is_exact_or_rejected(
    user: User,
    difficulty: DifficultyLevel,
    difference: u16,
)
    requires
        !spec_verdict(difficulty, difference).won,
    ensures
        user.points < spec_verdict(difficulty, difference).points ==> spec_settled(
            user,
            difficulty,
            difference,
        ) == Err::<User, Error>(Error::ArithmeticUnderflow),
        spec_settled(user, difficulty, difference) matches Ok(after) ==> after.points
            + spec_verdict(difficulty, difference).points == user.points,
{
}

/// A game that expired takes exactly its penalty, or the penalty is
/// rejected with the underflow error.
pub proof fn lemma_expiry_is_exact_or_rejected(user: User, difficulty: DifficultyLevel)
    ensures
        user.points < spec_expiry_penalty(difficulty) ==> spec_expired(user, difficulty)
            == Err::<User, Error>(Error::ArithmeticUnderflow),
        spec_expired(user, difficulty) matches Ok(after) ==> after.points + spec_expiry_penalty(
            difficulty,
        ) == user.points,
{
}

/// A trade changes the points by exactly the value of the colour gained
/// less the value of the colour given up, or it is rejected; where the
/// points with the credit do not cover the debit, with the underflow error.
pub proof fn lemma_trade_is_exact_or_rejected(user: User, gained: NftColor, given: NftColor)
    ensures
        (user.nfts.added(gained) matches Ok(more) && more.subtracted(given) matches Ok(nfts)
            && user.points + marginal_value(more.count(gained) as int) <= u32::MAX && user.points
            + marginal_value(more.count(gained) as int) < marginal_value(nfts.count(given) + 1))
            ==> spec_swapped(user, gained, given) == Err::<User, Error>(
            Error::ArithmeticUnderflow,
        ),
        spec_swapped(user, gained, given) matches Ok(after) ==> {
            &&& user.nfts.added(gained) matches Ok(more)
            &&& more.subtracted(given) matches Ok(nfts)
            &&& after.nfts == nfts
            &&& after.points == user.points + marginal_value(more.count(gained) as int)
                - marginal_value(nfts.count(given) + 1)
        },
{
}

/// Taking a colour from a counter that is zero fails, and adding to any
/// counter below the largest number succeeds and raises it by one.
pub proof fn lemma_tally_never_wraps(tally: CollectedColors, color: NftColor)
    ensures
        tally.count(color) == 0 ==> tally.subtracted(color) == Err::<CollectedColors, Error>(
            Error::ArithmeticUnderflow,
        ),
        tally.subtracted(color) matches Ok(less) ==> less.count(color) + 1 == tally.count(color),
        tally.added(color) matches Ok(more) ==> more.count(color) == tally.count(color) + 1,
        forall|other: NftColor|
            other != color ==> (tally.subtracted(color) matches Ok(less) ==> less.count(other)
                == #[trigger] tally.count(other)) && (tally.added(color) matches Ok(more)
                ==> more.count(other) == tally.count(other)),
{
}

/// A set is full exactly when each of the eight counters is at least four.
pub proof fn lemma_complete_is_four_of_each(tally: CollectedColors)
    ensures
        tally.complete() <==> (tally.xorange >= 4 && tally.xpink >= 4 && tally.xblue >= 4
            && tally.xcyan >= 4 && tally.xcoral >= 4 && tally.xpurple >= 4 && tally.xleafgreen >= 4
            && tally.xgreen >= 4),
{
    if tally.complete() {
        assert(tally.count(NftColor::Xorange) >= 4);
        assert(tally.count(NftColor::Xpink) >= 4);
        assert(tally.count(NftColor::Xblue) >= 4);
        assert(tally.count(NftColor::Xcyan) >= 4);
        assert(tally.count(NftColor::Xcoral) >= 4);
        assert(tally.count(NftColor::Xpurple) >= 4);
        assert(tally.count(NftColor::Xleafgreen) >= 4);
        assert(tally.count(NftColor::Xgreen) >= 4);
    }
}

/// A won NFT that fills the player's set ends the round, with the player as
/// the champion of that round.
pub proof fn lemma_full_set_by_reward_ends_round(
    state: State,
    difference: u16,
    game_id: u32,
    secret: Vec<u8>,
    seed: Seq<u8>,
)
    requires
        state.do_check_result(difference, game_id, secret, seed) is Ok,
        spec_verdict(state.game_info[game_id].difficulty, difference).nft_received,
        state.do_check_result(difference, game_id, secret, seed)->Ok_0.state.users[state.game_info[game_id].player].nfts.complete(),
    ensures
        ({
            let after = state.do_check_result(difference, game_id, secret, seed)->Ok_0.state;
            &&& !after.round_active
            &&& after.round_champion.contains_key(state.current_round)
            &&& after.round_champion[state.current_round] == state.game_info[game_id].player
        }),
{
}

/// A trade that fills the holder's set ends the round, with the holder as
/// the champion of that round.
pub proof fn lemma_full_set_by_trade_ends_round(
    state: State,
    holder: AccountId,
    gained: CollectionId,
    given: CollectionId,
)
    requires
        state.swap_user_points(holder, gained, given) is Ok,
        state.swap_user_points(holder, gained, given)->Ok_0.users[holder].nfts.complete(),
    ensures
        ({
            let after = state.swap_user_points(holder, gained, given)->Ok_0;
            &&& !after.round_active
            &&& after.round_champion.contains_key(state.current_round)
            &&& after.round_champion[state.current_round] == holder
        }),
{
}

/// An accepted offer after which the seller holds a full set ends the
/// round with the seller as champion; one after which only the bidder
/// holds a full set ends it with the bidder as champion.
pub proof fn lemma_full_set_by_accepted_offer_ends_round(
    state: State,
    origin: Origin,
    offer_id: u32,
)
    requires
        state.handle_offer(origin, offer_id, Offer::Accept) is Ok,
    ensures
        ({
            let after = state.handle_offer(origin, offer_id, Offer::Accept)->Ok_0.state;
            let seller = origin.signer()->Ok_0;
            let bidder = state.offers[offer_id].owner;
            &&& after.users.contains_key(seller) && after.users.contains_key(bidder)
            &&& after.users[seller].nfts.complete() ==> !after.round_active
                && after.round_champion.contains_key(state.current_round)
                && after.round_champion[state.current_round] == seller
            &&& after.users[bidder].nfts.complete() && !after.users[seller].nfts.complete()
                ==> !after.round_active && after.round_champion.contains_key(state.current_round)
                && after.round_champion[state.current_round] == bidder
        }),
{
}

/// Whatever the leaderboard learns, it keeps at most ten entries, best
/// first, and each account once; storing a profile and ending the round
/// keep every limit of the state.
pub proof fn lemma_leaderboard_stays_valid(
    state: State,
    who: AccountId,
    user: User,
    ends_round: bool,
)
    requires
        state.wf(),
    ensures
        valid(state.ranked(who, user.points).leaderboard, LEADERBOARD_LIMIT as nat),
        state.ranked(who, user.points).wf(),
        state.ended(who).wf(),
        state.credited(who, user, ends_round).wf(),
{
    lemma_update_keeps_valid(state.leaderboard, LEADERBOARD_LIMIT as nat, who, user.points);
}

/// Taking the properties of an id out of a pool leaves none of that id, and
/// the pool does not grow.
pub proof fn lemma_removed_properties_are_gone(pool: Seq<PropertyInfoData>, id: u32)
    ensures
        without_id(pool, id).len() <= pool.len(),
        forall|j: int|
            0 <= j < without_id(pool, id).len() ==> (#[trigger] without_id(pool, id)[j]).id != id,
    decreases pool.len(),
{
    if pool.len() > 0 {
        lemma_removed_properties_are_gone(pool.drop_last(), id);
    }
}

/// Whatever the marketplace asks of the registry, every move of an item
/// across custody stands between the unlock and the lock of that item.
pub proof fn lemma_market_moves_are_paired(
    state: State,
    origin: Origin,
    id: u32,
    collection_id: CollectionId,
    item_id: u32,
    registry_owner: Option<AccountId>,
    offer: Offer,
)
    ensures
        state.list_nft(origin, collection_id, item_id, registry_owner) matches Ok(o) ==> paired(
            o.effects,
        ),
        state.delist_nft(origin, id) matches Ok(o) ==> paired(o.effects),
        state.make_offer(origin, id, collection_id, item_id) matches Ok(o) ==> paired(o.effects),
        state.withdraw_offer(origin, id) matches Ok(o) ==> paired(o.effects),
        state.handle_offer(origin, id, offer) matches Ok(o) ==> paired(o.effects),
{
}

/// A game that was resolved is gone: it cannot be resolved again, and the
/// clock finds nothing to expire.
pub proof fn lemma_resolved_game_is_gone(
    state: State,
    difference: u16,
    game_id: u32,
    secret: Vec<u8>,
    seed: Seq<u8>,
)
    requires
        state.do_check_result(difference, game_id, secret, seed) is Ok,
    ensures
        ({
            let after = state.do_check_result(difference, game_id, secret, seed)->Ok_0.state;
            &&& !after.game_info.contains_key(game_id)
            &&& after.expire_one(game_id).state == after
            &&& after.expire_one(game_id).events.len() == 0
            &&& forall|again: u16, other_secret: Vec<u8>, other_seed: Seq<u8>|
                #[trigger] after.do_check_result(again, game_id, other_secret, other_seed) == Err::<
                    Outcome,
                    Error,
                >(Error::NoActiveGame)
        }),
{
}

/// A due game without a guess is gone after the clock has seen it, and it
/// cannot be resolved afterwards; a due game with a guess stays as it is.
pub proof fn lemma_expired_game_is_gone(state: State, game_id: u32)
    requires
        state.game_info.contains_key(game_id),
    ensures
        state.game_info[game_id].guess is None ==> !state.expire_one(
            game_id,
        ).state.game_info.contains_key(game_id),
        state.game_info[game_id].guess is None ==> forall|
            difference: u16,
            secret: Vec<u8>,
            seed: Seq<u8>,
        | #[trigger]
            state.expire_one(game_id).state.do_check_result(difference, game_id, secret, seed)
                == Err::<Outcome, Error>(Error::NoActiveGame),
        state.game_info[game_id].guess is Some ==> state.expire_one(game_id).state == state,
{
}

/// The clock at a height leaves no game of that height unanswered in the
/// store, and empties the height's list.
pub proof fn lemma_tick_clears_height(state: State, now: BlockNumber)
    ensures
        !state.on_initialize(now).state.games_expiring.contains_key(now),
        state.on_initialize(now).state.bucket(now).len() == 0,
{
    let start = State { games_expiring: state.games_expiring.remove(now), ..state };
    lemma_expiry_keeps_index(start, state.bucket(now));
}

/// Closing due games changes neither the index of expiring games nor
/// anything of the market, the pool, the admins, the round or the
/// leaderboard.
pub proof fn lemma_expiry_keeps_index(state: State, ids: Seq<u32>)
    ensures
        state.expire_all(ids).state == (State {
            users: state.expire_all(ids).state.users,
            game_info: state.expire_all(ids).state.game_info,
            ..state
        }),
    decreases ids.len(),
{
    if ids.len() > 0 {
        lemma_expiry_keeps_index(state, ids.drop_last());
    }
}

/// Whether a game is in the store and has no guess.
pub open spec fn unanswered(state: State, game_id: u32) -> bool {
    state.game_info.contains_key(game_id) && state.game_info[game_id].guess is None
}

/// What a game that nobody answered leaves of its player's profile: the
/// profile less the penalty, or the profile as it was where the penalty
/// cannot be taken.
pub open spec fn penalised(user: User, difficulty: DifficultyLevel) -> User {
    match spec_expired(user, difficulty) {
        Ok(after) => after,
        Err(_) => user,
    }
}

proof fn lemma_contains_last(ids: Seq<u32>, game_id: u32)
    requires
        ids.len() > 0,
    ensures
        ids.contains(game_id) <==> (ids.drop_last().contains(game_id) || ids.last() == game_id),
{
    let front = ids.drop_last();
    if front.contains(game_id) {
        let i = choose|i: int| 0 <= i < front.len() && front[i] == game_id;
        assert(ids[i] == game_id);
    }
    if ids.last() == game_id {
        assert(ids[ids.len() - 1] == game_id);
    }
    if ids.contains(game_id) {
        let i = choose|i: int| 0 <= i < ids.len() && ids[i] == game_id;
        if i < ids.len() - 1 {
            assert(front[i] == game_id);
        }
    }
}

/// Closing a list of due games takes out of the store exactly the listed
/// games that had no guess: a listed game that was resolved before stays
/// gone, a listed game with a guess stays, and every game that stays is as
/// it was. No account is added or removed.
pub proof fn lemma_expiry_closes_the_unanswered(state: State, ids: Seq<u32>)
    ensures
        forall|g: u32| #[trigger]
            state.expire_all(ids).state.game_info.contains_key(g) <==> (
            state.game_info.contains_key(g) && !(ids.contains(g) && unanswered(state, g))),
        forall|g: u32| #[trigger]
            state.expire_all(ids).state.game_info.contains_key(g) ==> state.expire_all(
                ids,
            ).state.game_info[g] == state.game_info[g],
        forall|a: AccountId| #[trigger]
            state.expire_all(ids).state.users.contains_key(a) <==> state.users.contains_key(a),
    decreases ids.len(),
{
    let after = state.expire_all(ids).state;
    if ids.len() > 0 {
        let front = ids.drop_last();
        let last = ids.last();
        lemma_expiry_closes_the_unanswered(state, front);
        let before = state.expire_all(front).state;
        assert(after == before.expire_one(last).state);
        assert(before.game_info.contains_key(last) ==> before.game_info[last]
            == state.game_info[last]);
        if unanswered(before, last) {
            assert(after.game_info == before.game_info.remove(last));
        } else {
            assert(after == before);
        }
        assert forall|g: u32| #[trigger]
            after.game_info.contains_key(g) <==> (state.game_info.contains_key(g) && !(
            ids.contains(g) && unanswered(state, g))) by {
            lemma_contains_last(ids, g);
            assert(before.game_info.contains_key(g) <==> (state.game_info.contains_key(g) && !(
            front.contains(g) && unanswered(state, g))));
        }
        assert forall|g: u32| #[trigger] after.game_info.contains_key(g) implies after.game_info[g]
            == state.game_info[g] by {
            assert(before.game_info.contains_key(g));
        }
        assert forall|a: AccountId| #[trigger]
            after.users.contains_key(a) <==> state.users.contains_key(a) by {
            assert(before.users.contains_key(a) <==> state.users.contains_key(a));
        }
    } else {
        assert(after == state);
        assert forall|g: u32| !ids.contains(g) by {}
    }
}

/// Closing a list of due games leaves the profile of an account as it was
/// where none of the listed games without a guess is that account's: a
/// game resolved before is not charged again.
pub proof fn lemma_expiry_spares_the_others(state: State, ids: Seq<u32>, who: AccountId)
    requires
        forall|i: int|
            0 <= i < ids.len() && unanswered(state, #[trigger] ids[i]) ==> state.game_info[ids[i]].player
                != who,
    ensures
        state.users.contains_key(who) ==> state.expire_all(ids).state.users[who]
            == state.users[who],
    decreases ids.len(),
{
    if ids.len() > 0 {
        let front = ids.drop_last();
        assert forall|i: int| 0 <= i < front.len() && unanswered(state, #[trigger] front[i])
            implies state.game_info[front[i]].player != who by {
            assert(front[i] == ids[i]);
        }
        lemma_expiry_spares_the_others(state, front, who);
        lemma_expiry_closes_the_unanswered(state, front);
        let before = state.expire_all(front).state;
        let last = ids.last();
        if unanswered(before, last) {
            assert(before.game_info.contains_key(last));
            assert(unanswered(state, ids[ids.len() - 1]));
        }
    }
}

/// A failure stays with its game: where exactly one of the listed games
/// without a guess is an account's, the account's profile after the list is
/// the profile less that game's penalty, or the profile as it was where the
/// penalty cannot be taken, whatever happens to the other games.
pub proof fn lemma_expiry_charges_each_game_alone(state: State, ids: Seq<u32>, at: int)
    requires
        0 <= at < ids.len(),
        unanswered(state, ids[at]),
        state.users.contains_key(state.game_info[ids[at]].player),
        forall|i: int|
            0 <= i < ids.len() && i != at && unanswered(state, #[trigger] ids[i])
                ==> state.game_info[ids[i]].player != state.game_info[ids[at]].player,
    ensures
        state.expire_all(ids).state.users[state.game_info[ids[at]].player] == penalised(
            state.users[state.game_info[ids[at]].player],
            state.game_info[ids[at]].difficulty,
        ),
        !state.expire_all(ids).state.game_info.contains_key(ids[at]),
    decreases ids.len(),
{
    let game = state.game_info[ids[at]];
    let who = game.player;
    let front = ids.drop_last();
    let last = ids.last();
    let before = state.expire_all(front).state;
    lemma_expiry_closes_the_unanswered(state, front);
    lemma_expiry_closes_the_unanswered(state, ids);
    assert(ids.contains(ids[at]));
    if at == ids.len() - 1 {
        assert forall|i: int| 0 <= i < front.len() && unanswered(state, #[trigger] front[i])
            implies state.game_info[front[i]].player != who by {
            assert(front[i] == ids[i]);
        }
        lemma_expiry_spares_the_others(state, front, who);
        if front.contains(last) {
            let i = choose|i: int| 0 <= i < front.len() && front[i] == last;
            assert(ids[i] == last);
            assert(unanswered(state, ids[i]));
        }
        assert(before.game_info.contains_key(last));
    } else {
        assert(front[at] == ids[at]);
        assert forall|i: int|
            0 <= i < front.len() && i != at && unanswered(state, #[trigger] front[i])
            implies state.game_info[front[i]].player != who by {
            assert(front[i] == ids[i]);
        }
        lemma_expiry_charges_each_game_alone(state, front, at);
        if unanswered(before, last) {
            assert(before.game_info.contains_key(last));
            assert(unanswered(state, ids[ids.len() - 1]));
        }
    }
}

/// The tick of the clock at a height: every game listed there that had no
/// guess is gone and cannot be resolved afterwards; a listed game that was
/// resolved before stays gone; every other game, listed with a guess or not
/// listed there, is as it was.
pub proof fn lemma_tick_closes_due_games(state: State, now: BlockNumber)
    ensures
        forall|g: u32| #[trigger]
            state.on_initialize(now).state.game_info.contains_key(g) <==> (
            state.game_info.contains_key(g) && !(state.bucket(now).contains(g) && unanswered(
                state,
                g,
            ))),
        forall|g: u32| #[trigger]
            state.on_initialize(now).state.game_info.contains_key(g) ==> state.on_initialize(
                now,
            ).state.game_info[g] == state.game_info[g],
        forall|g: u32, difference: u16, secret: Vec<u8>, seed: Seq<u8>|
            state.bucket(now).contains(g) && unanswered(state, g) ==> #[trigger] state.on_initialize(
                now,
            ).state.do_check_result(difference, g, secret, seed) == Err::<Outcome, Error>(
                Error::NoActiveGame,
            ),
{
    let start = State { games_expiring: state.games_expiring.remove(now), ..state };
    lemma_expiry_closes_the_unanswered(start, state.bucket(now));
    assert forall|g: u32| unanswered(start, g) == unanswered(state, g) by {}
}

/// The tick of the clock charges each due game alone. An account none of
/// whose games is due without a guess keeps its profile. An account with
/// exactly one such game pays that game's penalty, or nothing where the
/// penalty cannot be taken; the other due games are charged all the same.
pub proof fn lemma_tick_charges_each_game_alone(state: State, now: BlockNumber, who: AccountId)
    requires
        state.users.contains_key(who),
    ensures
        (forall|i: int|
            0 <= i < state.bucket(now).len() && unanswered(state, #[trigger] state.bucket(now)[i])
                ==> state.game_info[state.bucket(now)[i]].player != who)
            ==> state.on_initialize(now).state.users[who] == state.users[who],
        forall|at: int|
            0 <= at < state.bucket(now).len() && unanswered(state, #[trigger] state.bucket(now)[at])
                && state.game_info[state.bucket(now)[at]].player == who && (forall|i: int|
                0 <= i < state.bucket(now).len() && i != at && unanswered(
                    state,
                    #[trigger] state.bucket(now)[i],
                ) ==> state.game_info[state.bucket(now)[i]].player != who)
                ==> state.on_initialize(now).state.users[who] == penalised(
                state.users[who],
                state.game_info[state.bucket(now)[at]].difficulty,
            ),
{
    let start = State { games_expiring: state.games_expiring.remove(now), ..state };
    let ids = state.bucket(now);
    assert forall|g: u32| unanswered(start, g) == unanswered(state, g) by {}
    if forall|i: int|
        0 <= i < ids.len() && unanswered(state, #[trigger] ids[i]) ==> state.game_info[ids[i]].player
            != who {
        lemma_expiry_spares_the_others(start, ids, who);
    }
    assert forall|at: int|
        0 <= at < ids.len() && unanswered(state, #[trigger] ids[at]) && state.game_info[ids[at]].player
            == who && (forall|i: int|
            0 <= i < ids.len() && i != at && unanswered(state, #[trigger] ids[i])
                ==> state.game_info[ids[i]].player != who) implies state.on_initialize(
        now,
    ).state.users[who] == penalised(state.users[who], state.game_info[ids[at]].difficulty) by {
        lemma_expiry_charges_each_game_alone(start, ids, at);
    }
}

/// `nearest` is the whole number nearest to the quotient: it is off by at
/// most a half, and an exact half goes up.
pub proof fn lemma_nearest_is_nearest(part: int, whole: int)
    requires
        part >= 0,
        whole > 0,
    ensures
        nearest(part, whole) >= 0,
        2 * nearest(part, whole) * whole - whole <= 2 * part,
        2 * part < 2 * nearest(part, whole) * whole + whole,
{
    let q = nearest(part, whole);
    vstd::arithmetic::div_mod::lemma_fundamental_div_mod(2 * part + whole, 2 * whole);
    vstd::arithmetic::div_mod::lemma_mod_pos_bound(2 * part + whole, 2 * whole);
    assert((2 * whole) * q == 2 * q * whole) by (nonlinear_arith);
    assert(q >= 0) by (nonlinear_arith)
        requires
            (2 * whole) * q + whole > 0,
            whole > 0,
    ;
}

/// Where the difference between a guess and the price is a number, it is
/// the whole permille nearest to their distance as a share of the price.
pub proof fn lemma_difference_is_rounded(guess: u32, price: u32)
    requires
        spec_difference(guess, price) is Ok,
    ensures
        ({
            let distance = magnitude(as_signed(price) - as_signed(guess));
            let whole = magnitude(as_signed(price));
            let permille = spec_difference(guess, price)->Ok_0;
            &&& whole > 0
            &&& 2 * permille * whole - whole <= 2000 * distance
            &&& 2000 * distance < 2 * permille * whole + whole
        }),
{
    let d = as_signed(price) - as_signed(guess);
    lemma_nearest_is_nearest(magnitude(d * 1000), magnitude(as_signed(price)));
}

/// A guess that equals the price has difference zero, which is the best
/// band of every difficulty: the game is won, and for Player and Pro it
/// wins an NFT. A price of zero has no difference at all.
pub proof fn lemma_exact_guess_is_best_band(price: u32, difficulty: DifficultyLevel)
    ensures
        price != 0 ==> spec_difference(price, price) == Ok::<u16, Error>(0),
        price == 0 ==> spec_difference(price, price) == Err::<u16, Error>(Error::DivisionError),
        spec_verdict(difficulty, 0).won,
        spec_verdict(difficulty, 0).nft_received == (difficulty != DifficultyLevel::Practice),
        forall|other: u16|
            spec_verdict(difficulty, other).nft_received ==> #[trigger] spec_verdict(
                difficulty,
                other,
            ) == spec_verdict(difficulty, 0),
{
    if price != 0 {
        lemma_nearest_is_nearest(0, magnitude(as_signed(price)));
        let q = nearest(0, magnitude(as_signed(price)));
        let w = magnitude(as_signed(price));
        assert(q == 0) by (nonlinear_arith)
            requires
                q >= 0,
                w > 0,
                2 * q * w - w <= 0,
        ;
    }
}

/// A game that is started, answered and then resolved with a guess equal to
/// the price is resolved in the best band: where resolving succeeds, it
/// reports a win, and for Player and Pro an NFT.
pub proof fn lemma_round_trip_wins(
    state: State,
    player: AccountId,
    game_type: DifficultyLevel,
    now: BlockNumber,
    start_seed: Seq<u8>,
    guess: u32,
    price: u32,
    secret: Vec<u8>,
    seed: Seq<u8>,
)
    requires
        price != 0,
        state.play_game(Origin::Signed(player), game_type, now, start_seed) is Ok,
    ensures
        ({
            let started = state.play_game(Origin::Signed(player), game_type, now, start_seed)->Ok_0.state;
            let answered = started.submit_answer(Origin::Signed(player), guess, state.game_id);
            &&& answered is Ok
            &&& answered->Ok_0.state.check_result(
                Origin::Root,
                price,
                state.game_id,
                price,
                secret,
                seed,
            ) matches Ok(resolved) ==> resolved.events.len() == 1 && (resolved.events[0] matches Event::ResultChecked {
                won,
                nft_received,
                ..
            } && won && nft_received == (game_type != DifficultyLevel::Practice))
                && !resolved.state.game_info.contains_key(state.game_id)
        }),
{
    lemma_exact_guess_is_best_band(price, game_type);
}

} // verus!
