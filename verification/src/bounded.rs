//! The bounded lists of the game: the leaderboard, the admins, the pool of
//! properties and the games that expire at a height, each held in the
//! bounded vector of
//! `bounded_collections`. Verus does not look into that crate; what this
//! file says of its functions is taken on trust from their source.

use vstd::prelude::*;
use bounded_collections::{BoundedVec, ConstU32};
use crate::types::{AccountId, PropertyInfoData};

verus! {

/// The number of entries that the leaderboard has room for.
pub const LEADERBOARD_LIMIT: u32 = 10;

#[verifier::external_type_specification]
#[verifier::external_body]
#[verifier::reject_recursive_types(T)]
#[verifier::reject_recursive_types(S)]
pub struct ExBoundedVec<T, S>(BoundedVec<T, S>);

#[verifier::external_type_specification]
#[verifier::external_body]
pub struct ExConstU32<const N: u32>(ConstU32<N>);

/// An entry of the leaderboard: an account and its points.
pub type Entry = (AccountId, u32);

/// A leaderboard as it is stored.
pub type Board = BoundedVec<(AccountId, u32), ConstU32<10>>;

/// The entries that a stored leaderboard holds, first to last.
pub uninterp spec fn leaders(board: BoundedVec<(AccountId, u32), ConstU32<10>>) -> Seq<
    (AccountId, u32),
>;

/// Whether a leaderboard has room for one more entry.
pub open spec fn has_room(entries: Seq<Entry>) -> bool {
    entries.len() < LEADERBOARD_LIMIT
}

/// `BoundedVec::new`: a vector with no items.
#[verifier::external_body]
pub(crate) fn board_new() -> (board: Board)
    ensures
        leaders(board) == Seq::<(AccountId, u32)>::empty(),
{
    BoundedVec::new()
}

/// `Vec::len` through the `Deref` of `BoundedVec`, which hands out the inner
/// vector: the number of items.
#[verifier::external_body]
pub(crate) fn board_len(board: &Board) -> (n: usize)
    ensures
        n == leaders(*board).len(),
{
    board.len()
}

/// The `Index` of `BoundedVec`, which indexes the inner vector and panics
/// beyond its end: the item at a place.
#[verifier::external_body]
pub(crate) fn board_get(board: &Board, at: usize) -> (entry: Entry)
    requires
        at < leaders(*board).len(),
    ensures
        entry == leaders(*board)[at as int],
{
    board[at]
}

/// `BoundedVec::remove`, which is `Vec::remove` on the inner vector and
/// panics beyond its end: the item at a place leaves, the later ones move up.
#[verifier::external_body]
pub(crate) fn board_remove(board: &mut Board, at: usize) -> (entry: Entry)
    requires
        at < leaders(*old(board)).len(),
    ensures
        entry == leaders(*old(board))[at as int],
        leaders(*final(board)) == leaders(*old(board)).remove(at as int),
{
    board.remove(at)
}

/// `BoundedVec::pop`, which is `Vec::pop` on the inner vector: the last item
/// leaves, if there is one.
#[verifier::external_body]
pub(crate) fn board_pop(board: &mut Board) -> (entry: Option<Entry>)
    ensures
        leaders(*old(board)).len() > 0 ==> entry == Some(leaders(*old(board)).last()) && leaders(
            *final(board),
        ) == leaders(*old(board)).drop_last(),
        leaders(*old(board)).len() == 0 ==> entry is None && leaders(*final(board)) == leaders(
            *old(board),
        ),
{
    board.pop()
}

/// `BoundedVec::try_insert`: with fewer items than the bound, which is ten
/// here, it is `Vec::insert` on the inner vector; else nothing changes and
/// the item comes back. It panics for a place beyond the end.
#[verifier::external_body]
pub(crate) fn board_try_insert(board: &mut Board, at: usize, entry: Entry) -> (r: Result<(), Entry>)
    requires
        at <= leaders(*old(board)).len(),
    ensures
        has_room(leaders(*old(board))) ==> r is Ok && leaders(*final(board)) == leaders(
            *old(board),
        ).insert(at as int, entry),
        !has_room(leaders(*old(board))) ==> r is Err && r->Err_0 == entry && leaders(
            *final(board),
        ) == leaders(*old(board)),
{
    board.try_insert(at, entry)
}

/// The `Clone` of `BoundedVec`, which clones the inner vector: a board with
/// the same entries.
#[verifier::external_body]
pub(crate) fn board_clone(board: &Board) -> (copy: Board)
    ensures
        leaders(copy) == leaders(*board),
{
    board.clone()
}

/// `slice::to_vec` through the `Deref` of `BoundedVec`: a copy of the items.
#[verifier::external_body]
pub(crate) fn board_to_vec(board: &Board) -> (entries: Vec<Entry>)
    ensures
        entries@ == leaders(*board),
{
    board.to_vec()
}

/// The number of admins that the list has room for.
pub const MAX_ADMINS: u32 = 10;

/// The number of games that may expire at one height.
pub const MAX_ONGOING_GAMES: u32 = 200;

/// The list of admins as it is stored.
pub type Admins = BoundedVec<AccountId, ConstU32<10>>;

/// The games that expire at one height, as they are stored.
pub type DueGames = BoundedVec<u32, ConstU32<200>>;

/// The accounts that a stored list of admins holds, first to last.
pub uninterp spec fn admin_list(admins: BoundedVec<AccountId, ConstU32<10>>) -> Seq<AccountId>;

/// The games that a stored list of due games holds, first to last.
pub uninterp spec fn due_games(games: BoundedVec<u32, ConstU32<200>>) -> Seq<u32>;

/// Whether a list of admins has room for one more.
pub open spec fn admins_have_room(admins: Seq<AccountId>) -> bool {
    admins.len() < MAX_ADMINS
}

/// Whether a list of due games has room for one more.
pub open spec fn games_have_room(games: Seq<u32>) -> bool {
    games.len() < MAX_ONGOING_GAMES
}

/// `BoundedVec::new`: a vector with no items.
#[verifier::external_body]
pub(crate) fn admins_new() -> (admins: Admins)
    ensures
        admin_list(admins) == Seq::<AccountId>::empty(),
{
    BoundedVec::new()
}

/// `Vec::len` through the `Deref` of `BoundedVec`: the number of items.
#[verifier::external_body]
pub(crate) fn admins_len(admins: &Admins) -> (n: usize)
    ensures
        n == admin_list(*admins).len(),
{
    admins.len()
}

/// The `Index` of `BoundedVec`, which panics beyond the end: the item at a
/// place.
#[verifier::external_body]
pub(crate) fn admins_get(admins: &Admins, at: usize) -> (who: AccountId)
    requires
        at < admin_list(*admins).len(),
    ensures
        who == admin_list(*admins)[at as int],
{
    admins[at]
}

/// `BoundedVec::try_push`: with fewer items than the bound, which is ten
/// here, it is `Vec::push` on the inner vector; else nothing changes and the
/// item comes back.
#[verifier::external_body]
pub(crate) fn admins_try_push(admins: &mut Admins, who: AccountId) -> (r: Result<(), AccountId>)
    ensures
        admins_have_room(admin_list(*old(admins))) ==> r is Ok && admin_list(*final(admins))
            == admin_list(*old(admins)).push(who),
        !admins_have_room(admin_list(*old(admins))) ==> r is Err && r->Err_0 == who && admin_list(
            *final(admins),
        ) == admin_list(*old(admins)),
{
    admins.try_push(who)
}

/// `BoundedVec::remove`, which is `Vec::remove` on the inner vector and
/// panics beyond its end: the item at a place leaves, the later ones move up.
#[verifier::external_body]
pub(crate) fn admins_remove(admins: &mut Admins, at: usize) -> (who: AccountId)
    requires
        at < admin_list(*old(admins)).len(),
    ensures
        who == admin_list(*old(admins))[at as int],
        admin_list(*final(admins)) == admin_list(*old(admins)).remove(at as int),
{
    admins.remove(at)
}

/// The `Clone` of `BoundedVec`, which clones the inner vector: a list with
/// the same accounts.
#[verifier::external_body]
pub(crate) fn admins_clone(admins: &Admins) -> (copy: Admins)
    ensures
        admin_list(copy) == admin_list(*admins),
{
    admins.clone()
}

/// `slice::to_vec` through the `Deref` of `BoundedVec`: a copy of the items.
#[verifier::external_body]
pub(crate) fn admins_to_vec(admins: &Admins) -> (accounts: Vec<AccountId>)
    ensures
        accounts@ == admin_list(*admins),
{
    admins.to_vec()
}

/// `BoundedVec::new`: a vector with no items.
#[verifier::external_body]
pub(crate) fn due_new() -> (games: DueGames)
    ensures
        due_games(games) == Seq::<u32>::empty(),
{
    BoundedVec::new()
}

/// `Vec::len` through the `Deref` of `BoundedVec`: the number of items.
#[verifier::external_body]
pub(crate) fn due_len(games: &DueGames) -> (n: usize)
    ensures
        n == due_games(*games).len(),
{
    games.len()
}

/// `BoundedVec::is_full`: whether the vector holds as many items as its
/// bound, which is two hundred here, or more.
#[verifier::external_body]
pub(crate) fn due_is_full(games: &DueGames) -> (full: bool)
    ensures
        full == !games_have_room(due_games(*games)),
{
    games.is_full()
}

/// `slice::to_vec` through the `Deref` of `BoundedVec`: a copy of the items.
#[verifier::external_body]
pub(crate) fn due_to_vec(games: &DueGames) -> (ids: Vec<u32>)
    ensures
        ids@ == due_games(*games),
{
    games.to_vec()
}

/// `BoundedVec::try_push`: with fewer items than the bound, which is two
/// hundred here, it is `Vec::push` on the inner vector; else nothing changes
/// and the item comes back.
#[verifier::external_body]
pub(crate) fn due_try_push(games: &mut DueGames, game_id: u32) -> (r: Result<(), u32>)
    ensures
        games_have_room(due_games(*old(games))) ==> r is Ok && due_games(*final(games))
            == due_games(*old(games)).push(game_id),
        !games_have_room(due_games(*old(games))) ==> r is Err && r->Err_0 == game_id && due_games(
            *final(games),
        ) == due_games(*old(games)),
{
    games.try_push(game_id)
}

/// The number of properties that the pool has room for.
pub const MAX_PROPERTY: u32 = 100;

/// The pool of properties as it is stored.
pub type Pool = BoundedVec<PropertyInfoData, ConstU32<100>>;

/// The properties that a stored pool holds, first to last.
pub uninterp spec fn pool_items(pool: BoundedVec<PropertyInfoData, ConstU32<100>>) -> Seq<
    PropertyInfoData,
>;

/// Whether a pool has room for one more property.
pub open spec fn pool_has_room(pool: Seq<PropertyInfoData>) -> bool {
    pool.len() < MAX_PROPERTY
}

/// `BoundedVec::new`: a vector with no items.
#[verifier::external_body]
pub(crate) fn pool_new() -> (pool: Pool)
    ensures
        pool_items(pool) == Seq::<PropertyInfoData>::empty(),
{
    BoundedVec::new()
}

/// `Vec::len` through the `Deref` of `BoundedVec`: the number of items.
#[verifier::external_body]
pub(crate) fn pool_len(pool: &Pool) -> (n: usize)
    ensures
        n == pool_items(*pool).len(),
{
    pool.len()
}

/// The `Index` of `BoundedVec`, which panics beyond the end: the item at a
/// place.
#[verifier::external_body]
pub(crate) fn pool_get(pool: &Pool, at: usize) -> (property: &PropertyInfoData)
    requires
        at < pool_items(*pool).len(),
    ensures
        *property == pool_items(*pool)[at as int],
{
    &pool[at]
}

/// `BoundedVec::try_push`: with fewer items than the bound, which is a
/// hundred here, it is `Vec::push` on the inner vector; else nothing changes
/// and the item comes back.
#[verifier::external_body]
pub(crate) fn pool_try_push(pool: &mut Pool, property: PropertyInfoData) -> (r: Result<
    (),
    PropertyInfoData,
>)
    ensures
        pool_has_room(pool_items(*old(pool))) ==> r is Ok && pool_items(*final(pool))
            == pool_items(*old(pool)).push(property),
        !pool_has_room(pool_items(*old(pool))) ==> r is Err && r->Err_0 == property && pool_items(
            *final(pool),
        ) == pool_items(*old(pool)),
{
    pool.try_push(property)
}

/// `BoundedVec::remove`, which is `Vec::remove` on the inner vector and
/// panics beyond its end: the item at a place leaves, the later ones move up.
#[verifier::external_body]
pub(crate) fn pool_remove(pool: &mut Pool, at: usize) -> (property: PropertyInfoData)
    requires
        at < pool_items(*old(pool)).len(),
    ensures
        property == pool_items(*old(pool))[at as int],
        pool_items(*final(pool)) == pool_items(*old(pool)).remove(at as int),
{
    pool.remove(at)
}

/// The first `count` items of a list, or all of them where it has no more.
pub open spec fn first_items(items: Seq<PropertyInfoData>, count: int) -> Seq<PropertyInfoData> {
    if count <= items.len() {
        items.subrange(0, count)
    } else {
        items
    }
}

/// `BoundedVec::truncate`, which is `Vec::truncate` on the inner vector: the
/// items behind the first `count` leave.
#[verifier::external_body]
pub(crate) fn pool_truncate(pool: &mut Pool, count: usize)
    ensures
        pool_items(*final(pool)) == first_items(pool_items(*old(pool)), count as int),
{
    pool.truncate(count)
}

/// `Vec::as_slice` through the `Deref` of `BoundedVec`: the items in place.
#[verifier::external_body]
pub(crate) fn pool_as_slice(pool: &Pool) -> (items: &[PropertyInfoData])
    ensures
        items@ == pool_items(*pool),
{
    pool.as_slice()
}

} // verus!
