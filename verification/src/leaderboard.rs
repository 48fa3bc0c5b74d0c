//! The leaderboard: a bounded ranking of accounts by points, best first.

use vstd::prelude::*;
use crate::bounded::{
    board_get, board_len, board_pop, board_remove, board_try_insert, leaders, Board,
    LEADERBOARD_LIMIT,
};
use crate::types::{AccountId, Error};

verus! {

/// Best entry first.
pub open spec fn sorted(board: Seq<(AccountId, u32)>) -> bool {
    forall|i: int, j: int| 0 <= i < j < board.len() ==> board[i].1 >= board[j].1
}

/// No account stands on the board twice.
pub open spec fn distinct(board: Seq<(AccountId, u32)>) -> bool {
    forall|i: int, j: int| 0 <= i < j < board.len() ==> board[i].0 != board[j].0
}

/// A board of at most `capacity` entries, sorted, each account once.
pub open spec fn valid(board: Seq<(AccountId, u32)>, capacity: nat) -> bool {
    &&& board.len() <= capacity
    &&& sorted(board)
    &&& distinct(board)
}

/// The first place at or after `from` that holds `who`; the board's length
/// if there is none.
pub open spec fn position(board: Seq<(AccountId, u32)>, who: AccountId, from: int) -> int
    decreases board.len() - from,
{
    if from >= board.len() {
        board.len() as int
    } else if board[from].0 == who {
        from
    } else {
        position(board, who, from + 1)
    }
}

/// Whether the entry at place `at` stays ahead of a newcomer with `points`:
/// it has more points, or as many and stood before place `tie`.
pub open spec fn goes_before(entry: (AccountId, u32), at: int, points: u32, tie: int) -> bool {
    entry.1 > points || (entry.1 == points && at < tie)
}

/// The first place at or after `from` whose entry does not stay ahead of a
/// newcomer with `points`.
pub open spec fn rank(board: Seq<(AccountId, u32)>, points: u32, tie: int, from: int) -> int
    decreases board.len() - from,
{
    if from >= board.len() {
        board.len() as int
    } else if !goes_before(board[from], from, points, tie) {
        from
    } else {
        rank(board, points, tie, from + 1)
    }
}

/// The board after the points of `who` have become `points`. An account on
/// the board is taken out and put back where its new points belong, behind
/// the entries that stood ahead of it with as many points. Another account
/// enters if it has points and there is room, or if it beats the last entry
/// of a full board, which then leaves; it goes behind all entries with as
/// many points.
pub open spec fn spec_update(
    board: Seq<(AccountId, u32)>,
    capacity: nat,
    who: AccountId,
    points: u32,
) -> Seq<(AccountId, u32)> {
    let at = position(board, who, 0);
    if at < board.len() {
        let rest = board.remove(at);
        rest.insert(rank(rest, points, at, 0), (who, points))
    } else if points > 0 && (board.len() < capacity || (board.len() > 0 && points > board.last().1)) {
        let kept = if board.len() >= capacity {
            board.drop_last()
        } else {
            board
        };
        kept.insert(rank(kept, points, kept.len() as int, 0), (who, points))
    } else {
        board
    }
}

proof fn lemma_position(board: Seq<(AccountId, u32)>, who: AccountId, from: int)
    requires
        0 <= from <= board.len(),
    ensures
        from <= position(board, who, from) <= board.len(),
        position(board, who, from) < board.len() ==> board[position(board, who, from)].0 == who,
        forall|j: int| from <= j < position(board, who, from) ==> board[j].0 != who,
    decreases board.len() - from,
{
    if from < board.len() && board[from].0 != who {
        lemma_position(board, who, from + 1);
    }
}

proof fn lemma_rank(board: Seq<(AccountId, u32)>, points: u32, tie: int, from: int)
    requires
        0 <= from <= board.len(),
    ensures
        from <= rank(board, points, tie, from) <= board.len(),
        rank(board, points, tie, from) < board.len() ==> board[rank(
            board,
            points,
            tie,
            from,
        )].1 <= points,
        forall|j: int|
            from <= j < rank(board, points, tie, from) ==> (#[trigger] board[j]).1 >= points,
    decreases board.len() - from,
{
    if from < board.len() && goes_before(board[from], from, points, tie) {
        lemma_rank(board, points, tie, from + 1);
    }
}

proof fn lemma_insert_valid(
    rest: Seq<(AccountId, u32)>,
    who: AccountId,
    points: u32,
    tie: int,
)
    requires
        sorted(rest),
        distinct(rest),
        forall|j: int| 0 <= j < rest.len() ==> (#[trigger] rest[j]).0 != who,
    ensures
        sorted(rest.insert(rank(rest, points, tie, 0), (who, points))),
        distinct(rest.insert(rank(rest, points, tie, 0), (who, points))),
        rest.insert(rank(rest, points, tie, 0), (who, points)).len() == rest.len() + 1,
{
    lemma_rank(rest, points, tie, 0);
    let p = rank(rest, points, tie, 0);
    let out = rest.insert(p, (who, points));
    assert forall|i: int, j: int| 0 <= i < j < out.len() implies out[i].1 >= out[j].1
        && out[i].0 != out[j].0 by {
        if i < p {
            assert(out[i] == rest[i]);
        } else if i > p {
            assert(out[i] == rest[i - 1]);
        }
        if j < p {
            assert(out[j] == rest[j]);
        } else if j > p {
            assert(out[j] == rest[j - 1]);
        }
        if p < rest.len() {
            assert(rest[p].1 <= points);
        }
    }
}

/// Every update keeps a valid board valid: within capacity, best first, each
/// account once.
pub proof fn lemma_update_keeps_valid(
    board: Seq<(AccountId, u32)>,
    capacity: nat,
    who: AccountId,
    points: u32,
)
    requires
        valid(board, capacity),
    ensures
        valid(spec_update(board, capacity, who, points), capacity),
{
    lemma_position(board, who, 0);
    let at = position(board, who, 0);
    if at < board.len() {
        let rest = board.remove(at);
        assert forall|j: int| 0 <= j < rest.len() implies (#[trigger] rest[j]).0 != who by {
            if j < at {
                assert(rest[j] == board[j]);
            } else {
                assert(rest[j] == board[j + 1]);
            }
        }
        assert(sorted(rest)) by {
            assert forall|i: int, j: int| 0 <= i < j < rest.len() implies rest[i].1
                >= rest[j].1 by {
                let a = if i < at { i } else { i + 1 };
                let b = if j < at { j } else { j + 1 };
                assert(rest[i] == board[a] && rest[j] == board[b]);
            }
        }
        assert(distinct(rest)) by {
            assert forall|i: int, j: int| 0 <= i < j < rest.len() implies rest[i].0
                != rest[j].0 by {
                let a = if i < at { i } else { i + 1 };
                let b = if j < at { j } else { j + 1 };
                assert(rest[i] == board[a] && rest[j] == board[b]);
            }
        }
        lemma_insert_valid(rest, who, points, at);
    } else if points > 0 && (board.len() < capacity || (board.len() > 0 && points > board.last().1)) {
        let kept = if board.len() >= capacity {
            board.drop_last()
        } else {
            board
        };
        assert(sorted(kept) && distinct(kept));
        lemma_insert_valid(kept, who, points, kept.len() as int);
    }
}

/// After an update an account that was on the board, or that entered it,
/// stands there with its new points, and it is the update's only entry for
/// that account.
pub proof fn lemma_update_places(
    board: Seq<(AccountId, u32)>,
    capacity: nat,
    who: AccountId,
    points: u32,
)
    requires
        valid(board, capacity),
    ensures
        (position(board, who, 0) < board.len() || (points > 0 && (board.len() < capacity || (
        board.len() > 0 && points > board.last().1)))) ==> spec_update(board, capacity, who, points).contains(
            (who, points),
        ),
        forall|k: int|
            0 <= k < spec_update(board, capacity, who, points).len() && (#[trigger] spec_update(
                board,
                capacity,
                who,
                points,
            )[k]).0 == who ==> spec_update(board, capacity, who, points)[k].1 == points,
{
    lemma_position(board, who, 0);
    let at = position(board, who, 0);
    let out = spec_update(board, capacity, who, points);
    if at < board.len() {
        let rest = board.remove(at);
        lemma_rank(rest, points, at, 0);
        let p = rank(rest, points, at, 0);
        assert(out[p] == (who, points));
        assert forall|k: int| 0 <= k < out.len() && (#[trigger] out[k]).0 == who implies out[k].1
            == points by {
            if k < p {
                assert(out[k] == rest[k]);
                let a = if k < at { k } else { k + 1 };
                assert(rest[k] == board[a]);
            } else if k > p {
                assert(out[k] == rest[k - 1]);
                let a = if k - 1 < at { k - 1 } else { k };
                assert(rest[k - 1] == board[a]);
            }
        }
    } else if points > 0 && (board.len() < capacity || (board.len() > 0 && points > board.last().1)) {
        let kept = if board.len() >= capacity {
            board.drop_last()
        } else {
            board
        };
        lemma_rank(kept, points, kept.len() as int, 0);
        let p = rank(kept, points, kept.len() as int, 0);
        assert(out[p] == (who, points));
        assert forall|k: int| 0 <= k < out.len() && (#[trigger] out[k]).0 == who implies out[k].1
            == points by {
            if k < p {
                assert(out[k] == kept[k]);
            } else if k > p {
                assert(out[k] == kept[k - 1]);
            }
        }
    }
}

fn find(board: &Board, who: AccountId) -> (at: usize)
    ensures
        at == position(leaders(*board), who, 0),
{
    let size: usize = board_len(board);
    let mut at: usize = 0;
    while at < size && board_get(board, at).0 != who
        invariant
            size == leaders(*board).len(),
            at <= size,
            position(leaders(*board), who, 0) == position(leaders(*board), who, at as int),
        decreases size - at,
    {
        at = at + 1;
    }
    at
}

/// Whether a stored entry stays ahead of a newcomer.
fn stays_ahead(entry: (AccountId, u32), at: usize, points: u32, tie: usize) -> (r: bool)
    ensures
        r == goes_before(entry, at as int, points, tie as int),
{
    entry.1 > points || (entry.1 == points && at < tie)
}

fn find_rank(board: &Board, points: u32, tie: usize) -> (at: usize)
    ensures
        at == rank(leaders(*board), points, tie as int, 0),
        at <= leaders(*board).len(),
{
    let size: usize = board_len(board);
    let mut at: usize = 0;
    while at < size && stays_ahead(board_get(board, at), at, points, tie)
        invariant
            size == leaders(*board).len(),
            at <= size,
            rank(leaders(*board), points, tie as int, 0) == rank(
                leaders(*board),
                points,
                tie as int,
                at as int,
            ),
        decreases size - at,
    {
        at = at + 1;
    }
    at
}

/// Records that the points of `who` have become `points`. The board has
/// room for what the update puts on it, so this never fails.
pub(crate) fn update(board: &mut Board, who: AccountId, points: u32) -> (r: Result<(), Error>)
    requires
        valid(leaders(*old(board)), LEADERBOARD_LIMIT as nat),
    ensures
        r is Ok,
        leaders(*final(board)) == spec_update(
            leaders(*old(board)),
            LEADERBOARD_LIMIT as nat,
            who,
            points,
        ),
        valid(leaders(*final(board)), LEADERBOARD_LIMIT as nat),
{
    proof {
        lemma_update_keeps_valid(leaders(*board), LEADERBOARD_LIMIT as nat, who, points);
        lemma_position(leaders(*board), who, 0);
    }
    let size: usize = board_len(board);
    let at: usize = find(board, who);
    if at < size {
        board_remove(board, at);
        let to: usize = find_rank(board, points, at);
        match board_try_insert(board, to, (who, points)) {
            Ok(()) => Ok(()),
            Err(_) => Err(Error::InvalidIndex),
        }
    } else if points > 0 && (size < 10 || points > board_get(board, size - 1).1) {
        if size >= 10 {
            board_pop(board);
        }
        let tie: usize = board_len(board);
        let to: usize = find_rank(board, points, tie);
        match board_try_insert(board, to, (who, points)) {
            Ok(()) => Ok(()),
            Err(_) => Err(Error::InvalidIndex),
        }
    } else {
        Ok(())
    }
}

} // verus!
