//! The scoring engine: the permille difference between a guess and the
//! price, the reward and penalty table, and what each outcome does to a
//! player's profile.

use vstd::prelude::*;
use crate::types::{marginal_value, BlockNumber, DifficultyLevel, Error, NftColor, User};

verus! {

/// What a resolved game is worth: the size of the flat points change, whether
/// the game counts as won, and whether an NFT is minted in place of flat
/// points.
#[derive(Clone, Copy, Debug, PartialEq, Eq, Structural)]
pub struct Verdict {
    pub points: u32,
    pub won: bool,
    pub nft_received: bool,
}

/// The heights after which an unanswered game of a difficulty expires.
pub open spec fn spec_window(difficulty: DifficultyLevel) -> BlockNumber {
    match difficulty {
        DifficultyLevel::Practice => 10,
        DifficultyLevel::Player => 8,
        DifficultyLevel::Pro => 5,
    }
}

/// The points that an unanswered game of a difficulty costs.
pub open spec fn spec_expiry_penalty(difficulty: DifficultyLevel) -> u32 {
    match difficulty {
        DifficultyLevel::Practice => 0,
        DifficultyLevel::Player => 25,
        DifficultyLevel::Pro => 50,
    }
}

/// The flat points of a band for the Player difficulty; Pro doubles them.
pub open spec fn band_points(difference: u16) -> u32 {
    if difference <= 10 {
        0
    } else if difference <= 30 {
        25
    } else if difference <= 50 {
        15
    } else if difference <= 100 {
        5
    } else if difference <= 150 {
        5
    } else if difference <= 200 {
        10
    } else if difference <= 250 {
        15
    } else if difference <= 300 {
        20
    } else {
        25
    }
}

/// The reward and penalty table.
pub open spec fn spec_verdict(difficulty: DifficultyLevel, difference: u16) -> Verdict {
    match difficulty {
        DifficultyLevel::Practice => Verdict { points: 5, won: true, nft_received: false },
        DifficultyLevel::Player => Verdict {
            points: band_points(difference),
            won: difference <= 100,
            nft_received: difference <= 10,
        },
        DifficultyLevel::Pro => Verdict {
            points: (2 * band_points(difference)) as u32,
            won: difference <= 100,
            nft_received: difference <= 10,
        },
    }
}

/// A 32-bit value read as a signed number.
pub open spec fn as_signed(x: u32) -> int {
    if x > i32::MAX {
        x - 0x1_0000_0000
    } else {
        x as int
    }
}

/// The size of a number without its sign.
pub open spec fn magnitude(x: int) -> int {
    if x < 0 {
        -x
    } else {
        x
    }
}

/// The whole number nearest to `part / whole`, for a part that is not
/// negative and a whole above zero; an exact half goes up.
pub open spec fn nearest(part: int, whole: int) -> int {
    (2 * part + whole) / (2 * whole)
}

/// The distance between guess and price in thousandths of the price,
/// rounded to the nearest whole, a half away from zero. Price and guess
/// are read as signed 32-bit numbers, and each step that leaves that range
/// is an error.
pub open spec fn spec_difference(guess: u32, price: u32) -> Result<u16, Error> {
    let p = as_signed(price);
    let d = p - as_signed(guess);
    if d < i32::MIN || d > i32::MAX {
        Err(Error::ArithmeticUnderflow)
    } else if d * 1000 < i32::MIN || d * 1000 > i32::MAX {
        Err(Error::MultiplyError)
    } else if p == 0 {
        Err(Error::DivisionError)
    } else if nearest(magnitude(d * 1000), magnitude(p)) > u16::MAX {
        Err(Error::ConversionError)
    } else {
        Ok(nearest(magnitude(d * 1000), magnitude(p)) as u16)
    }
}

/// The number that bytes 4 to 7 of a random seed spell, lowest byte first.
pub open spec fn spec_random_u32(seed: Seq<u8>) -> Result<u32, Error> {
    if seed.len() < 8 {
        Err(Error::ConversionError)
    } else {
        Ok((seed[4] + seed[5] * 0x100 + seed[6] * 0x1_0000 + seed[7] * 0x100_0000) as u32)
    }
}

/// The profile after a game that pays or costs flat points.
pub open spec fn spec_settled(user: User, difficulty: DifficultyLevel, difference: u16) -> Result<
    User,
    Error,
> {
    let v = spec_verdict(difficulty, difference);
    if difficulty == DifficultyLevel::Practice {
        if user.points + 5 > u32::MAX || user.practise_rounds == u8::MAX {
            Err(Error::ArithmeticOverflow)
        } else {
            Ok(
                User {
                    points: (user.points + 5) as u32,
                    practise_rounds: (user.practise_rounds + 1) as u8,
                    ..user
                },
            )
        }
    } else if v.won {
        if user.points + v.points > u32::MAX || user.wins == u32::MAX {
            Err(Error::ArithmeticOverflow)
        } else {
            Ok(
                User {
                    points: (user.points + v.points) as u32,
                    wins: (user.wins + 1) as u32,
                    ..user
                },
            )
        }
    } else {
        if user.points < v.points {
            Err(Error::ArithmeticUnderflow)
        } else if user.losses == u32::MAX {
            Err(Error::ArithmeticOverflow)
        } else {
            Ok(
                User {
                    points: (user.points - v.points) as u32,
                    losses: (user.losses + 1) as u32,
                    ..user
                },
            )
        }
    }
}

/// The profile after a won game that minted an NFT of `color`: the colour
/// is counted, and its copy pays its marginal value.
pub open spec fn spec_rewarded(user: User, color: NftColor) -> Result<User, Error> {
    match user.nfts.added(color) {
        Err(e) => Err(e),
        Ok(nfts) => {
            let points = marginal_value(nfts.count(color) as int);
            if user.points + points > u32::MAX || user.wins == u32::MAX {
                Err(Error::ArithmeticOverflow)
            } else {
                Ok(
                    User {
                        points: (user.points + points) as u32,
                        wins: (user.wins + 1) as u32,
                        nfts,
                        ..user
                    },
                )
            }
        },
    }
}

/// The profile after a trade that brings an NFT of `gained` and takes one of
/// `given`: first the credit for the colour gained, then the debit for the
/// colour given up.
pub open spec fn spec_swapped(user: User, gained: NftColor, given: NftColor) -> Result<
    User,
    Error,
> {
    match user.nfts.added(gained) {
        Err(e) => Err(e),
        Ok(more) => {
            let credit = marginal_value(more.count(gained) as int);
            if user.points + credit > u32::MAX {
                Err(Error::ArithmeticOverflow)
            } else {
                match more.subtracted(given) {
                    Err(e) => Err(e),
                    Ok(nfts) => {
                        let debit = marginal_value(nfts.count(given) + 1);
                        if user.points + credit < debit {
                            Err(Error::ArithmeticUnderflow)
                        } else {
                            Ok(User { points: (user.points + credit - debit) as u32, nfts, ..user })
                        }
                    },
                }
            }
        },
    }
}

/// The profile after a game that nobody answered in time.
pub open spec fn spec_expired(user: User, difficulty: DifficultyLevel) -> Result<User, Error> {
    if difficulty == DifficultyLevel::Practice {
        Ok(user)
    } else if user.points < spec_expiry_penalty(difficulty) {
        Err(Error::ArithmeticUnderflow)
    } else if user.losses == u32::MAX {
        Err(Error::ArithmeticOverflow)
    } else {
        Ok(
            User {
                points: (user.points - spec_expiry_penalty(difficulty)) as u32,
                losses: (user.losses + 1) as u32,
                ..user
            },
        )
    }
}

/// Whether a profile may start a game of a difficulty, and if not, why.
pub open spec fn spec_eligible(user: User, difficulty: DifficultyLevel) -> Result<(), Error> {
    match difficulty {
        DifficultyLevel::Pro => if user.practise_rounds == 0 {
            Err(Error::NoPractise)
        } else if user.points < 50 {
            Err(Error::NotEnoughPoints)
        } else {
            Ok(())
        },
        DifficultyLevel::Player => if user.practise_rounds == 0 {
            Err(Error::NoPractise)
        } else if user.points < 25 {
            Err(Error::NotEnoughPoints)
        } else {
            Ok(())
        },
        DifficultyLevel::Practice => if user.practise_rounds >= 5 {
            Err(Error::TooManyPractise)
        } else {
            Ok(())
        },
    }
}

pub fn window(difficulty: DifficultyLevel) -> (r: BlockNumber)
    ensures
        r == spec_window(difficulty),
{
    match difficulty {
        DifficultyLevel::Practice => 10,
        DifficultyLevel::Player => 8,
        DifficultyLevel::Pro => 5,
    }
}

pub fn expiry_penalty(difficulty: DifficultyLevel) -> (r: u32)
    ensures
        r == spec_expiry_penalty(difficulty),
{
    match difficulty {
        DifficultyLevel::Practice => 0,
        DifficultyLevel::Player => 25,
        DifficultyLevel::Pro => 50,
    }
}

/// Looks a permille difference up in the reward and penalty table.
pub fn verdict(difficulty: DifficultyLevel, difference: u16) -> (v: Verdict)
    ensures
        v == spec_verdict(difficulty, difference),
{
    let base: u32 = if difference <= 10 {
        0
    } else if difference <= 30 {
        25
    } else if difference <= 50 {
        15
    } else if difference <= 100 {
        5
    } else if difference <= 150 {
        5
    } else if difference <= 200 {
        10
    } else if difference <= 250 {
        15
    } else if difference <= 300 {
        20
    } else {
        25
    };
    match difficulty {
        DifficultyLevel::Practice => Verdict { points: 5, won: true, nft_received: false },
        DifficultyLevel::Player => Verdict {
            points: base,
            won: difference <= 100,
            nft_received: difference <= 10,
        },
        DifficultyLevel::Pro => Verdict {
            points: 2 * base,
            won: difference <= 100,
            nft_received: difference <= 10,
        },
    }
}

/// Computes how far a guess is from the price, in thousandths of the price.
pub fn permille_difference(guess: u32, price: u32) -> (r: Result<u16, Error>)
    ensures
        r == spec_difference(guess, price),
{
    let p: i64 = if price > 0x7fff_ffff {
        price as i64 - 0x1_0000_0000
    } else {
        price as i64
    };
    let g: i64 = if guess > 0x7fff_ffff {
        guess as i64 - 0x1_0000_0000
    } else {
        guess as i64
    };
    let d: i64 = p - g;
    if d < -0x8000_0000 || d > 0x7fff_ffff {
        return Err(Error::ArithmeticUnderflow);
    }
    let m: i64 = d * 1000;
    if m < -0x8000_0000 || m > 0x7fff_ffff {
        return Err(Error::MultiplyError);
    }
    if p == 0 {
        return Err(Error::DivisionError);
    }
    let mm: u64 = if m < 0 {
        (-m) as u64
    } else {
        m as u64
    };
    let pm: u64 = if p < 0 {
        (-p) as u64
    } else {
        p as u64
    };
    let q: u64 = (2 * mm + pm) / (2 * pm);
    if q > 0xffff {
        return Err(Error::ConversionError);
    }
    Ok(q as u16)
}

/// Reads the random number out of a seed.
pub fn random_u32(seed: &[u8]) -> (r: Result<u32, Error>)
    ensures
        r == spec_random_u32(seed@),
{
    if seed.len() < 8 {
        return Err(Error::ConversionError);
    }
    let b0: u32 = seed[4] as u32;
    let b1: u32 = seed[5] as u32;
    let b2: u32 = seed[6] as u32;
    let b3: u32 = seed[7] as u32;
    Ok(b0 + b1 * 0x100 + b2 * 0x1_0000 + b3 * 0x100_0000)
}

/// The byte that the randomness oracle is asked with for a game.
pub fn randomness_subject(game_id: u32) -> (b: u8)
    ensures
        b == game_id % 256,
{
    (game_id % 256) as u8
}

/// Checks whether a profile may start a game of a difficulty.
pub fn eligible(user: &User, difficulty: DifficultyLevel) -> (r: Result<(), Error>)
    ensures
        r == spec_eligible(*user, difficulty),
{
    match difficulty {
        DifficultyLevel::Pro => {
            if user.practise_rounds == 0 {
                Err(Error::NoPractise)
            } else if user.points < 50 {
                Err(Error::NotEnoughPoints)
            } else {
                Ok(())
            }
        },
        DifficultyLevel::Player => {
            if user.practise_rounds == 0 {
                Err(Error::NoPractise)
            } else if user.points < 25 {
                Err(Error::NotEnoughPoints)
            } else {
                Ok(())
            }
        },
        DifficultyLevel::Practice => {
            if user.practise_rounds >= 5 {
                Err(Error::TooManyPractise)
            } else {
                Ok(())
            }
        },
    }
}

/// Applies a game that pays or costs flat points to a profile.
pub fn settled(user: User, difficulty: DifficultyLevel, difference: u16) -> (r: Result<
    User,
    Error,
>)
    ensures
        r == spec_settled(user, difficulty, difference),
{
    let v: Verdict = verdict(difficulty, difference);
    let mut next: User = user;
    match difficulty {
        DifficultyLevel::Practice => {
            if user.points > u32::MAX - 5 || user.practise_rounds == u8::MAX {
                return Err(Error::ArithmeticOverflow);
            }
            next.points = user.points + 5;
            next.practise_rounds = user.practise_rounds + 1;
        },
        _ => {
            if v.won {
                if user.points > u32::MAX - v.points || user.wins == u32::MAX {
                    return Err(Error::ArithmeticOverflow);
                }
                next.points = user.points + v.points;
                next.wins = user.wins + 1;
            } else {
                if user.points < v.points {
                    return Err(Error::ArithmeticUnderflow);
                }
                if user.losses == u32::MAX {
                    return Err(Error::ArithmeticOverflow);
                }
                next.points = user.points - v.points;
                next.losses = user.losses + 1;
            }
        },
    }
    Ok(next)
}

/// Applies a won game that minted an NFT of `color` to a profile.
pub fn rewarded(user: User, color: NftColor) -> (r: Result<User, Error>)
    ensures
        r == spec_rewarded(user, color),
{
    let mut next: User = user;
    match next.add_nft_color(color) {
        Err(e) => {
            return Err(e);
        },
        Ok(()) => {},
    }
    let points: u32 = next.calculate_points(color);
    if next.points > u32::MAX - points || next.wins == u32::MAX {
        return Err(Error::ArithmeticOverflow);
    }
    next.points = next.points + points;
    next.wins = next.wins + 1;
    Ok(next)
}

/// Applies a trade to a profile: credit for the colour gained, then debit
/// for the colour given up.
pub fn swapped(user: User, gained: NftColor, given: NftColor) -> (r: Result<User, Error>)
    ensures
        r == spec_swapped(user, gained, given),
{
    let mut next: User = user;
    match next.add_nft_color(gained) {
        Err(e) => {
            return Err(e);
        },
        Ok(()) => {},
    }
    let credit: u32 = next.calculate_points(gained);
    if next.points > u32::MAX - credit {
        return Err(Error::ArithmeticOverflow);
    }
    next.points = next.points + credit;
    match next.sub_nft_color(given) {
        Err(e) => {
            return Err(e);
        },
        Ok(()) => {},
    }
    let debit: u32 = next.subtracting_calculate_points(given);
    if next.points < debit {
        return Err(Error::ArithmeticUnderflow);
    }
    next.points = next.points - debit;
    Ok(next)
}

/// Applies the penalty of an unanswered game to a profile.
pub fn expired(user: User, difficulty: DifficultyLevel) -> (r: Result<User, Error>)
    ensures
        r == spec_expired(user, difficulty),
{
    let penalty: u32 = expiry_penalty(difficulty);
    match difficulty {
        DifficultyLevel::Practice => Ok(user),
        _ => {
            if user.points < penalty {
                return Err(Error::ArithmeticUnderflow);
            }
            if user.losses == u32::MAX {
                return Err(Error::ArithmeticOverflow);
            }
            let mut next: User = user;
            next.points = user.points - penalty;
            next.losses = user.losses + 1;
            Ok(next)
        },
    }
}

} // verus!
