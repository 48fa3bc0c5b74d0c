//! Plain data of the game: difficulty levels, colours, player profiles,
//! sessions, marketplace records, configuration, errors and notifications.

use vstd::prelude::*;

verus! {

/// An account, by its numeric identity.
pub type AccountId = u64;

/// A height of the external clock.
pub type BlockNumber = u64;

/// An NFT collection of the registry.
pub type CollectionId = u32;

/// An item inside a collection.
pub type ItemId = u32;

/// Difficulty level of a game.
#[derive(Clone, Copy, Debug, PartialEq, Eq, Structural)]
pub enum DifficultyLevel {
    Practice,
    Player,
    Pro,
}

/// Decision of a listing's owner on an offer.
#[derive(Clone, Copy, Debug, PartialEq, Eq, Structural)]
pub enum Offer {
    Accept,
    Reject,
}

/// The eight colour categories.
#[derive(Clone, Copy, Debug, PartialEq, Eq, Structural)]
pub enum NftColor {
    Xorange,
    Xpink,
    Xblue,
    Xcyan,
    Xcoral,
    Xpurple,
    Xleafgreen,
    Xgreen,
}

impl NftColor {
    /// The colour at a position of the fixed colour order, if there is one.
    pub open spec fn spec_from_index(index: int) -> Option<NftColor> {
        if index == 0 {
            Some(NftColor::Xorange)
        } else if index == 1 {
            Some(NftColor::Xpink)
        } else if index == 2 {
            Some(NftColor::Xblue)
        } else if index == 3 {
            Some(NftColor::Xcyan)
        } else if index == 4 {
            Some(NftColor::Xcoral)
        } else if index == 5 {
            Some(NftColor::Xpurple)
        } else if index == 6 {
            Some(NftColor::Xleafgreen)
        } else if index == 7 {
            Some(NftColor::Xgreen)
        } else {
            None
        }
    }

    pub fn from_index(index: usize) -> (r: Option<Self>)
        ensures
            r == Self::spec_from_index(index as int),
    {
        match index {
            0 => Some(NftColor::Xorange),
            1 => Some(NftColor::Xpink),
            2 => Some(NftColor::Xblue),
            3 => Some(NftColor::Xcyan),
            4 => Some(NftColor::Xcoral),
            5 => Some(NftColor::Xpurple),
            6 => Some(NftColor::Xleafgreen),
            7 => Some(NftColor::Xgreen),
            _ => None,
        }
    }
}

/// Failures of the game's operations.
#[derive(Clone, Copy, Debug, PartialEq, Eq, Structural)]
pub enum Error {
    /// The caller is not of the class that the operation asks for.
    BadOrigin,
    /// A player has not enough points to play.
    NotEnoughPoints,
    ConversionError,
    ArithmeticOverflow,
    ArithmeticUnderflow,
    MultiplyError,
    DivisionError,
    /// There are too many games active.
    TooManyGames,
    /// The caller is not the player of the game.
    NoThePlayer,
    /// This is not an active game.
    NoActiveGame,
    NoPermission,
    /// This listing is not listed.
    ListingDoesNotExist,
    /// This offer does not exist.
    OfferDoesNotExist,
    /// There are too many properties.
    TooManyTest,
    /// No property could be found.
    NoProperty,
    /// The user has not yet been registered.
    UserNotRegistered,
    /// The user has already made 5 practise rounds.
    TooManyPractise,
    /// The user has not yet made a practise round.
    NoPractise,
    InvalidIndex,
    /// The color for this collection is not known.
    CollectionUnknown,
    /// There is no active round at the moment.
    NoActiveRound,
    /// The player is already registered.
    PlayerAlreadyRegistered,
    /// The account is already an admin.
    AccountAlreadyAdmin,
    /// This account is not an admin.
    NotAdmin,
    /// There are already enough admins.
    TooManyAdmins,
    /// The user has to wait to request token.
    CantRequestToken,
    /// There has been no guess from the player.
    NoGuess,
}

/// Who calls an operation.
#[derive(Clone, Copy, Debug, PartialEq, Eq, Structural)]
pub enum Origin {
    /// The privileged caller.
    Root,
    /// An ordinary account.
    Signed(AccountId),
}

impl Origin {
    /// The account behind a signed origin.
    pub open spec fn signer(self) -> Result<AccountId, Error> {
        match self {
            Origin::Signed(who) => Ok(who),
            Origin::Root => Err(Error::BadOrigin),
        }
    }

    /// Whether the origin is the privileged caller.
    pub open spec fn privileged(self) -> bool {
        self == Origin::Root
    }

    pub fn ensure_signed(self) -> (r: Result<AccountId, Error>)
        ensures
            r == self.signer(),
    {
        match self {
            Origin::Signed(who) => Ok(who),
            Origin::Root => Err(Error::BadOrigin),
        }
    }

    pub fn ensure_root(self) -> (r: Result<(), Error>)
        ensures
            r is Ok <==> self.privileged(),
            r is Err ==> r == Err::<(), Error>(Error::BadOrigin),
    {
        match self {
            Origin::Root => Ok(()),
            Origin::Signed(_) => Err(Error::BadOrigin),
        }
    }
}

/// What a deployment chooses.
#[derive(Clone, Copy, Debug, PartialEq, Eq, Structural)]
pub struct Config {
    /// The heights between two token requests of one player.
    pub request_limit: BlockNumber,
}

/// How many NFTs of each colour a player has collected in the round.
#[derive(Clone, Copy, Debug, PartialEq, Eq, Structural)]
pub struct CollectedColors {
    pub xorange: u32,
    pub xpink: u32,
    pub xblue: u32,
    pub xcyan: u32,
    pub xcoral: u32,
    pub xpurple: u32,
    pub xleafgreen: u32,
    pub xgreen: u32,
}

impl Default for CollectedColors {
    fn default() -> (r: Self)
        ensures
            r == CollectedColors::empty(),
    {
        CollectedColors::new()
    }
}

impl CollectedColors {
    /// The tally with nothing collected.
    pub open spec fn empty() -> CollectedColors {
        CollectedColors {
            xorange: 0,
            xpink: 0,
            xblue: 0,
            xcyan: 0,
            xcoral: 0,
            xpurple: 0,
            xleafgreen: 0,
            xgreen: 0,
        }
    }

    /// The counter of one colour.
    pub open spec fn count(self, color: NftColor) -> u32 {
        match color {
            NftColor::Xorange => self.xorange,
            NftColor::Xpink => self.xpink,
            NftColor::Xblue => self.xblue,
            NftColor::Xcyan => self.xcyan,
            NftColor::Xcoral => self.xcoral,
            NftColor::Xpurple => self.xpurple,
            NftColor::Xleafgreen => self.xleafgreen,
            NftColor::Xgreen => self.xgreen,
        }
    }

    /// The tally with the counter of one colour replaced.
    pub open spec fn with_count(self, color: NftColor, n: u32) -> CollectedColors {
        match color {
            NftColor::Xorange => CollectedColors { xorange: n, ..self },
            NftColor::Xpink => CollectedColors { xpink: n, ..self },
            NftColor::Xblue => CollectedColors { xblue: n, ..self },
            NftColor::Xcyan => CollectedColors { xcyan: n, ..self },
            NftColor::Xcoral => CollectedColors { xcoral: n, ..self },
            NftColor::Xpurple => CollectedColors { xpurple: n, ..self },
            NftColor::Xleafgreen => CollectedColors { xleafgreen: n, ..self },
            NftColor::Xgreen => CollectedColors { xgreen: n, ..self },
        }
    }

    /// A full set: at least four of every colour.
    pub open spec fn complete(self) -> bool {
        forall|color: NftColor| #[trigger] self.count(color) >= 4
    }

    /// The tally after one more NFT of a colour, or the overflow error.
    pub open spec fn added(self, color: NftColor) -> Result<CollectedColors, Error> {
        if self.count(color) == u32::MAX {
            Err(Error::ArithmeticOverflow)
        } else {
            Ok(self.with_count(color, (self.count(color) + 1) as u32))
        }
    }

    /// The tally after one NFT of a colour less, or the underflow error.
    pub open spec fn subtracted(self, color: NftColor) -> Result<CollectedColors, Error> {
        if self.count(color) == 0 {
            Err(Error::ArithmeticUnderflow)
        } else {
            Ok(self.with_count(color, (self.count(color) - 1) as u32))
        }
    }

    pub fn new() -> (r: Self)
        ensures
            r == Self::empty(),
    {
        CollectedColors {
            xorange: 0,
            xpink: 0,
            xblue: 0,
            xcyan: 0,
            xcoral: 0,
            xpurple: 0,
            xleafgreen: 0,
            xgreen: 0,
        }
    }

    /// Reads the counter of one colour.
    pub fn get(&self, color: NftColor) -> (n: u32)
        ensures
            n == self.count(color),
    {
        match color {
            NftColor::Xorange => self.xorange,
            NftColor::Xpink => self.xpink,
            NftColor::Xblue => self.xblue,
            NftColor::Xcyan => self.xcyan,
            NftColor::Xcoral => self.xcoral,
            NftColor::Xpurple => self.xpurple,
            NftColor::Xleafgreen => self.xleafgreen,
            NftColor::Xgreen => self.xgreen,
        }
    }

    fn set(&mut self, color: NftColor, n: u32)
        ensures
            *final(self) == old(self).with_count(color, n),
    {
        match color {
            NftColor::Xorange => self.xorange = n,
            NftColor::Xpink => self.xpink = n,
            NftColor::Xblue => self.xblue = n,
            NftColor::Xcyan => self.xcyan = n,
            NftColor::Xcoral => self.xcoral = n,
            NftColor::Xpurple => self.xpurple = n,
            NftColor::Xleafgreen => self.xleafgreen = n,
            NftColor::Xgreen => self.xgreen = n,
        }
    }

    /// Counts one more NFT of a colour. Fails on overflow and then leaves
    /// the tally as it was.
    pub fn add_nft_color(&mut self, color: NftColor) -> (r: Result<(), Error>)
        ensures
            match old(self).added(color) {
                Ok(t) => r is Ok && *final(self) == t,
                Err(e) => r == Err::<(), Error>(e) && *final(self) == *old(self),
            },
    {
        let n: u32 = self.get(color);
        if n == u32::MAX {
            return Err(Error::ArithmeticOverflow);
        }
        self.set(color, n + 1);
        Ok(())
    }

    /// Counts one NFT of a colour less. Fails on a counter that is zero and
    /// then leaves the tally as it was.
    pub fn sub_nft_color(&mut self, color: NftColor) -> (r: Result<(), Error>)
        ensures
            match old(self).subtracted(color) {
                Ok(t) => r is Ok && *final(self) == t,
                Err(e) => r == Err::<(), Error>(e) && *final(self) == *old(self),
            },
    {
        let n: u32 = self.get(color);
        if n == 0 {
            return Err(Error::ArithmeticUnderflow);
        }
        self.set(color, n - 1);
        Ok(())
    }

    pub fn has_four_of_all_colors(&self) -> (r: bool)
        ensures
            r == self.complete(),
    {
        let r = self.xorange >= 4 && self.xpink >= 4 && self.xblue >= 4 && self.xcyan >= 4
            && self.xcoral >= 4 && self.xpurple >= 4 && self.xleafgreen >= 4 && self.xgreen >= 4;
        proof {
            if r {
                assert forall|color: NftColor| #[trigger] self.count(color) >= 4 by {}
            } else {
                assert(self.count(NftColor::Xorange) < 4 || self.count(NftColor::Xpink) < 4
                    || self.count(NftColor::Xblue) < 4 || self.count(NftColor::Xcyan) < 4
                    || self.count(NftColor::Xcoral) < 4 || self.count(NftColor::Xpurple) < 4
                    || self.count(NftColor::Xleafgreen) < 4 || self.count(NftColor::Xgreen) < 4);
            }
        }
        r
    }
}

/// The points that the n-th copy of a colour is worth.
pub open spec fn marginal_value(n: int) -> u32 {
    if n == 1 {
        100
    } else if n == 2 {
        120
    } else if n == 3 {
        220
    } else if n == 4 {
        340
    } else {
        0
    }
}

/// A player's profile.
#[derive(Clone, Copy, Debug, PartialEq, Eq, Structural)]
pub struct User {
    pub points: u32,
    pub wins: u32,
    pub losses: u32,
    pub practise_rounds: u8,
    pub last_played_round: u32,
    pub next_token_request: BlockNumber,
    pub nfts: CollectedColors,
}

impl User {
    /// The profile of a player who registers: 50 points, nothing played.
    pub open spec fn registered(next_token_request: BlockNumber) -> User {
        User {
            points: 50,
            wins: 0,
            losses: 0,
            practise_rounds: 0,
            last_played_round: 0,
            next_token_request,
            nfts: CollectedColors::empty(),
        }
    }

    pub fn add_nft_color(&mut self, color: NftColor) -> (r: Result<(), Error>)
        ensures
            match old(self).nfts.added(color) {
                Ok(t) => r is Ok && *final(self) == (User { nfts: t, ..*old(self) }),
                Err(e) => r == Err::<(), Error>(e) && *final(self) == *old(self),
            },
    {
        self.nfts.add_nft_color(color)
    }

    pub fn sub_nft_color(&mut self, color: NftColor) -> (r: Result<(), Error>)
        ensures
            match old(self).nfts.subtracted(color) {
                Ok(t) => r is Ok && *final(self) == (User { nfts: t, ..*old(self) }),
                Err(e) => r == Err::<(), Error>(e) && *final(self) == *old(self),
            },
    {
        self.nfts.sub_nft_color(color)
    }

    pub fn has_four_of_all_colors(&self) -> (r: bool)
        ensures
            r == self.nfts.complete(),
    {
        self.nfts.has_four_of_all_colors()
    }

    /// The points earned by the copy of `color` that was counted last.
    pub fn calculate_points(&mut self, color: NftColor) -> (points: u32)
        ensures
            *final(self) == *old(self),
            points == marginal_value(old(self).nfts.count(color) as int),
    {
        let n: u32 = self.nfts.get(color);
        if n == 1 {
            100
        } else if n == 2 {
            120
        } else if n == 3 {
            220
        } else if n == 4 {
            340
        } else {
            0
        }
    }

    /// The points charged for the copy of `color` that was given up last:
    /// what it would take to earn it back.
    pub fn subtracting_calculate_points(&mut self, color: NftColor) -> (points: u32)
        ensures
            *final(self) == *old(self),
            points == marginal_value(old(self).nfts.count(color) + 1),
    {
        let n: u32 = self.nfts.get(color);
        if n == 0 {
            100
        } else if n == 1 {
            120
        } else if n == 2 {
            220
        } else if n == 3 {
            340
        } else {
            0
        }
    }
}

/// A guessable property.
#[derive(Clone, Debug, PartialEq, Eq)]
pub struct PropertyInfoData {
    pub id: u32,
    pub data: Vec<u8>,
}

/// One game.
#[derive(Clone, Debug, PartialEq, Eq)]
pub struct GameData {
    pub difficulty: DifficultyLevel,
    pub player: AccountId,
    pub property: PropertyInfoData,
    pub guess: Option<u32>,
}

/// An NFT held in custody for sale.
#[derive(Clone, Copy, Debug, PartialEq, Eq, Structural)]
pub struct ListingInfo {
    pub owner: AccountId,
    pub collection_id: CollectionId,
    pub item_id: ItemId,
}

/// An NFT held in custody as an offer against a listing.
#[derive(Clone, Copy, Debug, PartialEq, Eq, Structural)]
pub struct OfferInfo {
    pub owner: AccountId,
    pub listing_id: u32,
    pub collection_id: CollectionId,
    pub item_id: ItemId,
}

/// What an operation reports on success.
#[derive(Clone, Debug, PartialEq, Eq)]
pub enum Event {
    /// A user has received points.
    PointsReceived { receiver: AccountId, amount: u32 },
    /// A game has started.
    GameStarted { player: AccountId, game_id: u32, ending_block: BlockNumber },
    /// An answer has been submitted.
    AnswerSubmitted { player: AccountId, game_id: u32, guess: u32 },
    /// The result has been checked.
    ResultChecked { game_id: u32, secret: Vec<u8>, points: u32, won: bool, nft_received: bool },
    /// No answer has been submitted.
    NoAnswer { game_id: u32, points: u32 },
    /// A nft has been listed.
    NftListed { owner: AccountId, collection_id: CollectionId, item_id: ItemId },
    /// A nft has been delisted.
    NftDelisted { owner: AccountId, collection_id: CollectionId, item_id: ItemId },
    /// An offer has been made.
    OfferMade { owner: AccountId, listing_id: u32, collection_id: CollectionId, item_id: ItemId },
    /// An offer has been withdrawn.
    OfferWithdrawn { owner: AccountId, offer_id: u32 },
    /// An offer has been handled.
    OfferHandeld { offer_id: u32, offer: Offer },
    /// A new player has been registered.
    NewPlayerRegistered { player: AccountId },
    /// A new admin has been added.
    NewAdminAdded { new_admin: AccountId },
    /// An admin has been removed.
    AdminRemoved { admin: AccountId },
    /// The user received token.
    TokenReceived { player: AccountId },
}

/// What the caller has to carry out on the NFT registry and the currency
/// ledger for an operation that succeeded, in this order.
#[derive(Clone, Copy, Debug, PartialEq, Eq, Structural)]
pub enum Effect {
    /// Create a collection that the game owns.
    CreateCollection { collection_id: CollectionId },
    /// Make the item transferable.
    Unlock { collection_id: CollectionId, item_id: ItemId },
    /// Make the item non-transferable.
    Lock { collection_id: CollectionId, item_id: ItemId },
    /// Move the item from its owner into the game's custody.
    Escrow { collection_id: CollectionId, item_id: ItemId, from: AccountId },
    /// Move the item out of the game's custody.
    Release { collection_id: CollectionId, item_id: ItemId, to: AccountId },
    /// Mint the item to a player.
    Mint { collection_id: CollectionId, item_id: ItemId, to: AccountId },
    /// Set the spendable balance of an account.
    SetBalance { who: AccountId, amount: u64 },
}

/// The outcome of an operation that succeeded.
#[derive(Clone, Debug, PartialEq, Eq)]
pub struct Receipt {
    /// What the operation reports.
    pub events: Vec<Event>,
    /// What the caller has to carry out, in this order.
    pub effects: Vec<Effect>,
}

} // verus!
