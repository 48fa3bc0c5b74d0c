//! Deterministic rules of a property-price guessing game: scoring, the
//! colour collection, the marketplace bookkeeping, the leaderboard and the
//! expiry of unanswered games, as one state machine with proved contracts.

pub mod types;
pub mod scoring;
pub mod bounded;
pub mod leaderboard;
pub mod state;
pub mod pallet;
pub mod game;
pub mod market;
pub mod laws;

pub use bounded::{LEADERBOARD_LIMIT, MAX_ADMINS, MAX_ONGOING_GAMES, MAX_PROPERTY};
pub use pallet::Pallet;
pub use scoring::Verdict;
pub use state::FAUCET_AMOUNT;
pub use types::{
    AccountId, BlockNumber, CollectedColors, CollectionId, Config, DifficultyLevel, Effect, Error,
    Event, GameData, ItemId, ListingInfo, NftColor, Offer, OfferInfo, Origin, PropertyInfoData,
    Receipt, User,
};
