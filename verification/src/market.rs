//! The marketplace: listing an NFT, offering another for it, and settling.
//! The NFTs themselves live in the registry; each operation says what has to
//! happen there. Every move across custody is an unlock, the move, and a
//! lock: at rest an item is never transferable.

use vstd::prelude::*;
use crate::pallet::{agrees, one_event, three_effects, Pallet};
use crate::state::{escrowed, released};
use crate::types::{
    AccountId, CollectionId, Effect, Error, Event, ItemId, ListingInfo, Offer, OfferInfo, Origin,
    Receipt, User,
};

verus! {

broadcast use vstd::std_specs::hash::group_hash_axioms;

/// The effects that hand an item out of custody.
fn release(collection_id: CollectionId, item_id: ItemId, to: AccountId) -> (v: Vec<Effect>)
    ensures
        v@ == released(collection_id, item_id, to),
{
    three_effects(
        Effect::Unlock { collection_id, item_id },
        Effect::Release { collection_id, item_id, to },
        Effect::Lock { collection_id, item_id },
    )
}

/// The effects that take an item into custody.
fn escrow(collection_id: CollectionId, item_id: ItemId, from: AccountId) -> (v: Vec<Effect>)
    ensures
        v@ == escrowed(collection_id, item_id, from),
{
    three_effects(
        Effect::Unlock { collection_id, item_id },
        Effect::Escrow { collection_id, item_id, from },
        Effect::Lock { collection_id, item_id },
    )
}

impl Pallet {
    /// Lists an NFT of the caller. `registry_owner` is the owner that the
    /// registry names for the item.
    pub fn list_nft(
        &mut self,
        origin: Origin,
        collection_id: CollectionId,
        item_id: ItemId,
        registry_owner: Option<AccountId>,
    ) -> (r: Result<Receipt, Error>)
        requires
            old(self).wf(),
        ensures
            agrees(
                r,
                old(self)@,
                final(self)@,
                old(self)@.list_nft(origin, collection_id, item_id, registry_owner),
            ),
            final(self).wf(),
    {
        let signer: AccountId = match origin.ensure_signed() {
            Ok(who) => who,
            Err(e) => {
                return Err(e);
            },
        };
        match registry_owner {
            Some(owner) => {
                if owner != signer {
                    return Err(Error::NoPermission);
                }
            },
            None => {
                return Err(Error::NoPermission);
            },
        }
        if self.next_listing_id == u32::MAX {
            return Err(Error::ArithmeticOverflow);
        }
        self.listings.insert(
            self.next_listing_id,
            ListingInfo { owner: signer, collection_id, item_id },
        );
        self.next_listing_id = self.next_listing_id + 1;
        assert(self@.games_expiring == old(self)@.games_expiring);
        Ok(
            Receipt {
                events: one_event(Event::NftListed { owner: signer, collection_id, item_id }),
                effects: escrow(collection_id, item_id, signer),
            },
        )
    }

    /// Takes a listing of the caller back.
    pub fn delist_nft(&mut self, origin: Origin, listing_id: u32) -> (r: Result<Receipt, Error>)
        requires
            old(self).wf(),
        ensures
            agrees(r, old(self)@, final(self)@, old(self)@.delist_nft(origin, listing_id)),
            final(self).wf(),
    {
        let signer: AccountId = match origin.ensure_signed() {
            Ok(who) => who,
            Err(e) => {
                return Err(e);
            },
        };
        let listing: ListingInfo = match self.listings(listing_id) {
            Some(listing) => listing,
            None => {
                return Err(Error::ListingDoesNotExist);
            },
        };
        if listing.owner != signer {
            return Err(Error::NoPermission);
        }
        self.listings.remove(&listing_id);
        assert(self@.games_expiring == old(self)@.games_expiring);
        Ok(
            Receipt {
                events: one_event(
                    Event::NftDelisted {
                        owner: signer,
                        collection_id: listing.collection_id,
                        item_id: listing.item_id,
                    },
                ),
                effects: release(listing.collection_id, listing.item_id, signer),
            },
        )
    }

    /// Offers an NFT of the caller for a listing.
    pub fn make_offer(
        &mut self,
        origin: Origin,
        listing_id: u32,
        collection_id: CollectionId,
        item_id: ItemId,
    ) -> (r: Result<Receipt, Error>)
        requires
            old(self).wf(),
        ensures
            agrees(
                r,
                old(self)@,
                final(self)@,
                old(self)@.make_offer(origin, listing_id, collection_id, item_id),
            ),
            final(self).wf(),
    {
        let signer: AccountId = match origin.ensure_signed() {
            Ok(who) => who,
            Err(e) => {
                return Err(e);
            },
        };
        if !self.listings.contains_key(&listing_id) {
            return Err(Error::ListingDoesNotExist);
        }
        if self.next_offer_id == u32::MAX {
            return Err(Error::ArithmeticOverflow);
        }
        self.offers.insert(
            self.next_offer_id,
            OfferInfo { owner: signer, listing_id, collection_id, item_id },
        );
        self.next_offer_id = self.next_offer_id + 1;
        assert(self@.games_expiring == old(self)@.games_expiring);
        Ok(
            Receipt {
                events: one_event(
                    Event::OfferMade { owner: signer, listing_id, collection_id, item_id },
                ),
                effects: escrow(collection_id, item_id, signer),
            },
        )
    }

    /// Takes an offer of the caller back.
    pub fn withdraw_offer(&mut self, origin: Origin, offer_id: u32) -> (r: Result<
        Receipt,
        Error,
    >)
        requires
            old(self).wf(),
        ensures
            agrees(r, old(self)@, final(self)@, old(self)@.withdraw_offer(origin, offer_id)),
            final(self).wf(),
    {
        let signer: AccountId = match origin.ensure_signed() {
            Ok(who) => who,
            Err(e) => {
                return Err(e);
            },
        };
        let bid: OfferInfo = match self.offers(offer_id) {
            Some(bid) => bid,
            None => {
                return Err(Error::OfferDoesNotExist);
            },
        };
        if bid.owner != signer {
            return Err(Error::NoPermission);
        }
        self.offers.remove(&offer_id);
        assert(self@.games_expiring == old(self)@.games_expiring);
        Ok(
            Receipt {
                events: one_event(Event::OfferWithdrawn { owner: signer, offer_id }),
                effects: release(bid.collection_id, bid.item_id, signer),
            },
        )
    }

    /// Accepts or rejects an offer for a listing of the caller. On Accept
    /// the two NFTs change hands, listing and offer are gone, and both
    /// parties' points and colours follow, the bidder's first.
    pub fn handle_offer(&mut self, origin: Origin, offer_id: u32, offer: Offer) -> (r: Result<
        Receipt,
        Error,
    >)
        requires
            old(self).wf(),
        ensures
            agrees(r, old(self)@, final(self)@, old(self)@.handle_offer(origin, offer_id, offer)),
            final(self).wf(),
    {
        let signer: AccountId = match origin.ensure_signed() {
            Ok(who) => who,
            Err(e) => {
                return Err(e);
            },
        };
        let bid: OfferInfo = match self.offers(offer_id) {
            Some(bid) => bid,
            None => {
                return Err(Error::OfferDoesNotExist);
            },
        };
        let listing: ListingInfo = match self.listings(bid.listing_id) {
            Some(listing) => listing,
            None => {
                return Err(Error::ListingDoesNotExist);
            },
        };
        if listing.owner != signer {
            return Err(Error::NoPermission);
        }
        match offer {
            Offer::Accept => {
                let bidder: Option<User> = self.users(bid.owner);
                let first: User = match self.swapped_user(
                    bidder,
                    listing.collection_id,
                    bid.collection_id,
                ) {
                    Ok(user) => user,
                    Err(e) => {
                        return Err(e);
                    },
                };
                let seller: Option<User> = if signer == bid.owner {
                    Some(first)
                } else {
                    self.users(signer)
                };
                let second: User = match self.swapped_user(
                    seller,
                    bid.collection_id,
                    listing.collection_id,
                ) {
                    Ok(user) => user,
                    Err(e) => {
                        return Err(e);
                    },
                };
                self.offers.remove(&offer_id);
                self.listings.remove(&bid.listing_id);
                assert(self@.games_expiring == old(self)@.games_expiring);
                self.credit(bid.owner, first, true);
                self.credit(signer, second, true);
                let mut effects: Vec<Effect> = release(
                    listing.collection_id,
                    listing.item_id,
                    bid.owner,
                );
                let mut back: Vec<Effect> = release(bid.collection_id, bid.item_id, signer);
                effects.append(&mut back);
                Ok(Receipt { events: one_event(Event::OfferHandeld { offer_id, offer }), effects })
            },
            Offer::Reject => {
                self.offers.remove(&offer_id);
                assert(self@.games_expiring == old(self)@.games_expiring);
                Ok(
                    Receipt {
                        events: one_event(Event::OfferHandeld { offer_id, offer }),
                        effects: release(bid.collection_id, bid.item_id, bid.owner),
                    },
                )
            },
        }
    }
}

} // verus!
