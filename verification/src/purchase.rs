//! The purchase of an auction: who may buy, and what changes hands.
//!
//! A purchase is judged on what the ledger holds of the auction, of the buyer
//! and of the seller at the moment of the purchase. The checks come in a fixed
//! order, so that a request with several faults always meets the same
//! refusal: existence, then the state of the auction, then funds, then
//! identity.

use vstd::prelude::*;

use crate::auction::{Auction, AuctionStatus, AuctionView};
use crate::character::{Character, CharacterView};
use crate::clock::Timestamp;
use crate::errors::{Error, ErrorView};

verus! {

/// Why the purchase of `auction` by `buyer` is refused at `now`, or `None`
/// where it goes through. `seller` is the character that the ledger holds
/// under the seller's name; one of another name counts as absent.
pub open spec fn refusal(
    auction: Option<AuctionView>,
    buyer: Option<CharacterView>,
    seller: Option<CharacterView>,
    now: int,
) -> Option<ErrorView> {
    if auction is None {
        Some(ErrorView::AuctionNotFound)
    } else if buyer is None {
        Some(ErrorView::CharacterNotFound)
    } else if !auction->0.is_open_at(now) {
        Some(ErrorView::AuctionNotActive)
    } else if buyer->0.gold < auction->0.price {
        Some(ErrorView::InsufficientGold)
    } else if buyer->0.name == auction->0.seller_name {
        Some(ErrorView::IncorrectBuyer)
    } else if seller is None || seller->0.name != auction->0.seller_name {
        Some(ErrorView::CharacterNotFound)
    } else {
        None
    }
}

/// The part of `refusal` that needs the auction and the buyer only.
pub open spec fn buyer_refusal(auction: AuctionView, buyer: CharacterView, now: int) -> Option<
    ErrorView,
> {
    if !auction.is_open_at(now) {
        Some(ErrorView::AuctionNotActive)
    } else if buyer.gold < auction.price {
        Some(ErrorView::InsufficientGold)
    } else if buyer.name == auction.seller_name {
        Some(ErrorView::IncorrectBuyer)
    } else {
        None
    }
}

/// What a purchase leaves behind: the auction, sold, and the two characters
/// with their new balances.
#[derive(Debug, PartialEq, Eq)]
pub struct Receipt {
    pub auction: Auction,
    pub buyer: Character,
    pub seller: Character,
}

/// A receipt, apart from how its texts are held in memory.
pub struct ReceiptView {
    pub auction: AuctionView,
    pub buyer: CharacterView,
    pub seller: CharacterView,
}

impl View for Receipt {
    type V = ReceiptView;

    open spec fn view(&self) -> ReceiptView {
        ReceiptView { auction: self.auction@, buyer: self.buyer@, seller: self.seller@ }
    }
}

/// The outcome of a purchase that goes through: the price leaves the buyer,
/// reaches the seller, and the auction is sold.
pub open spec fn settled(auction: AuctionView, buyer: CharacterView, seller: CharacterView) -> ReceiptView {
    ReceiptView {
        auction: auction.with_status(AuctionStatus::Sold),
        buyer: buyer.with_gold((buyer.gold - auction.price) as nat),
        seller: seller.with_gold(seller.gold + auction.price),
    }
}

/// The view of each of three optional values.
pub open spec fn views(
    auction: Option<Auction>,
    buyer: Option<Character>,
    seller: Option<Character>,
) -> (Option<AuctionView>, Option<CharacterView>, Option<CharacterView>) {
    (
        match auction {
            Some(a) => Some(a@),
            None => None,
        },
        match buyer {
            Some(b) => Some(b@),
            None => None,
        },
        match seller {
            Some(s) => Some(s@),
            None => None,
        },
    )
}

/// Judges a purchase on the auction and the buyer alone: whether the auction
/// is open at `now`, whether the buyer can pay, and whether the buyer is not
/// the seller, in this order.
pub fn vet(auction: &Auction, buyer: &Character, now: Timestamp) -> (verdict: Result<(), Error>)
    ensures
        verdict is Ok <==> buyer_refusal(auction@, buyer@, now as int) is None,
        verdict matches Err(e) ==> Some(e@) == buyer_refusal(auction@, buyer@, now as int),
{
    if !auction.is_open_at(now) {
        return Err(Error::AuctionNotActive);
    }
    if buyer.gold < auction.price {
        return Err(Error::InsufficientGold);
    }
    if buyer.name == auction.seller_name {
        return Err(Error::IncorrectBuyer);
    }
    Ok(())
}

/// Judges and settles a purchase at `now`, given what the ledger holds of
/// the auction, of the buyer and of the seller. The price is the auction's
/// own. Nothing is changed in place: the receipt holds the new state of all
/// three.
pub fn purchase(
    auction: Option<Auction>,
    buyer: Option<Character>,
    seller: Option<Character>,
    now: Timestamp,
) -> (outcome: Result<Receipt, Error>)
    requires
        ({
            let (a, b, s) = views(auction, buyer, seller);
            refusal(a, b, s, now as int) is None ==> s->0.gold + a->0.price <= u64::MAX
        }),
    ensures
        ({
            let (a, b, s) = views(auction, buyer, seller);
            let fault = refusal(a, b, s, now as int);
            &&& outcome is Ok <==> fault is None
            &&& outcome matches Err(e) ==> Some(e@) == fault
            &&& outcome matches Ok(receipt) ==> receipt@ == settled(a->0, b->0, s->0)
        }),
{
    let Some(mut auction) = auction else {
        return Err(Error::AuctionNotFound);
    };
    let Some(mut buyer) = buyer else {
        return Err(Error::CharacterNotFound);
    };
    match vet(&auction, &buyer, now) {
        Err(e) => {
            return Err(e);
        },
        Ok(()) => {},
    }
    let Some(mut seller) = seller else {
        return Err(Error::CharacterNotFound);
    };
    if seller.name != auction.seller_name {
        return Err(Error::CharacterNotFound);
    }
    buyer.gold = buyer.gold - auction.price;
    seller.gold = seller.gold + auction.price;
    auction.status = AuctionStatus::Sold;
    Ok(Receipt { auction, buyer, seller })
}

/// Closes a purchase on the ledger's answer to the write that marks the
/// auction as sold on condition that it is still active. `rows_changed` is
/// the number of rows that the write changed: where it changed none, another
/// writer was first, the purchase is refused, and no balance may be written.
/// Where it changed a row, the receipt comes back as it was given, and its
/// two balances are to be written.
pub fn confirm(receipt: Receipt, rows_changed: u64) -> (outcome: Result<Receipt, Error>)
    ensures
        rows_changed == 0 <==> outcome is Err,
        outcome matches Err(e) ==> e == Error::AuctionNotActive,
        outcome matches Ok(kept) ==> kept == receipt,
{
    if rows_changed == 0 {
        Err(Error::AuctionNotActive)
    } else {
        Ok(receipt)
    }
}

} // verus!
