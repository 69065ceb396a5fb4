//! Auctions and their life cycle.
//!
//! An auction is a fixed-price listing that stays open for a fixed time. It
//! starts `Active` and leaves that state once, by being bought (`Sold`) or by
//! running out (`Expired`); neither of the two is ever left again.

use vstd::prelude::*;

use crate::character::{Character, CharacterView};
use crate::clock::{closing_time, in_clock_range, utc_now, Timestamp, LISTING_SECONDS};
use crate::errors::Error;
use crate::ident::{is_random_uuid, random_uuid, Id};
use crate::item::{ItemInstance, ItemInstanceView};

verus! {

/// The price at which an item is listed.
pub const LISTING_PRICE: u64 = 100;

/// Where a listing stands in its life cycle.
#[derive(Debug, Clone, Copy, PartialEq, Eq, Structural)]
pub enum AuctionStatus {
    Active,
    Sold,
    Expired,
}

impl AuctionStatus {
    /// The text under which the ledger stores this status.
    pub open spec fn text(self) -> Seq<char> {
        match self {
            AuctionStatus::Active => "active"@,
            AuctionStatus::Sold => "sold"@,
            AuctionStatus::Expired => "expired"@,
        }
    }

    /// The status that a stored text stands for.
    pub open spec fn spec_parse(text: Seq<char>) -> Option<AuctionStatus> {
        if text == "active"@ {
            Some(AuctionStatus::Active)
        } else if text == "sold"@ {
            Some(AuctionStatus::Sold)
        } else if text == "expired"@ {
            Some(AuctionStatus::Expired)
        } else {
            None
        }
    }

    /// The two states that are never left.
    pub open spec fn is_terminal(self) -> bool {
        self != AuctionStatus::Active
    }

    /// Renders the status as its stored text.
    pub fn to_string(&self) -> (s: String)
        ensures
            s@ == self.text(),
    {
        match self {
            AuctionStatus::Active => "active".to_string(),
            AuctionStatus::Sold => "sold".to_string(),
            AuctionStatus::Expired => "expired".to_string(),
        }
    }

    /// Reads a status from its stored text. Any other text, in other letters
    /// or with anything around it, stands for no status.
    pub fn parse(text: &str) -> (status: Option<AuctionStatus>)
        ensures
            status == AuctionStatus::spec_parse(text@),
    {
        let text = text.to_string();
        if text == "active".to_string() {
            Some(AuctionStatus::Active)
        } else if text == "sold".to_string() {
            Some(AuctionStatus::Sold)
        } else if text == "expired".to_string() {
            Some(AuctionStatus::Expired)
        } else {
            None
        }
    }

    /// The stored text of a status is read back as that status, and no
    /// other text is read as it.
    pub proof fn law_text_is_read_back(self, text: Seq<char>)
        ensures
            AuctionStatus::spec_parse(self.text()) == Some(self),
            AuctionStatus::spec_parse(text) == Some(self) <==> text == self.text(),
    {
        reveal_strlit("active");
        reveal_strlit("sold");
        reveal_strlit("expired");
        assert("active"@.len() == 6 && "sold"@.len() == 4 && "expired"@.len() == 7);
    }
}

/// A listing of an item by a character.
#[derive(Debug, PartialEq, Eq)]
pub struct Auction {
    pub id: Id,
    pub auctioned_item_id: Id,
    pub seller_name: String,
    pub creation_date: Timestamp,
    pub end_date: Timestamp,
    pub price: u64,
    pub status: AuctionStatus,
}

/// What an auction is, apart from how the seller's name is held in memory.
pub struct AuctionView {
    pub id: Id,
    pub auctioned_item_id: Id,
    pub seller_name: Seq<char>,
    pub creation_date: int,
    pub end_date: int,
    pub price: nat,
    pub status: AuctionStatus,
}

impl View for Auction {
    type V = AuctionView;

    open spec fn view(&self) -> AuctionView {
        AuctionView {
            id: self.id,
            auctioned_item_id: self.auctioned_item_id,
            seller_name: self.seller_name@,
            creation_date: self.creation_date as int,
            end_date: self.end_date as int,
            price: self.price as nat,
            status: self.status,
        }
    }
}

impl Clone for Auction {
    fn clone(&self) -> (copy: Self)
        ensures
            copy == *self,
    {
        Auction {
            id: self.id,
            auctioned_item_id: self.auctioned_item_id,
            seller_name: self.seller_name.clone(),
            creation_date: self.creation_date,
            end_date: self.end_date,
            price: self.price,
            status: self.status,
        }
    }
}

impl AuctionView {
    /// A listing as it stands when it is opened at `now`.
    pub open spec fn opened(
        id: Id,
        auctioned_item_id: Id,
        seller_name: Seq<char>,
        now: int,
        price: nat,
    ) -> AuctionView {
        AuctionView {
            id,
            auctioned_item_id,
            seller_name,
            creation_date: now,
            end_date: closing_time(now),
            price,
            status: AuctionStatus::Active,
        }
    }

    /// The same auction in another state.
    pub open spec fn with_status(self, status: AuctionStatus) -> AuctionView {
        AuctionView { status, ..self }
    }

    /// Whether the auction can be bought at `now`: it is active and its time
    /// has not run out.
    pub open spec fn is_open_at(self, now: int) -> bool {
        self.status == AuctionStatus::Active && now < self.end_date
    }

    /// Whether a sweep at `now` expires the auction: it is active and its
    /// closing time lies before `now`.
    pub open spec fn is_stale_at(self, now: int) -> bool {
        self.status == AuctionStatus::Active && self.end_date < now
    }

    /// The auction after a sweep at `now`.
    pub open spec fn swept(self, now: int) -> AuctionView {
        if self.is_stale_at(now) {
            self.with_status(AuctionStatus::Expired)
        } else {
            self
        }
    }
}

/// The optional filter of a listing of auctions.
#[derive(Debug, Clone, Copy, PartialEq, Eq)]
pub struct AuctionStatusQuery {
    pub status: Option<AuctionStatus>,
}

/// Which auctions a listing asks for.
#[derive(Debug, PartialEq, Eq)]
pub enum AuctionFilter {
    /// All of them.
    Any,
    /// Those in one state.
    InState(AuctionStatus),
    /// Those of one seller.
    SoldBy(String),
    /// Those that offer one item of the catalogue.
    Offering(Id),
}

/// A filter, apart from how the seller's name is held in memory.
pub enum AuctionFilterView {
    Any,
    InState(AuctionStatus),
    SoldBy(Seq<char>),
    Offering(Id),
}

impl View for AuctionFilter {
    type V = AuctionFilterView;

    open spec fn view(&self) -> AuctionFilterView {
        match self {
            AuctionFilter::Any => AuctionFilterView::Any,
            AuctionFilter::InState(status) => AuctionFilterView::InState(*status),
            AuctionFilter::SoldBy(name) => AuctionFilterView::SoldBy(name@),
            AuctionFilter::Offering(id) => AuctionFilterView::Offering(*id),
        }
    }
}

impl AuctionFilterView {
    /// Whether `auction` passes the filter.
    pub open spec fn admits(self, auction: AuctionView) -> bool {
        match self {
            AuctionFilterView::Any => true,
            AuctionFilterView::InState(status) => auction.status == status,
            AuctionFilterView::SoldBy(name) => auction.seller_name == name,
            AuctionFilterView::Offering(id) => auction.auctioned_item_id == id,
        }
    }
}

impl AuctionFilter {
    /// Whether `auction` passes the filter.
    pub fn admits(&self, auction: &Auction) -> (passes: bool)
        ensures
            passes == self@.admits(auction@),
    {
        match self {
            AuctionFilter::Any => true,
            AuctionFilter::InState(status) => auction.status == *status,
            AuctionFilter::SoldBy(name) => auction.seller_name == *name,
            AuctionFilter::Offering(id) => auction.auctioned_item_id == *id,
        }
    }
}

impl AuctionStatusQuery {
    /// The filter that the query stands for.
    pub open spec fn spec_filter(self) -> AuctionFilterView {
        match self.status {
            Some(status) => AuctionFilterView::InState(status),
            None => AuctionFilterView::Any,
        }
    }

    /// The filter that the query stands for: the auctions in the state that
    /// it names, or all of them where it names none.
    pub fn filter(&self) -> (filter: AuctionFilter)
        ensures
            filter@ == self.spec_filter(),
    {
        match self.status {
            Some(status) => AuctionFilter::InState(status),
            None => AuctionFilter::Any,
        }
    }
}

/// The view of an item instance that may be missing.
pub open spec fn found_row(owned: Option<ItemInstance>) -> Option<ItemInstanceView> {
    match owned {
        Some(row) => Some(row@),
        None => None,
    }
}

/// Whether `owned` is a row, and one of `seller`.
pub open spec fn owned_by(seller: CharacterView, owned: Option<ItemInstanceView>) -> bool {
    owned matches Some(row) && row.owner_name == seller.name
}

impl Auction {
    /// Opens a listing at `now`: it is active, closes `LISTING_SECONDS`
    /// later, and its price is fixed for good.
    pub fn open(id: Id, auctioned_item_id: Id, seller_name: String, now: Timestamp, price: u64) -> (listing: Auction)
        requires
            closing_time(now as int) <= i64::MAX,
        ensures
            listing@ == AuctionView::opened(
                id,
                auctioned_item_id,
                seller_name@,
                now as int,
                price as nat,
            ),
            listing.seller_name == seller_name,
    {
        Auction {
            id,
            auctioned_item_id,
            seller_name,
            creation_date: now,
            end_date: now + LISTING_SECONDS,
            price,
            status: AuctionStatus::Active,
        }
    }

    /// Lists an item instance for `seller`, at the listing price, under a
    /// fresh identifier and as of now. `owned` is the row that the ledger
    /// holds of the instance: where it holds none, or the row is not the
    /// seller's, the listing is refused.
    ///
    /// The listing names the catalogue item that the stored row names. What
    /// a request says of the instance beyond its identifier is not read.
    pub fn list(seller: &Character, owned: Option<ItemInstance>) -> (listing: Result<Auction, Error>)
        ensures
            listing is Ok <==> owned_by(seller@, found_row(owned)),
            listing matches Err(e) ==> e == Error::ItemInstanceNotFound,
            listing matches Ok(auction) ==> {
                &&& is_random_uuid(auction.id)
                &&& in_clock_range(auction.creation_date as int)
                &&& auction@ == AuctionView::opened(
                    auction.id,
                    owned->0.item_id,
                    seller.name@,
                    auction.creation_date as int,
                    LISTING_PRICE as nat,
                )
            },
    {
        let Some(row) = owned else {
            return Err(Error::ItemInstanceNotFound);
        };
        if row.owner_name != seller.name {
            return Err(Error::ItemInstanceNotFound);
        }
        let id = random_uuid();
        let now = utc_now();
        Ok(Auction::open(id, row.item_id, seller.name.clone(), now, LISTING_PRICE))
    }

    /// Whether the auction can be bought at `now`.
    pub fn is_open_at(&self, now: Timestamp) -> (open: bool)
        ensures
            open == self@.is_open_at(now as int),
    {
        self.status == AuctionStatus::Active && now < self.end_date
    }

    /// Whether a sweep at `now` expires the auction.
    pub fn is_stale_at(&self, now: Timestamp) -> (stale: bool)
        ensures
            stale == self@.is_stale_at(now as int),
    {
        self.status == AuctionStatus::Active && self.end_date < now
    }

    /// One sweep over this auction: expires it where it is stale at `now`,
    /// and says whether it did. An auction that is sold or expired stays as
    /// it is.
    pub fn sweep(&mut self, now: Timestamp) -> (expired: bool)
        ensures
            expired == old(self)@.is_stale_at(now as int),
            final(self)@ == old(self)@.swept(now as int),
            final(self).seller_name == old(self).seller_name,
    {
        if self.is_stale_at(now) {
            self.status = AuctionStatus::Expired;
            true
        } else {
            false
        }
    }
}

} // verus!
