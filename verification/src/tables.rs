//! The ledger as mathematics: four tables of rows, and what each operation of
//! the marketplace makes of them.
//!
//! Nothing here runs. The executable ledger is held to these definitions, and
//! the laws of the marketplace are proved of them.

use vstd::prelude::*;

use crate::auction::{Auction, AuctionFilterView, AuctionStatus, AuctionView, LISTING_PRICE};
use crate::character::{Character, CharacterView};
use crate::errors::{Constraint, ErrorView};
use crate::ident::Id;
use crate::item::{InstanceFilterView, Item, ItemInstance, ItemInstanceView, ItemView};
use crate::purchase::{refusal, settled};

verus! {

/// The rows of the four tables, in the order in which they were written.
pub struct LedgerView {
    pub characters: Seq<CharacterView>,
    pub items: Seq<ItemView>,
    pub instances: Seq<ItemInstanceView>,
    pub auctions: Seq<AuctionView>,
}

/// The views of a sequence of characters.
pub open spec fn character_rows(rows: Seq<Character>) -> Seq<CharacterView> {
    Seq::new(rows.len(), |i: int| rows[i]@)
}

/// The views of a sequence of items.
pub open spec fn item_rows(rows: Seq<Item>) -> Seq<ItemView> {
    Seq::new(rows.len(), |i: int| rows[i]@)
}

/// The views of a sequence of item instances.
pub open spec fn instance_rows(rows: Seq<ItemInstance>) -> Seq<ItemInstanceView> {
    Seq::new(rows.len(), |i: int| rows[i]@)
}

/// The views of a sequence of auctions.
pub open spec fn auction_rows(rows: Seq<Auction>) -> Seq<AuctionView> {
    Seq::new(rows.len(), |i: int| rows[i]@)
}

/// The names of the characters, row by row.
pub open spec fn character_names(rows: Seq<CharacterView>) -> Seq<Seq<char>> {
    Seq::new(rows.len(), |i: int| rows[i].name)
}

/// The identifiers of the items, row by row.
pub open spec fn item_ids(rows: Seq<ItemView>) -> Seq<Id> {
    Seq::new(rows.len(), |i: int| rows[i].id)
}

/// The names of the items, row by row.
pub open spec fn item_names(rows: Seq<ItemView>) -> Seq<Seq<char>> {
    Seq::new(rows.len(), |i: int| rows[i].name)
}

/// The identifiers of the item instances, row by row.
pub open spec fn instance_ids(rows: Seq<ItemInstanceView>) -> Seq<Id> {
    Seq::new(rows.len(), |i: int| rows[i].id)
}

/// The identifiers of the auctions, row by row.
pub open spec fn auction_ids(rows: Seq<AuctionView>) -> Seq<Id> {
    Seq::new(rows.len(), |i: int| rows[i].id)
}

/// All the gold that the characters hold.
pub open spec fn total_gold(rows: Seq<CharacterView>) -> nat
    decreases rows.len(),
{
    if rows.len() == 0 {
        0
    } else {
        total_gold(rows.drop_last()) + rows.last().gold
    }
}

/// How many of the auctions a sweep at `now` expires.
pub open spec fn stale_count(rows: Seq<AuctionView>, now: int) -> nat
    decreases rows.len(),
{
    if rows.len() == 0 {
        0
    } else {
        stale_count(rows.drop_last(), now) + if rows.last().is_stale_at(now) {
            1nat
        } else {
            0nat
        }
    }
}

/// The auctions after a sweep at `now`.
pub open spec fn swept_rows(rows: Seq<AuctionView>, now: int) -> Seq<AuctionView> {
    Seq::new(rows.len(), |i: int| rows[i].swept(now))
}

/// The auctions that pass `filter`, in the order of the table.
pub open spec fn selected(rows: Seq<AuctionView>, filter: AuctionFilterView) -> Seq<AuctionView> {
    rows.filter(|row: AuctionView| filter.admits(row))
}

/// The auctions that do not pass `filter`, in the order of the table.
pub open spec fn unselected(rows: Seq<AuctionView>, filter: AuctionFilterView) -> Seq<AuctionView> {
    rows.filter(|row: AuctionView| !filter.admits(row))
}

/// The item instances that pass `filter`, in the order of the table.
pub open spec fn held(rows: Seq<ItemInstanceView>, filter: InstanceFilterView) -> Seq<
    ItemInstanceView,
> {
    rows.filter(|row: ItemInstanceView| filter.admits(row))
}

/// The item instances that do not pass `filter`, in the order of the table.
pub open spec fn unheld(rows: Seq<ItemInstanceView>, filter: InstanceFilterView) -> Seq<
    ItemInstanceView,
> {
    rows.filter(|row: ItemInstanceView| !filter.admits(row))
}

/// The item instances with the name `name` on those of the item `item`.
pub open spec fn relabelled(rows: Seq<ItemInstanceView>, item: Id, name: Seq<char>) -> Seq<
    ItemInstanceView,
> {
    Seq::new(
        rows.len(),
        |i: int|
            if rows[i].item_id == item {
                ItemInstanceView { item_name: name, ..rows[i] }
            } else {
                rows[i]
            },
    )
}

/// Whether none of the names is empty.
pub open spec fn all_named(names: Seq<Seq<char>>) -> bool {
    forall|i: int| 0 <= i < names.len() ==> (#[trigger] names[i]).len() > 0
}

/// The row that holds the key `key`, where `keys` are the keys of `rows`.
pub open spec fn row_of<K, R>(keys: Seq<K>, rows: Seq<R>, key: K) -> Option<R> {
    if keys.contains(key) {
        Some(rows[keys.index_of(key)])
    } else {
        None
    }
}

impl LedgerView {
    /// A ledger without rows.
    pub open spec fn empty() -> LedgerView {
        LedgerView {
            characters: Seq::empty(),
            items: Seq::empty(),
            instances: Seq::empty(),
            auctions: Seq::empty(),
        }
    }

    /// What the constraints of the tables ask: every character and every
    /// item has a name, no name and no identifier occurs twice in its table,
    /// every reference of an item instance or of an auction leads to a row,
    /// and all the gold together fits in a balance.
    pub open spec fn wf(self) -> bool {
        &&& all_named(character_names(self.characters))
        &&& all_named(item_names(self.items))
        &&& character_names(self.characters).no_duplicates()
        &&& item_ids(self.items).no_duplicates()
        &&& item_names(self.items).no_duplicates()
        &&& instance_ids(self.instances).no_duplicates()
        &&& auction_ids(self.auctions).no_duplicates()
        &&& total_gold(self.characters) <= u64::MAX
        &&& forall|i: int|
            0 <= i < self.instances.len() ==> self.refers(
                #[trigger] self.instances[i].item_id,
                self.instances[i].owner_name,
            )
        &&& forall|i: int|
            0 <= i < self.instances.len() ==> #[trigger] self.item(
                self.instances[i].item_id,
            )->0.name == self.instances[i].item_name
        &&& forall|i: int|
            0 <= i < self.auctions.len() ==> self.refers(
                #[trigger] self.auctions[i].auctioned_item_id,
                self.auctions[i].seller_name,
            )
    }

    /// Whether the catalogue has the item `item` and a character is called
    /// `owner`.
    pub open spec fn refers(self, item: Id, owner: Seq<char>) -> bool {
        item_ids(self.items).contains(item) && character_names(self.characters).contains(owner)
    }

    /// The character called `name`.
    pub open spec fn character(self, name: Seq<char>) -> Option<CharacterView> {
        row_of(character_names(self.characters), self.characters, name)
    }

    /// The item with the identifier `id`.
    pub open spec fn item(self, id: Id) -> Option<ItemView> {
        row_of(item_ids(self.items), self.items, id)
    }

    /// The item instance with the identifier `id`.
    pub open spec fn instance(self, id: Id) -> Option<ItemInstanceView> {
        row_of(instance_ids(self.instances), self.instances, id)
    }

    /// The item instance with the identifier `id`, where `owner` owns it.
    pub open spec fn instance_of(self, owner: Seq<char>, id: Id) -> Option<ItemInstanceView> {
        match self.instance(id) {
            Some(instance) if instance.owner_name == owner => Some(instance),
            _ => None,
        }
    }

    /// The auction with the identifier `id`.
    pub open spec fn auction(self, id: Id) -> Option<AuctionView> {
        row_of(auction_ids(self.auctions), self.auctions, id)
    }

    /// The gold in the system.
    pub open spec fn gold(self) -> nat {
        total_gold(self.characters)
    }

    /// The ledger after a sweep at `now`: every auction that was stale is
    /// expired, and nothing else has changed.
    pub open spec fn swept(self, now: int) -> LedgerView {
        LedgerView { auctions: swept_rows(self.auctions, now), ..self }
    }

    /// How many rows `marked_sold` changes.
    pub open spec fn sold_count(self, id: Id) -> nat {
        match self.auction(id) {
            Some(auction) if auction.status == AuctionStatus::Active => 1,
            _ => 0,
        }
    }

    /// The ledger after the auction `id` was marked as sold on condition
    /// that it was active.
    pub open spec fn marked_sold(self, id: Id) -> LedgerView {
        if self.sold_count(id) == 0 {
            self
        } else {
            LedgerView {
                auctions: self.auctions.update(
                    auction_ids(self.auctions).index_of(id),
                    self.auction(id)->0.with_status(AuctionStatus::Sold),
                ),
                ..self
            }
        }
    }

    /// Why the character `row` cannot be registered, or `None` where it can:
    /// it needs a name, the name must be free, and its gold must fit beside
    /// the gold that is there.
    pub open spec fn registration_fault(self, row: CharacterView) -> Option<ErrorView> {
        if row.name.len() == 0 {
            Some(ErrorView::EmptyName)
        } else if character_names(self.characters).contains(row.name) {
            Some(Constraint::Unique.failure())
        } else if self.gold() + row.gold > u64::MAX {
            Some(Constraint::Check.failure())
        } else {
            None
        }
    }

    /// The ledger after the registration of `row`.
    pub open spec fn registered(self, row: CharacterView) -> LedgerView {
        if self.registration_fault(row) is Some {
            self
        } else {
            LedgerView { characters: self.characters.push(row), ..self }
        }
    }

    /// Why the character called `name` cannot get the balance `gold`, or
    /// `None` where it can.
    pub open spec fn balance_fault(self, name: Seq<char>, gold: nat) -> Option<ErrorView> {
        match self.character(name) {
            None => Some(ErrorView::CharacterNotFound),
            Some(row) => if self.gold() - row.gold + gold > u64::MAX {
                Some(Constraint::Check.failure())
            } else {
                None
            },
        }
    }

    /// The ledger after the character called `name` got the balance `gold`.
    pub open spec fn with_balance(self, name: Seq<char>, gold: nat) -> LedgerView {
        if self.balance_fault(name, gold) is Some {
            self
        } else {
            LedgerView {
                characters: self.characters.update(
                    character_names(self.characters).index_of(name),
                    self.character(name)->0.with_gold(gold),
                ),
                ..self
            }
        }
    }

    /// Why the item `row` cannot enter the catalogue, or `None` where it
    /// can: it needs a name, and its identifier and its name must be free.
    pub open spec fn catalogue_fault(self, row: ItemView) -> Option<ErrorView> {
        if row.name.len() == 0 {
            Some(ErrorView::EmptyName)
        } else if item_ids(self.items).contains(row.id) || item_names(self.items).contains(
            row.name,
        ) {
            Some(Constraint::Unique.failure())
        } else {
            None
        }
    }

    /// The ledger after the item `row` entered the catalogue.
    pub open spec fn catalogued(self, row: ItemView) -> LedgerView {
        if self.catalogue_fault(row) is Some {
            self
        } else {
            LedgerView { items: self.items.push(row), ..self }
        }
    }

    /// Why the item instance `row` cannot be written, or `None` where it
    /// can: its identifier must be free, its owner must exist, and the
    /// catalogue must hold its item under the name that the instance gives.
    pub open spec fn grant_fault(self, row: ItemInstanceView) -> Option<ErrorView> {
        if instance_ids(self.instances).contains(row.id) {
            Some(Constraint::Unique.failure())
        } else if !self.refers(row.item_id, row.owner_name) || self.item(row.item_id)->0.name
            != row.item_name {
            Some(Constraint::ForeignKey.failure())
        } else {
            None
        }
    }

    /// The ledger after the item instance `row` was written.
    pub open spec fn granted(self, row: ItemInstanceView) -> LedgerView {
        if self.grant_fault(row) is Some {
            self
        } else {
            LedgerView { instances: self.instances.push(row), ..self }
        }
    }

    /// Why the auction `row` cannot be written, or `None` where it can: its
    /// identifier must be free, and its item and its seller must exist.
    pub open spec fn listing_fault(self, row: AuctionView) -> Option<ErrorView> {
        if auction_ids(self.auctions).contains(row.id) {
            Some(Constraint::Unique.failure())
        } else if !self.refers(row.auctioned_item_id, row.seller_name) {
            Some(Constraint::ForeignKey.failure())
        } else {
            None
        }
    }

    /// The ledger after the auction `row` was written. Whatever state `row`
    /// is in, the auction is written as active.
    pub open spec fn listed(self, row: AuctionView) -> LedgerView {
        if self.listing_fault(row) is Some {
            self
        } else {
            LedgerView {
                auctions: self.auctions.push(row.with_status(AuctionStatus::Active)),
                ..self
            }
        }
    }

    /// The ledger without the auction `id`.
    pub open spec fn without_auction(self, id: Id) -> LedgerView {
        if auction_ids(self.auctions).contains(id) {
            LedgerView {
                auctions: self.auctions.remove(auction_ids(self.auctions).index_of(id)),
                ..self
            }
        } else {
            self
        }
    }

    /// The ledger without the item instance `id`.
    pub open spec fn without_instance(self, id: Id) -> LedgerView {
        if instance_ids(self.instances).contains(id) {
            LedgerView {
                instances: self.instances.remove(instance_ids(self.instances).index_of(id)),
                ..self
            }
        } else {
            self
        }
    }

    /// Why the character called `seller` cannot list the item instance
    /// `instance` under the identifier `id` at `now`, or `None` where it
    /// can: the seller must exist and own the instance, and the new auction
    /// must meet the constraints of its table.
    pub open spec fn offer_fault(self, seller: Seq<char>, instance: Id, id: Id, now: int) -> Option<
        ErrorView,
    > {
        if self.character(seller) is None {
            Some(ErrorView::CharacterNotFound)
        } else if self.instance_of(seller, instance) is None {
            Some(ErrorView::ItemInstanceNotFound)
        } else {
            self.listing_fault(self.offer(seller, instance, id, now))
        }
    }

    /// The auction that lists the item instance `instance` for `seller`: it
    /// names the catalogue item that the stored instance names, at the
    /// listing price.
    pub open spec fn offer(self, seller: Seq<char>, instance: Id, id: Id, now: int) -> AuctionView {
        AuctionView::opened(
            id,
            self.instance_of(seller, instance)->0.item_id,
            seller,
            now,
            LISTING_PRICE as nat,
        )
    }

    /// The ledger after `seller` listed the item instance `instance`.
    pub open spec fn offered(self, seller: Seq<char>, instance: Id, id: Id, now: int) -> LedgerView {
        if self.offer_fault(seller, instance, id, now) is Some {
            self
        } else {
            self.listed(self.offer(seller, instance, id, now))
        }
    }

    /// The ledger without the auctions that pass `filter`.
    pub open spec fn without_auctions(self, filter: AuctionFilterView) -> LedgerView {
        LedgerView { auctions: unselected(self.auctions, filter), ..self }
    }

    /// The ledger without the item instances that pass `filter`.
    pub open spec fn without_instances(self, filter: InstanceFilterView) -> LedgerView {
        LedgerView { instances: unheld(self.instances, filter), ..self }
    }

    /// The ledger without the character called `name`, without the item
    /// instances that it owned, and without its auctions.
    pub open spec fn without_character(self, name: Seq<char>) -> LedgerView {
        let names = character_names(self.characters);
        if names.contains(name) {
            LedgerView {
                characters: self.characters.remove(names.index_of(name)),
                items: self.items,
                instances: unheld(self.instances, InstanceFilterView::HeldBy(name)),
                auctions: unselected(self.auctions, AuctionFilterView::SoldBy(name)),
            }
        } else {
            self
        }
    }

    /// The ledger without the item `id` of the catalogue, without the
    /// instances of it, and without the auctions that offer it.
    pub open spec fn without_item(self, id: Id) -> LedgerView {
        let ids = item_ids(self.items);
        if ids.contains(id) {
            LedgerView {
                characters: self.characters,
                items: self.items.remove(ids.index_of(id)),
                instances: unheld(self.instances, InstanceFilterView::OfItem(id)),
                auctions: unselected(self.auctions, AuctionFilterView::Offering(id)),
            }
        } else {
            self
        }
    }

    /// Why the item `id` cannot get the name `name`, or `None` where it
    /// can: the item must exist, the name must not be empty, and no other
    /// item may have it.
    pub open spec fn rename_fault(self, id: Id, name: Seq<char>) -> Option<ErrorView> {
        match self.item(id) {
            None => Some(ErrorView::ItemNotFound),
            Some(row) => if name.len() == 0 {
                Some(ErrorView::EmptyName)
            } else if row.name != name && item_names(self.items).contains(name) {
                Some(Constraint::Unique.failure())
            } else {
                None
            },
        }
    }

    /// The ledger after the item `id` got the name `name`: the catalogue
    /// holds the item under its new name, and so does every instance of it.
    pub open spec fn renamed(self, id: Id, name: Seq<char>) -> LedgerView {
        if self.rename_fault(id, name) is Some {
            self
        } else {
            LedgerView {
                items: self.items.update(item_ids(self.items).index_of(id), ItemView { id, name }),
                instances: relabelled(self.instances, id, name),
                ..self
            }
        }
    }

    /// The seller of the auction `id`, as far as the ledger holds both.
    pub open spec fn seller_of(self, id: Id) -> Option<CharacterView> {
        match self.auction(id) {
            Some(auction) => self.character(auction.seller_name),
            None => None,
        }
    }

    /// Why the purchase of the auction `id` by the character called `buyer`
    /// is refused at `now`, or `None` where it goes through.
    pub open spec fn refusal(self, id: Id, buyer: Seq<char>, now: int) -> Option<ErrorView> {
        refusal(self.auction(id), self.character(buyer), self.seller_of(id), now)
    }

    /// The ledger after the purchase of the auction `id` by the character
    /// called `buyer` at `now`. A purchase that is refused changes nothing.
    /// One that goes through moves the price from the buyer to the seller
    /// and marks the auction as sold, all three at once. The catalogue and
    /// the item instances stay as they are.
    pub open spec fn purchased(self, id: Id, buyer: Seq<char>, now: int) -> LedgerView {
        if self.refusal(id, buyer, now) is Some {
            self
        } else {
            let receipt = settled(
                self.auction(id)->0,
                self.character(buyer)->0,
                self.seller_of(id)->0,
            );
            let names = character_names(self.characters);
            LedgerView {
                characters: self.characters.update(names.index_of(buyer), receipt.buyer).update(
                    names.index_of(receipt.seller.name),
                    receipt.seller,
                ),
                auctions: self.auctions.update(
                    auction_ids(self.auctions).index_of(id),
                    receipt.auction,
                ),
                ..self
            }
        }
    }

    /// What the purchase of the auction `id` by the character called `buyer`
    /// at `now` answers: the auction as sold, or the refusal.
    pub open spec fn purchase_answer(self, id: Id, buyer: Seq<char>, now: int) -> Result<
        AuctionView,
        ErrorView,
    > {
        match self.refusal(id, buyer, now) {
            Some(e) => Err(e),
            None => Ok(self.auction(id)->0.with_status(AuctionStatus::Sold)),
        }
    }
}

} // verus!
