//! The ledger: the characters, the catalogue, the item instances and the
//! auctions, with the operations of the marketplace on them.
//!
//! Every operation is one unit: it either does all of what it says or leaves
//! the ledger as it was.

use vstd::prelude::*;

use crate::auction::{
    Auction, AuctionFilter, AuctionFilterView, AuctionStatus, AuctionStatusQuery, AuctionView,
    LISTING_PRICE,
};
use crate::character::{Character, CharacterGoldUpdate, CharacterView};
use crate::clock::{closing_time, in_clock_range, utc_now, Timestamp};
use crate::errors::{Constraint, Error, ErrorView};
use crate::ident::{is_random_uuid, random_uuid, Id};
use crate::item::{
    InstanceFilter, InstanceFilterView, Item, ItemInstance, ItemInstanceView, ItemNameUpdate,
    ItemView,
};
use crate::lemmas::{
    lemma_catalogued_wf, lemma_granted_wf, lemma_held_step, lemma_index_of_unique,
    lemma_listed_wf, lemma_registered_wf, lemma_renamed_wf, lemma_selected_step,
    lemma_stale_count_step, lemma_total_gold_covers, lemma_total_gold_holds,
    lemma_total_gold_step, lemma_total_gold_update, lemma_unheld_step, lemma_unselected_step,
    lemma_wf_keeps, lemma_with_balance_wf, lemma_without_auction_wf, lemma_without_auctions_wf,
    lemma_without_character_wf, lemma_without_instance_wf, lemma_without_instances_wf,
    lemma_without_item_wf,
};
use crate::purchase::purchase;
use crate::tables::{
    auction_ids, auction_rows, character_names, character_rows, held, instance_ids, instance_rows,
    item_ids, item_names, item_rows, relabelled, selected, stale_count, total_gold, unheld,
    unselected, LedgerView,
};

verus! {

/// The state of the marketplace.
#[derive(Debug)]
pub struct Ledger {
    characters: Vec<Character>,
    items: Vec<Item>,
    instances: Vec<ItemInstance>,
    auctions: Vec<Auction>,
}

impl View for Ledger {
    type V = LedgerView;

    closed spec fn view(&self) -> LedgerView {
        LedgerView {
            characters: character_rows(self.characters@),
            items: item_rows(self.items@),
            instances: instance_rows(self.instances@),
            auctions: auction_rows(self.auctions@),
        }
    }
}

/// The view of a character that was looked up.
pub open spec fn found_character(found: Option<Character>) -> Option<CharacterView> {
    match found {
        Some(row) => Some(row@),
        None => None,
    }
}

/// The view of an auction that was looked up.
pub open spec fn found_auction(found: Option<Auction>) -> Option<AuctionView> {
    match found {
        Some(row) => Some(row@),
        None => None,
    }
}

/// The view of an item that was looked up.
pub open spec fn found_item(found: Option<Item>) -> Option<ItemView> {
    match found {
        Some(row) => Some(row@),
        None => None,
    }
}

/// The view of an item instance that was looked up.
pub open spec fn found_instance(found: Option<ItemInstance>) -> Option<ItemInstanceView> {
    match found {
        Some(row) => Some(row@),
        None => None,
    }
}

/// Whether `answer` is what an operation owes: the refusal `fault` where
/// there is one, and a value that looks like `value` where there is none.
pub open spec fn answers<T: View>(answer: Result<T, Error>, fault: Option<ErrorView>, value: T::V) -> bool {
    match fault {
        Some(fault) => answer matches Err(e) && e@ == fault,
        None => answer matches Ok(row) && row@ == value,
    }
}

/// The view of what an operation on an auction answers.
pub open spec fn auction_answer(answer: Result<Auction, Error>) -> Result<AuctionView, ErrorView> {
    match answer {
        Ok(row) => Ok(row@),
        Err(e) => Err(e@),
    }
}

impl Ledger {
    /// Whether the ledger meets the constraints of its tables.
    pub open spec fn wf(&self) -> bool {
        self@.wf()
    }

    /// A ledger without rows.
    pub fn new() -> (ledger: Ledger)
        ensures
            ledger.wf(),
            ledger@ == LedgerView::empty(),
    {
        let ledger = Ledger {
            characters: Vec::new(),
            items: Vec::new(),
            instances: Vec::new(),
            auctions: Vec::new(),
        };
        assert(ledger@.characters =~= Seq::empty());
        assert(ledger@.items =~= Seq::empty());
        assert(ledger@.instances =~= Seq::empty());
        assert(ledger@.auctions =~= Seq::empty());
        ledger
    }

    /// Where the character called `name` stands.
    fn character_index(&self, name: &String) -> (found: Option<usize>)
        requires
            self.wf(),
        ensures
            found is Some <==> character_names(self@.characters).contains(name@),
            found matches Some(i) ==> i < self.characters.len()
                && i == character_names(self@.characters).index_of(name@)
                && self.characters[i as int].name@ == name@,
    {
        let ghost names = character_names(self@.characters);
        let mut i: usize = 0;
        while i < self.characters.len()
            invariant
                i <= self.characters.len(),
                names == character_names(self@.characters),
                names.len() == self.characters.len(),
                names.no_duplicates(),
                forall|j: int| 0 <= j < i ==> names[j] != name@,
            decreases self.characters.len() - i,
        {
            if self.characters[i].name == *name {
                proof {
                    assert(names[i as int] == name@);
                    lemma_index_of_unique(names, i as int);
                }
                return Some(i);
            }
            i = i + 1;
        }
        None
    }

    /// The character called `name`.
    pub fn get_character(&self, name: &String) -> (found: Option<Character>)
        requires
            self.wf(),
        ensures
            found_character(found) == self@.character(name@),
    {
        match self.character_index(name) {
            Some(i) => Some(self.characters[i].clone()),
            None => None,
        }
    }

    /// Where the auction with the identifier `id` stands.
    fn auction_index(&self, id: Id) -> (found: Option<usize>)
        requires
            self.wf(),
        ensures
            found is Some <==> auction_ids(self@.auctions).contains(id),
            found matches Some(i) ==> i < self.auctions.len()
                && i == auction_ids(self@.auctions).index_of(id)
                && self.auctions[i as int].id == id,
    {
        let ghost ids = auction_ids(self@.auctions);
        let mut i: usize = 0;
        while i < self.auctions.len()
            invariant
                i <= self.auctions.len(),
                ids == auction_ids(self@.auctions),
                ids.len() == self.auctions.len(),
                ids.no_duplicates(),
                forall|j: int| 0 <= j < i ==> ids[j] != id,
            decreases self.auctions.len() - i,
        {
            if self.auctions[i].id == id {
                proof {
                    lemma_index_of_unique(ids, i as int);
                }
                return Some(i);
            }
            i = i + 1;
        }
        None
    }

    /// The auction with the identifier `id`.
    pub fn get_auction(&self, id: Id) -> (found: Option<Auction>)
        requires
            self.wf(),
        ensures
            found_auction(found) == self@.auction(id),
    {
        match self.auction_index(id) {
            Some(i) => Some(self.auctions[i].clone()),
            None => None,
        }
    }

    /// The purchase of the auction `id` by the character called `buyer_name`
    /// at `now`. The checks come in a fixed order: the auction exists, the
    /// buyer exists, the auction is open at `now`, the buyer can pay, the
    /// buyer is not the seller, the seller exists. Where all hold, the price
    /// moves from the buyer to the seller and the auction is sold; where one
    /// fails, the ledger stays as it was.
    ///
    /// No item instance changes hands. An auction names an item of the
    /// catalogue, not one of its instances, so the ledger cannot tell which
    /// instance was sold.
    pub fn purchase_at(&mut self, id: Id, buyer_name: &String, now: Timestamp) -> (outcome: Result<
        Auction,
        Error,
    >)
        requires
            old(self).wf(),
        ensures
            final(self).wf(),
            final(self)@ == old(self)@.purchased(id, buyer_name@, now as int),
            auction_answer(outcome) == old(self)@.purchase_answer(id, buyer_name@, now as int),
    {
        let ghost before = self@;
        let ghost names = character_names(before.characters);
        let at_auction = self.auction_index(id);
        let at_buyer = self.character_index(buyer_name);
        let auction = match at_auction {
            Some(i) => Some(self.auctions[i].clone()),
            None => None,
        };
        let at_seller = match &auction {
            Some(a) => self.character_index(&a.seller_name),
            None => None,
        };
        let buyer = match at_buyer {
            Some(i) => Some(self.characters[i].clone()),
            None => None,
        };
        let seller = match at_seller {
            Some(i) => Some(self.characters[i].clone()),
            None => None,
        };
        proof {
            if before.refusal(id, buyer_name@, now as int) is None {
                lemma_total_gold_covers(
                    before.characters,
                    at_seller->0 as int,
                    at_buyer->0 as int,
                );
            }
        }
        match purchase(auction, buyer, seller, now) {
            Err(e) => Err(e),
            Ok(receipt) => {
                let a = at_auction.unwrap();
                let b = at_buyer.unwrap();
                let s = at_seller.unwrap();
                let sold = receipt.auction.clone();
                self.characters.set(b, receipt.buyer);
                self.characters.set(s, receipt.seller);
                self.auctions.set(a, receipt.auction);
                proof {
                    let after = self@;
                    let paid = before.characters.update(b as int, receipt.buyer@);
                    assert(after.characters =~= paid.update(s as int, receipt.seller@));
                    assert(after.auctions =~= before.auctions.update(a as int, receipt.auction@));
                    assert(after.items == before.items);
                    assert(after.instances == before.instances);
                    assert(character_names(after.characters) =~= names);
                    lemma_total_gold_update(before.characters, b as int, receipt.buyer@);
                    lemma_total_gold_update(paid, s as int, receipt.seller@);
                    lemma_wf_keeps(before, after);
                }
                Ok(sold)
            },
        }
    }

    /// Marks the auction `id` as sold, on condition that it is still active,
    /// and says how many rows this changed: one, or none where there is no
    /// such auction or it is sold or expired already.
    pub fn mark_sold(&mut self, id: Id) -> (changed: u64)
        requires
            old(self).wf(),
        ensures
            final(self).wf(),
            final(self)@ == old(self)@.marked_sold(id),
            changed == old(self)@.sold_count(id),
    {
        let ghost before = self@;
        match self.auction_index(id) {
            Some(i) => {
                if self.auctions[i].status == AuctionStatus::Active {
                    let mut row = self.auctions[i].clone();
                    row.status = AuctionStatus::Sold;
                    self.auctions.set(i, row);
                    proof {
                        let after = self@;
                        assert(after.auctions =~= before.auctions.update(
                            i as int,
                            before.auctions[i as int].with_status(AuctionStatus::Sold),
                        ));
                        assert(after.characters == before.characters);
                        lemma_wf_keeps(before, after);
                    }
                    1
                } else {
                    0
                }
            },
            None => 0,
        }
    }

    /// One sweep at `now`: every auction that is active and whose closing
    /// time lies before `now` becomes expired, in one step. Returns how many
    /// did. Auctions that are sold or expired are not touched.
    pub fn mark_expired_batch(&mut self, now: Timestamp) -> (expired: u64)
        requires
            old(self).wf(),
        ensures
            final(self).wf(),
            final(self)@ == old(self)@.swept(now as int),
            expired == stale_count(old(self)@.auctions, now as int),
    {
        let ghost before = self@;
        let ghost rows = before.auctions;
        let mut count: usize = 0;
        let mut i: usize = 0;
        while i < self.auctions.len()
            invariant
                i <= self.auctions.len(),
                self.auctions.len() == rows.len(),
                self@.characters == before.characters,
                self@.items == before.items,
                self@.instances == before.instances,
                rows == before.auctions,
                count == stale_count(rows.take(i as int), now as int),
                count <= i,
                forall|j: int| 0 <= j < i ==> (#[trigger] self.auctions[j])@ == rows[j].swept(now as int),
                forall|j: int| i <= j < rows.len() ==> (#[trigger] self.auctions[j])@ == rows[j],
            decreases self.auctions.len() - i,
        {
            proof {
                lemma_stale_count_step(rows, i as int, now as int);
            }
            let mut row = self.auctions[i].clone();
            if row.sweep(now) {
                count = count + 1;
                self.auctions.set(i, row);
            }
            i = i + 1;
        }
        proof {
            let after = self@;
            assert(rows.take(rows.len() as int) =~= rows);
            assert(after.auctions =~= before.swept(now as int).auctions);
            lemma_wf_keeps(before, after);
        }
        count as u64
    }

    /// All the gold that the characters hold.
    pub fn gold(&self) -> (total: u64)
        requires
            self.wf(),
        ensures
            total == self@.gold(),
    {
        let ghost rows = self@.characters;
        let mut total: u64 = 0;
        let mut i: usize = 0;
        while i < self.characters.len()
            invariant
                i <= self.characters.len(),
                rows == self@.characters,
                rows.len() == self.characters.len(),
                total_gold(rows) <= u64::MAX,
                total == total_gold(rows.take(i as int)),
            decreases self.characters.len() - i,
        {
            proof {
                lemma_total_gold_step(rows, i as int);
            }
            total = total + self.characters[i].gold;
            i = i + 1;
        }
        proof {
            assert(rows.take(rows.len() as int) =~= rows);
        }
        total
    }

    /// Registers a character. It needs a name that no character has yet, and
    /// its gold must fit beside the gold that is there.
    pub fn register_character(&mut self, row: Character) -> (answer: Result<Character, Error>)
        requires
            old(self).wf(),
        ensures
            final(self).wf(),
            final(self)@ == old(self)@.registered(row@),
            answers(answer, old(self)@.registration_fault(row@), row@),
    {
        let ghost before = self@;
        if row.name.as_str().is_empty() {
            return Err(Error::EmptyName);
        }
        if self.character_index(&row.name).is_some() {
            return Err(Constraint::Unique.into_error());
        }
        if row.gold > u64::MAX - self.gold() {
            return Err(Constraint::Check.into_error());
        }
        self.characters.push(row.clone());
        proof {
            assert(self@.characters =~= before.characters.push(row@));
            lemma_registered_wf(before, row@);
        }
        Ok(row)
    }

    /// All the characters, in the order of their registration.
    pub fn get_characters(&self) -> (rows: Vec<Character>)
        ensures
            character_rows(rows@) == self@.characters,
    {
        let mut rows: Vec<Character> = Vec::new();
        let mut i: usize = 0;
        while i < self.characters.len()
            invariant
                i <= self.characters.len(),
                rows.len() == i,
                forall|j: int| 0 <= j < i ==> rows[j]@ == self.characters[j]@,
            decreases self.characters.len() - i,
        {
            rows.push(self.characters[i].clone());
            i = i + 1;
        }
        proof {
            assert(character_rows(rows@) =~= self@.characters);
        }
        rows
    }

    /// Gives the character called `name` the balance that `update` carries,
    /// where all the gold still fits, and answers with the character as it
    /// stands then.
    pub fn set_gold(&mut self, name: &String, update: &CharacterGoldUpdate) -> (answer: Result<
        Character,
        Error,
    >)
        requires
            old(self).wf(),
        ensures
            final(self).wf(),
            final(self)@ == old(self)@.with_balance(name@, update.gold as nat),
            answers(
                answer,
                old(self)@.balance_fault(name@, update.gold as nat),
                old(self)@.character(name@)->0.with_gold(update.gold as nat),
            ),
    {
        let ghost before = self@;
        let Some(i) = self.character_index(name) else {
            return Err(Error::CharacterNotFound);
        };
        let total = self.gold();
        proof {
            lemma_total_gold_holds(before.characters, i as int);
        }
        if update.gold > u64::MAX - (total - self.characters[i].gold) {
            return Err(Constraint::Check.into_error());
        }
        let mut row = self.characters[i].clone();
        row.apply(update);
        self.characters.set(i, row.clone());
        proof {
            assert(self@.characters =~= before.characters.update(i as int, row@));
            lemma_with_balance_wf(before, name@, update.gold as nat);
        }
        Ok(row)
    }

    /// Where the item with the identifier `id` stands.
    fn item_index(&self, id: Id) -> (found: Option<usize>)
        requires
            self.wf(),
        ensures
            found is Some <==> item_ids(self@.items).contains(id),
            found matches Some(i) ==> i < self.items.len() && i == item_ids(self@.items).index_of(id)
                && self.items[i as int].id == id,
    {
        let ghost ids = item_ids(self@.items);
        let mut i: usize = 0;
        while i < self.items.len()
            invariant
                i <= self.items.len(),
                ids == item_ids(self@.items),
                ids.len() == self.items.len(),
                ids.no_duplicates(),
                forall|j: int| 0 <= j < i ==> ids[j] != id,
            decreases self.items.len() - i,
        {
            if self.items[i].id == id {
                proof {
                    lemma_index_of_unique(ids, i as int);
                }
                return Some(i);
            }
            i = i + 1;
        }
        None
    }

    /// Whether an item of the catalogue is called `name`.
    fn item_name_taken(&self, name: &String) -> (taken: bool)
        ensures
            taken == item_names(self@.items).contains(name@),
    {
        let ghost names = item_names(self@.items);
        let mut i: usize = 0;
        while i < self.items.len()
            invariant
                i <= self.items.len(),
                names == item_names(self@.items),
                names.len() == self.items.len(),
                forall|j: int| 0 <= j < i ==> names[j] != name@,
            decreases self.items.len() - i,
        {
            if self.items[i].name == *name {
                proof {
                    assert(names[i as int] == name@);
                }
                return true;
            }
            i = i + 1;
        }
        false
    }

    /// Enters an item into the catalogue. It needs a name, and neither its
    /// identifier nor its name may be taken.
    pub fn add_item(&mut self, row: Item) -> (answer: Result<Item, Error>)
        requires
            old(self).wf(),
        ensures
            final(self).wf(),
            final(self)@ == old(self)@.catalogued(row@),
            answers(answer, old(self)@.catalogue_fault(row@), row@),
    {
        let ghost before = self@;
        if row.name.as_str().is_empty() {
            return Err(Error::EmptyName);
        }
        if self.item_index(row.id).is_some() || self.item_name_taken(&row.name) {
            return Err(Constraint::Unique.into_error());
        }
        self.items.push(row.clone());
        proof {
            assert(self@.items =~= before.items.push(row@));
            lemma_catalogued_wf(before, row@);
        }
        Ok(row)
    }

    /// The item with the identifier `id`.
    pub fn get_item(&self, id: Id) -> (found: Option<Item>)
        requires
            self.wf(),
        ensures
            found_item(found) == self@.item(id),
    {
        match self.item_index(id) {
            Some(i) => Some(self.items[i].clone()),
            None => None,
        }
    }

    /// The whole catalogue, in the order in which it was filled.
    pub fn get_items(&self) -> (rows: Vec<Item>)
        ensures
            item_rows(rows@) == self@.items,
    {
        let mut rows: Vec<Item> = Vec::new();
        let mut i: usize = 0;
        while i < self.items.len()
            invariant
                i <= self.items.len(),
                rows.len() == i,
                forall|j: int| 0 <= j < i ==> rows[j]@ == self.items[j]@,
            decreases self.items.len() - i,
        {
            rows.push(self.items[i].clone());
            i = i + 1;
        }
        proof {
            assert(item_rows(rows@) =~= self@.items);
        }
        rows
    }

    /// Where the item instance with the identifier `id` stands.
    fn instance_index(&self, id: Id) -> (found: Option<usize>)
        requires
            self.wf(),
        ensures
            found is Some <==> instance_ids(self@.instances).contains(id),
            found matches Some(i) ==> i < self.instances.len() && i == instance_ids(
                self@.instances,
            ).index_of(id) && self.instances[i as int].id == id,
    {
        let ghost ids = instance_ids(self@.instances);
        let mut i: usize = 0;
        while i < self.instances.len()
            invariant
                i <= self.instances.len(),
                ids == instance_ids(self@.instances),
                ids.len() == self.instances.len(),
                ids.no_duplicates(),
                forall|j: int| 0 <= j < i ==> ids[j] != id,
            decreases self.instances.len() - i,
        {
            if self.instances[i].id == id {
                proof {
                    lemma_index_of_unique(ids, i as int);
                }
                return Some(i);
            }
            i = i + 1;
        }
        None
    }

    /// Writes an item instance. Its identifier must be free, its owner must
    /// exist, and the catalogue must hold its item under the name that the
    /// instance gives.
    pub fn add_instance(&mut self, row: ItemInstance) -> (answer: Result<ItemInstance, Error>)
        requires
            old(self).wf(),
        ensures
            final(self).wf(),
            final(self)@ == old(self)@.granted(row@),
            answers(answer, old(self)@.grant_fault(row@), row@),
    {
        let ghost before = self@;
        if self.instance_index(row.id).is_some() {
            return Err(Constraint::Unique.into_error());
        }
        let Some(i) = self.item_index(row.item_id) else {
            return Err(Constraint::ForeignKey.into_error());
        };
        if self.character_index(&row.owner_name).is_none() || self.items[i].name != row.item_name {
            return Err(Constraint::ForeignKey.into_error());
        }
        self.instances.push(row.clone());
        proof {
            assert(self@.instances =~= before.instances.push(row@));
            lemma_granted_wf(before, row@);
        }
        Ok(row)
    }

    /// The item instance with the identifier `id`.
    pub fn get_instance(&self, id: Id) -> (found: Option<ItemInstance>)
        requires
            self.wf(),
        ensures
            found_instance(found) == self@.instance(id),
    {
        match self.instance_index(id) {
            Some(i) => Some(self.instances[i].clone()),
            None => None,
        }
    }

    /// The item instance with the identifier `id`, where the character
    /// called `owner` owns it.
    pub fn get_character_item(&self, owner: &String, id: Id) -> (found: Option<ItemInstance>)
        requires
            self.wf(),
        ensures
            found_instance(found) == self@.instance_of(owner@, id),
    {
        match self.instance_index(id) {
            Some(i) => {
                if self.instances[i].owner_name == *owner {
                    Some(self.instances[i].clone())
                } else {
                    None
                }
            },
            None => None,
        }
    }

    /// The item instances that pass `filter`, in the order of the table.
    pub fn find_instances(&self, filter: &InstanceFilter) -> (rows: Vec<ItemInstance>)
        ensures
            instance_rows(rows@) == held(self@.instances, filter@),
    {
        let ghost all = self@.instances;
        let mut rows: Vec<ItemInstance> = Vec::new();
        let mut i: usize = 0;
        while i < self.instances.len()
            invariant
                i <= self.instances.len(),
                all == self@.instances,
                all.len() == self.instances.len(),
                instance_rows(rows@) == held(all.take(i as int), filter@),
            decreases self.instances.len() - i,
        {
            proof {
                lemma_held_step(all, i as int, filter@);
            }
            if filter.admits(&self.instances[i]) {
                let ghost kept = instance_rows(rows@);
                rows.push(self.instances[i].clone());
                proof {
                    assert(instance_rows(rows@) =~= kept.push(all[i as int]));
                }
            }
            i = i + 1;
        }
        proof {
            assert(all.take(all.len() as int) =~= all);
        }
        rows
    }

    /// The item instances that the character called `owner` owns, in the
    /// order of the table.
    pub fn get_character_items(&self, owner: &String) -> (rows: Vec<ItemInstance>)
        ensures
            instance_rows(rows@) == held(self@.instances, InstanceFilterView::HeldBy(owner@)),
    {
        self.find_instances(&InstanceFilter::HeldBy(owner.clone()))
    }

    /// Removes the item instance with the identifier `id` and answers with
    /// it.
    pub fn delete_instance(&mut self, id: Id) -> (answer: Result<ItemInstance, Error>)
        requires
            old(self).wf(),
        ensures
            final(self).wf(),
            final(self)@ == old(self)@.without_instance(id),
            match old(self)@.instance(id) {
                Some(row) => answer matches Ok(gone) && gone@ == row,
                None => answer matches Err(e) && e@ == ErrorView::ItemInstanceNotFound,
            },
    {
        let ghost before = self@;
        let Some(i) = self.instance_index(id) else {
            return Err(Error::ItemInstanceNotFound);
        };
        let gone = self.instances.remove(i);
        proof {
            assert(self@.instances =~= before.instances.remove(i as int));
            lemma_without_instance_wf(before, id);
        }
        Ok(gone)
    }

    /// Writes an auction, as active whatever state `row` is in. Its
    /// identifier must be free, and its item and its seller must exist.
    pub fn create_auction(&mut self, row: Auction) -> (answer: Result<Auction, Error>)
        requires
            old(self).wf(),
        ensures
            final(self).wf(),
            final(self)@ == old(self)@.listed(row@),
            answers(
                answer,
                old(self)@.listing_fault(row@),
                row@.with_status(AuctionStatus::Active),
            ),
    {
        let ghost before = self@;
        if self.auction_index(row.id).is_some() {
            return Err(Constraint::Unique.into_error());
        }
        if self.item_index(row.auctioned_item_id).is_none() || self.character_index(
            &row.seller_name,
        ).is_none() {
            return Err(Constraint::ForeignKey.into_error());
        }
        let mut row = row;
        row.status = AuctionStatus::Active;
        self.auctions.push(row.clone());
        proof {
            assert(self@.auctions =~= before.auctions.push(row@));
            lemma_listed_wf(before, row@);
        }
        Ok(row)
    }

    /// The auctions that pass `filter`, in the order of the table.
    pub fn find_auctions(&self, filter: &AuctionFilter) -> (rows: Vec<Auction>)
        ensures
            auction_rows(rows@) == selected(self@.auctions, filter@),
    {
        let ghost all = self@.auctions;
        let mut rows: Vec<Auction> = Vec::new();
        let mut i: usize = 0;
        while i < self.auctions.len()
            invariant
                i <= self.auctions.len(),
                all == self@.auctions,
                all.len() == self.auctions.len(),
                auction_rows(rows@) == selected(all.take(i as int), filter@),
            decreases self.auctions.len() - i,
        {
            proof {
                lemma_selected_step(all, i as int, filter@);
            }
            if filter.admits(&self.auctions[i]) {
                let ghost kept = auction_rows(rows@);
                rows.push(self.auctions[i].clone());
                proof {
                    assert(auction_rows(rows@) =~= kept.push(all[i as int]));
                }
            }
            i = i + 1;
        }
        proof {
            assert(all.take(all.len() as int) =~= all);
        }
        rows
    }

    /// All the auctions, or those in the state that `query` names.
    pub fn list_auctions(&self, query: &AuctionStatusQuery) -> (rows: Vec<Auction>)
        ensures
            auction_rows(rows@) == selected(self@.auctions, query.spec_filter()),
    {
        self.find_auctions(&query.filter())
    }

    /// The auctions of the character called `seller`.
    pub fn get_character_auctions(&self, seller: &String) -> (rows: Vec<Auction>)
        ensures
            auction_rows(rows@) == selected(
                self@.auctions,
                AuctionFilterView::SoldBy(seller@),
            ),
    {
        self.find_auctions(&AuctionFilter::SoldBy(seller.clone()))
    }

    /// The auctions that offer the item `item` of the catalogue.
    pub fn get_item_auctions(&self, item: Id) -> (rows: Vec<Auction>)
        ensures
            auction_rows(rows@) == selected(
                self@.auctions,
                AuctionFilterView::Offering(item),
            ),
    {
        self.find_auctions(&AuctionFilter::Offering(item))
    }

    /// Removes the auction with the identifier `id`, whatever its state, and
    /// answers with it.
    pub fn delete_auction(&mut self, id: Id) -> (answer: Result<Auction, Error>)
        requires
            old(self).wf(),
        ensures
            final(self).wf(),
            final(self)@ == old(self)@.without_auction(id),
            match old(self)@.auction(id) {
                Some(row) => answer matches Ok(gone) && gone@ == row,
                None => answer matches Err(e) && e@ == ErrorView::AuctionNotFound,
            },
    {
        let ghost before = self@;
        let Some(i) = self.auction_index(id) else {
            return Err(Error::AuctionNotFound);
        };
        let gone = self.auctions.remove(i);
        proof {
            assert(self@.auctions =~= before.auctions.remove(i as int));
            lemma_without_auction_wf(before, id);
        }
        Ok(gone)
    }

    /// Lists the item instance `instance` for the character called
    /// `seller`, under the identifier `id` and as of `now`. The seller must
    /// exist and own the instance. The auction names the catalogue item of
    /// the instance as the ledger holds it, at the listing price, and closes
    /// a fixed time after `now`.
    pub fn list_item_at(&mut self, seller: &String, instance: Id, id: Id, now: Timestamp) -> (answer: Result<
        Auction,
        Error,
    >)
        requires
            old(self).wf(),
            closing_time(now as int) <= i64::MAX,
        ensures
            final(self).wf(),
            final(self)@ == old(self)@.offered(seller@, instance, id, now as int),
            answers(
                answer,
                old(self)@.offer_fault(seller@, instance, id, now as int),
                old(self)@.offer(seller@, instance, id, now as int),
            ),
    {
        if self.character_index(seller).is_none() {
            return Err(Error::CharacterNotFound);
        }
        let Some(owned) = self.get_character_item(seller, instance) else {
            return Err(Error::ItemInstanceNotFound);
        };
        self.create_auction(Auction::open(id, owned.item_id, seller.clone(), now, LISTING_PRICE))
    }

    /// Lists the item instance `instance` for the character called
    /// `seller`, under a fresh identifier and as of now.
    pub fn list_item(&mut self, seller: &String, instance: Id) -> (answer: Result<Auction, Error>)
        requires
            old(self).wf(),
        ensures
            final(self).wf(),
            exists|id: Id, now: int|
                {
                    &&& is_random_uuid(id)
                    &&& in_clock_range(now)
                    &&& final(self)@ == #[trigger] old(self)@.offered(seller@, instance, id, now)
                    &&& answers(
                        answer,
                        old(self)@.offer_fault(seller@, instance, id, now),
                        old(self)@.offer(seller@, instance, id, now),
                    )
                },
    {
        let id = random_uuid();
        let now = utc_now();
        let answer = self.list_item_at(seller, instance, id, now);
        proof {
            assert(self@ == old(self)@.offered(seller@, instance, id, now as int));
        }
        answer
    }

    /// The purchase of the auction `id` by the character called
    /// `buyer_name`, judged at the moment at which it is made.
    pub fn purchase(&mut self, id: Id, buyer_name: &String) -> (outcome: Result<Auction, Error>)
        requires
            old(self).wf(),
        ensures
            final(self).wf(),
            exists|now: int|
                {
                    &&& in_clock_range(now)
                    &&& final(self)@ == #[trigger] old(self)@.purchased(id, buyer_name@, now)
                    &&& auction_answer(outcome) == old(self)@.purchase_answer(
                        id,
                        buyer_name@,
                        now,
                    )
                },
    {
        let now = utc_now();
        let outcome = self.purchase_at(id, buyer_name, now);
        proof {
            assert(self@ == old(self)@.purchased(id, buyer_name@, now as int));
        }
        outcome
    }

    /// One sweep as of now. Returns how many auctions it expired.
    pub fn sweep(&mut self) -> (expired: u64)
        requires
            old(self).wf(),
        ensures
            final(self).wf(),
            exists|now: int|
                {
                    &&& in_clock_range(now)
                    &&& final(self)@ == #[trigger] old(self)@.swept(now)
                    &&& expired == stale_count(old(self)@.auctions, now)
                },
    {
        let now = utc_now();
        let expired = self.mark_expired_batch(now);
        proof {
            assert(self@ == old(self)@.swept(now as int));
        }
        expired
    }

    /// Removes the auctions that pass `filter`.
    fn drop_auctions(&mut self, filter: &AuctionFilter)
        requires
            old(self).wf(),
        ensures
            final(self).wf(),
            final(self)@ == old(self)@.without_auctions(filter@),
    {
        let ghost before = self@;
        let ghost all = before.auctions;
        let mut kept: Vec<Auction> = Vec::new();
        let mut i: usize = 0;
        while i < self.auctions.len()
            invariant
                i <= self.auctions.len(),
                self@ == before,
                all == before.auctions,
                all.len() == self.auctions.len(),
                auction_rows(kept@) == unselected(all.take(i as int), filter@),
            decreases self.auctions.len() - i,
        {
            proof {
                lemma_unselected_step(all, i as int, filter@);
            }
            if !filter.admits(&self.auctions[i]) {
                let ghost so_far = auction_rows(kept@);
                kept.push(self.auctions[i].clone());
                proof {
                    assert(auction_rows(kept@) =~= so_far.push(all[i as int]));
                }
            }
            i = i + 1;
        }
        self.auctions = kept;
        proof {
            assert(all.take(all.len() as int) =~= all);
            lemma_without_auctions_wf(before, filter@);
        }
    }

    /// Removes the item instances that pass `filter`.
    fn drop_instances(&mut self, filter: &InstanceFilter)
        requires
            old(self).wf(),
        ensures
            final(self).wf(),
            final(self)@ == old(self)@.without_instances(filter@),
    {
        let ghost before = self@;
        let ghost all = before.instances;
        let mut kept: Vec<ItemInstance> = Vec::new();
        let mut i: usize = 0;
        while i < self.instances.len()
            invariant
                i <= self.instances.len(),
                self@ == before,
                all == before.instances,
                all.len() == self.instances.len(),
                instance_rows(kept@) == unheld(all.take(i as int), filter@),
            decreases self.instances.len() - i,
        {
            proof {
                lemma_unheld_step(all, i as int, filter@);
            }
            if !filter.admits(&self.instances[i]) {
                let ghost so_far = instance_rows(kept@);
                kept.push(self.instances[i].clone());
                proof {
                    assert(instance_rows(kept@) =~= so_far.push(all[i as int]));
                }
            }
            i = i + 1;
        }
        self.instances = kept;
        proof {
            assert(all.take(all.len() as int) =~= all);
            lemma_without_instances_wf(before, filter@);
        }
    }

    /// Removes the character called `name` and answers with it. The item
    /// instances that it owned and its auctions go with it, whatever state
    /// the auctions are in; its gold leaves the system.
    pub fn delete_character(&mut self, name: &String) -> (answer: Result<Character, Error>)
        requires
            old(self).wf(),
        ensures
            final(self).wf(),
            final(self)@ == old(self)@.without_character(name@),
            match old(self)@.character(name@) {
                Some(row) => answer matches Ok(gone) && gone@ == row,
                None => answer matches Err(e) && e@ == ErrorView::CharacterNotFound,
            },
    {
        let ghost before = self@;
        let Some(i) = self.character_index(name) else {
            return Err(Error::CharacterNotFound);
        };
        self.drop_instances(&InstanceFilter::HeldBy(name.clone()));
        self.drop_auctions(&AuctionFilter::SoldBy(name.clone()));
        assert(self@.characters == before.characters);
        let gone = self.characters.remove(i);
        proof {
            assert(self@.characters =~= before.characters.remove(i as int));
            lemma_without_character_wf(before, name@);
        }
        Ok(gone)
    }

    /// Removes the item `id` from the catalogue and answers with it. The
    /// instances of it and the auctions that offer it go with it.
    pub fn delete_item(&mut self, id: Id) -> (answer: Result<Item, Error>)
        requires
            old(self).wf(),
        ensures
            final(self).wf(),
            final(self)@ == old(self)@.without_item(id),
            match old(self)@.item(id) {
                Some(row) => answer matches Ok(gone) && gone@ == row,
                None => answer matches Err(e) && e@ == ErrorView::ItemNotFound,
            },
    {
        let ghost before = self@;
        let Some(i) = self.item_index(id) else {
            return Err(Error::ItemNotFound);
        };
        self.drop_instances(&InstanceFilter::OfItem(id));
        self.drop_auctions(&AuctionFilter::Offering(id));
        assert(self@.items == before.items);
        let gone = self.items.remove(i);
        proof {
            assert(self@.items =~= before.items.remove(i as int));
            lemma_without_item_wf(before, id);
        }
        Ok(gone)
    }

    /// Gives the item `id` the name that `update` carries, in the catalogue
    /// and on every instance of the item, and answers with the item as it
    /// stands then. The name must not be empty, and no other item may have
    /// it.
    pub fn rename_item(&mut self, id: Id, update: &ItemNameUpdate) -> (answer: Result<Item, Error>)
        requires
            old(self).wf(),
        ensures
            final(self).wf(),
            final(self)@ == old(self)@.renamed(id, update.name@),
            answers(
                answer,
                old(self)@.rename_fault(id, update.name@),
                ItemView { id, name: update.name@ },
            ),
    {
        let ghost before = self@;
        let ghost all = before.instances;
        let Some(i) = self.item_index(id) else {
            return Err(Error::ItemNotFound);
        };
        if update.name.as_str().is_empty() {
            return Err(Error::EmptyName);
        }
        if self.items[i].name != update.name && self.item_name_taken(&update.name) {
            return Err(Constraint::Unique.into_error());
        }
        let mut row = self.items[i].clone();
        row.rename(update);
        self.items.set(i, row.clone());
        let ghost renamed_items = self@.items;
        let mut j: usize = 0;
        while j < self.instances.len()
            invariant
                j <= self.instances.len(),
                self.instances.len() == all.len(),
                self@.characters == before.characters,
                self@.auctions == before.auctions,
                self@.items == renamed_items,
                forall|k: int|
                    0 <= k < j ==> (#[trigger] self.instances[k])@ == relabelled(
                        all,
                        id,
                        update.name@,
                    )[k],
                forall|k: int| j <= k < all.len() ==> (#[trigger] self.instances[k])@ == all[k],
            decreases self.instances.len() - j,
        {
            if self.instances[j].item_id == id {
                let mut instance = self.instances[j].clone();
                instance.item_name = update.name.clone();
                self.instances.set(j, instance);
            }
            j = j + 1;
        }
        proof {
            assert(self@.instances =~= relabelled(all, id, update.name@));
            assert(self@.items =~= before.items.update(i as int, row@));
            lemma_renamed_wf(before, id, update.name@);
        }
        Ok(row)
    }
}

} // verus!
