//! What holds of the marketplace whatever is asked of it, proved of the
//! ledger's tables.

use vstd::prelude::*;

use crate::auction::{AuctionFilterView, AuctionStatus, AuctionView};
use crate::errors::{Constraint, ErrorView};
use crate::ident::Id;
use crate::item::InstanceFilterView;
use crate::lemmas::{
    lemma_index_of_contained, lemma_listed_wf, lemma_push_key, lemma_total_gold_covers,
    lemma_total_gold_remove, lemma_total_gold_update, lemma_wf_keeps,
    lemma_without_auctions_wf, lemma_without_character_wf, lemma_without_instances_wf,
};
use crate::tables::{
    auction_ids, character_names, instance_ids, stale_count, swept_rows, LedgerView,
};

verus! {

/// The larger of two moments.
pub open spec fn later(a: int, b: int) -> int {
    if a <= b {
        b
    } else {
        a
    }
}

/// A purchase that goes through leaves a ledger that meets its constraints,
/// in which the auction is sold, the buyer has paid the price and the seller
/// has received it, and in which no other auction and no other character has
/// changed.
pub proof fn law_purchase_settles(ledger: LedgerView, id: Id, buyer: Seq<char>, now: int)
    requires
        ledger.wf(),
        ledger.refusal(id, buyer, now) is None,
    ensures
        ({
            let after = ledger.purchased(id, buyer, now);
            let auction = ledger.auction(id)->0;
            let seller = auction.seller_name;
            &&& after.wf()
            &&& after.auction(id) == Some(auction.with_status(AuctionStatus::Sold))
            &&& after.character(buyer)->0.gold == ledger.character(buyer)->0.gold - auction.price
            &&& after.character(seller)->0.gold == ledger.character(seller)->0.gold + auction.price
            &&& forall|other: Id| other != id ==> after.auction(other) == ledger.auction(other)
            &&& forall|other: Seq<char>|
                other != buyer && other != seller ==> after.character(other) == ledger.character(
                    other,
                )
            &&& after.items == ledger.items
            &&& after.instances == ledger.instances
        }),
{
    let after = ledger.purchased(id, buyer, now);
    let names = character_names(ledger.characters);
    let ids = auction_ids(ledger.auctions);
    let auction = ledger.auction(id)->0;
    let b = names.index_of(buyer);
    let s = names.index_of(auction.seller_name);
    let a = ids.index_of(id);
    lemma_index_of_contained(names, buyer);
    lemma_index_of_contained(names, auction.seller_name);
    lemma_index_of_contained(ids, id);
    let paid = ledger.characters.update(b, after.characters[b]);
    assert(after.characters =~= paid.update(s, after.characters[s]));
    assert(character_names(after.characters) =~= names);
    assert(auction_ids(after.auctions) =~= ids);
    lemma_total_gold_covers(ledger.characters, s, b);
    lemma_total_gold_update(ledger.characters, b, after.characters[b]);
    lemma_total_gold_update(paid, s, after.characters[s]);
    lemma_wf_keeps(ledger, after);
    assert forall|other: Id| other != id implies after.auction(other) == ledger.auction(other) by {
        if ids.contains(other) {
            lemma_index_of_contained(ids, other);
        }
    }
    assert forall|other: Seq<char>| other != buyer && other != auction.seller_name implies after.character(
        other,
    ) == ledger.character(other) by {
        if names.contains(other) {
            lemma_index_of_contained(names, other);
        }
    }
}

/// Gold is conserved. A purchase that goes through takes from the buyer
/// exactly what it gives to the seller, so the two hold together what they
/// held before, and so does the whole system; a purchase that is refused
/// moves nothing.
pub proof fn law_gold_is_conserved(ledger: LedgerView, id: Id, buyer: Seq<char>, now: int)
    requires
        ledger.wf(),
    ensures
        ledger.purchased(id, buyer, now).gold() == ledger.gold(),
        ledger.refusal(id, buyer, now) is Some ==> ledger.purchased(id, buyer, now) == ledger,
        ledger.refusal(id, buyer, now) is None ==> ({
            let after = ledger.purchased(id, buyer, now);
            let seller = ledger.auction(id)->0.seller_name;
            after.character(buyer)->0.gold + after.character(seller)->0.gold == ledger.character(
                buyer,
            )->0.gold + ledger.character(seller)->0.gold
        }),
{
    if ledger.refusal(id, buyer, now) is None {
        law_purchase_settles(ledger, id, buyer, now);
        let after = ledger.purchased(id, buyer, now);
        let names = character_names(ledger.characters);
        let auction = ledger.auction(id)->0;
        let b = names.index_of(buyer);
        let s = names.index_of(auction.seller_name);
        lemma_index_of_contained(names, buyer);
        lemma_index_of_contained(names, auction.seller_name);
        let paid = ledger.characters.update(b, after.characters[b]);
        assert(after.characters =~= paid.update(s, after.characters[s]));
        lemma_total_gold_update(ledger.characters, b, after.characters[b]);
        lemma_total_gold_update(paid, s, after.characters[s]);
    }
}

/// An auction that is sold or expired cannot be bought: whoever tries, and
/// whenever, is told that the auction is not active.
pub proof fn law_terminal_auction_refuses(ledger: LedgerView, id: Id, buyer: Seq<char>, now: int)
    requires
        ledger.auction(id) is Some,
        ledger.auction(id)->0.status.is_terminal(),
        ledger.character(buyer) is Some,
    ensures
        ledger.refusal(id, buyer, now) == Some(ErrorView::AuctionNotActive),
        ledger.purchased(id, buyer, now) == ledger,
{
}

/// An auction whose closing time has come cannot be bought, whatever its
/// state says: the time decides.
pub proof fn law_closing_time_decides(ledger: LedgerView, id: Id, buyer: Seq<char>, now: int)
    requires
        ledger.auction(id) is Some,
        ledger.character(buyer) is Some,
        now >= ledger.auction(id)->0.end_date,
    ensures
        ledger.refusal(id, buyer, now) == Some(ErrorView::AuctionNotActive),
        ledger.purchased(id, buyer, now) == ledger,
{
}

/// No purchase changes an auction that is sold or expired, whichever auction
/// the purchase is for.
pub proof fn law_purchase_keeps_terminal(
    ledger: LedgerView,
    id: Id,
    bought: Id,
    buyer: Seq<char>,
    now: int,
)
    requires
        ledger.wf(),
        ledger.auction(id) is Some,
        ledger.auction(id)->0.status.is_terminal(),
    ensures
        ledger.purchased(bought, buyer, now).auction(id) == ledger.auction(id),
{
    if ledger.refusal(bought, buyer, now) is None {
        law_purchase_settles(ledger, bought, buyer, now);
    }
}

/// No sweep changes an auction that is sold or expired.
pub proof fn law_sweep_keeps_terminal(ledger: LedgerView, id: Id, now: int)
    requires
        ledger.auction(id) is Some,
        ledger.auction(id)->0.status.is_terminal(),
    ensures
        ledger.swept(now).auction(id) == ledger.auction(id),
{
    let ids = auction_ids(ledger.auctions);
    assert(auction_ids(ledger.swept(now).auctions) =~= ids);
    lemma_index_of_contained(ids, id);
}

/// Marking as sold changes no auction that is sold or expired.
pub proof fn law_mark_sold_keeps_terminal(ledger: LedgerView, id: Id, marked: Id)
    requires
        ledger.wf(),
        ledger.auction(id) is Some,
        ledger.auction(id)->0.status.is_terminal(),
    ensures
        ledger.marked_sold(marked).auction(id) == ledger.auction(id),
{
    let ids = auction_ids(ledger.auctions);
    if ledger.sold_count(marked) != 0 {
        assert(auction_ids(ledger.marked_sold(marked).auctions) =~= ids);
        lemma_index_of_contained(ids, id);
        lemma_index_of_contained(ids, marked);
    }
}

/// Of two writers that mark one auction as sold, the second changes no row;
/// and neither does a writer that comes after a sweep has expired the
/// auction.
pub proof fn law_second_write_changes_nothing(ledger: LedgerView, id: Id, tick: int)
    requires
        ledger.wf(),
    ensures
        ledger.marked_sold(id).sold_count(id) == 0,
        ledger.marked_sold(id).marked_sold(id) == ledger.marked_sold(id),
        ledger.auction(id) is Some && ledger.auction(id)->0.is_stale_at(tick) ==> ledger.swept(
            tick,
        ).sold_count(id) == 0,
{
    let ids = auction_ids(ledger.auctions);
    if ids.contains(id) {
        lemma_index_of_contained(ids, id);
        assert(auction_ids(ledger.marked_sold(id).auctions) =~= ids);
        assert(auction_ids(ledger.swept(tick).auctions) =~= ids);
    }
}

/// Of two buyers who could each buy an auction, only the first does. The
/// second is told that the auction is not active and pays nothing, and the
/// seller is paid once.
pub proof fn law_one_buyer_wins(
    ledger: LedgerView,
    id: Id,
    first: Seq<char>,
    second: Seq<char>,
    now: int,
    then: int,
)
    requires
        ledger.wf(),
        first != second,
        ledger.refusal(id, first, now) is None,
        ledger.refusal(id, second, then) is None,
    ensures
        ({
            let once = ledger.purchased(id, first, now);
            let twice = once.purchased(id, second, then);
            let price = ledger.auction(id)->0.price;
            let seller = ledger.auction(id)->0.seller_name;
            &&& once.refusal(id, second, then) == Some(ErrorView::AuctionNotActive)
            &&& twice == once
            &&& twice.character(second) == ledger.character(second)
            &&& twice.character(first)->0.gold == ledger.character(first)->0.gold - price
            &&& twice.character(seller)->0.gold == ledger.character(seller)->0.gold + price
        }),
{
    law_purchase_settles(ledger, id, first, now);
}

/// Between a purchase and a sweep, the first to come wins. An auction that a
/// sweep has expired cannot be bought any more, and an auction that was
/// bought is not expired by a later sweep.
pub proof fn law_purchase_or_expiry(ledger: LedgerView, id: Id, buyer: Seq<char>, now: int, tick: int)
    requires
        ledger.wf(),
        ledger.auction(id) is Some,
        ledger.character(buyer) is Some,
    ensures
        ledger.auction(id)->0.is_stale_at(tick) ==> ledger.swept(tick).refusal(id, buyer, now) == Some(
            ErrorView::AuctionNotActive,
        ),
        ledger.refusal(id, buyer, now) is None ==> ledger.purchased(id, buyer, now).swept(
            tick,
        ).auction(id) == ledger.purchased(id, buyer, now).auction(id),
{
    let ids = auction_ids(ledger.auctions);
    lemma_index_of_contained(ids, id);
    assert(auction_ids(ledger.swept(tick).auctions) =~= ids);
    if ledger.refusal(id, buyer, now) is None {
        law_purchase_settles(ledger, id, buyer, now);
        law_sweep_keeps_terminal(ledger.purchased(id, buyer, now), id, tick);
    }
}

/// A sweep leaves nothing for a second sweep at the same moment: the second
/// finds no stale auction and changes nothing.
pub proof fn law_sweep_is_idempotent(ledger: LedgerView, now: int)
    ensures
        stale_count(ledger.swept(now).auctions, now) == 0,
        ledger.swept(now).swept(now) == ledger.swept(now),
{
    lemma_nothing_stale(swept_rows(ledger.auctions, now), now);
    assert(swept_rows(swept_rows(ledger.auctions, now), now) =~= swept_rows(ledger.auctions, now));
}

/// Two sweeps do what one sweep at the later of the two moments does.
pub proof fn law_sweeps_compose(ledger: LedgerView, now: int, then: int)
    ensures
        ledger.swept(now).swept(then) == ledger.swept(later(now, then)),
{
    assert(swept_rows(swept_rows(ledger.auctions, now), then) =~= swept_rows(
        ledger.auctions,
        later(now, then),
    ));
}

/// A sweep keeps the constraints of the tables, all the gold, and every
/// character, item and item instance.
pub proof fn law_sweep_touches_auctions_only(ledger: LedgerView, now: int)
    requires
        ledger.wf(),
    ensures
        ledger.swept(now).wf(),
        ledger.swept(now).characters == ledger.characters,
        ledger.swept(now).items == ledger.items,
        ledger.swept(now).instances == ledger.instances,
        ledger.swept(now).gold() == ledger.gold(),
{
    lemma_wf_keeps(ledger, ledger.swept(now));
}

/// What an auction keeps for good: its identifier, its item, its seller, its
/// two dates and its price.
pub open spec fn same_terms(before: AuctionView, after: AuctionView) -> bool {
    after == before.with_status(after.status)
}

/// The two steps that the state of an auction can take, and no step at all.
pub open spec fn moves_forward(before: AuctionStatus, after: AuctionStatus) -> bool {
    after == before || before == AuctionStatus::Active
}

/// A purchase leaves every auction in the ledger, with its terms as they
/// were. The state of an auction changes only where the auction was active
/// and is the one that was bought, and then it is sold.
pub proof fn law_purchase_keeps_terms(
    ledger: LedgerView,
    id: Id,
    bought: Id,
    buyer: Seq<char>,
    now: int,
)
    requires
        ledger.wf(),
        ledger.auction(id) is Some,
    ensures
        ({
            let before = ledger.auction(id)->0;
            let after = ledger.purchased(bought, buyer, now).auction(id);
            &&& after is Some
            &&& same_terms(before, after->0)
            &&& after->0.status != before.status ==> {
                &&& id == bought
                &&& before.status == AuctionStatus::Active
                &&& after->0.status == AuctionStatus::Sold
                &&& ledger.refusal(bought, buyer, now) is None
            }
        }),
{
    if ledger.refusal(bought, buyer, now) is None {
        law_purchase_settles(ledger, bought, buyer, now);
    }
}

/// A sweep leaves every auction in the ledger, with its terms as they were.
/// The state of an auction changes only where the auction was active and
/// stale, and then it is expired.
pub proof fn law_sweep_keeps_terms(ledger: LedgerView, id: Id, now: int)
    requires
        ledger.auction(id) is Some,
    ensures
        ({
            let before = ledger.auction(id)->0;
            let after = ledger.swept(now).auction(id);
            &&& after is Some
            &&& same_terms(before, after->0)
            &&& after->0.status != before.status ==> {
                &&& before.is_stale_at(now)
                &&& after->0.status == AuctionStatus::Expired
            }
        }),
{
    let ids = auction_ids(ledger.auctions);
    assert(auction_ids(ledger.swept(now).auctions) =~= ids);
    lemma_index_of_contained(ids, id);
}

/// Whatever purchases and sweeps do to an auction, its state only moves
/// forward: from active to sold or to expired, and from neither of these
/// anywhere.
pub proof fn law_status_moves_forward(
    ledger: LedgerView,
    id: Id,
    bought: Id,
    buyer: Seq<char>,
    now: int,
    tick: int,
)
    requires
        ledger.wf(),
        ledger.auction(id) is Some,
    ensures
        moves_forward(
            ledger.auction(id)->0.status,
            ledger.purchased(bought, buyer, now).auction(id)->0.status,
        ),
        moves_forward(ledger.auction(id)->0.status, ledger.swept(tick).auction(id)->0.status),
        moves_forward(
            ledger.auction(id)->0.status,
            ledger.purchased(bought, buyer, now).swept(tick).auction(id)->0.status,
        ),
        moves_forward(
            ledger.auction(id)->0.status,
            ledger.swept(tick).purchased(bought, buyer, now).auction(id)->0.status,
        ),
{
    law_purchase_keeps_terms(ledger, id, bought, buyer, now);
    law_sweep_keeps_terms(ledger, id, tick);
    law_sweep_keeps_terms(ledger.purchased(bought, buyer, now), id, tick);
    law_sweep_touches_auctions_only(ledger, tick);
    law_purchase_keeps_terms(ledger.swept(tick), id, bought, buyer, now);
}

/// Every auction has its seller in the ledger: where the auction exists, the
/// look-up of its seller cannot fail.
pub proof fn law_seller_is_there(ledger: LedgerView, id: Id)
    requires
        ledger.wf(),
        ledger.auction(id) is Some,
    ensures
        ledger.seller_of(id) is Some,
        ledger.seller_of(id)->0.name == ledger.auction(id)->0.seller_name,
{
    let ids = auction_ids(ledger.auctions);
    lemma_index_of_contained(ids, id);
    let at = ids.index_of(id);
    assert(ledger.refers(ledger.auctions[at].auctioned_item_id, ledger.auctions[at].seller_name));
    lemma_index_of_contained(character_names(ledger.characters), ledger.auctions[at].seller_name);
}

/// A buyer who exists, can pay and is not the seller buys an open auction:
/// nothing else can stand in the way.
pub proof fn law_valid_purchase_goes_through(ledger: LedgerView, id: Id, buyer: Seq<char>, now: int)
    requires
        ledger.wf(),
        ledger.auction(id) is Some,
        ledger.character(buyer) is Some,
        ledger.auction(id)->0.is_open_at(now),
        ledger.character(buyer)->0.gold >= ledger.auction(id)->0.price,
        buyer != ledger.auction(id)->0.seller_name,
    ensures
        ledger.refusal(id, buyer, now) is None,
        ledger.purchase_answer(id, buyer, now) == Ok::<AuctionView, ErrorView>(
            ledger.auction(id)->0.with_status(AuctionStatus::Sold),
        ),
{
    law_seller_is_there(ledger, id);
    lemma_index_of_contained(character_names(ledger.characters), buyer);
}

/// A listing names the catalogue item of the instance as the ledger holds
/// it. Where the seller owns the instance, nothing but an identifier that is
/// taken can stand in the way of the listing, and the auction that is written
/// is active, is the seller's, and is found under its identifier.
pub proof fn law_listing_names_the_stored_item(
    ledger: LedgerView,
    seller: Seq<char>,
    instance: Id,
    id: Id,
    now: int,
)
    requires
        ledger.wf(),
        ledger.character(seller) is Some,
        ledger.instance_of(seller, instance) is Some,
    ensures
        ({
            let offer = ledger.offer(seller, instance, id, now);
            let fault = ledger.offer_fault(seller, instance, id, now);
            let after = ledger.offered(seller, instance, id, now);
            &&& offer.auctioned_item_id == ledger.instance(instance)->0.item_id
            &&& offer.seller_name == ledger.instance(instance)->0.owner_name
            &&& ledger.item(offer.auctioned_item_id) is Some
            &&& fault is Some <==> ledger.auction(id) is Some
            &&& fault is Some ==> fault == Some(Constraint::Unique.failure())
            &&& after.wf()
            &&& fault is None ==> after.auction(id) == Some(offer)
        }),
{
    let offer = ledger.offer(seller, instance, id, now);
    let ids = instance_ids(ledger.instances);
    lemma_index_of_contained(ids, instance);
    let at = ids.index_of(instance);
    assert(ledger.refers(ledger.instances[at].item_id, ledger.instances[at].owner_name));
    lemma_listed_wf(ledger, offer);
    if ledger.offer_fault(seller, instance, id, now) is None {
        let keys = auction_ids(ledger.auctions);
        lemma_push_key(keys, id);
        assert(auction_ids(ledger.offered(seller, instance, id, now).auctions) =~= keys.push(id));
    }
}

/// A character that is deleted leaves nothing behind: the ledger meets its
/// constraints without it, holds no item instance and no auction of its
/// name, and holds less gold by what the character had.
pub proof fn law_character_leaves_with_its_rows(ledger: LedgerView, name: Seq<char>)
    requires
        ledger.wf(),
        ledger.character(name) is Some,
    ensures
        ({
            let after = ledger.without_character(name);
            &&& after.wf()
            &&& after.character(name) is None
            &&& after.gold() == ledger.gold() - ledger.character(name)->0.gold
            &&& after.items == ledger.items
            &&& forall|i: int|
                0 <= i < after.instances.len() ==> (#[trigger] after.instances[i]).owner_name
                    != name
            &&& forall|i: int|
                0 <= i < after.auctions.len() ==> (#[trigger] after.auctions[i]).seller_name != name
        }),
{
    let names = character_names(ledger.characters);
    lemma_index_of_contained(names, name);
    lemma_without_character_wf(ledger, name);
    lemma_total_gold_remove(ledger.characters, names.index_of(name));
    lemma_without_instances_wf(ledger, InstanceFilterView::HeldBy(name));
    lemma_without_auctions_wf(ledger, AuctionFilterView::SoldBy(name));
}

/// Where no row is stale, the count of stale rows is zero.
proof fn lemma_nothing_stale(rows: Seq<AuctionView>, now: int)
    requires
        forall|i: int| 0 <= i < rows.len() ==> !(#[trigger] rows[i]).is_stale_at(now),
    ensures
        stale_count(rows, now) == 0,
    decreases rows.len(),
{
    if rows.len() > 0 {
        lemma_nothing_stale(rows.drop_last(), now);
    }
}

} // verus!
