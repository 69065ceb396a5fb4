//! Why the operations of the marketplace keep the constraints of the
//! ledger's tables: the lemmas behind the ledger and behind the laws.

use vstd::prelude::*;

use crate::auction::{AuctionFilterView, AuctionView};
use crate::character::CharacterView;
use crate::ident::Id;
use crate::item::{InstanceFilterView, ItemInstanceView, ItemView};
use crate::tables::{
    auction_ids, character_names, held, instance_ids, item_ids, item_names, selected,
    stale_count, total_gold, unheld, unselected, LedgerView,
};

verus! {

/// In a sequence of keys without duplicates, a key is found where it stands.
pub proof fn lemma_index_of_unique<K>(keys: Seq<K>, i: int)
    requires
        keys.no_duplicates(),
        0 <= i < keys.len(),
    ensures
        keys.contains(keys[i]),
        keys.index_of(keys[i]) == i,
{
    assert(keys.contains(keys[i]));
}

/// A key that the sequence holds is found at one of its positions.
pub proof fn lemma_index_of_contained<K>(keys: Seq<K>, key: K)
    requires
        keys.contains(key),
    ensures
        0 <= keys.index_of(key) < keys.len(),
        keys[keys.index_of(key)] == key,
{
}

/// One more character adds its gold to the total.
pub proof fn lemma_total_gold_push(rows: Seq<CharacterView>, row: CharacterView)
    ensures
        total_gold(rows.push(row)) == total_gold(rows) + row.gold,
{
    assert(rows.push(row).drop_last() =~= rows);
}

/// A new balance changes the total by the difference to the old one.
pub proof fn lemma_total_gold_update(rows: Seq<CharacterView>, i: int, row: CharacterView)
    requires
        0 <= i < rows.len(),
    ensures
        total_gold(rows.update(i, row)) == total_gold(rows) - rows[i].gold + row.gold,
    decreases rows.len(),
{
    let updated = rows.update(i, row);
    if i == rows.len() - 1 {
        assert(updated.drop_last() =~= rows.drop_last());
    } else {
        lemma_total_gold_update(rows.drop_last(), i, row);
        assert(updated.drop_last() =~= rows.drop_last().update(i, row));
    }
}

/// A character that leaves takes its gold out of the total.
pub proof fn lemma_total_gold_remove(rows: Seq<CharacterView>, i: int)
    requires
        0 <= i < rows.len(),
    ensures
        total_gold(rows.remove(i)) == total_gold(rows) - rows[i].gold,
    decreases rows.len(),
{
    let removed = rows.remove(i);
    if i == rows.len() - 1 {
        assert(removed =~= rows.drop_last());
    } else {
        lemma_total_gold_remove(rows.drop_last(), i);
        assert(removed.drop_last() =~= rows.drop_last().remove(i));
        assert(removed.last() == rows.last());
    }
}

/// Two characters together hold no more than all of them.
pub proof fn lemma_total_gold_covers(rows: Seq<CharacterView>, i: int, j: int)
    requires
        0 <= i < rows.len(),
        0 <= j < rows.len(),
        i != j,
    ensures
        rows[i].gold + rows[j].gold <= total_gold(rows),
        rows[i].gold <= total_gold(rows),
    decreases rows.len(),
{
    let last = rows.len() - 1;
    if i == last {
        lemma_total_gold_holds(rows.drop_last(), j);
    } else if j == last {
        lemma_total_gold_holds(rows.drop_last(), i);
    } else {
        lemma_total_gold_covers(rows.drop_last(), i, j);
    }
}

/// One character holds no more than all of them.
pub proof fn lemma_total_gold_holds(rows: Seq<CharacterView>, i: int)
    requires
        0 <= i < rows.len(),
    ensures
        rows[i].gold <= total_gold(rows),
    decreases rows.len(),
{
    if i < rows.len() - 1 {
        lemma_total_gold_holds(rows.drop_last(), i);
    }
}

/// The constraints survive a change that keeps the catalogue, the item
/// instances, the names of the characters and, of each auction, its
/// identifier and what it refers to, as long as the gold still fits.
pub proof fn lemma_wf_keeps(before: LedgerView, after: LedgerView)
    requires
        before.wf(),
        after.items == before.items,
        after.instances == before.instances,
        character_names(after.characters) == character_names(before.characters),
        total_gold(after.characters) <= u64::MAX,
        after.auctions.len() == before.auctions.len(),
        forall|i: int|
            0 <= i < after.auctions.len() ==> {
                &&& (#[trigger] after.auctions[i]).id == before.auctions[i].id
                &&& after.auctions[i].auctioned_item_id == before.auctions[i].auctioned_item_id
                &&& after.auctions[i].seller_name == before.auctions[i].seller_name
            },
    ensures
        after.wf(),
{
    assert(auction_ids(after.auctions) =~= auction_ids(before.auctions));
    assert forall|i: int| 0 <= i < after.auctions.len() implies after.refers(
        #[trigger] after.auctions[i].auctioned_item_id,
        after.auctions[i].seller_name,
    ) by {
        assert(before.refers(
            before.auctions[i].auctioned_item_id,
            before.auctions[i].seller_name,
        ));
    }
    assert forall|i: int| 0 <= i < after.instances.len() implies after.refers(
        #[trigger] after.instances[i].item_id,
        after.instances[i].owner_name,
    ) by {
        assert(before.refers(before.instances[i].item_id, before.instances[i].owner_name));
    }
    assert forall|i: int| 0 <= i < after.instances.len() implies #[trigger] after.item(
        after.instances[i].item_id,
    )->0.name == after.instances[i].item_name by {
        assert(before.item(before.instances[i].item_id)->0.name
            == before.instances[i].item_name);
    }
}

/// One more auction adds one to the count where it is stale.
pub proof fn lemma_stale_count_step(rows: Seq<AuctionView>, i: int, now: int)
    requires
        0 <= i < rows.len(),
    ensures
        stale_count(rows.take(i + 1), now) == stale_count(rows.take(i), now) + if rows[i].is_stale_at(
            now,
        ) {
            1nat
        } else {
            0nat
        },
        stale_count(rows.take(i), now) <= i,
    decreases i,
{
    assert(rows.take(i + 1).drop_last() =~= rows.take(i));
    if i > 0 {
        lemma_stale_count_step(rows, i - 1, now);
    }
}

/// A key that the sequence lacks can join it without making a duplicate, and
/// every key that was found is still found where it was.
pub proof fn lemma_push_key<K>(keys: Seq<K>, key: K)
    requires
        keys.no_duplicates(),
        !keys.contains(key),
    ensures
        keys.push(key).no_duplicates(),
        keys.push(key).contains(key),
        keys.push(key).index_of(key) == keys.len(),
        forall|k: K|
            keys.contains(k) ==> #[trigger] keys.push(key).contains(k) && keys.push(key).index_of(k)
                == keys.index_of(k),
{
    let grown = keys.push(key);
    assert forall|i: int, j: int| 0 <= i < grown.len() && 0 <= j < grown.len() && i != j implies grown[i]
        != grown[j] by {
        if i < keys.len() {
            assert(keys.contains(keys[i]));
        }
        if j < keys.len() {
            assert(keys.contains(keys[j]));
        }
    }
    assert(grown[keys.len() as int] == key);
    lemma_index_of_unique(grown, keys.len() as int);
    assert forall|k: K| keys.contains(k) implies #[trigger] grown.contains(k) && grown.index_of(k)
        == keys.index_of(k) by {
        let i = keys.index_of(k);
        assert(grown[i] == k);
        lemma_index_of_unique(grown, i);
    }
}

/// Without one of its keys, a sequence has no duplicate either, holds every
/// other key that it held, and no key that it did not hold.
pub proof fn lemma_remove_key<K>(keys: Seq<K>, i: int)
    requires
        keys.no_duplicates(),
        0 <= i < keys.len(),
    ensures
        keys.remove(i).no_duplicates(),
        !keys.remove(i).contains(keys[i]),
        forall|k: K| k != keys[i] ==> (#[trigger] keys.remove(i).contains(k) <==> keys.contains(k)),
{
    let rest = keys.remove(i);
    assert forall|k: K| k != keys[i] implies (#[trigger] rest.contains(k) <==> keys.contains(k)) by {
        if keys.contains(k) {
            let j = keys.index_of(k);
            if j < i {
                assert(rest[j] == k);
            } else {
                assert(rest[j - 1] == k);
            }
        }
        if rest.contains(k) {
            let j = rest.index_of(k);
            if j < i {
                assert(keys[j] == k);
            } else {
                assert(keys[j + 1] == k);
            }
        }
    }
    if rest.contains(keys[i]) {
        let j = rest.index_of(keys[i]);
        if j < i {
            assert(keys[j] == keys[i]);
        } else {
            assert(keys[j + 1] == keys[i]);
        }
    }
}

/// The constraints survive the registration of a character.
pub proof fn lemma_registered_wf(before: LedgerView, row: CharacterView)
    requires
        before.wf(),
    ensures
        before.registered(row).wf(),
        before.registration_fault(row) is None ==> before.registered(row).gold() == before.gold()
            + row.gold,
{
    let after = before.registered(row);
    if before.registration_fault(row) is None {
        let names = character_names(before.characters);
        assert(character_names(after.characters) =~= names.push(row.name));
        lemma_push_key(names, row.name);
        lemma_total_gold_push(before.characters, row);
        assert forall|i: int| 0 <= i < after.auctions.len() implies after.refers(
            #[trigger] after.auctions[i].auctioned_item_id,
            after.auctions[i].seller_name,
        ) by {
            assert(before.refers(
                before.auctions[i].auctioned_item_id,
                before.auctions[i].seller_name,
            ));
        }
        assert forall|i: int| 0 <= i < after.instances.len() implies after.refers(
            #[trigger] after.instances[i].item_id,
            after.instances[i].owner_name,
        ) by {
            assert(before.refers(before.instances[i].item_id, before.instances[i].owner_name));
        }
        assert forall|i: int| 0 <= i < after.instances.len() implies #[trigger] after.item(
            after.instances[i].item_id,
        )->0.name == after.instances[i].item_name by {
            assert(before.item(before.instances[i].item_id)->0.name
                == before.instances[i].item_name);
        }
    }
}

/// The constraints survive a new balance that fits.
pub proof fn lemma_with_balance_wf(before: LedgerView, name: Seq<char>, gold: nat)
    requires
        before.wf(),
    ensures
        before.with_balance(name, gold).wf(),
{
    let after = before.with_balance(name, gold);
    if before.balance_fault(name, gold) is None {
        let names = character_names(before.characters);
        lemma_index_of_contained(names, name);
        let i = names.index_of(name);
        assert(character_names(after.characters) =~= names);
        lemma_total_gold_update(before.characters, i, before.characters[i].with_gold(gold));
        lemma_wf_keeps(before, after);
    }
}

/// The constraints survive a new entry of the catalogue.
pub proof fn lemma_catalogued_wf(before: LedgerView, row: ItemView)
    requires
        before.wf(),
    ensures
        before.catalogued(row).wf(),
{
    let after = before.catalogued(row);
    if before.catalogue_fault(row) is None {
        let ids = item_ids(before.items);
        assert(item_ids(after.items) =~= ids.push(row.id));
        assert(item_names(after.items) =~= item_names(before.items).push(row.name));
        lemma_push_key(ids, row.id);
        lemma_push_key(item_names(before.items), row.name);
        assert forall|i: int| 0 <= i < after.auctions.len() implies after.refers(
            #[trigger] after.auctions[i].auctioned_item_id,
            after.auctions[i].seller_name,
        ) by {
            assert(before.refers(
                before.auctions[i].auctioned_item_id,
                before.auctions[i].seller_name,
            ));
        }
        assert forall|i: int| 0 <= i < after.instances.len() implies after.refers(
            #[trigger] after.instances[i].item_id,
            after.instances[i].owner_name,
        ) by {
            assert(before.refers(before.instances[i].item_id, before.instances[i].owner_name));
        }
        assert forall|i: int| 0 <= i < after.instances.len() implies #[trigger] after.item(
            after.instances[i].item_id,
        )->0.name == after.instances[i].item_name by {
            let id = before.instances[i].item_id;
            assert(before.refers(id, before.instances[i].owner_name));
            assert(before.item(id)->0.name == before.instances[i].item_name);
            lemma_index_of_contained(ids, id);
        }
    }
}

/// The constraints survive a new item instance.
pub proof fn lemma_granted_wf(before: LedgerView, row: ItemInstanceView)
    requires
        before.wf(),
    ensures
        before.granted(row).wf(),
{
    let after = before.granted(row);
    if before.grant_fault(row) is None {
        let ids = instance_ids(before.instances);
        assert(instance_ids(after.instances) =~= ids.push(row.id));
        lemma_push_key(ids, row.id);
        assert forall|i: int| 0 <= i < after.instances.len() implies after.refers(
            #[trigger] after.instances[i].item_id,
            after.instances[i].owner_name,
        ) by {
            if i < before.instances.len() {
                assert(before.refers(
                    before.instances[i].item_id,
                    before.instances[i].owner_name,
                ));
            }
        }
        assert forall|i: int| 0 <= i < after.instances.len() implies #[trigger] after.item(
            after.instances[i].item_id,
        )->0.name == after.instances[i].item_name by {
            if i < before.instances.len() {
                assert(before.item(before.instances[i].item_id)->0.name
                    == before.instances[i].item_name);
            }
        }
        assert forall|i: int| 0 <= i < after.auctions.len() implies after.refers(
            #[trigger] after.auctions[i].auctioned_item_id,
            after.auctions[i].seller_name,
        ) by {
            assert(before.refers(
                before.auctions[i].auctioned_item_id,
                before.auctions[i].seller_name,
            ));
        }
    }
}

/// The constraints survive a new auction.
pub proof fn lemma_listed_wf(before: LedgerView, row: AuctionView)
    requires
        before.wf(),
    ensures
        before.listed(row).wf(),
{
    let after = before.listed(row);
    if before.listing_fault(row) is None {
        let ids = auction_ids(before.auctions);
        assert(auction_ids(after.auctions) =~= ids.push(row.id));
        lemma_push_key(ids, row.id);
        assert forall|i: int| 0 <= i < after.auctions.len() implies after.refers(
            #[trigger] after.auctions[i].auctioned_item_id,
            after.auctions[i].seller_name,
        ) by {
            if i < before.auctions.len() {
                assert(before.refers(
                    before.auctions[i].auctioned_item_id,
                    before.auctions[i].seller_name,
                ));
            }
        }
        assert forall|i: int| 0 <= i < after.instances.len() implies after.refers(
            #[trigger] after.instances[i].item_id,
            after.instances[i].owner_name,
        ) by {
            assert(before.refers(before.instances[i].item_id, before.instances[i].owner_name));
        }
        assert forall|i: int| 0 <= i < after.instances.len() implies #[trigger] after.item(
            after.instances[i].item_id,
        )->0.name == after.instances[i].item_name by {
            assert(before.item(before.instances[i].item_id)->0.name
                == before.instances[i].item_name);
        }
    }
}

/// The constraints survive the removal of an auction.
pub proof fn lemma_without_auction_wf(before: LedgerView, id: Id)
    requires
        before.wf(),
    ensures
        before.without_auction(id).wf(),
        before.without_auction(id).auction(id) is None,
{
    let after = before.without_auction(id);
    let ids = auction_ids(before.auctions);
    if ids.contains(id) {
        let at = ids.index_of(id);
        assert(auction_ids(after.auctions) =~= ids.remove(at));
        lemma_remove_key(ids, at);
        assert forall|i: int| 0 <= i < after.auctions.len() implies after.refers(
            #[trigger] after.auctions[i].auctioned_item_id,
            after.auctions[i].seller_name,
        ) by {
            let j = if i < at {
                i
            } else {
                i + 1
            };
            assert(after.auctions[i] == before.auctions[j]);
            assert(before.refers(
                before.auctions[j].auctioned_item_id,
                before.auctions[j].seller_name,
            ));
        }
        assert forall|i: int| 0 <= i < after.instances.len() implies after.refers(
            #[trigger] after.instances[i].item_id,
            after.instances[i].owner_name,
        ) by {
            assert(before.refers(before.instances[i].item_id, before.instances[i].owner_name));
        }
        assert forall|i: int| 0 <= i < after.instances.len() implies #[trigger] after.item(
            after.instances[i].item_id,
        )->0.name == after.instances[i].item_name by {
            assert(before.item(before.instances[i].item_id)->0.name
                == before.instances[i].item_name);
        }
    }
}

/// The constraints survive the removal of an item instance.
pub proof fn lemma_without_instance_wf(before: LedgerView, id: Id)
    requires
        before.wf(),
    ensures
        before.without_instance(id).wf(),
        before.without_instance(id).instance(id) is None,
{
    let after = before.without_instance(id);
    let ids = instance_ids(before.instances);
    if ids.contains(id) {
        let at = ids.index_of(id);
        assert(instance_ids(after.instances) =~= ids.remove(at));
        lemma_remove_key(ids, at);
        assert forall|i: int| 0 <= i < after.instances.len() implies after.refers(
            #[trigger] after.instances[i].item_id,
            after.instances[i].owner_name,
        ) by {
            let j = if i < at {
                i
            } else {
                i + 1
            };
            assert(after.instances[i] == before.instances[j]);
            assert(before.refers(before.instances[j].item_id, before.instances[j].owner_name));
        }
        assert forall|i: int| 0 <= i < after.instances.len() implies #[trigger] after.item(
            after.instances[i].item_id,
        )->0.name == after.instances[i].item_name by {
            let j = if i < at {
                i
            } else {
                i + 1
            };
            assert(after.instances[i] == before.instances[j]);
            assert(before.item(before.instances[j].item_id)->0.name
                == before.instances[j].item_name);
        }
        assert forall|i: int| 0 <= i < after.auctions.len() implies after.refers(
            #[trigger] after.auctions[i].auctioned_item_id,
            after.auctions[i].seller_name,
        ) by {
            assert(before.refers(
                before.auctions[i].auctioned_item_id,
                before.auctions[i].seller_name,
            ));
        }
    }
}

/// The gold of the first `i + 1` characters is the gold of the first `i` and
/// of the next, and no more than the gold of all.
pub proof fn lemma_total_gold_step(rows: Seq<CharacterView>, i: int)
    requires
        0 <= i < rows.len(),
    ensures
        total_gold(rows.take(i + 1)) == total_gold(rows.take(i)) + rows[i].gold,
        total_gold(rows.take(i + 1)) <= total_gold(rows),
    decreases rows.len() - i,
{
    assert(rows.take(i + 1).drop_last() =~= rows.take(i));
    if i + 1 < rows.len() {
        lemma_total_gold_step(rows, i + 1);
    } else {
        assert(rows.take(i + 1) =~= rows);
    }
}

/// The selection among the first `i + 1` auctions is the selection among
/// the first `i`, and the next where it passes.
pub proof fn lemma_selected_step(rows: Seq<AuctionView>, i: int, filter: AuctionFilterView)
    requires
        0 <= i < rows.len(),
    ensures
        selected(rows.take(i + 1), filter) == if filter.admits(rows[i]) {
            selected(rows.take(i), filter).push(rows[i])
        } else {
            selected(rows.take(i), filter)
        },
{
    assert(rows.take(i + 1) =~= rows.take(i).push(rows[i]));
    rows.take(i).lemma_filter_push(rows[i], |row: AuctionView| filter.admits(row));
}

/// What is left of the first `i + 1` auctions is what is left of the first
/// `i`, and the next where it does not pass.
pub proof fn lemma_unselected_step(rows: Seq<AuctionView>, i: int, filter: AuctionFilterView)
    requires
        0 <= i < rows.len(),
    ensures
        unselected(rows.take(i + 1), filter) == if filter.admits(rows[i]) {
            unselected(rows.take(i), filter)
        } else {
            unselected(rows.take(i), filter).push(rows[i])
        },
{
    assert(rows.take(i + 1) =~= rows.take(i).push(rows[i]));
    rows.take(i).lemma_filter_push(rows[i], |row: AuctionView| !filter.admits(row));
}

/// The selection among the first `i + 1` item instances is the selection
/// among the first `i`, and the next where it passes.
pub proof fn lemma_held_step(rows: Seq<ItemInstanceView>, i: int, filter: InstanceFilterView)
    requires
        0 <= i < rows.len(),
    ensures
        held(rows.take(i + 1), filter) == if filter.admits(rows[i]) {
            held(rows.take(i), filter).push(rows[i])
        } else {
            held(rows.take(i), filter)
        },
{
    assert(rows.take(i + 1) =~= rows.take(i).push(rows[i]));
    rows.take(i).lemma_filter_push(rows[i], |row: ItemInstanceView| filter.admits(row));
}

/// What is left of the first `i + 1` item instances is what is left of the
/// first `i`, and the next where it does not pass.
pub proof fn lemma_unheld_step(rows: Seq<ItemInstanceView>, i: int, filter: InstanceFilterView)
    requires
        0 <= i < rows.len(),
    ensures
        unheld(rows.take(i + 1), filter) == if filter.admits(rows[i]) {
            unheld(rows.take(i), filter)
        } else {
            unheld(rows.take(i), filter).push(rows[i])
        },
{
    assert(rows.take(i + 1) =~= rows.take(i).push(rows[i]));
    rows.take(i).lemma_filter_push(rows[i], |row: ItemInstanceView| !filter.admits(row));
}

/// What a filter keeps: rows of the sequence that pass it, and no two with
/// one key where the sequence had no two with one key.
pub proof fn lemma_filter_keeps<A, K>(rows: Seq<A>, pred: spec_fn(A) -> bool, key: spec_fn(A) -> K)
    requires
        forall|i: int, j: int|
            0 <= i < j < rows.len() ==> key(#[trigger] rows[i]) != key(#[trigger] rows[j]),
    ensures
        forall|j: int|
            0 <= j < rows.filter(pred).len() ==> rows.contains(#[trigger] rows.filter(pred)[j])
                && pred(rows.filter(pred)[j]),
        forall|i: int, j: int|
            0 <= i < j < rows.filter(pred).len() ==> key(#[trigger] rows.filter(pred)[i]) != key(
                #[trigger] rows.filter(pred)[j],
            ),
    decreases rows.len(),
{
    let kept = rows.filter(pred);
    if rows.len() == 0 {
        rows.lemma_filter_len(pred);
    } else {
        let front = rows.drop_last();
        let last = rows.last();
        let before = front.filter(pred);
        assert(front.push(last) =~= rows);
        front.lemma_filter_push(last, pred);
        assert forall|i: int, j: int| 0 <= i < j < front.len() implies key(#[trigger] front[i])
            != key(#[trigger] front[j]) by {
            assert(front[i] == rows[i] && front[j] == rows[j]);
        }
        lemma_filter_keeps(front, pred, key);
        assert forall|j: int| 0 <= j < kept.len() implies rows.contains(#[trigger] kept[j]) && pred(
            kept[j],
        ) by {
            if j < before.len() {
                assert(kept[j] == before[j]);
                assert(front.contains(before[j]));
                let at = front.index_of(before[j]);
                assert(rows[at] == kept[j]);
            } else {
                assert(kept[j] == last);
                assert(rows[rows.len() - 1] == last);
            }
        }
        assert forall|i: int, j: int| 0 <= i < j < kept.len() implies key(#[trigger] kept[i])
            != key(#[trigger] kept[j]) by {
            if j < before.len() {
                assert(kept[i] == before[i] && kept[j] == before[j]);
            } else {
                assert(kept[j] == last);
                assert(kept[i] == before[i]);
                assert(front.contains(before[i]));
                let at = front.index_of(before[i]);
                assert(rows[at] == kept[i]);
                assert(rows[rows.len() - 1] == last);
            }
        }
    }
}

/// The constraints survive the removal of auctions, and none of the auctions
/// that are left passes the filter.
pub proof fn lemma_without_auctions_wf(before: LedgerView, filter: AuctionFilterView)
    requires
        before.wf(),
    ensures
        before.without_auctions(filter).wf(),
        forall|i: int|
            0 <= i < before.without_auctions(filter).auctions.len() ==> !filter.admits(
                #[trigger] before.without_auctions(filter).auctions[i],
            ),
{
    let after = before.without_auctions(filter);
    let pred = |row: AuctionView| !filter.admits(row);
    let key = |row: AuctionView| row.id;
    let ids = auction_ids(before.auctions);
    assert forall|i: int, j: int| 0 <= i < j < before.auctions.len() implies key(
        #[trigger] before.auctions[i],
    ) != key(#[trigger] before.auctions[j]) by {
        assert(ids[i] != ids[j]);
    }
    lemma_filter_keeps(before.auctions, pred, key);
    let kept = after.auctions;
    assert forall|i: int, j: int|
        0 <= i < auction_ids(kept).len() && 0 <= j < auction_ids(kept).len() && i != j implies auction_ids(
        kept,
    )[i] != auction_ids(kept)[j] by {
        if i < j {
            assert(key(kept[i]) != key(kept[j]));
        } else {
            assert(key(kept[j]) != key(kept[i]));
        }
    }
    assert forall|i: int| 0 <= i < kept.len() implies after.refers(
        #[trigger] kept[i].auctioned_item_id,
        kept[i].seller_name,
    ) by {
        assert(before.auctions.contains(kept[i]));
        let at = before.auctions.index_of(kept[i]);
        assert(before.refers(
            before.auctions[at].auctioned_item_id,
            before.auctions[at].seller_name,
        ));
    }
    assert forall|i: int| 0 <= i < after.instances.len() implies after.refers(
        #[trigger] after.instances[i].item_id,
        after.instances[i].owner_name,
    ) by {
        assert(before.refers(before.instances[i].item_id, before.instances[i].owner_name));
    }
    assert forall|i: int| 0 <= i < after.instances.len() implies #[trigger] after.item(
        after.instances[i].item_id,
    )->0.name == after.instances[i].item_name by {
        assert(before.item(before.instances[i].item_id)->0.name
            == before.instances[i].item_name);
    }
}

/// The constraints survive the removal of item instances, and none of the
/// instances that are left passes the filter.
pub proof fn lemma_without_instances_wf(before: LedgerView, filter: InstanceFilterView)
    requires
        before.wf(),
    ensures
        before.without_instances(filter).wf(),
        forall|i: int|
            0 <= i < before.without_instances(filter).instances.len() ==> !filter.admits(
                #[trigger] before.without_instances(filter).instances[i],
            ),
{
    let after = before.without_instances(filter);
    let pred = |row: ItemInstanceView| !filter.admits(row);
    let key = |row: ItemInstanceView| row.id;
    let ids = instance_ids(before.instances);
    assert forall|i: int, j: int| 0 <= i < j < before.instances.len() implies key(
        #[trigger] before.instances[i],
    ) != key(#[trigger] before.instances[j]) by {
        assert(ids[i] != ids[j]);
    }
    lemma_filter_keeps(before.instances, pred, key);
    let kept = after.instances;
    assert forall|i: int, j: int|
        0 <= i < instance_ids(kept).len() && 0 <= j < instance_ids(kept).len() && i != j implies instance_ids(
        kept,
    )[i] != instance_ids(kept)[j] by {
        if i < j {
            assert(key(kept[i]) != key(kept[j]));
        } else {
            assert(key(kept[j]) != key(kept[i]));
        }
    }
    assert forall|i: int| 0 <= i < kept.len() implies after.refers(
        #[trigger] kept[i].item_id,
        kept[i].owner_name,
    ) && after.item(kept[i].item_id)->0.name == kept[i].item_name by {
        assert(before.instances.contains(kept[i]));
        let at = before.instances.index_of(kept[i]);
        assert(before.refers(before.instances[at].item_id, before.instances[at].owner_name));
        assert(before.item(before.instances[at].item_id)->0.name
            == before.instances[at].item_name);
    }
    assert forall|i: int| 0 <= i < kept.len() implies #[trigger] after.item(kept[i].item_id)->0.name
        == kept[i].item_name by {
        assert(after.refers(kept[i].item_id, kept[i].owner_name));
    }
    assert forall|i: int| 0 <= i < after.auctions.len() implies after.refers(
        #[trigger] after.auctions[i].auctioned_item_id,
        after.auctions[i].seller_name,
    ) by {
        assert(before.refers(
            before.auctions[i].auctioned_item_id,
            before.auctions[i].seller_name,
        ));
    }
}

/// The constraints survive the removal of a character to whom no item
/// instance and no auction refers.
pub proof fn lemma_unreferred_character(before: LedgerView, name: Seq<char>)
    requires
        before.wf(),
        character_names(before.characters).contains(name),
        forall|i: int| 0 <= i < before.instances.len() ==> (#[trigger] before.instances[i]).owner_name != name,
        forall|i: int| 0 <= i < before.auctions.len() ==> (#[trigger] before.auctions[i]).seller_name != name,
    ensures
        (LedgerView {
            characters: before.characters.remove(character_names(before.characters).index_of(name)),
            ..before
        }).wf(),
{
    let names = character_names(before.characters);
    let at = names.index_of(name);
    let after = LedgerView { characters: before.characters.remove(at), ..before };
    assert(character_names(after.characters) =~= names.remove(at));
    lemma_remove_key(names, at);
    lemma_total_gold_remove(before.characters, at);
    assert forall|i: int| 0 <= i < after.auctions.len() implies after.refers(
        #[trigger] after.auctions[i].auctioned_item_id,
        after.auctions[i].seller_name,
    ) by {
        assert(before.refers(
            before.auctions[i].auctioned_item_id,
            before.auctions[i].seller_name,
        ));
        assert(before.auctions[i].seller_name != name);
    }
    assert forall|i: int| 0 <= i < after.instances.len() implies after.refers(
        #[trigger] after.instances[i].item_id,
        after.instances[i].owner_name,
    ) by {
        assert(before.refers(before.instances[i].item_id, before.instances[i].owner_name));
        assert(before.instances[i].owner_name != name);
    }
    assert forall|i: int| 0 <= i < after.instances.len() implies #[trigger] after.item(
        after.instances[i].item_id,
    )->0.name == after.instances[i].item_name by {
        assert(before.item(before.instances[i].item_id)->0.name
            == before.instances[i].item_name);
    }
}

/// The constraints survive the removal of a character with all that refers
/// to it.
pub proof fn lemma_without_character_wf(before: LedgerView, name: Seq<char>)
    requires
        before.wf(),
    ensures
        before.without_character(name).wf(),
        before.without_character(name).character(name) is None,
{
    let names = character_names(before.characters);
    if names.contains(name) {
        let less = before.without_instances(InstanceFilterView::HeldBy(name));
        lemma_without_instances_wf(before, InstanceFilterView::HeldBy(name));
        let least = less.without_auctions(AuctionFilterView::SoldBy(name));
        lemma_without_auctions_wf(less, AuctionFilterView::SoldBy(name));
        lemma_unreferred_character(least, name);
        let at = names.index_of(name);
        assert(character_names(before.without_character(name).characters) =~= names.remove(at));
        lemma_remove_key(names, at);
    }
}

/// The constraints survive the removal of an item to which no item instance
/// and no auction refers.
pub proof fn lemma_unreferred_item(before: LedgerView, id: Id)
    requires
        before.wf(),
        item_ids(before.items).contains(id),
        forall|i: int| 0 <= i < before.instances.len() ==> (#[trigger] before.instances[i]).item_id != id,
        forall|i: int| 0 <= i < before.auctions.len() ==> (#[trigger] before.auctions[i]).auctioned_item_id != id,
    ensures
        (LedgerView { items: before.items.remove(item_ids(before.items).index_of(id)), ..before }).wf(),
{
    let ids = item_ids(before.items);
    let at = ids.index_of(id);
    let after = LedgerView { items: before.items.remove(at), ..before };
    assert(item_ids(after.items) =~= ids.remove(at));
    assert(item_names(after.items) =~= item_names(before.items).remove(at));
    lemma_remove_key(ids, at);
    lemma_remove_key(item_names(before.items), at);
    assert forall|i: int| 0 <= i < after.auctions.len() implies after.refers(
        #[trigger] after.auctions[i].auctioned_item_id,
        after.auctions[i].seller_name,
    ) by {
        assert(before.refers(
            before.auctions[i].auctioned_item_id,
            before.auctions[i].seller_name,
        ));
        assert(before.auctions[i].auctioned_item_id != id);
    }
    assert forall|i: int| 0 <= i < after.instances.len() implies after.refers(
        #[trigger] after.instances[i].item_id,
        after.instances[i].owner_name,
    ) by {
        assert(before.refers(before.instances[i].item_id, before.instances[i].owner_name));
        assert(before.instances[i].item_id != id);
    }
    assert forall|i: int| 0 <= i < after.instances.len() implies #[trigger] after.item(
        after.instances[i].item_id,
    )->0.name == after.instances[i].item_name by {
        let wanted = before.instances[i].item_id;
        assert(before.refers(wanted, before.instances[i].owner_name));
        assert(wanted != id);
        assert(before.item(wanted)->0.name == before.instances[i].item_name);
        lemma_index_of_contained(ids, wanted);
        let was = ids.index_of(wanted);
        lemma_index_of_contained(item_ids(after.items), wanted);
        let is = item_ids(after.items).index_of(wanted);
        let back = if is < at {
            is
        } else {
            is + 1
        };
        assert(after.items[is] == before.items[back]);
        assert(ids[back] == wanted);
        lemma_index_of_unique(ids, back);
    }
}

/// The constraints survive the removal of an item with all that refers to
/// it.
pub proof fn lemma_without_item_wf(before: LedgerView, id: Id)
    requires
        before.wf(),
    ensures
        before.without_item(id).wf(),
        before.without_item(id).item(id) is None,
{
    let ids = item_ids(before.items);
    if ids.contains(id) {
        let less = before.without_instances(InstanceFilterView::OfItem(id));
        lemma_without_instances_wf(before, InstanceFilterView::OfItem(id));
        let least = less.without_auctions(AuctionFilterView::Offering(id));
        lemma_without_auctions_wf(less, AuctionFilterView::Offering(id));
        lemma_unreferred_item(least, id);
        let at = ids.index_of(id);
        assert(item_ids(before.without_item(id).items) =~= ids.remove(at));
        lemma_remove_key(ids, at);
    }
}

/// The constraints survive a new name for an item.
pub proof fn lemma_renamed_wf(before: LedgerView, id: Id, name: Seq<char>)
    requires
        before.wf(),
    ensures
        before.renamed(id, name).wf(),
{
    let after = before.renamed(id, name);
    if before.rename_fault(id, name) is None {
        let ids = item_ids(before.items);
        let names = item_names(before.items);
        lemma_index_of_contained(ids, id);
        let at = ids.index_of(id);
        assert(item_ids(after.items) =~= ids);
        assert(item_names(after.items) =~= names.update(at, name));
        assert(instance_ids(after.instances) =~= instance_ids(before.instances));
        let renamed = names.update(at, name);
        assert forall|i: int, j: int|
            0 <= i < renamed.len() && 0 <= j < renamed.len() && i != j implies renamed[i]
            != renamed[j] by {
            if i == at {
                if names[j] == name {
                    assert(names.contains(name));
                    assert(names[at] != names[j]);
                }
            } else if j == at {
                if names[i] == name {
                    assert(names.contains(name));
                    assert(names[at] != names[i]);
                }
            }
        }
        assert forall|i: int| 0 <= i < after.auctions.len() implies after.refers(
            #[trigger] after.auctions[i].auctioned_item_id,
            after.auctions[i].seller_name,
        ) by {
            assert(before.refers(
                before.auctions[i].auctioned_item_id,
                before.auctions[i].seller_name,
            ));
        }
        assert forall|i: int| 0 <= i < after.instances.len() implies after.refers(
            #[trigger] after.instances[i].item_id,
            after.instances[i].owner_name,
        ) by {
            assert(before.refers(before.instances[i].item_id, before.instances[i].owner_name));
        }
        assert forall|i: int| 0 <= i < after.instances.len() implies #[trigger] after.item(
            after.instances[i].item_id,
        )->0.name == after.instances[i].item_name by {
            let wanted = before.instances[i].item_id;
            assert(before.refers(wanted, before.instances[i].owner_name));
            assert(before.item(wanted)->0.name == before.instances[i].item_name);
            lemma_index_of_contained(ids, wanted);
        }
    }
}

} // verus!
