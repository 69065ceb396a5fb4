use auction_house::auction::{Auction, AuctionStatus, AuctionStatusQuery};
use auction_house::character::{Character, Class};
use auction_house::errors::Error;
use auction_house::item::{Item, ItemInstance};
use auction_house::ledger::Ledger;

const SWORD: u128 = 0x1000;
const SWORD_OF_A: u128 = 0x2000;
const LISTING: u128 = 0x3000;

fn named(name: &str) -> String {
    name.to_string()
}

fn hero(name: &str, gold: u64) -> Character {
    Character { name: named(name), class: Class::Mage, gold }
}

fn sword_of_a() -> ItemInstance {
    ItemInstance { id: SWORD_OF_A, item_name: named("sword"), item_id: SWORD, owner_name: named("a") }
}

/// A ledger with the characters a (500), b (200) and c (1000), the item
/// "sword", and one sword that a owns.
fn market() -> Ledger {
    let mut ledger = Ledger::new();
    ledger.register_character(hero("a", 500)).unwrap();
    ledger.register_character(hero("b", 200)).unwrap();
    ledger.register_character(hero("c", 1_000)).unwrap();
    ledger.add_item(Item { id: SWORD, name: named("sword") }).unwrap();
    ledger.add_instance(sword_of_a()).unwrap();
    ledger
}

fn gold_of(ledger: &Ledger, name: &str) -> u64 {
    ledger.get_character(&named(name)).unwrap().gold
}

fn status_of(ledger: &Ledger, id: u128) -> AuctionStatus {
    ledger.get_auction(id).unwrap().status
}

#[test]
fn listing_is_bought_once_and_refused_after() {
    let now = 1_700_000_000;
    let mut ledger = market();
    let listed = ledger.list_item_at(&named("a"), SWORD_OF_A, LISTING, now).unwrap();
    assert_eq!(listed.price, 100);
    assert_eq!(listed.end_date, now + 60);
    assert_eq!(listed.status, AuctionStatus::Active);

    let sold = ledger.purchase_at(LISTING, &named("b"), now + 30).unwrap();
    assert_eq!(sold.status, AuctionStatus::Sold);
    assert_eq!(sold.price, 100);
    assert_eq!(gold_of(&ledger, "b"), 100);
    assert_eq!(gold_of(&ledger, "a"), 600);
    assert_eq!(status_of(&ledger, LISTING), AuctionStatus::Sold);

    assert_eq!(ledger.purchase_at(LISTING, &named("c"), now + 31), Err(Error::AuctionNotActive));
    assert_eq!(gold_of(&ledger, "c"), 1_000);
    assert_eq!(gold_of(&ledger, "a"), 600);
    assert_eq!(status_of(&ledger, LISTING), AuctionStatus::Sold);
}

#[test]
fn listing_that_closed_before_now_is_refused() {
    let now = 1_700_000_000;
    let mut ledger = market();
    ledger.list_item_at(&named("a"), SWORD_OF_A, LISTING, now - 61).unwrap();
    assert_eq!(ledger.get_auction(LISTING).unwrap().end_date, now - 1);
    assert_eq!(ledger.purchase_at(LISTING, &named("b"), now), Err(Error::AuctionNotActive));
    assert_eq!(gold_of(&ledger, "a"), 500);
    assert_eq!(gold_of(&ledger, "b"), 200);
    // The row still says active: the time alone decided.
    assert_eq!(status_of(&ledger, LISTING), AuctionStatus::Active);
}

#[test]
fn seller_cannot_buy_own_listing() {
    let mut ledger = market();
    ledger.list_item_at(&named("a"), SWORD_OF_A, LISTING, 0).unwrap();
    assert_eq!(ledger.purchase_at(LISTING, &named("a"), 1), Err(Error::IncorrectBuyer));
    assert_eq!(gold_of(&ledger, "a"), 500);
    assert_eq!(status_of(&ledger, LISTING), AuctionStatus::Active);
}

#[test]
fn buyer_without_funds_is_refused() {
    let mut ledger = Ledger::new();
    ledger.register_character(hero("a", 500)).unwrap();
    ledger.register_character(hero("b", 50)).unwrap();
    ledger.add_item(Item { id: SWORD, name: named("sword") }).unwrap();
    ledger.add_instance(sword_of_a()).unwrap();
    ledger.list_item_at(&named("a"), SWORD_OF_A, LISTING, 0).unwrap();
    assert_eq!(ledger.purchase_at(LISTING, &named("b"), 1), Err(Error::InsufficientGold));
    assert_eq!(gold_of(&ledger, "a"), 500);
    assert_eq!(gold_of(&ledger, "b"), 50);
    assert_eq!(status_of(&ledger, LISTING), AuctionStatus::Active);
}

#[test]
fn purchase_names_what_is_missing() {
    let mut ledger = market();
    assert_eq!(ledger.purchase_at(LISTING, &named("b"), 0), Err(Error::AuctionNotFound));
    assert_eq!(ledger.purchase_at(LISTING, &named("nobody"), 0), Err(Error::AuctionNotFound));
    ledger.list_item_at(&named("a"), SWORD_OF_A, LISTING, 0).unwrap();
    assert_eq!(ledger.purchase_at(LISTING, &named("nobody"), 0), Err(Error::CharacterNotFound));
}

#[test]
fn of_two_buyers_one_wins() {
    for (first, second) in [("b", "c"), ("c", "b")] {
        let mut ledger = market();
        ledger.list_item_at(&named("a"), SWORD_OF_A, LISTING, 0).unwrap();
        let before = ledger.gold();
        assert!(ledger.purchase_at(LISTING, &named(first), 10).is_ok());
        let loser_gold = gold_of(&ledger, second);
        assert_eq!(ledger.purchase_at(LISTING, &named(second), 10), Err(Error::AuctionNotActive));
        assert_eq!(gold_of(&ledger, second), loser_gold);
        assert_eq!(gold_of(&ledger, "a"), 600);
        assert_eq!(ledger.gold(), before);
    }
}

#[test]
fn gold_is_conserved_by_every_purchase() {
    let mut ledger = market();
    ledger.list_item_at(&named("a"), SWORD_OF_A, LISTING, 0).unwrap();
    assert_eq!(ledger.gold(), 1_700);
    let _ = ledger.purchase_at(LISTING, &named("a"), 1);
    assert_eq!(ledger.gold(), 1_700);
    let _ = ledger.purchase_at(LISTING, &named("b"), 1);
    assert_eq!(ledger.gold(), 1_700);
    let _ = ledger.purchase_at(LISTING, &named("c"), 1);
    assert_eq!(ledger.gold(), 1_700);
    assert_eq!(gold_of(&ledger, "a") + gold_of(&ledger, "b"), 700);
}

#[test]
fn sweep_expires_what_is_stale_and_nothing_else() {
    let mut ledger = market();
    ledger.list_item_at(&named("a"), SWORD_OF_A, 1, 0).unwrap();
    ledger.list_item_at(&named("a"), SWORD_OF_A, 2, 100).unwrap();
    ledger.list_item_at(&named("a"), SWORD_OF_A, 3, 200).unwrap();
    ledger.purchase_at(1, &named("b"), 10).unwrap();
    // Closing times 60, 160 and 260; the first is sold.
    assert_eq!(ledger.mark_expired_batch(160), 0);
    assert_eq!(status_of(&ledger, 2), AuctionStatus::Active);
    assert_eq!(ledger.mark_expired_batch(161), 1);
    assert_eq!(status_of(&ledger, 1), AuctionStatus::Sold);
    assert_eq!(status_of(&ledger, 2), AuctionStatus::Expired);
    assert_eq!(status_of(&ledger, 3), AuctionStatus::Active);
    assert_eq!(ledger.gold(), 1_700);
}

#[test]
fn second_sweep_finds_nothing() {
    let mut ledger = market();
    ledger.list_item_at(&named("a"), SWORD_OF_A, 1, 0).unwrap();
    ledger.list_item_at(&named("a"), SWORD_OF_A, 2, 5).unwrap();
    ledger.list_item_at(&named("a"), SWORD_OF_A, 3, 500).unwrap();
    assert_eq!(ledger.mark_expired_batch(100), 2);
    let after_first = ledger.list_auctions(&AuctionStatusQuery { status: None });
    assert_eq!(ledger.mark_expired_batch(100), 0);
    assert_eq!(ledger.list_auctions(&AuctionStatusQuery { status: None }), after_first);
}

#[test]
fn expired_auction_cannot_be_bought() {
    let mut ledger = market();
    ledger.list_item_at(&named("a"), SWORD_OF_A, LISTING, 0).unwrap();
    assert_eq!(ledger.mark_expired_batch(61), 1);
    // Even at a moment before the closing time.
    assert_eq!(ledger.purchase_at(LISTING, &named("b"), 30), Err(Error::AuctionNotActive));
    assert_eq!(status_of(&ledger, LISTING), AuctionStatus::Expired);
    assert_eq!(gold_of(&ledger, "b"), 200);
}

#[test]
fn sold_auction_is_not_expired_by_a_sweep() {
    let mut ledger = market();
    ledger.list_item_at(&named("a"), SWORD_OF_A, LISTING, 0).unwrap();
    ledger.purchase_at(LISTING, &named("b"), 59).unwrap();
    assert_eq!(ledger.mark_expired_batch(1_000), 0);
    assert_eq!(status_of(&ledger, LISTING), AuctionStatus::Sold);
}

#[test]
fn mark_sold_changes_an_active_row_once() {
    let mut ledger = market();
    ledger.list_item_at(&named("a"), SWORD_OF_A, LISTING, 0).unwrap();
    assert_eq!(ledger.mark_sold(LISTING + 1), 0);
    assert_eq!(ledger.mark_sold(LISTING), 1);
    assert_eq!(status_of(&ledger, LISTING), AuctionStatus::Sold);
    assert_eq!(ledger.mark_sold(LISTING), 0);
    assert_eq!(status_of(&ledger, LISTING), AuctionStatus::Sold);
}

#[test]
fn mark_sold_leaves_an_expired_row() {
    let mut ledger = market();
    ledger.list_item_at(&named("a"), SWORD_OF_A, LISTING, 0).unwrap();
    ledger.mark_expired_batch(61);
    assert_eq!(ledger.mark_sold(LISTING), 0);
    assert_eq!(status_of(&ledger, LISTING), AuctionStatus::Expired);
}

#[test]
fn purchase_reads_the_clock() {
    let mut ledger = market();
    // Closes in the year 2286: open whenever this runs before then.
    let far = Auction {
        id: 1,
        auctioned_item_id: SWORD,
        seller_name: named("a"),
        creation_date: 0,
        end_date: 9_999_999_999,
        price: 10,
        status: AuctionStatus::Active,
    };
    // Closed in 1970.
    let past = Auction { id: 2, end_date: 60, ..far.clone() };
    ledger.create_auction(far).unwrap();
    ledger.create_auction(past).unwrap();
    assert_eq!(ledger.purchase(2, &named("b")), Err(Error::AuctionNotActive));
    assert_eq!(ledger.purchase(1, &named("b")).unwrap().status, AuctionStatus::Sold);
    assert_eq!(gold_of(&ledger, "b"), 190);
    assert_eq!(gold_of(&ledger, "a"), 510);
}

#[test]
fn sweep_reads_the_clock() {
    let mut ledger = market();
    ledger.list_item_at(&named("a"), SWORD_OF_A, 1, 0).unwrap();
    ledger.list_item_at(&named("a"), SWORD_OF_A, 2, 9_999_999_000).unwrap();
    assert_eq!(ledger.sweep(), 1);
    assert_eq!(status_of(&ledger, 1), AuctionStatus::Expired);
    assert_eq!(status_of(&ledger, 2), AuctionStatus::Active);
    assert_eq!(ledger.sweep(), 0);
}

#[test]
fn list_item_draws_identifier_and_time() {
    let mut ledger = market();
    let before = chrono::Utc::now().timestamp();
    let first = ledger.list_item(&named("a"), SWORD_OF_A).unwrap();
    let second = ledger.list_item(&named("a"), SWORD_OF_A).unwrap();
    let after = chrono::Utc::now().timestamp();
    assert_ne!(first.id, second.id);
    assert!(before <= first.creation_date && first.creation_date <= after);
    assert_eq!(first.end_date, first.creation_date + 60);
    assert_eq!(first.price, 100);
    assert_eq!(first.auctioned_item_id, SWORD);
    assert_eq!(first.seller_name, "a");
    assert_eq!(first.status, AuctionStatus::Active);
    assert_eq!(uuid::Uuid::from_u128(first.id).get_version_num(), 4);
    assert_eq!(ledger.get_auction(first.id), Some(first));
}

#[test]
fn two_purchases_on_one_snapshot_are_settled_by_the_conditional_write() {
    use_snapshot(|ledger, snapshot| {
        let now = 10;
        // Both buyers are judged on the same reading of the auction.
        let for_b = auction_house::purchase::purchase(
            Some(snapshot.clone()),
            ledger.get_character(&named("b")),
            ledger.get_character(&named("a")),
            now,
        )
        .unwrap();
        let for_c = auction_house::purchase::purchase(
            Some(snapshot.clone()),
            ledger.get_character(&named("c")),
            ledger.get_character(&named("a")),
            now,
        )
        .unwrap();
        let first = ledger.mark_sold(snapshot.id);
        let second = ledger.mark_sold(snapshot.id);
        assert_eq!((first, second), (1, 0));
        let kept = auction_house::purchase::confirm(for_b, first).unwrap();
        assert_eq!(kept.auction.status, AuctionStatus::Sold);
        assert_eq!((kept.buyer.gold, kept.seller.gold), (100, 600));
        assert_eq!(auction_house::purchase::confirm(for_c, second), Err(Error::AuctionNotActive));
    });
}

fn use_snapshot(body: fn(&mut Ledger, Auction)) {
    let mut ledger = market();
    let snapshot = ledger.list_item_at(&named("a"), SWORD_OF_A, LISTING, 0).unwrap();
    body(&mut ledger, snapshot);
}
