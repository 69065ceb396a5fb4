use auction_house::auction::{Auction, AuctionStatus};
use auction_house::character::{Character, CharacterGoldUpdate, Class};
use auction_house::errors::Error;
use auction_house::item::{Item, ItemInstance, ItemNameUpdate, NewItem};

fn text(s: &str) -> String {
    s.to_string()
}

fn ann() -> Character {
    Character { name: text("ann"), class: Class::Warrior, gold: 5 }
}

#[test]
fn character_needs_a_name_to_register() {
    assert_eq!(ann().register(), Ok(ann()));
    let nameless = Character { name: text(""), class: Class::Mage, gold: 5 };
    assert_eq!(nameless.register(), Err(Error::EmptyName));
}

#[test]
fn gold_update_replaces_the_balance_only() {
    let mut c = ann();
    c.apply(&CharacterGoldUpdate { gold: 0 });
    assert_eq!(c, Character { name: text("ann"), class: Class::Warrior, gold: 0 });
    c.apply(&CharacterGoldUpdate { gold: u64::MAX });
    assert_eq!(c.gold, u64::MAX);
}

#[test]
fn clones_are_equal() {
    assert_eq!(ann().clone(), ann());
    let item = Item { id: 3, name: text("bow") };
    assert_eq!(item.clone(), item);
    let instance = ItemInstance { id: 4, item_name: text("bow"), item_id: 3, owner_name: text("ann") };
    assert_eq!(instance.clone(), instance);
}

#[test]
fn item_needs_a_name() {
    assert_eq!(Item::with_id(3, NewItem { name: text("bow") }), Ok(Item { id: 3, name: text("bow") }));
    assert_eq!(Item::with_id(3, NewItem { name: text("") }), Err(Error::EmptyName));
    assert_eq!(Item::create(NewItem { name: text("") }), Err(Error::EmptyName));
}

#[test]
fn created_item_has_a_random_identifier() {
    let first = Item::create(NewItem { name: text("bow") }).unwrap();
    let second = Item::create(NewItem { name: text("bow") }).unwrap();
    assert_eq!(first.name, "bow");
    assert_ne!(first.id, second.id);
    for id in [first.id, second.id] {
        assert_eq!((id >> 76) & 0xf, 4);
        assert_eq!((id >> 62) & 0x3, 2);
        assert_eq!(uuid::Uuid::from_u128(id).get_version(), Some(uuid::Version::Random));
    }
}

#[test]
fn rename_keeps_the_identifier() {
    let mut item = Item { id: 3, name: text("bow") };
    item.rename(&ItemNameUpdate { name: text("longbow") });
    assert_eq!(item, Item { id: 3, name: text("longbow") });
}

#[test]
fn instance_copies_item_and_owner() {
    let item = Item { id: 3, name: text("bow") };
    assert_eq!(
        ItemInstance::with_id(8, &item, &ann()),
        ItemInstance { id: 8, item_name: text("bow"), item_id: 3, owner_name: text("ann") }
    );
    let granted = ItemInstance::grant(&item, &ann());
    assert_eq!(granted, ItemInstance::with_id(granted.id, &item, &ann()));
    assert_eq!(uuid::Uuid::from_u128(granted.id).get_version_num(), 4);
}

#[test]
fn opened_auction_closes_a_minute_later() {
    let a = Auction::open(1, 2, text("ann"), 1_000, 100);
    assert_eq!(
        a,
        Auction {
            id: 1,
            auctioned_item_id: 2,
            seller_name: text("ann"),
            creation_date: 1_000,
            end_date: 1_060,
            price: 100,
            status: AuctionStatus::Active,
        }
    );
    assert_eq!(Auction::open(1, 2, text("ann"), i64::MAX - 60, 0).end_date, i64::MAX);
    assert_eq!(Auction::open(1, 2, text("ann"), -30, 0).end_date, 30);
}

#[test]
fn listing_needs_an_owned_instance() {
    let owned = ItemInstance { id: 4, item_name: text("bow"), item_id: 3, owner_name: text("ann") };
    assert_eq!(Auction::list(&ann(), None), Err(Error::ItemInstanceNotFound));
    let before = chrono::Utc::now().timestamp();
    let listed = Auction::list(&ann(), Some(owned)).unwrap();
    let after = chrono::Utc::now().timestamp();
    assert!(before <= listed.creation_date && listed.creation_date <= after);
    assert_eq!(listed, Auction::open(listed.id, 3, text("ann"), listed.creation_date, 100));
    assert_eq!(uuid::Uuid::from_u128(listed.id).get_version_num(), 4);
}

#[test]
fn listing_takes_the_item_from_the_stored_row() {
    // A request may say of instance 4 that it is of item 77; the ledger
    // holds it as an instance of item 3, and that is what is listed.
    let stored = ItemInstance { id: 4, item_name: text("bow"), item_id: 3, owner_name: text("ann") };
    let request = ItemInstance { id: 4, item_name: text("crown"), item_id: 77, owner_name: text("ann") };
    assert_eq!(request.id, stored.id);
    let listed = Auction::list(&ann(), Some(stored)).unwrap();
    assert_eq!(listed.auctioned_item_id, 3);
    assert_ne!(listed.auctioned_item_id, request.item_id);
}

#[test]
fn listing_refuses_a_row_of_another_owner() {
    let of_ben = ItemInstance { id: 4, item_name: text("bow"), item_id: 3, owner_name: text("ben") };
    assert_eq!(Auction::list(&ann(), Some(of_ben)), Err(Error::ItemInstanceNotFound));
}

#[test]
fn open_and_stale_leave_a_gap_at_the_closing_moment() {
    let a = Auction::open(1, 2, text("ann"), 0, 100);
    assert!(a.is_open_at(59));
    assert!(!a.is_stale_at(59));
    assert!(!a.is_open_at(60));
    assert!(!a.is_stale_at(60));
    assert!(!a.is_open_at(61));
    assert!(a.is_stale_at(61));
}

#[test]
fn sweep_expires_a_stale_auction_once() {
    let mut a = Auction::open(1, 2, text("ann"), 0, 100);
    assert!(!a.sweep(60));
    assert_eq!(a.status, AuctionStatus::Active);
    assert!(a.sweep(61));
    assert_eq!(a.status, AuctionStatus::Expired);
    assert!(!a.sweep(61));
    assert!(!a.sweep(1_000));
    assert_eq!(a, Auction { status: AuctionStatus::Expired, ..Auction::open(1, 2, text("ann"), 0, 100) });
}

#[test]
fn sweep_leaves_a_sold_auction() {
    let mut a = Auction { status: AuctionStatus::Sold, ..Auction::open(1, 2, text("ann"), 0, 100) };
    assert!(!a.sweep(1_000));
    assert_eq!(a.status, AuctionStatus::Sold);
    assert!(!a.is_open_at(0));
    assert!(!a.is_stale_at(1_000));
}
