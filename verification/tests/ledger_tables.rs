use auction_house::auction::{Auction, AuctionFilter, AuctionStatus, AuctionStatusQuery};
use auction_house::character::{Character, CharacterGoldUpdate, Class};
use auction_house::errors::{Constraint, Error};
use auction_house::item::{Item, ItemInstance};
use auction_house::ledger::Ledger;

fn text(s: &str) -> String {
    s.to_string()
}

fn hero(name: &str, gold: u64) -> Character {
    Character { name: text(name), class: Class::Ranger, gold }
}

fn item(id: u128, name: &str) -> Item {
    Item { id, name: text(name) }
}

fn instance(id: u128, item_id: u128, item_name: &str, owner: &str) -> ItemInstance {
    ItemInstance { id, item_name: text(item_name), item_id, owner_name: text(owner) }
}

fn auction(id: u128, item_id: u128, seller: &str, status: AuctionStatus) -> Auction {
    Auction {
        id,
        auctioned_item_id: item_id,
        seller_name: text(seller),
        creation_date: 10,
        end_date: 70,
        price: 25,
        status,
    }
}

fn stocked() -> Ledger {
    let mut ledger = Ledger::new();
    ledger.register_character(hero("ann", 10)).unwrap();
    ledger.register_character(hero("ben", 20)).unwrap();
    ledger.add_item(item(1, "bow")).unwrap();
    ledger.add_item(item(2, "axe")).unwrap();
    ledger.add_instance(instance(11, 1, "bow", "ann")).unwrap();
    ledger.add_instance(instance(12, 2, "axe", "ann")).unwrap();
    ledger.add_instance(instance(13, 1, "bow", "ben")).unwrap();
    ledger
}

#[test]
fn new_ledger_is_empty() {
    let ledger = Ledger::new();
    assert_eq!(ledger.get_characters(), vec![]);
    assert_eq!(ledger.get_items(), vec![]);
    assert_eq!(ledger.find_auctions(&AuctionFilter::Any), vec![]);
    assert_eq!(ledger.gold(), 0);
}

#[test]
fn registration_keeps_order_and_values() {
    let ledger = stocked();
    assert_eq!(ledger.get_characters(), vec![hero("ann", 10), hero("ben", 20)]);
    assert_eq!(ledger.get_character(&text("ben")), Some(hero("ben", 20)));
    assert_eq!(ledger.get_character(&text("Ben")), None);
    assert_eq!(ledger.gold(), 30);
}

#[test]
fn registration_refuses_an_empty_name() {
    let mut ledger = stocked();
    assert_eq!(ledger.register_character(hero("", 1)), Err(Error::EmptyName));
    assert_eq!(ledger.get_characters().len(), 2);
}

#[test]
fn registration_refuses_a_taken_name() {
    let mut ledger = stocked();
    assert_eq!(ledger.register_character(hero("ann", 1)), Err(Constraint::Unique.into_error()));
    assert_eq!(ledger.get_character(&text("ann")), Some(hero("ann", 10)));
}

#[test]
fn registration_refuses_gold_that_does_not_fit() {
    let mut ledger = stocked();
    assert_eq!(
        ledger.register_character(hero("cat", u64::MAX - 29)),
        Err(Constraint::Check.into_error())
    );
    assert_eq!(ledger.register_character(hero("cat", u64::MAX - 30)), Ok(hero("cat", u64::MAX - 30)));
    assert_eq!(ledger.gold(), u64::MAX);
    assert_eq!(ledger.register_character(hero("dan", 1)), Err(Constraint::Check.into_error()));
    assert_eq!(ledger.register_character(hero("dan", 0)), Ok(hero("dan", 0)));
}

#[test]
fn set_gold_replaces_the_balance() {
    let mut ledger = stocked();
    let update = CharacterGoldUpdate { gold: 99 };
    assert_eq!(ledger.set_gold(&text("ann"), &update), Ok(hero("ann", 99)));
    assert_eq!(ledger.get_character(&text("ann")), Some(hero("ann", 99)));
    assert_eq!(ledger.get_character(&text("ben")), Some(hero("ben", 20)));
    assert_eq!(ledger.gold(), 119);
}

#[test]
fn set_gold_names_a_missing_character() {
    let mut ledger = stocked();
    let update = CharacterGoldUpdate { gold: 99 };
    assert_eq!(ledger.set_gold(&text("zed"), &update), Err(Error::CharacterNotFound));
    assert_eq!(ledger.gold(), 30);
}

#[test]
fn set_gold_refuses_gold_that_does_not_fit() {
    let mut ledger = stocked();
    let too_much = CharacterGoldUpdate { gold: u64::MAX - 19 };
    assert_eq!(ledger.set_gold(&text("ann"), &too_much), Err(Constraint::Check.into_error()));
    let just_fits = CharacterGoldUpdate { gold: u64::MAX - 20 };
    assert_eq!(ledger.set_gold(&text("ann"), &just_fits), Ok(hero("ann", u64::MAX - 20)));
    assert_eq!(ledger.gold(), u64::MAX);
}

#[test]
fn catalogue_refuses_duplicates_and_empty_names() {
    let mut ledger = stocked();
    assert_eq!(ledger.add_item(item(3, "")), Err(Error::EmptyName));
    assert_eq!(ledger.add_item(item(1, "sling")), Err(Constraint::Unique.into_error()));
    assert_eq!(ledger.add_item(item(3, "bow")), Err(Constraint::Unique.into_error()));
    assert_eq!(ledger.add_item(item(3, "sling")), Ok(item(3, "sling")));
    assert_eq!(ledger.get_items(), vec![item(1, "bow"), item(2, "axe"), item(3, "sling")]);
    assert_eq!(ledger.get_item(2), Some(item(2, "axe")));
    assert_eq!(ledger.get_item(4), None);
}

#[test]
fn instance_needs_its_item_and_its_owner() {
    let mut ledger = stocked();
    assert_eq!(
        ledger.add_instance(instance(11, 1, "bow", "ben")),
        Err(Constraint::Unique.into_error())
    );
    assert_eq!(
        ledger.add_instance(instance(14, 9, "bow", "ben")),
        Err(Constraint::ForeignKey.into_error())
    );
    assert_eq!(
        ledger.add_instance(instance(14, 1, "bow", "zed")),
        Err(Constraint::ForeignKey.into_error())
    );
    assert_eq!(
        ledger.add_instance(instance(14, 1, "axe", "ben")),
        Err(Constraint::ForeignKey.into_error())
    );
    assert_eq!(ledger.add_instance(instance(14, 2, "axe", "ben")), Ok(instance(14, 2, "axe", "ben")));
}

#[test]
fn instances_are_found_by_owner() {
    let ledger = stocked();
    assert_eq!(
        ledger.get_character_items(&text("ann")),
        vec![instance(11, 1, "bow", "ann"), instance(12, 2, "axe", "ann")]
    );
    assert_eq!(ledger.get_character_items(&text("ben")), vec![instance(13, 1, "bow", "ben")]);
    assert_eq!(ledger.get_character_items(&text("zed")), vec![]);
    assert_eq!(ledger.get_character_item(&text("ann"), 12), Some(instance(12, 2, "axe", "ann")));
    assert_eq!(ledger.get_character_item(&text("ben"), 12), None);
    assert_eq!(ledger.get_character_item(&text("ann"), 99), None);
    assert_eq!(ledger.get_instance(13), Some(instance(13, 1, "bow", "ben")));
    assert_eq!(ledger.get_instance(99), None);
}

#[test]
fn deleting_an_instance_removes_that_row_only() {
    let mut ledger = stocked();
    assert_eq!(ledger.delete_instance(99), Err(Error::ItemInstanceNotFound));
    assert_eq!(ledger.delete_instance(11), Ok(instance(11, 1, "bow", "ann")));
    assert_eq!(ledger.get_instance(11), None);
    assert_eq!(ledger.get_character_items(&text("ann")), vec![instance(12, 2, "axe", "ann")]);
    assert_eq!(ledger.delete_instance(11), Err(Error::ItemInstanceNotFound));
}

#[test]
fn auction_is_written_as_active() {
    let mut ledger = stocked();
    let written = ledger.create_auction(auction(21, 1, "ann", AuctionStatus::Sold)).unwrap();
    assert_eq!(written, auction(21, 1, "ann", AuctionStatus::Active));
    assert_eq!(ledger.get_auction(21), Some(auction(21, 1, "ann", AuctionStatus::Active)));
}

#[test]
fn auction_needs_a_free_identifier_an_item_and_a_seller() {
    let mut ledger = stocked();
    ledger.create_auction(auction(21, 1, "ann", AuctionStatus::Active)).unwrap();
    assert_eq!(
        ledger.create_auction(auction(21, 2, "ben", AuctionStatus::Active)),
        Err(Constraint::Unique.into_error())
    );
    assert_eq!(
        ledger.create_auction(auction(22, 9, "ben", AuctionStatus::Active)),
        Err(Constraint::ForeignKey.into_error())
    );
    assert_eq!(
        ledger.create_auction(auction(22, 2, "zed", AuctionStatus::Active)),
        Err(Constraint::ForeignKey.into_error())
    );
    assert_eq!(ledger.find_auctions(&AuctionFilter::Any).len(), 1);
}

#[test]
fn listing_needs_the_seller_and_the_instance() {
    let mut ledger = stocked();
    assert_eq!(ledger.list_item_at(&text("zed"), 11, 21, 0), Err(Error::CharacterNotFound));
    // Instance 11 is Ann's, not Ben's.
    assert_eq!(ledger.list_item_at(&text("ben"), 11, 21, 0), Err(Error::ItemInstanceNotFound));
    assert_eq!(ledger.list_item_at(&text("ann"), 99, 21, 0), Err(Error::ItemInstanceNotFound));
    let listed = ledger.list_item_at(&text("ann"), 11, 21, 1_000).unwrap();
    assert_eq!(
        listed,
        Auction {
            id: 21,
            auctioned_item_id: 1,
            seller_name: text("ann"),
            creation_date: 1_000,
            end_date: 1_060,
            price: 100,
            status: AuctionStatus::Active,
        }
    );
    assert_eq!(ledger.list_item_at(&text("ann"), 11, 21, 2_000), Err(Constraint::Unique.into_error()));
}

#[test]
fn listing_names_the_item_of_the_stored_instance() {
    let mut ledger = stocked();
    // Ann owns instance 11, a bow (item 1), and instance 12, an axe (item 2).
    assert_eq!(ledger.list_item_at(&text("ann"), 11, 21, 0).unwrap().auctioned_item_id, 1);
    assert_eq!(ledger.list_item_at(&text("ann"), 12, 22, 0).unwrap().auctioned_item_id, 2);
    assert_eq!(ledger.list_item_at(&text("ben"), 13, 23, 0).unwrap().auctioned_item_id, 1);
    assert_eq!(ledger.get_item_auctions(1).len(), 2);
    assert_eq!(ledger.get_item_auctions(2).len(), 1);
}

#[test]
fn auctions_are_filtered_in_table_order() {
    let mut ledger = stocked();
    ledger.create_auction(auction(21, 1, "ann", AuctionStatus::Active)).unwrap();
    ledger.create_auction(auction(22, 2, "ann", AuctionStatus::Active)).unwrap();
    ledger.create_auction(auction(23, 1, "ben", AuctionStatus::Active)).unwrap();
    ledger.create_auction(Auction { end_date: 500, ..auction(24, 2, "ben", AuctionStatus::Active) }).unwrap();
    ledger.mark_sold(22);
    assert_eq!(ledger.mark_expired_batch(100), 2);
    let ids = |rows: Vec<Auction>| rows.iter().map(|a| a.id).collect::<Vec<u128>>();
    assert_eq!(ids(ledger.list_auctions(&AuctionStatusQuery { status: None })), vec![21, 22, 23, 24]);
    assert_eq!(
        ids(ledger.list_auctions(&AuctionStatusQuery { status: Some(AuctionStatus::Expired) })),
        vec![21, 23]
    );
    assert_eq!(
        ids(ledger.list_auctions(&AuctionStatusQuery { status: Some(AuctionStatus::Sold) })),
        vec![22]
    );
    assert_eq!(
        ids(ledger.list_auctions(&AuctionStatusQuery { status: Some(AuctionStatus::Active) })),
        vec![24]
    );
    assert_eq!(ids(ledger.get_character_auctions(&text("ben"))), vec![23, 24]);
    assert_eq!(ids(ledger.get_character_auctions(&text("zed"))), Vec::<u128>::new());
    assert_eq!(ids(ledger.get_item_auctions(2)), vec![22, 24]);
    assert_eq!(ids(ledger.find_auctions(&AuctionFilter::SoldBy(text("ann")))), vec![21, 22]);
    assert_eq!(ids(ledger.find_auctions(&AuctionFilter::Offering(1))), vec![21, 23]);
}

#[test]
fn deleting_an_auction_ignores_its_state() {
    let mut ledger = stocked();
    ledger.create_auction(auction(21, 1, "ann", AuctionStatus::Active)).unwrap();
    ledger.create_auction(auction(22, 2, "ann", AuctionStatus::Active)).unwrap();
    ledger.mark_sold(21);
    assert_eq!(ledger.delete_auction(99), Err(Error::AuctionNotFound));
    assert_eq!(ledger.delete_auction(21), Ok(auction(21, 1, "ann", AuctionStatus::Sold)));
    assert_eq!(ledger.delete_auction(22), Ok(auction(22, 2, "ann", AuctionStatus::Active)));
    assert_eq!(ledger.get_auction(21), None);
    assert_eq!(ledger.find_auctions(&AuctionFilter::Any), vec![]);
}

#[test]
fn status_query_stands_for_a_filter() {
    assert_eq!(AuctionStatusQuery { status: None }.filter(), AuctionFilter::Any);
    assert_eq!(
        AuctionStatusQuery { status: Some(AuctionStatus::Sold) }.filter(),
        AuctionFilter::InState(AuctionStatus::Sold)
    );
    let row = auction(1, 2, "ann", AuctionStatus::Expired);
    assert!(AuctionFilter::Any.admits(&row));
    assert!(AuctionFilter::InState(AuctionStatus::Expired).admits(&row));
    assert!(!AuctionFilter::InState(AuctionStatus::Active).admits(&row));
    assert!(AuctionFilter::SoldBy(text("ann")).admits(&row));
    assert!(!AuctionFilter::SoldBy(text("an")).admits(&row));
    assert!(AuctionFilter::Offering(2).admits(&row));
    assert!(!AuctionFilter::Offering(1).admits(&row));
}

#[test]
fn deleting_a_character_takes_its_rows_along() {
    let mut ledger = stocked();
    ledger.create_auction(auction(21, 1, "ann", AuctionStatus::Active)).unwrap();
    ledger.create_auction(auction(22, 2, "ben", AuctionStatus::Active)).unwrap();
    ledger.create_auction(auction(23, 1, "ann", AuctionStatus::Active)).unwrap();
    ledger.mark_sold(23);
    assert_eq!(ledger.delete_character(&text("zed")), Err(Error::CharacterNotFound));
    assert_eq!(ledger.delete_character(&text("ann")), Ok(hero("ann", 10)));
    assert_eq!(ledger.get_characters(), vec![hero("ben", 20)]);
    assert_eq!(ledger.get_character_items(&text("ann")), vec![]);
    assert_eq!(ledger.get_instance(11), None);
    assert_eq!(ledger.get_instance(12), None);
    assert_eq!(ledger.get_instance(13), Some(instance(13, 1, "bow", "ben")));
    assert_eq!(ledger.find_auctions(&AuctionFilter::Any), vec![auction(22, 2, "ben", AuctionStatus::Active)]);
    assert_eq!(ledger.gold(), 20);
    assert_eq!(ledger.get_items().len(), 2);
    assert_eq!(ledger.delete_character(&text("ann")), Err(Error::CharacterNotFound));
    // The name is free again.
    assert_eq!(ledger.register_character(hero("ann", 1)), Ok(hero("ann", 1)));
}

#[test]
fn deleting_an_item_takes_its_rows_along() {
    let mut ledger = stocked();
    ledger.create_auction(auction(21, 1, "ann", AuctionStatus::Active)).unwrap();
    ledger.create_auction(auction(22, 2, "ben", AuctionStatus::Active)).unwrap();
    assert_eq!(ledger.delete_item(9), Err(Error::ItemNotFound));
    assert_eq!(ledger.delete_item(1), Ok(item(1, "bow")));
    assert_eq!(ledger.get_items(), vec![item(2, "axe")]);
    assert_eq!(ledger.get_character_items(&text("ann")), vec![instance(12, 2, "axe", "ann")]);
    assert_eq!(ledger.get_character_items(&text("ben")), vec![]);
    assert_eq!(ledger.find_auctions(&AuctionFilter::Any), vec![auction(22, 2, "ben", AuctionStatus::Active)]);
    assert_eq!(ledger.get_characters().len(), 2);
    assert_eq!(ledger.gold(), 30);
}

#[test]
fn renaming_an_item_renames_its_instances() {
    use_rename(|ledger| {
        assert_eq!(ledger.rename_item(1, &new_name("longbow")), Ok(item(1, "longbow")));
        assert_eq!(ledger.get_item(1), Some(item(1, "longbow")));
        assert_eq!(ledger.get_instance(11), Some(instance(11, 1, "longbow", "ann")));
        assert_eq!(ledger.get_instance(12), Some(instance(12, 2, "axe", "ann")));
        assert_eq!(ledger.get_instance(13), Some(instance(13, 1, "longbow", "ben")));
        // A new instance has to carry the new name.
        assert_eq!(
            ledger.add_instance(instance(14, 1, "bow", "ben")),
            Err(Constraint::ForeignKey.into_error())
        );
        assert_eq!(
            ledger.add_instance(instance(14, 1, "longbow", "ben")),
            Ok(instance(14, 1, "longbow", "ben"))
        );
    });
}

#[test]
fn renaming_an_item_has_its_refusals() {
    use_rename(|ledger| {
        assert_eq!(ledger.rename_item(9, &new_name("sling")), Err(Error::ItemNotFound));
        assert_eq!(ledger.rename_item(9, &new_name("")), Err(Error::ItemNotFound));
        assert_eq!(ledger.rename_item(1, &new_name("")), Err(Error::EmptyName));
        assert_eq!(ledger.rename_item(1, &new_name("axe")), Err(Constraint::Unique.into_error()));
        assert_eq!(ledger.get_items(), vec![item(1, "bow"), item(2, "axe")]);
        // Its own name is not taken by another.
        assert_eq!(ledger.rename_item(1, &new_name("bow")), Ok(item(1, "bow")));
        assert_eq!(ledger.get_instance(11), Some(instance(11, 1, "bow", "ann")));
    });
}

fn new_name(name: &str) -> auction_house::item::ItemNameUpdate {
    auction_house::item::ItemNameUpdate { name: text(name) }
}

fn use_rename(body: fn(&mut Ledger)) {
    let mut ledger = stocked();
    body(&mut ledger);
}

#[test]
fn instances_are_found_by_item() {
    let ledger = stocked();
    let of_bow = auction_house::item::InstanceFilter::OfItem(1);
    assert_eq!(
        ledger.find_instances(&of_bow),
        vec![instance(11, 1, "bow", "ann"), instance(13, 1, "bow", "ben")]
    );
    assert!(of_bow.admits(&instance(11, 1, "bow", "ann")));
    assert!(!of_bow.admits(&instance(12, 2, "axe", "ann")));
    let of_ben = auction_house::item::InstanceFilter::HeldBy(text("ben"));
    assert!(of_ben.admits(&instance(13, 1, "bow", "ben")));
    assert!(!of_ben.admits(&instance(11, 1, "bow", "ann")));
}
