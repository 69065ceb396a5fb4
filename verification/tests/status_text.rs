use auction_house::auction::AuctionStatus;
use auction_house::character::Class;

#[test]
fn auction_status_renders_lowercase() {
    assert_eq!(AuctionStatus::Active.to_string(), "active");
    assert_eq!(AuctionStatus::Sold.to_string(), "sold");
    assert_eq!(AuctionStatus::Expired.to_string(), "expired");
}

#[test]
fn class_renders_lowercase() {
    assert_eq!(Class::Warrior.to_string(), "warrior");
    assert_eq!(Class::Mage.to_string(), "mage");
    assert_eq!(Class::Ranger.to_string(), "ranger");
}

#[test]
fn auction_status_is_read_back() {
    for status in [AuctionStatus::Active, AuctionStatus::Sold, AuctionStatus::Expired] {
        assert_eq!(AuctionStatus::parse(&status.to_string()), Some(status));
    }
    assert_eq!(AuctionStatus::parse("active"), Some(AuctionStatus::Active));
    assert_eq!(AuctionStatus::parse("Active"), None);
    assert_eq!(AuctionStatus::parse("active "), None);
    assert_eq!(AuctionStatus::parse(""), None);
    assert_eq!(AuctionStatus::parse("closed"), None);
}

#[test]
fn class_is_read_back() {
    for class in [Class::Warrior, Class::Mage, Class::Ranger] {
        assert_eq!(Class::parse(&class.to_string()), Some(class));
    }
    assert_eq!(Class::parse("mage"), Some(Class::Mage));
    assert_eq!(Class::parse("MAGE"), None);
    assert_eq!(Class::parse("rogue"), None);
    assert_eq!(Class::parse(""), None);
}
