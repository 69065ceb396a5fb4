use auction_house::auction::{Auction, AuctionStatus};
use auction_house::character::{Character, Class};
use auction_house::errors::Error;
use auction_house::guard::{
    auction_exists, character_and_auction_exist, character_and_item_exist,
    character_and_item_instance_exist, character_exists, item_exists,
    item_instance_and_auction_exist, resolve, resolve_both, Stop,
};
use auction_house::item::{Item, ItemInstance};

/// A failure of some store.
#[derive(Debug, PartialEq, Eq)]
struct Down(&'static str);

type Lookup<T> = Result<Option<T>, Down>;

fn ann() -> Character {
    Character { name: "ann".to_string(), class: Class::Mage, gold: 1 }
}

fn bow() -> Item {
    Item { id: 1, name: "bow".to_string() }
}

fn bow_of_ann() -> ItemInstance {
    ItemInstance { id: 2, item_name: "bow".to_string(), item_id: 1, owner_name: "ann".to_string() }
}

fn listing() -> Auction {
    Auction {
        id: 3,
        auctioned_item_id: 1,
        seller_name: "ann".to_string(),
        creation_date: 0,
        end_date: 60,
        price: 100,
        status: AuctionStatus::Active,
    }
}

fn missing<T>() -> Lookup<T> {
    Ok(None)
}

fn down<T>() -> Lookup<T> {
    Err(Down("connection reset"))
}

#[test]
fn one_lookup_has_three_outcomes() {
    assert_eq!(character_exists(Ok::<_, Down>(Some(ann()))), Ok(ann()));
    assert_eq!(character_exists(missing()), Err(Stop::Refused(Error::CharacterNotFound)));
    assert_eq!(character_exists(down()), Err(Stop::Failed(Down("connection reset"))));
    assert_eq!(item_exists(Ok::<_, Down>(Some(bow()))), Ok(bow()));
    assert_eq!(item_exists(missing()), Err(Stop::Refused(Error::ItemNotFound)));
    assert_eq!(item_exists(down()), Err(Stop::Failed(Down("connection reset"))));
    assert_eq!(auction_exists(Ok::<_, Down>(Some(listing()))), Ok(listing()));
    assert_eq!(auction_exists(missing()), Err(Stop::Refused(Error::AuctionNotFound)));
    assert_eq!(auction_exists(down()), Err(Stop::Failed(Down("connection reset"))));
}

#[test]
fn a_failure_is_handed_on_as_it_came() {
    let failure = Error::Libsql("table auctions is locked".to_string());
    assert_eq!(
        auction_exists(Err(Error::Libsql("table auctions is locked".to_string()))),
        Err(Stop::Failed(failure))
    );
    assert_eq!(character_exists(Err(404u16)), Err(Stop::Failed(404u16)));
}

#[test]
fn resolve_uses_the_refusal_it_is_given() {
    assert_eq!(
        resolve(missing::<u8>(), Error::ItemInstanceNotFound),
        Err(Stop::Refused(Error::ItemInstanceNotFound))
    );
    assert_eq!(resolve(Ok::<_, Down>(Some(7u8)), Error::ItemInstanceNotFound), Ok(7));
}

#[test]
fn the_first_lookup_decides_first() {
    let no_character = Err(Stop::Refused(Error::CharacterNotFound));
    let failed = Err(Stop::Failed(Down("connection reset")));
    assert_eq!(character_and_item_exist(missing(), missing()), no_character);
    assert_eq!(character_and_item_exist(missing(), down()), no_character);
    assert_eq!(character_and_item_exist(down(), missing()), failed);
    assert_eq!(
        character_and_item_exist(Ok(Some(ann())), missing()),
        Err(Stop::Refused(Error::ItemNotFound))
    );
    assert_eq!(character_and_item_exist(Ok(Some(ann())), down()), failed);
    assert_eq!(
        character_and_item_exist(Ok::<_, Down>(Some(ann())), Ok(Some(bow()))),
        Ok((ann(), bow()))
    );
}

#[test]
fn character_and_instance() {
    assert_eq!(
        character_and_item_instance_exist(missing(), Ok(Some(bow_of_ann()))),
        Err(Stop::Refused(Error::CharacterNotFound))
    );
    assert_eq!(
        character_and_item_instance_exist(Ok(Some(ann())), missing()),
        Err(Stop::Refused(Error::ItemInstanceNotFound))
    );
    assert_eq!(
        character_and_item_instance_exist(Ok::<_, Down>(Some(ann())), Ok(Some(bow_of_ann()))),
        Ok((ann(), bow_of_ann()))
    );
}

#[test]
fn character_and_auction() {
    assert_eq!(
        character_and_auction_exist(missing(), missing()),
        Err(Stop::Refused(Error::CharacterNotFound))
    );
    assert_eq!(
        character_and_auction_exist(Ok(Some(ann())), missing()),
        Err(Stop::Refused(Error::AuctionNotFound))
    );
    assert_eq!(
        character_and_auction_exist(Ok::<_, Down>(Some(ann())), Ok(Some(listing()))),
        Ok((ann(), listing()))
    );
}

#[test]
fn instance_and_auction() {
    assert_eq!(
        item_instance_and_auction_exist(missing(), missing()),
        Err(Stop::Refused(Error::ItemInstanceNotFound))
    );
    assert_eq!(
        item_instance_and_auction_exist(Ok(Some(bow_of_ann())), missing()),
        Err(Stop::Refused(Error::AuctionNotFound))
    );
    assert_eq!(
        item_instance_and_auction_exist(Ok::<_, Down>(Some(bow_of_ann())), Ok(Some(listing()))),
        Ok((bow_of_ann(), listing()))
    );
}

#[test]
fn two_lookups_of_any_kind() {
    assert_eq!(
        resolve_both(
            Ok::<_, Down>(Some(1u8)),
            Error::ItemNotFound,
            Ok(Some('x')),
            Error::AuctionNotFound
        ),
        Ok((1, 'x'))
    );
    assert_eq!(
        resolve_both(missing::<u8>(), Error::ItemNotFound, missing::<char>(), Error::AuctionNotFound),
        Err(Stop::Refused(Error::ItemNotFound))
    );
}
