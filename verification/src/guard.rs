//! The guard in front of the operations: what a request names must exist
//! before the request is served.
//!
//! A look-up answers with the row, with nothing, or with a failure of the
//! store. The guard turns nothing into the refusal that names what is
//! missing, and hands a failure on as the store gave it, whatever the store
//! is. Where a request names two things, the first decides before the second
//! is looked at.

use vstd::prelude::*;

use crate::auction::Auction;
use crate::character::Character;
use crate::errors::Error;
use crate::item::{Item, ItemInstance};

verus! {

/// Why a request does not pass the guard. `F` is the store's own failure.
#[derive(Debug, PartialEq, Eq)]
pub enum Stop<F> {
    /// What the request names does not exist.
    Refused(Error),
    /// The store failed at the look-up.
    Failed(F),
}

/// What the guard makes of one look-up, where `missing` is the refusal for
/// a row that is not there.
pub open spec fn resolved<T, F>(lookup: Result<Option<T>, F>, missing: Error) -> Result<T, Stop<F>> {
    match lookup {
        Ok(Some(row)) => Ok(row),
        Ok(None) => Err(Stop::Refused(missing)),
        Err(failure) => Err(Stop::Failed(failure)),
    }
}

/// What the guard makes of two look-ups: both rows, or what stopped the
/// first that did not give a row.
pub open spec fn resolved_both<A, B, F>(
    first: Result<Option<A>, F>,
    first_missing: Error,
    second: Result<Option<B>, F>,
    second_missing: Error,
) -> Result<(A, B), Stop<F>> {
    match resolved(first, first_missing) {
        Err(stop) => Err(stop),
        Ok(a) => match resolved(second, second_missing) {
            Err(stop) => Err(stop),
            Ok(b) => Ok((a, b)),
        },
    }
}

/// Turns a look-up into the row or into what stops the request.
pub fn resolve<T, F>(lookup: Result<Option<T>, F>, missing: Error) -> (found: Result<T, Stop<F>>)
    ensures
        found == resolved(lookup, missing),
{
    match lookup {
        Ok(Some(row)) => Ok(row),
        Ok(None) => Err(Stop::Refused(missing)),
        Err(failure) => Err(Stop::Failed(failure)),
    }
}

/// Turns two look-ups into both rows or into what stops the request at the
/// first that did not give a row.
pub fn resolve_both<A, B, F>(
    first: Result<Option<A>, F>,
    first_missing: Error,
    second: Result<Option<B>, F>,
    second_missing: Error,
) -> (found: Result<(A, B), Stop<F>>)
    ensures
        found == resolved_both(first, first_missing, second, second_missing),
{
    let a = match resolve(first, first_missing) {
        Ok(a) => a,
        Err(stop) => {
            return Err(stop);
        },
    };
    match resolve(second, second_missing) {
        Ok(b) => Ok((a, b)),
        Err(stop) => Err(stop),
    }
}

/// The guard of a request that names a character.
pub fn character_exists<F>(character: Result<Option<Character>, F>) -> (found: Result<
    Character,
    Stop<F>,
>)
    ensures
        found == resolved(character, Error::CharacterNotFound),
{
    resolve(character, Error::CharacterNotFound)
}

/// The guard of a request that names an item of the catalogue.
pub fn item_exists<F>(item: Result<Option<Item>, F>) -> (found: Result<Item, Stop<F>>)
    ensures
        found == resolved(item, Error::ItemNotFound),
{
    resolve(item, Error::ItemNotFound)
}

/// The guard of a request that names an auction.
pub fn auction_exists<F>(auction: Result<Option<Auction>, F>) -> (found: Result<Auction, Stop<F>>)
    ensures
        found == resolved(auction, Error::AuctionNotFound),
{
    resolve(auction, Error::AuctionNotFound)
}

/// The guard of a request that names a character and an item of the
/// catalogue.
pub fn character_and_item_exist<F>(
    character: Result<Option<Character>, F>,
    item: Result<Option<Item>, F>,
) -> (found: Result<(Character, Item), Stop<F>>)
    ensures
        found == resolved_both(character, Error::CharacterNotFound, item, Error::ItemNotFound),
{
    resolve_both(character, Error::CharacterNotFound, item, Error::ItemNotFound)
}

/// The guard of a request that names a character and one of its item
/// instances.
pub fn character_and_item_instance_exist<F>(
    character: Result<Option<Character>, F>,
    instance: Result<Option<ItemInstance>, F>,
) -> (found: Result<(Character, ItemInstance), Stop<F>>)
    ensures
        found == resolved_both(
            character,
            Error::CharacterNotFound,
            instance,
            Error::ItemInstanceNotFound,
        ),
{
    resolve_both(character, Error::CharacterNotFound, instance, Error::ItemInstanceNotFound)
}

/// The guard of a request that names a character and an auction.
pub fn character_and_auction_exist<F>(
    character: Result<Option<Character>, F>,
    auction: Result<Option<Auction>, F>,
) -> (found: Result<(Character, Auction), Stop<F>>)
    ensures
        found == resolved_both(
            character,
            Error::CharacterNotFound,
            auction,
            Error::AuctionNotFound,
        ),
{
    resolve_both(character, Error::CharacterNotFound, auction, Error::AuctionNotFound)
}

/// The guard of a request that names an item instance and an auction.
pub fn item_instance_and_auction_exist<F>(
    instance: Result<Option<ItemInstance>, F>,
    auction: Result<Option<Auction>, F>,
) -> (found: Result<(ItemInstance, Auction), Stop<F>>)
    ensures
        found == resolved_both(
            instance,
            Error::ItemInstanceNotFound,
            auction,
            Error::AuctionNotFound,
        ),
{
    resolve_both(instance, Error::ItemInstanceNotFound, auction, Error::AuctionNotFound)
}

} // verus!
