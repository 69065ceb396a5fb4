//! The statements that the marketplace sends to a relational store: the text
//! of each, and the values that go with it.
//!
//! A statement is plain data. Who sends it binds `params` to the placeholders
//! `?1`, `?2`, ... in their order.

use vstd::prelude::*;

use crate::auction::{Auction, AuctionStatusQuery, AuctionView};
use crate::character::Character;
use crate::clock::{date_text, stored_date, Timestamp};
use crate::ident::{id_text, uuid_to_string, Id};
use crate::item::{Item, ItemInstance};

verus! {

/// A value that is bound to a placeholder.
#[derive(Debug, PartialEq, Eq)]
pub enum Param {
    Integer(u64),
    Text(String),
}

/// A bound value, apart from how a text is held in memory.
pub enum ParamView {
    Integer(nat),
    Text(Seq<char>),
}

impl View for Param {
    type V = ParamView;

    open spec fn view(&self) -> ParamView {
        match self {
            Param::Integer(n) => ParamView::Integer(*n as nat),
            Param::Text(text) => ParamView::Text(text@),
        }
    }
}

/// A statement and the values that are bound to its placeholders.
#[derive(Debug, PartialEq, Eq)]
pub struct Statement {
    pub sql: String,
    pub params: Vec<Param>,
}

/// A statement, apart from how its texts are held in memory.
pub struct StatementView {
    pub sql: Seq<char>,
    pub params: Seq<ParamView>,
}

impl View for Statement {
    type V = StatementView;

    open spec fn view(&self) -> StatementView {
        StatementView {
            sql: self.sql@,
            params: Seq::new(self.params@.len(), |i: int| self.params@[i]@),
        }
    }
}

/// The view of a statement that may be missing.
pub open spec fn statement_of(made: Option<Statement>) -> Option<StatementView> {
    match made {
        Some(statement) => Some(statement@),
        None => None,
    }
}

/// A statement without values.
pub open spec fn bare(sql: Seq<char>) -> StatementView {
    StatementView { sql, params: seq![] }
}

/// A statement that binds one identifier.
pub open spec fn keyed(sql: Seq<char>, id: Id) -> StatementView {
    StatementView { sql, params: seq![ParamView::Text(id_text(id))] }
}

/// A statement that binds one text.
pub open spec fn named(sql: Seq<char>, text: Seq<char>) -> StatementView {
    StatementView { sql, params: seq![ParamView::Text(text)] }
}

/// The statement that writes an auction whose dates are stored as `created`
/// and `ends`.
pub open spec fn auction_insertion(auction: AuctionView, created: Seq<char>, ends: Seq<char>) -> StatementView {
    StatementView {
        sql: "INSERT INTO auctions (id, auctioned_item_id, seller_name, creation_date, end_date, price, status) VALUES (?1, ?2, ?3, ?4, ?5, ?6, ?7)"@,
        params: seq![
            ParamView::Text(id_text(auction.id)),
            ParamView::Text(id_text(auction.auctioned_item_id)),
            ParamView::Text(auction.seller_name),
            ParamView::Text(created),
            ParamView::Text(ends),
            ParamView::Integer(auction.price),
            ParamView::Text(auction.status.text()),
        ],
    }
}

/// The statement of a sweep at the moment that is stored as `now`.
pub open spec fn expiry(now: Seq<char>) -> StatementView {
    named("UPDATE auctions SET status = 'expired' WHERE end_date < ?1 AND status = 'active'"@, now)
}

fn without_params(sql: &str) -> (made: Statement)
    ensures
        made@ == bare(sql@),
{
    let made = Statement { sql: sql.to_string(), params: Vec::new() };
    assert(made@.params =~= seq![]);
    made
}

fn with_id(sql: &str, id: Id) -> (made: Statement)
    ensures
        made@ == keyed(sql@, id),
{
    let made = Statement { sql: sql.to_string(), params: vec![Param::Text(uuid_to_string(id))] };
    assert(made@.params =~= seq![ParamView::Text(id_text(id))]);
    made
}

fn with_text(sql: &str, text: &String) -> (made: Statement)
    ensures
        made@ == named(sql@, text@),
{
    let made = Statement { sql: sql.to_string(), params: vec![Param::Text(text.clone())] };
    assert(made@.params =~= seq![ParamView::Text(text@)]);
    made
}

/// Reads all the auctions, or those in the state that `query` names.
pub fn select_auctions(query: &AuctionStatusQuery) -> (made: Statement)
    ensures
        made@ == match query.status {
            Some(status) => named("SELECT * FROM auctions WHERE status = ?1"@, status.text()),
            None => bare("SELECT * FROM auctions"@),
        },
{
    match query.status {
        Some(status) => with_text("SELECT * FROM auctions WHERE status = ?1", &status.to_string()),
        None => without_params("SELECT * FROM auctions"),
    }
}

/// Reads the auction `id`.
pub fn select_auction(id: Id) -> (made: Statement)
    ensures
        made@ == keyed("SELECT * FROM auctions WHERE id = ?1"@, id),
{
    with_id("SELECT * FROM auctions WHERE id = ?1", id)
}

/// Reads the auctions of the character called `seller`.
pub fn select_character_auctions(seller: &String) -> (made: Statement)
    ensures
        made@ == named("SELECT * FROM auctions WHERE seller_name = ?1"@, seller@),
{
    with_text("SELECT * FROM auctions WHERE seller_name = ?1", seller)
}

/// Reads the auctions that offer the item `item` of the catalogue.
pub fn select_item_auctions(item: Id) -> (made: Statement)
    ensures
        made@ == keyed("SELECT * FROM auctions WHERE auctioned_item_id = ?1"@, item),
{
    with_id("SELECT * FROM auctions WHERE auctioned_item_id = ?1", item)
}

/// Writes `auction`, given the texts under which its two dates are stored.
pub fn insert_auction_dated(auction: &Auction, created: String, ends: String) -> (made: Statement)
    ensures
        made@ == auction_insertion(auction@, created@, ends@),
{
    let made = Statement {
        sql: "INSERT INTO auctions (id, auctioned_item_id, seller_name, creation_date, end_date, price, status) VALUES (?1, ?2, ?3, ?4, ?5, ?6, ?7)".to_string(),
        params: vec![
            Param::Text(uuid_to_string(auction.id)),
            Param::Text(uuid_to_string(auction.auctioned_item_id)),
            Param::Text(auction.seller_name.clone()),
            Param::Text(created),
            Param::Text(ends),
            Param::Integer(auction.price),
            Param::Text(auction.status.to_string()),
        ],
    };
    assert(made@.params =~= auction_insertion(auction@, created@, ends@).params);
    made
}

/// Writes `auction`. There is no statement where one of its two dates has
/// no stored text.
pub fn insert_auction(auction: &Auction) -> (made: Option<Statement>)
    ensures
        statement_of(made) == match (date_text(auction.creation_date), date_text(auction.end_date)) {
            (Some(created), Some(ends)) => Some(auction_insertion(auction@, created, ends)),
            _ => None,
        },
{
    let Some(created) = stored_date(auction.creation_date) else {
        return None;
    };
    let Some(ends) = stored_date(auction.end_date) else {
        return None;
    };
    Some(insert_auction_dated(auction, created, ends))
}

/// Marks the auction `id` as sold, on condition that it is still active. The
/// store answers with the number of rows that this changed.
pub fn mark_sold(id: Id) -> (made: Statement)
    ensures
        made@ == keyed("UPDATE auctions SET status = 'sold' WHERE id = ?1 AND status = 'active'"@, id),
{
    with_id("UPDATE auctions SET status = 'sold' WHERE id = ?1 AND status = 'active'", id)
}

/// One sweep, given the text under which its moment is stored: it expires
/// every auction that is active and whose closing time lies before that
/// moment, in one statement.
pub fn mark_expired_dated(now: &String) -> (made: Statement)
    ensures
        made@ == expiry(now@),
{
    with_text("UPDATE auctions SET status = 'expired' WHERE end_date < ?1 AND status = 'active'", now)
}

/// One sweep at `now`. There is no statement where `now` has no stored
/// text.
pub fn mark_expired_batch(now: Timestamp) -> (made: Option<Statement>)
    ensures
        statement_of(made) == match date_text(now) {
            Some(text) => Some(expiry(text)),
            None => None,
        },
{
    match stored_date(now) {
        Some(text) => Some(mark_expired_dated(&text)),
        None => None,
    }
}

/// Removes the auction `id`.
pub fn delete_auction(id: Id) -> (made: Statement)
    ensures
        made@ == keyed("DELETE FROM auctions WHERE id = ?1"@, id),
{
    with_id("DELETE FROM auctions WHERE id = ?1", id)
}

/// Reads all the characters.
pub fn select_characters() -> (made: Statement)
    ensures
        made@ == bare("SELECT * FROM characters"@),
{
    without_params("SELECT * FROM characters")
}

/// Reads the character called `name`.
pub fn select_character(name: &String) -> (made: Statement)
    ensures
        made@ == named("SELECT * FROM characters WHERE name = ?1"@, name@),
{
    with_text("SELECT * FROM characters WHERE name = ?1", name)
}

/// Writes `character`.
pub fn insert_character(character: &Character) -> (made: Statement)
    ensures
        made@ == (StatementView {
            sql: "INSERT INTO characters (name, class, gold) VALUES (?1, ?2, ?3)"@,
            params: seq![
                ParamView::Text(character.name@),
                ParamView::Text(character.class.text()),
                ParamView::Integer(character.gold as nat),
            ],
        }),
{
    let made = Statement {
        sql: "INSERT INTO characters (name, class, gold) VALUES (?1, ?2, ?3)".to_string(),
        params: vec![
            Param::Text(character.name.clone()),
            Param::Text(character.class.to_string()),
            Param::Integer(character.gold),
        ],
    };
    assert(made@.params =~= seq![
        ParamView::Text(character.name@),
        ParamView::Text(character.class.text()),
        ParamView::Integer(character.gold as nat),
    ]);
    made
}

/// Gives the character called `name` the balance `gold`.
pub fn update_gold(name: &String, gold: u64) -> (made: Statement)
    ensures
        made@ == (StatementView {
            sql: "UPDATE characters SET gold = ?1 WHERE name = ?2"@,
            params: seq![ParamView::Integer(gold as nat), ParamView::Text(name@)],
        }),
{
    let made = Statement {
        sql: "UPDATE characters SET gold = ?1 WHERE name = ?2".to_string(),
        params: vec![Param::Integer(gold), Param::Text(name.clone())],
    };
    assert(made@.params =~= seq![ParamView::Integer(gold as nat), ParamView::Text(name@)]);
    made
}

/// Removes the character called `name`.
pub fn delete_character(name: &String) -> (made: Statement)
    ensures
        made@ == named("DELETE FROM characters WHERE name = ?1;"@, name@),
{
    with_text("DELETE FROM characters WHERE name = ?1;", name)
}

/// Reads the item instances of the character called `owner`.
pub fn select_character_items(owner: &String) -> (made: Statement)
    ensures
        made@ == named("SELECT * FROM items_instances WHERE owner_name = ?1"@, owner@),
{
    with_text("SELECT * FROM items_instances WHERE owner_name = ?1", owner)
}

/// Reads the item instance `id` of the character called `owner`.
pub fn select_character_item(owner: &String, id: Id) -> (made: Statement)
    ensures
        made@ == (StatementView {
            sql: "SELECT * FROM items_instances WHERE owner_name = ?1 AND id = ?2"@,
            params: seq![ParamView::Text(owner@), ParamView::Text(id_text(id))],
        }),
{
    let made = Statement {
        sql: "SELECT * FROM items_instances WHERE owner_name = ?1 AND id = ?2".to_string(),
        params: vec![Param::Text(owner.clone()), Param::Text(uuid_to_string(id))],
    };
    assert(made@.params =~= seq![ParamView::Text(owner@), ParamView::Text(id_text(id))]);
    made
}

/// Reads the item instance `id`.
pub fn select_item_instance(id: Id) -> (made: Statement)
    ensures
        made@ == keyed("SELECT * FROM items_instances WHERE id = ?1"@, id),
{
    with_id("SELECT * FROM items_instances WHERE id = ?1", id)
}

/// Writes `instance`.
pub fn insert_item_instance(instance: &ItemInstance) -> (made: Statement)
    ensures
        made@ == (StatementView {
            sql: "INSERT INTO items_instances (id, item_name, item_id, owner_name) VALUES (?1, ?2, ?3, ?4)"@,
            params: seq![
                ParamView::Text(id_text(instance.id)),
                ParamView::Text(instance.item_name@),
                ParamView::Text(id_text(instance.item_id)),
                ParamView::Text(instance.owner_name@),
            ],
        }),
{
    let made = Statement {
        sql: "INSERT INTO items_instances (id, item_name, item_id, owner_name) VALUES (?1, ?2, ?3, ?4)".to_string(),
        params: vec![
            Param::Text(uuid_to_string(instance.id)),
            Param::Text(instance.item_name.clone()),
            Param::Text(uuid_to_string(instance.item_id)),
            Param::Text(instance.owner_name.clone()),
        ],
    };
    assert(made@.params =~= seq![
        ParamView::Text(id_text(instance.id)),
        ParamView::Text(instance.item_name@),
        ParamView::Text(id_text(instance.item_id)),
        ParamView::Text(instance.owner_name@),
    ]);
    made
}

/// Removes the item instance `id`.
pub fn delete_item_instance(id: Id) -> (made: Statement)
    ensures
        made@ == keyed("DELETE FROM items_instances WHERE id = ?1"@, id),
{
    with_id("DELETE FROM items_instances WHERE id = ?1", id)
}

/// Reads the whole catalogue.
pub fn select_items() -> (made: Statement)
    ensures
        made@ == bare("SELECT * FROM items"@),
{
    without_params("SELECT * FROM items")
}

/// Reads the item `id` of the catalogue.
pub fn select_item(id: Id) -> (made: Statement)
    ensures
        made@ == keyed("SELECT * FROM items WHERE id = ?1"@, id),
{
    with_id("SELECT * FROM items WHERE id = ?1", id)
}

/// Writes `item`.
pub fn insert_item(item: &Item) -> (made: Statement)
    ensures
        made@ == (StatementView {
            sql: "INSERT INTO items (id, name) VALUES (?1, ?2)"@,
            params: seq![ParamView::Text(id_text(item.id)), ParamView::Text(item.name@)],
        }),
{
    let made = Statement {
        sql: "INSERT INTO items (id, name) VALUES (?1, ?2)".to_string(),
        params: vec![Param::Text(uuid_to_string(item.id)), Param::Text(item.name.clone())],
    };
    assert(made@.params =~= seq![ParamView::Text(id_text(item.id)), ParamView::Text(item.name@)]);
    made
}

/// Gives the item `id` the name `name`.
pub fn update_item_name(id: Id, name: &String) -> (made: Statement)
    ensures
        made@ == (StatementView {
            sql: "UPDATE items SET name = ?1 WHERE id = ?2;"@,
            params: seq![ParamView::Text(name@), ParamView::Text(id_text(id))],
        }),
{
    let made = Statement {
        sql: "UPDATE items SET name = ?1 WHERE id = ?2;".to_string(),
        params: vec![Param::Text(name.clone()), Param::Text(uuid_to_string(id))],
    };
    assert(made@.params =~= seq![ParamView::Text(name@), ParamView::Text(id_text(id))]);
    made
}

/// Removes the item `id` from the catalogue.
pub fn delete_item(id: Id) -> (made: Statement)
    ensures
        made@ == keyed("DELETE FROM items WHERE id = ?1;"@, id),
{
    with_id("DELETE FROM items WHERE id = ?1;", id)
}

} // verus!
