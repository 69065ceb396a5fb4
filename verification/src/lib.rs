//! A marketplace of fixed-price auctions between the characters of a game.
//!
//! A character lists an item instance that it owns; the listing stays open
//! for a fixed time; another character buys it at the listed price, or a
//! sweep expires it once its time has run out.
//!
//! - [`auction`], [`character`] and [`item`] hold the rows of the
//!   marketplace and the rules of each row.
//! - [`purchase`] judges and settles one purchase.
//! - [`ledger`] is the marketplace as a whole, with all four tables in
//!   memory; [`tables`] says in mathematics what each of its operations
//!   does, [`lemmas`] shows that each keeps the constraints of the tables,
//!   and [`laws`] proves what holds of every sequence of operations.
//! - [`guard`] and [`statement`] serve a marketplace that is kept in a
//!   relational store: what a request names must exist, and the statements
//!   that read and write the rows.
//! - [`clock`], [`ident`] and [`errors`] hold time, identifiers and
//!   failures.

pub mod auction;
pub mod character;
pub mod clock;
pub mod errors;
pub mod guard;
pub mod ident;
pub mod item;
pub mod laws;
pub mod ledger;
pub mod lemmas;
pub mod purchase;
pub mod statement;
pub mod tables;
