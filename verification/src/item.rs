//! The catalogue of items, and the instances of them that characters own.

use vstd::prelude::*;

use crate::character::Character;
use crate::errors::Error;
use crate::ident::{is_random_uuid, random_uuid, Id};

verus! {

/// An entry of the catalogue.
#[derive(Debug, PartialEq, Eq)]
pub struct Item {
    pub id: Id,
    pub name: String,
}

/// What an item is, apart from how its name is held in memory.
pub struct ItemView {
    pub id: Id,
    pub name: Seq<char>,
}

impl View for Item {
    type V = ItemView;

    open spec fn view(&self) -> ItemView {
        ItemView { id: self.id, name: self.name@ }
    }
}

impl Clone for Item {
    fn clone(&self) -> (copy: Self)
        ensures
            copy == *self,
    {
        Item { id: self.id, name: self.name.clone() }
    }
}

/// The request to add an item to the catalogue.
#[derive(Debug, PartialEq, Eq)]
pub struct NewItem {
    pub name: String,
}

/// The request to rename an item.
#[derive(Debug, PartialEq, Eq)]
pub struct ItemNameUpdate {
    pub name: String,
}

/// One owned unit of an item. It keeps the name that the item had when the
/// instance was made.
#[derive(Debug, PartialEq, Eq)]
pub struct ItemInstance {
    pub id: Id,
    pub item_name: String,
    pub item_id: Id,
    pub owner_name: String,
}

/// What an item instance is, apart from how its texts are held in memory.
pub struct ItemInstanceView {
    pub id: Id,
    pub item_name: Seq<char>,
    pub item_id: Id,
    pub owner_name: Seq<char>,
}

impl View for ItemInstance {
    type V = ItemInstanceView;

    open spec fn view(&self) -> ItemInstanceView {
        ItemInstanceView {
            id: self.id,
            item_name: self.item_name@,
            item_id: self.item_id,
            owner_name: self.owner_name@,
        }
    }
}

impl Clone for ItemInstance {
    fn clone(&self) -> (copy: Self)
        ensures
            copy == *self,
    {
        ItemInstance {
            id: self.id,
            item_name: self.item_name.clone(),
            item_id: self.item_id,
            owner_name: self.owner_name.clone(),
        }
    }
}

/// Which item instances an operation is about.
#[derive(Debug, PartialEq, Eq)]
pub enum InstanceFilter {
    /// Those that one character owns.
    HeldBy(String),
    /// Those of one item of the catalogue.
    OfItem(Id),
}

/// A filter, apart from how the owner's name is held in memory.
pub enum InstanceFilterView {
    HeldBy(Seq<char>),
    OfItem(Id),
}

impl View for InstanceFilter {
    type V = InstanceFilterView;

    open spec fn view(&self) -> InstanceFilterView {
        match self {
            InstanceFilter::HeldBy(name) => InstanceFilterView::HeldBy(name@),
            InstanceFilter::OfItem(id) => InstanceFilterView::OfItem(*id),
        }
    }
}

impl InstanceFilterView {
    /// Whether `instance` passes the filter.
    pub open spec fn admits(self, instance: ItemInstanceView) -> bool {
        match self {
            InstanceFilterView::HeldBy(name) => instance.owner_name == name,
            InstanceFilterView::OfItem(id) => instance.item_id == id,
        }
    }
}

impl InstanceFilter {
    /// Whether `instance` passes the filter.
    pub fn admits(&self, instance: &ItemInstance) -> (passes: bool)
        ensures
            passes == self@.admits(instance@),
    {
        match self {
            InstanceFilter::HeldBy(name) => instance.owner_name == *name,
            InstanceFilter::OfItem(id) => instance.item_id == *id,
        }
    }
}

impl Item {
    /// The catalogue entry that `request` asks for, under the identifier
    /// `id`. A request without a name is refused.
    pub fn with_id(id: Id, request: NewItem) -> (made: Result<Item, Error>)
        ensures
            request.name@.len() == 0 <==> made is Err,
            made matches Err(e) ==> e == Error::EmptyName,
            made matches Ok(item) ==> item@ == (ItemView { id, name: request.name@ }),
    {
        if request.name.as_str().is_empty() {
            return Err(Error::EmptyName);
        }
        Ok(Item { id, name: request.name })
    }

    /// The catalogue entry that `request` asks for, under a fresh identifier.
    /// A request without a name is refused before an identifier is drawn.
    pub fn create(request: NewItem) -> (made: Result<Item, Error>)
        ensures
            request.name@.len() == 0 <==> made is Err,
            made matches Err(e) ==> e == Error::EmptyName,
            made matches Ok(item) ==> item.name@ == request.name@ && is_random_uuid(item.id),
    {
        if request.name.as_str().is_empty() {
            return Err(Error::EmptyName);
        }
        Item::with_id(random_uuid(), request)
    }

    /// Gives the item the name that `update` carries.
    pub fn rename(&mut self, update: &ItemNameUpdate)
        ensures
            final(self)@ == (ItemView { id: old(self).id, name: update.name@ }),
    {
        self.name = update.name.clone();
    }
}

impl ItemInstance {
    /// The instance of `item` that `owner` receives, under the identifier
    /// `id`.
    pub fn with_id(id: Id, item: &Item, owner: &Character) -> (made: ItemInstance)
        ensures
            made@ == (ItemInstanceView {
                id,
                item_name: item.name@,
                item_id: item.id,
                owner_name: owner.name@,
            }),
    {
        ItemInstance {
            id,
            item_name: item.name.clone(),
            item_id: item.id,
            owner_name: owner.name.clone(),
        }
    }

    /// A new instance of `item` for `owner`, under a fresh identifier.
    pub fn grant(item: &Item, owner: &Character) -> (made: ItemInstance)
        ensures
            is_random_uuid(made.id),
            made@ == (ItemInstanceView {
                id: made.id,
                item_name: item.name@,
                item_id: item.id,
                owner_name: owner.name@,
            }),
    {
        ItemInstance::with_id(random_uuid(), item, owner)
    }
}

} // verus!
