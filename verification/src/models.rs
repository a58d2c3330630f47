//! The record type of the item store and the two request bodies.

use vstd::prelude::*;

verus! {

/// An instant in universal time: seconds since the start of 1970 and the
/// nanoseconds into that second.
#[derive(Clone, Copy, Debug, PartialEq, Eq, Structural)]
pub struct Timestamp {
    pub seconds: i64,
    pub nanos: u32,
}

/// An item as the service hands it out.
#[derive(Debug, PartialEq, Eq)]
pub struct Item {
    pub id: Option<i32>,
    pub name: String,
    pub description: String,
    pub created_at: Option<Timestamp>,
    pub updated_at: Option<Timestamp>,
}

/// The body of a request that creates an item.
#[derive(Debug, PartialEq, Eq)]
pub struct CreateItem {
    pub name: String,
    pub description: String,
}

/// The body of a request that updates an item. A field that is left out
/// keeps the value it has.
#[derive(Debug, PartialEq, Eq)]
pub struct UpdateItem {
    pub name: Option<String>,
    pub description: Option<String>,
}

/// An item as the store holds it: every column has a value.
#[derive(Debug, PartialEq, Eq)]
pub struct Record {
    pub id: i32,
    pub name: String,
    pub description: String,
    pub created_at: Timestamp,
    pub updated_at: Timestamp,
}

impl Record {
    /// The item that stands for this record: the same values, each present.
    pub open spec fn item(self) -> Item {
        Item {
            id: Some(self.id),
            name: self.name,
            description: self.description,
            created_at: Some(self.created_at),
            updated_at: Some(self.updated_at),
        }
    }

    /// The item that stands for this record.
    pub fn to_item(&self) -> (item: Item)
        ensures
            item == self.item(),
    {
        Item {
            id: Some(self.id),
            name: self.name.clone(),
            description: self.description.clone(),
            created_at: Some(self.created_at),
            updated_at: Some(self.updated_at),
        }
    }
}

} // verus!
