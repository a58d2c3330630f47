//! What the item service answers, given how the store answered.
//!
//! Each function takes the outcome of the one query that its request runs and
//! gives the reply. Running the query and writing the reply to the wire are
//! left to the caller.

use crate::models::{Item, Record};
use vstd::prelude::*;

verus! {

/// The store could not answer, or found no such row.
#[derive(Clone, Copy, Debug, PartialEq, Eq, Structural)]
pub struct StoreError;

/// The status of a reply.
#[derive(Clone, Copy, Debug, PartialEq, Eq, Structural)]
pub enum Status {
    Okay,
    Created,
    NoContent,
    NotFound,
    InternalServerError,
}

impl Status {
    /// The status code on the wire.
    pub open spec fn code_of(self) -> u16 {
        match self {
            Status::Okay => 200,
            Status::Created => 201,
            Status::NoContent => 204,
            Status::NotFound => 404,
            Status::InternalServerError => 500,
        }
    }

    /// Whether the status reports success.
    pub open spec fn success(self) -> bool {
        200 <= self.code_of() < 300
    }

    /// The status code on the wire.
    pub fn code(self) -> (code: u16)
        ensures
            code == self.code_of(),
    {
        match self {
            Status::Okay => 200,
            Status::Created => 201,
            Status::NoContent => 204,
            Status::NotFound => 404,
            Status::InternalServerError => 500,
        }
    }

    /// Whether the status reports success.
    pub fn is_success(self) -> (yes: bool)
        ensures
            yes == self.success(),
            yes <==> self == Status::Okay || self == Status::Created || self == Status::NoContent,
    {
        let code = self.code();
        200 <= code && code < 300
    }

    /// Whether the status blames the request.
    pub fn is_client_error(self) -> (yes: bool)
        ensures
            yes == (400 <= self.code_of() < 500),
            yes <==> self == Status::NotFound,
    {
        let code = self.code();
        400 <= code && code < 500
    }
}

/// What a reply carries.
#[derive(Debug, PartialEq, Eq)]
pub enum Body {
    Empty,
    One(Item),
    Many(Vec<Item>),
}

/// A reply of the service.
#[derive(Debug, PartialEq, Eq)]
pub struct Reply {
    pub status: Status,
    pub body: Body,
}

impl Reply {
    /// Whether this is the reply with the given status and nothing else.
    pub open spec fn is_bare(self, status: Status) -> bool {
        self.status == status && self.body is Empty
    }

    /// Whether this is the reply with the given status and the one item.
    pub open spec fn carries(self, status: Status, item: Item) -> bool {
        self.status == status && self.body == Body::One(item)
    }

    /// Whether this is the reply with the given status and these items, in
    /// this order.
    pub open spec fn lists(self, status: Status, items: Seq<Item>) -> bool {
        self.status == status && self.body is Many && self.body->Many_0@ == items
    }
}

fn bare(status: Status) -> (reply: Reply)
    ensures
        reply.is_bare(status),
{
    Reply { status, body: Body::Empty }
}

fn single(status: Status, outcome: Result<Record, StoreError>, failure: Status) -> (reply: Reply)
    ensures
        match outcome {
            Ok(record) => reply.carries(status, record.item()),
            Err(_) => reply.is_bare(failure),
        },
{
    match outcome {
        Ok(record) => Reply { status, body: Body::One(record.to_item()) },
        Err(_) => bare(failure),
    }
}

/// The reply to a request that creates an item: the new item with the status
/// `Created`, or `InternalServerError` if the store failed.
pub fn create_item(outcome: Result<Record, StoreError>) -> (reply: Reply)
    ensures
        match outcome {
            Ok(record) => reply.carries(Status::Created, record.item()),
            Err(_) => reply.is_bare(Status::InternalServerError),
        },
{
    single(Status::Created, outcome, Status::InternalServerError)
}

/// The reply to a request for all items: the items in the order in which the
/// store gave them, with the status `Okay`, or `InternalServerError` if the
/// store failed.
pub fn get_items(outcome: Result<Vec<Record>, StoreError>) -> (reply: Reply)
    ensures
        match outcome {
            Ok(records) => reply.lists(Status::Okay, records@.map_values(|r: Record| r.item())),
            Err(_) => reply.is_bare(Status::InternalServerError),
        },
{
    match outcome {
        Ok(records) => {
            let mut items: Vec<Item> = Vec::new();
            let mut i: usize = 0;
            while i < records.len()
                invariant
                    i <= records.len(),
                    items@ == records@.take(i as int).map_values(|r: Record| r.item()),
                decreases records.len() - i,
            {
                items.push(records[i].to_item());
                i = i + 1;
            }
            assert(records@.take(i as int) =~= records@);
            Reply { status: Status::Okay, body: Body::Many(items) }
        },
        Err(_) => bare(Status::InternalServerError),
    }
}

/// The reply to a request for one item: the item with the status `Okay`, or
/// `NotFound` if the store gave none.
pub fn get_item(outcome: Result<Record, StoreError>) -> (reply: Reply)
    ensures
        match outcome {
            Ok(record) => reply.carries(Status::Okay, record.item()),
            Err(_) => reply.is_bare(Status::NotFound),
        },
{
    single(Status::Okay, outcome, Status::NotFound)
}

/// The reply to a request that updates an item: the item as it is now with
/// the status `Okay`, or `NotFound` if the store gave none.
pub fn update_item(outcome: Result<Record, StoreError>) -> (reply: Reply)
    ensures
        match outcome {
            Ok(record) => reply.carries(Status::Okay, record.item()),
            Err(_) => reply.is_bare(Status::NotFound),
        },
{
    single(Status::Okay, outcome, Status::NotFound)
}

/// The reply to a request that deletes an item: `NoContent`, whether or not
/// there was such an item, or `InternalServerError` if the store failed.
pub fn delete_item(outcome: Result<u64, StoreError>) -> (reply: Reply)
    ensures
        match outcome {
            Ok(_) => reply.is_bare(Status::NoContent),
            Err(_) => reply.is_bare(Status::InternalServerError),
        },
{
    match outcome {
        Ok(_) => bare(Status::NoContent),
        Err(_) => bare(Status::InternalServerError),
    }
}

} // verus!
