use vstd::prelude::*;

use crate::item::Item;
use crate::store::ItemStore;
use crate::store::StoreModel;
use crate::store::rows_of;
use crate::store::spec_create;
use crate::store::spec_delete;
use crate::store::spec_delete_all;
use crate::store::spec_lookup;
use crate::store::spec_update;

verus! {

pub const STATUS_OK: u16 = 200;

pub const STATUS_CREATED: u16 = 201;

pub const STATUS_NO_CONTENT: u16 = 204;

pub const STATUS_NOT_FOUND: u16 = 404;

pub const STATUS_INTERNAL_ERROR: u16 = 500;

/// The failure outcome of a repository operation: any error surfaced by the
/// underlying database driver (connection loss, constraint violation,
/// timeout). It carries no detail: none is leaked to a client.
pub struct DbError;

/// One inbound request, after routing and body parsing: each variant is one
/// method + path pair, carrying the path id and the parsed body fields.
pub enum Request {
    Root,
    CreateItem { name: String, description: String },
    ListItems,
    GetItem { id: i32 },
    UpdateItem { id: i32, name: String, description: String },
    DeleteItem { id: i32 },
    DeleteAllItems,
}

/// The body of a response, before serialization.
pub enum Body {
    Empty,
    Text(String),
    ItemBody(Item),
    Items(Vec<Item>),
    DeletedCount(u64),
}

/// A response: a status code and a body.
pub struct Response {
    pub status: u16,
    pub body: Body,
}

/// The banner the root route answers with.
pub open spec fn spec_banner() -> Seq<char> {
    "Items API :)"@
}

/// The root route: a fixed plain-text banner, always 200.
pub fn respond_root() -> (resp: Response)
    ensures
        resp.status == STATUS_OK,
        resp.body matches Body::Text(t) && t@ == spec_banner(),
{
    Response { status: STATUS_OK, body: Body::Text(String::from_str("Items API :)")) }
}

/// Create: a persisted row answers 201 with the row; a driver failure
/// answers 500 with no body.
pub fn respond_create(outcome: Result<Item, DbError>) -> (resp: Response)
    ensures
        match outcome {
            Result::Ok(item) => resp.status == STATUS_CREATED && resp.body == Body::ItemBody(item),
            Result::Err(_) => resp.status == STATUS_INTERNAL_ERROR && resp.body == Body::Empty,
        },
{
    match outcome {
        Result::Ok(item) => Response { status: STATUS_CREATED, body: Body::ItemBody(item) },
        Result::Err(_) => Response { status: STATUS_INTERNAL_ERROR, body: Body::Empty },
    }
}

/// List: the rows answer 200 as a JSON array; a driver failure answers 500
/// with no body.
pub fn respond_list(outcome: Result<Vec<Item>, DbError>) -> (resp: Response)
    ensures
        match outcome {
            Result::Ok(items) => resp.status == STATUS_OK && resp.body == Body::Items(items),
            Result::Err(_) => resp.status == STATUS_INTERNAL_ERROR && resp.body == Body::Empty,
        },
{
    match outcome {
        Result::Ok(items) => Response { status: STATUS_OK, body: Body::Items(items) },
        Result::Err(_) => Response { status: STATUS_INTERNAL_ERROR, body: Body::Empty },
    }
}

/// Get by id: a matched row answers 200 with the row; no match answers 404
/// with no body; a driver failure answers 500 with no body.
pub fn respond_get(outcome: Result<Option<Item>, DbError>) -> (resp: Response)
    ensures
        match outcome {
            Result::Ok(Option::Some(item)) => resp.status == STATUS_OK && resp.body
                == Body::ItemBody(item),
            Result::Ok(Option::None) => resp.status == STATUS_NOT_FOUND && resp.body == Body::Empty,
            Result::Err(_) => resp.status == STATUS_INTERNAL_ERROR && resp.body == Body::Empty,
        },
{
    match outcome {
        Result::Ok(Option::Some(item)) => Response {
            status: STATUS_OK,
            body: Body::ItemBody(item),
        },
        Result::Ok(Option::None) => Response { status: STATUS_NOT_FOUND, body: Body::Empty },
        Result::Err(_) => Response { status: STATUS_INTERNAL_ERROR, body: Body::Empty },
    }
}

/// Update by id: a matched row answers 200 with the updated row; no match
/// answers 404 with no body; a driver failure answers 500 with no body.
pub fn respond_update(outcome: Result<Option<Item>, DbError>) -> (resp: Response)
    ensures
        match outcome {
            Result::Ok(Option::Some(item)) => resp.status == STATUS_OK && resp.body
                == Body::ItemBody(item),
            Result::Ok(Option::None) => resp.status == STATUS_NOT_FOUND && resp.body == Body::Empty,
            Result::Err(_) => resp.status == STATUS_INTERNAL_ERROR && resp.body == Body::Empty,
        },
{
    match outcome {
        Result::Ok(Option::Some(item)) => Response {
            status: STATUS_OK,
            body: Body::ItemBody(item),
        },
        Result::Ok(Option::None) => Response { status: STATUS_NOT_FOUND, body: Body::Empty },
        Result::Err(_) => Response { status: STATUS_INTERNAL_ERROR, body: Body::Empty },
    }
}

/// Delete by id: a removed row answers 204 with no body; a miss answers 404
/// with no body; a driver failure answers 500 with no body.
pub fn respond_delete(outcome: Result<bool, DbError>) -> (resp: Response)
    ensures
        match outcome {
            Result::Ok(removed) => resp.status == (if removed {
                STATUS_NO_CONTENT
            } else {
                STATUS_NOT_FOUND
            }) && resp.body == Body::Empty,
            Result::Err(_) => resp.status == STATUS_INTERNAL_ERROR && resp.body == Body::Empty,
        },
{
    match outcome {
        Result::Ok(true) => Response { status: STATUS_NO_CONTENT, body: Body::Empty },
        Result::Ok(false) => Response { status: STATUS_NOT_FOUND, body: Body::Empty },
        Result::Err(_) => Response { status: STATUS_INTERNAL_ERROR, body: Body::Empty },
    }
}

/// Delete all: the count of removed rows answers 200; a driver failure
/// answers 500 with no body.
pub fn respond_delete_all(outcome: Result<u64, DbError>) -> (resp: Response)
    ensures
        match outcome {
            Result::Ok(count) => resp.status == STATUS_OK && resp.body == Body::DeletedCount(count),
            Result::Err(_) => resp.status == STATUS_INTERNAL_ERROR && resp.body == Body::Empty,
        },
{
    match outcome {
        Result::Ok(count) => Response { status: STATUS_OK, body: Body::DeletedCount(count) },
        Result::Err(_) => Response { status: STATUS_INTERNAL_ERROR, body: Body::Empty },
    }
}

/// The whole service over an in-memory store: one call per inbound request,
/// routing it to the one repository operation of its route and mapping the
/// outcome to a status code and body.
pub struct ItemService {
    store: ItemStore,
}

impl ItemService {
    /// The persisted state as mathematics.
    pub closed spec fn model(self) -> StoreModel {
        self.store.model()
    }

    pub open spec fn wf(self) -> bool {
        self.model().wf()
    }

    /// A service over an empty store whose id sequence starts at one.
    pub fn new() -> (s: Self)
        ensures
            s.wf(),
            s.model() == (StoreModel { rows: Seq::empty(), next_id: 1 }),
    {
        ItemService { store: ItemStore::new() }
    }

    /// Dispatches one request and answers per the route table: 200/201/204
    /// on success, 404 on a by-id miss, the store changed exactly as the
    /// route's one operation says.
    pub fn handle(&mut self, req: Request) -> (resp: Response)
        requires
            old(self).wf(),
            req is CreateItem ==> old(self).model().next_id < i32::MAX as int,
        ensures
            final(self).wf(),
            match req {
                Request::Root => final(self).model() == old(self).model() && resp.status
                    == STATUS_OK && (resp.body matches Body::Text(t) && t@ == spec_banner()),
                Request::CreateItem { name, description } => final(self).model() == spec_create(
                    old(self).model(),
                    name@,
                    description@,
                ).0 && resp.status == STATUS_CREATED && (resp.body matches Body::ItemBody(it)
                    && it.row() == spec_create(old(self).model(), name@, description@).1),
                Request::ListItems => final(self).model() == old(self).model() && resp.status
                    == STATUS_OK && (resp.body matches Body::Items(v) && rows_of(v@) == old(
                    self,
                ).model().rows),
                Request::GetItem { id } => final(self).model() == old(self).model() && match
                    spec_lookup(old(self).model(), id as int) {
                    Option::Some(row) => resp.status == STATUS_OK && (resp.body matches
                    Body::ItemBody(it) && it.row() == row),
                    Option::None => resp.status == STATUS_NOT_FOUND && resp.body == Body::Empty,
                },
                Request::UpdateItem { id, name, description } => final(self).model()
                    == spec_update(old(self).model(), id as int, name@, description@).0 && match
                    spec_update(old(self).model(), id as int, name@, description@).1 {
                    Option::Some(row) => resp.status == STATUS_OK && (resp.body matches
                    Body::ItemBody(it) && it.row() == row),
                    Option::None => resp.status == STATUS_NOT_FOUND && resp.body == Body::Empty,
                },
                Request::DeleteItem { id } => final(self).model() == spec_delete(
                    old(self).model(),
                    id as int,
                ).0 && resp.status == (if spec_delete(old(self).model(), id as int).1 {
                    STATUS_NO_CONTENT
                } else {
                    STATUS_NOT_FOUND
                }) && resp.body == Body::Empty,
                Request::DeleteAllItems => final(self).model() == spec_delete_all(
                    old(self).model(),
                ).0 && resp.status == STATUS_OK && (resp.body matches Body::DeletedCount(c)
                    && c as int == spec_delete_all(old(self).model()).1),
            },
    {
        match req {
            Request::Root => respond_root(),
            Request::CreateItem { name, description } => {
                let item = self.store.create(name, description);
                respond_create(Result::Ok(item))
            },
            Request::ListItems => {
                let items = self.store.list();
                respond_list(Result::Ok(items))
            },
            Request::GetItem { id } => {
                let found = self.store.get_by_id(id);
                respond_get(Result::Ok(found))
            },
            Request::UpdateItem { id, name, description } => {
                let updated = self.store.update_by_id(id, name, description);
                respond_update(Result::Ok(updated))
            },
            Request::DeleteItem { id } => {
                let removed = self.store.delete_by_id(id);
                respond_delete(Result::Ok(removed))
            },
            Request::DeleteAllItems => {
                let count = self.store.delete_all();
                respond_delete_all(Result::Ok(count))
            },
        }
    }
}

} // verus!
