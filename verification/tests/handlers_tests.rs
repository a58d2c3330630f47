use message_threads::handlers::{
    create_item, delete_item, get_item, get_items, update_item, Body, Reply, Status, StoreError,
};
use message_threads::models::{CreateItem, Item, Record, Timestamp, UpdateItem};

/// A store in memory that answers as the item table does.
struct Store {
    rows: Vec<Record>,
    next_id: i32,
    clock: i64,
}

impl Store {
    fn new() -> Store {
        Store { rows: Vec::new(), next_id: 1, clock: 1_700_000_000 }
    }

    fn now(&mut self) -> Timestamp {
        self.clock += 1;
        Timestamp { seconds: self.clock, nanos: 0 }
    }

    fn copy(row: &Record) -> Record {
        Record {
            id: row.id,
            name: row.name.clone(),
            description: row.description.clone(),
            created_at: row.created_at,
            updated_at: row.updated_at,
        }
    }

    fn insert(&mut self, item: &CreateItem) -> Result<Record, StoreError> {
        let now = self.now();
        let row = Record {
            id: self.next_id,
            name: item.name.clone(),
            description: item.description.clone(),
            created_at: now,
            updated_at: now,
        };
        self.next_id += 1;
        self.rows.push(Store::copy(&row));
        Ok(row)
    }

    fn all(&self) -> Result<Vec<Record>, StoreError> {
        let mut rows: Vec<Record> = self.rows.iter().map(Store::copy).collect();
        rows.sort_by(|x, y| y.created_at.seconds.cmp(&x.created_at.seconds));
        Ok(rows)
    }

    fn fetch(&self, id: i32) -> Result<Record, StoreError> {
        self.rows.iter().find(|row| row.id == id).map(Store::copy).ok_or(StoreError)
    }

    fn update(&mut self, id: i32, item: &UpdateItem) -> Result<Record, StoreError> {
        let now = self.now();
        let row = self.rows.iter_mut().find(|row| row.id == id).ok_or(StoreError)?;
        if let Some(name) = &item.name {
            row.name = name.clone();
        }
        if let Some(description) = &item.description {
            row.description = description.clone();
        }
        row.updated_at = now;
        Ok(Store::copy(row))
    }

    fn delete(&mut self, id: i32) -> Result<u64, StoreError> {
        let before = self.rows.len();
        self.rows.retain(|row| row.id != id);
        Ok((before - self.rows.len()) as u64)
    }
}

fn one_item(reply: Reply) -> Item {
    match reply.body {
        Body::One(item) => item,
        other => panic!("expected one item, got {:?}", other),
    }
}

fn sample_record(id: i32, name: &str) -> Record {
    Record {
        id,
        name: String::from(name),
        description: String::from("a description"),
        created_at: Timestamp { seconds: 10, nanos: 5 },
        updated_at: Timestamp { seconds: 20, nanos: 6 },
    }
}

#[test]
fn test_crud_operations() {
    let mut store = Store::new();

    // Test Create
    let create = CreateItem {
        name: "Test Item".to_string(),
        description: "Test Description".to_string(),
    };
    let resp = create_item(store.insert(&create));
    assert!(resp.status.is_success());
    let item = one_item(resp);
    assert_eq!(item.name, "Test Item");
    assert_eq!(item.description, "Test Description");
    let item_id = item.id.unwrap();

    // Test Read
    let resp = get_item(store.fetch(item_id));
    assert!(resp.status.is_success());
    let item = one_item(resp);
    assert_eq!(item.name, "Test Item");

    // Test Update
    let update = UpdateItem {
        name: Some("Updated Item".to_string()),
        description: Some("Updated Description".to_string()),
    };
    let resp = update_item(store.update(item_id, &update));
    assert!(resp.status.is_success());
    let item = one_item(resp);
    assert_eq!(item.name, "Updated Item");
    assert_eq!(item.description, "Updated Description");

    // Test Delete
    let resp = delete_item(store.delete(item_id));
    assert!(resp.status.is_success());

    // Verify deletion
    let resp = get_item(store.fetch(item_id));
    assert!(resp.status.is_client_error());
}

#[test]
fn status_codes_on_the_wire() {
    assert_eq!(Status::Okay.code(), 200);
    assert_eq!(Status::Created.code(), 201);
    assert_eq!(Status::NoContent.code(), 204);
    assert_eq!(Status::NotFound.code(), 404);
    assert_eq!(Status::InternalServerError.code(), 500);
}

#[test]
fn only_the_two_hundreds_are_success() {
    assert!(Status::Okay.is_success());
    assert!(Status::Created.is_success());
    assert!(Status::NoContent.is_success());
    assert!(!Status::NotFound.is_success());
    assert!(!Status::InternalServerError.is_success());
    assert!(Status::NotFound.is_client_error());
    assert!(!Status::InternalServerError.is_client_error());
    assert!(!Status::Okay.is_client_error());
}

#[test]
fn a_record_becomes_an_item_with_every_field_present() {
    let item = sample_record(7, "seven").to_item();
    assert_eq!(
        item,
        Item {
            id: Some(7),
            name: String::from("seven"),
            description: String::from("a description"),
            created_at: Some(Timestamp { seconds: 10, nanos: 5 }),
            updated_at: Some(Timestamp { seconds: 20, nanos: 6 }),
        }
    );
}

#[test]
fn create_answers_created_with_the_new_item() {
    let reply = create_item(Ok(sample_record(1, "one")));
    assert_eq!(reply.status, Status::Created);
    assert_eq!(reply.body, Body::One(sample_record(1, "one").to_item()));
}

#[test]
fn create_answers_internal_server_error_when_the_store_fails() {
    assert_eq!(
        create_item(Err(StoreError)),
        Reply { status: Status::InternalServerError, body: Body::Empty }
    );
}

#[test]
fn list_keeps_the_order_of_the_store() {
    let reply = get_items(Ok(vec![
        sample_record(3, "three"),
        sample_record(1, "one"),
        sample_record(2, "two"),
    ]));
    assert_eq!(reply.status, Status::Okay);
    assert_eq!(
        reply.body,
        Body::Many(vec![
            sample_record(3, "three").to_item(),
            sample_record(1, "one").to_item(),
            sample_record(2, "two").to_item(),
        ])
    );
}

#[test]
fn list_of_an_empty_store_is_empty() {
    assert_eq!(
        get_items(Ok(Vec::new())),
        Reply { status: Status::Okay, body: Body::Many(Vec::new()) }
    );
}

#[test]
fn list_answers_internal_server_error_when_the_store_fails() {
    assert_eq!(
        get_items(Err(StoreError)),
        Reply { status: Status::InternalServerError, body: Body::Empty }
    );
}

#[test]
fn list_shows_the_newest_item_first() {
    let mut store = Store::new();
    for name in ["first", "second", "third"] {
        store
            .insert(&CreateItem { name: name.to_string(), description: String::new() })
            .unwrap();
    }
    match get_items(store.all()).body {
        Body::Many(items) => {
            let names: Vec<&str> = items.iter().map(|item| item.name.as_str()).collect();
            assert_eq!(names, vec!["third", "second", "first"]);
        }
        other => panic!("expected a list, got {:?}", other),
    }
}

#[test]
fn fetch_answers_ok_or_not_found() {
    let reply = get_item(Ok(sample_record(5, "five")));
    assert_eq!(reply.status, Status::Okay);
    assert_eq!(one_item(reply).id, Some(5));
    assert_eq!(get_item(Err(StoreError)), Reply { status: Status::NotFound, body: Body::Empty });
}

#[test]
fn update_answers_ok_or_not_found() {
    let reply = update_item(Ok(sample_record(5, "five")));
    assert_eq!(reply.status, Status::Okay);
    assert_eq!(one_item(reply).name, "five");
    assert_eq!(update_item(Err(StoreError)), Reply { status: Status::NotFound, body: Body::Empty });
}

#[test]
fn update_keeps_a_field_that_is_left_out() {
    let mut store = Store::new();
    let created = store
        .insert(&CreateItem { name: "kept".to_string(), description: "old".to_string() })
        .unwrap();
    let update = UpdateItem { name: None, description: Some("new".to_string()) };
    let item = one_item(update_item(store.update(created.id, &update)));
    assert_eq!(item.name, "kept");
    assert_eq!(item.description, "new");
    assert_eq!(item.created_at, Some(created.created_at));
    assert_ne!(item.updated_at, Some(created.updated_at));
}

#[test]
fn delete_answers_no_content_or_internal_server_error() {
    assert_eq!(delete_item(Ok(1)), Reply { status: Status::NoContent, body: Body::Empty });
    assert_eq!(delete_item(Ok(0)), Reply { status: Status::NoContent, body: Body::Empty });
    assert_eq!(
        delete_item(Err(StoreError)),
        Reply { status: Status::InternalServerError, body: Body::Empty }
    );
}
