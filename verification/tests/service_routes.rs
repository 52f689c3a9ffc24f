use items_api::http::Body;
use items_api::http::DbError;
use items_api::http::ItemService;
use items_api::http::Request;
use items_api::http::respond_create;
use items_api::http::respond_delete;
use items_api::http::respond_delete_all;
use items_api::http::respond_get;
use items_api::http::respond_list;
use items_api::http::respond_root;
use items_api::http::respond_update;

#[test]
fn scenario_create_get_delete_get_delete_all() {
    let mut service = ItemService::new();

    let created = service.handle(Request::CreateItem {
        name: String::from("pen"),
        description: String::from("blue"),
    });
    assert_eq!(created.status, 201);
    match created.body {
        Body::ItemBody(item) => {
            assert_eq!(item.id, 1);
            assert_eq!(item.name, "pen");
            assert_eq!(item.description, "blue");
        }
        _ => panic!("create must answer with the persisted item"),
    }

    let fetched = service.handle(Request::GetItem { id: 1 });
    assert_eq!(fetched.status, 200);
    match fetched.body {
        Body::ItemBody(item) => {
            assert_eq!(item.id, 1);
            assert_eq!(item.name, "pen");
            assert_eq!(item.description, "blue");
        }
        _ => panic!("get must answer with the matching item"),
    }

    let deleted = service.handle(Request::DeleteItem { id: 1 });
    assert_eq!(deleted.status, 204);
    assert!(matches!(deleted.body, Body::Empty));

    let missing = service.handle(Request::GetItem { id: 1 });
    assert_eq!(missing.status, 404);
    assert!(matches!(missing.body, Body::Empty));

    let cleared = service.handle(Request::DeleteAllItems);
    assert_eq!(cleared.status, 200);
    match cleared.body {
        Body::DeletedCount(count) => assert_eq!(count, 0),
        _ => panic!("delete-all must answer with the deleted count"),
    }
}

#[test]
fn root_route_answers_banner() {
    let mut service = ItemService::new();
    let resp = service.handle(Request::Root);
    assert_eq!(resp.status, 200);
    match resp.body {
        Body::Text(text) => assert_eq!(text, "Items API :)"),
        _ => panic!("root must answer plain text"),
    }
    let direct = respond_root();
    assert_eq!(direct.status, 200);
}

#[test]
fn list_route_answers_all_rows() {
    let mut service = ItemService::new();
    service.handle(Request::CreateItem {
        name: String::from("a"),
        description: String::from("1"),
    });
    service.handle(Request::CreateItem {
        name: String::from("b"),
        description: String::from("2"),
    });
    let resp = service.handle(Request::ListItems);
    assert_eq!(resp.status, 200);
    match resp.body {
        Body::Items(items) => {
            assert_eq!(items.len(), 2);
            assert_eq!(items[0].name, "a");
            assert_eq!(items[1].name, "b");
        }
        _ => panic!("list must answer with the rows"),
    }
}

#[test]
fn update_route_answers_updated_row_or_not_found() {
    let mut service = ItemService::new();
    service.handle(Request::CreateItem {
        name: String::from("pen"),
        description: String::from("blue"),
    });
    let updated = service.handle(Request::UpdateItem {
        id: 1,
        name: String::from("pencil"),
        description: String::from("green"),
    });
    assert_eq!(updated.status, 200);
    match updated.body {
        Body::ItemBody(item) => {
            assert_eq!(item.id, 1);
            assert_eq!(item.name, "pencil");
            assert_eq!(item.description, "green");
        }
        _ => panic!("update must answer with the updated item"),
    }
    let missing = service.handle(Request::UpdateItem {
        id: 7,
        name: String::from("x"),
        description: String::from("y"),
    });
    assert_eq!(missing.status, 404);
    assert!(matches!(missing.body, Body::Empty));
}

#[test]
fn driver_failures_answer_internal_error() {
    let created = respond_create(Err(DbError));
    assert_eq!(created.status, 500);
    assert!(matches!(created.body, Body::Empty));

    let listed = respond_list(Err(DbError));
    assert_eq!(listed.status, 500);
    assert!(matches!(listed.body, Body::Empty));

    let fetched = respond_get(Err(DbError));
    assert_eq!(fetched.status, 500);
    assert!(matches!(fetched.body, Body::Empty));

    let updated = respond_update(Err(DbError));
    assert_eq!(updated.status, 500);
    assert!(matches!(updated.body, Body::Empty));

    let deleted = respond_delete(Err(DbError));
    assert_eq!(deleted.status, 500);
    assert!(matches!(deleted.body, Body::Empty));

    let cleared = respond_delete_all(Err(DbError));
    assert_eq!(cleared.status, 500);
    assert!(matches!(cleared.body, Body::Empty));
}

#[test]
fn delete_route_reports_miss_after_hit() {
    let mut service = ItemService::new();
    service.handle(Request::CreateItem {
        name: String::from("pen"),
        description: String::from("blue"),
    });
    let hit = service.handle(Request::DeleteItem { id: 1 });
    assert_eq!(hit.status, 204);
    let miss = service.handle(Request::DeleteItem { id: 1 });
    assert_eq!(miss.status, 404);
}
