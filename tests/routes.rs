use restaurant_api::adapter::{
    create_restaurant, created_response, decode_id, delete_restaurant, deleted_response,
    failure_response, get_restaurant, invalid_body_response, invalid_update_response, list_response, list_restaurants,
    record_response, update_restaurant, Body, Response, Status, PAGE_SIZE,
};
use restaurant_api::error::AppError;
use restaurant_api::model::{Restaurant, RestaurantPatch};
use restaurant_api::repo::MemoryRepo;

fn record(name: &str, cuisine: &str) -> Restaurant {
    Restaurant {
        name: name.to_string(),
        cuisine: cuisine.to_string(),
        ..Default::default()
    }
}

fn body_record(resp: &Response) -> &Restaurant {
    match &resp.body {
        Body::Record(r) => r,
        other => panic!("expected a record, got {:?}", other),
    }
}

fn body_text(resp: &Response) -> &str {
    match &resp.body {
        Body::Text(t) => t,
        other => panic!("expected text, got {:?}", other),
    }
}

#[test]
fn status_codes() {
    assert_eq!(Status::Success.code(), 200);
    assert_eq!(Status::Created.code(), 201);
    assert_eq!(Status::NoContent.code(), 204);
    assert_eq!(Status::BadRequest.code(), 400);
    assert_eq!(Status::NotFound.code(), 404);
    assert_eq!(Status::InternalServerError.code(), 500);
}

#[test]
fn error_mapping() {
    let r = failure_response(AppError::NotFound);
    assert_eq!(r.status, Status::NotFound);
    assert!(matches!(r.body, Body::Empty));
    let r = failure_response(AppError::InvalidObjectId("zz".to_string()));
    assert_eq!(r.status, Status::BadRequest);
    assert_eq!(body_text(&r), "Invalid ID format");
    let r = failure_response(AppError::Serialization("line 1".to_string()));
    assert_eq!(r.status, Status::BadRequest);
    assert_eq!(body_text(&r), "Invalid request body");
    let r = failure_response(AppError::BadRequest("x".to_string()));
    assert_eq!(r.status, Status::BadRequest);
    assert_eq!(body_text(&r), "Invalid request body");
    let r = failure_response(AppError::MongoDB("connection refused".to_string()));
    assert_eq!(r.status, Status::InternalServerError);
    assert_eq!(body_text(&r), "MongoDB error: connection refused");
    let r = failure_response(AppError::HandlerError("cancelled".to_string()));
    assert_eq!(r.status, Status::InternalServerError);
    assert_eq!(body_text(&r), "Handler error: cancelled");
    let r = invalid_update_response();
    assert_eq!(r.status, Status::BadRequest);
    assert_eq!(body_text(&r), "Invalid update document");
    let r = invalid_body_response();
    assert_eq!(r.status, Status::BadRequest);
    assert_eq!(body_text(&r), "Invalid request body");
}

#[test]
fn success_encodings() {
    let r = created_response(Ok(record("A", "")));
    assert_eq!(r.status, Status::Created);
    assert_eq!(body_record(&r).name, "A");
    let r = record_response(Ok(record("B", "")));
    assert_eq!(r.status, Status::Success);
    assert_eq!(body_record(&r).name, "B");
    let r = list_response(Ok(vec![record("C", ""), record("D", "")]));
    assert_eq!(r.status, Status::Success);
    match &r.body {
        Body::Records(v) => assert_eq!(v.len(), 2),
        other => panic!("unexpected {:?}", other),
    }
    let r = deleted_response(Ok(()));
    assert_eq!(r.status, Status::NoContent);
    assert!(matches!(r.body, Body::Empty));
    let r = created_response(Err(AppError::MongoDB("dup".to_string())));
    assert_eq!(r.status, Status::InternalServerError);
}

#[test]
fn decode_id_short_circuits() {
    let err = decode_id("anything").unwrap_err();
    assert_eq!(err.status, Status::BadRequest);
    assert_eq!(body_text(&err), "Invalid ID format");
    assert!(decode_id("5f43a1b2c3d4e5f601234567").is_ok());
}

#[test]
fn unknown_identifier_is_not_found_on_every_route() {
    let mut repo = MemoryRepo::new();
    let absent = "5f43a1b2c3d4e5f601234567";
    assert_eq!(get_restaurant(&repo, absent).status, Status::NotFound);
    let mut patch = RestaurantPatch::new();
    patch.name = Some("X".to_string());
    assert_eq!(update_restaurant(&mut repo, absent, &patch).status, Status::NotFound);
    assert_eq!(delete_restaurant(&mut repo, absent).status, Status::NotFound);
    assert_eq!(get_restaurant(&repo, "anything").status, Status::BadRequest);
    assert_eq!(update_restaurant(&mut repo, "anything", &patch).status, Status::BadRequest);
    assert_eq!(delete_restaurant(&mut repo, "anything").status, Status::BadRequest);
}

#[test]
fn record_body_is_the_repository_record() {
    let mut repo = MemoryRepo::new();
    let created = repo.create_restaurant(record("A", "Thai")).unwrap();
    let text = created.id.unwrap().to_hex();
    let resp = get_restaurant(&repo, &text);
    assert_eq!(resp.status, Status::Success);
    assert!(body_record(&resp).same(&created));
}

#[test]
fn list_route_returns_one_page() {
    let mut repo = MemoryRepo::new();
    for i in 0..12 {
        repo.create_restaurant(record(&format!("R{}", i), "")).unwrap();
    }
    let resp = list_restaurants(&repo);
    assert_eq!(resp.status, Status::Success);
    match &resp.body {
        Body::Records(v) => {
            assert_eq!(v.len() as i64, PAGE_SIZE);
            assert_eq!(v[0].name, "R0");
            assert_eq!(v[9].name, "R9");
        }
        other => panic!("unexpected {:?}", other),
    }
}

#[test]
fn create_on_empty_store_succeeds_and_duplicate_is_server_error() {
    let mut repo = MemoryRepo::new();
    let first = create_restaurant(&mut repo, record("A", ""));
    assert_eq!(first.status, Status::Created);
    let again = body_record(&first).copy();
    let dup = create_restaurant(&mut repo, again);
    assert_eq!(dup.status, Status::InternalServerError);
    assert_eq!(body_text(&dup), "MongoDB error: duplicate key error on _id");
}

#[test]
fn end_to_end_scenario() {
    let mut repo = MemoryRepo::new();
    let created = create_restaurant(&mut repo, record("Pizza Place", "Italian"));
    assert_eq!(created.status.code(), 201);
    let body = body_record(&created);
    assert_eq!(body.name, "Pizza Place");
    assert_eq!(body.cuisine, "Italian");
    let id_text = body.id.expect("a newly assigned id").to_hex();

    let fetched = get_restaurant(&repo, &id_text);
    assert_eq!(fetched.status.code(), 200);
    assert!(body_record(&fetched).same(body));

    let mut patch = RestaurantPatch::new();
    patch.cuisine = Some("American".to_string());
    let updated = update_restaurant(&mut repo, &id_text, &patch);
    assert_eq!(updated.status.code(), 200);
    let fetched = get_restaurant(&repo, &id_text);
    assert_eq!(body_record(&fetched).cuisine, "American");
    assert_eq!(body_record(&fetched).name, "Pizza Place");

    let deleted = delete_restaurant(&mut repo, &id_text);
    assert_eq!(deleted.status.code(), 204);
    assert!(matches!(deleted.body, Body::Empty));
    assert_eq!(get_restaurant(&repo, &id_text).status.code(), 404);
}
