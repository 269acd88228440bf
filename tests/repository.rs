use restaurant_api::error::AppError;
use restaurant_api::model::{Address, Grade, Restaurant, RestaurantPatch};
use restaurant_api::object_id::RecordId;
use restaurant_api::repo::{
    cap_reached, deleted_outcome, found_or_not_found, modified_outcome, MemoryRepo,
};

fn record(name: &str, cuisine: &str) -> Restaurant {
    Restaurant {
        name: name.to_string(),
        cuisine: cuisine.to_string(),
        ..Default::default()
    }
}

fn id_of(r: &Restaurant) -> RecordId {
    r.id.expect("stored records carry an identifier")
}

#[test]
fn parse_accepts_twenty_four_hex_digits() {
    let id = RecordId::parse("0123456789abcdefABCDEF01").unwrap();
    assert_eq!(
        id.bytes,
        [0x01, 0x23, 0x45, 0x67, 0x89, 0xab, 0xcd, 0xef, 0xab, 0xcd, 0xef, 0x01]
    );
}

#[test]
fn parse_rejects_other_text() {
    for text in ["anything", "", "0123456789abcdef0123456", "0123456789abcdef012345678", "0123456789abcdef0123456g"] {
        match RecordId::parse(text) {
            Err(AppError::InvalidObjectId(t)) => assert_eq!(t, text),
            other => panic!("unexpected {:?}", other),
        }
    }
}

#[test]
fn hex_text_is_lower_case_and_parses_back() {
    let id = RecordId { bytes: [0xAB, 0, 1, 2, 3, 4, 5, 6, 7, 8, 9, 0xFF] };
    let text = id.to_hex();
    assert_eq!(text, "ab00010203040506070809ff");
    assert!(RecordId::parse(&text).unwrap().same(&id));
}

#[test]
fn generated_identifiers_differ() {
    let a = RecordId::generate();
    let b = RecordId::generate();
    assert!(!a.same(&b));
    assert_eq!(a.to_hex().len(), 24);
}

#[test]
fn error_messages() {
    assert_eq!(AppError::MongoDB("down".to_string()).message(), "MongoDB error: down");
    assert_eq!(AppError::InvalidObjectId("x".to_string()).message(), "Invalid object ID: x");
    assert_eq!(AppError::Serialization("eof".to_string()).message(), "Serialization error: eof");
    assert_eq!(AppError::HandlerError("panic".to_string()).message(), "Handler error: panic");
    assert_eq!(AppError::NotFound.message(), "Not found");
    assert_eq!(AppError::BadRequest("no".to_string()).message(), "Bad request: no");
    assert!(AppError::NotFound.is_not_found());
    assert!(!AppError::BadRequest(String::new()).is_not_found());
}

#[test]
fn storage_outcome_decisions() {
    assert!(matches!(found_or_not_found(None), Err(AppError::NotFound)));
    let r = found_or_not_found(Some(record("A", "B"))).unwrap();
    assert_eq!(r.name, "A");
    assert!(cap_reached(0, 0));
    assert!(cap_reached(0, -3));
    assert!(!cap_reached(9, 10));
    assert!(cap_reached(10, 10));
    assert!(matches!(modified_outcome(0), Err(AppError::NotFound)));
    assert!(modified_outcome(1).is_ok());
    assert!(matches!(deleted_outcome(0), Err(AppError::NotFound)));
    assert!(deleted_outcome(2).is_ok());
}

#[test]
fn create_then_get_returns_the_stored_record() {
    let mut repo = MemoryRepo::new();
    let mut input = record("Pizza Place", "Italian");
    input.grades = vec![
        Grade { date: 1_393_804_800_000, grade: "A".to_string(), score: 2 },
        Grade { date: 1_378_857_600_000, grade: "B".to_string(), score: 14 },
    ];
    input.address = Some(Address {
        building: "1007".to_string(),
        coord: vec![(-73.856077f64).to_bits(), 40.848447f64.to_bits()],
        street: "Morris Park Ave".to_string(),
        zipcode: "10462".to_string(),
    });
    let created = repo.create_restaurant(input.copy()).unwrap();
    assert!(created.id.is_some());
    assert_eq!(created.name, "Pizza Place");
    assert_eq!(created.grades.len(), 2);
    assert_eq!(created.grades[1].score, 14);
    let fetched = repo.get_restaurant_by_id(id_of(&created)).unwrap();
    assert!(fetched.same(&created));
    assert_eq!(f64::from_bits(fetched.address.unwrap().coord[0]), -73.856077);
    assert_eq!(repo.len(), 1);
}

#[test]
fn create_keeps_a_given_identifier_and_refuses_a_duplicate() {
    let mut repo = MemoryRepo::new();
    let id = RecordId::parse("5f43a1b2c3d4e5f601234567").unwrap();
    let mut a = record("A", "");
    a.id = Some(id);
    let created = repo.create_restaurant(a.copy()).unwrap();
    assert!(id_of(&created).same(&id));
    assert!(matches!(repo.create_restaurant(a), Err(AppError::MongoDB(_))));
    assert_eq!(repo.len(), 1);
}

#[test]
fn absent_identifier_is_not_found() {
    let mut repo = MemoryRepo::new();
    repo.create_restaurant(record("A", "")).unwrap();
    let id = RecordId::parse("000000000000000000000000").unwrap();
    assert!(matches!(repo.get_restaurant_by_id(id), Err(AppError::NotFound)));
    assert!(matches!(repo.delete_restaurant(id), Err(AppError::NotFound)));
    assert_eq!(repo.len(), 1);
}

#[test]
fn list_is_capped() {
    let mut repo = MemoryRepo::new();
    assert_eq!(repo.get_restaurants(5).unwrap().len(), 0);
    for name in ["A", "B", "C"] {
        repo.create_restaurant(record(name, "")).unwrap();
    }
    assert_eq!(repo.get_restaurants(0).unwrap().len(), 0);
    assert_eq!(repo.get_restaurants(-1).unwrap().len(), 0);
    let two = repo.get_restaurants(2).unwrap();
    assert_eq!(two.len(), 2);
    assert_eq!(two[0].name, "A");
    assert_eq!(two[1].name, "B");
    let all = repo.get_restaurants(10).unwrap();
    assert_eq!(all.len(), 3);
    assert_eq!(all[2].name, "C");
    assert_eq!(repo.get_restaurants(i64::MAX).unwrap().len(), 3);
}

#[test]
fn rename_keeps_other_fields() {
    let mut repo = MemoryRepo::new();
    let mut input = record("Old", "Thai");
    input.borough = "Queens".to_string();
    input.restaurant_id = "30075445".to_string();
    let created = repo.create_restaurant(input).unwrap();
    let mut patch = RestaurantPatch::new();
    patch.name = Some("X".to_string());
    let updated = repo.update_restaurant(id_of(&created), &patch).unwrap();
    assert_eq!(updated.name, "X");
    let fetched = repo.get_restaurant_by_id(id_of(&created)).unwrap();
    assert!(fetched.same(&updated));
    assert_eq!(fetched.name, "X");
    assert_eq!(fetched.cuisine, "Thai");
    assert_eq!(fetched.borough, "Queens");
    assert_eq!(fetched.restaurant_id, "30075445");
    assert!(id_of(&fetched).same(&id_of(&created)));
}

#[test]
fn update_that_changes_nothing_is_not_found() {
    let mut repo = MemoryRepo::new();
    let created = repo.create_restaurant(record("Same", "")).unwrap();
    let mut patch = RestaurantPatch::new();
    patch.name = Some("Same".to_string());
    assert!(matches!(repo.update_restaurant(id_of(&created), &patch), Err(AppError::NotFound)));
    let empty = RestaurantPatch::new();
    assert!(matches!(repo.update_restaurant(id_of(&created), &empty), Err(AppError::NotFound)));
    let absent = RecordId::parse("ffffffffffffffffffffffff").unwrap();
    patch.name = Some("Other".to_string());
    assert!(matches!(repo.update_restaurant(absent, &patch), Err(AppError::NotFound)));
}

#[test]
fn update_merges_structured_fields() {
    let mut repo = MemoryRepo::new();
    let created = repo.create_restaurant(record("A", "")).unwrap();
    let mut patch = RestaurantPatch::new();
    patch.address = Some(Some(Address { street: "Main".to_string(), ..Default::default() }));
    patch.grades = Some(vec![Grade { date: 0, grade: "C".to_string(), score: 30 }]);
    let updated = repo.update_restaurant(id_of(&created), &patch).unwrap();
    assert_eq!(updated.address.as_ref().unwrap().street, "Main");
    assert_eq!(updated.grades[0].grade, "C");
    assert_eq!(updated.name, "A");
    patch = RestaurantPatch::new();
    patch.address = Some(None);
    let cleared = repo.update_restaurant(id_of(&created), &patch).unwrap();
    assert!(cleared.address.is_none());
    assert_eq!(cleared.grades.len(), 1);
}

#[test]
fn delete_then_get_is_not_found() {
    let mut repo = MemoryRepo::new();
    let kept = repo.create_restaurant(record("Kept", "")).unwrap();
    let gone = repo.create_restaurant(record("Gone", "")).unwrap();
    assert!(repo.delete_restaurant(id_of(&gone)).is_ok());
    assert!(matches!(repo.get_restaurant_by_id(id_of(&gone)), Err(AppError::NotFound)));
    assert!(matches!(repo.delete_restaurant(id_of(&gone)), Err(AppError::NotFound)));
    assert_eq!(repo.len(), 1);
    assert_eq!(repo.get_restaurant_by_id(id_of(&kept)).unwrap().name, "Kept");
}
