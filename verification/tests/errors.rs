use dafoerum::api::helper::get_db;
use dafoerum::api::ApiError;
use dafoerum::error::FailureKind;

#[test]
fn message_of_each_failure() {
    assert_eq!(
        ApiError::ServerFn("timeout".to_string()).message(),
        "server fn error: timeout"
    );
    assert_eq!(ApiError::Db("down".to_string()).message(), "opaque mongodb error: down");
    assert_eq!(
        ApiError::DbDeSer("bad field".to_string()).message(),
        "(de)serialization error in db: bad field"
    );
    assert_eq!(ApiError::DbNotInContext.message(), "database not in leptos context");
    assert_eq!(
        ApiError::NotFound("thread".to_string(), 999).message(),
        "thread with id 999 doesn't exist in the database"
    );
    assert_eq!(ApiError::EmptyContent.message(), "content cannot be empty");
    assert_eq!(ApiError::EmptySubject.message(), "subject cannot be empty");
    assert_eq!(
        ApiError::CounterNotProvisioned("post".to_string()).message(),
        "no counter is provisioned for post"
    );
    assert_eq!(
        ApiError::CounterExhausted("post".to_string()).message(),
        "the counter is exhausted for post"
    );
    assert_eq!(ApiError::ClockOutOfRange.message(), "the system clock is out of range");
}

#[test]
fn not_found_names_kind_and_id() {
    match ApiError::not_found("forum", 0) {
        ApiError::NotFound(kind, id) => {
            assert_eq!(kind, "forum");
            assert_eq!(id, 0);
        }
        other => panic!("unexpected failure: {:?}", other),
    }
    assert_eq!(
        ApiError::not_found("post", u32::MAX).message(),
        "post with id 4294967295 doesn't exist in the database"
    );
}

#[test]
fn classification_of_store_failures() {
    assert!(matches!(
        ApiError::classify(FailureKind::Serialization, "a".to_string()),
        ApiError::DbDeSer(ref d) if d == "a"
    ));
    assert!(matches!(
        ApiError::classify(FailureKind::Deserialization, "b".to_string()),
        ApiError::DbDeSer(ref d) if d == "b"
    ));
    assert!(matches!(
        ApiError::classify(FailureKind::Other, "c".to_string()),
        ApiError::Db(ref d) if d == "c"
    ));
}

#[test]
fn driver_serialization_error_becomes_deser() {
    let failure = mongodb::bson::to_document(&"not a document").unwrap_err();
    let error = mongodb::error::Error::from(failure);
    let text = error.to_string();
    match ApiError::from(error) {
        ApiError::DbDeSer(details) => assert_eq!(details, text),
        other => panic!("unexpected failure: {:?}", other),
    }
}

#[test]
fn driver_deserialization_error_becomes_deser() {
    let failure =
        mongodb::bson::from_document::<u32>(mongodb::bson::Document::new()).unwrap_err();
    let error = mongodb::error::Error::from(failure);
    let text = error.to_string();
    match ApiError::from(error) {
        ApiError::DbDeSer(details) => assert_eq!(details, text),
        other => panic!("unexpected failure: {:?}", other),
    }
}

#[test]
fn other_driver_error_becomes_db() {
    let error = mongodb::error::Error::custom("the cable is out".to_string());
    let text = error.to_string();
    assert!(!text.is_empty());
    match ApiError::from(error) {
        ApiError::Db(details) => assert_eq!(details, text),
        other => panic!("unexpected failure: {:?}", other),
    }
    let error = mongodb::error::Error::from(std::io::ErrorKind::ConnectionRefused);
    assert!(matches!(ApiError::from(error), ApiError::Db(_)));
}

#[test]
fn clone_keeps_the_failure() {
    let e = ApiError::NotFound("forum".to_string(), 3);
    assert_eq!(e.clone().message(), e.message());
}

#[test]
fn absent_store_is_reported() {
    assert_eq!(get_db(Some(5u8)).unwrap(), 5);
    assert!(matches!(get_db::<u8>(None), Err(ApiError::DbNotInContext)));
}
