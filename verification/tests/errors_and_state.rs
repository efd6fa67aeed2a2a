//! The error taxonomy's surface, the serializable error body, and the
//! process-wide application state.

use ponzu_back::app_error::AppError;
use ponzu_back::crud::CrudService;
use ponzu_back::app_state::AppState;
use ponzu_back::demographic::{Demographic, DemographicCollConf};
use ponzu_back::error_response::SerializableError;
use ponzu_back::genre::CreateGenreDto;
use ponzu_back::magazine::CreateMagazineDto;

#[test]
fn status_codes_follow_the_taxonomy() {
    assert_eq!(AppError::StorageError("x".to_string()).status_code(), 500);
    assert_eq!(AppError::NotFound("x".to_string()).status_code(), 404);
    assert_eq!(AppError::InvalidIdentifier("x".to_string()).status_code(), 400);
    assert_eq!(AppError::InternalServerError("x".to_string()).status_code(), 500);
}

#[test]
fn errors_carry_their_message() {
    let e = AppError::NotFound("no such club".to_string());
    assert_eq!(e.message(), "no such club");
}

#[test]
fn errors_serialize_with_message_and_status() {
    let e = AppError::InvalidIdentifier("bad id".to_string());
    let body = e.to_response();
    assert_eq!(body, SerializableError::new("bad id".to_string(), 400));
}

#[test]
fn storage_failures_are_masked_at_the_boundary() {
    let e = AppError::StorageError("driver: connection reset by peer".to_string());
    let body = e.to_response();
    assert_eq!(body.error, "Database error");
    assert_eq!(body.status, 500);
    // the driver detail stays available internally, for logging
    assert_eq!(e.message(), "driver: connection reset by peer");
}

#[test]
fn serializable_error_keeps_its_parts() {
    let body = SerializableError::new("oops".to_string(), 500);
    assert_eq!(body.error, "oops");
    assert_eq!(body.status, 500);
}

#[test]
fn app_state_starts_with_empty_collections() {
    let mut state = AppState::new();
    assert_eq!(state.genre_service.count::<ponzu_back::genre::GenreFilter>(None), 0);
    assert_eq!(state.anime_service.get_all().unwrap().len(), 0);
    let created = state
        .genre_service
        .create(CreateGenreDto {
            mal_id: 1,
            kind: "anime".to_string(),
            name: "Action".to_string(),
            count: 0,
        })
        .unwrap();
    assert!(created.id.is_some());
    let mag = state
        .magazine_service
        .create(CreateMagazineDto {
            mal_id: 5,
            name: "Weekly".to_string(),
            count: 3,
        })
        .unwrap();
    assert_eq!(mag.name, "Weekly");
    // the two collections are independent
    assert_eq!(state.genre_service.get_all().unwrap().len(), 1);
    assert_eq!(state.magazine_service.get_all().unwrap().len(), 1);
}

#[test]
fn demographics_are_built_from_their_parts() {
    let d = Demographic::new(12, "Shounen".to_string(), "manga".to_string());
    assert_eq!(d.mal_id, 12);
    assert_eq!(d.name, "Shounen");
    assert_eq!(d.kind, "manga");
}

#[test]
fn demographic_collection_configuration() {
    assert_eq!(DemographicCollConf::collection_name(), "demographic");
    assert_eq!(DemographicCollConf::indexes(), vec!["mal_id", "name"]);
}
