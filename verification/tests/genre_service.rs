//! End-to-end service behaviour, exercised on the genre collection:
//! creation hydrates an identifier, lookups find exactly the created
//! record, deletes make it unfindable without turning into errors,
//! partial updates change exactly the present fields, and pagination
//! windows line up with the counted total.

use ponzu_back::app_error::AppError;
use ponzu_back::crud::{CrudService, CrudServiceImpl};
use ponzu_back::db_repo::{DatabaseRepository, FindOptions};
use ponzu_back::genre::{CreateGenreDto, Genre, GenreDto, GenreFilter, UpdateGenreDto};

type GenreService = CrudServiceImpl<Genre, GenreDto, CreateGenreDto, UpdateGenreDto>;

fn service() -> GenreService {
    CrudServiceImpl::new(DatabaseRepository::new())
}

fn genre(mal_id: u64, kind: &str, name: &str, count: u64) -> CreateGenreDto {
    CreateGenreDto {
        mal_id,
        kind: kind.to_string(),
        name: name.to_string(),
        count,
    }
}

#[test]
fn create_assigns_an_identifier() {
    let mut svc = service();
    let created = svc.create(genre(1, "anime", "Action", 10)).unwrap();
    let id = created.id.clone().expect("storage assigns an identifier");
    assert_eq!(id.len(), 24);
    assert_eq!(created.mal_id, 1);
    assert_eq!(created.name, "Action");
}

#[test]
fn create_then_get_by_id_returns_an_equal_record() {
    let mut svc = service();
    svc.create(genre(1, "anime", "Action", 10)).unwrap();
    let created = svc.create(genre(2, "manga", "Drama", 7)).unwrap();
    let id = created.id.clone().unwrap();
    let got = svc.get_by_id(&id).unwrap().expect("created record is found");
    assert_eq!(got, created);
}

#[test]
fn distinct_records_get_distinct_identifiers() {
    let mut svc = service();
    let a = svc.create(genre(1, "anime", "Action", 0)).unwrap();
    let b = svc.create(genre(1, "anime", "Action", 0)).unwrap();
    assert_ne!(a.id, b.id);
}

#[test]
fn delete_then_get_by_id_is_none_not_an_error() {
    let mut svc = service();
    let created = svc.create(genre(1, "anime", "Action", 10)).unwrap();
    let id = created.id.clone().unwrap();
    assert_eq!(svc.delete(&id).unwrap(), true);
    let after = svc.get_by_id(&id);
    assert!(matches!(after, Ok(None)));
}

#[test]
fn deleting_twice_reports_nothing_removed() {
    let mut svc = service();
    let created = svc.create(genre(1, "anime", "Action", 10)).unwrap();
    let id = created.id.clone().unwrap();
    assert_eq!(svc.delete(&id).unwrap(), true);
    assert_eq!(svc.delete(&id).unwrap(), false);
}

#[test]
fn malformed_id_fails_as_invalid_identifier_never_not_found() {
    let mut svc = service();
    svc.create(genre(1, "anime", "Action", 10)).unwrap();
    for bad in ["", "abc", "0123456789abcdef0123456g", "0123456789abcdef0123456", "not-an-identifier-string"] {
        let got = svc.get_by_id(bad);
        assert!(
            matches!(got, Err(AppError::InvalidIdentifier(_))),
            "{:?} must be rejected as a malformed identifier",
            bad
        );
    }
}

#[test]
fn absent_but_well_formed_id_is_none() {
    let svc = service();
    let got = svc.get_by_id("0123456789abcdef01234567");
    assert!(matches!(got, Ok(None)));
}

#[test]
fn update_on_absent_record_is_not_found() {
    let mut svc = service();
    let upd = UpdateGenreDto {
        mal_id: None,
        kind: None,
        name: Some("New".to_string()),
        count: None,
    };
    let got = svc.update("0123456789abcdef01234567", upd);
    assert!(matches!(got, Err(AppError::NotFound(_))));
}

#[test]
fn update_with_malformed_id_is_invalid_identifier() {
    let mut svc = service();
    let upd = UpdateGenreDto {
        mal_id: None,
        kind: None,
        name: None,
        count: None,
    };
    let got = svc.update("zz", upd);
    assert!(matches!(got, Err(AppError::InvalidIdentifier(_))));
}

#[test]
fn update_changes_exactly_the_present_fields() {
    let mut svc = service();
    let created = svc.create(genre(42, "anime", "Action", 10)).unwrap();
    let id = created.id.clone().unwrap();
    let before = svc.get_by_id(&id).unwrap().unwrap();
    let updated = svc
        .update(
            &id,
            UpdateGenreDto {
                mal_id: None,
                kind: None,
                name: Some("Adventure".to_string()),
                count: Some(11),
            },
        )
        .unwrap();
    let after = svc.get_by_id(&id).unwrap().unwrap();
    assert_eq!(updated, after);
    assert_eq!(after.name, "Adventure");
    assert_eq!(after.count, 11);
    assert_eq!(after.id, before.id);
    assert_eq!(after.mal_id, before.mal_id);
    assert_eq!(after.kind, before.kind);
}

#[test]
fn empty_update_applies_as_identity() {
    let mut svc = service();
    let created = svc.create(genre(42, "anime", "Action", 10)).unwrap();
    let id = created.id.clone().unwrap();
    let updated = svc
        .update(
            &id,
            UpdateGenreDto {
                mal_id: None,
                kind: None,
                name: None,
                count: None,
            },
        )
        .unwrap();
    assert_eq!(updated, created);
}

#[test]
fn pagination_windows_line_up_with_the_total() {
    let mut svc = service();
    svc.create(genre(1, "anime", "Action", 1)).unwrap();
    svc.create(genre(2, "anime", "Drama", 2)).unwrap();
    svc.create(genre(3, "anime", "Comedy", 3)).unwrap();

    let first = svc.get_paginated::<GenreFilter>(None, 1, 2).unwrap();
    assert_eq!(first.payload.len(), 2);
    assert_eq!(first.total, 3);
    assert_eq!(first.last_page, 2);
    assert_eq!(first.current_page, 1);
    assert_eq!(first.per_page, 2);
    assert_eq!(first.payload[0].name, "Action");
    assert_eq!(first.payload[1].name, "Drama");

    let second = svc.get_paginated::<GenreFilter>(None, 2, 2).unwrap();
    assert_eq!(second.payload.len(), 1);
    assert_eq!(second.payload[0].name, "Comedy");
}

#[test]
fn pagination_of_an_empty_collection() {
    let svc = service();
    let page = svc.get_paginated::<GenreFilter>(None, 1, 10).unwrap();
    assert_eq!(page.payload.len(), 0);
    assert_eq!(page.total, 0);
    assert_eq!(page.last_page, 0);
}

#[test]
fn delete_by_criteria_removes_the_matching_records_only() {
    let mut svc = service();
    svc.create(genre(1, "anime", "Action", 1)).unwrap();
    svc.create(genre(2, "manga", "Drama", 2)).unwrap();
    svc.create(genre(3, "anime", "Comedy", 3)).unwrap();
    svc.create(genre(4, "manga", "Horror", 4)).unwrap();
    svc.create(genre(5, "manga", "Sports", 5)).unwrap();

    let filter = GenreFilter {
        mal_id: None,
        kind: Some("anime".to_string()),
        name: None,
    };
    assert_eq!(svc.delete_by_criteria(&filter).unwrap(), 2);

    let rest = svc.get_all().unwrap();
    assert_eq!(rest.len(), 3);
    assert_eq!(rest[0].name, "Drama");
    assert_eq!(rest[1].name, "Horror");
    assert_eq!(rest[2].name, "Sports");
}

#[test]
fn count_honours_the_filter() {
    let mut svc = service();
    svc.create(genre(1, "anime", "Action", 1)).unwrap();
    svc.create(genre(2, "manga", "Drama", 2)).unwrap();
    svc.create(genre(3, "anime", "Comedy", 3)).unwrap();
    let filter = GenreFilter {
        mal_id: None,
        kind: Some("anime".to_string()),
        name: None,
    };
    assert_eq!(svc.count(Some(&filter)), 2);
    assert_eq!(svc.count::<GenreFilter>(None), 3);
}

#[test]
fn find_honours_filter_and_window() {
    let mut svc = service();
    for i in 0..5u64 {
        svc.create(genre(i, "anime", &format!("Genre{}", i), i)).unwrap();
    }
    let opts = FindOptions {
        skip: Some(1),
        limit: Some(2),
    };
    let got = svc.find::<GenreFilter>(None, Some(opts)).unwrap();
    assert_eq!(got.len(), 2);
    assert_eq!(got[0].mal_id, 1);
    assert_eq!(got[1].mal_id, 2);
}

#[test]
fn pagination_respects_the_filter() {
    let mut svc = service();
    svc.create(genre(1, "anime", "Action", 1)).unwrap();
    svc.create(genre(2, "manga", "Drama", 2)).unwrap();
    svc.create(genre(3, "anime", "Comedy", 3)).unwrap();
    svc.create(genre(4, "anime", "Horror", 4)).unwrap();
    let filter = GenreFilter {
        mal_id: None,
        kind: Some("anime".to_string()),
        name: None,
    };
    let page = svc.get_paginated(Some(&filter), 1, 2).unwrap();
    assert_eq!(page.total, 3);
    assert_eq!(page.last_page, 2);
    assert_eq!(page.payload.len(), 2);
    assert_eq!(page.payload[0].name, "Action");
    assert_eq!(page.payload[1].name, "Comedy");
    let second = svc.get_paginated(Some(&filter), 2, 2).unwrap();
    assert_eq!(second.payload.len(), 1);
    assert_eq!(second.payload[0].name, "Horror");
}

#[test]
fn wrapping_a_message_classifies_it_as_internal() {
    let e = AppError::from("boom".to_string());
    assert!(matches!(e, AppError::InternalServerError(_)));
    assert_eq!(e.status_code(), 500);
}

#[test]
fn repository_find_by_id_classifies_identifiers() {
    let mut repo: DatabaseRepository<Genre> = DatabaseRepository::new();
    let stored = repo
        .insert_one(Genre {
            id: None,
            mal_id: 1,
            kind: "anime".to_string(),
            name: "Action".to_string(),
            count: 0,
        })
        .unwrap();
    let id = stored.id.clone().unwrap();
    let got = repo.find_by_id(&id).unwrap().unwrap();
    assert_eq!(got, stored);
    assert!(matches!(repo.find_by_id("nope"), Err(AppError::InvalidIdentifier(_))));
    assert!(matches!(repo.find_by_id("0123456789abcdef01234567"), Ok(None)));
}
