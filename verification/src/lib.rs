//! A verified catalogue backend: a generic document repository and CRUD
//! service for anime/manga entities (anime, manga, characters, people,
//! genres, producers, magazines, clubs, reviews, users).
//!
//! The library models one storage collection per entity kind as an
//! in-memory sequence of records with storage-assigned identifiers, and
//! proves the documented behaviour of every repository and service
//! operation: lookups, inserts that hydrate a fresh identifier, partial
//! updates that change exactly the present fields, deletes that report
//! how many records they removed, pagination, and the error taxonomy
//! that keeps a malformed identifier distinct from a missing record.

pub mod anime;
pub mod app_error;
pub mod app_state;
pub mod character;
pub mod club;
pub mod crud;
pub mod db_repo;
pub mod deep_clone;
pub mod demographic;
pub mod entity;
pub mod entry;
pub mod error_response;
pub mod genre;
pub mod links;
pub mod magazine;
pub mod manga;
pub mod object_id;
pub mod pagination;
pub mod person;
pub mod producer;
pub mod review;
pub mod title_meta;
pub mod user;
