//! Process-wide application state.
//!
//! One CRUD service per entity kind, each bound to its own
//! collection, built once at startup and handed to every request
//! handler for the lifetime of the process.

use vstd::prelude::*;

use crate::crud::{CrudService, CrudServiceImpl};
use crate::db_repo::DatabaseRepository;
use crate::anime::{Anime, AnimeDto, AnimeView, CreateAnimeDto, UpdateAnimeDto};
use crate::character::{Character, CharacterDto, CharacterView, CreateCharacterDto, UpdateCharacterDto};
use crate::club::{Club, ClubDto, ClubView, CreateClubDto, UpdateClubDto};
use crate::genre::{CreateGenreDto, Genre, GenreDto, GenreView, UpdateGenreDto};
use crate::magazine::{CreateMagazineDto, Magazine, MagazineDto, MagazineView, UpdateMagazineDto};
use crate::manga::{CreateMangaDto, Manga, MangaDto, MangaView, UpdateMangaDto};
use crate::person::{CreatePersonDto, Person, PersonDto, PersonView, UpdatePersonDto};
use crate::producer::{CreateProducerDto, Producer, ProducerDto, ProducerView, UpdateProducerDto};
use crate::review::{CreateReviewDto, Review, ReviewDto, ReviewView, UpdateReviewDto};
use crate::user::{RegisterUserDto, UpdateUserDto, User, UserDto, UserView};

verus! {

/// The application state: one CRUD service per entity kind.
pub struct AppState {
    pub anime_service: CrudServiceImpl<Anime, AnimeDto, CreateAnimeDto, UpdateAnimeDto>,
    pub character_service: CrudServiceImpl<Character, CharacterDto, CreateCharacterDto, UpdateCharacterDto>,
    pub club_service: CrudServiceImpl<Club, ClubDto, CreateClubDto, UpdateClubDto>,
    pub genre_service: CrudServiceImpl<Genre, GenreDto, CreateGenreDto, UpdateGenreDto>,
    pub magazine_service: CrudServiceImpl<Magazine, MagazineDto, CreateMagazineDto, UpdateMagazineDto>,
    pub manga_service: CrudServiceImpl<Manga, MangaDto, CreateMangaDto, UpdateMangaDto>,
    pub people_service: CrudServiceImpl<Person, PersonDto, CreatePersonDto, UpdatePersonDto>,
    pub producer_service: CrudServiceImpl<Producer, ProducerDto, CreateProducerDto, UpdateProducerDto>,
    pub review_service: CrudServiceImpl<Review, ReviewDto, CreateReviewDto, UpdateReviewDto>,
    pub user_service: CrudServiceImpl<User, UserDto, RegisterUserDto, UpdateUserDto>,
}

impl AppState {
    /// Build the state with one fresh, empty collection per entity
    /// kind.
    pub fn new() -> (r: AppState)
        ensures
            r.anime_service.wf(),
            r.anime_service.models() == Seq::<AnimeView>::empty(),
            r.anime_service.id_bound() == 0,
            r.character_service.wf(),
            r.character_service.models() == Seq::<CharacterView>::empty(),
            r.character_service.id_bound() == 0,
            r.club_service.wf(),
            r.club_service.models() == Seq::<ClubView>::empty(),
            r.club_service.id_bound() == 0,
            r.genre_service.wf(),
            r.genre_service.models() == Seq::<GenreView>::empty(),
            r.genre_service.id_bound() == 0,
            r.magazine_service.wf(),
            r.magazine_service.models() == Seq::<MagazineView>::empty(),
            r.magazine_service.id_bound() == 0,
            r.manga_service.wf(),
            r.manga_service.models() == Seq::<MangaView>::empty(),
            r.manga_service.id_bound() == 0,
            r.people_service.wf(),
            r.people_service.models() == Seq::<PersonView>::empty(),
            r.people_service.id_bound() == 0,
            r.producer_service.wf(),
            r.producer_service.models() == Seq::<ProducerView>::empty(),
            r.producer_service.id_bound() == 0,
            r.review_service.wf(),
            r.review_service.models() == Seq::<ReviewView>::empty(),
            r.review_service.id_bound() == 0,
            r.user_service.wf(),
            r.user_service.models() == Seq::<UserView>::empty(),
            r.user_service.id_bound() == 0,
    {
        AppState {
            anime_service: CrudServiceImpl::new(DatabaseRepository::new()),
            character_service: CrudServiceImpl::new(DatabaseRepository::new()),
            club_service: CrudServiceImpl::new(DatabaseRepository::new()),
            genre_service: CrudServiceImpl::new(DatabaseRepository::new()),
            magazine_service: CrudServiceImpl::new(DatabaseRepository::new()),
            manga_service: CrudServiceImpl::new(DatabaseRepository::new()),
            people_service: CrudServiceImpl::new(DatabaseRepository::new()),
            producer_service: CrudServiceImpl::new(DatabaseRepository::new()),
            review_service: CrudServiceImpl::new(DatabaseRepository::new()),
            user_service: CrudServiceImpl::new(DatabaseRepository::new()),
        }
    }
}

} // verus!
