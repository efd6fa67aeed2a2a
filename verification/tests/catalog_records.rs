//! Round trips on the richer catalogue records: anime with its nested
//! airing data, manga with its publication data, users with account
//! timestamps, and clubs whose two timestamps start out equal.

use ponzu_back::anime::{
    Aired, AiredDto, AiredProp, AiredPropDto, AiredPropFromTo, AiredPropFromToDto, Anime,
    AnimeDto, AnimeFilter, BroadcastDto, CreateAnimeDto, UpdateAnimeDto,
};
use ponzu_back::club::{Club, ClubDto, ClubFilter, CreateClubDto, UpdateClubDto};
use ponzu_back::crud::{CrudService, CrudServiceImpl};
use ponzu_back::deep_clone::Reshape;
use ponzu_back::db_repo::DatabaseRepository;
use ponzu_back::links::{ExternalLink, ImageUrls, Images, Trailer};
use ponzu_back::manga::{
    CreateMangaDto, Manga, MangaDto, MangaFilter, PublishedDto, PublishedPropDto,
    PublishedPropFromToDto, UpdateMangaDto,
};
use ponzu_back::user::{RegisterUserDto, UpdateUserDto, User, UserDto, UserFilter};

fn image_urls(stem: &str) -> ImageUrls {
    ImageUrls {
        image_url: format!("https://img.test/{}.jpg", stem),
        small_image_url: format!("https://img.test/{}_s.jpg", stem),
        large_image_url: format!("https://img.test/{}_l.jpg", stem),
    }
}

fn images(stem: &str) -> Images {
    Images {
        jpg: image_urls(stem),
        webp: image_urls(stem),
    }
}

fn create_anime(title: &str) -> CreateAnimeDto {
    CreateAnimeDto {
        mal_id: 100,
        images: images(title),
        trailer: Trailer {
            youtube_id: "yt123".to_string(),
            url: "https://youtube.test/yt123".to_string(),
            embed_url: "https://youtube.test/embed/yt123".to_string(),
        },
        approved: true,
        titles: vec![],
        title: title.to_string(),
        title_english: title.to_string(),
        title_japanese: String::new(),
        title_synonyms: vec!["alias".to_string()],
        kind: "TV".to_string(),
        source: "Manga".to_string(),
        episodes: Some(12),
        status: "Finished Airing".to_string(),
        airing: false,
        aired: Some(AiredDto {
            from: Some(1_546_300_800_000),
            to: Some(1_553_990_400_000),
            prop: AiredPropDto {
                from: AiredPropFromToDto { day: 1, month: 1, year: 2019 },
                to: AiredPropFromToDto { day: 31, month: 3, year: 2019 },
                string: "Jan 1, 2019 to Mar 31, 2019".to_string(),
            },
        }),
        duration: "24 min per ep".to_string(),
        rating: "PG-13".to_string(),
        scored_by: 1000,
        members: 5000,
        favorites: 250,
        synopsis: "A story.".to_string(),
        background: String::new(),
        season: "winter".to_string(),
        year: Some(2019),
        broadcast: None,
        producers: vec![],
        licensors: vec![],
        studios: vec![],
        genres: vec![],
        explicit_genres: vec![],
        themes: vec![],
        demographics: vec![],
        relations: vec![],
        theme: None,
        external: vec![ExternalLink {
            name: "Official Site".to_string(),
            url: "https://anime.test".to_string(),
        }],
        streaming: vec![],
    }
}

fn create_manga(title: &str) -> CreateMangaDto {
    CreateMangaDto {
        mal_id: 7,
        images: images(title),
        approved: true,
        titles: vec![],
        title: title.to_string(),
        title_english: title.to_string(),
        title_japanese: String::new(),
        title_synonyms: vec![],
        kind: "Manga".to_string(),
        chapters: None,
        volumes: Some(3),
        status: "Publishing".to_string(),
        publishing: true,
        published: PublishedDto {
            from: Some(1_262_304_000_000),
            to: None,
            prop: PublishedPropDto {
                from: PublishedPropFromToDto { day: 1, month: 1, year: 2010 },
                to: PublishedPropFromToDto { day: 0, month: 0, year: 0 },
                string: "Jan 1, 2010 to ?".to_string(),
            },
        },
        scored_by: 10,
        members: 20,
        favorites: 3,
        synopsis: "Pages.".to_string(),
        background: String::new(),
        authors: vec![],
        serializations: vec![],
        genres: vec![],
        explicit_genres: vec![],
        themes: vec![],
        demographics: vec![],
        relations: vec![],
        external: vec![],
    }
}

#[test]
fn anime_round_trips_through_create_and_lookup() {
    let mut svc: CrudServiceImpl<Anime, AnimeDto, CreateAnimeDto, UpdateAnimeDto> =
        CrudServiceImpl::new(DatabaseRepository::new());
    let created = svc.create(create_anime("Planet")).unwrap();
    let id = created.id.clone().unwrap();
    let got = svc.get_by_id(&id).unwrap().unwrap();
    assert_eq!(got, created);
    assert_eq!(got.aired.as_ref().unwrap().prop.from.year, 2019);
}

#[test]
fn anime_update_replaces_nested_airing_data_and_keeps_the_rest() {
    let mut svc: CrudServiceImpl<Anime, AnimeDto, CreateAnimeDto, UpdateAnimeDto> =
        CrudServiceImpl::new(DatabaseRepository::new());
    let created = svc.create(create_anime("Planet")).unwrap();
    let id = created.id.clone().unwrap();
    let upd = UpdateAnimeDto {
        mal_id: None,
        images: None,
        trailer: None,
        approved: None,
        titles: None,
        title: Some("Planet Remastered".to_string()),
        title_english: None,
        title_japanese: None,
        title_synonyms: None,
        kind: None,
        source: None,
        episodes: Some(13),
        status: None,
        airing: None,
        aired: Some(AiredDto {
            from: Some(1_546_300_800_000),
            to: None,
            prop: AiredPropDto {
                from: AiredPropFromToDto { day: 1, month: 1, year: 2019 },
                to: AiredPropFromToDto { day: 0, month: 0, year: 0 },
                string: "Jan 1, 2019 to ?".to_string(),
            },
        }),
        duration: None,
        rating: None,
        scored_by: None,
        members: None,
        favorites: None,
        synopsis: None,
        background: None,
        season: None,
        year: None,
        broadcast: Some(BroadcastDto {
            day: "Sundays".to_string(),
            time: "00:00".to_string(),
            timezone: "Asia/Tokyo".to_string(),
            string: "Sundays at 00:00 (JST)".to_string(),
        }),
        producers: None,
        licensors: None,
        studios: None,
        genres: None,
        explicit_genres: None,
        themes: None,
        demographics: None,
        relations: None,
        theme: None,
        external: None,
        streaming: None,
    };
    let after = svc.update(&id, upd).unwrap();
    assert_eq!(after.title, "Planet Remastered");
    assert_eq!(after.episodes, Some(13));
    assert_eq!(after.aired.as_ref().unwrap().to, None);
    assert!(after.broadcast.is_some());
    // untouched fields are identical to the created record
    assert_eq!(after.id, created.id);
    assert_eq!(after.images, created.images);
    assert_eq!(after.trailer, created.trailer);
    assert_eq!(after.status, created.status);
    assert_eq!(after.year, created.year);
    assert_eq!(after.external, created.external);
}

#[test]
fn anime_filters_match_on_field_equality() {
    let mut svc: CrudServiceImpl<Anime, AnimeDto, CreateAnimeDto, UpdateAnimeDto> =
        CrudServiceImpl::new(DatabaseRepository::new());
    svc.create(create_anime("Planet")).unwrap();
    let mut other = create_anime("Comet");
    other.airing = true;
    other.year = Some(2024);
    svc.create(other).unwrap();
    let filter = AnimeFilter {
        mal_id: None,
        title: None,
        kind: None,
        status: None,
        airing: Some(true),
        season: None,
        year: Some(2024),
    };
    let got = svc.find(Some(&filter), None).unwrap();
    assert_eq!(got.len(), 1);
    assert_eq!(got[0].title, "Comet");
}

#[test]
fn manga_round_trips_and_bulk_deletes() {
    let mut svc: CrudServiceImpl<Manga, MangaDto, CreateMangaDto, UpdateMangaDto> =
        CrudServiceImpl::new(DatabaseRepository::new());
    let a = svc.create(create_manga("Ink")).unwrap();
    let mut publishing_done = create_manga("Done");
    publishing_done.publishing = false;
    svc.create(publishing_done).unwrap();
    let got = svc.get_by_id(a.id.as_ref().unwrap()).unwrap().unwrap();
    assert_eq!(got, a);
    let filter = MangaFilter {
        mal_id: None,
        title: None,
        kind: None,
        status: None,
        publishing: Some(false),
    };
    assert_eq!(svc.delete_by_criteria(&filter).unwrap(), 1);
    let rest = svc.get_all().unwrap();
    assert_eq!(rest.len(), 1);
    assert_eq!(rest[0].title, "Ink");
}

#[test]
fn registration_starts_inactive_with_equal_timestamps() {
    let mut svc: CrudServiceImpl<User, UserDto, RegisterUserDto, UpdateUserDto> =
        CrudServiceImpl::new(DatabaseRepository::new());
    let created = svc
        .create(RegisterUserDto {
            username: "rin".to_string(),
            email: "rin@mail.test".to_string(),
            password: "correct-horse-battery".to_string(),
            images: None,
            bio: Some("hello".to_string()),
            birth_date: None,
            registered_at: 1_700_000_000_000,
        })
        .unwrap();
    assert!(!created.is_active);
    assert!(!created.is_staff);
    assert!(!created.is_superuser);
    assert_eq!(created.created_at, 1_700_000_000_000);
    assert_eq!(created.updated_at, 1_700_000_000_000);
    assert_eq!(created.last_online, 1_700_000_000_000);
    let found = svc
        .find(
            Some(&UserFilter {
                username: Some("rin".to_string()),
                email: None,
            }),
            None,
        )
        .unwrap();
    assert_eq!(found.len(), 1);
    assert_eq!(found[0], created);
}

#[test]
fn user_new_sets_every_timestamp_to_the_given_instant() {
    let u = User::new(
        "rin".to_string(),
        "rin@mail.test".to_string(),
        "correct-horse-battery".to_string(),
        true,
        false,
        false,
        None,
        None,
        Some(631_152_000_000),
        1_700_000_000_000,
    );
    assert_eq!(u.id, None);
    assert!(u.is_active);
    assert_eq!(u.birth_date, Some(631_152_000_000));
    assert_eq!(u.created_at, 1_700_000_000_000);
    assert_eq!(u.updated_at, 1_700_000_000_000);
    assert_eq!(u.last_online, 1_700_000_000_000);
}

#[test]
fn club_creation_stamps_both_timestamps_with_the_given_instant() {
    let mut svc: CrudServiceImpl<Club, ClubDto, CreateClubDto, UpdateClubDto> =
        CrudServiceImpl::new(DatabaseRepository::new());
    let created = svc
        .create(CreateClubDto {
            name: "Readers".to_string(),
            description: None,
            members: vec!["rin".to_string()],
            access: "public".to_string(),
            category: "books".to_string(),
            created_at: 1_700_000_000_000,
        })
        .unwrap();
    assert_eq!(created.created_at, 1_700_000_000_000);
    assert_eq!(created.updated_at, 1_700_000_000_000);
    let updated = svc
        .update(
            created.id.as_ref().unwrap(),
            UpdateClubDto {
                name: None,
                description: Some("about books".to_string()),
                members: None,
                access: None,
                category: None,
            },
        )
        .unwrap();
    assert_eq!(updated.description.as_deref(), Some("about books"));
    assert_eq!(updated.members, created.members);
    let by_category = svc.count(Some(&ClubFilter {
        name: None,
        category: Some("books".to_string()),
    }));
    assert_eq!(by_category, 1);
}

#[test]
fn aired_components_reshape_losslessly() {
    let aired = Aired {
        from: Some(5),
        to: None,
        prop: AiredProp {
            from: AiredPropFromTo { day: 1, month: 2, year: 2003 },
            to: AiredPropFromTo { day: 0, month: 0, year: 0 },
            string: "range".to_string(),
        },
    };
    let dto: AiredDto = Reshape::reshape(&aired);
    let back: Aired = Reshape::reshape(&dto);
    assert_eq!(back, aired);
}
