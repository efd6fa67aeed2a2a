//! Round trips on the remaining entity kinds: characters and their
//! voice credits, people, reviews with their reaction counters,
//! magazines and producers.

use ponzu_back::character::{
    Character, CharacterDto, CharacterFilter, CharacterMediaDto, CharacterVoiceDto,
    CreateCharacterDto, UpdateCharacterDto,
};
use ponzu_back::crud::{CrudService, CrudServiceImpl};
use ponzu_back::db_repo::DatabaseRepository;
use ponzu_back::entry::EntryDto;
use ponzu_back::links::{ImageUrls, Images};
use ponzu_back::magazine::{CreateMagazineDto, Magazine, MagazineDto, MagazineFilter, UpdateMagazineDto};
use ponzu_back::person::{
    CreatePersonDto, Person, PersonDto, PersonFilter, PersonMediaDto, PersonVoiceDto,
    UpdatePersonDto,
};
use ponzu_back::producer::{CreateProducerDto, Producer, ProducerDto, ProducerFilter, UpdateProducerDto};
use ponzu_back::review::{
    CreateReviewDto, ReactionsDto, Review, ReviewDto, ReviewFilter, UpdateReviewDto,
};

fn images() -> Images {
    let urls = ImageUrls {
        image_url: "https://img.test/a.jpg".to_string(),
        small_image_url: "https://img.test/a_s.jpg".to_string(),
        large_image_url: "https://img.test/a_l.jpg".to_string(),
    };
    Images { jpg: urls.clone(), webp: urls }
}

#[test]
fn character_round_trips_with_media_and_voices() {
    let mut svc: CrudServiceImpl<Character, CharacterDto, CreateCharacterDto, UpdateCharacterDto> =
        CrudServiceImpl::new(DatabaseRepository::new());
    let created = svc
        .create(CreateCharacterDto {
            mal_id: 9,
            url: "https://chars.test/9".to_string(),
            images: images(),
            name: "Haru".to_string(),
            name_kanji: "春".to_string(),
            nicknames: vec!["H".to_string()],
            favorites: 4,
            about: "A lead.".to_string(),
            anime: vec![CharacterMediaDto {
                role: "Main".to_string(),
                media: "Planet".to_string(),
            }],
            manga: vec![],
            voices: vec![CharacterVoiceDto {
                language: "Japanese".to_string(),
                person: "Aoi".to_string(),
            }],
        })
        .unwrap();
    let got = svc.get_by_id(created.id.as_ref().unwrap()).unwrap().unwrap();
    assert_eq!(got, created);
    assert_eq!(got.anime[0].role, "Main");
    assert_eq!(got.voices[0].person, "Aoi");
    let by_name = svc.count(Some(&CharacterFilter {
        mal_id: None,
        name: Some("Haru".to_string()),
    }));
    assert_eq!(by_name, 1);
}

#[test]
fn person_update_changes_only_the_present_fields() {
    let mut svc: CrudServiceImpl<Person, PersonDto, CreatePersonDto, UpdatePersonDto> =
        CrudServiceImpl::new(DatabaseRepository::new());
    let created = svc
        .create(CreatePersonDto {
            mal_id: 77,
            url: "https://people.test/77".to_string(),
            website_url: String::new(),
            images: images(),
            name: "Aoi Sora".to_string(),
            given_name: "Aoi".to_string(),
            family_name: "Sora".to_string(),
            alternate_names: vec![],
            birthday: 631_152_000_000,
            favorites: 12,
            about: String::new(),
            anime: vec![PersonMediaDto {
                position: "Director".to_string(),
                media: "Planet".to_string(),
            }],
            manga: vec![],
            voices: vec![PersonVoiceDto {
                role: "Main".to_string(),
                anime: "Planet".to_string(),
                character: "Haru".to_string(),
            }],
        })
        .unwrap();
    let id = created.id.clone().unwrap();
    let after = svc
        .update(
            &id,
            UpdatePersonDto {
                mal_id: None,
                url: None,
                website_url: Some("https://aoi.test".to_string()),
                images: None,
                name: None,
                given_name: None,
                family_name: None,
                alternate_names: None,
                birthday: None,
                favorites: Some(13),
                about: None,
                anime: None,
                manga: None,
                voices: None,
            },
        )
        .unwrap();
    assert_eq!(after.website_url, "https://aoi.test");
    assert_eq!(after.favorites, 13);
    assert_eq!(after.name, created.name);
    assert_eq!(after.birthday, created.birthday);
    assert_eq!(after.voices, created.voices);
    let found = svc.count(Some(&PersonFilter {
        mal_id: Some(77),
        name: None,
        family_name: Some("Sora".to_string()),
    }));
    assert_eq!(found, 1);
}

#[test]
fn review_reactions_round_trip() {
    let mut svc: CrudServiceImpl<Review, ReviewDto, CreateReviewDto, UpdateReviewDto> =
        CrudServiceImpl::new(DatabaseRepository::new());
    let created = svc
        .create(CreateReviewDto {
            mal_id: 3,
            url: "https://reviews.test/3".to_string(),
            kind: "anime".to_string(),
            reactions: ReactionsDto {
                overall: 10,
                nice: 4,
                love_it: 3,
                funny: 1,
                confusing: 0,
                informative: 1,
                well_written: 1,
                creative: 0,
            },
            date: 1_600_000_000_000,
            review: "Good.".to_string(),
            score: 8,
            tags: vec!["Recommended".to_string()],
            is_spoiler: false,
            is_preliminary: true,
            episodes_watched: Some(6),
            entry: "Planet".to_string(),
            user: "rin".to_string(),
        })
        .unwrap();
    let got = svc.get_by_id(created.id.as_ref().unwrap()).unwrap().unwrap();
    assert_eq!(got, created);
    assert_eq!(got.reactions.overall, 10);
    let updated = svc
        .update(
            created.id.as_ref().unwrap(),
            UpdateReviewDto {
                mal_id: None,
                url: None,
                kind: None,
                reactions: None,
                date: None,
                review: None,
                score: Some(9),
                tags: None,
                is_spoiler: None,
                is_preliminary: Some(false),
                episodes_watched: Some(12),
                entry: None,
                user: None,
            },
        )
        .unwrap();
    assert_eq!(updated.score, 9);
    assert_eq!(updated.episodes_watched, Some(12));
    assert!(!updated.is_preliminary);
    assert_eq!(updated.reactions, created.reactions);
    let spoiler_free = svc.count(Some(&ReviewFilter {
        mal_id: None,
        kind: Some("anime".to_string()),
        user: Some("rin".to_string()),
        is_spoiler: Some(false),
    }));
    assert_eq!(spoiler_free, 1);
}

#[test]
fn magazine_crud_round_trip() {
    let mut svc: CrudServiceImpl<Magazine, MagazineDto, CreateMagazineDto, UpdateMagazineDto> =
        CrudServiceImpl::new(DatabaseRepository::new());
    let created = svc
        .create(CreateMagazineDto {
            mal_id: 21,
            name: "Monthly Panels".to_string(),
            count: 100,
        })
        .unwrap();
    let updated = svc
        .update(
            created.id.as_ref().unwrap(),
            UpdateMagazineDto {
                mal_id: None,
                name: None,
                count: Some(101),
            },
        )
        .unwrap();
    assert_eq!(updated.count, 101);
    assert_eq!(updated.name, created.name);
    assert_eq!(
        svc.count(Some(&MagazineFilter { mal_id: Some(21), name: None })),
        1
    );
    assert_eq!(svc.delete(created.id.as_ref().unwrap()).unwrap(), true);
    assert!(svc.get_all().unwrap().is_empty());
}

#[test]
fn producer_round_trip() {
    let mut svc: CrudServiceImpl<Producer, ProducerDto, CreateProducerDto, UpdateProducerDto> =
        CrudServiceImpl::new(DatabaseRepository::new());
    let created = svc
        .create(CreateProducerDto {
            mal_id: 8,
            titles: vec![],
            images: Some(images()),
            favorites: 2,
            count: 30,
            established: "1999".to_string(),
            about: "A studio.".to_string(),
            external: vec![],
        })
        .unwrap();
    let got = svc.get_by_id(created.id.as_ref().unwrap()).unwrap().unwrap();
    assert_eq!(got, created);
    assert_eq!(
        svc.count(Some(&ProducerFilter {
            mal_id: None,
            established: Some("1999".to_string()),
        })),
        1
    );
}

#[test]
fn entry_dto_holds_its_parts() {
    let entry = EntryDto {
        id: "0123456789abcdef01234567".to_string(),
        mal_id: 100,
        url: "https://anime.test/100".to_string(),
        images: images(),
        title: "Planet".to_string(),
    };
    assert_eq!(entry.title, "Planet");
    assert_eq!(entry.id.len(), 24);
}
