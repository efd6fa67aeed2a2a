//! Person records and their DTOs.
//!
//! Birthdays are carried as milliseconds since the epoch.

use vstd::prelude::*;

use crate::deep_clone::{DeepClone, Reshape};
use crate::entity::{CreateDto, Entity, ReadDto, Selector, UpdateDto};
use crate::links::{Images, ImagesView};

verus! {

/// Mathematical model of a person's role in a work.
pub struct PersonMediaView {
    pub position: Seq<char>,
    pub media: Seq<char>,
}

/// A person's role in a work.
#[derive(Debug, Clone, PartialEq, Eq)]
pub struct PersonMedia {
    pub position: String,
    pub media: String,
}

impl DeepView for PersonMedia {
    type V = PersonMediaView;

    open spec fn deep_view(&self) -> PersonMediaView {
        PersonMediaView {
            position: self.position.deep_view(),
            media: self.media.deep_view(),
        }
    }
}

impl DeepClone for PersonMedia {
    fn deep_clone(&self) -> (r: Self)
        ensures
            r.deep_view() == self.deep_view(),
    {
        PersonMedia {
            position: self.position.deep_clone(),
            media: self.media.deep_clone(),
        }
    }
}

/// DTO shape of a person's role in a work.
#[derive(Debug, Clone, PartialEq, Eq)]
pub struct PersonMediaDto {
    pub position: String,
    pub media: String,
}

impl DeepView for PersonMediaDto {
    type V = PersonMediaView;

    open spec fn deep_view(&self) -> PersonMediaView {
        PersonMediaView {
            position: self.position.deep_view(),
            media: self.media.deep_view(),
        }
    }
}

impl Reshape<PersonMedia> for PersonMediaDto {
    fn reshape(a: &PersonMedia) -> (r: Self)
        ensures
            r.deep_view() == a.deep_view(),
    {
        PersonMediaDto {
            position: a.position.deep_clone(),
            media: a.media.deep_clone(),
        }
    }
}

impl Reshape<PersonMediaDto> for PersonMedia {
    fn reshape(a: &PersonMediaDto) -> (r: Self)
        ensures
            r.deep_view() == a.deep_view(),
    {
        PersonMedia {
            position: a.position.deep_clone(),
            media: a.media.deep_clone(),
        }
    }
}

/// Mathematical model of a person's voice credit.
pub struct PersonVoiceView {
    pub role: Seq<char>,
    pub anime: Seq<char>,
    pub character: Seq<char>,
}

/// A person's voice credit.
#[derive(Debug, Clone, PartialEq, Eq)]
pub struct PersonVoice {
    pub role: String,
    pub anime: String,
    pub character: String,
}

impl DeepView for PersonVoice {
    type V = PersonVoiceView;

    open spec fn deep_view(&self) -> PersonVoiceView {
        PersonVoiceView {
            role: self.role.deep_view(),
            anime: self.anime.deep_view(),
            character: self.character.deep_view(),
        }
    }
}

impl DeepClone for PersonVoice {
    fn deep_clone(&self) -> (r: Self)
        ensures
            r.deep_view() == self.deep_view(),
    {
        PersonVoice {
            role: self.role.deep_clone(),
            anime: self.anime.deep_clone(),
            character: self.character.deep_clone(),
        }
    }
}

/// DTO shape of a person's voice credit.
#[derive(Debug, Clone, PartialEq, Eq)]
pub struct PersonVoiceDto {
    pub role: String,
    pub anime: String,
    pub character: String,
}

impl DeepView for PersonVoiceDto {
    type V = PersonVoiceView;

    open spec fn deep_view(&self) -> PersonVoiceView {
        PersonVoiceView {
            role: self.role.deep_view(),
            anime: self.anime.deep_view(),
            character: self.character.deep_view(),
        }
    }
}

impl Reshape<PersonVoice> for PersonVoiceDto {
    fn reshape(a: &PersonVoice) -> (r: Self)
        ensures
            r.deep_view() == a.deep_view(),
    {
        PersonVoiceDto {
            role: a.role.deep_clone(),
            anime: a.anime.deep_clone(),
            character: a.character.deep_clone(),
        }
    }
}

impl Reshape<PersonVoiceDto> for PersonVoice {
    fn reshape(a: &PersonVoiceDto) -> (r: Self)
        ensures
            r.deep_view() == a.deep_view(),
    {
        PersonVoice {
            role: a.role.deep_clone(),
            anime: a.anime.deep_clone(),
            character: a.character.deep_clone(),
        }
    }
}

/// Mathematical model of a person record.
pub struct PersonView {
    pub id: Option<Seq<char>>,
    pub mal_id: u64,
    pub url: Seq<char>,
    pub website_url: Seq<char>,
    pub images: ImagesView,
    pub name: Seq<char>,
    pub given_name: Seq<char>,
    pub family_name: Seq<char>,
    pub alternate_names: Seq<Seq<char>>,
    pub birthday: i64,
    pub favorites: u64,
    pub about: Seq<char>,
    pub anime: Seq<PersonMediaView>,
    pub manga: Seq<PersonMediaView>,
    pub voices: Seq<PersonVoiceView>,
}

/// A person record.
#[derive(Debug, Clone, PartialEq, Eq)]
pub struct Person {
    pub id: Option<String>,
    pub mal_id: u64,
    pub url: String,
    pub website_url: String,
    pub images: Images,
    pub name: String,
    pub given_name: String,
    pub family_name: String,
    pub alternate_names: Vec<String>,
    pub birthday: i64,
    pub favorites: u64,
    pub about: String,
    pub anime: Vec<PersonMedia>,
    pub manga: Vec<PersonMedia>,
    pub voices: Vec<PersonVoice>,
}

impl DeepView for Person {
    type V = PersonView;

    open spec fn deep_view(&self) -> PersonView {
        PersonView {
            id: self.id.deep_view(),
            mal_id: self.mal_id,
            url: self.url.deep_view(),
            website_url: self.website_url.deep_view(),
            images: self.images.deep_view(),
            name: self.name.deep_view(),
            given_name: self.given_name.deep_view(),
            family_name: self.family_name.deep_view(),
            alternate_names: self.alternate_names.deep_view(),
            birthday: self.birthday,
            favorites: self.favorites,
            about: self.about.deep_view(),
            anime: self.anime.deep_view(),
            manga: self.manga.deep_view(),
            voices: self.voices.deep_view(),
        }
    }
}

impl DeepClone for Person {
    fn deep_clone(&self) -> (r: Self)
        ensures
            r.deep_view() == self.deep_view(),
    {
        Person {
            id: self.id.deep_clone(),
            mal_id: self.mal_id,
            url: self.url.deep_clone(),
            website_url: self.website_url.deep_clone(),
            images: self.images.deep_clone(),
            name: self.name.deep_clone(),
            given_name: self.given_name.deep_clone(),
            family_name: self.family_name.deep_clone(),
            alternate_names: self.alternate_names.deep_clone(),
            birthday: self.birthday,
            favorites: self.favorites,
            about: self.about.deep_clone(),
            anime: self.anime.deep_clone(),
            manga: self.manga.deep_clone(),
            voices: self.voices.deep_clone(),
        }
    }
}

impl Entity for Person {
    open spec fn model_id(m: PersonView) -> Option<Seq<char>> {
        m.id
    }

    open spec fn model_with_id(m: PersonView, id: Option<Seq<char>>) -> PersonView {
        PersonView { id, ..m }
    }

    proof fn lemma_model_with_id(m: PersonView, id: Option<Seq<char>>) {
    }

    fn id(&self) -> (r: Option<String>) {
        self.id.deep_clone()
    }

    fn with_id(self, id: Option<String>) -> (r: Self) {
        Person { id, ..self }
    }
}

/// Read DTO of a person: the record as exposed externally.
#[derive(Debug, Clone, PartialEq, Eq)]
pub struct PersonDto {
    pub id: Option<String>,
    pub mal_id: u64,
    pub url: String,
    pub website_url: String,
    pub images: Images,
    pub name: String,
    pub given_name: String,
    pub family_name: String,
    pub alternate_names: Vec<String>,
    pub birthday: i64,
    pub favorites: u64,
    pub about: String,
    pub anime: Vec<PersonMediaDto>,
    pub manga: Vec<PersonMediaDto>,
    pub voices: Vec<PersonVoiceDto>,
}

impl DeepView for PersonDto {
    type V = PersonView;

    open spec fn deep_view(&self) -> PersonView {
        PersonView {
            id: self.id.deep_view(),
            mal_id: self.mal_id,
            url: self.url.deep_view(),
            website_url: self.website_url.deep_view(),
            images: self.images.deep_view(),
            name: self.name.deep_view(),
            given_name: self.given_name.deep_view(),
            family_name: self.family_name.deep_view(),
            alternate_names: self.alternate_names.deep_view(),
            birthday: self.birthday,
            favorites: self.favorites,
            about: self.about.deep_view(),
            anime: self.anime.deep_view(),
            manga: self.manga.deep_view(),
            voices: self.voices.deep_view(),
        }
    }
}

impl ReadDto<Person> for PersonDto {
    open spec fn of_model(m: PersonView) -> PersonView {
        m
    }

    fn of_entity(e: &Person) -> (r: Self) {
        PersonDto {
            id: e.id.deep_clone(),
            mal_id: e.mal_id,
            url: e.url.deep_clone(),
            website_url: e.website_url.deep_clone(),
            images: e.images.deep_clone(),
            name: e.name.deep_clone(),
            given_name: e.given_name.deep_clone(),
            family_name: e.family_name.deep_clone(),
            alternate_names: e.alternate_names.deep_clone(),
            birthday: e.birthday,
            favorites: e.favorites,
            about: e.about.deep_clone(),
            anime: Reshape::reshape(&e.anime),
            manga: Reshape::reshape(&e.manga),
            voices: Reshape::reshape(&e.voices),
        }
    }
}

/// Create DTO of a person: external input for a new record; the identifier is left for storage to assign.
#[derive(Debug, Clone, PartialEq, Eq)]
pub struct CreatePersonDto {
    pub mal_id: u64,
    pub url: String,
    pub website_url: String,
    pub images: Images,
    pub name: String,
    pub given_name: String,
    pub family_name: String,
    pub alternate_names: Vec<String>,
    pub birthday: i64,
    pub favorites: u64,
    pub about: String,
    pub anime: Vec<PersonMediaDto>,
    pub manga: Vec<PersonMediaDto>,
    pub voices: Vec<PersonVoiceDto>,
}

impl CreateDto<Person> for CreatePersonDto {
    open spec fn entity_model(&self) -> PersonView {
        PersonView {
            id: None,
            mal_id: self.mal_id,
            url: self.url.deep_view(),
            website_url: self.website_url.deep_view(),
            images: self.images.deep_view(),
            name: self.name.deep_view(),
            given_name: self.given_name.deep_view(),
            family_name: self.family_name.deep_view(),
            alternate_names: self.alternate_names.deep_view(),
            birthday: self.birthday,
            favorites: self.favorites,
            about: self.about.deep_view(),
            anime: self.anime.deep_view(),
            manga: self.manga.deep_view(),
            voices: self.voices.deep_view(),
        }
    }

    fn into_entity(self) -> (e: Person) {
        Person {
            id: None,
            mal_id: self.mal_id,
            url: self.url,
            website_url: self.website_url,
            images: self.images,
            name: self.name,
            given_name: self.given_name,
            family_name: self.family_name,
            alternate_names: self.alternate_names,
            birthday: self.birthday,
            favorites: self.favorites,
            about: self.about,
            anime: Reshape::reshape(&self.anime),
            manga: Reshape::reshape(&self.manga),
            voices: Reshape::reshape(&self.voices),
        }
    }
}

/// Update DTO of a person: every field optional, absence meaning
/// "leave unchanged".
#[derive(Debug, Clone, PartialEq, Eq)]
pub struct UpdatePersonDto {
    pub mal_id: Option<u64>,
    pub url: Option<String>,
    pub website_url: Option<String>,
    pub images: Option<Images>,
    pub name: Option<String>,
    pub given_name: Option<String>,
    pub family_name: Option<String>,
    pub alternate_names: Option<Vec<String>>,
    pub birthday: Option<i64>,
    pub favorites: Option<u64>,
    pub about: Option<String>,
    pub anime: Option<Vec<PersonMediaDto>>,
    pub manga: Option<Vec<PersonMediaDto>>,
    pub voices: Option<Vec<PersonVoiceDto>>,
}

impl UpdateDto<Person> for UpdatePersonDto {
    open spec fn merged(&self, m: PersonView) -> PersonView {
        PersonView {
            id: m.id,
            mal_id: if self.mal_id is Some {
                self.mal_id->0
            } else {
                m.mal_id
            },
            url: if self.url is Some {
                (self.url->0)@
            } else {
                m.url
            },
            website_url: if self.website_url is Some {
                (self.website_url->0)@
            } else {
                m.website_url
            },
            images: if self.images is Some {
                (self.images->0).deep_view()
            } else {
                m.images
            },
            name: if self.name is Some {
                (self.name->0)@
            } else {
                m.name
            },
            given_name: if self.given_name is Some {
                (self.given_name->0)@
            } else {
                m.given_name
            },
            family_name: if self.family_name is Some {
                (self.family_name->0)@
            } else {
                m.family_name
            },
            alternate_names: if self.alternate_names is Some {
                (self.alternate_names->0).deep_view()
            } else {
                m.alternate_names
            },
            birthday: if self.birthday is Some {
                self.birthday->0
            } else {
                m.birthday
            },
            favorites: if self.favorites is Some {
                self.favorites->0
            } else {
                m.favorites
            },
            about: if self.about is Some {
                (self.about->0)@
            } else {
                m.about
            },
            anime: if self.anime is Some {
                (self.anime->0).deep_view()
            } else {
                m.anime
            },
            manga: if self.manga is Some {
                (self.manga->0).deep_view()
            } else {
                m.manga
            },
            voices: if self.voices is Some {
                (self.voices->0).deep_view()
            } else {
                m.voices
            },
        }
    }

    proof fn lemma_merged_id(&self, m: PersonView) {
    }

    fn apply(&self, e: &Person) -> (r: Person) {
        Person {
            id: e.id.deep_clone(),
            mal_id: match &self.mal_id {
                Some(v) => *v,
                None => e.mal_id,
            },
            url: match &self.url {
                Some(v) => v.deep_clone(),
                None => e.url.deep_clone(),
            },
            website_url: match &self.website_url {
                Some(v) => v.deep_clone(),
                None => e.website_url.deep_clone(),
            },
            images: match &self.images {
                Some(v) => v.deep_clone(),
                None => e.images.deep_clone(),
            },
            name: match &self.name {
                Some(v) => v.deep_clone(),
                None => e.name.deep_clone(),
            },
            given_name: match &self.given_name {
                Some(v) => v.deep_clone(),
                None => e.given_name.deep_clone(),
            },
            family_name: match &self.family_name {
                Some(v) => v.deep_clone(),
                None => e.family_name.deep_clone(),
            },
            alternate_names: match &self.alternate_names {
                Some(v) => v.deep_clone(),
                None => e.alternate_names.deep_clone(),
            },
            birthday: match &self.birthday {
                Some(v) => *v,
                None => e.birthday,
            },
            favorites: match &self.favorites {
                Some(v) => *v,
                None => e.favorites,
            },
            about: match &self.about {
                Some(v) => v.deep_clone(),
                None => e.about.deep_clone(),
            },
            anime: match &self.anime {
                Some(v) => Reshape::reshape(v),
                None => e.anime.deep_clone(),
            },
            manga: match &self.manga {
                Some(v) => Reshape::reshape(v),
                None => e.manga.deep_clone(),
            },
            voices: match &self.voices {
                Some(v) => Reshape::reshape(v),
                None => e.voices.deep_clone(),
            },
        }
    }
}

/// Equality conditions on a person fields; a record matches when
/// every present condition holds, as with the storage engine's
/// field-value filter documents.
#[derive(Debug, Clone, PartialEq, Eq)]
pub struct PersonFilter {
    pub mal_id: Option<u64>,
    pub name: Option<String>,
    pub family_name: Option<String>,
}

impl Selector<Person> for PersonFilter {
    open spec fn selects(&self, m: PersonView) -> bool {
        &&& (self.mal_id is Some ==> m.mal_id == self.mal_id->0)
        &&& (self.name is Some ==> m.name == (self.name->0)@)
        &&& (self.family_name is Some ==> m.family_name == (self.family_name->0)@)
    }

    fn test(&self, e: &Person) -> (b: bool) {
        let mal_id_ok = match &self.mal_id {
            Some(v) => e.mal_id == *v,
            None => true,
        };
        let name_ok = match &self.name {
            Some(v) => e.name == *v,
            None => true,
        };
        let family_name_ok = match &self.family_name {
            Some(v) => e.family_name == *v,
            None => true,
        };
        mal_id_ok && name_ok && family_name_ok
    }
}

} // verus!
